//! Joining Windows paths, as text.

use vstd::prelude::*;
use vstd::string::StringExecFns;
use crate::text::chars_of;

verus! {

/// A backslash or a slash.
pub open spec fn is_separator(c: char) -> bool {
    c == '\\' || c == '/'
}

/// A drive letter and a colon, and nothing more.
pub open spec fn is_bare_drive(path: Seq<char>) -> bool {
    path.len() == 2 && path[1] == ':' && (('a' <= path[0] <= 'z') || ('A' <= path[0] <= 'Z'))
}

/// True where `child` goes directly behind `base`: `base` is empty, ends in a
/// separator, or names a drive only.
pub open spec fn joins_directly(base: Seq<char>) -> bool {
    base.len() == 0 || is_separator(base.last()) || is_bare_drive(base)
}

/// The path of the relative name `child` under `base`, written with a backslash
/// between the two where `base` does not already end in a separator.
pub open spec fn joined_path(base: Seq<char>, child: Seq<char>) -> Seq<char> {
    if joins_directly(base) {
        base + child
    } else {
        base + seq!['\\'] + child
    }
}

/// Joins the relative name `child` to the path `base`.
pub fn join_path(base: &str, child: &str) -> (path: String)
    ensures
        path@ == joined_path(base@, child@),
{
    let chars = chars_of(base);
    let n = chars.len();
    let direct = n == 0 || chars[n - 1] == '\\' || chars[n - 1] == '/' || (n == 2 && chars[1] == ':'
        && (('a' <= chars[0] && chars[0] <= 'z') || ('A' <= chars[0] && chars[0] <= 'Z')));
    let mut path = String::from_str(base);
    if !direct {
        path.append("\\");
        proof {
            reveal_strlit("\\");
            assert("\\"@ =~= seq!['\\']);
        }
    }
    path.append(child);
    path
}

} // verus!
