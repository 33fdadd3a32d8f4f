//! Version tags of Blender's configuration directories: `major[.minor[.patch]]`,
//! ordered as triples of numbers.

use crate::text::chars_of;
use vstd::prelude::*;

verus! {

/// One of the ten decimal digits of ASCII.
pub open spec fn is_digit(c: char) -> bool {
    '0' <= c <= '9'
}

/// The number that a decimal digit stands for; 0 for any other character.
pub open spec fn digit_value(c: char) -> nat {
    if is_digit(c) {
        (c as u32 - 48) as nat
    } else {
        0
    }
}

/// The number that a run of decimal digits stands for.
pub open spec fn digits_value(s: Seq<char>) -> nat
    decreases s.len(),
{
    if s.len() == 0 {
        0
    } else {
        digits_value(s.drop_last()) * 10 + digit_value(s.last())
    }
}

/// True where every character is a decimal digit.
pub open spec fn all_digits(s: Seq<char>) -> bool {
    forall|i: int| 0 <= i < s.len() ==> is_digit(#[trigger] s[i])
}

/// One component of a version: an optional plus sign and then one or more decimal
/// digits, whose number fits 32 bits.
pub open spec fn parse_number(s: Seq<char>) -> Option<u32> {
    let digits = if s.len() > 0 && s[0] == '+' {
        s.skip(1)
    } else {
        s
    };
    if digits.len() > 0 && all_digits(digits) && digits_value(digits) <= u32::MAX {
        Some(digits_value(digits) as u32)
    } else {
        None
    }
}

/// The index of the first dot at or after `from`, or the length where there is none.
pub open spec fn dot_index(s: Seq<char>, from: int) -> int
    decreases s.len() - from,
{
    if 0 <= from < s.len() && s[from] != '.' {
        dot_index(s, from + 1)
    } else {
        from
    }
}

/// The triple of three components, where each of them is a number.
pub open spec fn triple(major: Option<u32>, minor: Option<u32>, patch: Option<u32>) -> Option<
    (u32, u32, u32),
> {
    match (major, minor, patch) {
        (Some(major), Some(minor), Some(patch)) => Some((major, minor, patch)),
        _ => None,
    }
}

/// The version that a name of the form `major[.minor[.patch]]` stands for, with 0
/// for a component that is left out. A name with an empty or non-numeric
/// component, or with more than three components, is no version.
pub open spec fn parse_version(s: Seq<char>) -> Option<(u32, u32, u32)> {
    let first = dot_index(s, 0);
    let major = parse_number(s.subrange(0, first));
    if first >= s.len() {
        triple(major, Some(0), Some(0))
    } else {
        let second = dot_index(s, first + 1);
        let minor = parse_number(s.subrange(first + 1, second));
        if second >= s.len() {
            triple(major, minor, Some(0))
        } else {
            let third = dot_index(s, second + 1);
            if third < s.len() {
                None
            } else {
                triple(major, minor, parse_number(s.subrange(second + 1, third)))
            }
        }
    }
}

/// The order of versions: by major, then minor, then patch number.
pub open spec fn version_lt(a: (u32, u32, u32), b: (u32, u32, u32)) -> bool {
    a.0 < b.0 || (a.0 == b.0 && (a.1 < b.1 || (a.1 == b.1 && a.2 < b.2)))
}

/// A run of digits stands for at least as much as any of its beginnings.
proof fn lemma_digits_value_grows(s: Seq<char>, k: int)
    requires
        0 <= k <= s.len(),
    ensures
        digits_value(s.take(k)) <= digits_value(s),
    decreases s.len() - k,
{
    if k == s.len() {
        assert(s.take(k) =~= s);
    } else {
        lemma_digits_value_grows(s, k + 1);
        assert(s.take(k + 1).drop_last() =~= s.take(k));
    }
}

/// Reads the component `chars[from..to]`.
fn parse_component(chars: &Vec<char>, from: usize, to: usize) -> (number: Option<u32>)
    requires
        from <= to <= chars.len(),
    ensures
        number == parse_number(chars@.subrange(from as int, to as int)),
{
    let ghost whole = chars@.subrange(from as int, to as int);
    let mut start: usize = from;
    if start < to && chars[start] == '+' {
        start += 1;
    }
    let ghost digits = chars@.subrange(start as int, to as int);
    assert(digits =~= if whole.len() > 0 && whole[0] == '+' {
        whole.skip(1)
    } else {
        whole
    });
    if start == to {
        return None;
    }
    let mut value: u64 = 0;
    let mut i: usize = start;
    while i < to
        invariant
            from <= start <= i <= to <= chars.len(),
            whole == chars@.subrange(from as int, to as int),
            digits == chars@.subrange(start as int, to as int),
            digits == if whole.len() > 0 && whole[0] == '+' {
                whole.skip(1)
            } else {
                whole
            },
            all_digits(digits.take(i - start)),
            value == digits_value(digits.take(i - start)),
            value <= u32::MAX,
        decreases to - i,
    {
        let c = chars[i];
        if !('0' <= c && c <= '9') {
            assert(!is_digit(digits[i - start]));
            return None;
        }
        let ghost upto = digits.take(i - start + 1);
        assert(upto.drop_last() =~= digits.take(i - start));
        assert(upto.last() == c);
        value = value * 10 + ((c as u32 - 48) as u64);
        if value > u32::MAX as u64 {
            proof {
                lemma_digits_value_grows(digits, i - start + 1);
            }
            return None;
        }
        i += 1;
    }
    assert(digits.take(i - start) =~= digits);
    Some(value as u32)
}

/// The index of the first dot at or after `from`.
fn find_dot(chars: &Vec<char>, from: usize) -> (index: usize)
    requires
        from <= chars.len(),
    ensures
        index == dot_index(chars@, from as int),
        from <= index <= chars.len(),
{
    let mut index: usize = from;
    while index < chars.len() && chars[index] != '.'
        invariant
            from <= index <= chars.len(),
            dot_index(chars@, index as int) == dot_index(chars@, from as int),
        decreases chars.len() - index,
    {
        index += 1;
    }
    index
}

/// Reads a directory name as a version tag.
pub fn parse_blender_version(input: &str) -> (version: Option<(u32, u32, u32)>)
    ensures
        version == parse_version(input@),
{
    let chars = chars_of(input);
    let n = chars.len();
    let first = find_dot(&chars, 0);
    let major = parse_component(&chars, 0, first);
    let mut minor: Option<u32> = Some(0);
    let mut patch: Option<u32> = Some(0);
    if first < n {
        let second = find_dot(&chars, first + 1);
        minor = parse_component(&chars, first + 1, second);
        if second < n {
            let third = find_dot(&chars, second + 1);
            if third < n {
                return None;
            }
            patch = parse_component(&chars, second + 1, third);
        }
    }
    match (major, minor, patch) {
        (Some(major), Some(minor), Some(patch)) => Some((major, minor, patch)),
        _ => None,
    }
}

/// True when version `a` comes before version `b`.
pub fn version_less(a: (u32, u32, u32), b: (u32, u32, u32)) -> (less: bool)
    ensures
        less == version_lt(a, b),
{
    a.0 < b.0 || (a.0 == b.0 && (a.1 < b.1 || (a.1 == b.1 && a.2 < b.2)))
}

/// The order of versions is a strict total order: no version comes before
/// itself, of two different versions exactly one comes before the other, and
/// the order is transitive.
pub proof fn lemma_version_order(a: (u32, u32, u32), b: (u32, u32, u32), c: (u32, u32, u32))
    ensures
        !version_lt(a, a),
        a != b ==> (version_lt(a, b) <==> !version_lt(b, a)),
        a == b ==> !version_lt(a, b),
        version_lt(a, b) && version_lt(b, c) ==> version_lt(a, c),
{
}

} // verus!
