//! The platform family on which the bridge runs.

use vstd::prelude::*;

verus! {

/// Discovery, installation and activation are offered on Windows only; elsewhere
/// they report that they are not, instead of failing on the file system.
#[derive(Clone, Copy, Debug, PartialEq, Eq, Structural)]
pub enum Platform {
    Windows,
    Other,
}

} // verus!
