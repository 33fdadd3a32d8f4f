//! Control bridge for a running Blender: request framing and validation for the
//! add-on socket, installation discovery, add-on installation, activation and the
//! one-click setup sequence, all as pure decisions over observed values.

pub mod activation;
pub mod error;
pub mod execute;
pub mod installer;
pub mod json;
pub mod locator;
pub mod paths;
pub mod platform;
pub mod rpc;
pub mod setup;
pub mod socket;
pub mod text;
pub mod version;

use vstd::prelude::*;

verus! {

/// The constant readiness token reported by the health check.
pub fn healthcheck() -> (token: &'static str)
    ensures
        token@ == "ok"@,
{
    "ok"
}

} // verus!
