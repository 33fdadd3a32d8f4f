//! The closed set of failure kinds, each carried with a display message.

use crate::text::{truncate_log, truncated_log};
use vstd::prelude::*;

verus! {

/// The most characters of a system's or a peer's text that a failure message of
/// a socket or a process quotes.
pub const FAILURE_DETAIL_CHARS: usize = 1000;

/// A system's or a peer's text as a failure message quotes it: on one line, and
/// cut to a bounded length.
pub open spec fn quoted_detail(detail: Seq<char>) -> Seq<char> {
    truncated_log(detail, FAILURE_DETAIL_CHARS as nat)
}

/// Prepares a system's or a peer's text for a failure message.
pub fn quote_detail(detail: &str) -> (quoted: String)
    ensures
        quoted@ == quoted_detail(detail@),
        quoted@.len() <= FAILURE_DETAIL_CHARS,
{
    truncate_log(detail, FAILURE_DETAIL_CHARS)
}

/// What went wrong, so that callers can branch without reading the message.
#[derive(Clone, Copy, Debug, PartialEq, Eq, Structural)]
pub enum ErrorKind {
    /// The host and port resolved to no socket address.
    Resolution,
    /// The connection was refused or timed out.
    Connect,
    /// The request could not be written in full.
    Write,
    /// The peer sent nothing before the stream ended or timed out.
    NoResponse,
    /// The bytes received by the end of the stream are not one JSON value.
    MalformedResponse,
    /// The remote side answered with `status: "error"`.
    RemoteReported,
    /// The per-user configuration directory is not there.
    ConfigMissing,
    /// No directory of the configuration root is named like a version.
    NoVersionFound,
    /// The executable path does not name a regular file.
    ExecutableNotFound,
    /// The activation process exited with a failure status.
    ActivationProcess,
    /// The activation process ran but did not report success.
    ActivationReported,
    /// The operation is not offered on this platform.
    UnsupportedPlatform,
    /// The code to execute is empty or blank.
    EmptyCode,
    /// Any other failed operation on a socket, a file or a process.
    Io,
}

/// A failure: its kind and the text shown to the user.
#[derive(Debug, PartialEq, Eq)]
pub struct BridgeError {
    pub kind: ErrorKind,
    pub message: String,
}

/// The mathematical model of a [`BridgeError`].
pub struct ErrorView {
    pub kind: ErrorKind,
    pub message: Seq<char>,
}

impl View for BridgeError {
    type V = ErrorView;

    open spec fn view(&self) -> ErrorView {
        ErrorView { kind: self.kind, message: self.message@ }
    }
}

impl Clone for BridgeError {
    fn clone(&self) -> (copy: Self)
        ensures
            copy@ == self@,
    {
        BridgeError { kind: self.kind, message: self.message.clone() }
    }
}

impl BridgeError {
    /// A failure of the given kind with the given message.
    pub fn new(kind: ErrorKind, message: String) -> (error: Self)
        ensures
            error.kind == kind,
            error.message == message,
            error@ == (ErrorView { kind, message: message@ }),
    {
        BridgeError { kind, message }
    }

    /// The display text of the failure.
    pub fn message(&self) -> (text: String)
        ensures
            text@ == self@.message,
    {
        self.message.clone()
    }
}

} // verus!
