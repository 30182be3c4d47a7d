//! The error type shared by signing, session bootstrap and supervision.

use crate::proto::error_text;
use crate::proto::ProtoError;
use vstd::prelude::*;

verus! {

/// What went wrong, independent of the human-readable message.
#[derive(Debug, Clone, Copy, PartialEq, Eq, Structural)]
pub enum ErrorKind {
    /// A frame could not be read or its body not be decoded.
    Protocol(ProtoError),
    /// The system clock is set before the Unix epoch.
    Clock,
    /// The request could not be signed: the access key holds a byte that
    /// HTTP does not allow in a header value.
    Signing,
    /// A text that should be JSON is not.
    Json,
    /// A JSON response lacks a field or holds one of the wrong type.
    MalformedResponse,
    /// The platform answered the session start with a non-zero code.
    SessionStartRejected,
    /// The platform answered a session heartbeat with a non-zero code.
    HeartbeatRejected,
    /// An operation was asked of a connection in the wrong state.
    InvalidState,
    /// The network failed: a socket or an HTTP call.
    Transport,
    /// Any other failure, known only by its message.
    Other,
}

/// An error with its kind and a message for people.
#[derive(Debug, Clone)]
pub struct BilibiliError {
    pub kind: ErrorKind,
    pub message: String,
}

impl BilibiliError {
    /// An error of the given kind with the given message.
    pub fn new(kind: ErrorKind, message: String) -> (e: BilibiliError)
        ensures
            e.kind == kind,
            e.message@ == message@,
    {
        BilibiliError { kind, message }
    }

    /// An error of the given kind whose message is the literal `text`.
    pub fn with_text(kind: ErrorKind, text: &str) -> (e: BilibiliError)
        ensures
            e.kind == kind,
            e.message@ == text@,
    {
        BilibiliError { kind, message: text.to_owned() }
    }

    /// The error that a frame failure becomes, with that failure's message.
    pub fn protocol(e: ProtoError) -> (r: BilibiliError)
        ensures
            r.kind == ErrorKind::Protocol(e),
            r.message@ == error_text(e),
    {
        BilibiliError { kind: ErrorKind::Protocol(e), message: e.message().to_owned() }
    }

    /// The message, as `Display` would print it.
    pub fn message(&self) -> (s: String)
        ensures
            s@ == self.message@,
    {
        self.message.clone()
    }
}

impl From<String> for BilibiliError {
    fn from(message: String) -> (e: BilibiliError) {
        BilibiliError { kind: ErrorKind::Other, message }
    }
}

impl vstd::std_specs::convert::FromSpecImpl<String> for BilibiliError {
    open spec fn obeys_from_spec() -> bool {
        true
    }

    open spec fn from_spec(message: String) -> BilibiliError {
        BilibiliError { kind: ErrorKind::Other, message }
    }
}

impl<'a> From<&'a str> for BilibiliError {
    fn from(message: &'a str) -> (e: BilibiliError)
        ensures
            e.kind == ErrorKind::Other,
            e.message@ == message@,
    {
        BilibiliError { kind: ErrorKind::Other, message: message.to_owned() }
    }
}

/// The exact result is given by the `ensures` of `from`; the spec function
/// here fixes only the kind, since a specification cannot build a `String`.
impl<'a> vstd::std_specs::convert::FromSpecImpl<&'a str> for BilibiliError {
    open spec fn obeys_from_spec() -> bool {
        false
    }

    open spec fn from_spec(message: &'a str) -> BilibiliError {
        BilibiliError { kind: ErrorKind::Other, message: arbitrary() }
    }
}

} // verus!
