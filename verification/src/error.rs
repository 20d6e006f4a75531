//! Errors raised while reading or validating a handshake request.

use vstd::prelude::*;

verus! {

/// Machine-readable reason for a rejected handshake request, kept
/// alongside the human-readable message carried by the error itself.
#[derive(Clone, Copy, Debug, PartialEq, Eq, Structural)]
pub enum RequestReason {
    /// The request line's method was not `GET`.
    BadMethod,
    /// The request used HTTP/0.9 or HTTP/1.0.
    UnsupportedHttpVersion,
    /// The WebSocket version header was absent or not version 13.
    UnsupportedWsVersion,
    /// The WebSocket key header was absent.
    MissingKey,
    /// The `Upgrade` header was absent or named no `websocket` token.
    MissingOrInvalidUpgrade,
    /// The `Connection` header was absent or named no `Upgrade` token.
    MissingOrInvalidConnection,
}

/// Error channel shared by the reading and validation steps.
#[derive(Clone, Debug)]
pub enum WebSocketError {
    /// A handshake rule was violated; carries the reason code and a
    /// human-readable message describing the violated rule.
    RequestError(RequestReason, String),
    /// Lower-level I/O or malformed-input failure from the reading step,
    /// carrying the reporting layer's description.
    IoError(String),
}

/// Result alias used throughout the handshake.
pub type WebSocketResult<T> = Result<T, WebSocketError>;

impl WebSocketError {
    /// The human-readable message of this error.
    pub fn message(&self) -> (r: &String)
        ensures
            r@ == self.spec_message(),
    {
        match self {
            WebSocketError::RequestError(_, m) => m,
            WebSocketError::IoError(m) => m,
        }
    }

    /// The message carried by this error.
    pub open spec fn spec_message(&self) -> Seq<char> {
        match self {
            WebSocketError::RequestError(_, m) => m@,
            WebSocketError::IoError(m) => m@,
        }
    }
}

} // verus!
