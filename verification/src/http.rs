//! Plain data model of the HTTP notions the handshake reads: request
//! method, HTTP version, request target, and response status.
//!
//! Reading these out of a byte stream is the job of the surrounding
//! HTTP layer; the handshake only inspects the parsed values.

use vstd::prelude::*;

verus! {

/// HTTP request method, as parsed from the request line.
#[derive(Clone, Debug)]
pub enum Method {
    Get,
    Head,
    Post,
    Put,
    Delete,
    Options,
    Trace,
    Connect,
    Patch,
    /// Any other token on the request line.
    Extension(String),
}

/// HTTP version from the request line.
#[derive(Clone, Copy, Debug, PartialEq, Eq, Structural)]
pub enum HttpVersion {
    Http09,
    Http10,
    Http11,
    Http20,
}

/// Request target from the request line.
#[derive(Clone, Debug)]
pub enum RequestUri {
    /// An origin-form target such as `/chat`.
    AbsolutePath(String),
    /// An absolute-form target carrying a full URI.
    AbsoluteUri(String),
    /// An authority-form target (host and port only).
    Authority(String),
    /// The asterisk form `*`.
    Star,
}

/// Response status; the handshake only ever decides `BadRequest`.
#[derive(Clone, Copy, Debug, PartialEq, Eq, Structural)]
pub enum StatusCode {
    SwitchingProtocols,
    BadRequest,
}

} // verus!
