//! The server-side WebSocket request: reading, validation, and the
//! one-shot accept/fail decision.

use vstd::prelude::*;
use vstd::string::StringExecFns;

use crate::error::{RequestReason, WebSocketError, WebSocketResult};
use crate::header::{
    headers_empty, Connection, ConnectionOption, Headers, Origin, Protocol, Upgrade,
    WebSocketExtensions, WebSocketKey, WebSocketProtocol, WebSocketVersion,
};
use crate::http::{HttpVersion, Method, RequestUri, StatusCode};
use crate::response::Response;
use crate::text::{eq_nocase, str_eq_nocase};

verus! {

/// A server-side (incoming) request that claims to ask for a WebSocket
/// upgrade. It exists only after the request line's method has been
/// confirmed to be `GET`, and owns the connection's read and write
/// halves until it is consumed into a [`Response`].
pub struct Request<R, W> {
    /// The target URI for this request.
    pub url: RequestUri,
    /// The HTTP version of this request.
    pub version: HttpVersion,
    /// The headers of this request.
    pub headers: Headers,
    reader: R,
    writer: W,
}

/// Rule 1: WebSocket upgrades need HTTP/1.1 or newer.
pub open spec fn http_version_ok(v: HttpVersion) -> bool {
    v != HttpVersion::Http09 && v != HttpVersion::Http10
}

/// Rule 2: the WebSocket version header is present and names version 13.
pub open spec fn ws_version_ok(h: Headers) -> bool {
    h.version matches Some(WebSocketVersion::WebSocket13)
}

/// Rule 3: the WebSocket key header is present.
pub open spec fn key_present(h: Headers) -> bool {
    h.key is Some
}

/// True when the `Upgrade` tokens name the WebSocket protocol.
pub open spec fn upgrade_names_websocket(u: Upgrade) -> bool {
    exists|i: int| 0 <= i < u.0@.len() && (#[trigger] u.0@[i]) is WebSocket
}

/// Rule 4: an `Upgrade` header is present and one of its tokens names
/// the WebSocket protocol.
pub open spec fn upgrade_ok(h: Headers) -> bool {
    h.upgrade matches Some(u) && upgrade_names_websocket(u)
}

/// True when the connection option is the bare token `Upgrade`,
/// compared without regard to ASCII case.
pub open spec fn option_is_upgrade(o: ConnectionOption) -> bool {
    o matches ConnectionOption::ConnectionHeader(s) && str_eq_nocase(s@, "Upgrade"@)
}

/// True when the `Connection` tokens ask for a connection upgrade.
pub open spec fn connection_asks_upgrade(c: Connection) -> bool {
    exists|i: int| 0 <= i < c.0@.len() && option_is_upgrade(#[trigger] c.0@[i])
}

/// Rule 5: a `Connection` header is present and one of its tokens is
/// `Upgrade`, in any casing.
pub open spec fn connection_ok(h: Headers) -> bool {
    h.connection matches Some(c) && connection_asks_upgrade(c)
}

/// The first violated handshake rule, in the order the rules are
/// checked, or `None` when the request is a valid upgrade request.
pub open spec fn handshake_failure(version: HttpVersion, h: Headers) -> Option<RequestReason> {
    if !http_version_ok(version) {
        Some(RequestReason::UnsupportedHttpVersion)
    } else if !ws_version_ok(h) {
        Some(RequestReason::UnsupportedWsVersion)
    } else if !key_present(h) {
        Some(RequestReason::MissingKey)
    } else if !upgrade_ok(h) {
        Some(RequestReason::MissingOrInvalidUpgrade)
    } else if !connection_ok(h) {
        Some(RequestReason::MissingOrInvalidConnection)
    } else {
        None
    }
}

/// The diagnostic message for the first violated handshake rule;
/// meaningful only when some rule is violated.
pub open spec fn handshake_failure_message(version: HttpVersion, h: Headers) -> Seq<char> {
    if !http_version_ok(version) {
        "Unsupported request HTTP version"@
    } else if !ws_version_ok(h) {
        "Unsupported WebSocket version"@
    } else if !key_present(h) {
        "Missing Sec-WebSocket-Key header"@
    } else if h.upgrade is None {
        "Missing Upgrade WebSocket header"@
    } else if !upgrade_ok(h) {
        "Invalid Upgrade WebSocket header"@
    } else if h.connection is None {
        "Missing Connection WebSocket header"@
    } else {
        "Invalid Connection WebSocket header"@
    }
}

/// Law: a request that satisfies all five handshake rules violates
/// nothing, so validation is owed success on it.
pub proof fn lemma_valid_handshake(version: HttpVersion, h: Headers)
    requires
        http_version_ok(version),
        ws_version_ok(h),
        key_present(h),
        upgrade_ok(h),
        connection_ok(h),
    ensures
        handshake_failure(version, h) is None,
{
}

/// Gate on the request line: only `GET` requests can ask for an
/// upgrade. Checked before the headers are even parsed, so non-upgrade
/// traffic is turned away cheaply.
pub fn check_method(method: &Method) -> (r: WebSocketResult<()>)
    ensures
        r is Ok <==> method is Get,
        r matches Err(e) ==> e matches WebSocketError::RequestError(reason, m)
            && reason == RequestReason::BadMethod && m@ == "Request method must be GET"@,
{
    match method {
        Method::Get => Ok(()),
        _ => Err(
            WebSocketError::RequestError(
                RequestReason::BadMethod,
                String::from_str("Request method must be GET"),
            ),
        ),
    }
}

fn upgrade_has_websocket(u: &Upgrade) -> (r: bool)
    ensures
        r == upgrade_names_websocket(*u),
{
    let n = u.0.len();
    for i in 0..n
        invariant
            n == u.0@.len(),
            forall|j: int| 0 <= j < i ==> !((#[trigger] u.0@[j]) is WebSocket),
    {
        match &u.0[i] {
            Protocol::WebSocket => {
                assert(u.0@[i as int] is WebSocket);
                return true;
            },
            _ => {},
        }
    }
    false
}

fn connection_has_upgrade(c: &Connection) -> (r: bool)
    ensures
        r == connection_asks_upgrade(*c),
{
    let n = c.0.len();
    for i in 0..n
        invariant
            n == c.0@.len(),
            forall|j: int| 0 <= j < i ==> !option_is_upgrade(#[trigger] c.0@[j]),
    {
        match &c.0[i] {
            ConnectionOption::ConnectionHeader(s) => {
                if eq_nocase(s.as_str(), "Upgrade") {
                    assert(option_is_upgrade(c.0@[i as int]));
                    return true;
                }
            },
            _ => {},
        }
    }
    false
}

impl<R, W> Request<R, W> {
    /// The target URI of this request.
    pub closed spec fn spec_url(&self) -> RequestUri {
        self.url
    }

    /// The HTTP version of this request.
    pub closed spec fn spec_version(&self) -> HttpVersion {
        self.version
    }

    /// The header collection of this request.
    pub closed spec fn spec_headers(&self) -> Headers {
        self.headers
    }

    /// The read half of the connection this request owns.
    pub closed spec fn spec_reader(&self) -> R {
        self.reader
    }

    /// The write half of the connection this request owns.
    pub closed spec fn spec_writer(&self) -> W {
        self.writer
    }

    /// The first violated handshake rule of this request, or `None`
    /// when it is a valid upgrade request.
    pub open spec fn spec_failure(&self) -> Option<RequestReason> {
        handshake_failure(self.spec_version(), self.spec_headers())
    }

    /// A valid upgrade request: every handshake rule holds.
    pub open spec fn spec_valid(&self) -> bool {
        self.spec_failure() is None
    }

    /// The diagnostic message for this request's first violated rule.
    pub open spec fn spec_failure_message(&self) -> Seq<char> {
        handshake_failure_message(self.spec_version(), self.spec_headers())
    }

    /// Assemble an inbound request from the parsed request line, the
    /// parsed headers, and the connection halves.
    ///
    /// Fails, and hands no `Request` back, whenever the method is not
    /// `GET`: a `Request` value never exists for any other method,
    /// whatever the headers say.
    pub fn read(
        method: Method,
        url: RequestUri,
        version: HttpVersion,
        headers: Headers,
        reader: R,
        writer: W,
    ) -> (r: WebSocketResult<Request<R, W>>)
        ensures
            r is Ok <==> method is Get,
            r matches Ok(req) ==> req.spec_url() == url && req.spec_version() == version
                && req.spec_headers() == headers && req.spec_reader() == reader
                && req.spec_writer() == writer,
            r matches Err(e) ==> e matches WebSocketError::RequestError(reason, m)
                && reason == RequestReason::BadMethod
                && m@ == "Request method must be GET"@,
    {
        match check_method(&method) {
            Ok(()) => {},
            Err(e) => {
                return Err(e);
            },
        }
        Ok(Request { url, version, headers, reader, writer })
    }

    /// Short-cut to obtain the WebSocket key value.
    pub fn key(&self) -> (r: Option<&WebSocketKey>)
        ensures
            r is Some <==> self.spec_headers().key is Some,
            r matches Some(k) ==> *k == self.spec_headers().key->0,
    {
        self.headers.key.as_ref()
    }

    /// Short-cut to obtain the WebSocket version value.
    pub fn version(&self) -> (r: Option<&WebSocketVersion>)
        ensures
            r is Some <==> self.spec_headers().version is Some,
            r matches Some(v) ==> *v == self.spec_headers().version->0,
    {
        self.headers.version.as_ref()
    }

    /// Short-cut to obtain the WebSocket protocol value.
    pub fn protocol(&self) -> (r: Option<&WebSocketProtocol>)
        ensures
            r is Some <==> self.spec_headers().protocol is Some,
            r matches Some(p) ==> *p == self.spec_headers().protocol->0,
    {
        self.headers.protocol.as_ref()
    }

    /// Short-cut to obtain the WebSocket extensions value.
    pub fn extensions(&self) -> (r: Option<&WebSocketExtensions>)
        ensures
            r is Some <==> self.spec_headers().extensions is Some,
            r matches Some(e) ==> *e == self.spec_headers().extensions->0,
    {
        self.headers.extensions.as_ref()
    }

    /// Short-cut to obtain the Origin value.
    pub fn origin(&self) -> (r: Option<&Origin>)
        ensures
            r is Some <==> self.spec_headers().origin is Some,
            r matches Some(o) ==> *o == self.spec_headers().origin->0,
    {
        self.headers.origin.as_ref()
    }

    /// A reference to the inner reader.
    pub fn get_reader(&self) -> (r: &R)
        ensures
            *r == self.spec_reader(),
    {
        &self.reader
    }

    /// A reference to the inner writer.
    pub fn get_writer(&self) -> (r: &W)
        ensures
            *r == self.spec_writer(),
    {
        &self.writer
    }

    /// A mutable reference to the inner reader.
    pub fn get_mut_reader(&mut self) -> &mut R {
        &mut self.reader
    }

    /// A mutable reference to the inner writer.
    pub fn get_mut_writer(&mut self) -> &mut W {
        &mut self.writer
    }

    /// Give up the request and hand the connection halves back.
    pub fn into_inner(self) -> (r: (R, W))
        ensures
            r.0 == self.spec_reader(),
            r.1 == self.spec_writer(),
    {
        (self.reader, self.writer)
    }

    /// Check whether this constitutes a valid upgrade request.
    ///
    /// Pure: no mutation, no I/O. The rules are evaluated in a fixed
    /// order and only the first violated rule is reported; `accept`
    /// calls this internally, but calling it directly is the way to
    /// learn which rule a bad request broke.
    pub fn validate(&self) -> (r: WebSocketResult<()>)
        ensures
            r is Ok <==> self.spec_valid(),
            r matches Err(e) ==> e matches WebSocketError::RequestError(reason, m)
                && Some(reason) == self.spec_failure() && m@ == self.spec_failure_message(),
    {
        if self.version == HttpVersion::Http09 || self.version == HttpVersion::Http10 {
            return Err(
                WebSocketError::RequestError(
                    RequestReason::UnsupportedHttpVersion,
                    String::from_str("Unsupported request HTTP version"),
                ),
            );
        }
        match &self.headers.version {
            Some(WebSocketVersion::WebSocket13) => {},
            _ => {
                return Err(
                    WebSocketError::RequestError(
                        RequestReason::UnsupportedWsVersion,
                        String::from_str("Unsupported WebSocket version"),
                    ),
                );
            },
        }
        if self.headers.key.is_none() {
            return Err(
                WebSocketError::RequestError(
                    RequestReason::MissingKey,
                    String::from_str("Missing Sec-WebSocket-Key header"),
                ),
            );
        }
        match &self.headers.upgrade {
            Some(upgrade) => {
                if !upgrade_has_websocket(upgrade) {
                    return Err(
                        WebSocketError::RequestError(
                            RequestReason::MissingOrInvalidUpgrade,
                            String::from_str("Invalid Upgrade WebSocket header"),
                        ),
                    );
                }
            },
            None => {
                return Err(
                    WebSocketError::RequestError(
                        RequestReason::MissingOrInvalidUpgrade,
                        String::from_str("Missing Upgrade WebSocket header"),
                    ),
                );
            },
        }
        match &self.headers.connection {
            Some(connection) => {
                if !connection_has_upgrade(connection) {
                    return Err(
                        WebSocketError::RequestError(
                            RequestReason::MissingOrInvalidConnection,
                            String::from_str("Invalid Connection WebSocket header"),
                        ),
                    );
                }
            },
            None => {
                return Err(
                    WebSocketError::RequestError(
                        RequestReason::MissingOrInvalidConnection,
                        String::from_str("Missing Connection WebSocket header"),
                    ),
                );
            },
        }
        Ok(())
    }

    /// Accept this request, consuming it into a response bound to the
    /// same connection.
    ///
    /// Validates internally: a valid request yields a response whose
    /// status is still pending, an invalid one falls through to the
    /// rejection path, discarding which rule failed. Either way the
    /// request is gone afterwards; the decision cannot be remade.
    pub fn accept(self) -> (r: Response<R, W>)
        ensures
            self.spec_valid() ==> r.spec_status() is None,
            !self.spec_valid() ==> r.spec_status() == Some(StatusCode::BadRequest),
            headers_empty(r.spec_headers()),
            r.spec_reader() == self.spec_reader(),
            r.spec_writer() == self.spec_writer(),
    {
        match self.validate() {
            Ok(()) => {},
            Err(_) => {
                return self.fail();
            },
        }
        Response::new(self)
    }

    /// Fail this request, consuming it into a Bad Request response with
    /// an empty outbound header collection: the rejection never echoes
    /// request-derived headers back.
    pub fn fail(self) -> (r: Response<R, W>)
        ensures
            r.spec_status() == Some(StatusCode::BadRequest),
            headers_empty(r.spec_headers()),
            r.spec_reader() == self.spec_reader(),
            r.spec_writer() == self.spec_writer(),
    {
        let mut response = Response::new(self);
        response.set_status(Some(StatusCode::BadRequest));
        response.set_headers(Headers::new());
        response
    }
}

} // verus!
