//! Typed WebSocket headers and the per-request header collection.
//!
//! `Origin` spells out the single-value header contract in full:
//! parsing succeeds only on exactly one raw occurrence, and formatting
//! writes the wrapped string back verbatim. The other WebSocket headers
//! satisfy the same one-value discipline at their own parse sites (the
//! list-valued `Sec-WebSocket-Protocol` and `-Extensions` carry their
//! comma-separated tokens already split); here they are consumed as
//! already-typed values.

use vstd::prelude::*;
use vstd::string::StrSliceExecFns;
use vstd::utf8::{decode_utf8, encode_utf8, valid_utf8};
use vstd::utf8::{decode_utf8_encode_utf8, encode_utf8_decode_utf8, encode_utf8_valid_utf8};

use crate::text::bytes_to_string;

verus! {

/// The `Origin` header: exactly one opaque string value.
#[derive(Clone, Debug)]
pub struct Origin(pub String);

/// What parsing raw `Origin` occurrences yields: the decoding of the
/// sole occurrence, or nothing when there are zero or several
/// occurrences or the bytes are not text.
pub open spec fn spec_parse_origin(raw: Seq<Seq<u8>>) -> Option<Seq<char>> {
    if raw.len() == 1 && valid_utf8(raw[0]) {
        Some(decode_utf8(raw[0]))
    } else {
        None
    }
}

/// What formatting an `Origin` value writes: the wrapped string
/// verbatim, as its UTF-8 bytes — no escaping, no quoting.
pub open spec fn spec_format_origin(value: Seq<char>) -> Seq<u8> {
    encode_utf8(value)
}

impl Origin {
    /// The header's name on the wire.
    pub fn header_name() -> (r: &'static str)
        ensures
            r@ == "Origin"@,
    {
        "Origin"
    }

    /// Parse the raw occurrences of the header. Succeeds only when
    /// `raw` holds exactly one occurrence and that occurrence is valid
    /// text; zero or several occurrences yield no value, never a
    /// partial or concatenated result.
    pub fn parse_header(raw: &Vec<Vec<u8>>) -> (r: Option<Origin>)
        ensures
            r is Some <==> spec_parse_origin(raw.deep_view()) is Some,
            r matches Some(o) ==> Some(o.0@) == spec_parse_origin(raw.deep_view()),
    {
        if raw.len() != 1 {
            return None;
        }
        let occurrence = raw[0].clone();
        assert(occurrence@ == raw.deep_view()[0]);
        match bytes_to_string(occurrence) {
            Some(s) => Some(Origin(s)),
            None => None,
        }
    }

    /// Format the value back to bytes, verbatim.
    pub fn fmt_header(&self) -> (r: Vec<u8>)
        ensures
            r@ == spec_format_origin(self.0@),
    {
        self.0.as_str().as_bytes_vec()
    }
}

/// Two `Origin` values are equal exactly when their wrapped strings
/// are: case-sensitive, whitespace-sensitive, no normalization.
impl PartialEq for Origin {
    fn eq(&self, other: &Origin) -> bool {
        self.0 == other.0
    }
}

impl vstd::std_specs::cmp::PartialEqSpecImpl for Origin {
    open spec fn obeys_eq_spec() -> bool {
        true
    }

    open spec fn eq_spec(&self, other: &Origin) -> bool {
        self.0@ == other.0@
    }
}

/// Law: a value parsed from raw occurrences formats back to exactly the
/// bytes of the one occurrence it was parsed from.
pub proof fn lemma_origin_round_trip(raw: Seq<Seq<u8>>)
    requires
        spec_parse_origin(raw) is Some,
    ensures
        spec_format_origin(spec_parse_origin(raw)->Some_0) == raw[0],
{
    decode_utf8_encode_utf8(raw[0]);
}

/// Law: any string, sent as the sole raw occurrence of the header,
/// parses back to exactly that string.
pub proof fn lemma_origin_parse_of_format(value: Seq<char>)
    ensures
        spec_parse_origin(seq![spec_format_origin(value)]) == Some(value),
{
    encode_utf8_valid_utf8(value);
    encode_utf8_decode_utf8(value);
}

/// Law: parsing zero occurrences, or two or more, yields no value.
pub proof fn lemma_origin_single_occurrence(raw: Seq<Seq<u8>>)
    requires
        raw.len() != 1,
    ensures
        spec_parse_origin(raw) is None,
{
}

/// The `Sec-WebSocket-Key` header: one opaque string value, not
/// otherwise validated at this layer.
#[derive(Clone, Debug)]
pub struct WebSocketKey(pub String);

/// The `Sec-WebSocket-Version` header.
#[derive(Clone, Debug)]
pub enum WebSocketVersion {
    /// Protocol version 13, the only version the handshake accepts.
    WebSocket13,
    /// Any other version value, carried verbatim.
    Unknown(String),
}

/// The `Sec-WebSocket-Protocol` header: a list of subprotocol tokens.
#[derive(Clone, Debug)]
pub struct WebSocketProtocol(pub Vec<String>);

/// The `Sec-WebSocket-Extensions` header: a list of extension tokens.
#[derive(Clone, Debug)]
pub struct WebSocketExtensions(pub Vec<String>);

/// One token of the `Upgrade` header, typed at parse time: the parser
/// maps any casing of `websocket` to `Protocol::WebSocket`.
#[derive(Clone, Debug)]
pub enum Protocol {
    WebSocket,
    Other(String),
}

/// The `Upgrade` header: the protocols the client offers to switch to.
#[derive(Clone, Debug)]
pub struct Upgrade(pub Vec<Protocol>);

/// One token of the `Connection` header. A bare token is carried as
/// `ConnectionHeader` and compared case-insensitively where it matters.
#[derive(Clone, Debug)]
pub enum ConnectionOption {
    KeepAlive,
    Close,
    ConnectionHeader(String),
}

/// The `Connection` header: the client's connection options.
#[derive(Clone, Debug)]
pub struct Connection(pub Vec<ConnectionOption>);

/// The header collection of one request or response: at most one typed
/// value per known header kind. Lookup does not depend on the order the
/// headers arrived in.
#[derive(Clone, Debug)]
pub struct Headers {
    pub key: Option<WebSocketKey>,
    pub version: Option<WebSocketVersion>,
    pub protocol: Option<WebSocketProtocol>,
    pub extensions: Option<WebSocketExtensions>,
    pub origin: Option<Origin>,
    pub upgrade: Option<Upgrade>,
    pub connection: Option<Connection>,
}

/// True when the collection holds no header at all.
pub open spec fn headers_empty(h: Headers) -> bool {
    &&& h.key is None
    &&& h.version is None
    &&& h.protocol is None
    &&& h.extensions is None
    &&& h.origin is None
    &&& h.upgrade is None
    &&& h.connection is None
}

impl Headers {
    /// An empty collection.
    pub fn new() -> (r: Headers)
        ensures
            headers_empty(r),
    {
        Headers {
            key: None,
            version: None,
            protocol: None,
            extensions: None,
            origin: None,
            upgrade: None,
            connection: None,
        }
    }
}

} // verus!
