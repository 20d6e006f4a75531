//! Tests for reading, validating and deciding a handshake request.

use websocket_handshake::error::{RequestReason, WebSocketError};
use websocket_handshake::header::{
    Connection, ConnectionOption, Headers, Origin, Protocol, Upgrade, WebSocketExtensions,
    WebSocketKey, WebSocketProtocol, WebSocketVersion,
};
use websocket_handshake::http::{HttpVersion, Method, RequestUri, StatusCode};
use websocket_handshake::request::{check_method, Request};
use websocket_handshake::text::eq_nocase;

fn valid_headers() -> Headers {
    Headers {
        key: Some(WebSocketKey(String::from("dGhlIHNhbXBsZSBub25jZQ=="))),
        version: Some(WebSocketVersion::WebSocket13),
        protocol: None,
        extensions: None,
        origin: None,
        upgrade: Some(Upgrade(vec![Protocol::WebSocket])),
        connection: Some(Connection(vec![ConnectionOption::ConnectionHeader(String::from(
            "Upgrade",
        ))])),
    }
}

fn request_with(headers: Headers) -> Request<u8, u8> {
    Request::read(
        Method::Get,
        RequestUri::AbsolutePath(String::from("/chat")),
        HttpVersion::Http11,
        headers,
        7u8,
        9u8,
    )
    .unwrap()
}

fn reason_of(err: WebSocketError) -> (RequestReason, String) {
    match err {
        WebSocketError::RequestError(reason, message) => (reason, message),
        WebSocketError::IoError(message) => panic!("unexpected I/O error: {}", message),
    }
}

#[test]
fn method_gate_post_fails() {
    let r = Request::<u8, u8>::read(
        Method::Post,
        RequestUri::AbsolutePath(String::from("/chat")),
        HttpVersion::Http11,
        valid_headers(),
        7u8,
        9u8,
    );
    let (reason, message) = reason_of(r.err().unwrap());
    assert_eq!(reason, RequestReason::BadMethod);
    assert_eq!(message, String::from("Request method must be GET"));
}

#[test]
fn method_gate_before_headers() {
    // Only the request line is needed to reject a bad method.
    let r = check_method(&Method::Extension(String::from("BREW")));
    let err = r.err().unwrap();
    assert_eq!(*err.message(), String::from("Request method must be GET"));
    let (reason, message) = reason_of(err);
    assert_eq!(reason, RequestReason::BadMethod);
    assert_eq!(message, String::from("Request method must be GET"));
    assert!(check_method(&Method::Get).is_ok());
}

#[test]
fn full_valid_handshake() {
    let req = request_with(valid_headers());
    assert!(req.validate().is_ok());
    let resp = req.accept();
    assert!(resp.status != Some(StatusCode::BadRequest));
    assert!(resp.status.is_none());
}

#[test]
fn missing_key_fails() {
    let mut headers = valid_headers();
    headers.key = None;
    let req = request_with(headers);
    let (reason, message) = reason_of(req.validate().err().unwrap());
    assert_eq!(reason, RequestReason::MissingKey);
    assert_eq!(message, String::from("Missing Sec-WebSocket-Key header"));
    let resp = req.accept();
    assert_eq!(resp.status, Some(StatusCode::BadRequest));
    assert!(resp.headers.key.is_none());
    assert!(resp.headers.upgrade.is_none());
    assert!(resp.headers.connection.is_none());
}

#[test]
fn connection_token_case_insensitive() {
    let mut headers = valid_headers();
    headers.connection = Some(Connection(vec![ConnectionOption::ConnectionHeader(
        String::from("upgrade"),
    )]));
    let req = request_with(headers);
    assert!(req.validate().is_ok());
}

#[test]
fn version_mismatch_fails() {
    let mut headers = valid_headers();
    headers.version = Some(WebSocketVersion::Unknown(String::from("8")));
    let req = request_with(headers);
    let (reason, message) = reason_of(req.validate().err().unwrap());
    assert_eq!(reason, RequestReason::UnsupportedWsVersion);
    assert_eq!(message, String::from("Unsupported WebSocket version"));
    let resp = req.accept();
    assert_eq!(resp.status, Some(StatusCode::BadRequest));
}

#[test]
fn version_absent_fails() {
    let mut headers = valid_headers();
    headers.version = None;
    let req = request_with(headers);
    let (reason, _) = reason_of(req.validate().err().unwrap());
    assert_eq!(reason, RequestReason::UnsupportedWsVersion);
}

#[test]
fn old_http_versions_fail() {
    for version in [HttpVersion::Http09, HttpVersion::Http10] {
        let r = Request::read(
            Method::Get,
            RequestUri::Star,
            version,
            valid_headers(),
            7u8,
            9u8,
        );
        let req = r.unwrap();
        let (reason, message) = reason_of(req.validate().err().unwrap());
        assert_eq!(reason, RequestReason::UnsupportedHttpVersion);
        assert_eq!(message, String::from("Unsupported request HTTP version"));
    }
}

#[test]
fn missing_upgrade_fails() {
    let mut headers = valid_headers();
    headers.upgrade = None;
    let req = request_with(headers);
    let (reason, message) = reason_of(req.validate().err().unwrap());
    assert_eq!(reason, RequestReason::MissingOrInvalidUpgrade);
    assert_eq!(message, String::from("Missing Upgrade WebSocket header"));
}

#[test]
fn upgrade_without_websocket_fails() {
    let mut headers = valid_headers();
    headers.upgrade = Some(Upgrade(vec![Protocol::Other(String::from("h2c"))]));
    let req = request_with(headers);
    let (reason, message) = reason_of(req.validate().err().unwrap());
    assert_eq!(reason, RequestReason::MissingOrInvalidUpgrade);
    assert_eq!(message, String::from("Invalid Upgrade WebSocket header"));
}

#[test]
fn upgrade_websocket_among_others_passes() {
    let mut headers = valid_headers();
    headers.upgrade = Some(Upgrade(vec![
        Protocol::Other(String::from("h2c")),
        Protocol::WebSocket,
    ]));
    let req = request_with(headers);
    assert!(req.validate().is_ok());
}

#[test]
fn missing_connection_fails() {
    let mut headers = valid_headers();
    headers.connection = None;
    let req = request_with(headers);
    let (reason, message) = reason_of(req.validate().err().unwrap());
    assert_eq!(reason, RequestReason::MissingOrInvalidConnection);
    assert_eq!(message, String::from("Missing Connection WebSocket header"));
}

#[test]
fn connection_without_upgrade_fails() {
    let mut headers = valid_headers();
    headers.connection = Some(Connection(vec![ConnectionOption::KeepAlive]));
    let req = request_with(headers);
    let (reason, message) = reason_of(req.validate().err().unwrap());
    assert_eq!(reason, RequestReason::MissingOrInvalidConnection);
    assert_eq!(message, String::from("Invalid Connection WebSocket header"));
}

#[test]
fn connection_upgrade_among_others_passes() {
    let mut headers = valid_headers();
    headers.connection = Some(Connection(vec![
        ConnectionOption::KeepAlive,
        ConnectionOption::ConnectionHeader(String::from("UPGRADE")),
    ]));
    let req = request_with(headers);
    assert!(req.validate().is_ok());
}

#[test]
fn first_violated_rule_wins() {
    // Several rules broken at once: the HTTP version check comes first.
    let mut headers = valid_headers();
    headers.key = None;
    headers.version = None;
    let req = Request::read(Method::Get, RequestUri::Star, HttpVersion::Http10, headers, 7u8, 9u8)
        .unwrap();
    let (reason, message) = reason_of(req.validate().err().unwrap());
    assert_eq!(reason, RequestReason::UnsupportedHttpVersion);
    assert_eq!(message, String::from("Unsupported request HTTP version"));
}

#[test]
fn accessors_read_the_headers() {
    let mut headers = valid_headers();
    headers.protocol = Some(WebSocketProtocol(vec![String::from("chat")]));
    headers.extensions = Some(WebSocketExtensions(vec![String::from("permessage-deflate")]));
    headers.origin = Some(Origin(String::from("http://example.com")));
    let req = request_with(headers);
    assert_eq!(req.key().unwrap().0, String::from("dGhlIHNhbXBsZSBub25jZQ=="));
    assert!(matches!(req.version(), Some(WebSocketVersion::WebSocket13)));
    assert_eq!(req.protocol().unwrap().0, vec![String::from("chat")]);
    assert_eq!(
        req.extensions().unwrap().0,
        vec![String::from("permessage-deflate")]
    );
    assert_eq!(req.origin().unwrap().0, String::from("http://example.com"));
    let empty = request_with(Headers::new());
    assert!(empty.key().is_none());
    assert!(empty.version().is_none());
    assert!(empty.protocol().is_none());
    assert!(empty.extensions().is_none());
    assert!(empty.origin().is_none());
}

#[test]
fn connection_ownership_transfers() {
    let req = request_with(valid_headers());
    assert_eq!(*req.get_reader(), 7u8);
    assert_eq!(*req.get_writer(), 9u8);
    let resp = req.accept();
    assert_eq!(*resp.get_reader(), 7u8);
    assert_eq!(*resp.get_writer(), 9u8);
    let (reader, writer) = resp.into_inner();
    assert_eq!((reader, writer), (7u8, 9u8));
}

#[test]
fn fail_is_unconditional() {
    let req = request_with(valid_headers());
    assert!(req.validate().is_ok());
    let resp = req.fail();
    assert_eq!(resp.status, Some(StatusCode::BadRequest));
    assert!(resp.headers.origin.is_none());
    let (reader, writer) = resp.into_inner();
    assert_eq!((reader, writer), (7u8, 9u8));
}

#[test]
fn request_into_inner_returns_the_connection() {
    let req = request_with(valid_headers());
    let (reader, writer) = req.into_inner();
    assert_eq!((reader, writer), (7u8, 9u8));
}

#[test]
fn eq_nocase_folds_only_ascii_letters() {
    assert!(eq_nocase("Upgrade", "upgrade"));
    assert!(eq_nocase("WEBSOCKET", "websocket"));
    assert!(eq_nocase("", ""));
    assert!(!eq_nocase("Upgrade", "Upgrades"));
    assert!(!eq_nocase("Upgrade", "Upgrad"));
    assert!(!eq_nocase("Upgrade", "Keep-Alive"));
}
