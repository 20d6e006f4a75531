//! Tests for the single-value header contract, spelled out by `Origin`.

use websocket_handshake::header::{Headers, Origin};

#[test]
fn test_header_origin() {
    let origin = Origin(String::from("foo bar"));
    let mut headers = Headers::new();
    headers.origin = Some(origin);
    let o = headers.origin.as_ref().unwrap();
    let line = format!(
        "{}: {}\r\n",
        Origin::header_name(),
        String::from_utf8(o.fmt_header()).unwrap()
    );
    assert_eq!(&line[..], "Origin: foo bar\r\n");
}

#[test]
fn origin_round_trip() {
    let raw = vec![b"http://example.com".to_vec()];
    let parsed = Origin::parse_header(&raw).unwrap();
    assert_eq!(parsed.0, String::from("http://example.com"));
    assert_eq!(parsed.fmt_header(), raw[0]);
}

#[test]
fn origin_round_trip_keeps_whitespace_and_case() {
    let raw = vec![b" MiXeD CaSe  ".to_vec()];
    let parsed = Origin::parse_header(&raw).unwrap();
    assert_eq!(parsed.0, String::from(" MiXeD CaSe  "));
    assert_eq!(parsed.fmt_header(), raw[0]);
}

#[test]
fn origin_zero_occurrences_is_none() {
    let raw: Vec<Vec<u8>> = vec![];
    assert!(Origin::parse_header(&raw).is_none());
}

#[test]
fn origin_two_occurrences_is_none() {
    let raw = vec![b"http://a.example".to_vec(), b"http://b.example".to_vec()];
    assert!(Origin::parse_header(&raw).is_none());
}

#[test]
fn origin_three_occurrences_is_none() {
    let raw = vec![b"a".to_vec(), b"b".to_vec(), b"c".to_vec()];
    assert!(Origin::parse_header(&raw).is_none());
}

#[test]
fn origin_invalid_utf8_is_none() {
    let raw = vec![vec![0xff, 0xfe, 0x41]];
    assert!(Origin::parse_header(&raw).is_none());
}

#[test]
fn origin_equality_is_exact_string_equality() {
    assert!(Origin(String::from("http://a.example")) == Origin(String::from("http://a.example")));
    assert!(Origin(String::from("http://a.example")) != Origin(String::from("HTTP://A.EXAMPLE")));
    assert!(Origin(String::from("x")) != Origin(String::from("x ")));
}

#[test]
fn origin_non_ascii_value() {
    let raw = vec!["bücher.example".as_bytes().to_vec()];
    let parsed = Origin::parse_header(&raw).unwrap();
    assert_eq!(parsed.0, String::from("bücher.example"));
    assert_eq!(parsed.fmt_header(), raw[0]);
}
