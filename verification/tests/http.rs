use igdp::error::Error;
use igdp::http::{header_value, parse_response};

#[test]
fn parse_ok_response() {
    let raw = b"HTTP/1.1 200 OK\r\nServer: gw\r\nLocation: http://192.168.1.1:5000/d.xml\r\n\r\nBODY";
    let resp = parse_response(raw).expect("parse");
    assert_eq!(resp.code, 200);
    assert_eq!(resp.headers.len(), 2);
    assert_eq!(resp.body_start, raw.len() - 4);
    assert_eq!(&raw[resp.body_start..], b"BODY");
}

#[test]
fn parse_status_without_reason() {
    let raw = b"HTTP/1.1 200\r\n\r\n";
    let resp = parse_response(raw).expect("parse");
    assert_eq!(resp.code, 200);
    assert_eq!(resp.headers.len(), 0);
}

#[test]
fn parse_404_status() {
    let raw = b"HTTP/1.1 404 Not Found\r\n\r\n";
    let resp = parse_response(raw).expect("parse");
    assert_eq!(resp.code, 404);
}

#[test]
fn unparsable_status_line() {
    let raw = b"NOT HTTP AT ALL\r\n\r\n";
    assert!(matches!(parse_response(raw), Err(Error::StatusCode(None))));
}

#[test]
fn truncated_input_is_unparsable() {
    assert!(matches!(parse_response(b"HTTP/1.1 2"), Err(Error::StatusCode(None))));
    assert!(matches!(parse_response(b""), Err(Error::StatusCode(None))));
}

#[test]
fn malformed_header_is_http_error() {
    let raw = b"HTTP/1.1 200 OK\r\nNoColonHere\r\n\r\n";
    assert!(matches!(parse_response(raw), Err(Error::Http)));
}

#[test]
fn missing_header_terminator_is_http_error() {
    let raw = b"HTTP/1.1 200 OK\r\nServer: gw\r\n";
    assert!(matches!(parse_response(raw), Err(Error::Http)));
}

#[test]
fn header_lookup_is_case_insensitive() {
    let raw = b"HTTP/1.1 200 OK\r\nLoCaTiOn:   http://x/  \r\n\r\n";
    let resp = parse_response(raw).expect("parse");
    let v = header_value(&resp, b"LOCATION").expect("header");
    assert_eq!(v, b"http://x/".to_vec());
    assert!(header_value(&resp, b"host").is_none());
}
