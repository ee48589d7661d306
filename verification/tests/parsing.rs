use http_wire::error::{ErrorKind, ParseError};
use http_wire::parse::{
    has_header_terminator, parse_headers, parse_response, parse_status_line, tokenize,
};

fn bytes(s: &str) -> Vec<u8> {
    s.as_bytes().to_vec()
}

#[test]
fn parse_minimal_response() {
    let data = bytes("HTTP/1.1 200 OK\r\nContent-Type: text/plain\r\n\r\n");
    let resp = parse_response(&data).unwrap();
    assert_eq!(resp.status, 200);
    assert_eq!(
        resp.headers.get("Content-Type").map(|v| v.as_str()),
        Some("text/plain")
    );
    assert!(resp.body.is_empty());
}

#[test]
fn short_status_line_is_invalid() {
    let data = bytes("HTTP/1.1 200\r\n\r\n");
    let r = parse_response(&data);
    assert!(matches!(r, Err(ErrorKind::Parse(ParseError::InvalidStatusLine))));
    assert!(matches!(
        parse_status_line("HTTP/1.1 200"),
        Err(ErrorKind::Parse(ParseError::InvalidStatusLine))
    ));
}

#[test]
fn non_numeric_status_code_is_invalid() {
    let data = bytes("HTTP/1.1 abc OK\r\n\r\n");
    assert!(matches!(
        parse_response(&data),
        Err(ErrorKind::Parse(ParseError::InvalidStatusCode))
    ));
}

#[test]
fn oversized_status_code_is_invalid() {
    assert!(matches!(
        parse_status_line("HTTP/1.1 65536 Huge"),
        Err(ErrorKind::Parse(ParseError::InvalidStatusCode))
    ));
    assert_eq!(parse_status_line("HTTP/1.1 65535 Max").unwrap(), 65535);
}

#[test]
fn empty_input_is_an_empty_response() {
    let data: Vec<u8> = Vec::new();
    assert!(matches!(
        parse_response(&data),
        Err(ErrorKind::Parse(ParseError::EmptyResponse))
    ));
}

#[test]
fn body_is_the_bytes_after_the_terminator() {
    let data = bytes("HTTP/1.1 404 Not Found\r\nA: b\r\n\r\nBODYBYTES");
    let resp = parse_response(&data).unwrap();
    assert_eq!(resp.status, 404);
    assert_eq!(resp.headers.get("a").map(|v| v.as_str()), Some("b"));
    assert_eq!(resp.body, b"BODYBYTES".to_vec());
}

#[test]
fn response_without_terminator_still_parses() {
    let data = bytes("HTTP/1.1 200 OK");
    let resp = parse_response(&data).unwrap();
    assert_eq!(resp.status, 200);
    assert_eq!(resp.headers.len(), 0);
    assert!(resp.body.is_empty());
}

#[test]
fn header_names_and_values_are_trimmed() {
    let data = bytes("HTTP/1.1 200 OK\r\n  X-Pad  :   spaced value  \r\n\r\n");
    let resp = parse_response(&data).unwrap();
    assert_eq!(resp.headers.get("X-Pad").map(|v| v.as_str()), Some("spaced value"));
}

#[test]
fn later_header_occurrence_wins() {
    let data = bytes("HTTP/1.1 200 OK\r\nA: 1\r\na: 2\r\n\r\n");
    let resp = parse_response(&data).unwrap();
    assert_eq!(resp.headers.len(), 1);
    assert_eq!(resp.headers.get("A").map(|v| v.as_str()), Some("2"));
}

#[test]
fn headers_stop_at_the_first_empty_line() {
    let data = bytes("HTTP/1.1 200 OK\r\nA: 1\r\n\r\nB: 2\r\n");
    let resp = parse_response(&data).unwrap();
    assert_eq!(resp.headers.get("A").map(|v| v.as_str()), Some("1"));
    assert!(resp.headers.get("B").is_none());
    assert_eq!(resp.body, b"B: 2\r\n".to_vec());
}

#[test]
fn header_line_without_colon_is_skipped() {
    let data = bytes("HTTP/1.1 200 OK\r\nnocolonhere\r\nA: 1\r\n\r\n");
    let resp = parse_response(&data).unwrap();
    assert_eq!(resp.headers.len(), 1);
    assert_eq!(resp.headers.get("A").map(|v| v.as_str()), Some("1"));
}

#[test]
fn parse_headers_reads_the_block_after_the_status_line() {
    let h = parse_headers("HTTP/1.1 200 OK\r\nOne: 1\r\nTwo: 2\r\n\r\n").unwrap();
    assert_eq!(h.len(), 2);
    assert_eq!(h.get("One").map(|v| v.as_str()), Some("1"));
    assert_eq!(h.get("two").map(|v| v.as_str()), Some("2"));
}

#[test]
fn status_line_tolerates_extra_whitespace() {
    assert_eq!(parse_status_line("HTTP/1.1   301   Moved Permanently").unwrap(), 301);
}

#[test]
fn tokenize_splits_on_ascii_whitespace() {
    let toks = tokenize("  a  b\tc ");
    let toks: Vec<&str> = toks.iter().map(|t| t.as_str()).collect();
    assert_eq!(toks, vec!["a", "b", "c"]);
}

#[test]
fn terminator_detection() {
    assert!(has_header_terminator(&bytes("x\r\n\r\ny")));
    assert!(!has_header_terminator(&bytes("x\r\n\ry")));
    assert!(!has_header_terminator(&bytes("\r\n\r")));
}
