use http_wire::error::{ErrorKind, RequestError, TransportError};
use http_wire::headers::HeaderMap;
use http_wire::method::{HttpVersion, Method};
use http_wire::request::{Request, RequestBuilder};
use http_wire::url_parts::UrlParts;

fn build_get(url: &str) -> Request {
    let mut b = RequestBuilder::new();
    b.url(url);
    b.method("Get");
    b.build().unwrap()
}

#[test]
fn serialize_get_without_body() {
    let mut b = RequestBuilder::new();
    b.url("http://example.com/path?x=1");
    b.method("Get");
    let mut hs = HeaderMap::new();
    hs.insert("Accept".to_string(), "text/plain".to_string());
    b.headers(&hs);
    let req = b.build().unwrap();
    let wire = req.wire_message().unwrap();
    assert_eq!(
        wire,
        "GET /path?x=1 HTTP/1.1\r\nHost: example.com\r\nAccept: text/plain\r\n\r\n"
    );
}

#[test]
fn serialize_with_body_adds_content_length() {
    let mut b = RequestBuilder::new();
    b.url("http://example.com/path?x=1");
    b.method("Get");
    let mut hs = HeaderMap::new();
    hs.insert("Accept".to_string(), "text/plain".to_string());
    b.headers(&hs);
    b.body("hello");
    let req = b.build().unwrap();
    let wire = req.wire_message().unwrap();
    assert_eq!(
        wire,
        "GET /path?x=1 HTTP/1.1\r\nHost: example.com\r\nAccept: text/plain\r\nContent-Length: 5\r\n\r\nhello"
    );
}

#[test]
fn non_default_port_appears_in_host() {
    let req = build_get("http://example.com:8080/a");
    let wire = req.wire_message().unwrap();
    assert!(wire.contains("Host: example.com:8080\r\n"), "{wire}");
}

#[test]
fn default_http_port_is_omitted_from_host() {
    let req = build_get("http://example.com:80/a");
    let wire = req.wire_message().unwrap();
    assert!(wire.contains("Host: example.com\r\n"), "{wire}");
    assert!(!wire.contains(":80"), "{wire}");
}

#[test]
fn explicit_user_host_header_wins() {
    let mut b = RequestBuilder::new();
    b.url("http://example.com/");
    b.method("Get");
    let mut hs = HeaderMap::new();
    hs.insert("Host".to_string(), "other.test".to_string());
    b.headers(&hs);
    let req = b.build().unwrap();
    let wire = req.wire_message().unwrap();
    assert!(wire.contains("Host: other.test\r\n"), "{wire}");
    assert!(!wire.contains("Host: example.com"), "{wire}");
}

#[test]
fn post_serializes_its_method_token() {
    let mut b = RequestBuilder::new();
    b.url("http://example.com/submit");
    b.method("Post");
    b.body("a=1");
    let req = b.build().unwrap();
    let wire = req.wire_message().unwrap();
    assert!(wire.starts_with("POST /submit HTTP/1.1\r\n"), "{wire}");
    assert!(wire.contains("Content-Length: 3\r\n"), "{wire}");
    assert!(wire.ends_with("\r\n\r\na=1"), "{wire}");
}

#[test]
fn start_line_round_trips_method_and_path() {
    let req = build_get("http://example.com/path?x=1");
    let wire = req.wire_message().unwrap();
    let first_line = wire.split("\r\n").next().unwrap();
    let tokens: Vec<&str> = first_line.split_whitespace().collect();
    assert_eq!(tokens.len(), 3);
    assert_eq!(tokens[0], req.get_method().as_str());
    assert_eq!(tokens[0], "GET");
    assert_eq!(tokens[1], "/path?x=1");
    assert_eq!(tokens[2], "HTTP/1.1");
}

#[test]
fn url_without_host_cannot_go_on_the_wire() {
    let mut b = RequestBuilder::new();
    b.url("data:text/plain,hi");
    b.method("Get");
    let req = b.build().unwrap();
    let r = req.wire_message();
    assert!(matches!(
        r,
        Err(ErrorKind::Transport(TransportError::HostUnresolved))
    ));
}

#[test]
fn sentinel_method_cannot_go_on_the_wire() {
    let url = UrlParts {
        scheme: "http".to_string(),
        host: Some("example.com".to_string()),
        port: None,
        path: "/".to_string(),
        query: None,
    };
    let req = Request::from(
        Method::Uninitialized,
        url,
        HeaderMap::new(),
        None,
        30_000,
        HttpVersion::All,
    );
    assert!(matches!(
        req.wire_message(),
        Err(ErrorKind::Request(RequestError::InvalidMethod))
    ));
}

#[test]
fn request_is_reusable_across_serializations() {
    let req = build_get("http://example.com/r");
    let w1 = req.wire_message().unwrap();
    let w2 = req.wire_message().unwrap();
    assert_eq!(w1, w2);
}

#[test]
fn method_tokens_on_the_wire() {
    assert_eq!(Method::GET.as_str(), "GET");
    assert_eq!(Method::POST.as_str(), "POST");
    assert_eq!(Method::PUT.as_str(), "PUT");
    assert_eq!(Method::DELETE.as_str(), "DELETE");
    assert!(Method::from("Get") == Method::GET);
    assert!(Method::from("GET") == Method::Uninitialized);
}
