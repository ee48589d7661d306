use http_wire::client::{Client, ClientBuilder};
use http_wire::error::{ClientError, ErrorKind, RequestError};
use http_wire::headers::HeaderMap;
use http_wire::method::{HttpVersion, Method};
use http_wire::request::RequestBuilder;

fn ok_builder(url: &str, method: &str) -> RequestBuilder {
    let mut b = RequestBuilder::new();
    b.url(url);
    b.method(method);
    b
}

#[test]
fn timeout_at_floor_fails() {
    let mut b = ok_builder("http://example.com/", "Get");
    b.timeout(10_000);
    let r = b.build();
    assert!(matches!(r, Err(ErrorKind::Request(RequestError::InvalidTimeout))));
}

#[test]
fn timeout_below_floor_fails() {
    let mut b = ok_builder("http://example.com/", "Get");
    b.timeout(1);
    assert!(matches!(b.build(), Err(ErrorKind::Request(RequestError::InvalidTimeout))));
}

#[test]
fn timeout_above_floor_is_preserved() {
    let mut b = ok_builder("http://example.com/", "Get");
    b.timeout(10_001);
    let req = b.build().unwrap();
    assert_eq!(req.get_timeout(), 10_001);

    let mut b2 = ok_builder("http://example.com/", "Get");
    b2.timeout(45_000);
    assert_eq!(b2.build().unwrap().get_timeout(), 45_000);
}

#[test]
fn first_failure_wins() {
    let mut b = RequestBuilder::new();
    b.timeout(5);
    b.url("::not a url::");
    let r = b.build();
    assert!(matches!(r, Err(ErrorKind::Request(RequestError::InvalidTimeout))));
}

#[test]
fn recognized_method_tokens_map_to_variants() {
    for (token, want) in [
        ("Get", Method::GET),
        ("Post", Method::POST),
        ("Put", Method::PUT),
        ("Delete", Method::DELETE),
    ] {
        let b = ok_builder("http://example.com/", token);
        let req = b.build().unwrap();
        assert!(req.get_method() == want, "token {token}");
    }
}

#[test]
fn unrecognized_method_token_fails_at_build() {
    for token in ["GET", "get", "PATCH", ""] {
        let b = ok_builder("http://example.com/", token);
        let r = b.build();
        assert!(
            matches!(r, Err(ErrorKind::Request(RequestError::InvalidMethod))),
            "token {token}"
        );
    }
}

#[test]
fn malformed_url_fails_at_build() {
    let mut b = RequestBuilder::new();
    b.url("not a url");
    b.method("Get");
    assert!(matches!(b.build(), Err(ErrorKind::Request(RequestError::MalformedUrl))));
}

#[test]
fn missing_url_fails_at_build() {
    let mut b = RequestBuilder::new();
    b.method("Get");
    assert!(matches!(b.build(), Err(ErrorKind::Request(RequestError::MalformedUrl))));
}

#[test]
fn version_tokens_map_and_bad_version_fails() {
    let mut b = ok_builder("http://example.com/", "Get");
    b.version("http2");
    assert!(b.build().unwrap().get_version() == HttpVersion::Http2Only);

    let mut b2 = ok_builder("http://example.com/", "Get");
    b2.version("h3");
    assert!(matches!(
        b2.build(),
        Err(ErrorKind::Client(ClientError::InvalidHttpVersion))
    ));
}

#[test]
fn url_components_are_recorded() {
    let b = ok_builder("http://example.com:8080/a/b?x=1", "Get");
    let req = b.build().unwrap();
    let url = req.get_url();
    assert_eq!(url.scheme.as_str(), "http");
    assert_eq!(url.host.as_deref(), Some("example.com"));
    assert_eq!(url.port, Some(8080));
    assert_eq!(url.path.as_str(), "/a/b");
    assert_eq!(url.query.as_deref(), Some("x=1"));
}

#[test]
fn header_merge_is_case_insensitive_last_write_wins() {
    let mut hs = HeaderMap::new();
    hs.insert("Accept".to_string(), "text/plain".to_string());
    hs.insert("ACCEPT".to_string(), "application/json".to_string());
    assert_eq!(hs.len(), 1);
    assert_eq!(hs.get("accept").map(|v| v.as_str()), Some("application/json"));

    let mut b = ok_builder("http://example.com/", "Get");
    b.headers(&hs);
    let mut more = HeaderMap::new();
    more.insert("accept".to_string(), "text/html".to_string());
    b.headers(&more);
    let req = b.build().unwrap();
    assert_eq!(req.get_header().len(), 1);
    assert_eq!(
        req.get_header().get("Accept").map(|v| v.as_str()),
        Some("text/html")
    );
}

#[test]
fn client_default_config() {
    let c = Client::new();
    let cfg = c.config();
    assert_eq!(cfg.timeout_ms, Some(30_000));
    assert_eq!(cfg.user_agent.as_deref(), Some("rust-http-client/0.1.0"));
    assert!(cfg.follow_redirects);
    assert_eq!(cfg.max_redirects, 10);
    assert!(cfg.http_version_pref == HttpVersion::All);
}

#[test]
fn client_builder_floor_and_setters() {
    let mut cb = ClientBuilder::new();
    assert!(matches!(
        cb.timeout(10_000),
        Err(ErrorKind::Request(RequestError::InvalidTimeout))
    ));
    assert!(cb.timeout(20_000).is_ok());
    assert!(matches!(
        cb.http_version_pref("h9"),
        Err(ErrorKind::Client(ClientError::InvalidHttpVersion))
    ));
    assert!(cb.http_version_pref("http1").is_ok());
    cb.follow_redirects(false);
    cb.max_redirects(3);
    cb.user_agent("probe/1.0".to_string());
    let c = cb.build();
    let cfg = c.config();
    assert_eq!(cfg.timeout_ms, Some(20_000));
    assert!(cfg.http_version_pref == HttpVersion::Http1Only);
    assert!(!cfg.follow_redirects);
    assert_eq!(cfg.max_redirects, 3);
    assert_eq!(cfg.user_agent.as_deref(), Some("probe/1.0"));
}

#[test]
fn client_convenience_requests_use_config_defaults() {
    let c = Client::new();
    let hs = HeaderMap::new();
    let req = c.get("http://example.com/", &hs, None, "all").unwrap();
    assert!(req.get_method() == Method::GET);
    assert_eq!(req.get_timeout(), 30_000);

    let req2 = c
        .post("http://example.com/", &hs, Some("payload"), Some(15_000), "all")
        .unwrap();
    assert!(req2.get_method() == Method::POST);
    assert_eq!(req2.get_timeout(), 15_000);
    assert_eq!(req2.get_body().as_deref(), Some("payload"));

    let req3 = c.put("http://example.com/", &hs, None, None, "http1").unwrap();
    assert!(req3.get_method() == Method::PUT);
    assert!(req3.get_version() == HttpVersion::Http1Only);

    let req4 = c.delete("http://example.com/", &hs, None, "all").unwrap();
    assert!(req4.get_method() == Method::DELETE);
}

#[test]
fn client_request_rejects_low_timeout() {
    let c = Client::new();
    let hs = HeaderMap::new();
    let r = c.get("http://example.com/", &hs, Some(9_000), "all");
    assert!(matches!(r, Err(ErrorKind::Request(RequestError::InvalidTimeout))));
}

#[test]
fn shared_client_config_is_not_mutated_by_requests() {
    let c = Client::new();
    let hs = HeaderMap::new();
    let before = (
        c.config().timeout_ms,
        c.config().user_agent.clone(),
        c.config().follow_redirects,
        c.config().max_redirects,
    );
    let _ = c.get("http://example.com/", &hs, Some(12_000), "all").unwrap();
    let _ = c.post("http://example.com/", &hs, Some("x"), None, "http2");
    let after = (
        c.config().timeout_ms,
        c.config().user_agent.clone(),
        c.config().follow_redirects,
        c.config().max_redirects,
    );
    assert_eq!(before, after);
}
