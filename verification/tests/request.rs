use httpserver::headers::Headers;
use httpserver::httprequest::{
    is_malformed, parse_header_line, parse_request_line, HttpRequest, Method, Resource, Version,
};

#[test]
fn test_method_into() {
    let get: Method = "GET".into();
    assert_eq!(get, Method::Get);
}

#[test]
fn test_version_into() {
    let get: Version = "HTTP/1.1".into();
    assert_eq!(get, Version::V1_1);
}

#[test]
fn test_read_http() {
    let req =
        "GET /geetings HTTP/1.1\r\nHost: localhost:8000\r\n\\r\nHello, world!".to_string();

    let mut header_expected = Headers::new();
    header_expected.insert("Host".to_string(), "localhost:8000".to_string());
    let http_req: HttpRequest = req.into();

    assert_eq!(http_req.method, Method::Get);
    assert_eq!(http_req.version, Version::V1_1);
    assert_eq!(http_req.resource, Resource::Path("/geetings".to_string()));
    assert_eq!(http_req.headers, header_expected);
}

#[test]
fn read_a_request_with_a_body() {
    let req = "GET /greetings HTTP/1.1\r\nHost: localhost:8000\r\n\r\nHello, world!".to_string();
    let http_req = HttpRequest::from(req);
    let mut headers = Headers::new();
    headers.insert("Host".to_string(), "localhost:8000".to_string());
    assert_eq!(http_req.method, Method::Get);
    assert_eq!(http_req.version, Version::V1_1);
    assert_eq!(http_req.resource, Resource::Path("/greetings".to_string()));
    assert_eq!(http_req.headers, headers);
    assert_eq!(http_req.headers.len(), 1);
    assert_eq!(http_req.msg_body, "Hello, world!");
}

#[test]
fn methods_by_their_words() {
    assert_eq!(Method::from("GET"), Method::Get);
    assert_eq!(Method::from("POST"), Method::Post);
    assert_eq!(Method::from("PUT"), Method::Uninitialized);
    assert_eq!(Method::from("get"), Method::Uninitialized);
    assert_eq!(Method::from(""), Method::Uninitialized);
    assert_eq!(Method::from("GET "), Method::Uninitialized);
}

#[test]
fn versions_by_their_words() {
    assert_eq!(Version::from("HTTP/1.1"), Version::V1_1);
    assert_eq!(Version::from("HTTP/2.0"), Version::V2_0);
    assert_eq!(Version::from("HTTP/1.0"), Version::Uninitialized);
    assert_eq!(Version::from("http/1.1"), Version::Uninitialized);
    assert_eq!(Version::from(""), Version::Uninitialized);
}

#[test]
fn an_empty_text_gives_the_defaults() {
    let r = HttpRequest::from(String::new());
    assert_eq!(r.method, Method::Uninitialized);
    assert_eq!(r.version, Version::V1_1);
    assert_eq!(r.resource, Resource::Path(String::new()));
    assert_eq!(r.headers.len(), 0);
    assert_eq!(r.msg_body, "");
}

#[test]
fn unknown_words_are_no_error() {
    let r = HttpRequest::from("PATCH /x HTTP/3.0\r\n\r\n".to_string());
    assert_eq!(r.method, Method::Uninitialized);
    assert_eq!(r.version, Version::Uninitialized);
    assert_eq!(r.resource, Resource::Path("/x".to_string()));
}

#[test]
fn a_short_request_line_leaves_the_request_as_it_was() {
    let r = HttpRequest::from("GET HTTP/1.1\r\nHost: a\r\n".to_string());
    assert_eq!(r.method, Method::Uninitialized);
    assert_eq!(r.version, Version::V1_1);
    assert_eq!(r.resource, Resource::Path(String::new()));
    assert_eq!(r.headers.get("Host"), Some(&"a".to_string()));
    let r = HttpRequest::from("POST /a HTTP/2.0\r\nHTTP\r\n".to_string());
    assert_eq!(r.method, Method::Post);
    assert_eq!(r.version, Version::V2_0);
    assert_eq!(r.resource, Resource::Path("/a".to_string()));
}

#[test]
fn only_the_last_body_line_is_kept() {
    let r = HttpRequest::from("GET / HTTP/1.1\r\n\r\nfirst\r\nsecond\r\n".to_string());
    assert_eq!(r.msg_body, "second");
}

#[test]
fn lines_end_at_carriage_return_and_line_feed_only() {
    let r = HttpRequest::from("GET / HTTP/1.1\r\n\r\none\ntwo".to_string());
    assert_eq!(r.msg_body, "one\ntwo");
}

#[test]
fn a_later_header_value_wins() {
    let r = HttpRequest::from("GET / HTTP/1.1\r\nA: 1\r\nB: 2\r\nA: 3\r\n".to_string());
    assert_eq!(r.headers.len(), 2);
    assert_eq!(r.headers.get("A"), Some(&"3".to_string()));
    assert_eq!(r.headers.get("B"), Some(&"2".to_string()));
    assert_eq!(r.headers.get("a"), None);
}

#[test]
fn a_request_line_with_more_words_uses_the_first_three() {
    let r = HttpRequest::from("  GET   /a\tHTTP/1.1  extra".to_string());
    assert_eq!(r.method, Method::Get);
    assert_eq!(r.resource, Resource::Path("/a".to_string()));
    assert_eq!(r.version, Version::V1_1);
}

#[test]
fn request_line_alone() {
    assert_eq!(
        parse_request_line("POST /orders HTTP/2.0"),
        Some((Method::Post, Resource::Path("/orders".to_string()), Version::V2_0))
    );
    assert_eq!(parse_request_line("GET /orders"), None);
    assert_eq!(parse_request_line(""), None);
}

#[test]
fn header_line_alone() {
    assert_eq!(
        parse_header_line("Host: localhost:8000"),
        ("Host".to_string(), "localhost:8000".to_string())
    );
    assert_eq!(parse_header_line("Host: a: b"), ("Host".to_string(), "a: b".to_string()));
    assert_eq!(parse_header_line(": x"), (String::new(), "x".to_string()));
    assert_eq!(parse_header_line("Host: "), ("Host".to_string(), String::new()));
    assert_eq!(parse_header_line("Host"), ("Host".to_string(), String::new()));
}

#[test]
fn malformed_texts() {
    assert!(is_malformed("GET HTTP/1.1\r\n\r\n"));
    assert!(is_malformed("Host: a\r\nHTTP\r\n"));
    assert!(!is_malformed("GET / HTTP/1.1\r\n\r\n"));
    assert!(!is_malformed("PUT / HTTP/9\r\n"));
    assert!(!is_malformed(""));
    assert!(!is_malformed("GET /\r\n"));
}
