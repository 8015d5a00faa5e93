use httpserver::headers::Headers;
use httpserver::httpresponse::{status_text_for, HttpResponse};

#[test]
fn test_response_struct_creation_200() {
    let response_actual = HttpResponse::new("200", None, Some("xxxx".into()));
    let response_expect = HttpResponse {
        version: "HTTP/1.1",
        status_code: "200",
        status_text: "OK",
        headers: {
            let mut h = Headers::new();
            h.insert("Content-Type".to_string(), "text/html".to_string());
            Some(h)
        },
        body: Some("xxxx".into()),
    };
    assert_eq!(response_actual, response_expect);
}

#[test]
fn test_resource_struct_creation_404() {
    let response_actual = HttpResponse::new("404", None, Some("xxxx".into()));
    let response_expect = HttpResponse {
        version: "HTTP/1.1",
        status_code: "404",
        status_text: "Not Found",
        headers: {
            let mut h = Headers::new();
            h.insert("Content-Type".to_string(), "text/html".to_string());
            Some(h)
        },
        body: Some("xxxx".into()),
    };
    assert_eq!(response_actual, response_expect);
}

#[test]
fn test_http_resource_creation() {
    let response_expect = HttpResponse {
        version: "HTTP/1.1",
        status_code: "200",
        status_text: "OK",
        headers: {
            let mut h = Headers::new();
            h.insert("Content-Type".to_string(), "text/html".to_string());
            Some(h)
        },
        body: Some("xxxx".into()),
    };
    let http_string: String = response_expect.into();
    let actual_string =
        "HTTP/1.1 200 OK\r\nContent-Type: text/html\r\nContent-Length: 4\r\n\r\nxxxx";
    assert_eq!(actual_string, http_string);
}

fn typed(content_type: &str) -> Headers {
    let mut h = Headers::new();
    h.insert("Content-Type".to_string(), content_type.to_string());
    h
}

#[test]
fn not_found_without_a_body() {
    let r = HttpResponse::new("404", None, None);
    let text: String = r.clone().into();
    assert_eq!(text.split("\r\n").next(), Some("HTTP/1.1 404 Not Found"));
    assert_eq!(r.get_body().len(), 0);
    assert_eq!(
        text,
        "HTTP/1.1 404 Not Found\r\nContent-Type: text/html\r\nContent-Length: 0\r\n\r\n"
    );
}

#[test]
fn status_texts() {
    assert_eq!(status_text_for("200"), "OK");
    assert_eq!(status_text_for("400"), "Bad Request");
    assert_eq!(status_text_for("404"), "Not Found");
    assert_eq!(status_text_for("500"), "Internal Server Error");
    assert_eq!(status_text_for("201"), "Unknown");
    assert_eq!(status_text_for(""), "Unknown");
    assert_eq!(status_text_for("2000"), "Unknown");
    for code in ["200", "400", "404", "500", "302", "abc"] {
        let r = HttpResponse::new(code, None, None);
        assert_eq!(r.get_status_code(), code);
        assert_eq!(r.get_status_text(), status_text_for(code));
        assert_eq!(r.get_version(), "HTTP/1.1");
    }
}

#[test]
fn the_length_counts_bytes() {
    let body = "héllo wörld €".to_string();
    let bytes = body.len();
    assert_eq!(bytes, 17);
    let r = HttpResponse::new("200", None, Some(body.clone()));
    let text = r.to_wire();
    assert!(text.ends_with(&format!("Content-Length: {}\r\n\r\n{}", bytes, body)));
    assert_eq!(
        text,
        "HTTP/1.1 200 OK\r\nContent-Type: text/html\r\nContent-Length: 17\r\n\r\nhéllo wörld €"
    );
}

#[test]
fn written_twice_the_same() {
    let mut h = typed("text/css");
    h.insert("X-A".to_string(), "1".to_string());
    let r = HttpResponse::new("200", Some(h), Some("body { }".to_string()));
    let first = r.to_wire();
    let second = r.to_wire();
    assert_eq!(first, second);
    let third: String = r.clone().into();
    assert_eq!(first, third);
    assert_eq!(
        first,
        "HTTP/1.1 200 OK\r\nContent-Type: text/css\r\nX-A: 1\r\nContent-Length: 8\r\n\r\nbody { }"
    );
}

#[test]
fn header_order_moves_the_header_lines_only() {
    let mut a = Headers::new();
    a.insert("A".to_string(), "1".to_string());
    a.insert("B".to_string(), "2".to_string());
    let mut b = Headers::new();
    b.insert("B".to_string(), "2".to_string());
    b.insert("A".to_string(), "1".to_string());
    let x = HttpResponse::new("200", Some(a), Some("xy".to_string())).to_wire();
    let y = HttpResponse::new("200", Some(b), Some("xy".to_string())).to_wire();
    assert_eq!(x, "HTTP/1.1 200 OK\r\nA: 1\r\nB: 2\r\nContent-Length: 2\r\n\r\nxy");
    assert_eq!(y, "HTTP/1.1 200 OK\r\nB: 2\r\nA: 1\r\nContent-Length: 2\r\n\r\nxy");
}

#[test]
fn given_headers_are_kept() {
    let r = HttpResponse::new("200", Some(typed("application/json")), Some("[]".to_string()));
    assert_eq!(r.headers, Some(typed("application/json")));
    assert_eq!(r.get_headers(), "Content-Type: application/json\r\n");
    assert_eq!(r.get_body(), "[]");
}

#[test]
fn the_default_response() {
    let r = HttpResponse::default();
    assert_eq!(r.version, "HTTP/1.1");
    assert_eq!(r.status_code, "200");
    assert_eq!(r.status_text, "OK");
    assert_eq!(r.headers, None);
    assert_eq!(r.body, None);
    assert_eq!(r.get_headers(), "");
    assert_eq!(r.get_body(), "");
    assert_eq!(r.to_wire(), "HTTP/1.1 200 OK\r\nContent-Length: 0\r\n\r\n");
}

#[test]
fn sending_appends_the_bytes() {
    let r = HttpResponse::new("500", None, None);
    let mut stream: Vec<u8> = b"seen".to_vec();
    assert_eq!(r.send_response(&mut stream), Ok(()));
    let mut expected = b"seen".to_vec();
    expected.extend_from_slice(
        b"HTTP/1.1 500 Internal Server Error\r\nContent-Type: text/html\r\nContent-Length: 0\r\n\r\n",
    );
    assert_eq!(stream, expected);
}
