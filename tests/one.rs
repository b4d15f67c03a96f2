use bytes::BytesMut;
use message_plz::lines::{build_one_request_line_with_version, build_one_response_line_with_version};
use message_plz::lines::InfoLine;
use message_plz::{
    HeaderMap, Method, OneRequest, OneRequestLine, OneResponse, OneResponseLine, Request,
    Response, StatusCode, Uri, Version,
};

fn headers_of(pairs: &[(&str, &str)]) -> HeaderMap {
    let mut map = HeaderMap::new();
    for (k, v) in pairs {
        map.insert(k.as_bytes(), v.as_bytes());
    }
    map
}

fn status(code: u16) -> StatusCode {
    StatusCode::from_u16(code).unwrap()
}

fn request_line(input: &str) -> OneRequestLine {
    let one = OneRequest::parse(format!("{input}\r\n").as_bytes()).unwrap();
    one.message_head().info_line().clone()
}

fn response_line(input: &str) -> OneResponseLine {
    let one = OneResponse::parse(format!("{input}\r\n").as_bytes()).unwrap();
    one.message_head().info_line().clone()
}

#[test]
fn test_build_one_request_line() {
    let uri = Uri::from_path(b"/foo?a=1&b=2#23");
    let line = build_one_request_line_with_version(&Method::GET, &uri, Version::H11);
    let input = "GET /foo?a=1&b=2#23 HTTP/1.1\r\n";
    let verify = request_line(input);
    assert_eq!(line, verify);
    assert_eq!(line.to_bytes(), input.as_bytes().to_vec());
}

#[test]
fn test_build_one_request_line_minimal() {
    let uri = Uri::default();
    let line = build_one_request_line_with_version(&Method::GET, &uri, Version::H2);
    let input = "GET / HTTP/2\r\n";
    let verify = request_line(input);
    assert_eq!(line, verify);
    assert_eq!(line.to_bytes(), input.as_bytes().to_vec());
}

#[test]
fn test_build_one_request_line_encoded_query() {
    let uri = Uri::from_path(b"/search?q=hello%20world&lang=en");
    let line = build_one_request_line_with_version(&Method::GET, &uri, Version::H3);
    let input = "GET /search?q=hello%20world&lang=en HTTP/3\r\n";
    let verify = request_line(input);
    assert_eq!(line, verify);
    assert_eq!(line.to_bytes(), input.as_bytes().to_vec());
}

#[test]
fn test_two_to_one_request_minimal() {
    let verify = Request::builder().method(Method::GET).uri(Uri::default()).build();
    let input = "GET / HTTP/1.1\r\n\r\n";
    let one = OneRequest::parse(input.as_bytes()).unwrap();
    assert_eq!(one, OneRequest::from_request_h11(verify));
}

#[test]
fn test_two_to_one_request_custom_header() {
    let headers = headers_of(&[("key", "value")]);
    let verify = Request::builder().method(Method::GET).headers(headers).build();
    let input = "GET / HTTP/1.1\r\n\
                 key: value\r\n\r\n";
    let one = OneRequest::parse(input.as_bytes()).unwrap();
    assert_eq!(one, OneRequest::from_request_h11(verify));
}

#[test]
fn test_two_to_one_request_multiple_headers() {
    let headers = headers_of(&[
        ("key1", "value1"),
        ("key2", "value2"),
        ("key3", "value3"),
        ("key4", "value4"),
        ("key5", "value5"),
    ]);
    let verify = Request::builder().method(Method::GET).headers(headers).build();
    let input = "GET / HTTP/1.1\r\n\
                 key1: value1\r\n\
                 key2: value2\r\n\
                 key3: value3\r\n\
                 key4: value4\r\n\
                 key5: value5\r\n\r\n";
    let one = OneRequest::parse(input.as_bytes()).unwrap();
    assert_eq!(one, OneRequest::from_request_h11(verify));
}

#[test]
fn test_two_to_one_request_body() {
    let verify = Request::builder()
        .method(Method::POST)
        .uri(Uri::default())
        .body(BytesMut::from("Hello"))
        .build();
    let input = "POST / HTTP/1.1\r\n\
                 content-length: 5\r\n\r\n\
                 Hello";
    let mut one = OneRequest::parse(input.as_bytes()).unwrap();
    one.set_body_headers(None);
    assert_eq!(one, OneRequest::from_request_h11(verify));
}

#[test]
fn test_two_to_one_request_zero_content_length() {
    let verify = Request::builder()
        .method(Method::POST)
        .uri(Uri::default())
        .body(BytesMut::from(""))
        .build();
    let input = "POST / HTTP/1.1\r\n\
                 content-length: 0\r\n\r\n";
    let mut one = OneRequest::parse(input.as_bytes()).unwrap();
    one.set_body_headers(None);
    // On the wire an empty body is not attached; read back, it is present and empty.
    assert_eq!(one.take_body(), Some(message_plz::Body::Raw(BytesMut::new())));
    assert_eq!(one, OneRequest::from_request_h11(verify));
}

#[test]
fn test_two_to_one_request_large_body() {
    let large_body = "x".repeat(10000);
    let headers = headers_of(&[("content-length", "10000")]);
    let verify = Request::builder()
        .method(Method::POST)
        .uri(Uri::default())
        .headers(headers)
        .body(BytesMut::from(&large_body[..]))
        .build();
    let input = format!(
        "POST / HTTP/1.1\r\n\
        content-length: 10000\r\n\r\n\
        {}",
        large_body
    );
    let mut one = OneRequest::parse(input.as_bytes()).unwrap();
    one.set_body_headers(None);
    assert_eq!(one, OneRequest::from_request_h11(verify));
}

#[test]
fn test_build_one_response_line() {
    let line = build_one_response_line_with_version(status(200), Version::H11, b"OK");
    let input = "HTTP/1.1 200 OK\r\n";
    let verify = response_line(input);
    assert_eq!(line, verify);
    assert_eq!(line.to_bytes(), input.as_bytes().to_vec());
}

#[test]
fn test_build_one_response_line_custom_status_no_reason() {
    let line = build_one_response_line_with_version(status(599), Version::H2, b"");
    let input = "HTTP/2 599 \r\n";
    let verify = response_line(input);
    assert_eq!(line, verify);
    assert_eq!(line.to_bytes(), input.as_bytes().to_vec());
}

#[test]
fn test_two_to_one_response_minimal() {
    let verify = Response::builder().status(status(200)).build();
    let input = "HTTP/1.1 200 OK\r\n\r\n";
    let mut one = OneResponse::parse(input.as_bytes()).unwrap();
    one.set_body_headers(None);
    assert_eq!(one, OneResponse::from_response(verify, Version::H11, b"OK"));
}

#[test]
fn test_two_to_one_response_body() {
    let headers = headers_of(&[("content-length", &5.to_string())]);
    let verify = Response::builder()
        .status(status(205))
        .headers(headers)
        .body(BytesMut::from("Hello"))
        .build();
    let input = "HTTP/1.1 205 Reset Content\r\n\
                 content-length: 5\r\n\r\n\
                 Hello";
    let mut one = OneResponse::parse(input.as_bytes()).unwrap();
    one.set_body_headers(None);
    assert_eq!(one, OneResponse::from_response(verify, Version::H11, b"Reset Content"));
}

#[test]
fn test_two_to_one_response_custom_header() {
    let headers = headers_of(&[("key", "value")]);
    let verify = Response::builder().status(status(205)).headers(headers).build();
    let input = "HTTP/1.1 205 Reset Content\r\n\
                 key: value\r\n\r\n";
    let mut one = OneResponse::parse(input.as_bytes()).unwrap();
    one.set_body_headers(None);
    assert_eq!(one, OneResponse::from_response(verify, Version::H11, b"Reset Content"));
}

#[test]
fn test_two_to_one_response_multiple_headers() {
    let headers = headers_of(&[
        ("key1", "value1"),
        ("key2", "value2"),
        ("key3", "value3"),
        ("key4", "value4"),
        ("key5", "value5"),
    ]);
    let verify = Response::builder().status(status(205)).headers(headers).build();
    let input = "HTTP/1.1 205 Reset Content\r\n\
                 key1: value1\r\n\
                 key2: value2\r\n\
                 key3: value3\r\n\
                 key4: value4\r\n\
                 key5: value5\r\n\r\n";
    let mut one = OneResponse::parse(input.as_bytes()).unwrap();
    one.set_body_headers(None);
    assert_eq!(one, OneResponse::from_response(verify, Version::H11, b"Reset Content"));
}

#[test]
fn test_two_to_one_response_zero_content_length() {
    let verify = Response::builder()
        .status(status(200))
        .headers(HeaderMap::new())
        .body(BytesMut::from(""))
        .build();
    let input = "HTTP/1.1 200 OK\r\n\
                 content-length: 0\r\n\r\n";
    let mut one = OneResponse::parse(input.as_bytes()).unwrap();
    one.set_body_headers(None);
    // On the wire an empty body is not attached; read back, it is present and empty.
    assert_eq!(one.take_body(), Some(message_plz::Body::Raw(BytesMut::new())));
    assert_eq!(one, OneResponse::from_response(verify, Version::H11, b"OK"));
}

#[test]
fn test_two_to_one_response_large_body() {
    let large_body = "x".repeat(10000);
    let verify = Response::builder()
        .status(status(200))
        .headers(HeaderMap::new())
        .body(BytesMut::from(&large_body[..]))
        .build();
    let input = format!(
        "HTTP/1.1 200 OK\r\n\
        content-length: 10000\r\n\r\n\
        {}",
        large_body
    );
    let mut one = OneResponse::parse(input.as_bytes()).unwrap();
    one.set_body_headers(None);
    assert_eq!(one, OneResponse::from_response(verify, Version::H11, b"OK"));
}
