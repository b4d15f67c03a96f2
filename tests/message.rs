use bytes::BytesMut;
use message_plz::{HeaderMap, Method, OneRequest, OneResponse, Request, Response, StatusCode, Uri};

fn build_headers() -> HeaderMap {
    let mut map = HeaderMap::new();
    for i in 0..2 {
        map.insert(format!("header-{i}").as_bytes(), format!("value-{i}").as_bytes());
    }
    map
}

fn headers_of(pairs: &[(&str, &str)]) -> HeaderMap {
    let mut map = HeaderMap::new();
    for (k, v) in pairs {
        map.insert(k.as_bytes(), v.as_bytes());
    }
    map
}

fn parse_request(input: &[u8]) -> Request {
    let one = OneRequest::parse(input).unwrap();
    Request::try_from_one(one).unwrap()
}

fn parse_response(input: &[u8]) -> Response {
    let one = OneResponse::parse(input).unwrap();
    Response::try_from_one(one).unwrap()
}

fn status(code: u16) -> StatusCode {
    StatusCode::from_u16(code).unwrap()
}

#[test]
fn test_request_builder_default() {
    let request = Request::builder().build();
    assert_eq!(*request.method(), Method::GET);
    assert!(request.scheme().is_none());
    assert_eq!(request.path_and_query(), b"/");
    assert_eq!(request.path(), b"/".to_vec());
    assert!(request.query().is_none());
    assert!(request.authority().is_none());
    assert!(request.headers().is_empty());
    assert!(request.body_as_ref().is_none());
    assert!(request.trailers().is_none());
}

#[test]
fn test_request_builder() {
    let headers = build_headers();
    let body = BytesMut::from("dead body");
    let path = "/dead/end?user=sqli'--+-";
    let authority = "<script>alert(1)</script>";
    let uri = Uri::from_parts(Some(b"http"), Some(authority.as_bytes()), path.as_bytes());
    let request = Request::builder()
        .method(Method::POST)
        .uri(uri)
        .headers(headers.clone())
        .body(body.clone())
        .trailer(headers.clone())
        .build();

    assert_eq!(*request.method(), Method::POST);
    assert_eq!(request.scheme().unwrap(), b"http");
    assert_eq!(request.path_and_query(), path.as_bytes());
    assert_eq!(request.path(), path[..9].as_bytes().to_vec());
    assert_eq!(request.query().unwrap(), path[10..].as_bytes().to_vec());
    assert_eq!(request.authority().unwrap(), authority.as_bytes());
    assert_eq!(request.headers(), &headers);
    assert_eq!(*request.body_as_ref().unwrap(), body);
    assert_eq!(request.trailers().unwrap(), &headers);
}

#[test]
fn test_response_builder_default() {
    let response = Response::builder().build();
    assert_eq!(response.status().as_u16(), 200);
    assert!(response.headers().is_empty());
    assert!(response.body_as_ref().is_none());
    assert!(response.trailers().is_none());
}

#[test]
fn test_response_builder() {
    let headers = build_headers();
    let body = BytesMut::from("dead body");
    let response = Response::builder()
        .status(status(100))
        .headers(headers.clone())
        .body(body.clone())
        .trailer(headers.clone())
        .build();
    assert_eq!(response.status().as_u16(), 100);
    assert_eq!(response.headers(), &headers);
    assert_eq!(*response.body_as_ref().unwrap(), body);
    assert_eq!(response.trailers().unwrap(), &headers);
}

#[test]
fn test_one_to_two_request_minimal() {
    let verify = Request::builder().method(Method::GET).uri(Uri::default()).build();
    let input = "GET / HTTP/1.1\r\n\r\n";
    assert_eq!(parse_request(input.as_bytes()), verify);
}

#[test]
fn test_one_to_two_request_custom_header() {
    let headers = headers_of(&[("key", "value")]);
    let verify = Request::builder().method(Method::GET).headers(headers).build();
    let input = "GET / HTTP/1.1\r\n\
                 key: value\r\n\r\n";
    assert_eq!(parse_request(input.as_bytes()), verify);
}

#[test]
fn test_one_to_two_request_multiple_headers() {
    let headers = headers_of(&[
        ("key1", "value1"),
        ("key2", "value2"),
        ("key3", "value3"),
        ("key4", "value4"),
        ("key5", "value5"),
    ]);
    let verify = Request::builder().method(Method::GET).headers(headers).build();
    let input = "GET / HTTP/1.1\r\n\
                 key1: value1\r\n\
                 key2: value2\r\n\
                 key3: value3\r\n\
                 key4: value4\r\n\
                 key5: value5\r\n\r\n";
    assert_eq!(parse_request(input.as_bytes()), verify);
}

#[test]
fn test_one_to_two_request_body() {
    let headers = headers_of(&[("content-length", "5")]);
    let verify = Request::builder()
        .method(Method::POST)
        .uri(Uri::default())
        .headers(headers)
        .body(BytesMut::from("Hello"))
        .build();
    let input = "POST / HTTP/1.1\r\n\
                 Content-Length: 5\r\n\r\n\
                 Hello";
    assert_eq!(parse_request(input.as_bytes()), verify);
}

#[test]
fn test_one_to_two_request_zero_content_length() {
    // A zero content length gives a body that is present and empty.
    let headers = headers_of(&[("content-length", "0")]);
    let verify = Request::builder()
        .method(Method::POST)
        .uri(Uri::default())
        .headers(headers)
        .body(BytesMut::from(""))
        .build();
    let input = "POST / HTTP/1.1\r\n\
                 Content-Length: 0\r\n\r\n";
    assert_eq!(parse_request(input.as_bytes()), verify);
}

#[test]
fn test_one_to_two_request_large_body() {
    let large_body = "x".repeat(10000);
    let headers = headers_of(&[("content-length", "10000")]);
    let verify = Request::builder()
        .method(Method::POST)
        .uri(Uri::default())
        .headers(headers)
        .body(BytesMut::from(&large_body[..]))
        .build();
    let input = format!(
        "POST / HTTP/1.1\r\n\
        Content-Length: 10000\r\n\r\n\
        {}",
        large_body
    );
    assert_eq!(parse_request(input.as_bytes()), verify);
}

#[test]
fn test_two_into_one_rep_request() {
    let expected = "POST / HTTP/2\r\n\
                    content-length: 5\r\n\r\n\
                    Hello";
    let headers = headers_of(&[("content-length", "5")]);
    let req = Request::builder()
        .method(Method::POST)
        .uri(Uri::default())
        .headers(headers)
        .body(BytesMut::from("Hello"))
        .build();
    assert_eq!(req.into_one_rep().into_bytes(), expected);
}

#[test]
fn test_one_to_two_response_minimal() {
    let input = "HTTP/1.1 200 OK\r\n\r\n";
    let result = parse_response(input.as_bytes());
    let verify = Response::builder().status(status(200)).build();
    assert_eq!(result, verify);
}

#[test]
fn test_one_to_two_response_custom_header() {
    let input = "HTTP/1.1 200 OK\r\n\
                 key: value\r\n\r\n";
    let result = parse_response(input.as_bytes());
    let headers = headers_of(&[("key", "value")]);
    let verify = Response::builder().status(status(200)).headers(headers).build();
    assert_eq!(result, verify);
}

#[test]
fn test_one_to_two_response_multiple_headers() {
    let input = "HTTP/1.1 200 OK\r\n\
                 key1: value1\r\n\
                 key2: value2\r\n\
                 key3: value3\r\n\
                 key4: value4\r\n\
                 key5: value5\r\n\r\n";
    let result = parse_response(input.as_bytes());
    let headers = headers_of(&[
        ("key1", "value1"),
        ("key2", "value2"),
        ("key3", "value3"),
        ("key4", "value4"),
        ("key5", "value5"),
    ]);
    let verify = Response::builder().status(status(200)).headers(headers).build();
    assert_eq!(result, verify);
}

#[test]
fn test_one_to_two_response_body() {
    let input = "HTTP/1.1 205 OK\r\n\
                 Content-Length: 5\r\n\r\n\
                 Hello";
    let result = parse_response(input.as_bytes());
    let headers = headers_of(&[("content-length", "5")]);
    let verify = Response::builder()
        .status(status(205))
        .headers(headers)
        .body(BytesMut::from("Hello"))
        .build();
    assert_eq!(result, verify);
}

#[test]
fn test_one_to_two_response_zero_content_length() {
    // A zero content length gives a body that is present and empty.
    let input = "HTTP/1.1 205 OK\r\n\
                 Content-Length: 0\r\n\r\n";
    let result = parse_response(input.as_bytes());
    let headers = headers_of(&[("content-length", "0")]);
    let verify = Response::builder()
        .status(status(205))
        .headers(headers)
        .body(BytesMut::from(""))
        .build();
    assert_eq!(result, verify);
}

#[test]
fn test_one_to_two_response_large_body() {
    let large_body = "x".repeat(10000);
    let input = format!(
        "HTTP/1.1 205 OK\r\n\
         Content-Length: {}\r\n\r\n\
         {}",
        large_body.len(),
        large_body
    );
    let result = parse_response(input.as_bytes());
    let len = large_body.len().to_string();
    let headers = headers_of(&[("content-length", len.as_str())]);
    let verify = Response::builder()
        .status(status(205))
        .headers(headers)
        .body(BytesMut::from(&large_body[..]))
        .build();
    assert_eq!(result, verify);
}

#[test]
fn test_two_into_one_rep_response() {
    let expected = "HTTP/2 200 OK\r\n\
                    content-length: 5\r\n\r\n\
                    Hello";
    let headers = headers_of(&[("content-length", "5")]);
    let resp = Response::builder()
        .status(status(200))
        .headers(headers)
        .body(BytesMut::from("Hello"))
        .build();
    assert_eq!(resp.into_one_rep(b"OK").into_bytes(), expected);
}
