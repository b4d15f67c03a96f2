use bytes::BytesMut;
use message_plz::decompress::DecompressTrait;
use message_plz::framing::process_two_headers_and_body;
use message_plz::{
    Body, HeaderMap, MessageError, Method, OneRequest, OneResponse, ParseError, Request, Response,
    StatusCode, TransferType, Uri, Version,
};

fn headers_of(pairs: &[(&str, &str)]) -> HeaderMap {
    let mut map = HeaderMap::new();
    for (k, v) in pairs {
        map.insert(k.as_bytes(), v.as_bytes());
    }
    map
}

fn entries(map: &HeaderMap) -> Vec<(Vec<u8>, Vec<u8>)> {
    (0..map.len()).map(|i| (map.key_at(i).to_vec(), map.value_at(i).to_vec())).collect()
}

fn count_key(map: &HeaderMap, key: &str) -> usize {
    (0..map.len()).filter(|&i| map.key_at(i).eq_ignore_ascii_case(key.as_bytes())).count()
}

#[test]
fn normalize_twice_equals_normalize_once() {
    let input = "GET / HTTP/1.1\r\n\
                 Host: a\r\n\
                 Connection: keep-alive\r\n\
                 Proxy-Connection: keep-alive\r\n\
                 Sec-WebSocket-Extensions: permessage-deflate\r\n\
                 proxy-connection: x\r\n\
                 connection: keep-alive\r\n\r\n";
    let mut once = OneRequest::parse(input.as_bytes()).unwrap();
    once.normalize();
    let expected = vec![
        (b"Host".to_vec(), b"a".to_vec()),
        (b"Connection".to_vec(), b"close".to_vec()),
        (b"connection".to_vec(), b"close".to_vec()),
    ];
    assert_eq!(entries(once.header_map()), expected);
    let mut twice = OneRequest::parse(input.as_bytes()).unwrap();
    twice.normalize();
    twice.normalize();
    assert_eq!(once, twice);
}

#[test]
fn normalize_keeps_other_connection_values() {
    let input = "GET / HTTP/1.1\r\nConnection: Keep-Alive\r\n\r\n";
    let mut one = OneRequest::parse(input.as_bytes()).unwrap();
    assert!(one.has_connection_keep_alive().is_none());
    one.normalize();
    assert_eq!(entries(one.header_map()), vec![(b"Connection".to_vec(), b"Keep-Alive".to_vec())]);
}

#[test]
fn content_length_is_injected_once() {
    let headers = headers_of(&[("a", "1")]);
    let body = BytesMut::from("Hello, world");
    let out = process_two_headers_and_body(headers, Some(&body), None);
    assert_eq!(count_key(&out, "content-length"), 1);
    assert_eq!(
        entries(&out),
        vec![(b"a".to_vec(), b"1".to_vec()), (b"content-length".to_vec(), b"12".to_vec())]
    );
}

#[test]
fn existing_content_length_is_kept() {
    let headers = headers_of(&[("Content-Length", "99")]);
    let body = BytesMut::from("Hello");
    let out = process_two_headers_and_body(headers, Some(&body), None);
    assert_eq!(entries(&out), vec![(b"Content-Length".to_vec(), b"99".to_vec())]);
}

#[test]
fn no_body_no_content_length() {
    let out = process_two_headers_and_body(headers_of(&[("a", "1")]), None, None);
    assert_eq!(entries(&out), vec![(b"a".to_vec(), b"1".to_vec())]);
}

#[test]
fn trailers_are_merged_after_headers() {
    let headers = headers_of(&[("a", "1")]);
    let trailers = headers_of(&[("t", "2")]);
    let body = BytesMut::from("");
    let out = process_two_headers_and_body(headers, Some(&body), Some(trailers));
    assert_eq!(
        entries(&out),
        vec![
            (b"a".to_vec(), b"1".to_vec()),
            (b"t".to_vec(), b"2".to_vec()),
            (b"content-length".to_vec(), b"0".to_vec()),
        ]
    );
}

#[test]
fn minimal_request_round_trip() {
    let one = OneRequest::parse(b"GET / HTTP/1.1\r\n\r\n").unwrap();
    let req = Request::try_from_one(one).unwrap();
    assert_eq!(*req.method(), Method::GET);
    assert_eq!(req.path(), b"/".to_vec());
    assert!(req.headers().is_empty());
    assert!(req.body_as_ref().is_none());
    assert!(req.trailers().is_none());
}

#[test]
fn custom_header_round_trip() {
    let one = OneRequest::parse(b"GET / HTTP/1.1\r\nkey: value\r\n\r\n").unwrap();
    let req = Request::try_from_one(one).unwrap();
    assert_eq!(entries(req.headers()), vec![(b"key".to_vec(), b"value".to_vec())]);
}

#[test]
fn content_length_delimits_body() {
    let one = OneRequest::parse(b"POST / HTTP/1.1\r\nContent-Length: 5\r\n\r\nHelloWorld").unwrap();
    assert_eq!(
        *one.body_headers(),
        Some(message_plz::BodyHeader { transfer_type: Some(TransferType::ContentLength(5)) })
    );
    let req = Request::try_from_one(one).unwrap();
    assert_eq!(*req.body_as_ref().unwrap(), BytesMut::from("Hello"));
    let zero = OneRequest::parse(b"POST / HTTP/1.1\r\nContent-Length: 0\r\n\r\n").unwrap();
    let req = Request::try_from_one(zero).unwrap();
    assert_eq!(*req.body_as_ref().unwrap(), BytesMut::new());
}

#[test]
fn trailing_bytes_are_kept() {
    let mut one =
        OneRequest::parse(b"POST / HTTP/1.1\r\nContent-Length: 5\r\n\r\nHelloWorld").unwrap();
    assert_eq!(one.take_extra_body(), Some(BytesMut::from("World")));
    assert_eq!(one.take_extra_body(), None);
}

#[test]
fn h2_rendering() {
    let req = Request::builder()
        .method(Method::POST)
        .headers(headers_of(&[("content-length", "5")]))
        .body(BytesMut::from("Hello"))
        .build();
    let wire = OneRequest::from_request(req, Version::H2).into_bytes();
    assert_eq!(wire, "POST / HTTP/2\r\ncontent-length: 5\r\n\r\nHello");
}

#[test]
fn h3_rendering_of_response() {
    let res = Response::builder().status(StatusCode::from_u16(404).unwrap()).build();
    let wire = OneResponse::from_response(res, Version::H3, b"Not Found").into_bytes();
    assert_eq!(wire, "HTTP/3 404 Not Found\r\n\r\n");
}

#[test]
fn large_body_round_trip() {
    let body: Vec<u8> = (0..10000u32).map(|i| (i % 251) as u8).collect();
    let mut input = b"POST /up HTTP/1.1\r\nContent-Length: 10000\r\n\r\n".to_vec();
    input.extend_from_slice(&body);
    let one = OneRequest::parse(&input).unwrap();
    let mut req = Request::try_from_one(one).unwrap();
    req.set_headers(HeaderMap::new());
    let wire = OneRequest::from_request(req, Version::H11).into_bytes();
    let mut expected = b"POST /up HTTP/1.1\r\ncontent-length: 10000\r\n\r\n".to_vec();
    expected.extend_from_slice(&body);
    assert_eq!(wire.to_vec(), expected);
}

#[test]
fn chunked_body_is_rejected() {
    let input = "POST / HTTP/1.1\r\nTransfer-Encoding: chunked\r\n\r\n5\r\nHello\r\n0\r\n\r\n";
    let one = OneRequest::parse(input.as_bytes()).unwrap();
    assert!(matches!(one.body(), Some(Body::Chunked(_))));
    assert_eq!(Request::try_from_one(one).unwrap_err(), MessageError::UnsupportedBodyFraming);
    let res = OneResponse::parse(b"HTTP/1.1 200 OK\r\nTransfer-Encoding: chunked\r\n\r\n0\r\n\r\n")
        .unwrap();
    assert_eq!(Response::try_from_one(res).unwrap_err(), MessageError::UnsupportedBodyFraming);
}

#[test]
fn chunked_takes_precedence_over_content_length() {
    let input = "POST / HTTP/1.1\r\nContent-Length: 3\r\nTransfer-Encoding: Chunked\r\n\r\nabc";
    let one = OneRequest::parse(input.as_bytes()).unwrap();
    assert_eq!(
        *one.body_headers(),
        Some(message_plz::BodyHeader { transfer_type: Some(TransferType::Chunked) })
    );
}

#[test]
fn close_framing_takes_the_rest() {
    let input = "HTTP/1.1 200 OK\r\nConnection: close\r\n\r\nabc";
    let one = OneResponse::parse(input.as_bytes()).unwrap();
    assert_eq!(*one.body(), Some(Body::Raw(BytesMut::from("abc"))));
}

#[test]
fn invalid_status_is_rejected() {
    let one = OneResponse::parse(b"HTTP/1.1 abc OK\r\n\r\n").unwrap();
    assert_eq!(Response::try_from_one(one).unwrap_err(), MessageError::InvalidStatusCode);
    let one = OneResponse::parse(b"HTTP/1.1 099 X\r\n\r\n").unwrap();
    assert_eq!(Response::try_from_one(one).unwrap_err(), MessageError::InvalidStatusCode);
}

#[test]
fn parse_errors() {
    assert_eq!(OneRequest::parse(b"GET / HTTP/1.1\r\n").unwrap_err(), ParseError::Incomplete);
    assert_eq!(
        OneRequest::parse(b"POST / HTTP/1.1\r\nContent-Length: 9\r\n\r\nabc").unwrap_err(),
        ParseError::Incomplete
    );
    assert_eq!(OneRequest::parse(b"GET\r\n\r\n").unwrap_err(), ParseError::InvalidStartLine);
    assert_eq!(OneResponse::parse(b"HTTP/1.1\r\n\r\n").unwrap_err(), ParseError::InvalidStartLine);
    assert_eq!(
        OneRequest::parse(b"GET / HTTP/1.1\r\nno colon\r\n\r\n").unwrap_err(),
        ParseError::InvalidHeader
    );
    assert_eq!(
        OneRequest::parse(b"GET / HTTP/1.1\r\nContent-Length: 1x\r\n\r\n").unwrap_err(),
        ParseError::InvalidContentLength
    );
    assert_eq!(
        OneRequest::parse(b"GET / HTTP/1.1\r\nContent-Length: 99999999999999999999999\r\n\r\n")
            .unwrap_err(),
        ParseError::InvalidContentLength
    );
}

#[test]
fn host_is_injected_from_authority() {
    let uri = Uri::from_parts(Some(b"http"), Some(b"example.com"), b"/a?b=c");
    let req = Request::builder().uri(uri).build();
    let wire = OneRequest::from_request(req, Version::H11).into_bytes();
    assert_eq!(wire, "GET /a?b=c HTTP/1.1\r\nhost: example.com\r\n\r\n");
    let uri = Uri::from_parts(None, Some(b"example.com"), b"/");
    let req = Request::builder().uri(uri).headers(headers_of(&[("Host", "other")])).build();
    let wire = OneRequest::from_request(req, Version::H11).into_bytes();
    assert_eq!(wire, "GET / HTTP/1.1\r\nHost: other\r\n\r\n");
}

#[test]
fn method_is_trimmed_and_classified() {
    let one = OneRequest::parse(b"BREW /pot HTTP/1.1\r\n\r\n").unwrap();
    let req = Request::try_from_one(one).unwrap();
    assert_eq!(*req.method(), Method::UNKNOWN(b"BREW".to_vec()));
    assert_eq!(Method::from_bytes(b"CONNECT"), Method::CONNECT);
    assert_eq!(Method::PATCH.as_bytes(), b"PATCH".to_vec());
}

#[test]
fn status_code_bounds() {
    assert!(StatusCode::from_u16(99).is_err());
    assert!(StatusCode::from_u16(1000).is_err());
    assert_eq!(StatusCode::from_u16(100).unwrap().as_bytes(), b"100".to_vec());
    assert_eq!(StatusCode::from_bytes(b"599").unwrap().as_u16(), 599);
    assert!(StatusCode::from_bytes(b"59").is_err());
}

#[test]
fn header_map_operations() {
    let mut map = headers_of(&[("A", "1"), ("b", "2"), ("a", "3")]);
    assert_eq!(map.header_key_position(b"a"), Some(0));
    assert_eq!(map.header_position(b"a", b"3"), Some(2));
    assert!(map.update_header_value_on_key(b"B", b"20"));
    assert!(map.remove_header_on_key(b"a"));
    assert!(!map.remove_header_on_key(b"zz"));
    assert_eq!(
        entries(&map),
        vec![(b"b".to_vec(), b"20".to_vec()), (b"a".to_vec(), b"3".to_vec())]
    );
}

#[test]
fn wire_message_accessors() {
    let mut one = OneRequest::parse(b"CONNECT host:443 HTTP/1.1\r\nTrailer: x\r\n\r\n").unwrap();
    assert!(one.is_connect_request());
    assert!(one.has_trailers());
    assert_eq!(one.uri_as_string(), b"host:443".to_vec());
    one.set_transfer_type_close();
    assert_eq!(
        *one.body_headers(),
        Some(message_plz::BodyHeader { transfer_type: Some(TransferType::Close) })
    );
    one.add_header(b"Proxy-Connection", b"x");
    assert_eq!(one.has_proxy_connection(), Some(1));
}

#[test]
fn take_moves_body_out_once() {
    let mut req = Request::builder().body(BytesMut::from("b")).trailer(HeaderMap::new()).build();
    assert_eq!(req.take_body(), Some(BytesMut::from("b")));
    assert_eq!(req.take_body(), None);
    assert!(req.take_trailers().is_some());
    assert!(req.take_trailers().is_none());
}

#[test]
fn head_alone_is_read_without_body() {
    let one = OneRequest::try_from_message_head_buf(b"POST / HTTP/1.1\r\nContent-Length: 5\r\n\r\n")
        .unwrap();
    assert!(one.body().is_none());
    assert_eq!(
        *one.body_headers(),
        Some(message_plz::BodyHeader { transfer_type: Some(TransferType::ContentLength(5)) })
    );
    let res = OneResponse::try_from_message_head_buf(b"HTTP/1.1 204 No Content\r\n\r\n").unwrap();
    assert_eq!(res.status_code().unwrap().as_u16(), 204);
    assert_eq!(
        OneResponse::try_from_message_head_buf(b"HTTP/1.1 204").unwrap_err(),
        ParseError::Incomplete
    );
}

#[test]
fn decompression_capability() {
    let mut req = Request::builder().build();
    let parts = vec![BytesMut::from("ab"), BytesMut::from("cd")];
    DecompressTrait::set_body(&mut req, Body::Chunked(parts));
    assert_eq!(*req.body_as_ref().unwrap(), BytesMut::from("abcd"));
    assert!(!DecompressTrait::set_body_headers(&mut req, None));
    assert_eq!(DecompressTrait::get_extra_body(&mut req), None);
    DecompressTrait::header_map_as_mut(&mut req).insert(b"content-encoding", b"gzip");
    assert_eq!(DecompressTrait::header_map(&req).len(), 1);
    assert_eq!(DecompressTrait::get_body(&mut req), Some(Body::Raw(BytesMut::from("abcd"))));
    assert_eq!(DecompressTrait::get_body(&mut req), None);

    let mut one = OneRequest::parse(b"POST / HTTP/1.1\r\nContent-Length: 2\r\n\r\nabXY").unwrap();
    assert_eq!(DecompressTrait::get_extra_body(&mut one), Some(BytesMut::from("XY")));
    assert!(DecompressTrait::set_body_headers(&mut one, None));
    assert_eq!(DecompressTrait::body_headers(&one), None);
}
