//! Conversion between semantic and wire messages.
use vstd::prelude::*;

use bytes::BytesMut;

use crate::buffer::{bytes_of, opt_bytes};
use crate::framing::{
    process_one_headers_and_body, process_two_headers_and_body, wire_headers, Body,
    MessageError,
};
use crate::headers::{has_key_in, key_is, lowercase_keys, Entry};
use crate::lines::{
    build_one_request_line_with_version, build_one_response_line_with_version, InfoLine,
    OneRequestLine, OneResponseLine, RequestLine, ResponseLine,
};
use crate::message::{Message, Request, Response};
use crate::method::{registered_method, Method};
use crate::names::{content_length, host, host_bytes};
use crate::one::{MessageHead, OneOne, OneRequest, OneResponse};
use crate::status::{status_token, status_token_value};
use crate::text::{decimal, lower, lowercase, trim_end};
use crate::uri::{nonempty_path, Uri};
use crate::version::Version;

verus! {

/// The wire headers with a `Host` entry for the authority, when there is
/// an authority and no `Host` entry yet.
pub open spec fn with_host(s: Seq<Entry>, authority: Option<Seq<u8>>) -> Seq<Entry> {
    match authority {
        Some(a) => if has_key_in(s, host()) {
            s
        } else {
            s.push((host(), a))
        },
        None => s,
    }
}

/// The wire body for a semantic body: a non-empty body is attached raw,
/// an empty or absent one is not attached.
pub open spec fn wire_body(b: Option<BytesMut>) -> Option<Body> {
    match b {
        Some(x) => if bytes_of(x).len() > 0 {
            Some(Body::Raw(x))
        } else {
            None
        },
        None => None,
    }
}

/// The semantic body for a raw wire body.
pub open spec fn semantic_body(b: Option<Body>) -> Option<BytesMut> {
    match b {
        Some(Body::Raw(x)) => Some(x),
        _ => None,
    }
}

fn attach_body<T: InfoLine>(one: &mut OneOne<T>, body: Option<BytesMut>)
    requires
        old(one).body_view() is None,
    ensures
        final(one).body_view() == wire_body(body),
        final(one).headers_view() == old(one).headers_view(),
        final(one).info_line_view() == old(one).info_line_view(),
        final(one).body_headers_view() == old(one).body_headers_view(),
        final(one).extra_body_view() == old(one).extra_body_view(),
{
    match body {
        Some(b) => {
            if !b.is_empty() {
                one.set_body(Body::Raw(b));
            }
        },
        None => {},
    }
}

impl OneOne<OneRequestLine> {
    /// The wire form of `req` under `version`: trailers merged into the
    /// headers, content-length injected for a body, `Host` injected from
    /// the URI's authority, and a non-empty body attached raw.
    pub fn from_request(req: Request, version: Version) -> (r: OneRequest)
        ensures
            r.info_line_view().method_view() == req.info_line_view().method.token().push(32),
            r.info_line_view().uri_view() == req.info_line_view().uri.path_and_query_view(),
            r.info_line_view().version_view() == version.request_suffix(),
            r.headers_view() == with_host(
                wire_headers(req.headers_view(), opt_bytes(req.body_view()), req.trailers_view()),
                req.info_line_view().uri.authority_view(),
            ),
            r.body_headers_view() == req.body_headers_view(),
            r.body_view() == wire_body(req.body_view()),
            r.extra_body_view() is None,
    {
        let (info_line, headers, body_headers, body, trailer) = req.into_parts();
        let body_ref: Option<&BytesMut> = match &body {
            Some(b) => Some(b),
            None => None,
        };
        let mut header_map = process_two_headers_and_body(headers, body_ref, trailer);
        let line = build_one_request_line_with_version(&info_line.method, &info_line.uri, version);
        match info_line.uri.authority() {
            Some(a) => {
                let key = host_bytes();
                if !header_map.has_key(key.as_slice()) {
                    header_map.insert(key.as_slice(), a);
                }
            },
            None => {},
        }
        let mut one = OneOne::new(MessageHead::new(line, header_map), body_headers);
        attach_body(&mut one, body);
        one
    }

    /// The wire form of `req` under HTTP/1.1.
    pub fn from_request_h11(req: Request) -> (r: OneRequest)
        ensures
            r.info_line_view().method_view() == req.info_line_view().method.token().push(32),
            r.info_line_view().uri_view() == req.info_line_view().uri.path_and_query_view(),
            r.info_line_view().version_view() == Version::H11.request_suffix(),
            r.headers_view() == with_host(
                wire_headers(req.headers_view(), opt_bytes(req.body_view()), req.trailers_view()),
                req.info_line_view().uri.authority_view(),
            ),
            r.body_headers_view() == req.body_headers_view(),
            r.body_view() == wire_body(req.body_view()),
            r.extra_body_view() is None,
    {
        OneOne::from_request(req, Version::H11)
    }
}

impl OneOne<OneResponseLine> {
    /// The wire form of `res` under `version`, with `reason` as the reason
    /// phrase: trailers merged into the headers, content-length injected
    /// for a body, and a non-empty body attached raw.
    pub fn from_response(res: Response, version: Version, reason: &[u8]) -> (r: OneResponse)
        ensures
            r.info_line_view().version_view() == version.response_prefix(),
            r.info_line_view().status_view() == decimal(
                res.info_line_view().status.value() as nat,
            ),
            r.info_line_view().reason_view() == seq![32u8] + reason@ + seq![13u8, 10],
            r.headers_view() == wire_headers(
                res.headers_view(),
                opt_bytes(res.body_view()),
                res.trailers_view(),
            ),
            r.body_headers_view() == res.body_headers_view(),
            r.body_view() == wire_body(res.body_view()),
            r.extra_body_view() is None,
    {
        let (info_line, headers, body_headers, body, trailer) = res.into_parts();
        let body_ref: Option<&BytesMut> = match &body {
            Some(b) => Some(b),
            None => None,
        };
        let header_map = process_two_headers_and_body(headers, body_ref, trailer);
        let line = build_one_response_line_with_version(info_line.status, version, reason);
        let mut one = OneOne::new(MessageHead::new(line, header_map), body_headers);
        attach_body(&mut one, body);
        one
    }
}

impl Message<RequestLine> {
    /// The semantic form of a wire request: the method token without its
    /// trailing space, the target as the URI's path and query, the headers
    /// with lowercase keys, a raw body as the body, and no trailers. A
    /// chunked body is refused.
    pub fn try_from_one(one: OneRequest) -> (r: Result<Request, MessageError>)
        ensures
            one.body_view() matches Some(Body::Chunked(_)) ==> r == Err::<Request, _>(
                MessageError::UnsupportedBodyFraming,
            ),
            !(one.body_view() matches Some(Body::Chunked(_))) ==> r is Ok,
            r matches Ok(req) ==> {
                &&& req.info_line_view().method.token() == trim_end(
                    one.info_line_view().method_view(),
                )
                &&& (req.info_line_view().method is UNKNOWN <==> !registered_method(
                    trim_end(one.info_line_view().method_view()),
                ))
                &&& req.info_line_view().uri.scheme_view() is None
                &&& req.info_line_view().uri.authority_view() is None
                &&& req.info_line_view().uri.path_and_query_view() == nonempty_path(
                    one.info_line_view().uri_view(),
                )
                &&& req.info_line_view().extension is None
                &&& req.headers_view() == lowercase_keys(one.headers_view())
                &&& req.body_view() == semantic_body(one.body_view())
                &&& req.trailers_view() is None
                &&& req.body_headers_view() is None
            },
    {
        let (head, _, body, _) = one.into_parts();
        let (info_line, headers) = head.into_parts();
        let (headers, body) = match process_one_headers_and_body(headers, body) {
            Ok(p) => p,
            Err(e) => {
                return Err(e);
            },
        };
        let method = Method::from_bytes(info_line.method_bytes());
        let uri = Uri::from_path(info_line.uri_bytes());
        Ok(Message::new(RequestLine::new(method, uri), headers, body, None))
    }
}

impl Message<ResponseLine> {
    /// The semantic form of a wire response: the status token read as a
    /// status code, the headers with lowercase keys, a raw body as the body,
    /// and no trailers. A chunked body is refused; a status token that is
    /// not three digits from 100 to 999 is refused.
    pub fn try_from_one(one: OneResponse) -> (r: Result<Response, MessageError>)
        ensures
            one.body_view() matches Some(Body::Chunked(_)) ==> r == Err::<Response, _>(
                MessageError::UnsupportedBodyFraming,
            ),
            !(one.body_view() matches Some(Body::Chunked(_))) && !status_token(
                one.info_line_view().status_view(),
            ) ==> r == Err::<Response, _>(MessageError::InvalidStatusCode),
            !(one.body_view() matches Some(Body::Chunked(_))) && status_token(
                one.info_line_view().status_view(),
            ) ==> r is Ok,
            r matches Ok(res) ==> {
                &&& res.info_line_view().status.value() == status_token_value(
                    one.info_line_view().status_view(),
                )
                &&& res.headers_view() == lowercase_keys(one.headers_view())
                &&& res.body_view() == semantic_body(one.body_view())
                &&& res.trailers_view() is None
                &&& res.body_headers_view() is None
            },
    {
        let (head, _, body, _) = one.into_parts();
        let (info_line, headers) = head.into_parts();
        let (headers, body) = match process_one_headers_and_body(headers, body) {
            Ok(p) => p,
            Err(e) => {
                return Err(e);
            },
        };
        let status = match info_line.status() {
            Ok(s) => s,
            Err(_) => {
                return Err(MessageError::InvalidStatusCode);
            },
        };
        Ok(Message::new(ResponseLine::new(status), headers, body, None))
    }
}

impl Message<RequestLine> {
    /// The wire form under HTTP/2.
    pub fn into_one_rep(self) -> (r: OneRequest)
        ensures
            r.info_line_view().method_view() == self.info_line_view().method.token().push(32),
            r.info_line_view().uri_view() == self.info_line_view().uri.path_and_query_view(),
            r.info_line_view().version_view() == Version::H2.request_suffix(),
            r.headers_view() == with_host(
                wire_headers(
                    self.headers_view(),
                    opt_bytes(self.body_view()),
                    self.trailers_view(),
                ),
                self.info_line_view().uri.authority_view(),
            ),
            r.body_headers_view() == self.body_headers_view(),
            r.body_view() == wire_body(self.body_view()),
            r.extra_body_view() is None,
    {
        OneOne::from_request(self, Version::H2)
    }
}

impl Message<ResponseLine> {
    /// The wire form under HTTP/2, with `reason` as the reason phrase.
    pub fn into_one_rep(self, reason: &[u8]) -> (r: OneResponse)
        ensures
            r.info_line_view().version_view() == Version::H2.response_prefix(),
            r.info_line_view().status_view() == decimal(
                self.info_line_view().status.value() as nat,
            ),
            r.info_line_view().reason_view() == seq![32u8] + reason@ + seq![13u8, 10],
            r.headers_view() == wire_headers(
                self.headers_view(),
                opt_bytes(self.body_view()),
                self.trailers_view(),
            ),
            r.body_headers_view() == self.body_headers_view(),
            r.body_view() == wire_body(self.body_view()),
            r.extra_body_view() is None,
    {
        OneOne::from_response(self, Version::H2, reason)
    }
}

proof fn lemma_lowercase_keeps_keys(h: Seq<Entry>, key: Seq<u8>)
    ensures
        has_key_in(lowercase_keys(h), key) == has_key_in(h, key),
{
    let l = lowercase_keys(h);
    assert forall|i: int| 0 <= i < h.len() implies #[trigger] key_is(l[i], key) == key_is(
        h[i],
        key,
    ) by {
        let k = h[i].0;
        assert(l[i].0 == lowercase(k));
        assert forall|j: int| 0 <= j < k.len() implies #[trigger] lower(lowercase(k)[j]) == lower(
            k[j],
        ) by {
            assert(lowercase(k)[j] == lower(k[j]));
        }
        assert(lowercase(k).len() == k.len());
        if key_is(h[i], key) {
            assert forall|j: int| 0 <= j < lowercase(k).len() implies #[trigger] lower(
                lowercase(k)[j],
            ) == lower(key[j]) by {
                assert(lower(k[j]) == lower(key[j]));
            }
        }
        if key_is(l[i], key) {
            assert forall|j: int| 0 <= j < k.len() implies #[trigger] lower(k[j]) == lower(
                key[j],
            ) by {
                assert(lower(lowercase(k)[j]) == lower(key[j]));
            }
        }
    }
    if has_key_in(h, key) {
        let i = choose|i: int| 0 <= i < h.len() && #[trigger] key_is(h[i], key);
        assert(key_is(l[i], key));
    }
    if has_key_in(l, key) {
        let i = choose|i: int| 0 <= i < l.len() && #[trigger] key_is(l[i], key);
        assert(key_is(h[i], key));
    }
}

/// A raw, non-empty body passes from wire to semantic and back unchanged,
/// and the headers on the way back hold a content-length entry: the one
/// that came in, or, when none came in, one with the body's length.
pub proof fn lemma_body_round_trip(h: Seq<Entry>, b: BytesMut)
    requires
        bytes_of(b).len() > 0,
    ensures
        wire_body(semantic_body(Some(Body::Raw(b)))) == Some(Body::Raw(b)),
        has_key_in(h, content_length()) ==> wire_headers(
            lowercase_keys(h),
            Some(bytes_of(b)),
            None,
        ) == lowercase_keys(h),
        !has_key_in(h, content_length()) ==> wire_headers(
            lowercase_keys(h),
            Some(bytes_of(b)),
            None,
        ) == lowercase_keys(h).push((content_length(), decimal(bytes_of(b).len()))),
{
    lemma_lowercase_keeps_keys(h, content_length());
}

} // verus!
