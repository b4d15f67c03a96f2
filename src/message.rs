//! Semantic messages: a request or status line, headers, an optional body
//! and optional trailers, with no trace of wire framing; and their builders.
use vstd::prelude::*;

use bytes::BytesMut;

use crate::framing::BodyHeader;
use crate::headers::{Entry, HeaderMap};
use crate::lines::{RequestLine, ResponseLine};
use crate::method::Method;
use crate::status::StatusCode;
use crate::uri::Uri;

verus! {

/// A semantic message: `T` is the request line or the status line.
#[derive(Debug, PartialEq)]
pub struct Message<T> {
    pub(crate) info_line: T,
    pub(crate) headers: HeaderMap,
    pub(crate) body_headers: Option<BodyHeader>,
    body: Option<BytesMut>,
    trailers: Option<HeaderMap>,
}

pub type Request = Message<RequestLine>;

pub type Response = Message<ResponseLine>;

/// The entries of an optional header map.
pub open spec fn opt_headers(h: Option<HeaderMap>) -> Option<Seq<Entry>> {
    match h {
        Some(m) => Some(m@),
        None => None,
    }
}

impl<T> Message<T> {
    pub closed spec fn info_line_view(&self) -> T {
        self.info_line
    }

    pub closed spec fn headers_view(&self) -> Seq<Entry> {
        self.headers@
    }

    pub closed spec fn body_headers_view(&self) -> Option<BodyHeader> {
        self.body_headers
    }

    pub closed spec fn body_view(&self) -> Option<BytesMut> {
        self.body
    }

    pub closed spec fn trailers_view(&self) -> Option<Seq<Entry>> {
        opt_headers(self.trailers)
    }

    pub fn new(info_line: T, headers: HeaderMap, body: Option<BytesMut>, trailer: Option<
        HeaderMap,
    >) -> (r: Message<T>)
        ensures
            r.info_line_view() == info_line,
            r.headers_view() == headers@,
            r.body_view() == body,
            r.trailers_view() == opt_headers(trailer),
            r.body_headers_view() is None,
    {
        Message { info_line, headers, body, trailers: trailer, body_headers: None }
    }

    pub fn set_headers(&mut self, headers: HeaderMap)
        ensures
            final(self).headers_view() == headers@,
            final(self).info_line_view() == old(self).info_line_view(),
            final(self).body_view() == old(self).body_view(),
            final(self).trailers_view() == old(self).trailers_view(),
            final(self).body_headers_view() == old(self).body_headers_view(),
    {
        self.headers = headers;
    }

    pub fn set_body(&mut self, body: BytesMut)
        ensures
            final(self).body_view() == Some(body),
            final(self).info_line_view() == old(self).info_line_view(),
            final(self).headers_view() == old(self).headers_view(),
            final(self).trailers_view() == old(self).trailers_view(),
            final(self).body_headers_view() == old(self).body_headers_view(),
    {
        self.body = Some(body);
    }

    pub fn set_trailers(&mut self, trailer: HeaderMap)
        ensures
            final(self).trailers_view() == Some(trailer@),
            final(self).info_line_view() == old(self).info_line_view(),
            final(self).headers_view() == old(self).headers_view(),
            final(self).body_view() == old(self).body_view(),
            final(self).body_headers_view() == old(self).body_headers_view(),
    {
        self.trailers = Some(trailer);
    }

    pub fn headers(&self) -> (r: &HeaderMap)
        ensures
            r@ == self.headers_view(),
    {
        &self.headers
    }

    /// A mutable borrow of the header map; what is written through it is
    /// what the message holds afterwards.
    pub fn headers_as_mut(&mut self) -> (r: &mut HeaderMap)
        ensures
            r@ == old(self).headers_view(),
            final(self).headers_view() == final(r)@,
            final(self).info_line_view() == old(self).info_line_view(),
            final(self).body_view() == old(self).body_view(),
            final(self).trailers_view() == old(self).trailers_view(),
            final(self).body_headers_view() == old(self).body_headers_view(),
    {
        &mut self.headers
    }

    pub fn body_as_ref(&self) -> (r: Option<&BytesMut>)
        ensures
            match r {
                Some(b) => self.body_view() == Some(*b),
                None => self.body_view() is None,
            },
    {
        match &self.body {
            Some(b) => Some(b),
            None => None,
        }
    }

    pub fn trailers(&self) -> (r: Option<&HeaderMap>)
        ensures
            match r {
                Some(t) => self.trailers_view() == Some(t@),
                None => self.trailers_view() is None,
            },
    {
        match &self.trailers {
            Some(t) => Some(t),
            None => None,
        }
    }

    /// Moves the body out; the message holds none afterwards.
    pub fn take_body(&mut self) -> (r: Option<BytesMut>)
        ensures
            r == old(self).body_view(),
            final(self).body_view() is None,
            final(self).info_line_view() == old(self).info_line_view(),
            final(self).headers_view() == old(self).headers_view(),
            final(self).trailers_view() == old(self).trailers_view(),
            final(self).body_headers_view() == old(self).body_headers_view(),
    {
        self.body.take()
    }

    /// The start line, headers, framing descriptor, body and trailers.
    pub fn into_parts(self) -> (r: (T, HeaderMap, Option<BodyHeader>, Option<BytesMut>, Option<
        HeaderMap,
    >))
        ensures
            r.0 == self.info_line_view(),
            r.1@ == self.headers_view(),
            r.2 == self.body_headers_view(),
            r.3 == self.body_view(),
            opt_headers(r.4) == self.trailers_view(),
    {
        (self.info_line, self.headers, self.body_headers, self.body, self.trailers)
    }

    /// Moves the trailers out; the message holds none afterwards.
    pub fn take_trailers(&mut self) -> (r: Option<HeaderMap>)
        ensures
            opt_headers(r) == old(self).trailers_view(),
            final(self).trailers_view() is None,
            final(self).info_line_view() == old(self).info_line_view(),
            final(self).headers_view() == old(self).headers_view(),
            final(self).body_view() == old(self).body_view(),
            final(self).body_headers_view() == old(self).body_headers_view(),
    {
        self.trailers.take()
    }
}

impl Message<RequestLine> {
    /// A builder that starts from `GET /` with nothing else set.
    pub fn builder() -> (r: MessageBuilder<RequestLine>)
        ensures
            r.info_line_view().method == Method::GET,
            r.info_line_view().uri.scheme_view() is None,
            r.info_line_view().uri.authority_view() is None,
            r.info_line_view().uri.path_and_query_view() == seq![47u8],
            r.info_line_view().extension is None,
            r.headers_view() is None,
            r.body_view() is None,
            r.trailer_view() is None,
    {
        MessageBuilder::<RequestLine>::default()
    }

    pub fn method(&self) -> (r: &Method)
        ensures
            *r == self.info_line_view().method,
    {
        &self.info_line.method
    }

    pub fn scheme(&self) -> (r: Option<&[u8]>)
        ensures
            match r {
                Some(s) => self.info_line_view().uri.scheme_view() == Some(s@),
                None => self.info_line_view().uri.scheme_view() is None,
            },
    {
        self.info_line.uri.scheme()
    }

    pub fn path_and_query(&self) -> (r: &[u8])
        ensures
            r@ == self.info_line_view().uri.path_and_query_view(),
    {
        self.info_line.uri.path_and_query()
    }

    pub fn path(&self) -> (r: Vec<u8>)
        ensures
            forall|i: int|
                crate::uri::query_mark_at(self.info_line_view().uri.path_and_query_view(), i)
                    ==> r@ == crate::uri::nonempty_path(
                    self.info_line_view().uri.path_and_query_view().take(i),
                ),
            crate::uri::no_query_mark(self.info_line_view().uri.path_and_query_view()) ==> r@
                == crate::uri::nonempty_path(self.info_line_view().uri.path_and_query_view()),
    {
        self.info_line.uri.path()
    }

    pub fn query(&self) -> (r: Option<Vec<u8>>)
        ensures
            forall|i: int|
                crate::uri::query_mark_at(self.info_line_view().uri.path_and_query_view(), i)
                    ==> r is Some && r->0@ == self.info_line_view().uri.path_and_query_view().skip(
                    i + 1,
                ),
            crate::uri::no_query_mark(self.info_line_view().uri.path_and_query_view()) ==> r is None,
    {
        self.info_line.uri.query()
    }

    pub fn authority(&self) -> (r: Option<&[u8]>)
        ensures
            match r {
                Some(a) => self.info_line_view().uri.authority_view() == Some(a@),
                None => self.info_line_view().uri.authority_view() is None,
            },
    {
        self.info_line.uri.authority()
    }
}

impl Message<ResponseLine> {
    /// A builder that starts from status 200 with nothing else set.
    pub fn builder() -> (r: MessageBuilder<ResponseLine>)
        ensures
            r.info_line_view().status.value() == 200,
            r.headers_view() is None,
            r.body_view() is None,
            r.trailer_view() is None,
    {
        MessageBuilder::<ResponseLine>::default()
    }

    pub fn status(&self) -> (r: &StatusCode)
        ensures
            *r == self.info_line_view().status,
    {
        &self.info_line.status
    }
}

/// Field-at-a-time assembly of a semantic message.
pub struct MessageBuilder<T> {
    info_line: T,
    headers: Option<HeaderMap>,
    body: Option<BytesMut>,
    trailer: Option<HeaderMap>,
}

impl<T> MessageBuilder<T> {
    pub closed spec fn info_line_view(&self) -> T {
        self.info_line
    }

    pub closed spec fn headers_view(&self) -> Option<Seq<Entry>> {
        opt_headers(self.headers)
    }

    pub closed spec fn body_view(&self) -> Option<BytesMut> {
        self.body
    }

    pub closed spec fn trailer_view(&self) -> Option<Seq<Entry>> {
        opt_headers(self.trailer)
    }

    pub fn headers(self, headers: HeaderMap) -> (r: MessageBuilder<T>)
        ensures
            r.headers_view() == Some(headers@),
            r.info_line_view() == self.info_line_view(),
            r.body_view() == self.body_view(),
            r.trailer_view() == self.trailer_view(),
    {
        let mut b = self;
        b.headers = Some(headers);
        b
    }

    pub fn body(self, body: BytesMut) -> (r: MessageBuilder<T>)
        ensures
            r.body_view() == Some(body),
            r.info_line_view() == self.info_line_view(),
            r.headers_view() == self.headers_view(),
            r.trailer_view() == self.trailer_view(),
    {
        let mut b = self;
        b.body = Some(body);
        b
    }

    pub fn trailer(self, trailer: HeaderMap) -> (r: MessageBuilder<T>)
        ensures
            r.trailer_view() == Some(trailer@),
            r.info_line_view() == self.info_line_view(),
            r.headers_view() == self.headers_view(),
            r.body_view() == self.body_view(),
    {
        let mut b = self;
        b.trailer = Some(trailer);
        b
    }

    /// The message; unset headers become an empty map, an unset body or
    /// trailer stays absent.
    pub fn build(self) -> (r: Message<T>)
        ensures
            r.info_line_view() == self.info_line_view(),
            r.headers_view() == match self.headers_view() {
                Some(h) => h,
                None => Seq::<Entry>::empty(),
            },
            r.body_view() == self.body_view(),
            r.trailers_view() == self.trailer_view(),
            r.body_headers_view() is None,
    {
        let headers = match self.headers {
            Some(h) => h,
            None => HeaderMap::new(),
        };
        Message {
            info_line: self.info_line,
            headers,
            body: self.body,
            trailers: self.trailer,
            body_headers: None,
        }
    }
}

impl MessageBuilder<RequestLine> {
    pub fn method(self, m: Method) -> (r: MessageBuilder<RequestLine>)
        ensures
            r.info_line_view().method == m,
            r.info_line_view().uri == self.info_line_view().uri,
            r.info_line_view().extension == self.info_line_view().extension,
            r.headers_view() == self.headers_view(),
            r.body_view() == self.body_view(),
            r.trailer_view() == self.trailer_view(),
    {
        let mut b = self;
        b.info_line.method = m;
        b
    }

    pub fn uri(self, u: Uri) -> (r: MessageBuilder<RequestLine>)
        ensures
            r.info_line_view().uri == u,
            r.info_line_view().method == self.info_line_view().method,
            r.info_line_view().extension == self.info_line_view().extension,
            r.headers_view() == self.headers_view(),
            r.body_view() == self.body_view(),
            r.trailer_view() == self.trailer_view(),
    {
        let mut b = self;
        b.info_line.uri = u;
        b
    }

    pub fn extension(self, ext: Vec<u8>) -> (r: MessageBuilder<RequestLine>)
        ensures
            r.info_line_view().extension == Some(ext),
            r.info_line_view().method == self.info_line_view().method,
            r.info_line_view().uri == self.info_line_view().uri,
            r.headers_view() == self.headers_view(),
            r.body_view() == self.body_view(),
            r.trailer_view() == self.trailer_view(),
    {
        let mut b = self;
        b.info_line.extension = Some(ext);
        b
    }
}

impl MessageBuilder<ResponseLine> {
    pub fn status(self, status: StatusCode) -> (r: MessageBuilder<ResponseLine>)
        ensures
            r.info_line_view().status == status,
            r.headers_view() == self.headers_view(),
            r.body_view() == self.body_view(),
            r.trailer_view() == self.trailer_view(),
    {
        let mut b = self;
        b.info_line = ResponseLine::new(status);
        b
    }
}

impl Default for MessageBuilder<RequestLine> {
    fn default() -> (r: MessageBuilder<RequestLine>)
        ensures
            r.info_line_view().method == Method::GET,
            r.info_line_view().uri.scheme_view() is None,
            r.info_line_view().uri.authority_view() is None,
            r.info_line_view().uri.path_and_query_view() == seq![47u8],
            r.info_line_view().extension is None,
            r.headers_view() is None,
            r.body_view() is None,
            r.trailer_view() is None,
    {
        MessageBuilder { info_line: RequestLine::default(), headers: None, body: None, trailer: None }
    }
}

impl Default for MessageBuilder<ResponseLine> {
    fn default() -> (r: MessageBuilder<ResponseLine>)
        ensures
            r.info_line_view().status.value() == 200,
            r.headers_view() is None,
            r.body_view() is None,
            r.trailer_view() is None,
    {
        MessageBuilder {
            info_line: ResponseLine::default(),
            headers: None,
            body: None,
            trailer: None,
        }
    }
}

} // verus!
