//! Wire messages: a start line, a header map, a framing descriptor, an
//! optional body and the bytes that followed it.
use vstd::prelude::*;
use vstd::slice::slice_to_vec;

use bytes::BytesMut;

use crate::buffer::{bytes_as_slice, bytes_from_slice, bytes_of};
use crate::framing::{Body, BodyHeader, TransferType};
use crate::headers::{
    first_entry_at, first_key_at, has_entry_in, has_key_in, key_is, entry_is, Entry, HeaderMap,
};
use crate::lines::{InfoLine, OneRequestLine, OneResponseLine};
use crate::names::{
    close, close_bytes, connection, connection_bytes, keep_alive, keep_alive_bytes,
    proxy_connection, proxy_connection_bytes, sec_websocket_extensions,
    sec_websocket_extensions_bytes, trailer_bytes, trailer,
};
use crate::method::{registered_method, Method};
use crate::status::{InvalidStatusCode, StatusCode, status_token, status_token_value};
use crate::text::{append_bytes, bytes_eq, bytes_eq_ignore_case, trim_end};

verus! {

/// The bytes of one header on the wire: `key: value` and CRLF.
pub open spec fn header_line(e: Entry) -> Seq<u8> {
    e.0 + seq![58u8, 32] + e.1 + seq![13u8, 10]
}

/// The bytes of a header list on the wire, one line per entry.
pub open spec fn header_block(s: Seq<Entry>) -> Seq<u8>
    decreases s.len(),
{
    if s.len() == 0 {
        Seq::empty()
    } else {
        header_block(s.drop_last()) + header_line(s.last())
    }
}

/// The concatenation of byte strings, in order.
pub open spec fn concat_all(s: Seq<Seq<u8>>) -> Seq<u8>
    decreases s.len(),
{
    if s.len() == 0 {
        Seq::empty()
    } else {
        concat_all(s.drop_last()) + s.last()
    }
}

/// The bytes of a body: a raw body as it is, a chunked one as its segments
/// joined in order.
pub open spec fn body_content(b: Body) -> Seq<u8> {
    match b {
        Body::Raw(x) => bytes_of(x),
        Body::Chunked(v) => concat_all(v@.map_values(|x: BytesMut| bytes_of(x))),
    }
}

/// Normalization drops this entry: a `Proxy-Connection` or a
/// `Sec-WebSocket-Extensions` header.
pub open spec fn dropped(e: Entry) -> bool {
    key_is(e, proxy_connection()) || key_is(e, sec_websocket_extensions())
}

/// Normalization turns `Connection: keep-alive` into `Connection: close`.
pub open spec fn rewritten(e: Entry) -> Entry {
    if entry_is(e, connection(), keep_alive()) {
        (e.0, close())
    } else {
        e
    }
}

/// The header list after normalization: every entry that `dropped` names
/// is gone and every other is `rewritten`, in the same order.
pub open spec fn normalized(s: Seq<Entry>) -> Seq<Entry>
    decreases s.len(),
{
    if s.len() == 0 {
        s
    } else if dropped(s.last()) {
        normalized(s.drop_last())
    } else {
        normalized(s.drop_last()).push(rewritten(s.last()))
    }
}

/// Normalization is idempotent: normalizing a normalized header list
/// leaves it as it is.
pub proof fn lemma_normalize_idempotent(s: Seq<Entry>)
    ensures
        normalized(normalized(s)) == normalized(s),
    decreases s.len(),
{
    if s.len() > 0 {
        let p = s.drop_last();
        let e = s.last();
        lemma_normalize_idempotent(p);
        if !dropped(e) {
            let n = normalized(p).push(rewritten(e));
            assert(n.drop_last() =~= normalized(p));
            assert(n.last() == rewritten(e));
            assert(rewritten(e).0 == e.0);
            if entry_is(e, connection(), keep_alive()) {
                assert(close().len() != keep_alive().len());
                assert(!entry_is(rewritten(e), connection(), keep_alive()));
            }
            assert(rewritten(rewritten(e)) == rewritten(e));
        }
    }
}

/// The start line and the header map of a wire message.
#[derive(Clone, Debug, PartialEq, Eq)]
pub struct MessageHead<T> {
    info_line: T,
    header_map: HeaderMap,
}

impl<T> MessageHead<T> {
    pub closed spec fn info_line_view(&self) -> T {
        self.info_line
    }

    pub closed spec fn headers_view(&self) -> Seq<Entry> {
        self.header_map@
    }

    pub fn new(info_line: T, header_map: HeaderMap) -> (r: MessageHead<T>)
        ensures
            r.info_line_view() == info_line,
            r.headers_view() == header_map@,
    {
        MessageHead { info_line, header_map }
    }

    pub fn info_line(&self) -> (r: &T)
        ensures
            *r == self.info_line_view(),
    {
        &self.info_line
    }

    pub fn header_map(&self) -> (r: &HeaderMap)
        ensures
            r@ == self.headers_view(),
    {
        &self.header_map
    }

    pub fn into_parts(self) -> (r: (T, HeaderMap))
        ensures
            r.0 == self.info_line_view(),
            r.1@ == self.headers_view(),
    {
        (self.info_line, self.header_map)
    }
}

/// A wire message.
#[derive(Debug, PartialEq)]
pub struct OneOne<T> {
    message_head: MessageHead<T>,
    body_headers: Option<BodyHeader>,
    body: Option<Body>,
    extra_body: Option<BytesMut>,
}

pub type OneRequest = OneOne<OneRequestLine>;

pub type OneResponse = OneOne<OneResponseLine>;

impl<T: InfoLine> OneOne<T> {
    pub closed spec fn info_line_view(&self) -> T {
        self.message_head.info_line
    }

    pub closed spec fn headers_view(&self) -> Seq<Entry> {
        self.message_head.header_map@
    }

    pub closed spec fn body_headers_view(&self) -> Option<BodyHeader> {
        self.body_headers
    }

    pub closed spec fn body_view(&self) -> Option<Body> {
        self.body
    }

    pub closed spec fn extra_body_view(&self) -> Option<BytesMut> {
        self.extra_body
    }

    /// The bytes of the message on the wire: the start line, the headers,
    /// an empty line and the body, if any.
    pub open spec fn wire_bytes(&self) -> Seq<u8> {
        self.info_line_view().line_bytes() + header_block(self.headers_view()) + seq![13u8, 10]
            + match self.body_view() {
            Some(b) => body_content(b),
            None => Seq::empty(),
        }
    }

    /// A message of `message_head` with the framing descriptor `body_headers`,
    /// no body and no trailing bytes.
    pub fn new(message_head: MessageHead<T>, body_headers: Option<BodyHeader>) -> (r: OneOne<T>)
        ensures
            r.info_line_view() == message_head.info_line_view(),
            r.headers_view() == message_head.headers_view(),
            r.body_headers_view() == body_headers,
            r.body_view() is None,
            r.extra_body_view() is None,
    {
        OneOne { message_head, body_headers, body: None, extra_body: None }
    }

    /// The head, framing descriptor, body and trailing bytes.
    pub fn into_parts(self) -> (r: (MessageHead<T>, Option<BodyHeader>, Option<Body>, Option<
        BytesMut,
    >))
        ensures
            r.0.info_line_view() == self.info_line_view(),
            r.0.headers_view() == self.headers_view(),
            r.1 == self.body_headers_view(),
            r.2 == self.body_view(),
            r.3 == self.extra_body_view(),
    {
        (self.message_head, self.body_headers, self.body, self.extra_body)
    }

    pub fn message_head(&self) -> (r: &MessageHead<T>)
        ensures
            r.info_line_view() == self.info_line_view(),
            r.headers_view() == self.headers_view(),
    {
        &self.message_head
    }

    /// The position of the first header with the key `key`, ignoring ASCII case.
    pub fn has_header_key(&self, key: &[u8]) -> (r: Option<usize>)
        ensures
            match r {
                Some(i) => first_key_at(self.headers_view(), key@, i as int),
                None => !has_key_in(self.headers_view(), key@),
            },
    {
        self.message_head.header_map.header_key_position(key)
    }

    pub fn add_header(&mut self, key: &[u8], value: &[u8])
        ensures
            final(self).headers_view() == old(self).headers_view().push((key@, value@)),
            final(self).info_line_view() == old(self).info_line_view(),
            final(self).body_headers_view() == old(self).body_headers_view(),
            final(self).body_view() == old(self).body_view(),
            final(self).extra_body_view() == old(self).extra_body_view(),
    {
        self.message_head.header_map.insert(key, value);
    }

    pub fn update_header_value_on_position(&mut self, pos: usize, value: &[u8])
        requires
            pos < old(self).headers_view().len(),
        ensures
            final(self).headers_view() == old(self).headers_view().update(
                pos as int,
                (old(self).headers_view()[pos as int].0, value@),
            ),
            final(self).info_line_view() == old(self).info_line_view(),
            final(self).body_headers_view() == old(self).body_headers_view(),
            final(self).body_view() == old(self).body_view(),
            final(self).extra_body_view() == old(self).extra_body_view(),
    {
        self.message_head.header_map.update_header_value_on_position(pos, value);
    }

    pub fn update_header_value_on_key(&mut self, key: &[u8], value: &[u8]) -> (r: bool)
        ensures
            r == has_key_in(old(self).headers_view(), key@),
            !r ==> final(self).headers_view() == old(self).headers_view(),
            r ==> exists|i: int|
                #![trigger old(self).headers_view()[i]]
                first_key_at(old(self).headers_view(), key@, i) && final(self).headers_view()
                    == old(self).headers_view().update(i, (old(self).headers_view()[i].0, value@)),
            final(self).info_line_view() == old(self).info_line_view(),
            final(self).body_headers_view() == old(self).body_headers_view(),
            final(self).body_view() == old(self).body_view(),
            final(self).extra_body_view() == old(self).extra_body_view(),
    {
        self.message_head.header_map.update_header_value_on_key(key, value)
    }

    pub fn remove_header_on_position(&mut self, pos: usize)
        requires
            pos < old(self).headers_view().len(),
        ensures
            final(self).headers_view() == old(self).headers_view().remove(pos as int),
            final(self).info_line_view() == old(self).info_line_view(),
            final(self).body_headers_view() == old(self).body_headers_view(),
            final(self).body_view() == old(self).body_view(),
            final(self).extra_body_view() == old(self).extra_body_view(),
    {
        self.message_head.header_map.remove_header_on_position(pos);
    }

    pub fn remove_header_on_key(&mut self, key: &[u8]) -> (r: bool)
        ensures
            r == has_key_in(old(self).headers_view(), key@),
            !r ==> final(self).headers_view() == old(self).headers_view(),
            r ==> exists|i: int|
                #![trigger old(self).headers_view()[i]]
                first_key_at(old(self).headers_view(), key@, i) && final(self).headers_view()
                    == old(self).headers_view().remove(i),
            final(self).info_line_view() == old(self).info_line_view(),
            final(self).body_headers_view() == old(self).body_headers_view(),
            final(self).body_view() == old(self).body_view(),
            final(self).extra_body_view() == old(self).extra_body_view(),
    {
        self.message_head.header_map.remove_header_on_key(key)
    }

    /// Whether a `Trailer` header announces trailers.
    pub fn has_trailers(&self) -> (r: bool)
        ensures
            r == has_key_in(self.headers_view(), trailer()),
    {
        let key = trailer_bytes();
        self.message_head.header_map.has_key(key.as_slice())
    }

    /// Marks the body as delimited by the closing of the connection.
    pub fn set_transfer_type_close(&mut self)
        ensures
            final(self).body_headers_view() == Some(
                BodyHeader { transfer_type: Some(TransferType::Close) },
            ),
            final(self).headers_view() == old(self).headers_view(),
            final(self).info_line_view() == old(self).info_line_view(),
            final(self).body_view() == old(self).body_view(),
            final(self).extra_body_view() == old(self).extra_body_view(),
    {
        self.body_headers = Some(BodyHeader { transfer_type: Some(TransferType::Close) });
    }

    /// Replaces the framing descriptor.
    pub fn set_body_headers(&mut self, body_headers: Option<BodyHeader>)
        ensures
            final(self).body_headers_view() == body_headers,
            final(self).headers_view() == old(self).headers_view(),
            final(self).info_line_view() == old(self).info_line_view(),
            final(self).body_view() == old(self).body_view(),
            final(self).extra_body_view() == old(self).extra_body_view(),
    {
        self.body_headers = body_headers;
    }

    pub fn body(&self) -> (r: &Option<Body>)
        ensures
            *r == self.body_view(),
    {
        &self.body
    }

    /// A mutable borrow of the body, when there is one; what is written
    /// through it is what the message holds afterwards.
    pub fn body_as_mut(&mut self) -> (r: Option<&mut Body>)
        ensures
            old(self).body_view() is None ==> r is None && final(self).body_view() is None,
            old(self).body_view() matches Some(b) ==> r matches Some(x) && *x == b
                && final(self).body_view() == Some(*final(x)),
            final(self).headers_view() == old(self).headers_view(),
            final(self).info_line_view() == old(self).info_line_view(),
            final(self).body_headers_view() == old(self).body_headers_view(),
            final(self).extra_body_view() == old(self).extra_body_view(),
    {
        match &mut self.body {
            Some(b) => Some(b),
            None => None,
        }
    }

    pub fn body_headers(&self) -> (r: &Option<BodyHeader>)
        ensures
            *r == self.body_headers_view(),
    {
        &self.body_headers
    }

    pub fn header_map(&self) -> (r: &HeaderMap)
        ensures
            r@ == self.headers_view(),
    {
        &self.message_head.header_map
    }

    /// A mutable borrow of the header map; what is written through it is
    /// what the message holds afterwards.
    pub fn headers_as_mut(&mut self) -> (r: &mut HeaderMap)
        ensures
            r@ == old(self).headers_view(),
            final(self).headers_view() == final(r)@,
            final(self).info_line_view() == old(self).info_line_view(),
            final(self).body_headers_view() == old(self).body_headers_view(),
            final(self).body_view() == old(self).body_view(),
            final(self).extra_body_view() == old(self).extra_body_view(),
    {
        &mut self.message_head.header_map
    }

    pub fn set_body(&mut self, body: Body)
        ensures
            final(self).body_view() == Some(body),
            final(self).headers_view() == old(self).headers_view(),
            final(self).info_line_view() == old(self).info_line_view(),
            final(self).body_headers_view() == old(self).body_headers_view(),
            final(self).extra_body_view() == old(self).extra_body_view(),
    {
        self.body = Some(body);
    }

    pub fn set_extra_body(&mut self, extra_body: BytesMut)
        ensures
            final(self).extra_body_view() == Some(extra_body),
            final(self).headers_view() == old(self).headers_view(),
            final(self).info_line_view() == old(self).info_line_view(),
            final(self).body_headers_view() == old(self).body_headers_view(),
            final(self).body_view() == old(self).body_view(),
    {
        self.extra_body = Some(extra_body);
    }

    /// Moves the body out; the message holds none afterwards.
    pub fn take_body(&mut self) -> (r: Option<Body>)
        ensures
            r == old(self).body_view(),
            final(self).body_view() is None,
            final(self).headers_view() == old(self).headers_view(),
            final(self).info_line_view() == old(self).info_line_view(),
            final(self).body_headers_view() == old(self).body_headers_view(),
            final(self).extra_body_view() == old(self).extra_body_view(),
    {
        self.body.take()
    }

    /// Moves the trailing bytes out; the message holds none afterwards.
    pub fn take_extra_body(&mut self) -> (r: Option<BytesMut>)
        ensures
            r == old(self).extra_body_view(),
            final(self).extra_body_view() is None,
            final(self).headers_view() == old(self).headers_view(),
            final(self).info_line_view() == old(self).info_line_view(),
            final(self).body_headers_view() == old(self).body_headers_view(),
            final(self).body_view() == old(self).body_view(),
    {
        self.extra_body.take()
    }

    /// The position of the first `Connection: keep-alive` header; the key
    /// is compared without ASCII case and the value exactly.
    pub fn has_connection_keep_alive(&self) -> (r: Option<usize>)
        ensures
            match r {
                Some(i) => first_entry_at(self.headers_view(), connection(), keep_alive(), i as int),
                None => !has_entry_in(self.headers_view(), connection(), keep_alive()),
            },
    {
        let k = connection_bytes();
        let v = keep_alive_bytes();
        self.message_head.header_map.header_position(k.as_slice(), v.as_slice())
    }

    /// The position of the first `Proxy-Connection` header.
    pub fn has_proxy_connection(&self) -> (r: Option<usize>)
        ensures
            match r {
                Some(i) => first_key_at(self.headers_view(), proxy_connection(), i as int),
                None => !has_key_in(self.headers_view(), proxy_connection()),
            },
    {
        let k = proxy_connection_bytes();
        self.message_head.header_map.header_key_position(k.as_slice())
    }

    /// Rewrites every `Connection: keep-alive` to `Connection: close` and
    /// removes every `Proxy-Connection` and `Sec-WebSocket-Extensions` header.
    pub fn normalize(&mut self)
        ensures
            final(self).headers_view() == normalized(old(self).headers_view()),
            final(self).info_line_view() == old(self).info_line_view(),
            final(self).body_headers_view() == old(self).body_headers_view(),
            final(self).body_view() == old(self).body_view(),
            final(self).extra_body_view() == old(self).extra_body_view(),
    {
        let conn = connection_bytes();
        let keep = keep_alive_bytes();
        let cls = close_bytes();
        let proxy = proxy_connection_bytes();
        let ws = sec_websocket_extensions_bytes();
        let old_map = &self.message_head.header_map;
        let ghost s = old_map@;
        let mut out = HeaderMap::new();
        let mut i: usize = 0;
        while i < old_map.len()
            invariant
                0 <= i <= s.len(),
                s == old_map@,
                out@ == normalized(s.take(i as int)),
                conn@ == connection(),
                keep@ == keep_alive(),
                cls@ == close(),
                proxy@ == proxy_connection(),
                ws@ == sec_websocket_extensions(),
            decreases s.len() - i,
        {
            let key = old_map.key_at(i);
            let value = old_map.value_at(i);
            let ghost e = s[i as int];
            assert(s.take(i + 1).drop_last() =~= s.take(i as int));
            assert(s.take(i + 1).last() == e);
            if bytes_eq_ignore_case(key, proxy.as_slice())
                || bytes_eq_ignore_case(key, ws.as_slice()) {
            } else if bytes_eq_ignore_case(key, conn.as_slice())
                && bytes_eq(value, keep.as_slice()) {
                out.insert(key, cls.as_slice());
            } else {
                out.insert(key, value);
            }
            i = i + 1;
        }
        assert(s.take(s.len() as int) =~= s);
        self.message_head.header_map = out;
    }

    /// The message as bytes: the start line, every header as `key: value`
    /// and CRLF, an empty line, and the body; a chunked body is written as
    /// its segments joined in order.
    pub fn into_bytes(self) -> (r: BytesMut)
        ensures
            bytes_of(r) == self.wire_bytes(),
    {
        let mut out = self.message_head.info_line.to_bytes();
        let map = &self.message_head.header_map;
        let mut i: usize = 0;
        while i < map.len()
            invariant
                0 <= i <= map@.len(),
                out@ == self.info_line_view().line_bytes() + header_block(map@.take(i as int)),
            decreases map@.len() - i,
        {
            let ghost before = out@;
            append_bytes(&mut out, map.key_at(i));
            out.push(58);
            out.push(32);
            append_bytes(&mut out, map.value_at(i));
            out.push(13);
            out.push(10);
            proof {
                let t = map@.take(i + 1);
                assert(t.drop_last() =~= map@.take(i as int));
                assert(t.last() == map@[i as int]);
                assert(out@ =~= before + header_line(map@[i as int]));
            }
            i = i + 1;
        }
        assert(map@.take(map@.len() as int) =~= map@);
        out.push(13);
        out.push(10);
        let ghost head = out@;
        match &self.body {
            Some(Body::Raw(b)) => {
                append_bytes(&mut out, bytes_as_slice(b));
            },
            Some(Body::Chunked(items)) => {
                let mut k: usize = 0;
                while k < items.len()
                    invariant
                        0 <= k <= items@.len(),
                        out@ == head + concat_all(
                            items@.take(k as int).map_values(|x: BytesMut| bytes_of(x)),
                        ),
                    decreases items@.len() - k,
                {
                    let ghost before = out@;
                    append_bytes(&mut out, bytes_as_slice(&items[k]));
                    proof {
                        let m = items@.take(k + 1).map_values(|x: BytesMut| bytes_of(x));
                        assert(m.drop_last() =~= items@.take(k as int).map_values(
                            |x: BytesMut| bytes_of(x),
                        ));
                        assert(m.last() == bytes_of(items@[k as int]));
                    }
                    k = k + 1;
                }
                assert(items@.take(items@.len() as int) =~= items@);
            },
            None => {},
        }
        assert(out@ =~= self.wire_bytes());
        bytes_from_slice(out.as_slice())
    }
}

impl OneOne<OneRequestLine> {
    /// Whether the method is `CONNECT`.
    pub fn is_connect_request(&self) -> (r: bool)
        ensures
            r == (trim_end(self.info_line_view().method_view()) == Method::CONNECT.token()),
    {
        let m = self.method_as_enum();
        match m {
            Method::CONNECT => true,
            _ => false,
        }
    }

    /// The method token, without the space that follows it on the wire.
    pub fn method_as_string(&self) -> (r: Vec<u8>)
        ensures
            r@ == trim_end(self.info_line_view().method_view()),
    {
        slice_to_vec(self.message_head.info_line.method_bytes())
    }

    /// The method that the method token names.
    pub fn method_as_enum(&self) -> (r: Method)
        ensures
            r.token() == trim_end(self.info_line_view().method_view()),
            r is UNKNOWN <==> !registered_method(trim_end(self.info_line_view().method_view())),
    {
        Method::from_bytes(self.message_head.info_line.method_bytes())
    }

    /// The request target as it stands on the wire.
    pub fn uri_as_string(&self) -> (r: Vec<u8>)
        ensures
            r@ == self.info_line_view().uri_view(),
    {
        slice_to_vec(self.message_head.info_line.uri_bytes())
    }
}

impl OneOne<OneResponseLine> {
    /// The status code that the status token writes.
    pub fn status_code(&self) -> (r: Result<StatusCode, InvalidStatusCode>)
        ensures
            r is Ok <==> status_token(self.info_line_view().status_view()),
            r is Ok ==> r->Ok_0.value() == status_token_value(self.info_line_view().status_view()),
    {
        self.message_head.info_line.status()
    }
}

} // verus!
