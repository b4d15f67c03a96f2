//! The capability that a decompression engine works through: take the body
//! and the trailing bytes, put a body back, read or change the framing
//! descriptor, and reach the header map. Wire and semantic messages both
//! offer it, so one decompression routine serves either.
use vstd::prelude::*;

use bytes::BytesMut;

use crate::buffer::{bytes_as_slice, bytes_from_slice, bytes_of};
use crate::framing::{Body, BodyHeader};
use crate::headers::{Entry, HeaderMap};
use crate::lines::InfoLine;
use crate::message::Message;
use crate::one::{body_content, concat_all, OneOne};
use crate::text::append_bytes;

verus! {

/// What a decompression engine reads and changes of a message.
pub trait DecompressTrait: Sized {
    /// The body the message holds.
    spec fn body_of(&self) -> Option<Body>;

    /// The bytes that followed the body, where the message keeps them.
    spec fn extra_of(&self) -> Option<BytesMut>;

    /// The framing descriptor, where the message keeps one.
    spec fn framing_of(&self) -> Option<BodyHeader>;

    /// The entries of the header map.
    spec fn headers_of(&self) -> Seq<Entry>;

    /// `self` and `other` agree on every part that the capability does not
    /// reach: the start line, and, where the message keeps them, the
    /// trailers and the framing descriptor of the semantic layer.
    spec fn same_frame(&self, other: &Self) -> bool;

    /// Moves the body out; the message holds none afterwards.
    fn get_body(&mut self) -> (r: Option<Body>)
        ensures
            final(self).same_frame(old(self)),
            r == old(self).body_of(),
            final(self).body_of() is None,
            final(self).extra_of() == old(self).extra_of(),
            final(self).framing_of() == old(self).framing_of(),
            final(self).headers_of() == old(self).headers_of(),
    ;

    /// Moves the trailing bytes out; the message holds none afterwards.
    fn get_extra_body(&mut self) -> (r: Option<BytesMut>)
        ensures
            final(self).same_frame(old(self)),
            r == old(self).extra_of(),
            final(self).extra_of() is None,
            final(self).body_of() == old(self).body_of(),
            final(self).framing_of() == old(self).framing_of(),
            final(self).headers_of() == old(self).headers_of(),
    ;

    /// Replaces the body; the bytes the message then holds are those of `body`.
    fn set_body(&mut self, body: Body)
        ensures
            final(self).same_frame(old(self)),
            final(self).body_of() matches Some(b) && body_content(b) == body_content(body),
            body is Raw ==> final(self).body_of() == Some(body),
            final(self).extra_of() == old(self).extra_of(),
            final(self).framing_of() == old(self).framing_of(),
            final(self).headers_of() == old(self).headers_of(),
    ;

    /// The framing descriptor.
    fn body_headers(&self) -> (r: Option<BodyHeader>)
        ensures
            r == self.framing_of(),
    ;

    /// Replaces the framing descriptor; false, with nothing changed, where
    /// the message keeps none.
    fn set_body_headers(&mut self, body_headers: Option<BodyHeader>) -> (r: bool)
        ensures
            final(self).same_frame(old(self)),
            r ==> final(self).framing_of() == body_headers,
            !r ==> final(self).framing_of() == old(self).framing_of(),
            final(self).body_of() == old(self).body_of(),
            final(self).extra_of() == old(self).extra_of(),
            final(self).headers_of() == old(self).headers_of(),
    ;

    fn header_map(&self) -> (r: &HeaderMap)
        ensures
            r@ == self.headers_of(),
    ;

    /// A mutable borrow of the header map; what is written through it is
    /// what the message holds afterwards.
    fn header_map_as_mut(&mut self) -> (r: &mut HeaderMap)
        ensures
            final(self).same_frame(old(self)),
            r@ == old(self).headers_of(),
            final(self).headers_of() == final(r)@,
            final(self).body_of() == old(self).body_of(),
            final(self).extra_of() == old(self).extra_of(),
            final(self).framing_of() == old(self).framing_of(),
    ;
}

/// The segments of a chunked body joined into one buffer.
fn join_segments(items: &Vec<BytesMut>) -> (r: BytesMut)
    ensures
        bytes_of(r) == concat_all(items@.map_values(|x: BytesMut| bytes_of(x))),
{
    let mut out: Vec<u8> = Vec::new();
    let mut k: usize = 0;
    while k < items.len()
        invariant
            0 <= k <= items@.len(),
            out@ == concat_all(items@.take(k as int).map_values(|x: BytesMut| bytes_of(x))),
        decreases items@.len() - k,
    {
        append_bytes(&mut out, bytes_as_slice(&items[k]));
        proof {
            let m = items@.take(k + 1).map_values(|x: BytesMut| bytes_of(x));
            assert(m.drop_last() =~= items@.take(k as int).map_values(|x: BytesMut| bytes_of(x)));
            assert(m.last() == bytes_of(items@[k as int]));
        }
        k = k + 1;
    }
    assert(items@.take(items@.len() as int) =~= items@);
    bytes_from_slice(out.as_slice())
}

impl<T: InfoLine> DecompressTrait for OneOne<T> {
    open spec fn body_of(&self) -> Option<Body> {
        self.body_view()
    }

    open spec fn extra_of(&self) -> Option<BytesMut> {
        self.extra_body_view()
    }

    open spec fn framing_of(&self) -> Option<BodyHeader> {
        self.body_headers_view()
    }

    open spec fn headers_of(&self) -> Seq<Entry> {
        self.headers_view()
    }

    open spec fn same_frame(&self, other: &Self) -> bool {
        self.info_line_view() == other.info_line_view()
    }

    fn get_body(&mut self) -> (r: Option<Body>) {
        self.take_body()
    }

    fn get_extra_body(&mut self) -> (r: Option<BytesMut>) {
        self.take_extra_body()
    }

    fn set_body(&mut self, body: Body) {
        OneOne::set_body(self, body);
    }

    fn body_headers(&self) -> (r: Option<BodyHeader>) {
        *OneOne::body_headers(self)
    }

    fn set_body_headers(&mut self, body_headers: Option<BodyHeader>) -> (r: bool) {
        OneOne::set_body_headers(self, body_headers);
        true
    }

    fn header_map(&self) -> (r: &HeaderMap) {
        OneOne::header_map(self)
    }

    fn header_map_as_mut(&mut self) -> (r: &mut HeaderMap) {
        self.headers_as_mut()
    }
}

impl<T> DecompressTrait for Message<T> {
    open spec fn body_of(&self) -> Option<Body> {
        match self.body_view() {
            Some(b) => Some(Body::Raw(b)),
            None => None,
        }
    }

    open spec fn extra_of(&self) -> Option<BytesMut> {
        None
    }

    open spec fn framing_of(&self) -> Option<BodyHeader> {
        None
    }

    open spec fn headers_of(&self) -> Seq<Entry> {
        self.headers_view()
    }

    open spec fn same_frame(&self, other: &Self) -> bool {
        &&& self.info_line_view() == other.info_line_view()
        &&& self.trailers_view() == other.trailers_view()
        &&& self.body_headers_view() == other.body_headers_view()
    }

    fn get_body(&mut self) -> (r: Option<Body>) {
        match self.take_body() {
            Some(b) => Some(Body::Raw(b)),
            None => None,
        }
    }

    fn get_extra_body(&mut self) -> (r: Option<BytesMut>) {
        None
    }

    /// A chunked body is joined into one buffer: the semantic layer sees no
    /// chunk boundaries.
    fn set_body(&mut self, body: Body) {
        let b = match body {
            Body::Raw(b) => b,
            Body::Chunked(items) => join_segments(&items),
        };
        Message::set_body(self, b);
    }

    fn body_headers(&self) -> (r: Option<BodyHeader>) {
        None
    }

    fn set_body_headers(&mut self, body_headers: Option<BodyHeader>) -> (r: bool) {
        false
    }

    fn header_map(&self) -> (r: &HeaderMap) {
        self.headers()
    }

    fn header_map_as_mut(&mut self) -> (r: &mut HeaderMap) {
        self.headers_as_mut()
    }
}

} // verus!
