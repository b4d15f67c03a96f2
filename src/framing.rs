//! Body framing: the framing descriptor, the two header projections between
//! wire and semantic messages, and content-length injection.
use vstd::prelude::*;

use bytes::BytesMut;

use crate::buffer::bytes_of;
use crate::headers::{count_key, has_key_in, key_is, lowercase_keys, Entry, HeaderMap};
use crate::names::{content_length, content_length_bytes};
use crate::text::{decimal, to_decimal};

verus! {

/// How the body of a wire message is delimited.
#[derive(Clone, Copy, Debug, PartialEq, Eq, Structural)]
pub enum TransferType {
    /// Exactly this many bytes follow the head.
    ContentLength(usize),
    /// The body is a sequence of chunks.
    Chunked,
    /// The body runs until the connection closes.
    Close,
}

/// The framing descriptor of a wire message.
#[derive(Clone, Copy, Debug, PartialEq, Eq, Structural)]
pub struct BodyHeader {
    pub transfer_type: Option<TransferType>,
}

/// The body of a wire message: one contiguous buffer, or the chunk
/// segments in the order they were received.
#[derive(Debug, PartialEq)]
pub enum Body {
    Raw(BytesMut),
    Chunked(Vec<BytesMut>),
}

/// The failures of the conversions between wire and semantic messages.
#[derive(Clone, Copy, Debug, PartialEq, Eq, Structural)]
pub enum MessageError {
    /// A chunked body reached the wire-to-semantic projection.
    UnsupportedBodyFraming,
    /// The status token of a response is not three digits from 100 to 999.
    InvalidStatusCode,
}

/// The headers and trailers merged: trailers follow the headers as ordinary entries.
pub open spec fn merged_headers(h: Seq<Entry>, trailers: Option<Seq<Entry>>) -> Seq<Entry> {
    match trailers {
        Some(t) => h + t,
        None => h,
    }
}

/// The wire header list projected from semantic headers, body and trailers:
/// trailers are merged, and a content-length entry with the body's length
/// is appended when a body is present and no content-length entry exists.
pub open spec fn wire_headers(
    h: Seq<Entry>,
    body: Option<Seq<u8>>,
    trailers: Option<Seq<Entry>>,
) -> Seq<Entry> {
    let m = merged_headers(h, trailers);
    match body {
        Some(b) => if has_key_in(m, content_length()) {
            m
        } else {
            m.push((content_length(), decimal(b.len())))
        },
        None => m,
    }
}

/// The wire header map for a semantic message's headers, body and trailers.
pub fn process_two_headers_and_body(
    headers: HeaderMap,
    body: Option<&BytesMut>,
    trailer: Option<HeaderMap>,
) -> (r: HeaderMap)
    ensures
        r@ == wire_headers(
            headers@,
            match body {
                Some(b) => Some(bytes_of(*b)),
                None => None,
            },
            match trailer {
                Some(t) => Some(t@),
                None => None,
            },
        ),
{
    let ghost tr = match &trailer {
        Some(t) => Some(t@),
        None => None::<Seq<Entry>>,
    };
    let mut header_map = headers;
    match trailer {
        Some(t) => header_map.extend(t),
        None => {},
    }
    assert(header_map@ == merged_headers(headers@, tr));
    match body {
        Some(b) => {
            let key = content_length_bytes();
            if !header_map.has_key(key.as_slice()) {
                let len = to_decimal(b.len());
                header_map.insert(key.as_slice(), len.as_slice());
            }
        },
        None => {},
    }
    header_map
}

/// The semantic headers and body for a wire message's headers and body.
/// Keys are brought to ASCII lowercase; a raw body passes verbatim; a
/// chunked body is refused.
pub fn process_one_headers_and_body(headers: HeaderMap, body: Option<Body>) -> (r: Result<
    (HeaderMap, Option<BytesMut>),
    MessageError,
>)
    ensures
        match body {
            Some(Body::Chunked(_)) => r == Err::<(HeaderMap, Option<BytesMut>), _>(
                MessageError::UnsupportedBodyFraming,
            ),
            Some(Body::Raw(b)) => r is Ok && r->Ok_0.0@ == lowercase_keys(headers@) && r->Ok_0.1
                == Some(b),
            None => r is Ok && r->Ok_0.0@ == lowercase_keys(headers@) && r->Ok_0.1 is None,
        },
{
    let body = match body {
        Some(Body::Chunked(_)) => {
            return Err(MessageError::UnsupportedBodyFraming);
        },
        Some(Body::Raw(b)) => Some(b),
        None => None,
    };
    Ok((headers.with_lowercase_keys(), body))
}

proof fn lemma_count_absent(s: Seq<Entry>, key: Seq<u8>)
    requires
        !has_key_in(s, key),
    ensures
        count_key(s, key) == 0,
    decreases s.len(),
{
    if s.len() > 0 {
        let p = s.drop_last();
        assert forall|i: int| 0 <= i < p.len() implies !#[trigger] key_is(p[i], key) by {
            assert(p[i] == s[i]);
            if key_is(p[i], key) {
                assert(key_is(s[i], key));
            }
        }
        lemma_count_absent(p, key);
        assert(!key_is(s[s.len() - 1], key));
    }
}

/// Content-length injection is conditional: projecting a body with no
/// content-length entry among the headers and trailers yields exactly one
/// content-length entry, whose value is the body's length in decimal; when
/// the headers already hold one, the projection leaves every entry as it
/// was and adds none.
pub proof fn lemma_content_length_injection(
    h: Seq<Entry>,
    body: Seq<u8>,
    trailers: Option<Seq<Entry>>,
)
    ensures
        !has_key_in(merged_headers(h, trailers), content_length()) ==> {
            let w = wire_headers(h, Some(body), trailers);
            &&& count_key(w, content_length()) == 1
            &&& w.last() == (content_length(), decimal(body.len()))
        },
        has_key_in(h, content_length()) ==> wire_headers(h, Some(body), trailers)
            == merged_headers(h, trailers),
{
    let m = merged_headers(h, trailers);
    let cl = content_length();
    if !has_key_in(m, cl) {
        lemma_count_absent(m, cl);
        let w = m.push((cl, decimal(body.len())));
        assert(w.drop_last() =~= m);
        assert(key_is(w.last(), cl));
    }
    if has_key_in(h, cl) {
        let i = choose|i: int| 0 <= i < h.len() && #[trigger] key_is(h[i], cl);
        match trailers {
            Some(t) => {
                assert(m[i] == h[i]);
            },
            None => {},
        }
        assert(key_is(m[i], cl));
    }
}

} // verus!
