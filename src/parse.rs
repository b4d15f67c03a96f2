//! Reading an HTTP/1.x message from bytes: the head up to the first empty
//! line, the start line, `key: value` header lines, the framing that the
//! headers declare, and the body that the framing delimits.
use vstd::prelude::*;
use vstd::slice::slice_to_vec;

use bytes::BytesMut;

use crate::buffer::{bytes_from_slice, bytes_of};
use crate::framing::{Body, BodyHeader, TransferType};
use crate::headers::{first_key_at, has_key_in, key_is, Entry, HeaderMap};
use crate::lines::{InfoLine, OneRequestLine, OneResponseLine};
use crate::names::{
    chunked, chunked_bytes, close, close_bytes, connection, connection_bytes, content_length,
    content_length_bytes, transfer_encoding, transfer_encoding_bytes,
};
use crate::one::{MessageHead, OneOne, OneRequest, OneResponse};
use crate::text::{all_digits, bytes_eq_ignore_case, digits_value, eq_ignore_case};

verus! {

/// Why bytes could not be read as a message.
#[derive(Clone, Copy, Debug, PartialEq, Eq, Structural)]
pub enum ParseError {
    /// No empty line ends the head, or fewer body bytes than declared follow it.
    Incomplete,
    /// The start line lacks a space that separates its parts.
    InvalidStartLine,
    /// A header line holds no colon.
    InvalidHeader,
    /// The content-length value is not a decimal number that fits a `usize`.
    InvalidContentLength,
}

/// The first position from `i` on that holds `b`, or the length of `s`.
pub open spec fn find_byte(s: Seq<u8>, b: u8, i: int) -> int
    decreases s.len() - i,
{
    if i < 0 || i >= s.len() {
        s.len() as int
    } else if s[i] == b {
        i
    } else {
        find_byte(s, b, i + 1)
    }
}

pub open spec fn crlf_at(s: Seq<u8>, j: int) -> bool {
    0 <= j && j + 1 < s.len() && s[j] == 13 && s[j + 1] == 10
}

/// The first position from `i` on where CRLF starts, or the length of `s`.
pub open spec fn find_crlf(s: Seq<u8>, i: int) -> int
    decreases s.len() - i,
{
    if i < 0 || i + 1 >= s.len() {
        s.len() as int
    } else if crlf_at(s, i) {
        i
    } else {
        find_crlf(s, i + 1)
    }
}

/// The first position from `i` on where CRLF CRLF starts, or the length of `s`.
pub open spec fn find_blank(s: Seq<u8>, i: int) -> int
    decreases s.len() - i,
{
    if i < 0 || i + 3 >= s.len() {
        s.len() as int
    } else if crlf_at(s, i) && crlf_at(s, i + 2) {
        i
    } else {
        find_blank(s, i + 1)
    }
}

/// A header line without its CRLF read as an entry: the key is what
/// precedes the first colon, the value what follows it, less one space.
pub open spec fn parse_field(c: Seq<u8>) -> Option<Entry> {
    let k = find_byte(c, 58, 0);
    if k >= c.len() {
        None
    } else {
        let v = c.skip(k + 1);
        Some(
            (
                c.take(k),
                if v.len() > 0 && v[0] == 32 {
                    v.skip(1)
                } else {
                    v
                },
            ),
        )
    }
}

/// The entries of the header lines of `s` from `i` up to `end`.
pub open spec fn fields_from(s: Seq<u8>, i: int, end: int) -> Option<Seq<Entry>>
    decreases end - i,
{
    if i >= end {
        Some(Seq::empty())
    } else {
        let j = find_crlf(s, i);
        if j < i || j + 2 > end {
            None
        } else {
            match parse_field(s.subrange(i, j)) {
                None => None,
                Some(e) => match fields_from(s, j + 2, end) {
                    Some(rest) => Some(seq![e] + rest),
                    None => None,
                },
            }
        }
    }
}

/// Some `Transfer-Encoding` entry has the value `chunked`.
pub open spec fn declares_chunked(s: Seq<Entry>) -> bool {
    exists|i: int|
        0 <= i < s.len() && #[trigger] key_is(s[i], transfer_encoding()) && eq_ignore_case(
            s[i].1,
            chunked(),
        )
}

/// Some `Connection` entry has the value `close`.
pub open spec fn declares_close(s: Seq<Entry>) -> bool {
    exists|i: int|
        0 <= i < s.len() && #[trigger] key_is(s[i], connection()) && eq_ignore_case(
            s[i].1,
            close(),
        )
}

/// The content-length value is a decimal number that fits a `usize`.
pub open spec fn valid_length(v: Seq<u8>) -> bool {
    all_digits(v) && digits_value(v) <= usize::MAX
}

/// The framing that a header list declares: chunked takes precedence over
/// the first content-length entry, which takes precedence over
/// `Connection: close`; with none of them there is no body. `None` stands
/// for a content-length value that is not a valid length.
pub open spec fn declared_framing(s: Seq<Entry>) -> Option<Option<TransferType>> {
    if declares_chunked(s) {
        Some(Some(TransferType::Chunked))
    } else if has_key_in(s, content_length()) {
        let p = choose|p: int| first_key_at(s, content_length(), p);
        if valid_length(s[p].1) {
            Some(Some(TransferType::ContentLength(digits_value(s[p].1) as usize)))
        } else {
            None
        }
    } else if declares_close(s) {
        Some(Some(TransferType::Close))
    } else {
        Some(None)
    }
}

fn find_byte_from(s: &[u8], b: u8, start: usize) -> (r: usize)
    requires
        start <= s@.len(),
    ensures
        r == find_byte(s@, b, start as int),
        start <= r <= s@.len(),
{
    let mut i = start;
    while i < s.len() && s[i] != b
        invariant
            start <= i <= s@.len(),
            find_byte(s@, b, i as int) == find_byte(s@, b, start as int),
        decreases s@.len() - i,
    {
        i = i + 1;
    }
    i
}

fn find_crlf_from(s: &[u8], start: usize) -> (r: usize)
    requires
        start <= s@.len(),
    ensures
        r == find_crlf(s@, start as int),
        start <= r <= s@.len(),
{
    let n = s.len();
    let mut i = start;
    while i < n && n - i > 1 && !(s[i] == 13 && s[i + 1] == 10)
        invariant
            start <= i <= s@.len(),
            n == s@.len(),
            find_crlf(s@, i as int) == find_crlf(s@, start as int),
        decreases s@.len() - i,
    {
        i = i + 1;
    }
    if i >= n || n - i <= 1 {
        n
    } else {
        i
    }
}

fn find_blank_from(s: &[u8], start: usize) -> (r: usize)
    requires
        start <= s@.len(),
    ensures
        r == find_blank(s@, start as int),
        start <= r <= s@.len(),
{
    let n = s.len();
    let mut i = start;
    while i < n && n - i > 3 && !(s[i] == 13 && s[i + 1] == 10 && s[i + 2] == 13 && s[i + 3]
        == 10)
        invariant
            start <= i <= s@.len(),
            n == s@.len(),
            find_blank(s@, i as int) == find_blank(s@, start as int),
        decreases s@.len() - i,
    {
        i = i + 1;
    }
    if i >= n || n - i <= 3 {
        n
    } else {
        i
    }
}

proof fn lemma_find_blank_found(s: Seq<u8>, i: int)
    requires
        0 <= i,
        find_blank(s, i) < s.len(),
    ensures
        crlf_at(s, find_blank(s, i)),
        crlf_at(s, find_blank(s, i) + 2),
        i <= find_blank(s, i),
    decreases s.len() - i,
{
    if !(i + 3 >= s.len()) && !(crlf_at(s, i) && crlf_at(s, i + 2)) {
        lemma_find_blank_found(s, i + 1);
    }
}

proof fn lemma_find_crlf_before(s: Seq<u8>, i: int, j: int)
    requires
        0 <= i <= j,
        crlf_at(s, j),
    ensures
        i <= find_crlf(s, i) <= j,
        crlf_at(s, find_crlf(s, i)),
    decreases j - i,
{
    if !crlf_at(s, i) {
        lemma_find_crlf_before(s, i + 1, j);
    }
}

fn parse_field_exec(c: &[u8]) -> (r: Option<(Vec<u8>, Vec<u8>)>)
    ensures
        match r {
            Some(p) => parse_field(c@) == Some((p.0@, p.1@)),
            None => parse_field(c@) is None,
        },
{
    let k = find_byte_from(c, 58, 0);
    if k >= c.len() {
        return None;
    }
    let n = c.len();
    let key = slice_to_vec(&c[0..k]);
    let mut vstart = k + 1;
    if vstart < n && c[vstart] == 32 {
        vstart = vstart + 1;
    }
    let value = slice_to_vec(&c[vstart..n]);
    proof {
        let v = c@.skip(k + 1);
        assert(key@ =~= c@.take(k as int));
        if v.len() > 0 && v[0] == 32 {
            assert(value@ =~= v.skip(1));
        } else {
            assert(value@ =~= v);
        }
    }
    Some((key, value))
}

/// Reads the header lines of `s` from `start` up to `end`, where the head
/// ends with CRLF CRLF at `end - 2`.
fn parse_fields(s: &[u8], start: usize, end: usize) -> (r: Option<HeaderMap>)
    requires
        start == end || start + 2 <= end,
        2 <= end,
        end + 2 <= s@.len(),
        crlf_at(s@, end - 2),
    ensures
        match r {
            Some(h) => fields_from(s@, start as int, end as int) == Some(h@),
            None => fields_from(s@, start as int, end as int) is None,
        },
{
    let mut map = HeaderMap::new();
    let mut i = start;
    while i < end
        invariant
            start <= i,
            i == end || i + 2 <= end,
            2 <= end,
            end + 2 <= s@.len(),
            crlf_at(s@, end - 2),
            fields_from(s@, start as int, end as int) == match fields_from(
                s@,
                i as int,
                end as int,
            ) {
                Some(rest) => Some(map@ + rest),
                None => None::<Seq<Entry>>,
            },
        decreases end - i,
    {
        let j = find_crlf_from(s, i);
        proof {
            lemma_find_crlf_before(s@, i as int, end - 2);
        }
        let line = &s[i..j];
        assert(line@ =~= s@.subrange(i as int, j as int));
        let field = parse_field_exec(line);
        match field {
            None => {
                return None;
            },
            Some((k, v)) => {
                proof {
                    let e = (k@, v@);
                    match fields_from(s@, j + 2, end as int) {
                        Some(rest) => {
                            assert(map@ + (seq![e] + rest) =~= map@.push(e) + rest);
                        },
                        None => {},
                    }
                }
                map.insert(k.as_slice(), v.as_slice());
                if j + 2 < end {
                    assert(j + 3 != end);
                }
                i = j + 2;
            },
        }
    }
    assert(map@ + Seq::<Entry>::empty() =~= map@);
    Some(map)
}

fn parse_length(s: &[u8]) -> (r: Option<usize>)
    ensures
        match r {
            Some(v) => valid_length(s@) && v == digits_value(s@),
            None => !valid_length(s@),
        },
{
    if s.len() == 0 {
        return None;
    }
    let mut acc: usize = 0;
    let mut i: usize = 0;
    while i < s.len()
        invariant
            0 <= i <= s@.len(),
            s@.len() > 0,
            all_digits(s@.take(i as int)) || i == 0,
            acc == digits_value(s@.take(i as int)),
        decreases s@.len() - i,
    {
        let d = s[i];
        if d < 48 || d > 57 {
            proof {
                assert(!(48 <= s@[i as int] <= 57));
            }
            return None;
        }
        proof {
            let t = s@.take(i + 1);
            assert(t.drop_last() =~= s@.take(i as int));
            assert(t.last() == d);
        }
        let m = acc.checked_mul(10);
        match m {
            None => {
                proof {
                    lemma_prefix_bound(s@, i + 1);
                }
                return None;
            },
            Some(m) => {
                match m.checked_add((d - 48) as usize) {
                    None => {
                        proof {
                            lemma_prefix_bound(s@, i + 1);
                        }
                        return None;
                    },
                    Some(v) => {
                        acc = v;
                    },
                }
            },
        }
        i = i + 1;
        proof {
            let t = s@.take(i as int);
            assert forall|j: int| 0 <= j < t.len() implies 48 <= #[trigger] t[j] <= 57 by {
                if j < i - 1 {
                    assert(t[j] == s@.take(i - 1)[j]);
                }
            }
        }
    }
    assert(s@.take(s@.len() as int) =~= s@);
    Some(acc)
}

/// A longer run of digits is worth at least its prefix.
proof fn lemma_prefix_bound(s: Seq<u8>, i: int)
    requires
        0 <= i <= s.len(),
    ensures
        all_digits(s) ==> digits_value(s) >= digits_value(s.take(i)),
    decreases s.len() - i,
{
    if i < s.len() {
        lemma_prefix_bound(s, i + 1);
        let t = s.take(i + 1);
        assert(t.drop_last() =~= s.take(i));
        if all_digits(s) {
            assert(48 <= s[i]);
        }
    } else {
        assert(s.take(i) =~= s);
    }
}

fn any_entry(h: &HeaderMap, key: &[u8], value: &[u8]) -> (r: bool)
    ensures
        r == exists|i: int|
            0 <= i < h@.len() && #[trigger] key_is(h@[i], key@) && eq_ignore_case(h@[i].1, value@),
{
    let mut i: usize = 0;
    while i < h.len()
        invariant
            0 <= i <= h@.len(),
            forall|j: int|
                0 <= j < i ==> !(#[trigger] key_is(h@[j], key@) && eq_ignore_case(h@[j].1, value@)),
        decreases h@.len() - i,
    {
        if bytes_eq_ignore_case(h.key_at(i), key) && bytes_eq_ignore_case(h.value_at(i), value) {
            assert(key_is(h@[i as int], key@) && eq_ignore_case(h@[i as int].1, value@));
            return true;
        }
        i = i + 1;
    }
    false
}

/// The framing that the headers declare.
pub fn transfer_type_of(h: &HeaderMap) -> (r: Result<Option<TransferType>, ParseError>)
    ensures
        match declared_framing(h@) {
            Some(f) => r == Ok::<Option<TransferType>, ParseError>(f),
            None => r == Err::<Option<TransferType>, ParseError>(ParseError::InvalidContentLength),
        },
{
    let te = transfer_encoding_bytes();
    let ch = chunked_bytes();
    if any_entry(h, te.as_slice(), ch.as_slice()) {
        return Ok(Some(TransferType::Chunked));
    }
    let cl = content_length_bytes();
    match h.header_key_position(cl.as_slice()) {
        Some(p) => {
            proof {
                let q = choose|q: int| first_key_at(h@, content_length(), q);
                if q < p {
                } else if p < q {
                }
                assert(q == p as int);
            }
            match parse_length(h.value_at(p)) {
                Some(n) => Ok(Some(TransferType::ContentLength(n))),
                None => Err(ParseError::InvalidContentLength),
            }
        },
        None => {
            let cn = connection_bytes();
            let cs = close_bytes();
            if any_entry(h, cn.as_slice(), cs.as_slice()) {
                Ok(Some(TransferType::Close))
            } else {
                Ok(None)
            }
        },
    }
}

/// The three parts of the request line that ends with CRLF at `l`: the
/// method with the space after it, the target, and the rest of the line
/// from the second space on.
pub open spec fn request_line_parts(s: Seq<u8>, l: int) -> Option<(Seq<u8>, Seq<u8>, Seq<u8>)> {
    let a = find_byte(s.take(l), 32, 0);
    if a >= l {
        None
    } else {
        let b = find_byte(s.take(l), 32, a + 1);
        if b >= l {
            None
        } else {
            Some((s.take(a + 1), s.subrange(a + 1, b), s.subrange(b, l + 2)))
        }
    }
}

/// The three parts of the status line that ends with CRLF at `l`: the
/// version with the space after it, the status token up to the next space
/// or the end of the line, and the rest of the line.
pub open spec fn response_line_parts(s: Seq<u8>, l: int) -> Option<(Seq<u8>, Seq<u8>, Seq<u8>)> {
    let a = find_byte(s.take(l), 32, 0);
    if a >= l {
        None
    } else {
        let b = find_byte(s.take(l), 32, a + 1);
        Some((s.take(a + 1), s.subrange(a + 1, b), s.subrange(b, l + 2)))
    }
}

/// The body and trailing bytes are those that the framing `f` delimits in
/// `rest`, the bytes after the head.
pub open spec fn framed(rest: Seq<u8>, f: Option<TransferType>, body: Option<Body>, extra: Option<
    BytesMut,
>) -> bool {
    match f {
        Some(TransferType::ContentLength(n)) => {
            &&& body matches Some(Body::Raw(x)) && bytes_of(x) == rest.take(n as int)
            &&& if rest.len() > n {
                extra matches Some(y) && bytes_of(y) == rest.skip(n as int)
            } else {
                extra is None
            }
        },
        Some(TransferType::Chunked) => {
            &&& body matches Some(Body::Chunked(v)) && v@.len() == 1 && bytes_of(v@[0]) == rest
            &&& extra is None
        },
        Some(TransferType::Close) => {
            &&& body matches Some(Body::Raw(x)) && bytes_of(x) == rest
            &&& extra is None
        },
        None => {
            &&& body is None
            &&& if rest.len() > 0 {
                extra matches Some(y) && bytes_of(y) == rest
            } else {
                extra is None
            }
        },
    }
}

/// The framing fits the bytes at hand: a content length is not longer
/// than what follows the head.
pub open spec fn fits(rest: Seq<u8>, f: Option<TransferType>) -> bool {
    match f {
        Some(TransferType::ContentLength(n)) => n <= rest.len(),
        _ => true,
    }
}

/// What reading the header lines of `s` from `start` to `end` gives: the
/// head of `line` and those entries with the framing they declare, or the
/// error of the first thing that fails.
pub open spec fn head_outcome<T>(
    s: Seq<u8>,
    start: int,
    end: int,
    line: T,
    r: Result<(MessageHead<T>, Option<TransferType>), ParseError>,
) -> bool {
    match fields_from(s, start, end) {
        None => r == Err::<(MessageHead<T>, Option<TransferType>), ParseError>(
            ParseError::InvalidHeader,
        ),
        Some(h) => match declared_framing(h) {
            None => r == Err::<(MessageHead<T>, Option<TransferType>), ParseError>(
                ParseError::InvalidContentLength,
            ),
            Some(f) => r matches Ok(p) && p.0.info_line_view() == line && p.0.headers_view() == h
                && p.1 == f,
        },
    }
}

/// The framing descriptor for the framing `f`.
pub open spec fn descriptor(f: Option<TransferType>) -> Option<BodyHeader> {
    match f {
        Some(t) => Some(BodyHeader { transfer_type: Some(t) }),
        None => None,
    }
}

/// What reading the message of `s` gives once the start line is read:
/// the outcome for the header lines from `start` to `end`, the framing they
/// declare, and the body after the head.
pub open spec fn message_outcome<T>(
    s: Seq<u8>,
    start: int,
    end: int,
    line: T,
    r: Result<OneOne<T>, ParseError>,
) -> bool where T: InfoLine {
    match fields_from(s, start, end) {
        None => r == Err::<OneOne<T>, ParseError>(ParseError::InvalidHeader),
        Some(h) => match declared_framing(h) {
            None => r == Err::<OneOne<T>, ParseError>(ParseError::InvalidContentLength),
            Some(f) => if !fits(s.skip(end + 2), f) {
                r == Err::<OneOne<T>, ParseError>(ParseError::Incomplete)
            } else {
                r matches Ok(m) && {
                    &&& m.info_line_view() == line
                    &&& m.headers_view() == h
                    &&& m.body_headers_view() == descriptor(f)
                    &&& framed(s.skip(end + 2), f, m.body_view(), m.extra_body_view())
                }
            },
        },
    }
}

/// What reading a head alone gives once the start line is read: the
/// message of that head and its framing descriptor, with no body.
pub open spec fn head_only_outcome<T>(
    s: Seq<u8>,
    start: int,
    end: int,
    line: T,
    r: Result<OneOne<T>, ParseError>,
) -> bool where T: InfoLine {
    match fields_from(s, start, end) {
        None => r == Err::<OneOne<T>, ParseError>(ParseError::InvalidHeader),
        Some(h) => match declared_framing(h) {
            None => r == Err::<OneOne<T>, ParseError>(ParseError::InvalidContentLength),
            Some(f) => r matches Ok(m) && {
                &&& m.info_line_view() == line
                &&& m.headers_view() == h
                &&& m.body_headers_view() == descriptor(f)
                &&& m.body_view() is None
                &&& m.extra_body_view() is None
            },
        },
    }
}

fn opt_rest(rest: &[u8]) -> (r: Option<BytesMut>)
    ensures
        if rest@.len() > 0 {
            r matches Some(y) && bytes_of(y) == rest@
        } else {
            r is None
        },
{
    if rest.len() > 0 {
        Some(bytes_from_slice(rest))
    } else {
        None
    }
}

/// Reads the header lines of `s` from `start`, whose head ends with
/// CRLF CRLF at `end - 2`, and the framing they declare.
fn parse_head_rest<T>(s: &[u8], start: usize, end: usize, line: T) -> (r: Result<
    (MessageHead<T>, Option<TransferType>),
    ParseError,
>)
    requires
        start == end || start + 2 <= end,
        2 <= end,
        end + 2 <= s@.len(),
        crlf_at(s@, end - 2),
    ensures
        head_outcome(s@, start as int, end as int, line, r),
{
    let map = match parse_fields(s, start, end) {
        Some(m) => m,
        None => {
            return Err(ParseError::InvalidHeader);
        },
    };
    let f = match transfer_type_of(&map) {
        Ok(f) => f,
        Err(e) => {
            return Err(e);
        },
    };
    Ok((MessageHead::new(line, map), f))
}

fn descriptor_of(f: Option<TransferType>) -> (r: Option<BodyHeader>)
    ensures
        r == descriptor(f),
{
    match f {
        Some(t) => Some(BodyHeader { transfer_type: Some(t) }),
        None => None,
    }
}

/// Reads the headers and the body of `s`, whose head ends with CRLF CRLF
/// at `end - 2` and whose header lines start at `start`.
fn parse_rest<T: InfoLine>(s: &[u8], start: usize, end: usize, line: T) -> (r: Result<
    OneOne<T>,
    ParseError,
>)
    requires
        start == end || start + 2 <= end,
        2 <= end,
        end + 2 <= s@.len(),
        crlf_at(s@, end - 2),
        crlf_at(s@, end as int),
    ensures
        message_outcome(s@, start as int, end as int, line, r),
{
    let (head, f) = match parse_head_rest(s, start, end, line) {
        Ok(p) => p,
        Err(e) => {
            return Err(e);
        },
    };
    let n = s.len();
    let rest = &s[end + 2..n];
    assert(rest@ =~= s@.skip(end + 2));
    let mut one = OneOne::new(head, descriptor_of(f));
    match f {
        Some(TransferType::ContentLength(len)) => {
            if len > rest.len() {
                return Err(ParseError::Incomplete);
            }
            let body = &rest[0..len];
            assert(body@ =~= rest@.take(len as int));
            one.set_body(Body::Raw(bytes_from_slice(body)));
            let tail = &rest[len..rest.len()];
            assert(tail@ =~= rest@.skip(len as int));
            match opt_rest(tail) {
                Some(y) => one.set_extra_body(y),
                None => {},
            }
        },
        Some(TransferType::Chunked) => {
            let mut v: Vec<BytesMut> = Vec::new();
            v.push(bytes_from_slice(rest));
            one.set_body(Body::Chunked(v));
        },
        Some(TransferType::Close) => {
            one.set_body(Body::Raw(bytes_from_slice(rest)));
        },
        None => {
            match opt_rest(rest) {
                Some(y) => one.set_extra_body(y),
                None => {},
            }
        },
    }
    Ok(one)
}

/// Reads the header lines of a head alone: the message has the framing
/// descriptor that the headers declare and no body.
fn parse_head_only<T: InfoLine>(s: &[u8], start: usize, end: usize, line: T) -> (r: Result<
    OneOne<T>,
    ParseError,
>)
    requires
        start == end || start + 2 <= end,
        2 <= end,
        end + 2 <= s@.len(),
        crlf_at(s@, end - 2),
    ensures
        head_only_outcome(s@, start as int, end as int, line, r),
{
    match parse_head_rest(s, start, end, line) {
        Ok((head, f)) => Ok(OneOne::new(head, descriptor_of(f))),
        Err(e) => Err(e),
    }
}

fn request_line_of(buf: &[u8], l: usize) -> (r: Option<OneRequestLine>)
    requires
        l + 2 <= buf@.len(),
    ensures
        match request_line_parts(buf@, l as int) {
            None => r is None,
            Some(p) => r matches Some(x) && x.method_view() == p.0 && x.uri_view() == p.1
                && x.version_view() == p.2,
        },
{
    let n = buf.len();
    assert(l + 2 <= n);
    let first = take_line(buf, l);
    let a = find_byte_from(first, 32, 0);
    if a >= l {
        return None;
    }
    let b = find_byte_from(first, 32, a + 1);
    if b >= l {
        return None;
    }
    let m = &buf[0..a + 1];
    let u = &buf[a + 1..b];
    let v = &buf[b..l + 2];
    assert(m@ =~= buf@.take(a + 1));
    assert(u@ =~= buf@.subrange(a + 1, b as int));
    assert(v@ =~= buf@.subrange(b as int, l + 2));
    Some(OneRequestLine::new(m, u, v))
}

fn response_line_of(buf: &[u8], l: usize) -> (r: Option<OneResponseLine>)
    requires
        l + 2 <= buf@.len(),
    ensures
        match response_line_parts(buf@, l as int) {
            None => r is None,
            Some(p) => r matches Some(x) && x.version_view() == p.0 && x.status_view() == p.1
                && x.reason_view() == p.2,
        },
{
    let n = buf.len();
    assert(l + 2 <= n);
    let first = take_line(buf, l);
    let a = find_byte_from(first, 32, 0);
    if a >= l {
        return None;
    }
    let b = find_byte_from(first, 32, a + 1);
    let ver = &buf[0..a + 1];
    let st = &buf[a + 1..b];
    let rs = &buf[b..l + 2];
    assert(ver@ =~= buf@.take(a + 1));
    assert(st@ =~= buf@.subrange(a + 1, b as int));
    assert(rs@ =~= buf@.subrange(b as int, l + 2));
    Some(OneResponseLine::new(ver, st, rs))
}

/// Locates the head: the first CRLF, which ends the start line, and the
/// first CRLF CRLF, which ends the headers.
fn split_head(s: &[u8]) -> (r: Option<(usize, usize)>)
    ensures
        match r {
            None => find_blank(s@, 0) >= s@.len(),
            Some((l, e)) => {
                &&& find_blank(s@, 0) < s@.len()
                &&& e == find_blank(s@, 0)
                &&& l == find_crlf(s@, 0)
                &&& l + 2 == e + 2 || l + 4 <= e + 2
                &&& e + 4 <= s@.len()
                &&& crlf_at(s@, l as int)
                &&& crlf_at(s@, e as int)
                &&& crlf_at(s@, e + 2)
            },
        },
{
    let e = find_blank_from(s, 0);
    if e >= s.len() {
        return None;
    }
    proof {
        lemma_find_blank_found(s@, 0);
    }
    let l = find_crlf_from(s, 0);
    proof {
        lemma_find_crlf_before(s@, 0, e as int);
        if l < e {
            assert(l + 1 != e);
        }
    }
    Some((l, e))
}

fn take_line(s: &[u8], l: usize) -> (r: &[u8])
    requires
        l <= s@.len(),
    ensures
        r@ == s@.take(l as int),
{
    let r = &s[0..l];
    assert(r@ =~= s@.take(l as int));
    r
}

impl OneOne<OneRequestLine> {
    /// Reads a request from `buf`: the request line, the header lines up to
    /// the first empty line, and the body that the headers' framing delimits.
    pub fn parse(buf: &[u8]) -> (r: Result<OneRequest, ParseError>)
        ensures
            find_blank(buf@, 0) >= buf@.len() ==> r == Err::<OneRequest, _>(ParseError::Incomplete),
            find_blank(buf@, 0) < buf@.len() ==> {
                let e = find_blank(buf@, 0);
                let l = find_crlf(buf@, 0);
                match request_line_parts(buf@, l) {
                    None => r == Err::<OneRequest, _>(ParseError::InvalidStartLine),
                    Some(p) => exists|line: OneRequestLine|
                        #![trigger line.method_view()]
                        line.method_view() == p.0 && line.uri_view() == p.1 && line.version_view()
                            == p.2 && message_outcome(buf@, l + 2, e + 2, line, r),
                }
            },
    {
        let (l, e) = match split_head(buf) {
            Some(p) => p,
            None => {
                return Err(ParseError::Incomplete);
            },
        };
        let n = buf.len();
        assert(e + 4 <= n);
        match request_line_of(buf, l) {
            Some(line) => parse_rest(buf, l + 2, e + 2, line),
            None => Err(ParseError::InvalidStartLine),
        }
    }

    /// Reads the head of a request from `buf`, which ends with an empty
    /// line: the message has the framing descriptor that the headers
    /// declare, and no body.
    pub fn try_from_message_head_buf(buf: &[u8]) -> (r: Result<OneRequest, ParseError>)
        ensures
            find_blank(buf@, 0) >= buf@.len() ==> r == Err::<OneRequest, _>(ParseError::Incomplete),
            find_blank(buf@, 0) < buf@.len() ==> {
                let e = find_blank(buf@, 0);
                let l = find_crlf(buf@, 0);
                match request_line_parts(buf@, l) {
                    None => r == Err::<OneRequest, _>(ParseError::InvalidStartLine),
                    Some(p) => exists|line: OneRequestLine|
                        #![trigger line.method_view()]
                        line.method_view() == p.0 && line.uri_view() == p.1 && line.version_view()
                            == p.2 && head_only_outcome(buf@, l + 2, e + 2, line, r),
                }
            },
    {
        let (l, e) = match split_head(buf) {
            Some(p) => p,
            None => {
                return Err(ParseError::Incomplete);
            },
        };
        let n = buf.len();
        assert(e + 4 <= n);
        match request_line_of(buf, l) {
            Some(line) => parse_head_only(buf, l + 2, e + 2, line),
            None => Err(ParseError::InvalidStartLine),
        }
    }
}

impl OneOne<OneResponseLine> {
    /// Reads a response from `buf`: the status line, the header lines up to
    /// the first empty line, and the body that the headers' framing delimits.
    pub fn parse(buf: &[u8]) -> (r: Result<OneResponse, ParseError>)
        ensures
            find_blank(buf@, 0) >= buf@.len() ==> r == Err::<OneResponse, _>(ParseError::Incomplete),
            find_blank(buf@, 0) < buf@.len() ==> {
                let e = find_blank(buf@, 0);
                let l = find_crlf(buf@, 0);
                match response_line_parts(buf@, l) {
                    None => r == Err::<OneResponse, _>(ParseError::InvalidStartLine),
                    Some(p) => exists|line: OneResponseLine|
                        #![trigger line.version_view()]
                        line.version_view() == p.0 && line.status_view() == p.1
                            && line.reason_view() == p.2 && message_outcome(
                            buf@,
                            l + 2,
                            e + 2,
                            line,
                            r,
                        ),
                }
            },
    {
        let (l, e) = match split_head(buf) {
            Some(p) => p,
            None => {
                return Err(ParseError::Incomplete);
            },
        };
        let n = buf.len();
        assert(e + 4 <= n);
        match response_line_of(buf, l) {
            Some(line) => parse_rest(buf, l + 2, e + 2, line),
            None => Err(ParseError::InvalidStartLine),
        }
    }

    /// Reads the head of a response from `buf`, which ends with an empty
    /// line: the message has the framing descriptor that the headers
    /// declare, and no body.
    pub fn try_from_message_head_buf(buf: &[u8]) -> (r: Result<OneResponse, ParseError>)
        ensures
            find_blank(buf@, 0) >= buf@.len() ==> r == Err::<OneResponse, _>(ParseError::Incomplete),
            find_blank(buf@, 0) < buf@.len() ==> {
                let e = find_blank(buf@, 0);
                let l = find_crlf(buf@, 0);
                match response_line_parts(buf@, l) {
                    None => r == Err::<OneResponse, _>(ParseError::InvalidStartLine),
                    Some(p) => exists|line: OneResponseLine|
                        #![trigger line.version_view()]
                        line.version_view() == p.0 && line.status_view() == p.1
                            && line.reason_view() == p.2 && head_only_outcome(
                            buf@,
                            l + 2,
                            e + 2,
                            line,
                            r,
                        ),
                }
            },
    {
        let (l, e) = match split_head(buf) {
            Some(p) => p,
            None => {
                return Err(ParseError::Incomplete);
            },
        };
        let n = buf.len();
        assert(e + 4 <= n);
        match response_line_of(buf, l) {
            Some(line) => parse_head_only(buf, l + 2, e + 2, line),
            None => Err(ParseError::InvalidStartLine),
        }
    }
}

} // verus!
