//! Byte buffers of the `bytes` crate, as the message bodies are held.
use vstd::prelude::*;

use bytes::BytesMut;

verus! {

#[verifier::external_type_specification]
#[verifier::external_body]
pub struct ExBytesMut(BytesMut);

/// The bytes that a `BytesMut` holds, in order.
pub uninterp spec fn bytes_of(b: BytesMut) -> Seq<u8>;

/// The contents of an optional buffer.
pub open spec fn opt_bytes(b: Option<BytesMut>) -> Option<Seq<u8>> {
    match b {
        Some(x) => Some(bytes_of(x)),
        None => None,
    }
}

/// Relies on `BytesMut::len`: the number of bytes held.
pub assume_specification[ BytesMut::len ](b: &BytesMut) -> (r: usize)
    ensures
        r == bytes_of(*b).len(),
;

/// Relies on `BytesMut::is_empty`: whether no byte is held.
pub assume_specification[ BytesMut::is_empty ](b: &BytesMut) -> (r: bool)
    ensures
        r == (bytes_of(*b).len() == 0),
;

/// Relies on `From<&[u8]> for BytesMut`: the buffer holds a copy of `s`.
#[verifier::external_body]
pub(crate) fn bytes_from_slice(s: &[u8]) -> (r: BytesMut)
    ensures
        bytes_of(r) == s@,
{
    BytesMut::from(s)
}

/// Relies on `AsRef<[u8]> for BytesMut`: the slice of the bytes held.
#[verifier::external_body]
pub(crate) fn bytes_as_slice(b: &BytesMut) -> (r: &[u8])
    ensures
        r@ == bytes_of(*b),
{
    b.as_ref()
}

} // verus!
