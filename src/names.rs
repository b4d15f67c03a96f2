//! Header names and values that the framing and normalization rules use.
use vstd::prelude::*;

verus! {

/// `content-length`
pub open spec fn content_length() -> Seq<u8> {
    seq![99u8, 111, 110, 116, 101, 110, 116, 45, 108, 101, 110, 103, 116, 104]
}

pub fn content_length_bytes() -> (r: Vec<u8>)
    ensures
        r@ == content_length(),
{
    let r: Vec<u8> = vec![99u8, 111, 110, 116, 101, 110, 116, 45, 108, 101, 110, 103, 116, 104];
    assert(r@ =~= content_length());
    r
}

/// `transfer-encoding`
pub open spec fn transfer_encoding() -> Seq<u8> {
    seq![116u8, 114, 97, 110, 115, 102, 101, 114, 45, 101, 110, 99, 111, 100, 105, 110, 103]
}

pub fn transfer_encoding_bytes() -> (r: Vec<u8>)
    ensures
        r@ == transfer_encoding(),
{
    let r: Vec<u8> = vec![116u8, 114, 97, 110, 115, 102, 101, 114, 45, 101, 110, 99, 111, 100, 105, 110, 103];
    assert(r@ =~= transfer_encoding());
    r
}

/// `connection`
pub open spec fn connection() -> Seq<u8> {
    seq![99u8, 111, 110, 110, 101, 99, 116, 105, 111, 110]
}

pub fn connection_bytes() -> (r: Vec<u8>)
    ensures
        r@ == connection(),
{
    let r: Vec<u8> = vec![99u8, 111, 110, 110, 101, 99, 116, 105, 111, 110];
    assert(r@ =~= connection());
    r
}

/// `proxy-connection`
pub open spec fn proxy_connection() -> Seq<u8> {
    seq![112u8, 114, 111, 120, 121, 45, 99, 111, 110, 110, 101, 99, 116, 105, 111, 110]
}

pub fn proxy_connection_bytes() -> (r: Vec<u8>)
    ensures
        r@ == proxy_connection(),
{
    let r: Vec<u8> = vec![112u8, 114, 111, 120, 121, 45, 99, 111, 110, 110, 101, 99, 116, 105, 111, 110];
    assert(r@ =~= proxy_connection());
    r
}

/// `sec-websocket-extensions`
pub open spec fn sec_websocket_extensions() -> Seq<u8> {
    seq![115u8, 101, 99, 45, 119, 101, 98, 115, 111, 99, 107, 101, 116, 45, 101, 120, 116, 101, 110, 115, 105, 111, 110, 115]
}

pub fn sec_websocket_extensions_bytes() -> (r: Vec<u8>)
    ensures
        r@ == sec_websocket_extensions(),
{
    let r: Vec<u8> = vec![115u8, 101, 99, 45, 119, 101, 98, 115, 111, 99, 107, 101, 116, 45, 101, 120, 116, 101, 110, 115, 105, 111, 110, 115];
    assert(r@ =~= sec_websocket_extensions());
    r
}

/// `trailer`
pub open spec fn trailer() -> Seq<u8> {
    seq![116u8, 114, 97, 105, 108, 101, 114]
}

pub fn trailer_bytes() -> (r: Vec<u8>)
    ensures
        r@ == trailer(),
{
    let r: Vec<u8> = vec![116u8, 114, 97, 105, 108, 101, 114];
    assert(r@ =~= trailer());
    r
}

/// `host`
pub open spec fn host() -> Seq<u8> {
    seq![104u8, 111, 115, 116]
}

pub fn host_bytes() -> (r: Vec<u8>)
    ensures
        r@ == host(),
{
    let r: Vec<u8> = vec![104u8, 111, 115, 116];
    assert(r@ =~= host());
    r
}

/// `keep-alive`
pub open spec fn keep_alive() -> Seq<u8> {
    seq![107u8, 101, 101, 112, 45, 97, 108, 105, 118, 101]
}

pub fn keep_alive_bytes() -> (r: Vec<u8>)
    ensures
        r@ == keep_alive(),
{
    let r: Vec<u8> = vec![107u8, 101, 101, 112, 45, 97, 108, 105, 118, 101];
    assert(r@ =~= keep_alive());
    r
}

/// `close`
pub open spec fn close() -> Seq<u8> {
    seq![99u8, 108, 111, 115, 101]
}

pub fn close_bytes() -> (r: Vec<u8>)
    ensures
        r@ == close(),
{
    let r: Vec<u8> = vec![99u8, 108, 111, 115, 101];
    assert(r@ =~= close());
    r
}

/// `chunked`
pub open spec fn chunked() -> Seq<u8> {
    seq![99u8, 104, 117, 110, 107, 101, 100]
}

pub fn chunked_bytes() -> (r: Vec<u8>)
    ensures
        r@ == chunked(),
{
    let r: Vec<u8> = vec![99u8, 104, 117, 110, 107, 101, 100];
    assert(r@ =~= chunked());
    r
}

} // verus!
