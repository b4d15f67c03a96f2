//! Request methods and request targets.
use vstd::prelude::*;
use vstd::slice::slice_to_vec;

use crate::text::bytes_eq;

verus! {

/// A request method; a token outside the registered ones is kept as given.
#[derive(Clone, Debug, PartialEq, Eq)]
pub enum Method {
    CONNECT,
    DELETE,
    GET,
    HEAD,
    OPTIONS,
    PATCH,
    POST,
    PUT,
    TRACE,
    UNKNOWN(Vec<u8>),
}

/// The registered method tokens.
pub open spec fn registered_method(t: Seq<u8>) -> bool {
    t == seq![67u8, 79, 78, 78, 69, 67, 84]
        || t == seq![68u8, 69, 76, 69, 84, 69]
        || t == seq![71u8, 69, 84]
        || t == seq![72u8, 69, 65, 68]
        || t == seq![79u8, 80, 84, 73, 79, 78, 83]
        || t == seq![80u8, 65, 84, 67, 72]
        || t == seq![80u8, 79, 83, 84]
        || t == seq![80u8, 85, 84]
        || t == seq![84u8, 82, 65, 67, 69]
}

impl Method {
    /// The method's token.
    pub open spec fn token(&self) -> Seq<u8> {
        match self {
            Method::CONNECT => seq![67u8, 79, 78, 78, 69, 67, 84],
            Method::DELETE => seq![68u8, 69, 76, 69, 84, 69],
            Method::GET => seq![71u8, 69, 84],
            Method::HEAD => seq![72u8, 69, 65, 68],
            Method::OPTIONS => seq![79u8, 80, 84, 73, 79, 78, 83],
            Method::PATCH => seq![80u8, 65, 84, 67, 72],
            Method::POST => seq![80u8, 79, 83, 84],
            Method::PUT => seq![80u8, 85, 84],
            Method::TRACE => seq![84u8, 82, 65, 67, 69],
            Method::UNKNOWN(t) => t@,
        }
    }

    /// The method's token.
    pub fn as_bytes(&self) -> (r: Vec<u8>)
        ensures
            r@ == self.token(),
    {
        let r: Vec<u8> = match self {
            Method::CONNECT => vec![67u8, 79, 78, 78, 69, 67, 84],
            Method::DELETE => vec![68u8, 69, 76, 69, 84, 69],
            Method::GET => vec![71u8, 69, 84],
            Method::HEAD => vec![72u8, 69, 65, 68],
            Method::OPTIONS => vec![79u8, 80, 84, 73, 79, 78, 83],
            Method::PATCH => vec![80u8, 65, 84, 67, 72],
            Method::POST => vec![80u8, 79, 83, 84],
            Method::PUT => vec![80u8, 85, 84],
            Method::TRACE => vec![84u8, 82, 65, 67, 69],
            Method::UNKNOWN(t) => slice_to_vec(t.as_slice()),
        };
        assert(r@ =~= self.token());
        r
    }

    /// The method whose token is `src`.
    pub fn from_bytes(src: &[u8]) -> (r: Method)
        ensures
            r.token() == src@,
            r is UNKNOWN <==> !registered_method(src@),
    {
        let t: Vec<u8> = vec![67u8, 79, 78, 78, 69, 67, 84];
        if bytes_eq(src, t.as_slice()) {
            return Method::CONNECT;
        }
        let t: Vec<u8> = vec![68u8, 69, 76, 69, 84, 69];
        if bytes_eq(src, t.as_slice()) {
            return Method::DELETE;
        }
        let t: Vec<u8> = vec![71u8, 69, 84];
        if bytes_eq(src, t.as_slice()) {
            return Method::GET;
        }
        let t: Vec<u8> = vec![72u8, 69, 65, 68];
        if bytes_eq(src, t.as_slice()) {
            return Method::HEAD;
        }
        let t: Vec<u8> = vec![79u8, 80, 84, 73, 79, 78, 83];
        if bytes_eq(src, t.as_slice()) {
            return Method::OPTIONS;
        }
        let t: Vec<u8> = vec![80u8, 65, 84, 67, 72];
        if bytes_eq(src, t.as_slice()) {
            return Method::PATCH;
        }
        let t: Vec<u8> = vec![80u8, 79, 83, 84];
        if bytes_eq(src, t.as_slice()) {
            return Method::POST;
        }
        let t: Vec<u8> = vec![80u8, 85, 84];
        if bytes_eq(src, t.as_slice()) {
            return Method::PUT;
        }
        let t: Vec<u8> = vec![84u8, 82, 65, 67, 69];
        if bytes_eq(src, t.as_slice()) {
            return Method::TRACE;
        }
        Method::UNKNOWN(slice_to_vec(src))
    }
}

impl Default for Method {
    fn default() -> (r: Method)
        ensures
            r == Method::GET,
    {
        Method::GET
    }
}

} // verus!
