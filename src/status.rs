//! Response status codes: three decimal digits, from 100 to 999.
use vstd::prelude::*;

use crate::text::{decimal, to_decimal};

verus! {

/// The status token is three ASCII digits and the first is not zero.
pub open spec fn status_token(s: Seq<u8>) -> bool {
    &&& s.len() == 3
    &&& 49 <= s[0] <= 57
    &&& 48 <= s[1] <= 57
    &&& 48 <= s[2] <= 57
}

/// The value of a three-digit status token.
pub open spec fn status_token_value(s: Seq<u8>) -> int {
    (s[0] - 48) * 100 + (s[1] - 48) * 10 + (s[2] - 48)
}

/// A status code was out of range or its token was not three digits.
#[derive(Clone, Copy, Debug, PartialEq, Eq, Structural)]
pub struct InvalidStatusCode;

/// A response status code.
#[derive(Clone, Copy, Debug, PartialEq, Eq, Structural)]
pub struct StatusCode {
    code: u16,
}

impl StatusCode {
    #[verifier::type_invariant]
    spec fn in_range(&self) -> bool {
        100 <= self.code <= 999
    }

    /// The numeric value.
    pub closed spec fn value(&self) -> u16 {
        self.code
    }

    /// The code `src`, when it lies from 100 to 999.
    pub fn from_u16(src: u16) -> (r: Result<StatusCode, InvalidStatusCode>)
        ensures
            r is Ok <==> 100 <= src <= 999,
            r is Ok ==> r->Ok_0.value() == src,
    {
        if 100 <= src && src <= 999 {
            Ok(StatusCode { code: src })
        } else {
            Err(InvalidStatusCode)
        }
    }

    /// The code written by the three digits of `src`.
    pub fn from_bytes(src: &[u8]) -> (r: Result<StatusCode, InvalidStatusCode>)
        ensures
            r is Ok <==> status_token(src@),
            r is Ok ==> r->Ok_0.value() == status_token_value(src@),
    {
        if src.len() != 3 {
            return Err(InvalidStatusCode);
        }
        let a = src[0];
        let b = src[1];
        let c = src[2];
        if a < 49 || a > 57 || b < 48 || b > 57 || c < 48 || c > 57 {
            return Err(InvalidStatusCode);
        }
        let code: u16 = (a - 48) as u16 * 100 + (b - 48) as u16 * 10 + (c - 48) as u16;
        Ok(StatusCode { code })
    }

    pub fn as_u16(&self) -> (r: u16)
        ensures
            r == self.value(),
            100 <= r <= 999,
    {
        proof {
            use_type_invariant(self);
        }
        self.code
    }

    /// The code as its three decimal digits.
    pub fn as_bytes(&self) -> (r: Vec<u8>)
        ensures
            r@ == decimal(self.value() as nat),
    {
        to_decimal(self.code as usize)
    }
}

impl Default for StatusCode {
    fn default() -> (r: StatusCode)
        ensures
            r.value() == 200,
    {
        StatusCode { code: 200 }
    }
}

} // verus!
