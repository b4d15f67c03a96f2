//! HTTP versions and the tokens that start lines carry for them.
use vstd::prelude::*;

verus! {

/// An HTTP protocol version.
#[derive(Clone, Copy, Debug, PartialEq, Eq, Structural)]
pub enum Version {
    H09,
    H10,
    H11,
    H2,
    H3,
}

impl Version {
    /// The version's token, such as `HTTP/1.1` or `HTTP/2`.
    pub open spec fn token(self) -> Seq<u8> {
        match self {
            Version::H09 => seq![72u8, 84, 84, 80, 47, 48, 46, 57],
            Version::H10 => seq![72u8, 84, 84, 80, 47, 49, 46, 48],
            Version::H11 => seq![72u8, 84, 84, 80, 47, 49, 46, 49],
            Version::H2 => seq![72u8, 84, 84, 80, 47, 50],
            Version::H3 => seq![72u8, 84, 84, 80, 47, 51],
        }
    }

    /// The tail of a request line: a space, the token and CRLF.
    pub open spec fn request_suffix(self) -> Seq<u8> {
        seq![32u8] + self.token() + seq![13u8, 10]
    }

    /// The head of a status line: the token and a space.
    pub open spec fn response_prefix(self) -> Seq<u8> {
        self.token() + seq![32u8]
    }

    pub fn as_bytes(&self) -> (r: Vec<u8>)
        ensures
            r@ == self.token(),
    {
        let r: Vec<u8> = match self {
            Version::H09 => vec![72u8, 84, 84, 80, 47, 48, 46, 57],
            Version::H10 => vec![72u8, 84, 84, 80, 47, 49, 46, 48],
            Version::H11 => vec![72u8, 84, 84, 80, 47, 49, 46, 49],
            Version::H2 => vec![72u8, 84, 84, 80, 47, 50],
            Version::H3 => vec![72u8, 84, 84, 80, 47, 51],
        };
        assert(r@ =~= self.token());
        r
    }

    /// The version's part of a request line, such as ` HTTP/1.1\r\n`.
    pub fn for_request_line(&self) -> (r: Vec<u8>)
        ensures
            r@ == self.request_suffix(),
    {
        let mut r: Vec<u8> = Vec::new();
        r.push(32);
        let t = self.as_bytes();
        crate::text::append_bytes(&mut r, t.as_slice());
        r.push(13);
        r.push(10);
        assert(r@ =~= self.request_suffix());
        r
    }

    /// The version's part of a status line, such as `HTTP/1.1 `.
    pub fn for_response_line(&self) -> (r: Vec<u8>)
        ensures
            r@ == self.response_prefix(),
    {
        let mut r = self.as_bytes();
        r.push(32);
        assert(r@ =~= self.response_prefix());
        r
    }
}

impl Default for Version {
    fn default() -> (r: Version)
        ensures
            r == Version::H11,
    {
        Version::H11
    }
}

} // verus!
