//! Start lines: the wire forms, which keep every byte of the line, and the
//! semantic forms, which keep the method and URI or the status alone.
use vstd::prelude::*;
use vstd::slice::slice_to_vec;

use crate::method::Method;
use crate::status::{InvalidStatusCode, StatusCode, status_token, status_token_value};
use crate::text::{append_bytes, decimal, trim_ascii_end, trim_end};
use crate::uri::Uri;
use crate::version::Version;

verus! {

/// The start line of a wire message.
pub trait InfoLine: Sized {
    /// The bytes of the line, CRLF included.
    spec fn line_bytes(&self) -> Seq<u8>;

    fn to_bytes(&self) -> (r: Vec<u8>)
        ensures
            r@ == self.line_bytes(),
    ;
}

/// A request line as bytes: the method with one trailing space, the
/// target, and the version with one leading space and CRLF.
#[derive(Clone, Debug, PartialEq, Eq)]
pub struct OneRequestLine {
    method: Vec<u8>,
    uri: Vec<u8>,
    version: Vec<u8>,
}

/// A status line as bytes: the version with one trailing space, the status
/// digits, and the reason with one leading space and CRLF.
#[derive(Clone, Debug, PartialEq, Eq)]
pub struct OneResponseLine {
    version: Vec<u8>,
    status: Vec<u8>,
    reason: Vec<u8>,
}

impl OneRequestLine {
    pub closed spec fn method_view(&self) -> Seq<u8> {
        self.method@
    }

    pub closed spec fn uri_view(&self) -> Seq<u8> {
        self.uri@
    }

    pub closed spec fn version_view(&self) -> Seq<u8> {
        self.version@
    }

    /// A request line of the three parts as they stand on the wire.
    pub fn new(method: &[u8], uri: &[u8], version: &[u8]) -> (r: OneRequestLine)
        ensures
            r.method_view() == method@,
            r.uri_view() == uri@,
            r.version_view() == version@,
    {
        OneRequestLine {
            method: slice_to_vec(method),
            uri: slice_to_vec(uri),
            version: slice_to_vec(version),
        }
    }

    /// The method token without the trailing whitespace.
    pub fn method_bytes(&self) -> (r: &[u8])
        ensures
            r@ == trim_end(self.method_view()),
    {
        trim_ascii_end(self.method.as_slice())
    }

    /// The target as it stands on the wire.
    pub fn uri_bytes(&self) -> (r: &[u8])
        ensures
            r@ == self.uri_view(),
    {
        self.uri.as_slice()
    }

    /// The version part as it stands on the wire.
    pub fn version_bytes(&self) -> (r: &[u8])
        ensures
            r@ == self.version_view(),
    {
        self.version.as_slice()
    }
}

impl InfoLine for OneRequestLine {
    open spec fn line_bytes(&self) -> Seq<u8> {
        self.method_view() + self.uri_view() + self.version_view()
    }

    fn to_bytes(&self) -> (r: Vec<u8>) {
        let mut r = slice_to_vec(self.method.as_slice());
        append_bytes(&mut r, self.uri.as_slice());
        append_bytes(&mut r, self.version.as_slice());
        r
    }
}

impl OneResponseLine {
    pub closed spec fn version_view(&self) -> Seq<u8> {
        self.version@
    }

    pub closed spec fn status_view(&self) -> Seq<u8> {
        self.status@
    }

    pub closed spec fn reason_view(&self) -> Seq<u8> {
        self.reason@
    }

    /// A status line of the three parts as they stand on the wire.
    pub fn new(version: &[u8], status: &[u8], reason: &[u8]) -> (r: OneResponseLine)
        ensures
            r.version_view() == version@,
            r.status_view() == status@,
            r.reason_view() == reason@,
    {
        OneResponseLine {
            version: slice_to_vec(version),
            status: slice_to_vec(status),
            reason: slice_to_vec(reason),
        }
    }

    /// The status token as it stands on the wire.
    pub fn status_bytes(&self) -> (r: &[u8])
        ensures
            r@ == self.status_view(),
    {
        self.status.as_slice()
    }

    /// The status code that the status token writes.
    pub fn status(&self) -> (r: Result<StatusCode, InvalidStatusCode>)
        ensures
            r is Ok <==> status_token(self.status_view()),
            r is Ok ==> r->Ok_0.value() == status_token_value(self.status_view()),
    {
        StatusCode::from_bytes(self.status.as_slice())
    }
}

impl InfoLine for OneResponseLine {
    open spec fn line_bytes(&self) -> Seq<u8> {
        self.version_view() + self.status_view() + self.reason_view()
    }

    fn to_bytes(&self) -> (r: Vec<u8>) {
        let mut r = slice_to_vec(self.version.as_slice());
        append_bytes(&mut r, self.status.as_slice());
        append_bytes(&mut r, self.reason.as_slice());
        r
    }
}

/// The request line for `method`, `uri` and `version`: the method token and
/// a space, the path and query, a space, the version token and CRLF.
pub fn build_one_request_line_with_version(method: &Method, uri: &Uri, version: Version) -> (r:
    OneRequestLine)
    ensures
        r.method_view() == method.token().push(32),
        r.uri_view() == uri.path_and_query_view(),
        r.version_view() == version.request_suffix(),
        r.line_bytes() == method.token() + seq![32u8] + uri.path_and_query_view() + seq![32u8]
            + version.token() + seq![13u8, 10],
{
    let mut m = method.as_bytes();
    m.push(32);
    let r = OneRequestLine {
        method: m,
        uri: slice_to_vec(uri.path_and_query()),
        version: version.for_request_line(),
    };
    assert(r.line_bytes() =~= method.token() + seq![32u8] + uri.path_and_query_view() + seq![
        32u8,
    ] + version.token() + seq![13u8, 10]);
    r
}

/// The status line for `status` and `version` with the reason phrase
/// `reason`: the version token and a space, the status digits, a space, the
/// reason and CRLF. An empty reason leaves the two spaces in place.
pub fn build_one_response_line_with_version(
    status: StatusCode,
    version: Version,
    reason: &[u8],
) -> (r: OneResponseLine)
    ensures
        r.version_view() == version.response_prefix(),
        r.status_view() == decimal(status.value() as nat),
        r.reason_view() == seq![32u8] + reason@ + seq![13u8, 10],
        r.line_bytes() == version.token() + seq![32u8] + decimal(status.value() as nat) + seq![
            32u8,
        ] + reason@ + seq![13u8, 10],
{
    let mut rs: Vec<u8> = Vec::new();
    rs.push(32);
    append_bytes(&mut rs, reason);
    rs.push(13);
    rs.push(10);
    let r = OneResponseLine {
        version: version.for_response_line(),
        status: status.as_bytes(),
        reason: rs,
    };
    assert(r.reason_view() =~= seq![32u8] + reason@ + seq![13u8, 10]);
    assert(r.line_bytes() =~= version.token() + seq![32u8] + decimal(status.value() as nat)
        + seq![32u8] + reason@ + seq![13u8, 10]);
    r
}

/// The request line of a semantic request: a method, a URI and an optional
/// protocol extension token.
#[derive(Clone, Debug, PartialEq, Eq)]
pub struct RequestLine {
    pub method: Method,
    pub uri: Uri,
    pub extension: Option<Vec<u8>>,
}

impl RequestLine {
    pub fn new(method: Method, uri: Uri) -> (r: RequestLine)
        ensures
            r.method == method,
            r.uri == uri,
            r.extension is None,
    {
        RequestLine { method, uri, extension: None }
    }
}

impl Default for RequestLine {
    /// `GET /`, with no extension.
    fn default() -> (r: RequestLine)
        ensures
            r.method == Method::GET,
            r.uri.scheme_view() is None,
            r.uri.authority_view() is None,
            r.uri.path_and_query_view() == seq![47u8],
            r.extension is None,
    {
        RequestLine { method: Method::GET, uri: Uri::default(), extension: None }
    }
}

/// The status line of a semantic response: the status code alone.
#[derive(Clone, Copy, Debug, PartialEq, Eq, Structural)]
pub struct ResponseLine {
    pub status: StatusCode,
}

impl ResponseLine {
    pub fn new(status: StatusCode) -> (r: ResponseLine)
        ensures
            r.status == status,
    {
        ResponseLine { status }
    }
}

impl Default for ResponseLine {
    /// Status 200.
    fn default() -> (r: ResponseLine)
        ensures
            r.status.value() == 200,
    {
        ResponseLine { status: StatusCode::default() }
    }
}

} // verus!
