//! Conversion between HTTP/1.x wire messages and version-agnostic
//! semantic messages: body framing, header normalization, start-line
//! rendering and the two projections between the representations.

pub mod buffer;
pub mod convert;
pub mod decompress;
pub mod framing;
pub mod headers;
pub mod lines;
pub mod message;
pub mod method;
pub mod names;
pub mod one;
pub mod parse;
pub mod status;
pub mod text;
pub mod uri;
pub mod version;

pub use framing::{Body, BodyHeader, MessageError, TransferType};
pub use headers::{Header, HeaderMap};
pub use lines::{OneRequestLine, OneResponseLine, RequestLine, ResponseLine};
pub use message::{Message, MessageBuilder, Request, Response};
pub use method::Method;
pub use one::{MessageHead, OneOne, OneRequest, OneResponse};
pub use parse::ParseError;
pub use status::{InvalidStatusCode, StatusCode};
pub use uri::Uri;
pub use version::Version;
