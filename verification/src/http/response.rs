//! Response shapes the core hands to the network layer: a protocol-level
//! head, a body template, and the capability an API response satisfies.
//! Serialization and framework-specific response building stay outside.

use vstd::prelude::*;

verus! {

/// HTTP protocol version, as a plain value.
#[derive(Debug, Clone, Copy, PartialEq, Eq, Structural)]
pub enum HttpVersion {
    Http09,
    Http10,
    Http11,
    Http2,
    Http3,
}

/// What an API response exposes to the network layer.
pub trait ApiResponse: Sized {
    type Body;

    /// Protocol version of the response.
    fn version(&self) -> HttpVersion {
        HttpVersion::Http2
    }

    /// Status code of the response.
    fn status(&self) -> u16 {
        200
    }

    /// Extra response headers, if any.
    fn headers(&self) -> Option<&Vec<(String, String)>>;

    /// The response body.
    fn body(&self) -> &Self::Body;

    /// Decomposes the response into its head and its body.
    fn into_parts(self) -> (Head, Self::Body);
}

/// Protocol-level head of a response.
pub struct Head {
    pub status: u16,
    pub version: HttpVersion,
    pub headers: Option<Vec<(String, String)>>,
}

/// The uniform response body: an application code and either data or an
/// error text.
pub struct HttpResponseBodyTemplate<T> {
    pub code: u32,
    pub body: DataOrError<T>,
}

/// Either response data or an error text.
pub enum DataOrError<T> {
    Data(T),
    Error(String),
}

} // verus!
