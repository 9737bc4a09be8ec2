//! The request handed to an exchange, and the head of the outgoing request.

use vstd::prelude::*;

verus! {

/// An HTTP request method.
#[derive(Clone, Copy, PartialEq, Eq, Structural, Debug)]
pub enum Method {
    Options,
    Get,
    Post,
    Put,
    Delete,
    Head,
    Trace,
    Connect,
    Patch,
}

impl Method {
    /// The method's name as it appears on the request line.
    pub open spec fn name(self) -> Seq<char> {
        match self {
            Method::Options => "OPTIONS"@,
            Method::Get => "GET"@,
            Method::Post => "POST"@,
            Method::Put => "PUT"@,
            Method::Delete => "DELETE"@,
            Method::Head => "HEAD"@,
            Method::Trace => "TRACE"@,
            Method::Connect => "CONNECT"@,
            Method::Patch => "PATCH"@,
        }
    }

    /// The method's name as it appears on the request line.
    pub fn as_str(&self) -> (r: &'static str)
        ensures
            r@ == self.name(),
    {
        match self {
            Method::Options => "OPTIONS",
            Method::Get => "GET",
            Method::Post => "POST",
            Method::Put => "PUT",
            Method::Delete => "DELETE",
            Method::Head => "HEAD",
            Method::Trace => "TRACE",
            Method::Connect => "CONNECT",
            Method::Patch => "PATCH",
        }
    }
}

/// One outgoing request: a method, a target written as text, and the raw
/// body bytes. Immutable once constructed.
pub struct HttpRequest {
    pub method: Method,
    pub url: String,
    pub body: Vec<u8>,
}

/// The one result of an exchange: the response body on success, or a
/// human-readable description of the failure.
pub type HttpResponse = Result<Vec<u8>, String>;

/// What the driver must place in the head of the outgoing request: the
/// method and the declared length of the body. The content type is always
/// [`json_content_type`].
pub struct RequestHead {
    pub method: Method,
    pub content_length: u64,
}

/// The content type set on every outgoing request.
pub fn json_content_type() -> (r: &'static str)
    ensures
        r@ == "application/json; charset=utf-8"@,
{
    "application/json; charset=utf-8"
}

} // verus!
