//! Plain models of the scalar HTTP metadata that an envelope carries.

use vstd::prelude::*;

verus! {

/// The HTTP protocol version of a message.
#[derive(Clone, Copy, Debug, PartialEq, Eq, Structural)]
pub enum Version {
    Http09,
    Http10,
    Http11,
    H2,
}

impl Default for Version {
    /// HTTP/1.1 is the version of a message that names none.
    fn default() -> (v: Version)
        ensures
            v == Version::Http11,
    {
        Version::Http11
    }
}

/// The HTTP request method. Valid traffic of this protocol is always `Post`.
#[derive(Clone, Debug, PartialEq, Eq)]
pub enum Method {
    Options,
    Get,
    Post,
    Put,
    Delete,
    Head,
    Trace,
    Connect,
    Patch,
    /// A method beyond the nine standard ones, by its name.
    Extension(String),
}

impl Method {
    /// A copy of this method.
    pub fn duplicate(&self) -> (m: Method)
        ensures
            m == *self,
    {
        match self {
            Method::Options => Method::Options,
            Method::Get => Method::Get,
            Method::Post => Method::Post,
            Method::Put => Method::Put,
            Method::Delete => Method::Delete,
            Method::Head => Method::Head,
            Method::Trace => Method::Trace,
            Method::Connect => Method::Connect,
            Method::Patch => Method::Patch,
            Method::Extension(name) => Method::Extension(name.clone()),
        }
    }

    /// Whether this is `Post`.
    pub fn is_post(&self) -> (b: bool)
        ensures
            b == (*self == Method::Post),
    {
        match self {
            Method::Post => true,
            _ => false,
        }
    }
}

/// An HTTP status code, held as its number.
#[derive(Clone, Copy, Debug, PartialEq, Eq, Structural)]
pub struct StatusCode {
    pub code: u16,
}

impl StatusCode {
    /// Whether a number lies in the success class, 200 to 299.
    pub open spec fn success_class(code: u16) -> bool {
        200 <= code < 300
    }

    pub fn from_u16(code: u16) -> (s: StatusCode)
        ensures
            s.code == code,
    {
        StatusCode { code }
    }

    pub fn as_u16(&self) -> (code: u16)
        ensures
            code == self.code,
    {
        self.code
    }

    /// True exactly for the codes 200 to 299.
    pub fn is_success(&self) -> (b: bool)
        ensures
            b == Self::success_class(self.code),
    {
        200 <= self.code && self.code < 300
    }

    /// 200 OK
    pub fn ok() -> (s: StatusCode)
        ensures
            s.code == 200,
    {
        StatusCode { code: 200 }
    }

    /// 400 Bad Request
    pub fn bad_request() -> (s: StatusCode)
        ensures
            s.code == 400,
    {
        StatusCode { code: 400 }
    }

    /// 404 Not Found
    pub fn not_found() -> (s: StatusCode)
        ensures
            s.code == 404,
    {
        StatusCode { code: 404 }
    }

    /// 415 Unsupported Media Type
    pub fn unsupported_media_type() -> (s: StatusCode)
        ensures
            s.code == 415,
    {
        StatusCode { code: 415 }
    }

    /// 500 Internal Server Error
    pub fn internal_server_error() -> (s: StatusCode)
        ensures
            s.code == 500,
    {
        StatusCode { code: 500 }
    }
}

impl Default for StatusCode {
    /// 200 OK is the status of a response that names none.
    fn default() -> (s: StatusCode)
        ensures
            s.code == 200,
    {
        StatusCode { code: 200 }
    }
}

} // verus!
