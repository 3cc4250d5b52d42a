//! Requests and responses as plain values, for a transport to carry.

use vstd::prelude::*;

verus! {

/// The method of a request.
#[derive(Clone, Copy, Debug, PartialEq, Eq, Structural)]
pub enum Method {
    Get,
    Post,
    Delete,
}

impl Method {
    /// The method's name on the wire.
    pub open spec fn name(self) -> Seq<char> {
        match self {
            Method::Get => "GET"@,
            Method::Post => "POST"@,
            Method::Delete => "DELETE"@,
        }
    }

    /// The method's name on the wire.
    pub fn as_str(&self) -> (r: &'static str)
        ensures
            r@ == self.name(),
    {
        match self {
            Method::Get => "GET",
            Method::Post => "POST",
            Method::Delete => "DELETE",
        }
    }
}

/// One header of a request.
#[derive(Clone, Debug)]
pub struct Header {
    pub name: String,
    pub value: String,
}

/// A request to send: the body, where there is one, is JSON text.
#[derive(Clone, Debug)]
pub struct Request {
    pub method: Method,
    pub url: String,
    pub headers: Vec<Header>,
    pub body: Option<String>,
}

/// What the body of a failure says, where it is a JSON object.
#[derive(Clone, Debug)]
pub struct ApiError {
    pub message: Option<String>,
}

/// What came back: the status, the body as text, and the body as the
/// report of a failure, where it can be read as one.
#[derive(Clone, Debug)]
pub struct Response {
    pub status: u16,
    pub body: String,
    pub error: Option<ApiError>,
}

/// Whether `status` reports success: 200 to 299.
pub open spec fn is_success(status: u16) -> bool {
    200 <= status < 300
}

/// The message of a failed response: the message that its report of the
/// failure holds, or else the whole body.
pub open spec fn failure_message(response: Response) -> Seq<char> {
    match response.error {
        Some(ApiError { message: Some(m) }) => m@,
        _ => response.body@,
    }
}

/// Whether `status` reports success.
pub fn reports_success(status: u16) -> (r: bool)
    ensures
        r == is_success(status),
{
    200 <= status && status < 300
}

impl Response {
    /// Whether the status reports success.
    pub fn is_success(&self) -> (r: bool)
        ensures
            r == is_success(self.status),
    {
        reports_success(self.status)
    }

    /// The message of a failed response.
    pub fn into_failure_message(self) -> (message: String)
        ensures
            message@ == failure_message(self),
    {
        match self.error {
            Some(ApiError { message: Some(m) }) => m,
            _ => self.body,
        }
    }
}

} // verus!
