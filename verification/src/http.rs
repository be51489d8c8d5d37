//! Plain-value models of the HTTP surface the handler speaks: the request
//! method, the response, and the typed error that failure paths carry.
//!
//! The surrounding process converts between these and the wire types of its
//! HTTP machinery; the handler's contracts are stated over these alone.

use vstd::prelude::*;

verus! {

/// Success: the body is the decimal identifier of the stored upload.
pub const STATUS_OK: u16 = 200;

/// Client error: the request used a method other than the write method.
pub const STATUS_BAD_REQUEST: u16 = 400;

/// Server error: the storage sink could not be created, a write to it
/// failed, or a body chunk could not be read.
pub const STATUS_INTERNAL_SERVER_ERROR: u16 = 500;

/// The request method, as far as the handler distinguishes it: only the
/// write method is accepted, every other method is rejected alike.
#[derive(Clone, Copy, Debug, PartialEq, Eq, Structural)]
pub enum Method {
    Get,
    Post,
    Put,
    Delete,
    Other,
}

/// An HTTP response: a status code and a plain-text body.
pub struct Response {
    pub status: u16,
    pub body: String,
}

/// A typed failure: the status it maps to and a human-readable description.
/// Every failure path of the handler builds one of these and converts it to
/// the response at the request boundary.
pub struct Error {
    pub status: u16,
    pub message: String,
}

impl Error {
    /// Build an error carrying the given status and description.
    pub fn new(status: u16, message: String) -> (r: Error)
        ensures
            r.status == status,
            r.message@ == message@,
    {
        Error { status, message }
    }

    /// An I/O failure seen by the handler, carrying the failure's
    /// description: always a server error.
    pub fn io(message: String) -> (r: Error)
        ensures
            r.status == STATUS_INTERNAL_SERVER_ERROR,
            r.message@ == message@,
    {
        Error { status: STATUS_INTERNAL_SERVER_ERROR, message }
    }

    /// Convert the error to the response the client sees: same status, the
    /// description as the body.
    pub fn into_response(self) -> (r: Response)
        ensures
            r.status == self.status,
            r.body@ == self.message@,
    {
        Response { status: self.status, body: self.message }
    }
}

/// Build a response with the given status code and body.
pub fn response<E>(code: u16, body: String) -> (r: Result<Response, E>)
    ensures
        r is Ok,
        r->Ok_0.status == code,
        r->Ok_0.body@ == body@,
{
    Ok(Response { status: code, body })
}

/// Wrap a value in the always-successful result the service layer expects.
pub fn ok<T>(v: T) -> (r: Result<T, core::convert::Infallible>)
    ensures
        r == Ok::<T, core::convert::Infallible>(v),
{
    Ok(v)
}

} // verus!
