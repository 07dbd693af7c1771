//! The reply sent back to an HTTP client.

use vstd::prelude::*;

verus! {

/// Status code of a request that was served.
pub const STATUS_OK: u16 = 200;

/// Status code of a request whose payload could not be understood.
pub const STATUS_BAD_REQUEST: u16 = 400;

/// Status code of a request that failed on the server's side.
pub const STATUS_INTERNAL_SERVER_ERROR: u16 = 500;

/// An HTTP response: a status code and the bytes of the body.
#[derive(Clone, Debug, PartialEq, Eq)]
pub struct Response {
    pub status: u16,
    pub body: Vec<u8>,
}

impl Response {
    /// The response is exactly `status` with a body of length zero.
    pub open spec fn is_empty_with(&self, status: u16) -> bool {
        self.status == status && self.body@ == Seq::<u8>::empty()
    }

    /// A response that carries `status` and no body.
    pub fn empty(status: u16) -> (response: Response)
        ensures
            response.is_empty_with(status),
    {
        Response { status, body: Vec::new() }
    }

    /// `200 OK` without a body.
    pub fn ok() -> (response: Response)
        ensures
            response.is_empty_with(STATUS_OK),
    {
        Response::empty(STATUS_OK)
    }

    /// `400 Bad Request` without a body.
    pub fn bad_request() -> (response: Response)
        ensures
            response.is_empty_with(STATUS_BAD_REQUEST),
    {
        Response::empty(STATUS_BAD_REQUEST)
    }

    /// `500 Internal Server Error` without a body.
    pub fn internal_server_error() -> (response: Response)
        ensures
            response.is_empty_with(STATUS_INTERNAL_SERVER_ERROR),
    {
        Response::empty(STATUS_INTERNAL_SERVER_ERROR)
    }
}

} // verus!
