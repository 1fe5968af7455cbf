//! The status codes with which the registry answers a request.

use vstd::prelude::*;

verus! {

/// The HTTP status of a reply that reports a failure.
#[derive(Clone, Copy, Debug, PartialEq, Eq, Structural)]
pub enum StatusCode {
    /// 400: storage refused the new record.
    BadRequest,
    /// 404: no record has the given name.
    NotFound,
    /// 500: storage failed while deleting.
    InternalServerError,
}

impl View for StatusCode {
    type V = StatusCode;

    open spec fn view(&self) -> StatusCode {
        *self
    }
}

impl StatusCode {
    /// The number that goes on the wire.
    pub open spec fn number(self) -> int {
        match self {
            StatusCode::BadRequest => 400,
            StatusCode::NotFound => 404,
            StatusCode::InternalServerError => 500,
        }
    }

    /// The status as the number that goes on the wire.
    pub fn as_u16(&self) -> (code: u16)
        ensures
            code == self.number(),
    {
        match self {
            StatusCode::BadRequest => 400,
            StatusCode::NotFound => 404,
            StatusCode::InternalServerError => 500,
        }
    }
}

/// The status number of a reply: 200 for a success, and the number of its
/// status code for a failure.
pub open spec fn reply_status<T>(reply: Result<T, (StatusCode, String)>) -> int {
    match reply {
        Ok(_) => 200,
        Err((status, _)) => status.number(),
    }
}

/// The status number to send with `reply`.
pub fn status_of<T>(reply: &Result<T, (StatusCode, String)>) -> (code: u16)
    ensures
        code == reply_status(*reply),
{
    match reply {
        Ok(_) => 200,
        Err((status, _)) => status.as_u16(),
    }
}

} // verus!
