//! The three request handlers, as decisions on what storage answered.
//!
//! A handler here does not talk to storage. Its caller runs the statement of
//! the request and hands over what came back: the rows, the new row or the
//! number of rows removed on success, the text of storage's error otherwise.
//! The handler decides the reply.

use vstd::prelude::*;
use vstd::string::*;
use crate::record::{result_view, Service};
use crate::status::StatusCode;

verus! {

/// The reply to a list request: every row that storage returned, in its
/// order. A failure of storage is not reported: the reply is then the empty
/// list, which a caller cannot tell from an empty registry.
pub open spec fn list_reply<T>(fetched: Result<Seq<T>, Seq<char>>) -> Seq<T> {
    match fetched {
        Ok(rows) => rows,
        Err(_) => Seq::empty(),
    }
}

/// The reply to a create request: the new record as storage returned it, or,
/// whatever made storage fail, a bad request that carries storage's own text.
/// A duplicate and a lost connection are thus answered alike, and the client
/// sees the text of storage's error as it is.
pub open spec fn create_reply<T>(inserted: Result<T, Seq<char>>) -> Result<
    T,
    (StatusCode, Seq<char>),
> {
    match inserted {
        Ok(row) => Ok(row),
        Err(text) => Err((StatusCode::BadRequest, "Failed to insert: "@ + text)),
    }
}

/// The reply to a request to delete the record called `name`: a confirmation
/// that names it if storage removed a row, not found if it removed none, and
/// an internal error with storage's own text if it failed.
pub open spec fn delete_reply(name: Seq<char>, outcome: Result<u64, Seq<char>>) -> Result<
    Seq<char>,
    (StatusCode, Seq<char>),
> {
    match outcome {
        Ok(rows_affected) => if rows_affected > 0 {
            Ok("Deleted '"@ + name + "'"@)
        } else {
            Err((StatusCode::NotFound, "Service not found"@))
        },
        Err(text) => Err((StatusCode::InternalServerError, text)),
    }
}

/// Answers a list request from what storage returned for it.
///
/// Note that a storage failure is swallowed here and answered as an empty
/// list with a success status. Callers that need to tell the two apart must
/// look at `fetched` themselves.
pub fn get_services(fetched: Result<Vec<Service>, String>) -> (listed: Vec<Service>)
    ensures
        listed@ == list_reply(result_view(fetched)),
{
    match fetched {
        Ok(rows) => rows,
        Err(_) => Vec::new(),
    }
}

/// Answers a create request from what storage returned for the insertion.
pub fn create_service(inserted: Result<Service, String>) -> (reply: Result<
    Service,
    (StatusCode, String),
>)
    ensures
        result_view(reply) == create_reply(result_view(inserted)),
        inserted matches Ok(row) ==> reply == Ok::<Service, (StatusCode, String)>(row),
{
    match inserted {
        Ok(row) => Ok(row),
        Err(text) => {
            let body = String::from_str("Failed to insert: ").concat(text.as_str());
            Err((StatusCode::BadRequest, body))
        },
    }
}

/// Answers a request to delete the record called `name` from what storage
/// returned for the deletion: the number of rows it removed, or its error.
pub fn delete_service(name: &str, outcome: Result<u64, String>) -> (reply: Result<
    String,
    (StatusCode, String),
>)
    ensures
        result_view(reply) == delete_reply(name@, result_view(outcome)),
{
    match outcome {
        Ok(rows_affected) => {
            if rows_affected > 0 {
                Ok(String::from_str("Deleted '").concat(name).concat("'"))
            } else {
                Err((StatusCode::NotFound, String::from_str("Service not found")))
            }
        },
        Err(text) => Err((StatusCode::InternalServerError, text)),
    }
}

} // verus!
