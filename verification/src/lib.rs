//! Verified core of a small registry of named links.
//!
//! The registry keeps records of a name and a link in one table and answers
//! three requests: list every record, create one, delete one by name. This
//! crate holds what those requests decide, apart from any transport:
//!
//! - `record`: the record and the body of a create request;
//! - `statement`: the statement that each request hands to storage;
//! - `handlers`: the reply to each request, from what storage answered;
//! - `status`: the status codes of the replies;
//! - `table`: the table itself, as mathematics and held in memory;
//! - `laws`: what creating, listing and deleting guarantee together.

pub mod handlers;
pub mod laws;
pub mod record;
pub mod statement;
pub mod status;
pub mod table;
