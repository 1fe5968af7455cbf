//! The statements that the registry hands to storage.
//!
//! A statement is SQL text with placeholders `$1`, `$2`, ... and the values
//! to bind to them, in that order. The caller runs it and gives the outcome
//! to the handler of the request.

use vstd::prelude::*;
use vstd::string::*;
use crate::record::CreateService;

verus! {

/// SQL text and the values bound to its placeholders, in order.
#[derive(Debug, PartialEq, Eq)]
pub struct Statement {
    pub sql: String,
    pub parameters: Vec<String>,
}

/// The texts that a list of strings stands for, in the same order.
pub open spec fn texts(strings: Seq<String>) -> Seq<Seq<char>> {
    strings.map_values(|string: String| string@)
}

/// The SQL that creates the table of services unless it exists already.
pub open spec fn create_table_sql() -> Seq<char> {
    "CREATE TABLE IF NOT EXISTS services (id SERIAL PRIMARY KEY, name TEXT UNIQUE NOT NULL, link TEXT UNIQUE NOT NULL)"@
}

/// The SQL that reads every row.
pub open spec fn select_sql() -> Seq<char> {
    "SELECT * FROM services"@
}

/// The SQL that inserts a row with name `$1` and link `$2` and returns it.
pub open spec fn insert_sql() -> Seq<char> {
    "INSERT INTO services (name, link) VALUES ($1, $2) RETURNING *"@
}

/// The SQL that deletes the row with name `$1`.
pub open spec fn delete_sql() -> Seq<char> {
    "DELETE FROM services WHERE name = $1"@
}

/// The statement to run once at start: it creates the table of services if
/// storage has none, and changes nothing if it has one.
pub fn create_table_statement() -> (statement: Statement)
    ensures
        statement.sql@ == create_table_sql(),
        statement.parameters@.len() == 0,
{
    Statement {
        sql: String::from_str(
            "CREATE TABLE IF NOT EXISTS services (id SERIAL PRIMARY KEY, name TEXT UNIQUE NOT NULL, link TEXT UNIQUE NOT NULL)",
        ),
        parameters: Vec::new(),
    }
}

/// The statement of a list request.
pub fn select_statement() -> (statement: Statement)
    ensures
        statement.sql@ == select_sql(),
        statement.parameters@.len() == 0,
{
    Statement { sql: String::from_str("SELECT * FROM services"), parameters: Vec::new() }
}

/// The statement of a request to create the record in `payload`.
pub fn insert_statement(payload: &CreateService) -> (statement: Statement)
    ensures
        statement.sql@ == insert_sql(),
        texts(statement.parameters@) == seq![payload.name@, payload.link@],
{
    let mut parameters: Vec<String> = Vec::new();
    parameters.push(payload.name.clone());
    parameters.push(payload.link.clone());
    Statement {
        sql: String::from_str("INSERT INTO services (name, link) VALUES ($1, $2) RETURNING *"),
        parameters,
    }
}

/// The statement of a request to delete the record called `name`.
pub fn delete_statement(name: &str) -> (statement: Statement)
    ensures
        statement.sql@ == delete_sql(),
        texts(statement.parameters@) == seq![name@],
{
    let mut parameters: Vec<String> = Vec::new();
    parameters.push(String::from_str(name));
    Statement { sql: String::from_str("DELETE FROM services WHERE name = $1"), parameters }
}

} // verus!
