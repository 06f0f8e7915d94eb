//! The embedded SQL store's types and the calls made into it.
use vstd::prelude::*;

verus! {

/// An open connection to the store.
#[verifier::external_type_specification]
#[verifier::external_body]
pub struct ExConnection(rusqlite::Connection);

/// An error reported by the store.
#[verifier::external_type_specification]
#[verifier::external_body]
pub struct ExSqlError(rusqlite::Error);

/// A value bound to a statement parameter.
#[derive(Debug)]
pub enum SqlValue {
    /// SQL NULL.
    Null,
    /// A signed integer.
    Integer(i64),
    /// A text string.
    Text(String),
    /// A blob of bytes.
    Blob(Vec<u8>),
}

/// Relies on rusqlite::Connection::execute_batch: runs the statements of
/// `sql` in order, stopping at the first that fails.
#[verifier::external_body]
pub(crate) fn execute_batch(conn: &rusqlite::Connection, sql: &str) -> (r: Result<(), rusqlite::Error>) {
    conn.execute_batch(sql)
}

/// Relies on rusqlite::Connection::execute: runs one statement with the
/// values bound in order, and returns the number of rows it changed.
#[verifier::external_body]
pub(crate) fn execute(conn: &rusqlite::Connection, sql: &str, args: Vec<SqlValue>) -> (r: Result<usize, rusqlite::Error>) {
    let values = args.into_iter().map(|a| match a {
        SqlValue::Null => rusqlite::types::Value::Null,
        SqlValue::Integer(i) => rusqlite::types::Value::Integer(i),
        SqlValue::Text(t) => rusqlite::types::Value::Text(t),
        SqlValue::Blob(b) => rusqlite::types::Value::Blob(b),
    });
    conn.execute(sql, rusqlite::params_from_iter(values))
}

/// Relies on rusqlite::Connection::last_insert_rowid: the row id of the most
/// recent successful insert on this connection.
#[verifier::external_body]
pub(crate) fn last_insert_rowid(conn: &rusqlite::Connection) -> (r: i64) {
    conn.last_insert_rowid()
}

/// Relies on rusqlite::Connection::query_row: the first column of the first
/// row that `sql` returns, read as an unsigned integer.
#[verifier::external_body]
pub(crate) fn query_usize(conn: &rusqlite::Connection, sql: &str) -> (r: Result<usize, rusqlite::Error>) {
    conn.query_row(sql, [], |row| row.get(0))
}

} // verus!
