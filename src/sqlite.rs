//! The calls into rusqlite that the bridge makes, each behind a small
//! trusted item. What a query returns depends on the store's contents, so
//! these promise nothing of their results: the verified callers decide on
//! every outcome.

use vstd::prelude::*;
use crate::errors::StoreFault;

verus! {

/// rusqlite's connection handle, carried through opaquely.
#[verifier::external_type_specification]
#[verifier::external_body]
pub struct ExConnection(rusqlite::Connection);

/// rusqlite's error type, carried through opaquely.
#[verifier::external_type_specification]
#[verifier::external_body]
pub struct ExSqlError(rusqlite::Error);

/// Relies on rusqlite::Error's variant `QueryReturnedNoRows` and its
/// `Display` text, to tell a missing row from other failures.
#[verifier::external_body]
pub(crate) fn fault_of(e: rusqlite::Error) -> (r: StoreFault) {
    match e {
        rusqlite::Error::QueryReturnedNoRows => StoreFault::NoRows,
        other => StoreFault::Failure(other.to_string()),
    }
}

/// Relies on rusqlite::Connection::query_row with the texts of `params` as
/// positional parameters, reading column 0 of the first row as a bool.
#[verifier::external_body]
pub(crate) fn query_bool(conn: &rusqlite::Connection, sql: &str, params: &[String]) -> (r: Result<bool, rusqlite::Error>) {
    conn.query_row(sql, rusqlite::params_from_iter(params.iter()), |row| row.get::<_, bool>(0))
}

/// Relies on rusqlite::Connection::query_row with the texts of `params` as
/// positional parameters, reading column 0 of the first row as a u32.
#[verifier::external_body]
pub(crate) fn query_u32(conn: &rusqlite::Connection, sql: &str, params: &[String]) -> (r: Result<u32, rusqlite::Error>) {
    conn.query_row(sql, rusqlite::params_from_iter(params.iter()), |row| row.get::<_, u32>(0))
}

/// Relies on rusqlite::Connection::query_row with the texts of `params` as
/// positional parameters, reading column 0 of the first row as an i64.
#[verifier::external_body]
pub(crate) fn query_i64(conn: &rusqlite::Connection, sql: &str, params: &[String]) -> (r: Result<i64, rusqlite::Error>) {
    conn.query_row(sql, rusqlite::params_from_iter(params.iter()), |row| row.get::<_, i64>(0))
}

/// Relies on rusqlite::Connection::query_row with the texts of `params` as
/// positional parameters, reading column 0 of the first row as a nullable
/// i64.
#[verifier::external_body]
pub(crate) fn query_nullable_i64(conn: &rusqlite::Connection, sql: &str, params: &[String]) -> (r: Result<Option<i64>, rusqlite::Error>) {
    conn.query_row(sql, rusqlite::params_from_iter(params.iter()), |row| row.get::<_, Option<i64>>(0))
}

/// Relies on rusqlite::Connection::execute_batch: runs the statements of
/// `sql` in order.
#[verifier::external_body]
pub(crate) fn run_batch(conn: &rusqlite::Connection, sql: &str) -> (r: Result<(), rusqlite::Error>) {
    conn.execute_batch(sql)
}

/// Relies on rusqlite::Connection::execute with the texts of `params` as
/// positional parameters; it reports failures as errors and does not panic.
#[verifier::external_body]
pub(crate) fn run(conn: &rusqlite::Connection, sql: &str, params: &Vec<String>) -> (r: Result<usize, rusqlite::Error>)
    opens_invariants none
    no_unwind
{
    conn.execute(sql, rusqlite::params_from_iter(params.iter()))
}

} // verus!
