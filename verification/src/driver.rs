//! The calls into `rusqlite`. Nothing in this module is proved: each item
//! states what the driver's source shows, and the rest of the library is
//! verified against these statements.

use vstd::prelude::*;
use crate::error::FaultKind;
use crate::record::RowValues;

verus! {

/// `rusqlite::Connection`, an open database handle. Nothing is known of
/// what is inside.
#[verifier::external_type_specification]
#[verifier::external_body]
pub struct ExConnection(rusqlite::Connection);

/// `rusqlite::Statement`, a prepared statement bound to its connection.
#[verifier::external_type_specification]
#[verifier::external_body]
pub struct ExStatement<'conn>(rusqlite::Statement<'conn>);

/// `rusqlite::Error`, the driver's error type.
#[verifier::external_type_specification]
#[verifier::external_body]
pub struct ExDriverError(rusqlite::Error);

/// `Connection::open_in_memory`: a connection to a new transient database.
/// The driver may fail, so nothing is claimed of the result.
#[verifier::external_body]
pub(crate) fn open_in_memory() -> Result<rusqlite::Connection, rusqlite::Error> {
    rusqlite::Connection::open_in_memory()
}

/// `Connection::open`: a connection to the database file at `path`, which is
/// created if it does not exist. The driver turns the path into a C string
/// before anything else and fails where it cannot, so a path that holds a
/// NUL character is refused. Nothing else is claimed of the result.
#[verifier::external_body]
pub(crate) fn open_file(path: &str) -> (res: Result<rusqlite::Connection, rusqlite::Error>)
    ensures
        path@.contains('\0') ==> res is Err,
{
    rusqlite::Connection::open(path)
}

/// `Connection::execute` without parameters: prepares and runs one statement
/// and returns the number of rows it changed. Nothing is claimed of the
/// result.
#[verifier::external_body]
pub(crate) fn execute(conn: &rusqlite::Connection, sql: &str) -> Result<usize, rusqlite::Error> {
    conn.execute(sql, ())
}

/// `Connection::prepare`: compiles one statement. Nothing is claimed of the
/// result.
#[verifier::external_body]
pub(crate) fn prepare<'conn>(conn: &'conn rusqlite::Connection, sql: &str) -> Result<
    rusqlite::Statement<'conn>,
    rusqlite::Error,
> {
    conn.prepare(sql)
}

/// `Statement::insert` with the three values of a record as positional
/// parameters: runs the statement and returns the row identifier that SQLite
/// assigned. Nothing is claimed of the result.
#[verifier::external_body]
pub(crate) fn insert(
    stmt: &mut rusqlite::Statement<'_>,
    title: &str,
    description: &str,
    complete: bool,
) -> Result<i64, rusqlite::Error> {
    stmt.insert((title, description, complete))
}

/// `Connection::query_row` with one integer parameter: the four columns of
/// the first row that the query yields. Nothing is claimed of the result.
#[verifier::external_body]
pub(crate) fn query_row(conn: &rusqlite::Connection, sql: &str, id: i64) -> Result<
    RowValues,
    rusqlite::Error,
> {
    conn.query_row(sql, [id], |row| Ok((row.get(0)?, row.get(1)?, row.get(2)?, row.get(3)?)))
}

/// `Statement::query_map` without parameters: the four columns of every row
/// that the statement yields, each row with the failure of reading it, in
/// the order in which SQLite hands the rows out. Nothing is claimed of the
/// result.
#[verifier::external_body]
pub(crate) fn query_rows(stmt: &mut rusqlite::Statement<'_>) -> Result<
    Vec<Result<RowValues, rusqlite::Error>>,
    rusqlite::Error,
> {
    let rows = stmt.query_map([], |row| Ok((row.get(0)?, row.get(1)?, row.get(2)?, row.get(3)?)))?;
    Ok(rows.collect())
}

/// Tells the variants of `rusqlite::Error` apart, and picks the extended
/// result code out of an engine failure.
#[verifier::external_body]
pub(crate) fn fault_kind(error: &rusqlite::Error) -> FaultKind {
    match error {
        rusqlite::Error::QueryReturnedNoRows => FaultKind::NoRows,
        rusqlite::Error::SqliteFailure(failure, _) => FaultKind::Engine {
            extended_code: failure.extended_code,
        },
        _ => FaultKind::Other,
    }
}

/// The `Display` text of a `rusqlite::Error`.
#[verifier::external_body]
pub(crate) fn fault_message(error: &rusqlite::Error) -> String {
    error.to_string()
}

} // verus!
