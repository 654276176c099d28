//! The connection to the store: opening it, laying out its tables, and the
//! trusted calls through which every statement and query passes.

use vstd::prelude::*;
use crate::error::{error_text, ErrorKind, StoreError};
use crate::value::{datum_of, Datum};

verus! {

#[verifier::external_type_specification]
#[verifier::external_body]
pub struct ExConnection(rusqlite::Connection);

/// The tables of the ledger. Every statement is guarded, so that laying them
/// out again over an existing store changes nothing. A budget belongs to one
/// note and is keyed by it; entries and budgets go when their note goes, which
/// the store sees to once foreign keys are switched on.
pub const SCHEMA: &'static str = "
    PRAGMA foreign_keys = ON;

    CREATE TABLE IF NOT EXISTS notes (
        id INTEGER PRIMARY KEY AUTOINCREMENT,
        title TEXT NOT NULL,
        created_at INTEGER NOT NULL
    );

    CREATE TABLE IF NOT EXISTS entries (
        id INTEGER PRIMARY KEY AUTOINCREMENT,
        note_id INTEGER NOT NULL,
        description TEXT NOT NULL,
        amount REAL NOT NULL,
        created_at INTEGER NOT NULL,
        FOREIGN KEY(note_id) REFERENCES notes(id) ON DELETE CASCADE
    );

    CREATE TABLE IF NOT EXISTS budgets (
        note_id INTEGER PRIMARY KEY,
        initial_amount REAL NOT NULL,
        FOREIGN KEY(note_id) REFERENCES notes(id) ON DELETE CASCADE
    );
    ";

/// The contents of a list of stored values, in order.
pub open spec fn data_of(values: Seq<rusqlite::types::Value>) -> Seq<Datum> {
    values.map_values(|v: rusqlite::types::Value| datum_of(v))
}

/// One statement for the store: its text, and the values bound to its
/// numbered parameters, first to last.
#[derive(Debug)]
pub struct Statement {
    pub sql: &'static str,
    pub params: Vec<rusqlite::types::Value>,
}

impl Statement {
    /// Whether this statement has the given text and binds exactly the given
    /// contents.
    pub open spec fn holds(&self, sql: &str, data: Seq<Datum>) -> bool {
        self.sql@ == sql@ && data_of(self.params@) == data
    }
}

/// Trusted: `Connection::open` on a path. Nothing is claimed of the outcome,
/// which depends on the file system.
#[verifier::external_body]
pub(crate) fn open_connection(path: &str) -> (r: Result<rusqlite::Connection, rusqlite::Error>)
{
    rusqlite::Connection::open(path)
}

/// Trusted: `Connection::execute_batch`. Nothing is claimed of the outcome,
/// which depends on the store.
#[verifier::external_body]
pub(crate) fn execute_batch(conn: &rusqlite::Connection, sql: &str) -> (r: Result<(), rusqlite::Error>)
{
    conn.execute_batch(sql)
}

/// Trusted: `Connection::execute` with the values bound in order. Nothing is
/// claimed of the outcome, which depends on the store.
#[verifier::external_body]
pub(crate) fn execute(conn: &rusqlite::Connection, sql: &str, params: &Vec<rusqlite::types::Value>) -> (r: Result<usize, rusqlite::Error>)
{
    conn.execute(sql, rusqlite::params_from_iter(params.iter()))
}

/// Trusted: `Connection::last_insert_rowid`. Nothing is claimed of the
/// number, which depends on the store.
#[verifier::external_body]
pub(crate) fn last_insert_rowid(conn: &rusqlite::Connection) -> (id: i64)
{
    conn.last_insert_rowid()
}

/// Trusted: `Connection::prepare` and `Statement::query_map`, each row handed
/// out as the values of its columns, left to right, and each failure to step
/// or read a row handed out in its place. Nothing is claimed of the outcome,
/// which depends on the store.
#[verifier::external_body]
pub(crate) fn query_map(conn: &rusqlite::Connection, sql: &str, params: &Vec<rusqlite::types::Value>) -> (r: Result<Vec<Result<Vec<rusqlite::types::Value>, rusqlite::Error>>, rusqlite::Error>)
{
    let mut stmt = conn.prepare(sql)?;
    let width = stmt.column_count();
    let rows = stmt.query_map(rusqlite::params_from_iter(params.iter()), |row| {
        (0..width).map(|i| row.get::<usize, rusqlite::types::Value>(i)).collect()
    })?;
    Ok(rows.collect())
}

/// Trusted: `Connection::query_row`, the one row handed out as the values of
/// its columns, left to right. Nothing is claimed of the outcome, which
/// depends on the store.
#[verifier::external_body]
pub(crate) fn query_row(conn: &rusqlite::Connection, sql: &str, params: &Vec<rusqlite::types::Value>) -> (r: Result<Vec<rusqlite::types::Value>, rusqlite::Error>)
{
    conn.query_row(sql, rusqlite::params_from_iter(params.iter()), |row| {
        (0..row.as_ref().column_count()).map(|i| row.get::<usize, rusqlite::types::Value>(i)).collect()
    })
}

/// Trusted: the system clock, read by `SystemTime::now`, turned into a
/// `chrono::DateTime<Utc>` by chrono's `From<SystemTime>` and into seconds
/// since the epoch by `DateTime::timestamp`. A clock that stands before the
/// epoch gives a negative number. Nothing is claimed of the number.
#[verifier::external_body]
pub(crate) fn now_seconds() -> (t: i64)
{
    chrono::DateTime::<chrono::Utc>::from(std::time::SystemTime::now()).timestamp()
}

/// What opening the store comes to: the connection itself, or an I/O error
/// whatever the cause, with the store's own words.
pub fn opened(outcome: Result<rusqlite::Connection, rusqlite::Error>) -> (r: Result<
    rusqlite::Connection,
    StoreError,
>)
    ensures
        match outcome {
            Ok(conn) => r == Ok::<rusqlite::Connection, StoreError>(conn),
            Err(e) => r matches Err(err) && err.kind == ErrorKind::Io && err.message@
                == error_text(e),
        },
        r matches Err(err) ==> err.from_opening(),
{
    match outcome {
        Ok(conn) => Ok(conn),
        Err(e) => Err(StoreError::from_open(&e)),
    }
}

/// What a statement that changes the store comes to. It succeeded however
/// many rows it touched: a change that finds no row to change is no failure.
pub fn written(outcome: Result<usize, rusqlite::Error>) -> (r: Result<(), StoreError>)
    ensures
        match outcome {
            Ok(_) => r is Ok,
            Err(e) => r matches Err(err) && err.stands_for(e),
        },
{
    match outcome {
        Ok(_) => Ok(()),
        Err(e) => Err(StoreError::from_db(&e)),
    }
}

/// What laying out the tables comes to: success, or the store's failure
/// sorted as any failed statement is.
pub fn laid_out(outcome: Result<(), rusqlite::Error>) -> (r: Result<(), StoreError>)
    ensures
        match outcome {
            Ok(_) => r is Ok,
            Err(e) => r matches Err(err) && err.stands_for(e),
        },
{
    match outcome {
        Ok(_) => Ok(()),
        Err(e) => Err(StoreError::from_db(&e)),
    }
}

/// What opening and laying out come to together: the connection once its
/// tables are laid out, and otherwise the failure of the layout, unchanged.
pub fn initialized(conn: rusqlite::Connection, laid: Result<(), StoreError>) -> (r: Result<
    rusqlite::Connection,
    StoreError,
>)
    ensures
        match laid {
            Ok(_) => r == Ok::<rusqlite::Connection, StoreError>(conn),
            Err(err) => r == Err::<rusqlite::Connection, StoreError>(err),
        },
{
    match laid {
        Ok(_) => Ok(conn),
        Err(err) => Err(err),
    }
}

/// Sends a statement that changes the store.
pub fn run(conn: &rusqlite::Connection, statement: &Statement) -> (r: Result<(), StoreError>)
    ensures
        r matches Err(err) ==> err.from_statement(),
{
    written(execute(conn, statement.sql, &statement.params))
}

/// Lays out the tables of the ledger on an open connection. Doing so again
/// changes nothing.
pub fn lay_out(conn: &rusqlite::Connection) -> (r: Result<(), StoreError>)
    ensures
        r matches Err(err) ==> err.from_statement(),
{
    laid_out(execute_batch(conn, SCHEMA))
}

/// Opens the store at `path`, creating the file if it is absent, and makes
/// sure that the tables of the ledger exist. Calling it again on the same
/// path gives another connection to the same store. The path `:memory:`
/// gives a store of its own that lives as long as the connection.
///
/// A failure is either an I/O error that carries the words of the store's
/// refusal to open, or the failure of the layout, sorted as any failed
/// statement is.
pub fn init_db(path: &str) -> (r: Result<rusqlite::Connection, StoreError>)
    ensures
        r matches Err(err) ==> err.from_opening() || err.from_statement(),
{
    match opened(open_connection(path)) {
        Err(err) => Err(err),
        Ok(conn) => {
            let laid = lay_out(&conn);
            initialized(conn, laid)
        },
    }
}

} // verus!
