//! The SQLite calls the store makes, through `rusqlite`. Values cross the
//! boundary as `SqlValue`; rows come back as vectors of them.

use vstd::prelude::*;
use rusqlite::Connection;
use rusqlite::types::{Value, ValueRef};

verus! {

#[verifier::external_type_specification]
#[verifier::external_body]
pub struct ExConnection(Connection);

#[verifier::external_type_specification]
#[verifier::external_body]
pub struct ExSqlError(rusqlite::Error);

#[verifier::external_type_specification]
#[verifier::external_body]
pub struct ExSqlParam(rusqlite::types::Value);

/// A value bound to a statement or read from a row. `Other` stands for a
/// stored value the store never writes (a float or a blob).
#[derive(Debug)]
pub enum SqlValue {
    Null,
    Integer(i64),
    Text(String),
    Other,
}

/// Opens the database file at `path` (`Connection::open`).
#[verifier::external_body]
pub(crate) fn open_connection(path: &str) -> Result<Connection, rusqlite::Error> {
    Connection::open(path)
}

/// Sets how long a statement waits on a locked database
/// (`Connection::busy_timeout`, which panics when the time in milliseconds
/// does not fit an `i32`).
#[verifier::external_body]
pub(crate) fn set_busy_timeout(conn: &Connection, seconds: u64) -> Result<(), rusqlite::Error>
    requires
        seconds <= 2147483,
{
    conn.busy_timeout(std::time::Duration::from_secs(seconds))
}

/// Sets a pragma of the main database (`Connection::pragma_update`).
#[verifier::external_body]
pub(crate) fn set_pragma(conn: &Connection, name: &str, value: &str) -> Result<(), rusqlite::Error> {
    conn.pragma_update(None, name, value)
}

/// Runs several statements without parameters (`Connection::execute_batch`).
#[verifier::external_body]
pub(crate) fn run_batch(conn: &Connection, sql: &str) -> Result<(), rusqlite::Error> {
    conn.execute_batch(sql)
}

/// Turns statement parameters (NULL, integers and text) into `rusqlite`
/// values, one for one.
#[verifier::external_body]
pub(crate) fn to_sql_params(params: &Vec<SqlValue>) -> (r: Vec<Value>)
    requires
        forall|i: int| 0 <= i < params@.len() ==> !(#[trigger] params@[i] is Other),
    ensures
        r@.len() == params@.len(),
{
    let mut out = Vec::with_capacity(params.len());
    for p in params.iter() {
        out.push(match p {
            SqlValue::Integer(n) => Value::Integer(*n),
            SqlValue::Text(s) => Value::Text(s.clone()),
            SqlValue::Null | SqlValue::Other => Value::Null,
        });
    }
    out
}

/// Runs one statement with parameters; gives the number of changed rows
/// (`Connection::execute`).
#[verifier::external_body]
pub(crate) fn run_execute(conn: &Connection, sql: &str, params: Vec<Value>) -> Result<usize, rusqlite::Error> {
    conn.execute(sql, rusqlite::params_from_iter(params))
}

/// Runs a query and reads the first `columns` columns of every row
/// (`Connection::prepare`, `Statement::query`, `Row::get_ref`, and `Row::get`
/// for text, which fails on text that is not UTF-8). Every row it gives has
/// `columns` values.
#[verifier::external_body]
pub(crate) fn run_query(conn: &Connection, sql: &str, params: Vec<Value>, columns: usize) -> (r: Result<Vec<Vec<SqlValue>>, rusqlite::Error>)
    ensures
        r matches Ok(rows) ==> forall|i: int| 0 <= i < rows@.len() ==> (#[trigger] rows@[i])@.len() == columns,
{
    let mut stmt = conn.prepare(sql)?;
    let mut rows = stmt.query(rusqlite::params_from_iter(params))?;
    let mut out = Vec::new();
    while let Some(row) = rows.next()? {
        let cells: Result<Vec<SqlValue>, rusqlite::Error> = (0..columns).map(|i| Ok(match row.get_ref(i)? {
            ValueRef::Null => SqlValue::Null,
            ValueRef::Integer(n) => SqlValue::Integer(n),
            ValueRef::Text(_) => SqlValue::Text(row.get(i)?),
            _ => SqlValue::Other,
        })).collect();
        out.push(cells?);
    }
    Ok(out)
}

/// The message of a database error (its `Display` text).
#[verifier::external_body]
pub(crate) fn sql_error_message(e: &rusqlite::Error) -> String {
    e.to_string()
}

} // verus!
