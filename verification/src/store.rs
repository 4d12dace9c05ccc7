//! The store's handle: the path of its SQLite file and, as ghost state, the
//! record of everything asked of SQLite. Only the functions here run
//! statements, and each records what it runs.

use vstd::prelude::*;
use rusqlite::Connection;
use crate::error::{AppError, ErrorKind};
use crate::sqlite::{
    SqlValue, open_connection, set_busy_timeout, set_pragma, run_batch, to_sql_params, run_execute,
    run_query, sql_error_message,
};
use crate::statements::{StoreOp, args_view};
use crate::rows::rows_view;

verus! {

/// The store, kept in the SQLite file at its path. It keeps, as ghost state,
/// everything it has asked SQLite to do, in order: each statement is
/// recorded when it is asked for, whether or not it could be carried out,
/// and a query with the rows it gave (none when it failed).
pub struct Db {
    path: String,
    log: Ghost<Seq<StoreOp>>,
}

pub(crate) fn db_error(e: &rusqlite::Error) -> (r: AppError)
    ensures
        r@.0 == ErrorKind::Database,
{
    AppError::Database(sql_error_message(e))
}

impl Db {
    /// The path of the store's file.
    pub closed spec fn path_view(&self) -> Seq<char> {
        self.path@
    }

    /// A store kept in the file at `path` (nothing is opened yet).
    pub fn new(path: String) -> (db: Db)
        ensures
            db.path_view() == path@,
            db.ops() == Seq::<StoreOp>::empty(),
    {
        Db { path, log: Ghost(Seq::empty()) }
    }

    /// The path of the store's file.
    pub fn path(&self) -> (p: &String)
        ensures
            p@ == self.path_view(),
    {
        &self.path
    }

    /// Everything handed to SQLite so far, oldest first.
    pub closed spec fn ops(&self) -> Seq<StoreOp> {
        self.log@
    }

    pub(crate) fn exec(&mut self, conn: &Connection, sql: &str, params: Vec<SqlValue>) -> (r: Result<(), AppError>)
        requires
            forall|i: int| 0 <= i < params@.len() ==> !(#[trigger] params@[i] is Other),
        ensures
            final(self).path_view() == old(self).path_view(),
            final(self).ops() == old(self).ops().push(StoreOp::Execute(sql@, args_view(params@))),
            r matches Err(e) ==> e@.0 == ErrorKind::Database,
    {
        self.log = Ghost(self.log@.push(StoreOp::Execute(sql@, args_view(params@))));
        match run_execute(conn, sql, to_sql_params(&params)) {
            Ok(_) => Ok(()),
            Err(e) => Err(db_error(&e)),
        }
    }

    pub(crate) fn query(&mut self, conn: &Connection, sql: &str, params: Vec<SqlValue>, columns: usize) -> (r: Result<Vec<Vec<SqlValue>>, AppError>)
        requires
            forall|i: int| 0 <= i < params@.len() ==> !(#[trigger] params@[i] is Other),
        ensures
            final(self).path_view() == old(self).path_view(),
            r matches Ok(rows) ==> forall|i: int| 0 <= i < rows@.len() ==> (#[trigger] rows@[i])@.len() == columns,
            r matches Ok(rows) ==> final(self).ops() == old(self).ops().push(StoreOp::Query(sql@, args_view(params@), Some(rows_view(rows@)))),
            r is Err ==> final(self).ops() == old(self).ops().push(StoreOp::Query(sql@, args_view(params@), None)),
            r matches Err(e) ==> e@.0 == ErrorKind::Database,
    {
        let ghost args = args_view(params@);
        match run_query(conn, sql, to_sql_params(&params), columns) {
            Ok(rows) => {
                self.log = Ghost(self.log@.push(StoreOp::Query(sql@, args, Some(rows_view(rows@)))));
                Ok(rows)
            },
            Err(e) => {
                self.log = Ghost(self.log@.push(StoreOp::Query(sql@, args, None)));
                Err(db_error(&e))
            },
        }
    }

    pub(crate) fn script(&mut self, conn: &Connection, sql: &str) -> (r: Result<(), AppError>)
        ensures
            final(self).path_view() == old(self).path_view(),
            final(self).ops() == old(self).ops().push(StoreOp::Script(sql@)),
            r matches Err(e) ==> e@.0 == ErrorKind::Database,
    {
        self.log = Ghost(self.log@.push(StoreOp::Script(sql@)));
        match run_batch(conn, sql) {
            Ok(_) => Ok(()),
            Err(e) => Err(db_error(&e)),
        }
    }

    /// Runs one statement on a connection of its own.
    pub(crate) fn exec_on(&mut self, sql: &str, params: Vec<SqlValue>) -> (r: Result<(), AppError>)
        requires
            forall|i: int| 0 <= i < params@.len() ==> !(#[trigger] params@[i] is Other),
        ensures
            final(self).path_view() == old(self).path_view(),
            final(self).ops() == old(self).ops().push(StoreOp::Execute(sql@, args_view(params@))),
            r matches Err(e) ==> e@.0 == ErrorKind::Database,
    {
        match self.open() {
            Ok(conn) => self.exec(&conn, sql, params),
            Err(e) => {
                self.log = Ghost(self.log@.push(StoreOp::Execute(sql@, args_view(params@))));
                Err(e)
            },
        }
    }

    /// Runs one query on a connection of its own.
    pub(crate) fn query_on(&mut self, sql: &str, params: Vec<SqlValue>, columns: usize) -> (r: Result<Vec<Vec<SqlValue>>, AppError>)
        requires
            forall|i: int| 0 <= i < params@.len() ==> !(#[trigger] params@[i] is Other),
        ensures
            final(self).path_view() == old(self).path_view(),
            r matches Ok(rows) ==> forall|i: int| 0 <= i < rows@.len() ==> (#[trigger] rows@[i])@.len() == columns,
            r matches Ok(rows) ==> final(self).ops() == old(self).ops().push(StoreOp::Query(sql@, args_view(params@), Some(rows_view(rows@)))),
            r is Err ==> final(self).ops() == old(self).ops().push(StoreOp::Query(sql@, args_view(params@), None)),
            r matches Err(e) ==> e@.0 == ErrorKind::Database,
    {
        match self.open() {
            Ok(conn) => self.query(&conn, sql, params, columns),
            Err(e) => {
                self.log = Ghost(self.log@.push(StoreOp::Query(sql@, args_view(params@), None)));
                Err(e)
            },
        }
    }

    pub(crate) fn open(&self) -> (r: Result<Connection, AppError>)
        ensures
            r matches Err(e) ==> e@.0 == ErrorKind::Database,
    {
        let conn = match open_connection(self.path.as_str()) {
            Ok(c) => c,
            Err(e) => return Err(db_error(&e)),
        };
        if let Err(e) = set_busy_timeout(&conn, 30) {
            return Err(db_error(&e));
        }
        let _ = set_pragma(&conn, "journal_mode", "WAL");
        let _ = set_pragma(&conn, "synchronous", "NORMAL");
        Ok(conn)
    }

}

} // verus!
