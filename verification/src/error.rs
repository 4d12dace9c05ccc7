//! The library's error type: a kind and a message.

use vstd::prelude::*;
use crate::text::{chars_of, extend_str, string_from_chars};

verus! {

/// The kinds of failure the library reports.
#[derive(Clone, Copy, PartialEq, Eq, Structural, Debug)]
pub enum ErrorKind {
    Validation,
    PythonStart,
    TaskExec,
    Database,
    Io,
    Json,
}

/// A failure, with the message that explains it.
#[derive(Debug)]
pub enum AppError {
    Validation(String),
    PythonStart(String),
    TaskExec(String),
    Database(String),
    Io(String),
    Json(String),
}

impl View for AppError {
    type V = (ErrorKind, Seq<char>);

    open spec fn view(&self) -> (ErrorKind, Seq<char>) {
        match self {
            AppError::Validation(m) => (ErrorKind::Validation, m@),
            AppError::PythonStart(m) => (ErrorKind::PythonStart, m@),
            AppError::TaskExec(m) => (ErrorKind::TaskExec, m@),
            AppError::Database(m) => (ErrorKind::Database, m@),
            AppError::Io(m) => (ErrorKind::Io, m@),
            AppError::Json(m) => (ErrorKind::Json, m@),
        }
    }
}

/// The view of a validation error with message `m`.
pub open spec fn validation_error(m: Seq<char>) -> (ErrorKind, Seq<char>) {
    (ErrorKind::Validation, m)
}

/// The code that the error carries to the user interface.
pub open spec fn error_code_spec(kind: ErrorKind) -> Seq<char> {
    match kind {
        ErrorKind::Validation => "VALIDATION_ERROR"@,
        ErrorKind::PythonStart => "PYTHON_START_ERROR"@,
        ErrorKind::TaskExec => "TASK_EXEC_ERROR"@,
        ErrorKind::Database => "DB_ERROR"@,
        ErrorKind::Io => "IO_ERROR"@,
        ErrorKind::Json => "JSON_ERROR"@,
    }
}

/// The prefix that the error's display text puts before its message.
pub open spec fn error_prefix_spec(kind: ErrorKind) -> Seq<char> {
    match kind {
        ErrorKind::Validation => "validation error: "@,
        ErrorKind::PythonStart => "python start error: "@,
        ErrorKind::TaskExec => "task execution error: "@,
        ErrorKind::Database => "database error: "@,
        ErrorKind::Io => "io error: "@,
        ErrorKind::Json => "json error: "@,
    }
}

/// A validation error with the given message.
pub fn validation(msg: &str) -> (e: AppError)
    ensures
        e@ == validation_error(msg@),
{
    AppError::Validation(msg.to_owned())
}

/// A task-execution error with the given message.
pub fn task_exec(msg: &str) -> (e: AppError)
    ensures
        e@ == (ErrorKind::TaskExec, msg@),
{
    AppError::TaskExec(msg.to_owned())
}

/// A database error with the given message.
pub fn database(msg: &str) -> (e: AppError)
    ensures
        e@ == (ErrorKind::Database, msg@),
{
    AppError::Database(msg.to_owned())
}

impl AppError {
    /// The error's kind.
    pub fn kind(&self) -> (k: ErrorKind)
        ensures
            k == self@.0,
    {
        match self {
            AppError::Validation(_) => ErrorKind::Validation,
            AppError::PythonStart(_) => ErrorKind::PythonStart,
            AppError::TaskExec(_) => ErrorKind::TaskExec,
            AppError::Database(_) => ErrorKind::Database,
            AppError::Io(_) => ErrorKind::Io,
            AppError::Json(_) => ErrorKind::Json,
        }
    }

    /// The bare message, without the kind's prefix.
    pub fn detail(&self) -> (m: &String)
        ensures
            m@ == self@.1,
    {
        match self {
            AppError::Validation(m) => m,
            AppError::PythonStart(m) => m,
            AppError::TaskExec(m) => m,
            AppError::Database(m) => m,
            AppError::Io(m) => m,
            AppError::Json(m) => m,
        }
    }

    /// The code sent to the user interface with the error.
    pub fn code(&self) -> (c: &'static str)
        ensures
            c@ == error_code_spec(self@.0),
    {
        match self {
            AppError::Validation(_) => "VALIDATION_ERROR",
            AppError::PythonStart(_) => "PYTHON_START_ERROR",
            AppError::TaskExec(_) => "TASK_EXEC_ERROR",
            AppError::Database(_) => "DB_ERROR",
            AppError::Io(_) => "IO_ERROR",
            AppError::Json(_) => "JSON_ERROR",
        }
    }

    /// The display text: the kind's prefix, then the message.
    pub fn message(&self) -> (s: String)
        ensures
            s@ == error_prefix_spec(self@.0) + self@.1,
    {
        let prefix = match self {
            AppError::Validation(_) => "validation error: ",
            AppError::PythonStart(_) => "python start error: ",
            AppError::TaskExec(_) => "task execution error: ",
            AppError::Database(_) => "database error: ",
            AppError::Io(_) => "io error: ",
            AppError::Json(_) => "json error: ",
        };
        let mut v = chars_of(prefix);
        extend_str(&mut v, self.detail().as_str());
        string_from_chars(&v)
    }
}

} // verus!
