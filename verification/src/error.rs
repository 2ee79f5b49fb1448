//! One error for every engine, told apart by where the failure arose and
//! rendered as a single line of text.

use mysql_async::Error as MysqlError;
use std::error::Error as StdError;
use tokio_postgres::Error as PostgresError;
use tokio_rusqlite::rusqlite::Error as EngineSqliteError;
use tokio_rusqlite::Error as SqliteError;
use vstd::prelude::*;

verus! {

/// Where a failure arose.
#[derive(Clone, Copy, Debug, PartialEq, Eq, Structural)]
pub enum ErrorKind {
    /// The engine or its driver refused: connection, authentication, SQL,
    /// constraint or protocol.
    Engine,
    /// No connection is registered under the key that was asked for.
    NotFound,
    /// Local input or output failed.
    Io,
}

/// A failure of `connect` or `query`.
///
/// The engine variants carry the driver's own message. `SQLite` carries in
/// addition the message of the error's cause, where it has one: the driver
/// wraps the engine's error, and the cause is what the engine said.
#[derive(Clone, Debug, PartialEq, Eq)]
pub enum Error {
    Postgres(String),
    MySQL(String),
    SQLite { text: String, source: Option<String> },
    Io(String),
    NotFound,
}

/// The driver's error type.
#[verifier::external_type_specification]
#[verifier::external_body]
pub struct ExMysqlError(MysqlError);

/// The PostgreSQL driver's error type.
#[verifier::external_type_specification]
#[verifier::external_body]
pub struct ExPostgresError(PostgresError);

/// The error type of the engine's own binding.
#[verifier::external_type_specification]
#[verifier::external_body]
pub struct ExEngineSqliteError(EngineSqliteError);

/// The error type of the driver that runs the binding on its own thread.
#[verifier::external_type_specification]
#[verifier::external_body]
#[verifier::reject_recursive_types(E)]
pub struct ExSqliteError<E>(SqliteError<E>);

/// `mysql_async::Error`'s `Display`, through `to_string`: the driver's
/// message. Nothing is claimed of the text: for a failure of input or output
/// it holds the platform's own message for the failure.
#[verifier::external_body]
fn mysql_error_text(err: &MysqlError) -> String {
    err.to_string()
}

/// What the PostgreSQL driver says of a failure: a fixed sentence for the
/// kind of failure, with the number or the name that the kind carries.
pub uninterp spec fn postgres_says(err: PostgresError) -> Seq<char>;

/// `tokio_postgres::Error`'s `Display`, through `to_string`: what the driver
/// says of the failure. The text is named, not stated.
#[verifier::external_body]
fn postgres_error_text(err: &PostgresError) -> (text: String)
    ensures
        text@ == postgres_says(*err),
{
    err.to_string()
}

/// `rusqlite::Error`'s `Display`, through `to_string`: the engine's message.
/// Nothing is claimed of the text: an error of the engine's binding may
/// hold any other error and shows what that one shows.
#[verifier::external_body]
fn engine_error_text(err: &EngineSqliteError) -> String {
    err.to_string()
}

/// `tokio_rusqlite::Error`'s `Display`, through `to_string`: the driver's
/// message. Nothing is claimed of the text: it holds what the engine's
/// error shows.
#[verifier::external_body]
fn sqlite_error_text(err: &SqliteError) -> String {
    err.to_string()
}

/// `tokio_rusqlite::Error`'s `source`: the message of the error that the
/// driver wraps, where it wraps one. Nothing is claimed of the result.
#[verifier::external_body]
fn sqlite_error_source_text(err: &SqliteError) -> Option<String> {
    err.source().map(|cause| cause.to_string())
}

impl Error {
    /// The kind of this error.
    pub open spec fn spec_kind(self) -> ErrorKind {
        match self {
            Error::Postgres(_) => ErrorKind::Engine,
            Error::MySQL(_) => ErrorKind::Engine,
            Error::SQLite { .. } => ErrorKind::Engine,
            Error::Io(_) => ErrorKind::Io,
            Error::NotFound => ErrorKind::NotFound,
        }
    }

    /// The text this error is rendered as: the message it carries; for
    /// `SQLite` the cause's message where there is a cause; for `NotFound` a
    /// fixed sentence.
    pub open spec fn spec_message(self) -> Seq<char> {
        match self {
            Error::Postgres(text) => text@,
            Error::MySQL(text) => text@,
            Error::SQLite { text, source } => match source {
                Some(cause) => cause@,
                None => text@,
            },
            Error::Io(text) => text@,
            Error::NotFound => "client not found"@,
        }
    }

    /// Where this failure arose.
    pub fn kind(&self) -> (kind: ErrorKind)
        ensures
            kind == self.spec_kind(),
    {
        match self {
            Error::Postgres(_) => ErrorKind::Engine,
            Error::MySQL(_) => ErrorKind::Engine,
            Error::SQLite { .. } => ErrorKind::Engine,
            Error::Io(_) => ErrorKind::Io,
            Error::NotFound => ErrorKind::NotFound,
        }
    }

    /// Renders this error as the one line of text that callers display.
    pub fn message(&self) -> (text: String)
        ensures
            text@ == self.spec_message(),
    {
        match self {
            Error::Postgres(text) => text.clone(),
            Error::MySQL(text) => text.clone(),
            Error::SQLite { text, source } => match source {
                Some(cause) => cause.clone(),
                None => text.clone(),
            },
            Error::Io(text) => text.clone(),
            Error::NotFound => "client not found".to_owned(),
        }
    }

    /// The error of the MySQL driver that says `text`.
    pub fn mysql(text: String) -> (error: Error)
        ensures
            error == Error::MySQL(text),
    {
        Error::MySQL(text)
    }

    /// The error of the SQLite driver that says `text` and, where it has a
    /// cause, was caused by what says `source`.
    pub fn sqlite(text: String, source: Option<String>) -> (error: Error)
        ensures
            error == (Error::SQLite { text, source }),
    {
        Error::SQLite { text, source }
    }

    /// The error of local input or output that says `text`.
    pub fn io(text: String) -> (error: Error)
        ensures
            error == Error::Io(text),
    {
        Error::Io(text)
    }

    /// The error for a failure that the PostgreSQL driver reported: it
    /// carries what the driver says, unchanged.
    pub fn from_postgres(err: &PostgresError) -> (error: Error)
        ensures
            error matches Error::Postgres(text) && text@ == postgres_says(*err),
            error.spec_message() == postgres_says(*err),
    {
        Error::Postgres(postgres_error_text(err))
    }

    /// The error for a database file that the embedded engine could not
    /// open: local input or output failed. It carries the engine's message;
    /// [`Error::io`] says what the error is for each message.
    pub fn from_open(err: &EngineSqliteError) -> (error: Error)
        ensures
            error is Io,
    {
        Error::io(engine_error_text(err))
    }

    /// The error for a failure that the MySQL driver reported. It carries
    /// the driver's message; [`Error::mysql`] says what the error is for
    /// each message.
    pub fn from_mysql(err: &MysqlError) -> (error: Error)
        ensures
            error is MySQL,
    {
        Error::mysql(mysql_error_text(err))
    }

    /// The error for a failure that the SQLite driver reported. It carries
    /// the driver's message, and its cause's message where it has a cause;
    /// [`Error::sqlite`] says what the error is for each pair of them.
    pub fn from_sqlite(err: &SqliteError) -> (error: Error)
        ensures
            error is SQLite,
    {
        let text = sqlite_error_text(err);
        let source = sqlite_error_source_text(err);
        Error::sqlite(text, source)
    }
}

} // verus!
