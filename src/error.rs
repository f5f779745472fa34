//! The errors the library reports.
use vstd::prelude::*;

verus! {

/// What went wrong with a statement or its connection.
#[derive(Debug)]
pub enum Error {
    /// The connection was closed and cannot be queried any more.
    ConnectionClosed,
    /// Closing the connection failed, with the driver's message.
    Close(String),
    /// The database reported an error, with its message.
    Database(String),
    /// A query that needs a `from` clause has none.
    MissingFrom,
    /// An insert or update produced no row, with the statement.
    InsertError(String),
}

impl Error {
    /// The human-readable description of the error.
    pub fn message(&self) -> (r: String)
        ensures
            r@ == match self {
                Error::ConnectionClosed => "database connection closed"@,
                Error::Close(m) => "database connection closing: "@ + m@,
                Error::Database(m) => "database error: "@ + m@,
                Error::MissingFrom => "missing from statement in sql query"@,
                Error::InsertError(m) => "error inserting record "@ + m@,
            },
    {
        match self {
            Error::ConnectionClosed => String::from_str("database connection closed"),
            Error::Close(m) => {
                let mut r = String::from_str("database connection closing: ");
                r.append(m.as_str());
                r
            },
            Error::Database(m) => {
                let mut r = String::from_str("database error: ");
                r.append(m.as_str());
                r
            },
            Error::MissingFrom => String::from_str("missing from statement in sql query"),
            Error::InsertError(m) => {
                let mut r = String::from_str("error inserting record ");
                r.append(m.as_str());
                r
            },
        }
    }
}

} // verus!
