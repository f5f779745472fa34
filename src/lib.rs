//! A query builder and migration generator for sqlite.
//!
//! Statements are assembled clause by clause into one SQL string and one
//! positional parameter list that stay aligned; schema metadata drives the
//! generated DDL.
pub mod column;
pub mod connection;
pub mod error;
pub mod predicate;
pub mod query;
pub mod row;
pub mod schema;
pub mod text;
pub mod value;

pub use column::{count, star, Blob, Integer, Real, Text, ToColumn};
pub use connection::{connection, Connection, JournalMode, Synchronous};
pub use error::Error;
pub use predicate::{and, eq, or, WherePart};
pub use query::{first_row, Query};
pub use row::{Row, RowData};
pub use schema::{ColumnKind, ColumnSpec, Table, TableSchema};
pub use value::{Value, ValueModel};
