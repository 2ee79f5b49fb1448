//! A driver-agnostic query facade: one result shape, one error shape and one
//! connection registry for PostgreSQL, MySQL and SQLite.
//!
//! The crate holds what is decided and computed; opening connections and
//! waiting for an engine's answer is the caller's part.

pub mod driver;
pub mod error;
pub mod mysql;
pub mod postgres;
pub mod registry;
pub mod sqlite;
pub mod text;
pub mod types;

pub use driver::DatabaseDriver;
pub use error::{Error, ErrorKind};
pub use mysql::{MySQLClient, MySQLPool};
pub use registry::Registry;
pub use types::{CellValue, CellView, Column, ColumnView, QueryResult, TableView};
