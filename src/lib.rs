//! A small facade over an embedded SQLite database: default location
//! resolution, facade state, and the decisions taken around driver calls.

pub mod database;
pub mod error;
pub mod path;

pub use database::{optional_row, single_row, Database, DatabaseConnection, MAX_CONNECTIONS};
pub use error::DatabaseError;
pub use path::{get_default_database_path, is_windows, resolve_database_path};
