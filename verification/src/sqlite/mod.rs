//! The SQLite backend.

pub mod database;
pub mod types;
pub mod value;

pub use database::Sqlite;
pub use types::{SqliteType, SqliteTypeAffinity, SqliteTypeInfo};
pub use value::SqliteValue;
