//! The bundle of types of the SQLite backend.

use crate::database::Database;
use crate::sqlite::types::SqliteTypeInfo;
use vstd::prelude::*;

verus! {

/// **Sqlite** database driver.
pub struct Sqlite;

impl Database for Sqlite {
    type TypeInfo = SqliteTypeInfo;
}

} // verus!
