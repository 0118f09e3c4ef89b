//! The MySQL backend.

pub mod cursor;
pub mod exchange;
pub mod protocol;
pub mod row;

use crate::database::{Database, TypeInfo};
use vstd::prelude::*;

verus! {

/// **MySQL** database driver.
pub struct MySql;

impl Database for MySql {
    type TypeInfo = MySqlTypeInfo;
}

/// A MySQL type, known by the identifier of its column type.
#[derive(Debug, Clone, Copy, PartialEq, Eq, Structural)]
pub struct MySqlTypeInfo {
    pub id: u8,
}

impl View for MySqlTypeInfo {
    type V = MySqlTypeInfo;

    open spec fn view(&self) -> MySqlTypeInfo {
        *self
    }
}

impl TypeInfo for MySqlTypeInfo {
    open spec fn accepts(&self, other: &Self) -> bool {
        self.id == other.id
    }

    fn compatible(&self, other: &Self) -> (r: bool) {
        self.id == other.id
    }
}

} // verus!
