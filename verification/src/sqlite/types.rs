//! The types of SQLite and how values decode from them.

use crate::database::TypeInfo;
use crate::decode::Decode;
use crate::error::{DecodeError, Error};
use crate::sqlite::value::{SqliteRaw, SqliteValue};
use vstd::prelude::*;

verus! {

/// The fundamental datatypes of SQLite, and the boolean that this crate tells
/// apart from the integers.
#[derive(Debug, PartialEq, Eq, Clone, Copy, Structural)]
pub enum SqliteType {
    Integer,
    Float,
    Text,
    Blob,
    Boolean,
}

impl SqliteType {
    /// The code of the datatype: those of the fundamental datatypes as SQLite
    /// numbers them, the next one for the boolean.
    pub fn code(&self) -> (r: i32)
        ensures
            r == match self {
                SqliteType::Integer => 1i32,
                SqliteType::Float => 2i32,
                SqliteType::Text => 3i32,
                SqliteType::Blob => 4i32,
                SqliteType::Boolean => 5i32,
            },
    {
        match self {
            SqliteType::Integer => 1,
            SqliteType::Float => 2,
            SqliteType::Text => 3,
            SqliteType::Blob => 4,
            SqliteType::Boolean => 5,
        }
    }
}

/// The affinity of a column: the datatype that SQLite prefers to store in it.
#[derive(Debug, PartialEq, Eq, Clone, Copy, Structural)]
pub enum SqliteTypeAffinity {
    Text,
    Numeric,
    Integer,
    Real,
    Blob,
}

/// A SQLite type: a datatype and, where known, an affinity.
#[derive(Debug, Clone, Copy, PartialEq, Eq, Structural)]
pub struct SqliteTypeInfo {
    pub kind: SqliteType,
    pub affinity: Option<SqliteTypeAffinity>,
}

impl View for SqliteTypeInfo {
    type V = SqliteTypeInfo;

    open spec fn view(&self) -> SqliteTypeInfo {
        *self
    }
}

/// The name that SQL gives the datatype.
pub open spec fn sql_name(kind: SqliteType) -> Seq<char> {
    match kind {
        SqliteType::Text => "TEXT"@,
        SqliteType::Boolean => "BOOLEAN"@,
        SqliteType::Integer => "INTEGER"@,
        SqliteType::Float => "DOUBLE"@,
        SqliteType::Blob => "BLOB"@,
    }
}

impl SqliteTypeInfo {
    /// The type of the given datatype and affinity.
    pub fn new(kind: SqliteType, affinity: SqliteTypeAffinity) -> (r: Self)
        ensures
            r == (SqliteTypeInfo { kind, affinity: Some(affinity) }),
    {
        SqliteTypeInfo { kind, affinity: Some(affinity) }
    }

    /// The name that SQL gives the type.
    pub fn name(&self) -> (r: &'static str)
        ensures
            r@ == sql_name(self.kind),
    {
        match self.kind {
            SqliteType::Text => "TEXT",
            SqliteType::Boolean => "BOOLEAN",
            SqliteType::Integer => "INTEGER",
            SqliteType::Float => "DOUBLE",
            SqliteType::Blob => "BLOB",
        }
    }

    /// The name that SQL gives the type, as an owned string.
    pub fn to_string(&self) -> (r: String)
        ensures
            r@ == sql_name(self.kind),
    {
        self.name().to_owned()
    }
}

impl TypeInfo for SqliteTypeInfo {
    /// Two types go together where their datatypes are the same or their
    /// affinities are, two unknown affinities being the same.
    open spec fn accepts(&self, other: &Self) -> bool {
        self.kind == other.kind || self.affinity == other.affinity
    }

    fn compatible(&self, other: &Self) -> (r: bool) {
        self.kind == other.kind || self.affinity == other.affinity
    }
}

/// SQL NULL decodes into an optional target as `None`; any other value
/// decodes as the target's own type does.
impl<'c, T: Decode<SqliteValue<'c>>> Decode<SqliteValue<'c>> for Option<T> {
    open spec fn decodes(value: SqliteRaw, result: Result<Option<T>, Error>) -> bool {
        if value is Null {
            result matches Ok(None)
        } else {
            match result {
                Ok(Some(t)) => T::decodes(value, Ok(t)),
                Ok(None) => false,
                Err(e) => T::decodes(value, Err(e)),
            }
        }
    }

    fn decode(value: SqliteValue<'c>) -> (r: Result<Option<T>, Error>)
        ensures
            value@ is Null ==> r matches Ok(None),
            !(value@ is Null) ==> match r {
                Ok(Some(t)) => T::decodes(value@, Ok(t)),
                Ok(None) => false,
                Err(e) => T::decodes(value@, Err(e)),
            },
    {
        if value.is_null() {
            Ok(None)
        } else {
            match T::decode(value) {
                Ok(t) => Ok(Some(t)),
                Err(e) => Err(e),
            }
        }
    }
}

/// What a raw value is as an `i64`: the integer that it holds.
pub open spec fn i64_of(value: SqliteRaw) -> Result<i64, Error> {
    match value {
        SqliteRaw::Integer(x) => Ok(x),
        SqliteRaw::Null => Err(Error::Decode(DecodeError::UnexpectedNull)),
        _ => Err(Error::Decode(DecodeError::Mismatch)),
    }
}

impl<'c> Decode<SqliteValue<'c>> for i64 {
    open spec fn decodes(value: SqliteRaw, result: Result<i64, Error>) -> bool {
        result == i64_of(value)
    }

    fn decode(value: SqliteValue<'c>) -> (r: Result<i64, Error>) {
        match value {
            SqliteValue::Integer(x) => Ok(x),
            SqliteValue::Null => Err(Error::Decode(DecodeError::UnexpectedNull)),
            _ => Err(Error::Decode(DecodeError::Mismatch)),
        }
    }
}

} // verus!
