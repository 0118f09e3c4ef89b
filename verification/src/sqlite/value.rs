//! A raw SQLite value.

use vstd::prelude::*;

verus! {

/// A raw SQLite value of one of the fundamental datatypes, borrowed from the
/// statement that produced it. A floating point value is held by its bit
/// pattern.
#[derive(Debug, Clone, Copy)]
pub enum SqliteValue<'c> {
    Null,
    Integer(i64),
    Float { bits: u64 },
    Text(&'c str),
    Blob(&'c [u8]),
}

/// The model of a `SqliteValue`.
pub enum SqliteRaw {
    Null,
    Integer(i64),
    Float { bits: u64 },
    Text(Seq<char>),
    Blob(Seq<u8>),
}

impl<'c> View for SqliteValue<'c> {
    type V = SqliteRaw;

    open spec fn view(&self) -> SqliteRaw {
        match self {
            SqliteValue::Null => SqliteRaw::Null,
            SqliteValue::Integer(x) => SqliteRaw::Integer(*x),
            SqliteValue::Float { bits } => SqliteRaw::Float { bits: *bits },
            SqliteValue::Text(s) => SqliteRaw::Text(s@),
            SqliteValue::Blob(b) => SqliteRaw::Blob(b@),
        }
    }
}

impl<'c> DeepView for SqliteValue<'c> {
    type V = SqliteRaw;

    open spec fn deep_view(&self) -> SqliteRaw {
        self@
    }
}

impl<'c> SqliteValue<'c> {
    /// Whether the value is SQL NULL.
    pub fn is_null(&self) -> (r: bool)
        ensures
            r == (self@ is Null),
    {
        match self {
            SqliteValue::Null => true,
            _ => false,
        }
    }
}

} // verus!
