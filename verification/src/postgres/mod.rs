//! The Postgres backend.

pub mod cursor;
pub mod exchange;
pub mod protocol;
pub mod record;
pub mod row;
pub mod types;

use crate::database::{Database, TypeInfo};
use crate::error::{DecodeError, Error};
use crate::value::RawValue;
use vstd::prelude::*;

verus! {

/// **Postgres** database driver.
pub struct Postgres;

impl Database for Postgres {
    type TypeInfo = PgTypeInfo;
}

/// The object identifier of a Postgres type.
#[derive(Debug, Clone, Copy, PartialEq, Eq, Structural)]
pub struct TypeId(pub u32);

/// A Postgres type: its object identifier and, where known, its name.
#[derive(Debug, Clone)]
pub struct PgTypeInfo {
    pub id: TypeId,
    pub name: Option<String>,
}

/// The model of a `PgTypeInfo`.
pub struct PgTypeModel {
    pub oid: u32,
    pub name: Option<Seq<char>>,
}

impl View for PgTypeInfo {
    type V = PgTypeModel;

    open spec fn view(&self) -> PgTypeModel {
        PgTypeModel {
            oid: self.id.0,
            name: match self.name {
                Some(n) => Some(n@),
                None => None,
            },
        }
    }
}

impl PgTypeInfo {
    /// The type with the object identifier `oid` and no name.
    pub fn with_oid(oid: u32) -> (r: Self)
        ensures
            r@ == (PgTypeModel { oid, name: None }),
    {
        PgTypeInfo { id: TypeId(oid), name: None }
    }

    pub fn oid(&self) -> (r: u32)
        ensures
            r == self@.oid,
    {
        self.id.0
    }
}

impl TypeInfo for PgTypeInfo {
    open spec fn accepts(&self, other: &Self) -> bool {
        self@.oid == other@.oid
    }

    fn compatible(&self, other: &Self) -> (r: bool) {
        self.id.0 == other.id.0
    }
}

/// A raw Postgres value, borrowed from the buffer that received it. The variant
/// tells a decoder which format to parse.
#[derive(Debug, Clone, Copy)]
pub enum PgValue<'c> {
    Binary(&'c [u8]),
    Text(&'c str),
}

impl<'c> View for PgValue<'c> {
    type V = RawValue;

    open spec fn view(&self) -> RawValue {
        match self {
            PgValue::Binary(b) => RawValue::Binary(b@),
            PgValue::Text(s) => RawValue::Text(s@),
        }
    }
}

impl<'c> DeepView for PgValue<'c> {
    type V = RawValue;

    open spec fn deep_view(&self) -> RawValue {
        self@
    }
}

impl<'c> PgValue<'c> {
    /// The value that is present, or the failure to decode SQL NULL into a type
    /// that cannot hold it.
    pub fn try_from(value: Option<PgValue<'c>>) -> (r: Result<PgValue<'c>, Error>)
        ensures
            match value {
                Some(v) => r == Ok::<PgValue<'c>, Error>(v),
                None => r == Err::<PgValue<'c>, Error>(Error::Decode(DecodeError::UnexpectedNull)),
            },
    {
        match value {
            Some(v) => Ok(v),
            None => Err(Error::Decode(DecodeError::UnexpectedNull)),
        }
    }
}

} // verus!
