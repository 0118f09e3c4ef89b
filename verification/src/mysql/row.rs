//! A row of a MySQL result and its raw values.

use crate::error::{DecodeError, Error, ErrorModel};
use crate::mysql::protocol::values_of;
use crate::row::{ColumnIndex, ColumnMap};
use crate::text::str_from_utf8;
use crate::value::RawValue;
use std::sync::Arc;
use vstd::prelude::*;
use vstd::utf8::{decode_utf8, valid_utf8};

verus! {

/// A raw MySQL value, borrowed from the buffer that received it. The variant
/// tells a decoder which format to parse.
#[derive(Debug, Clone, Copy)]
pub enum MySqlValue<'c> {
    Binary(&'c [u8]),
    Text(&'c str),
}

impl<'c> View for MySqlValue<'c> {
    type V = RawValue;

    open spec fn view(&self) -> RawValue {
        match self {
            MySqlValue::Binary(b) => RawValue::Binary(b@),
            MySqlValue::Text(s) => RawValue::Text(s@),
        }
    }
}

impl<'c> DeepView for MySqlValue<'c> {
    type V = RawValue;

    open spec fn deep_view(&self) -> RawValue {
        self@
    }
}

impl<'c> MySqlValue<'c> {
    /// The value that is present, or the failure to decode SQL NULL into a type
    /// that cannot hold it.
    pub fn try_from(value: Option<MySqlValue<'c>>) -> (r: Result<MySqlValue<'c>, Error>)
        ensures
            match value {
                Some(v) => r == Ok::<MySqlValue<'c>, Error>(v),
                None => r == Err::<MySqlValue<'c>, Error>(
                    Error::Decode(DecodeError::UnexpectedNull),
                ),
            },
    {
        match value {
            Some(value) => Ok(value),
            None => Err(Error::Decode(DecodeError::UnexpectedNull)),
        }
    }
}

/// The model of a row: the column map it shares with the other rows of its
/// cursor, the format of its values, and the values.
pub struct RowModel {
    pub columns: Map<Seq<char>, usize>,
    pub binary: bool,
    pub values: Seq<Option<Seq<u8>>>,
}

/// What the raw bytes `value` of a column are: in a binary row the bytes as
/// they are, in a text row the text they encode in UTF-8, NULL as `None`.
pub open spec fn raw_value(value: Option<Seq<u8>>, binary: bool) -> Result<
    Option<RawValue>,
    ErrorModel,
> {
    match value {
        None => Ok(None),
        Some(b) => if binary {
            Ok(Some(RawValue::Binary(b)))
        } else if valid_utf8(b) {
            Ok(Some(RawValue::Text(decode_utf8(b))))
        } else {
            Err(ErrorModel::Decode(DecodeError::InvalidText))
        },
    }
}

/// One row of a MySQL result. It borrows its values from the buffer that
/// received them and shares its column map with its cursor.
#[derive(Debug)]
pub struct MySqlRow<'c> {
    row: Vec<Option<&'c [u8]>>,
    columns: Arc<ColumnMap>,
    binary: bool,
}

impl<'c> View for MySqlRow<'c> {
    type V = RowModel;

    closed spec fn view(&self) -> RowModel {
        RowModel { columns: self.columns@, binary: self.binary, values: values_of(self.row@) }
    }
}

impl<'c> MySqlRow<'c> {
    /// The row of the given column map that holds the values `row`.
    pub fn new(row: Vec<Option<&'c [u8]>>, columns: Arc<ColumnMap>, binary: bool) -> (r: Self)
        ensures
            r@ == (RowModel { columns: columns@, binary, values: values_of(row@) }),
    {
        MySqlRow { row, columns, binary }
    }

    /// The number of columns.
    pub fn len(&self) -> (r: usize)
        ensures
            r == self@.values.len(),
    {
        self.row.len()
    }

    /// The raw value of the column that `index` refers to, `None` for SQL
    /// NULL.
    pub fn get_raw<I: ColumnIndex>(&self, index: I) -> (r: Result<Option<MySqlValue<'c>>, Error>)
        ensures
            match index.resolved(self@.columns, self@.values.len()) {
                Err(e) => r is Err && r->Err_0@ == e,
                Ok(i) => match raw_value(self@.values[i as int], self@.binary) {
                    Err(e) => r is Err && r->Err_0@ == e,
                    Ok(v) => r is Ok && r->Ok_0.deep_view() == v,
                },
            },
    {
        let index = index.resolve(&self.columns, self.row.len())?;
        match self.row[index] {
            None => Ok(None),
            Some(buf) => if self.binary {
                Ok(Some(MySqlValue::Binary(buf)))
            } else {
                match str_from_utf8(buf) {
                    Some(s) => Ok(Some(MySqlValue::Text(s))),
                    None => Err(Error::Decode(DecodeError::InvalidText)),
                }
            },
        }
    }
}

} // verus!
