//! A row of a Postgres result.

use crate::error::{DecodeError, Error, ErrorModel};
use crate::postgres::protocol::{DataRow, TypeFormat};
use crate::postgres::PgValue;
use crate::row::{ColumnIndex, ColumnMap};
use crate::text::str_from_utf8;
use crate::value::RawValue;
use std::sync::Arc;
use vstd::prelude::*;
use vstd::utf8::{decode_utf8, valid_utf8};

verus! {

/// The model of a row: the shape it shares with the other rows of its cursor
/// and its own raw values.
pub struct RowModel {
    pub columns: Map<Seq<char>, usize>,
    pub formats: Seq<TypeFormat>,
    pub values: Seq<Option<Seq<u8>>>,
}

/// The format of column `i`: the described one, text where none was described.
pub open spec fn format_at(formats: Seq<TypeFormat>, i: int) -> TypeFormat {
    if 0 <= i < formats.len() {
        formats[i]
    } else {
        TypeFormat::Text
    }
}

/// What the raw bytes `value` of a column are in the given format: a binary
/// value as it is, a text value decoded from UTF-8, NULL as `None`.
pub open spec fn raw_value(value: Option<Seq<u8>>, format: TypeFormat) -> Result<
    Option<RawValue>,
    ErrorModel,
> {
    match value {
        None => Ok(None),
        Some(b) => match format {
            TypeFormat::Binary => Ok(Some(RawValue::Binary(b))),
            TypeFormat::Text => if valid_utf8(b) {
                Ok(Some(RawValue::Text(decode_utf8(b))))
            } else {
                Err(ErrorModel::Decode(DecodeError::InvalidText))
            },
        },
    }
}

/// One row of a Postgres result. It borrows its values from the buffer that
/// received them and shares its column map and formats with its cursor.
#[derive(Debug)]
pub struct PgRow<'c> {
    columns: Arc<ColumnMap>,
    formats: Arc<Vec<TypeFormat>>,
    data: DataRow<'c>,
}

impl<'c> View for PgRow<'c> {
    type V = RowModel;

    closed spec fn view(&self) -> RowModel {
        RowModel { columns: self.columns@, formats: self.formats@, values: self.data@ }
    }
}

impl<'c> PgRow<'c> {
    /// The row of the given shape that holds `data`.
    pub fn new(columns: Arc<ColumnMap>, formats: Arc<Vec<TypeFormat>>, data: DataRow<'c>) -> (r:
        Self)
        ensures
            r@ == (RowModel { columns: columns@, formats: formats@, values: data@ }),
    {
        PgRow { columns, formats, data }
    }

    /// The number of columns.
    pub fn len(&self) -> (r: usize)
        ensures
            r == self@.values.len(),
    {
        self.data.values.len()
    }

    /// The raw value of the column that `index` refers to, `None` for SQL
    /// NULL.
    pub fn get_raw<I: ColumnIndex>(&self, index: I) -> (r: Result<Option<PgValue<'c>>, Error>)
        ensures
            match index.resolved(self@.columns, self@.values.len()) {
                Err(e) => r is Err && r->Err_0@ == e,
                Ok(i) => match raw_value(self@.values[i as int], format_at(self@.formats, i as int)) {
                    Err(e) => r is Err && r->Err_0@ == e,
                    Ok(v) => r is Ok && r->Ok_0.deep_view() == v,
                },
            },
    {
        let i = index.resolve(&self.columns, self.data.values.len())?;
        let format = if i < self.formats.len() {
            self.formats[i]
        } else {
            TypeFormat::Text
        };
        match self.data.values[i] {
            None => Ok(None),
            Some(bytes) => match format {
                TypeFormat::Binary => Ok(Some(PgValue::Binary(bytes))),
                TypeFormat::Text => match str_from_utf8(bytes) {
                    Some(s) => Ok(Some(PgValue::Text(s))),
                    None => Err(Error::Decode(DecodeError::InvalidText)),
                },
            },
        }
    }
}

} // verus!
