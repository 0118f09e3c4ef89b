//! The messages of the Postgres protocol that a cursor consumes, already
//! framed and parsed by the transport.

use crate::postgres::TypeId;
use vstd::prelude::*;

verus! {

/// The wire format of one column.
#[derive(Debug, Clone, Copy, PartialEq, Eq, Structural)]
pub enum TypeFormat {
    Text,
    Binary,
}

/// The identifier that the backend knows a prepared statement by.
#[derive(Debug, Clone, Copy, PartialEq, Eq, Structural)]
pub struct StatementId(pub u32);

/// One field of a row description.
#[derive(Debug)]
pub struct Field {
    pub name: Option<String>,
    pub type_id: TypeId,
    pub type_format: TypeFormat,
}

/// The model of a `Field`.
pub struct FieldModel {
    pub name: Option<Seq<char>>,
    pub type_id: u32,
    pub type_format: TypeFormat,
}

impl View for Field {
    type V = FieldModel;

    open spec fn view(&self) -> FieldModel {
        FieldModel {
            name: match self.name {
                Some(n) => Some(n@),
                None => None,
            },
            type_id: self.type_id.0,
            type_format: self.type_format,
        }
    }
}

/// The shape of the rows that follow: one field for each column, in order.
#[derive(Debug)]
pub struct RowDescription {
    pub fields: Vec<Field>,
}

impl View for RowDescription {
    type V = Seq<FieldModel>;

    open spec fn view(&self) -> Seq<FieldModel> {
        Seq::new(self.fields@.len(), |i: int| self.fields@[i]@)
    }
}

/// One row of raw values, `None` for SQL NULL, borrowed from the buffer that
/// received them.
#[derive(Debug)]
pub struct DataRow<'c> {
    pub values: Vec<Option<&'c [u8]>>,
}

/// The bytes of a raw value that may be absent.
pub open spec fn bytes_of(value: Option<&[u8]>) -> Option<Seq<u8>> {
    match value {
        Some(b) => Some(b@),
        None => None,
    }
}

impl<'c> View for DataRow<'c> {
    type V = Seq<Option<Seq<u8>>>;

    open spec fn view(&self) -> Seq<Option<Seq<u8>>> {
        Seq::new(self.values@.len(), |i: int| bytes_of(self.values@[i]))
    }
}

/// A message from the backend.
#[derive(Debug)]
pub enum Message<'c> {
    ParseComplete,
    BindComplete,
    NoData,
    CommandComplete,
    RowDescription(RowDescription),
    DataRow(DataRow<'c>),
    /// Any other message, known by its tag.
    Other(u8),
}

/// The model of a `Message`.
pub enum MessageModel {
    ParseComplete,
    BindComplete,
    NoData,
    CommandComplete,
    RowDescription(Seq<FieldModel>),
    DataRow(Seq<Option<Seq<u8>>>),
    Other(u8),
}

impl<'c> View for Message<'c> {
    type V = MessageModel;

    open spec fn view(&self) -> MessageModel {
        match self {
            Message::ParseComplete => MessageModel::ParseComplete,
            Message::BindComplete => MessageModel::BindComplete,
            Message::NoData => MessageModel::NoData,
            Message::CommandComplete => MessageModel::CommandComplete,
            Message::RowDescription(d) => MessageModel::RowDescription(d@),
            Message::DataRow(r) => MessageModel::DataRow(r@),
            Message::Other(tag) => MessageModel::Other(*tag),
        }
    }
}

impl MessageModel {
    /// The tag that announces the message on the wire.
    pub open spec fn tag(self) -> u8 {
        match self {
            MessageModel::ParseComplete => 0x31,
            MessageModel::BindComplete => 0x32,
            MessageModel::NoData => 0x6E,
            MessageModel::CommandComplete => 0x43,
            MessageModel::RowDescription(_) => 0x54,
            MessageModel::DataRow(_) => 0x44,
            MessageModel::Other(tag) => tag,
        }
    }
}

impl<'c> Message<'c> {
    /// The tag that announces the message on the wire.
    pub fn tag(&self) -> (r: u8)
        ensures
            r == self@.tag(),
    {
        match self {
            Message::ParseComplete => 0x31,
            Message::BindComplete => 0x32,
            Message::NoData => 0x6E,
            Message::CommandComplete => 0x43,
            Message::RowDescription(_) => 0x54,
            Message::DataRow(_) => 0x44,
            Message::Other(tag) => *tag,
        }
    }
}

} // verus!
