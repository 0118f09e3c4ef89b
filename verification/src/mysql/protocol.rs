//! The packets of the MySQL protocol that a cursor consumes, already framed
//! and parsed by the transport.

use vstd::prelude::*;

verus! {

/// The definition of one column of a result.
#[derive(Debug)]
pub struct ColumnDefinition {
    /// The name that the query gave the column, if it has one.
    pub name: Option<String>,
}

/// The name of a column definition, as characters.
pub open spec fn name_of(definition: ColumnDefinition) -> Option<Seq<char>> {
    match definition.name {
        Some(n) => Some(n@),
        None => None,
    }
}

/// The raw values of a row, `None` for SQL NULL, as bytes.
pub open spec fn values_of(row: Seq<Option<&[u8]>>) -> Seq<Option<Seq<u8>>> {
    Seq::new(
        row.len(),
        |i: int|
            match row[i] {
                Some(b) => Some(b@),
                None => None,
            },
    )
}

/// A packet from the backend.
#[derive(Debug)]
pub enum Packet<'c> {
    /// The statement gave no result set and has completed.
    Complete,
    /// A result set of this many columns follows.
    ColumnCount(u64),
    /// The definition of the next column.
    ColumnDefinition(ColumnDefinition),
    /// The end of the column definitions, or the end of the rows.
    Eof,
    /// One row of raw values, borrowed from the buffer that received them.
    Row(Vec<Option<&'c [u8]>>),
    /// Any other packet, known by its first byte.
    Other(u8),
}

/// The model of a `Packet`.
pub enum PacketModel {
    Complete,
    ColumnCount(u64),
    ColumnDefinition(Option<Seq<char>>),
    Eof,
    Row(Seq<Option<Seq<u8>>>),
    Other(u8),
}

impl<'c> View for Packet<'c> {
    type V = PacketModel;

    open spec fn view(&self) -> PacketModel {
        match self {
            Packet::Complete => PacketModel::Complete,
            Packet::ColumnCount(n) => PacketModel::ColumnCount(*n),
            Packet::ColumnDefinition(d) => PacketModel::ColumnDefinition(name_of(*d)),
            Packet::Eof => PacketModel::Eof,
            Packet::Row(values) => PacketModel::Row(values_of(values@)),
            Packet::Other(tag) => PacketModel::Other(*tag),
        }
    }
}

impl PacketModel {
    /// The byte that tells the kind of the packet: the header of an OK or EOF
    /// packet, the first byte of another packet, zero where the kind is known
    /// from the packet's place alone.
    pub open spec fn tag(self) -> u8 {
        match self {
            PacketModel::Complete => 0x00,
            PacketModel::Eof => 0xFE,
            PacketModel::Other(tag) => tag,
            _ => 0x00,
        }
    }
}

impl<'c> Packet<'c> {
    /// The byte that tells the kind of the packet.
    pub fn tag(&self) -> (r: u8)
        ensures
            r == self@.tag(),
    {
        match self {
            Packet::Complete => 0x00,
            Packet::Eof => 0xFE,
            Packet::Other(tag) => *tag,
            _ => 0x00,
        }
    }
}

} // verus!
