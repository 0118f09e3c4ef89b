//! The error taxonomy shared by every backend.

use vstd::prelude::*;

verus! {

/// Failures of the transport under a cursor. Always fatal to the operation that
/// met them; nothing in this crate retries.
#[derive(Debug, Clone, Copy, PartialEq, Eq, Structural)]
pub enum ConnectivityError {
    /// The pool was closed before a connection could be checked out.
    PoolClosed,
    /// A connection could not be checked out or established.
    CheckoutFailed,
    /// Reading from or writing to the connection failed.
    Io,
}

/// Which step of a cursor was waiting for a message.
#[derive(Debug, Clone, Copy, PartialEq, Eq, Structural)]
pub enum Stage {
    /// The result shape was being described.
    Describe,
    /// Rows were being streamed.
    Rows,
}

/// Violations of a wire protocol or of a wire format.
#[derive(Debug, Clone, Copy, PartialEq, Eq, Structural)]
pub enum ProtocolError {
    /// A message arrived that the cursor does not accept at this stage.
    UnexpectedMessage { stage: Stage, tag: u8 },
    /// A message could not be parsed by the transport.
    MalformedMessage,
    /// The cursor was driven with an event it was not waiting for.
    OutOfSequence,
    /// A buffer ended before the value it announced.
    Truncated,
    /// A text record is not enclosed in parentheses.
    MalformedRecord,
    /// A quoted field of a text record is never closed.
    UnterminatedQuote,
    /// A field was requested from a record that has none left.
    NoMoreFields,
    /// A record does not hold as many fields as its target has.
    FieldCount,
}

/// Failures to turn one raw value into a typed one. They concern that value
/// alone.
#[derive(Debug, Clone, Copy, PartialEq, Eq, Structural)]
pub enum DecodeError {
    /// SQL NULL was decoded into a type that cannot hold it.
    UnexpectedNull,
    /// The raw value has the wrong size or shape for the target type.
    Mismatch,
    /// The raw value is not valid text.
    InvalidText,
}

/// Any failure this crate reports.
#[derive(Debug, Clone, PartialEq, Eq)]
pub enum Error {
    Connectivity(ConnectivityError),
    Protocol(ProtocolError),
    Decode(DecodeError),
    /// No column of the row has this name.
    ColumnNotFound(String),
    /// The row has `len` columns and `index` is not one of them.
    ColumnIndexOutOfBounds { index: usize, len: usize },
}

/// The model of an `Error`: the same failure, a column's name given by its
/// characters.
pub enum ErrorModel {
    Connectivity(ConnectivityError),
    Protocol(ProtocolError),
    Decode(DecodeError),
    ColumnNotFound(Seq<char>),
    ColumnIndexOutOfBounds { index: usize, len: usize },
}

impl View for Error {
    type V = ErrorModel;

    open spec fn view(&self) -> ErrorModel {
        match self {
            Error::Connectivity(e) => ErrorModel::Connectivity(*e),
            Error::Protocol(e) => ErrorModel::Protocol(*e),
            Error::Decode(e) => ErrorModel::Decode(*e),
            Error::ColumnNotFound(name) => ErrorModel::ColumnNotFound(name@),
            Error::ColumnIndexOutOfBounds { index, len } => ErrorModel::ColumnIndexOutOfBounds {
                index: *index,
                len: *len,
            },
        }
    }
}

impl Error {
    /// True for the failures after which a cursor must not be advanced.
    pub open spec fn is_fatal(&self) -> bool {
        self is Connectivity || self is Protocol
    }

    /// An equal error, for callers that must report one failure repeatedly.
    pub fn duplicate(&self) -> (r: Error)
        ensures
            r@ == self@,
    {
        match self {
            Error::Connectivity(e) => Error::Connectivity(*e),
            Error::Protocol(e) => Error::Protocol(*e),
            Error::Decode(e) => Error::Decode(*e),
            Error::ColumnNotFound(name) => Error::ColumnNotFound(name.clone()),
            Error::ColumnIndexOutOfBounds { index, len } => Error::ColumnIndexOutOfBounds {
                index: *index,
                len: *len,
            },
        }
    }

    /// A one-line description.
    pub fn message(&self) -> (r: &'static str)
        ensures
            r@ == description(self@),
    {
        match self {
            Error::Connectivity(ConnectivityError::PoolClosed) => "attempted to acquire a connection on a closed pool",
            Error::Connectivity(ConnectivityError::CheckoutFailed) => "failed to acquire a connection",
            Error::Connectivity(ConnectivityError::Io) => "the connection failed",
            Error::Protocol(ProtocolError::UnexpectedMessage { .. }) => "unexpected message",
            Error::Protocol(ProtocolError::MalformedMessage) => "malformed message",
            Error::Protocol(ProtocolError::OutOfSequence) => "cursor driven out of sequence",
            Error::Protocol(ProtocolError::Truncated) => "unexpected end of buffer",
            Error::Protocol(ProtocolError::MalformedRecord) => "record is not enclosed in parentheses",
            Error::Protocol(ProtocolError::UnterminatedQuote) => "unterminated quoted field",
            Error::Protocol(ProtocolError::NoMoreFields) => "no more fields in record",
            Error::Protocol(ProtocolError::FieldCount) => "record has another number of fields than its target",
            Error::Decode(DecodeError::UnexpectedNull) => "unexpected null; try decoding as an `Option`",
            Error::Decode(DecodeError::Mismatch) => "value does not fit the requested type",
            Error::Decode(DecodeError::InvalidText) => "value is not valid text",
            Error::ColumnNotFound(_) => "no column found with the given name",
            Error::ColumnIndexOutOfBounds { .. } => "column index out of bounds",
        }
    }
}

/// The one-line description of a failure.
pub open spec fn description(e: ErrorModel) -> Seq<char> {
    match e {
        ErrorModel::Connectivity(ConnectivityError::PoolClosed) => "attempted to acquire a connection on a closed pool"@,
        ErrorModel::Connectivity(ConnectivityError::CheckoutFailed) => "failed to acquire a connection"@,
        ErrorModel::Connectivity(ConnectivityError::Io) => "the connection failed"@,
        ErrorModel::Protocol(ProtocolError::UnexpectedMessage { .. }) => "unexpected message"@,
        ErrorModel::Protocol(ProtocolError::MalformedMessage) => "malformed message"@,
        ErrorModel::Protocol(ProtocolError::OutOfSequence) => "cursor driven out of sequence"@,
        ErrorModel::Protocol(ProtocolError::Truncated) => "unexpected end of buffer"@,
        ErrorModel::Protocol(ProtocolError::MalformedRecord) => "record is not enclosed in parentheses"@,
        ErrorModel::Protocol(ProtocolError::UnterminatedQuote) => "unterminated quoted field"@,
        ErrorModel::Protocol(ProtocolError::NoMoreFields) => "no more fields in record"@,
        ErrorModel::Protocol(ProtocolError::FieldCount) => "record has another number of fields than its target"@,
        ErrorModel::Decode(DecodeError::UnexpectedNull) => "unexpected null; try decoding as an `Option`"@,
        ErrorModel::Decode(DecodeError::Mismatch) => "value does not fit the requested type"@,
        ErrorModel::Decode(DecodeError::InvalidText) => "value is not valid text"@,
        ErrorModel::ColumnNotFound(_) => "no column found with the given name"@,
        ErrorModel::ColumnIndexOutOfBounds { .. } => "column index out of bounds"@,
    }
}

} // verus!
