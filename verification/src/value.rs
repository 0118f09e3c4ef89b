//! The mathematical model of a raw column value.

use vstd::prelude::*;

verus! {

/// What a borrowed raw value holds: the bytes of a binary value or the
/// characters of a textual one. SQL NULL is the absence of a raw value.
pub enum RawValue {
    Binary(Seq<u8>),
    Text(Seq<char>),
}

} // verus!
