//! Writing values in the wire format of a backend.

use crate::database::Database;
use vstd::prelude::*;

verus! {

/// A value that can be written in the wire format of the backend `DB`.
pub trait Encode<DB: Database> {
    /// The bytes that stand for this value on the wire.
    spec fn encoding(&self) -> Seq<u8>;

    /// The number of bytes that `size_hint` announces.
    spec fn hint(&self) -> usize;

    /// Appends the encoding of this value to `buf`.
    ///
    /// The wire formats hold the size of a value in a signed word of 32 bits:
    /// a value whose encoding is larger cannot be sent and is left out.
    fn encode(&self, buf: &mut Vec<u8>)
        requires
            self.encoding().len() <= i32::MAX,
        ensures
            final(buf)@ == old(buf)@ + self.encoding(),
    ;

    /// An estimate of the encoded size, for reserving space.
    fn size_hint(&self) -> (r: usize)
        ensures
            r == self.hint(),
    ;
}

/// A borrowed value is written as the value itself.
impl<DB: Database, T: Encode<DB>> Encode<DB> for &T {
    open spec fn encoding(&self) -> Seq<u8> {
        (**self).encoding()
    }

    open spec fn hint(&self) -> usize {
        (**self).hint()
    }

    fn encode(&self, buf: &mut Vec<u8>) {
        (**self).encode(buf)
    }

    fn size_hint(&self) -> (r: usize) {
        (**self).size_hint()
    }
}

} // verus!
