//! What a backend bundles together.

use vstd::prelude::*;

verus! {

/// Describes a SQL type of one backend.
pub trait TypeInfo: Sized {
    /// Whether a value of type `self` may be handed to a target of type `other`.
    spec fn accepts(&self, other: &Self) -> bool;

    fn compatible(&self, other: &Self) -> (r: bool)
        ensures
            r == self.accepts(other),
    ;
}

/// A database backend: the types that its connection, rows and values share.
pub trait Database: Sized {
    /// The backend's description of a SQL type.
    type TypeInfo: TypeInfo + View;
}

} // verus!
