//! The link between a Rust type and a SQL type.

use crate::database::Database;
use vstd::prelude::*;

verus! {

/// A Rust type that corresponds to one SQL type of the backend `DB`.
pub trait Type<DB: Database> {
    /// The SQL type, as a model.
    spec fn sql_type() -> <DB::TypeInfo as View>::V;

    fn type_info() -> (r: DB::TypeInfo)
        ensures
            r@ == Self::sql_type(),
    ;
}

/// A borrowed value has the SQL type of the value itself.
impl<DB: Database, T: Type<DB>> Type<DB> for &T {
    open spec fn sql_type() -> <DB::TypeInfo as View>::V {
        T::sql_type()
    }

    fn type_info() -> (r: DB::TypeInfo) {
        T::type_info()
    }
}

} // verus!
