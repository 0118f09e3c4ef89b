//! Reading typed values out of raw ones.

use crate::error::Error;
use vstd::prelude::*;

verus! {

/// A type that can be read from a raw value of type `V`.
pub trait Decode<V: DeepView>: Sized {
    /// Whether `result` is what decoding the raw value `value` gives.
    spec fn decodes(value: V::V, result: Result<Self, Error>) -> bool;

    fn decode(value: V) -> (r: Result<Self, Error>)
        ensures
            Self::decodes(value.deep_view(), r),
    ;
}

/// SQL NULL decodes into an optional target as `None`; any other raw value
/// decodes as the target's own type does.
impl<V: DeepView, T: Decode<Option<V>>> Decode<Option<V>> for Option<T> {
    open spec fn decodes(value: Option<V::V>, result: Result<Option<T>, Error>) -> bool {
        match value {
            None => result matches Ok(None),
            Some(_) => match result {
                Ok(Some(t)) => T::decodes(value, Ok(t)),
                Ok(None) => false,
                Err(e) => T::decodes(value, Err(e)),
            },
        }
    }

    fn decode(value: Option<V>) -> (r: Result<Option<T>, Error>)
        ensures
            value is None ==> r matches Ok(None),
    {
        match value {
            None => Ok(None),
            Some(v) => match T::decode(Some(v)) {
                Ok(t) => Ok(Some(t)),
                Err(e) => Err(e),
            },
        }
    }
}

/// SQL NULL decodes into an optional target as `None`, and as nothing else,
/// whatever the target's own type makes of NULL.
pub proof fn lemma_null_into_option<V: DeepView, T: Decode<Option<V>>>(
    result: Result<Option<T>, Error>,
)
    ensures
        <Option<T> as Decode<Option<V>>>::decodes(None, result) <==> result matches Ok(None),
{
}

} // verus!
