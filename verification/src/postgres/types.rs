//! How the scalar types travel to and from Postgres.

use crate::decode::Decode;
use crate::encode::Encode;
use crate::error::{DecodeError, Error};
use crate::io::{
    be_i32,
    be_i64,
    i32_be,
    i64_be,
    lemma_be_i32_of_i32_be,
    lemma_be_i64_of_i64_be,
    put_i32_be,
    put_i64_be,
    read_i32_be,
    read_i64_be,
};
use crate::postgres::{PgTypeInfo, PgTypeModel, PgValue, Postgres, TypeId};
use crate::text::{parse_i32, parse_i64, parsed_i32, parsed_i64, str_from_utf8};
use crate::types::Type;
use crate::value::RawValue;
use vstd::prelude::*;
use vstd::utf8::{
    decode_utf8,
    encode_utf8,
    encode_utf8_decode_utf8,
    encode_utf8_valid_utf8,
    valid_utf8,
};

verus! {

impl Type<Postgres> for bool {
    open spec fn sql_type() -> PgTypeModel {
        PgTypeModel { oid: 16, name: Some("BOOL"@) }
    }

    fn type_info() -> (r: PgTypeInfo) {
        PgTypeInfo { id: TypeId(16), name: Some("BOOL".to_owned()) }
    }
}

impl Type<Postgres> for i32 {
    open spec fn sql_type() -> PgTypeModel {
        PgTypeModel { oid: 23, name: Some("INT4"@) }
    }

    fn type_info() -> (r: PgTypeInfo) {
        PgTypeInfo { id: TypeId(23), name: Some("INT4".to_owned()) }
    }
}

impl Type<Postgres> for i64 {
    open spec fn sql_type() -> PgTypeModel {
        PgTypeModel { oid: 20, name: Some("INT8"@) }
    }

    fn type_info() -> (r: PgTypeInfo) {
        PgTypeInfo { id: TypeId(20), name: Some("INT8".to_owned()) }
    }
}

impl Type<Postgres> for &str {
    open spec fn sql_type() -> PgTypeModel {
        PgTypeModel { oid: 25, name: Some("TEXT"@) }
    }

    fn type_info() -> (r: PgTypeInfo) {
        PgTypeInfo { id: TypeId(25), name: Some("TEXT".to_owned()) }
    }
}

impl Type<Postgres> for String {
    open spec fn sql_type() -> PgTypeModel {
        PgTypeModel { oid: 25, name: Some("TEXT"@) }
    }

    fn type_info() -> (r: PgTypeInfo) {
        PgTypeInfo { id: TypeId(25), name: Some("TEXT".to_owned()) }
    }
}

impl Encode<Postgres> for bool {
    open spec fn encoding(&self) -> Seq<u8> {
        seq![if *self { 1u8 } else { 0u8 }]
    }

    open spec fn hint(&self) -> usize {
        1
    }

    fn encode(&self, buf: &mut Vec<u8>) {
        buf.push(if *self { 1u8 } else { 0u8 });
        assert(buf@ =~= old(buf)@ + self.encoding());
    }

    fn size_hint(&self) -> (r: usize) {
        1
    }
}

impl Encode<Postgres> for i32 {
    open spec fn encoding(&self) -> Seq<u8> {
        i32_be(*self)
    }

    open spec fn hint(&self) -> usize {
        4
    }

    fn encode(&self, buf: &mut Vec<u8>) {
        put_i32_be(buf, *self);
    }

    fn size_hint(&self) -> (r: usize) {
        4
    }
}

impl Encode<Postgres> for i64 {
    open spec fn encoding(&self) -> Seq<u8> {
        i64_be(*self)
    }

    open spec fn hint(&self) -> usize {
        8
    }

    fn encode(&self, buf: &mut Vec<u8>) {
        put_i64_be(buf, *self);
    }

    fn size_hint(&self) -> (r: usize) {
        8
    }
}

impl Encode<Postgres> for &str {
    open spec fn encoding(&self) -> Seq<u8> {
        encode_utf8(self@)
    }

    open spec fn hint(&self) -> usize {
        encode_utf8(self@).len() as usize
    }

    fn encode(&self, buf: &mut Vec<u8>) {
        buf.extend_from_slice(self.as_bytes());
    }

    fn size_hint(&self) -> (r: usize) {
        self.len()
    }
}

impl Encode<Postgres> for String {
    open spec fn encoding(&self) -> Seq<u8> {
        encode_utf8(self@)
    }

    open spec fn hint(&self) -> usize {
        encode_utf8(self@).len() as usize
    }

    fn encode(&self, buf: &mut Vec<u8>) {
        buf.extend_from_slice(self.as_str().as_bytes());
    }

    fn size_hint(&self) -> (r: usize) {
        self.as_str().len()
    }
}

/// What a raw value is as a `bool`: one binary byte, zero for false, or the
/// text `t` or `f`.
pub open spec fn bool_of(value: Option<RawValue>) -> Result<bool, Error> {
    match value {
        None => Err(Error::Decode(DecodeError::UnexpectedNull)),
        Some(RawValue::Binary(b)) => if b.len() == 1 {
            Ok(b[0] != 0)
        } else {
            Err(Error::Decode(DecodeError::Mismatch))
        },
        Some(RawValue::Text(s)) => if s == seq!['t'] {
            Ok(true)
        } else if s == seq!['f'] {
            Ok(false)
        } else {
            Err(Error::Decode(DecodeError::Mismatch))
        },
    }
}

/// What a raw value is as an `i32`: four binary bytes in two's complement,
/// most significant first, or text that spells a number.
pub open spec fn i32_of(value: Option<RawValue>) -> Result<i32, Error> {
    match value {
        None => Err(Error::Decode(DecodeError::UnexpectedNull)),
        Some(RawValue::Binary(b)) => if b.len() == 4 {
            Ok(be_i32(b))
        } else {
            Err(Error::Decode(DecodeError::Mismatch))
        },
        Some(RawValue::Text(s)) => match parsed_i32(s) {
            Some(x) => Ok(x),
            None => Err(Error::Decode(DecodeError::Mismatch)),
        },
    }
}

/// What a raw value is as an `i64`: eight binary bytes in two's complement,
/// most significant first, or text that spells a number.
pub open spec fn i64_of(value: Option<RawValue>) -> Result<i64, Error> {
    match value {
        None => Err(Error::Decode(DecodeError::UnexpectedNull)),
        Some(RawValue::Binary(b)) => if b.len() == 8 {
            Ok(be_i64(b))
        } else {
            Err(Error::Decode(DecodeError::Mismatch))
        },
        Some(RawValue::Text(s)) => match parsed_i64(s) {
            Some(x) => Ok(x),
            None => Err(Error::Decode(DecodeError::Mismatch)),
        },
    }
}

/// What a raw value is as text: the characters that binary bytes encode in
/// UTF-8, or the characters of a text value.
pub open spec fn text_of(value: Option<RawValue>) -> Result<Seq<char>, Error> {
    match value {
        None => Err(Error::Decode(DecodeError::UnexpectedNull)),
        Some(RawValue::Binary(b)) => if valid_utf8(b) {
            Ok(decode_utf8(b))
        } else {
            Err(Error::Decode(DecodeError::InvalidText))
        },
        Some(RawValue::Text(s)) => Ok(s),
    }
}

impl<'c> Decode<Option<PgValue<'c>>> for bool {
    open spec fn decodes(value: Option<RawValue>, result: Result<bool, Error>) -> bool {
        result == bool_of(value)
    }

    fn decode(value: Option<PgValue<'c>>) -> (r: Result<bool, Error>) {
        match PgValue::try_from(value)? {
            PgValue::Binary(b) => {
                if b.len() == 1 {
                    Ok(b[0] != 0)
                } else {
                    Err(Error::Decode(DecodeError::Mismatch))
                }
            },
            PgValue::Text(s) => {
                if s.unicode_len() != 1 {
                    assert(s@ != seq!['t'] && s@ != seq!['f']);
                    Err(Error::Decode(DecodeError::Mismatch))
                } else {
                    let c = s.get_char(0);
                    assert(s@ =~= seq![c]);
                    if c == 't' {
                        Ok(true)
                    } else if c == 'f' {
                        Ok(false)
                    } else {
                        assert(seq!['t'][0] == 't' && seq!['f'][0] == 'f');
                        Err(Error::Decode(DecodeError::Mismatch))
                    }
                }
            },
        }
    }
}

impl<'c> Decode<Option<PgValue<'c>>> for i32 {
    open spec fn decodes(value: Option<RawValue>, result: Result<i32, Error>) -> bool {
        result == i32_of(value)
    }

    fn decode(value: Option<PgValue<'c>>) -> (r: Result<i32, Error>) {
        match PgValue::try_from(value)? {
            PgValue::Binary(b) => {
                if b.len() == 4 {
                    Ok(read_i32_be(b))
                } else {
                    Err(Error::Decode(DecodeError::Mismatch))
                }
            },
            PgValue::Text(s) => match parse_i32(s) {
                Some(x) => Ok(x),
                None => Err(Error::Decode(DecodeError::Mismatch)),
            },
        }
    }
}

impl<'c> Decode<Option<PgValue<'c>>> for i64 {
    open spec fn decodes(value: Option<RawValue>, result: Result<i64, Error>) -> bool {
        result == i64_of(value)
    }

    fn decode(value: Option<PgValue<'c>>) -> (r: Result<i64, Error>) {
        match PgValue::try_from(value)? {
            PgValue::Binary(b) => {
                if b.len() == 8 {
                    Ok(read_i64_be(b))
                } else {
                    Err(Error::Decode(DecodeError::Mismatch))
                }
            },
            PgValue::Text(s) => match parse_i64(s) {
                Some(x) => Ok(x),
                None => Err(Error::Decode(DecodeError::Mismatch)),
            },
        }
    }
}

impl<'c> Decode<Option<PgValue<'c>>> for String {
    open spec fn decodes(value: Option<RawValue>, result: Result<String, Error>) -> bool {
        match text_of(value) {
            Ok(s) => result is Ok && result->Ok_0@ == s,
            Err(e) => result is Err && result->Err_0 == e,
        }
    }

    fn decode(value: Option<PgValue<'c>>) -> (r: Result<String, Error>) {
        match PgValue::try_from(value)? {
            PgValue::Binary(b) => match str_from_utf8(b) {
                Some(s) => Ok(s.to_owned()),
                None => Err(Error::Decode(DecodeError::InvalidText)),
            },
            PgValue::Text(s) => Ok(s.to_owned()),
        }
    }
}

/// Whether a value of type `T` that was written in the binary format is read
/// back as it was.
pub open spec fn round_trips<T>() -> bool where
    T: Encode<Postgres> + DeepView + for <'a>Decode<Option<PgValue<'a>>>,
 {
    forall|t: T, r: Result<T, Error>| #[trigger]
        T::decodes(Some(RawValue::Binary(t.encoding())), r) ==> r is Ok && r->Ok_0.deep_view()
            == t.deep_view()
}

/// A `bool` that was written is read back as it was.
pub proof fn lemma_bool_round_trips()
    ensures
        round_trips::<bool>(),
{
}

/// An `i32` that was written is read back as it was.
pub proof fn lemma_i32_round_trips()
    ensures
        round_trips::<i32>(),
{
    assert forall|t: i32, r: Result<i32, Error>| #[trigger]
        <i32 as Decode<Option<PgValue<'static>>>>::decodes(
            Some(RawValue::Binary(t.encoding())),
            r,
        ) implies r is Ok && r->Ok_0.deep_view() == t.deep_view() by {
        lemma_be_i32_of_i32_be(t, Seq::empty());
        assert(i32_be(t) + Seq::<u8>::empty() =~= i32_be(t));
    }
}

/// An `i64` that was written is read back as it was.
pub proof fn lemma_i64_round_trips()
    ensures
        round_trips::<i64>(),
{
    assert forall|t: i64, r: Result<i64, Error>| #[trigger]
        <i64 as Decode<Option<PgValue<'static>>>>::decodes(
            Some(RawValue::Binary(t.encoding())),
            r,
        ) implies r is Ok && r->Ok_0.deep_view() == t.deep_view() by {
        lemma_be_i64_of_i64_be(t, Seq::empty());
        assert(i64_be(t) + Seq::<u8>::empty() =~= i64_be(t));
    }
}

/// Text that was written is read back as it was.
pub proof fn lemma_string_round_trips()
    ensures
        round_trips::<String>(),
{
    assert forall|t: String, r: Result<String, Error>| #[trigger]
        <String as Decode<Option<PgValue<'static>>>>::decodes(
            Some(RawValue::Binary(t.encoding())),
            r,
        ) implies r is Ok && r->Ok_0.deep_view() == t.deep_view() by {
        encode_utf8_valid_utf8(t@);
        encode_utf8_decode_utf8(t@);
    }
}

/// SQL NULL decodes into each of the scalar types as the failure of an
/// unexpected null, whatever the format that was expected.
pub proof fn lemma_null_into_scalar_fails()
    ensures
        bool_of(None) == Err::<bool, Error>(Error::Decode(DecodeError::UnexpectedNull)),
        i32_of(None) == Err::<i32, Error>(Error::Decode(DecodeError::UnexpectedNull)),
        i64_of(None) == Err::<i64, Error>(Error::Decode(DecodeError::UnexpectedNull)),
        text_of(None) == Err::<Seq<char>, Error>(Error::Decode(DecodeError::UnexpectedNull)),
{
}

} // verus!
