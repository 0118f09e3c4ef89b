//! The composite (record) codec: an ordered sequence of typed, length-prefixed
//! fields.

use crate::decode::Decode;
use crate::encode::Encode;
use crate::error::{DecodeError, Error, ProtocolError};
use crate::io::{be_i32, be_u32, put_u32_be, read_i32_be, read_u32_be, set_u32_be, u32_be};
use crate::postgres::types::round_trips;
use crate::postgres::{PgTypeInfo, PgTypeModel, PgValue, Postgres, TypeId};
use crate::types::Type;
use crate::value::RawValue;
use vstd::prelude::*;
use vstd::slice::slice_subrange;

verus! {

/// One field of a record: the object identifier of its type and its encoded
/// value, absent for SQL NULL.
pub struct Field {
    pub oid: u32,
    pub value: Option<Seq<u8>>,
}

/// The length word of a field: the byte count of a present value, -1 for NULL.
/// The word is signed, so a present value holds at most `i32::MAX` bytes (see
/// `fits_length_word`); the encoder writes no other.
pub open spec fn length_word(value: Option<Seq<u8>>) -> u32 {
    match value {
        Some(v) => v.len() as u32,
        None => 0xFFFF_FFFFu32,
    }
}

/// The bytes of one field: type identifier, length word, payload.
pub open spec fn field_bytes(f: Field) -> Seq<u8> {
    u32_be(f.oid) + u32_be(length_word(f.value)) + match f.value {
        Some(v) => v,
        None => Seq::<u8>::empty(),
    }
}

/// The bytes of a run of fields, one after the other.
pub open spec fn fields_bytes(fields: Seq<Field>) -> Seq<u8>
    decreases fields.len(),
{
    if fields.len() == 0 {
        Seq::<u8>::empty()
    } else {
        fields_bytes(fields.drop_last()) + field_bytes(fields.last())
    }
}

/// The bytes of a whole record: the field count, then the fields.
pub open spec fn record_bytes(fields: Seq<Field>) -> Seq<u8> {
    u32_be(fields.len() as u32) + fields_bytes(fields)
}

/// Writes a record into a buffer, field by field.
pub struct PgRecordEncoder<'a> {
    pub buf: &'a mut Vec<u8>,
    pub beg: usize,
    pub num: u32,
}

impl<'a> PgRecordEncoder<'a> {
    /// The encoder has reserved its count word and `beg` is the offset just
    /// behind it.
    pub open spec fn wf(&self) -> bool {
        4 <= self.beg <= self.buf@.len()
    }

    /// Starts a record at the end of `buf`, reserving the count word.
    pub fn new(buf: &'a mut Vec<u8>) -> (r: Self)
        ensures
            r.wf(),
            r.buf@ == old(buf)@ + u32_be(0),
            r.beg == old(buf)@.len() + 4,
            r.num == 0,
            final(r.buf)@ == final(buf)@,
    {
        put_u32_be(buf, 0);
        PgRecordEncoder { beg: buf.len(), buf, num: 0 }
    }

    /// Writes the count of the fields encoded so far into the count word.
    pub fn finish(&mut self)
        requires
            old(self).wf(),
        ensures
            final(self).buf@ == old(self).buf@.subrange(0, old(self).beg - 4) + u32_be(
                old(self).num,
            ) + old(self).buf@.subrange(old(self).beg as int, old(self).buf@.len() as int),
            final(self).beg == old(self).beg,
            final(self).num == old(self).num,
            final(final(self).buf)@ == final(old(self).buf)@,
    {
        set_u32_be(self.buf, self.beg - 4, self.num);
    }

    /// Appends one field whose value is already encoded: the type identifier
    /// `oid`, the length of `value`, and `value`.
    pub fn encode_raw(&mut self, oid: u32, value: &[u8]) -> (r: &mut Self)
        requires
            old(self).wf(),
            old(self).num < u32::MAX,
            value@.len() <= i32::MAX,
        ensures
            r.wf(),
            r.buf@ == old(self).buf@ + field_bytes(Field { oid, value: Some(value@) }),
            r.beg == old(self).beg,
            r.num == old(self).num + 1,
            final(r.buf)@ == final(old(self).buf)@,
            *final(self) == *final(r),
    {
        put_u32_be(self.buf, oid);
        put_u32_be(self.buf, value.len() as u32);
        self.buf.extend_from_slice(value);
        self.num += 1;
        proof {
            assert(self.buf@ =~= old(self).buf@ + field_bytes(Field { oid, value: Some(value@) }));
        }
        self
    }

    /// Appends one field: the type identifier of `T`, the length of the encoded
    /// value, and the encoded value.
    pub fn encode<T>(&mut self, value: T) -> (r: &mut Self) where
        T: Type<Postgres> + Encode<Postgres>,

        requires
            old(self).wf(),
            old(self).num < u32::MAX,
            value.encoding().len() <= i32::MAX,
        ensures
            r.wf(),
            r.buf@ == old(self).buf@ + field_bytes(
                Field { oid: T::sql_type().oid, value: Some(value.encoding()) },
            ),
            r.beg == old(self).beg,
            r.num == old(self).num + 1,
            final(r.buf)@ == final(old(self).buf)@,
            *final(self) == *final(r),
    {
        let info = T::type_info();
        put_u32_be(self.buf, info.oid());
        put_u32_be(self.buf, 0);
        let start: usize = self.buf.len();
        value.encode(self.buf);
        let end: usize = self.buf.len();
        let size: usize = end - start;
        assert(size == value.encoding().len());
        set_u32_be(self.buf, start - 4, size as u32);
        self.num += 1;
        proof {
            let enc = value.encoding();
            assert(self.buf@ =~= old(self).buf@ + field_bytes(
                Field { oid: T::sql_type().oid, value: Some(enc) },
            ));
        }
        self
    }
}

/// What the encoder leaves in a buffer: a buffer that held `prefix`, in which
/// the count word was reserved and `fields` were appended one after the
/// other, holds the record of those fields behind `prefix` once the count is
/// written into its word.
pub proof fn lemma_encoder_writes_record(prefix: Seq<u8>, fields: Seq<Field>)
    requires
        fields.len() <= u32::MAX,
    ensures
        ({
            let buf = prefix + u32_be(0) + fields_bytes(fields);
            let beg = prefix.len() + 4;
            buf.subrange(0, beg - 4) + u32_be(fields.len() as u32) + buf.subrange(
                beg as int,
                buf.len() as int,
            ) == prefix + record_bytes(fields)
        }),
        forall|f: Field| #[trigger] fields_bytes(fields.push(f)) == fields_bytes(fields) + field_bytes(f),
{
    let buf = prefix + u32_be(0) + fields_bytes(fields);
    let beg = prefix.len() + 4;
    assert(buf.subrange(0, beg - 4) =~= prefix);
    assert(buf.subrange(beg as int, buf.len() as int) =~= fields_bytes(fields));
    assert(prefix + u32_be(fields.len() as u32) + fields_bytes(fields) =~= prefix + record_bytes(
        fields,
    ));
    assert forall|f: Field| #[trigger]
        fields_bytes(fields.push(f)) == fields_bytes(fields) + field_bytes(f) by {
        assert(fields.push(f).drop_last() =~= fields);
    }
}

/// The first field of `buf` and the bytes behind it, or `None` where `buf` ends
/// before the field does. A negative length word stands for NULL and takes no
/// payload.
pub open spec fn parse_field(buf: Seq<u8>) -> Option<(Field, Seq<u8>)> {
    if buf.len() < 8 {
        None
    } else {
        let oid = be_u32(buf);
        let len = be_i32(buf.skip(4)) as int;
        if len < 0 {
            Some((Field { oid, value: None }, buf.skip(8)))
        } else if buf.len() - 8 < len {
            None
        } else {
            Some((Field { oid, value: Some(buf.subrange(8, 8 + len)) }, buf.skip(8 + len)))
        }
    }
}

/// What scanning one field of a text record gives.
pub enum TextField {
    /// The text ended inside a quoted section.
    Unterminated,
    /// The field's value, absent for NULL, and the offset of the next field
    /// where a comma announced one.
    Field { value: Option<Seq<char>>, next: Option<int> },
}

/// The value of a scanned field: NULL where nothing was quoted and nothing
/// collected, the collected characters otherwise.
pub open spec fn text_value(quoted: bool, acc: Seq<char>) -> Option<Seq<char>> {
    if quoted || acc.len() > 0 {
        Some(acc)
    } else {
        None
    }
}

/// Scans the field of the text `s` that is being read at offset `i`.
///
/// `in_quotes` says whether `i` is inside a quoted section, `quoted` whether
/// the field held one so far, and `acc` is what was collected of its value.
/// Outside quotes a comma ends the field and a double quote opens a quoted
/// section. Inside, a doubled double quote stands for one and a single one
/// closes the section. Every other character is collected.
pub open spec fn scan_text(
    s: Seq<char>,
    i: int,
    in_quotes: bool,
    quoted: bool,
    acc: Seq<char>,
) -> TextField
    decreases s.len() - i,
{
    if i < 0 || i >= s.len() {
        if in_quotes {
            TextField::Unterminated
        } else {
            TextField::Field { value: text_value(quoted, acc), next: None }
        }
    } else if in_quotes {
        if s[i] != '"' {
            scan_text(s, i + 1, true, quoted, acc.push(s[i]))
        } else if i + 1 < s.len() && s[i + 1] == '"' {
            scan_text(s, i + 2, true, quoted, acc.push('"'))
        } else {
            scan_text(s, i + 1, false, quoted, acc)
        }
    } else {
        if s[i] == ',' {
            TextField::Field { value: text_value(quoted, acc), next: Some(i + 1) }
        } else if s[i] == '"' {
            scan_text(s, i + 1, true, true, acc)
        } else {
            scan_text(s, i + 1, false, quoted, acc.push(s[i]))
        }
    }
}

/// What is left of a record that is being decoded.
pub enum RecordSource {
    /// A binary record: the bytes behind the fields read so far and the number
    /// of fields still announced.
    Binary { rest: Seq<u8>, left: nat },
    /// A text record: the text between the parentheses and the offset of the
    /// next field, `None` once the last field was read.
    Text { body: Seq<char>, at: Option<int> },
}

/// The record that the raw value `value` holds, ready for its first field.
///
/// A binary record starts with its field count. A text record is enclosed in
/// parentheses.
pub open spec fn open_record(value: RawValue) -> Result<RecordSource, Error> {
    match value {
        RawValue::Binary(b) => if b.len() < 4 {
            Err(Error::Protocol(ProtocolError::Truncated))
        } else {
            Ok(RecordSource::Binary { rest: b.skip(4), left: be_u32(b) as nat })
        },
        RawValue::Text(s) => if s.len() >= 2 && s[0] == '(' && s[s.len() - 1] == ')' {
            Ok(RecordSource::Text { body: s.subrange(1, s.len() - 1), at: Some(0) })
        } else {
            Err(Error::Protocol(ProtocolError::MalformedRecord))
        },
    }
}

/// The next field of a record, with what is left behind it, or the reason why
/// there is none.
pub open spec fn next_field(src: RecordSource) -> Result<(Option<RawValue>, RecordSource), Error> {
    match src {
        RecordSource::Binary { rest, left } => if left == 0 {
            Err(Error::Protocol(ProtocolError::NoMoreFields))
        } else {
            match parse_field(rest) {
                None => Err(Error::Protocol(ProtocolError::Truncated)),
                Some((f, tail)) => Ok(
                    (
                        match f.value {
                            Some(v) => Some(RawValue::Binary(v)),
                            None => None,
                        },
                        RecordSource::Binary { rest: tail, left: (left - 1) as nat },
                    ),
                ),
            }
        },
        RecordSource::Text { body, at } => match at {
            None => Err(Error::Protocol(ProtocolError::NoMoreFields)),
            Some(i) => match scan_text(body, i, false, false, Seq::<char>::empty()) {
                TextField::Unterminated => Err(Error::Protocol(ProtocolError::UnterminatedQuote)),
                TextField::Field { value, next } => Ok(
                    (
                        match value {
                            Some(v) => Some(RawValue::Text(v)),
                            None => None,
                        },
                        RecordSource::Text { body, at: next },
                    ),
                ),
            },
        },
    }
}

/// The number of fields that a binary record still announces. A text record
/// announces none: its last field is known only once it was read.
pub open spec fn announced(src: RecordSource) -> Option<nat> {
    match src {
        RecordSource::Binary { left, .. } => Some(left),
        RecordSource::Text { .. } => None,
    }
}

/// Whether the record has ended: every field that a binary record announced
/// was read, or the last field of a text record was.
pub open spec fn ended(src: RecordSource) -> bool {
    match src {
        RecordSource::Binary { left, .. } => left == 0,
        RecordSource::Text { at, .. } => at is None,
    }
}

/// The raw value of one field of a record. A binary field borrows from the
/// record; a text field owns its characters, since quoting was undone.
#[derive(Debug)]
pub enum RecordField<'de> {
    Binary(&'de [u8]),
    Text(String),
}

impl<'de> View for RecordField<'de> {
    type V = RawValue;

    open spec fn view(&self) -> RawValue {
        match self {
            RecordField::Binary(b) => RawValue::Binary(b@),
            RecordField::Text(s) => RawValue::Text(s@),
        }
    }
}

impl<'de> DeepView for RecordField<'de> {
    type V = RawValue;

    open spec fn deep_view(&self) -> RawValue {
        self@
    }
}

impl<'de> RecordField<'de> {
    /// The field as a borrowed raw value.
    pub fn as_value<'a>(&'a self) -> (r: PgValue<'a>)
        ensures
            r@ == self@,
    {
        match self {
            RecordField::Binary(b) => PgValue::Binary(*b),
            RecordField::Text(s) => PgValue::Text(s.as_str()),
        }
    }
}

/// `String::push` of std: appends one character.
#[verifier::external_body]
fn push_char(s: &mut String, c: char)
    ensures
        final(s)@ == old(s)@.push(c),
{
    s.push(c)
}

/// The characters of `s`, in order.
fn chars_of(s: &str) -> (v: Vec<char>)
    ensures
        v@ == s@,
{
    let mut v: Vec<char> = Vec::new();
    for c in iter: s.chars()
        invariant
            iter.seq() == s@,
            v@ == iter.seq().subrange(0, iter.index() as int),
    {
        v.push(c);
    }
    v
}

/// Reads a record field by field, in either format.
pub struct PgRecordDecoder<'de> {
    /// Whether the record is binary; `buf` and `left` then describe it, `body`
    /// and `at` otherwise.
    binary: bool,
    buf: &'de [u8],
    left: u32,
    body: Vec<char>,
    at: Option<usize>,
}

impl<'de> View for PgRecordDecoder<'de> {
    type V = RecordSource;

    closed spec fn view(&self) -> RecordSource {
        if self.binary {
            RecordSource::Binary { rest: self.buf@, left: self.left as nat }
        } else {
            RecordSource::Text {
                body: self.body@,
                at: match self.at {
                    Some(i) => Some(i as int),
                    None => None,
                },
            }
        }
    }
}

impl<'de> PgRecordDecoder<'de> {
    #[verifier::type_invariant]
    spec fn inv(self) -> bool {
        self.at matches Some(i) ==> i <= self.body@.len()
    }

    /// Opens the record that `value` holds.
    pub fn new(value: PgValue<'de>) -> (r: Result<Self, Error>)
        ensures
            match open_record(value@) {
                Ok(src) => r is Ok && r->Ok_0@ == src,
                Err(e) => r is Err && r->Err_0 == e,
            },
    {
        match value {
            PgValue::Binary(buf) => {
                if buf.len() < 4 {
                    return Err(Error::Protocol(ProtocolError::Truncated));
                }
                let left = read_u32_be(buf);
                let rest = slice_subrange(buf, 4, buf.len());
                Ok(PgRecordDecoder { binary: true, buf: rest, left, body: Vec::new(), at: None })
            },
            PgValue::Text(s) => {
                let mut body = chars_of(s);
                let n: usize = body.len();
                if n >= 2 && body[0] == '(' && body[n - 1] == ')' {
                    body.truncate(n - 1);
                    body.remove(0);
                    assert(body@ =~= s@.subrange(1, s@.len() - 1));
                    let buf: &'de [u8] = &[];
                    Ok(PgRecordDecoder { binary: false, buf, left: 0, body, at: Some(0) })
                } else {
                    Err(Error::Protocol(ProtocolError::MalformedRecord))
                }
            },
        }
    }

    /// The number of fields that a binary record still announces, `None` for a
    /// text record.
    pub fn announced(&self) -> (r: Option<u32>)
        ensures
            match announced(self@) {
                Some(n) => r == Some(n as u32) && n <= u32::MAX,
                None => r is None,
            },
    {
        if self.binary {
            Some(self.left)
        } else {
            None
        }
    }

    /// Whether the record has ended.
    pub fn is_finished(&self) -> (r: bool)
        ensures
            r == ended(self@),
    {
        if self.binary {
            self.left == 0
        } else {
            self.at.is_none()
        }
    }

    /// Reads the next field as a raw value, `None` for SQL NULL, and moves
    /// behind it. On failure the decoder is left as it was.
    pub fn decode_raw(&mut self) -> (r: Result<Option<RecordField<'de>>, Error>)
        ensures
            match next_field(old(self)@) {
                Ok((value, rest)) => r is Ok && r->Ok_0.deep_view() == value && final(self)@
                    == rest,
                Err(e) => r is Err && r->Err_0 == e && final(self)@ == old(self)@,
            },
    {
        proof {
            use_type_invariant(&*self);
        }
        if self.binary {
            if self.left == 0 {
                return Err(Error::Protocol(ProtocolError::NoMoreFields));
            }
            let b: &'de [u8] = self.buf;
            if b.len() < 8 {
                return Err(Error::Protocol(ProtocolError::Truncated));
            }
            let len = read_i32_be(slice_subrange(b, 4, b.len()));
            if len < 0 {
                self.buf = slice_subrange(b, 8, b.len());
                self.left = self.left - 1;
                return Ok(None);
            }
            let len: usize = len as usize;
            if b.len() - 8 < len {
                return Err(Error::Protocol(ProtocolError::Truncated));
            }
            let value = slice_subrange(b, 8, 8 + len);
            self.buf = slice_subrange(b, 8 + len, b.len());
            self.left = self.left - 1;
            Ok(Some(RecordField::Binary(value)))
        } else {
            let start: usize = match self.at {
                Some(i) => i,
                None => {
                    return Err(Error::Protocol(ProtocolError::NoMoreFields));
                },
            };
            let mut i: usize = start;
            let mut in_quotes = false;
            let mut quoted = false;
            let mut acc = String::new();
            let mut next: Option<usize> = None;
            let n: usize = self.body.len();
            while i < n
                invariant_except_break
                    next is None,
                    scan_text(self.body@, start as int, false, false, Seq::<char>::empty())
                        == scan_text(self.body@, i as int, in_quotes, quoted, acc@),
                invariant
                    start <= i <= n,
                    n == self.body@.len(),
                ensures
                    start <= i <= n,
                    match next {
                        Some(k) => k <= n && !in_quotes && scan_text(
                            self.body@,
                            start as int,
                            false,
                            false,
                            Seq::<char>::empty(),
                        ) == (TextField::Field {
                            value: text_value(quoted, acc@),
                            next: Some(k as int),
                        }),
                        None => i == n && scan_text(
                            self.body@,
                            start as int,
                            false,
                            false,
                            Seq::<char>::empty(),
                        ) == scan_text(self.body@, n as int, in_quotes, quoted, acc@),
                    },
                decreases n - i,
            {
                let c: char = self.body[i];
                if in_quotes {
                    if c != '"' {
                        push_char(&mut acc, c);
                        i = i + 1;
                    } else if i + 1 < n && self.body[i + 1] == '"' {
                        push_char(&mut acc, '"');
                        i = i + 2;
                    } else {
                        in_quotes = false;
                        i = i + 1;
                    }
                } else {
                    if c == ',' {
                        next = Some(i + 1);
                        break ;
                    } else if c == '"' {
                        in_quotes = true;
                        quoted = true;
                        i = i + 1;
                    } else {
                        push_char(&mut acc, c);
                        i = i + 1;
                    }
                }
            }
            if in_quotes {
                return Err(Error::Protocol(ProtocolError::UnterminatedQuote));
            }
            self.at = next;
            if quoted || !acc.as_str().is_empty() {
                Ok(Some(RecordField::Text(acc)))
            } else {
                Ok(None)
            }
        }
    }

    /// Reads the next field and decodes it as a `T`. A field that cannot be
    /// read fails as `decode_raw` does, with the decoder left as it was; a field
    /// that was read is consumed whatever `T` makes of it.
    pub fn decode<T>(&mut self) -> (r: Result<T, Error>) where
        T: for <'a>Decode<Option<PgValue<'a>>>,

        ensures
            match next_field(old(self)@) {
                Ok((value, rest)) => final(self)@ == rest && T::decodes(value, r),
                Err(e) => r is Err && r->Err_0 == e && final(self)@ == old(self)@,
            },
    {
        match self.decode_raw() {
            Err(e) => Err(e),
            Ok(None) => T::decode(None),
            Ok(Some(field)) => T::decode(Some(field.as_value())),
        }
    }
}

/// The field that a value of type `T` becomes in a record.
pub open spec fn field_of<T: Type<Postgres> + Encode<Postgres>>(value: T) -> Field {
    Field { oid: T::sql_type().oid, value: Some(value.encoding()) }
}

/// The five fields that a tuple becomes in a record.
pub open spec fn tuple_fields<A, B, C, D, E>(t: (A, B, C, D, E)) -> Seq<Field> where
    A: Type<Postgres> + Encode<Postgres>,
    B: Type<Postgres> + Encode<Postgres>,
    C: Type<Postgres> + Encode<Postgres>,
    D: Type<Postgres> + Encode<Postgres>,
    E: Type<Postgres> + Encode<Postgres>,
 {
    seq![field_of(t.0), field_of(t.1), field_of(t.2), field_of(t.3), field_of(t.4)]
}

impl<A, B, C, D, E> Type<Postgres> for (A, B, C, D, E) {
    open spec fn sql_type() -> PgTypeModel {
        PgTypeModel { oid: 32925, name: Some("RECORD"@) }
    }

    fn type_info() -> (r: PgTypeInfo)
        ensures
            r@ == (PgTypeModel { oid: 32925, name: Some("RECORD"@) }),
    {
        PgTypeInfo { id: TypeId(32925), name: Some("RECORD".to_owned()) }
    }
}

impl<A, B, C, D, E> Encode<Postgres> for (A, B, C, D, E) where
    A: Type<Postgres> + Encode<Postgres>,
    B: Type<Postgres> + Encode<Postgres>,
    C: Type<Postgres> + Encode<Postgres>,
    D: Type<Postgres> + Encode<Postgres>,
    E: Type<Postgres> + Encode<Postgres>,
 {
    /// A record of five fields, in the order of the tuple.
    open spec fn encoding(&self) -> Seq<u8> {
        record_bytes(tuple_fields(*self))
    }

    /// For each field its type identifier, its length word and its own hint;
    /// `usize::MAX` where the sum is larger.
    open spec fn hint(&self) -> usize {
        let sum = 40 + self.0.hint() + self.1.hint() + self.2.hint() + self.3.hint()
            + self.4.hint();
        if sum > usize::MAX {
            usize::MAX
        } else {
            sum as usize
        }
    }

    fn encode(&self, buf: &mut Vec<u8>)
        ensures
            final(buf)@ == old(buf)@ + record_bytes(tuple_fields(*self)),
    {
        let ghost fields = tuple_fields(*self);
        proof {
            reveal_with_fuel(fields_bytes, 6);
            assert(fields.drop_last() =~= seq![
                field_of(self.0),
                field_of(self.1),
                field_of(self.2),
                field_of(self.3),
            ]);
            assert(fields.drop_last().drop_last() =~= seq![
                field_of(self.0),
                field_of(self.1),
                field_of(self.2),
            ]);
            assert(fields.drop_last().drop_last().drop_last() =~= seq![
                field_of(self.0),
                field_of(self.1),
            ]);
            assert(fields.drop_last().drop_last().drop_last().drop_last() =~= seq![
                field_of(self.0),
            ]);
            assert(fields_bytes(fields) =~= field_bytes(field_of(self.0)) + field_bytes(
                field_of(self.1),
            ) + field_bytes(field_of(self.2)) + field_bytes(field_of(self.3)) + field_bytes(
                field_of(self.4),
            ));
        }
        let mut encoder = PgRecordEncoder::new(buf);
        encoder.encode(&self.0).encode(&self.1).encode(&self.2).encode(&self.3).encode(&self.4);
        encoder.finish();
        proof {
            assert(buf@ =~= old(buf)@ + record_bytes(fields));
        }
    }

    fn size_hint(&self) -> (r: usize)
        ensures
            r == self.hint(),
    {
        let fixed: usize = 5 * (4 + 4);
        fixed.saturating_add(self.0.size_hint()).saturating_add(self.1.size_hint()).saturating_add(
            self.2.size_hint(),
        ).saturating_add(self.3.size_hint()).saturating_add(self.4.size_hint())
    }
}

/// Whether a field of type `T` can be read where the record `src` stands:
/// there is a field, and it decodes to some value.
pub open spec fn passes_at<T: for <'a>Decode<Option<PgValue<'a>>>>(src: RecordSource) -> bool {
    next_field(src) matches Ok((value, _)) && exists|t: T| #[trigger]
        T::decodes(value, Ok::<T, Error>(t))
}

/// Whether reading a field of type `T` where the record `src` stands fails
/// with `err`: there is no field to read, or its value does not decode.
pub open spec fn fails_at<T: for <'a>Decode<Option<PgValue<'a>>>>(
    src: RecordSource,
    err: Error,
) -> bool {
    match next_field(src) {
        Err(e) => e == err,
        Ok((value, _)) => T::decodes(value, Err::<T, Error>(err)),
    }
}

/// Whether the field where the record `src` stands decodes to `t`.
pub open spec fn gives_at<T: for <'a>Decode<Option<PgValue<'a>>>>(
    src: RecordSource,
    t: T,
) -> bool {
    next_field(src) matches Ok((value, _)) && T::decodes(value, Ok::<T, Error>(t))
}

/// The record behind the next field of `src`.
pub open spec fn behind(src: RecordSource) -> RecordSource {
    match next_field(src) {
        Ok((_, rest)) => rest,
        Err(_) => src,
    }
}

/// The failure of a record that holds another number of fields than its
/// target.
pub open spec fn field_count() -> Error {
    Error::Protocol(ProtocolError::FieldCount)
}

/// Whether `result` is what reading a record of five fields from `s0`, each
/// field as its own type, gives: the tuple of the five values where the record
/// ends behind the fifth, the failure of the first field that cannot be read
/// or decoded, or the failure of a record that goes on behind the fifth.
pub open spec fn decodes_from<A, B, C, D, E>(
    s0: RecordSource,
    result: Result<(A, B, C, D, E), Error>,
) -> bool where
    A: for <'a>Decode<Option<PgValue<'a>>>,
    B: for <'a>Decode<Option<PgValue<'a>>>,
    C: for <'a>Decode<Option<PgValue<'a>>>,
    D: for <'a>Decode<Option<PgValue<'a>>>,
    E: for <'a>Decode<Option<PgValue<'a>>>,
 {
    let s1 = behind(s0);
    let s2 = behind(s1);
    let s3 = behind(s2);
    let s4 = behind(s3);
    let s5 = behind(s4);
    match result {
        Ok(t) => {
            &&& gives_at::<A>(s0, t.0)
            &&& gives_at::<B>(s1, t.1)
            &&& gives_at::<C>(s2, t.2)
            &&& gives_at::<D>(s3, t.3)
            &&& gives_at::<E>(s4, t.4)
            &&& ended(s5)
        },
        Err(err) => {
            ||| fails_at::<A>(s0, err)
            ||| passes_at::<A>(s0) && fails_at::<B>(s1, err)
            ||| passes_at::<A>(s0) && passes_at::<B>(s1) && fails_at::<C>(s2, err)
            ||| passes_at::<A>(s0) && passes_at::<B>(s1) && passes_at::<C>(s2) && fails_at::<D>(
                s3,
                err,
            )
            ||| passes_at::<A>(s0) && passes_at::<B>(s1) && passes_at::<C>(s2) && passes_at::<D>(
                s3,
            ) && fails_at::<E>(s4, err)
            ||| passes_at::<A>(s0) && passes_at::<B>(s1) && passes_at::<C>(s2) && passes_at::<D>(
                s3,
            ) && passes_at::<E>(s4) && !ended(s5) && err == field_count()
        },
    }
}

impl<'de, A, B, C, D, E> Decode<Option<PgValue<'de>>> for (A, B, C, D, E) where
    A: for <'a>Decode<Option<PgValue<'a>>>,
    B: for <'a>Decode<Option<PgValue<'a>>>,
    C: for <'a>Decode<Option<PgValue<'a>>>,
    D: for <'a>Decode<Option<PgValue<'a>>>,
    E: for <'a>Decode<Option<PgValue<'a>>>,
 {
    /// The tuple holds the five fields of a record of exactly five, each
    /// decoded as its own type. A binary record that announces another count
    /// is refused before any field is read, and a text record that goes on
    /// behind its fifth field is refused there. Otherwise the failure is that
    /// of opening the record or of the first field that cannot be read or
    /// decoded.
    open spec fn decodes(value: Option<RawValue>, result: Result<Self, Error>) -> bool {
        match value {
            None => result is Err && result->Err_0 == Error::Decode(DecodeError::UnexpectedNull),
            Some(raw) => match open_record(raw) {
                Err(e) => result is Err && result->Err_0 == e,
                Ok(src) => if announced(src) matches Some(n) && n != 5 {
                    result is Err && result->Err_0 == field_count()
                } else {
                    decodes_from::<A, B, C, D, E>(src, result)
                },
            },
        }
    }

    fn decode(value: Option<PgValue<'de>>) -> (r: Result<Self, Error>)
        ensures
            value is None ==> r is Err && r->Err_0 == Error::Decode(DecodeError::UnexpectedNull),
            value matches Some(raw) ==> match open_record(raw@) {
                Err(e) => r is Err && r->Err_0 == e,
                Ok(src) => if announced(src) matches Some(n) && n != 5 {
                    r is Err && r->Err_0 == field_count()
                } else {
                    decodes_from::<A, B, C, D, E>(src, r)
                },
            },
    {
        let mut decoder = PgRecordDecoder::new(PgValue::try_from(value)?)?;
        if let Some(count) = decoder.announced() {
            if count != 5 {
                return Err(Error::Protocol(ProtocolError::FieldCount));
            }
        }
        let ghost s0 = decoder@;
        let a = match decoder.decode::<A>() {
            Ok(a) => a,
            Err(e) => {
                return Err(e);
            },
        };
        assert(passes_at::<A>(s0));
        let ghost s1 = decoder@;
        let b = match decoder.decode::<B>() {
            Ok(b) => b,
            Err(e) => {
                return Err(e);
            },
        };
        assert(passes_at::<B>(s1));
        let ghost s2 = decoder@;
        let c = match decoder.decode::<C>() {
            Ok(c) => c,
            Err(e) => {
                return Err(e);
            },
        };
        assert(passes_at::<C>(s2));
        let ghost s3 = decoder@;
        let d = match decoder.decode::<D>() {
            Ok(d) => d,
            Err(e) => {
                return Err(e);
            },
        };
        assert(passes_at::<D>(s3));
        let ghost s4 = decoder@;
        let e = match decoder.decode::<E>() {
            Ok(e) => e,
            Err(e) => {
                return Err(e);
            },
        };
        assert(passes_at::<E>(s4));
        if !decoder.is_finished() {
            return Err(Error::Protocol(ProtocolError::FieldCount));
        }
        Ok((a, b, c, d, e))
    }
}

/// What reading `n` fields in a row gives: their raw values in order and what
/// is left of the record, or the first failure.
pub open spec fn read_fields(src: RecordSource, n: nat) -> Result<
    (Seq<Option<RawValue>>, RecordSource),
    Error,
>
    decreases n,
{
    if n == 0 {
        Ok((Seq::<Option<RawValue>>::empty(), src))
    } else {
        match next_field(src) {
            Err(e) => Err(e),
            Ok((value, rest)) => match read_fields(rest, (n - 1) as nat) {
                Err(e) => Err(e),
                Ok((values, last)) => Ok((seq![value] + values, last)),
            },
        }
    }
}

/// A value whose size fits a non-negative length word.
pub open spec fn fits_length_word(value: Option<Seq<u8>>) -> bool {
    value matches Some(v) ==> v.len() <= i32::MAX
}

/// A record that the binary format can hold: its field count fits the count
/// word and each value's size fits a non-negative length word.
pub open spec fn encodable(fields: Seq<Field>) -> bool {
    &&& fields.len() <= u32::MAX
    &&& forall|i: int| 0 <= i < fields.len() ==> fits_length_word((#[trigger] fields[i]).value)
}

/// The raw values of the fields of a binary record.
pub open spec fn binary_values(fields: Seq<Field>) -> Seq<Option<RawValue>> {
    Seq::new(
        fields.len(),
        |i: int|
            match fields[i].value {
                Some(v) => Some(RawValue::Binary(v)),
                None => None,
            },
    )
}

/// The bytes of two runs of fields, one after the other, are the bytes of the
/// joined run.
pub proof fn lemma_fields_bytes_concat(a: Seq<Field>, b: Seq<Field>)
    ensures
        fields_bytes(a + b) == fields_bytes(a) + fields_bytes(b),
    decreases b.len(),
{
    if b.len() == 0 {
        assert(a + b =~= a);
        assert(fields_bytes(a) + fields_bytes(b) =~= fields_bytes(a));
    } else {
        lemma_fields_bytes_concat(a, b.drop_last());
        assert((a + b).drop_last() =~= a + b.drop_last());
        assert((a + b).last() == b.last());
        assert(fields_bytes(a + b) =~= fields_bytes(a) + fields_bytes(b));
    }
}

/// A field that was written is read back as it was, and what follows it is
/// left untouched.
pub proof fn lemma_parse_field_bytes(f: Field, tail: Seq<u8>)
    requires
        fits_length_word(f.value),
    ensures
        parse_field(field_bytes(f) + tail) == Some((f, tail)),
{
    let payload = match f.value {
        Some(v) => v,
        None => Seq::<u8>::empty(),
    };
    let word = length_word(f.value);
    let buf = field_bytes(f) + tail;
    crate::io::lemma_be_u32_of_u32_be(f.oid, u32_be(word) + payload + tail);
    crate::io::lemma_be_u32_of_u32_be(word, payload + tail);
    assert(buf =~= u32_be(f.oid) + (u32_be(word) + payload + tail));
    assert(buf.skip(4) =~= u32_be(word) + (payload + tail));
    assert(buf.len() == 8 + payload.len() + tail.len());
    match f.value {
        Some(v) => {
            assert(word == v.len());
            assert(be_i32(buf.skip(4)) == v.len());
            assert(buf.subrange(8, 8 + v.len() as int) =~= v);
            assert(buf.skip(8 + v.len() as int) =~= tail);
        },
        None => {
            assert(be_i32(buf.skip(4)) == -1);
            assert(buf.skip(8) =~= tail);
        },
    }
}

/// The bytes of a run of fields start with the bytes of its first field.
pub proof fn lemma_fields_bytes_first(fields: Seq<Field>)
    requires
        fields.len() > 0,
    ensures
        fields_bytes(fields) == field_bytes(fields[0]) + fields_bytes(fields.skip(1)),
{
    let first = seq![fields[0]];
    assert(fields =~= first + fields.skip(1));
    lemma_fields_bytes_concat(first, fields.skip(1));
    assert(first.drop_last() =~= Seq::<Field>::empty());
    assert(fields_bytes(first.drop_last()) == Seq::<u8>::empty());
    assert(fields_bytes(first) == fields_bytes(first.drop_last()) + field_bytes(first.last()));
    assert(fields_bytes(first) =~= field_bytes(fields[0]));
}

/// A binary record of the given fields, `k` of which have been read, with
/// the bytes `tail` behind it.
pub open spec fn written_source(fields: Seq<Field>, k: int, tail: Seq<u8>) -> RecordSource {
    RecordSource::Binary {
        rest: fields_bytes(fields.skip(k)) + tail,
        left: (fields.len() - k) as nat,
    }
}

/// A record that was written opens on its first field.
pub proof fn lemma_open_written_record(fields: Seq<Field>, tail: Seq<u8>)
    requires
        encodable(fields),
    ensures
        open_record(RawValue::Binary(record_bytes(fields) + tail)) == Ok::<RecordSource, Error>(
            written_source(fields, 0, tail),
        ),
{
    let bytes = record_bytes(fields) + tail;
    crate::io::lemma_be_u32_of_u32_be(fields.len() as u32, fields_bytes(fields) + tail);
    assert(bytes =~= u32_be(fields.len() as u32) + (fields_bytes(fields) + tail));
    assert(bytes.skip(4) =~= fields_bytes(fields) + tail);
    assert(fields.skip(0) =~= fields);
}

/// The field read after `k` others of a record that was written is the field
/// written at `k`, and what is left is the record behind it.
pub proof fn lemma_next_written_field(fields: Seq<Field>, k: int, tail: Seq<u8>)
    requires
        encodable(fields),
        0 <= k < fields.len(),
    ensures
        next_field(written_source(fields, k, tail)) == Ok::<
            (Option<RawValue>, RecordSource),
            Error,
        >((binary_values(fields)[k], written_source(fields, k + 1, tail))),
{
    let here = fields.skip(k);
    let after = fields.skip(k + 1);
    let behind = fields_bytes(after) + tail;
    assert(here[0] == fields[k]);
    assert(here.skip(1) =~= after);
    assert(fits_length_word(fields[k].value));
    lemma_fields_bytes_first(here);
    lemma_parse_field_bytes(fields[k], behind);
    assert(fields_bytes(here) + tail =~= field_bytes(fields[k]) + behind);
}

/// Reading the fields that are left of a record that was written gives their
/// values in order and stops exactly where the written fields end.
pub proof fn lemma_read_written_fields(fields: Seq<Field>, k: int, tail: Seq<u8>)
    requires
        encodable(fields),
        0 <= k <= fields.len(),
    ensures
        read_fields(written_source(fields, k, tail), (fields.len() - k) as nat) == Ok::<
            (Seq<Option<RawValue>>, RecordSource),
            Error,
        >((binary_values(fields).skip(k), written_source(fields, fields.len() as int, tail))),
    decreases fields.len() - k,
{
    let values = binary_values(fields);
    if k == fields.len() {
        assert(values.skip(k) =~= Seq::<Option<RawValue>>::empty());
    } else {
        lemma_next_written_field(fields, k, tail);
        lemma_read_written_fields(fields, k + 1, tail);
        assert(values.skip(k) =~= seq![values[k]] + values.skip(k + 1));
    }
}

/// Round trip of the binary format: a record that was written opens with the
/// count of its fields, and reading that many fields gives back every value,
/// NULL included, in the order written, consuming exactly the record's bytes.
pub proof fn lemma_binary_round_trip(fields: Seq<Field>, tail: Seq<u8>)
    requires
        encodable(fields),
    ensures
        open_record(RawValue::Binary(record_bytes(fields) + tail)) matches Ok(src) && read_fields(
            src,
            fields.len(),
        ) == Ok::<(Seq<Option<RawValue>>, RecordSource), Error>(
            (binary_values(fields), RecordSource::Binary { rest: tail, left: 0 }),
        ),
{
    lemma_open_written_record(fields, tail);
    lemma_read_written_fields(fields, 0, tail);
    assert(binary_values(fields).skip(0) =~= binary_values(fields));
    assert(fields.skip(fields.len() as int) =~= Seq::<Field>::empty());
    assert(fields_bytes(Seq::<Field>::empty()) + tail =~= tail);
}

/// Whether none of the characters of `s` from `i` up to `j` is a comma or a
/// double quote.
pub open spec fn plain(s: Seq<char>, i: int, j: int) -> bool {
    forall|k: int| i <= k < j ==> #[trigger] s[k] != ',' && s[k] != '"'
}

/// A field without quotes is read as it stands: its value is the characters
/// up to the next comma or to the end of the text, and NULL where there are
/// none.
pub proof fn lemma_scan_plain_field(s: Seq<char>, i: int, j: int, acc: Seq<char>)
    requires
        0 <= i <= j <= s.len(),
        plain(s, i, j),
        j < s.len() ==> s[j] == ',',
    ensures
        scan_text(s, i, false, false, acc) == (TextField::Field {
            value: if acc.len() + (j - i) > 0 {
                Some(acc + s.subrange(i, j))
            } else {
                None
            },
            next: if j < s.len() {
                Some(j + 1)
            } else {
                None
            },
        }),
    decreases j - i,
{
    if i == j {
        assert(acc + s.subrange(i, j) =~= acc);
    } else {
        assert(s[i] != ',' && s[i] != '"');
        lemma_scan_plain_field(s, i + 1, j, acc.push(s[i]));
        assert(acc.push(s[i]) + s.subrange(i + 1, j) =~= acc + s.subrange(i, j));
    }
}

/// The characters `v` as they stand inside a quoted section: each double quote
/// doubled.
pub open spec fn quoted(v: Seq<char>) -> Seq<char>
    decreases v.len(),
{
    if v.len() == 0 {
        Seq::<char>::empty()
    } else if v[0] == '"' {
        seq!['"', '"'] + quoted(v.skip(1))
    } else {
        seq![v[0]] + quoted(v.skip(1))
    }
}

/// A value as a field of a text record: nothing for NULL, the characters in
/// double quotes otherwise.
pub open spec fn field_text(value: Option<Seq<char>>) -> Seq<char> {
    match value {
        None => Seq::<char>::empty(),
        Some(v) => seq!['"'] + quoted(v) + seq!['"'],
    }
}

/// The fields of a text record, separated by commas.
pub open spec fn fields_text(values: Seq<Option<Seq<char>>>) -> Seq<char>
    decreases values.len(),
{
    if values.len() == 0 {
        Seq::<char>::empty()
    } else if values.len() == 1 {
        field_text(values[0])
    } else {
        field_text(values[0]) + seq![','] + fields_text(values.skip(1))
    }
}

/// A text record: its fields between parentheses.
pub open spec fn record_text(values: Seq<Option<Seq<char>>>) -> Seq<char> {
    seq!['('] + fields_text(values) + seq![')']
}

/// The raw values of the fields of a text record.
pub open spec fn text_values(values: Seq<Option<Seq<char>>>) -> Seq<Option<RawValue>> {
    Seq::new(
        values.len(),
        |i: int|
            match values[i] {
                Some(v) => Some(RawValue::Text(v)),
                None => None,
            },
    )
}

/// Inside a quoted section, scanning over the quoted form of `v` collects `v`.
pub proof fn lemma_scan_quoted(s: Seq<char>, j: int, was_quoted: bool, acc: Seq<char>, v: Seq<char>)
    requires
        0 <= j,
        j + quoted(v).len() <= s.len(),
        s.subrange(j, j + quoted(v).len()) == quoted(v),
    ensures
        scan_text(s, j, true, was_quoted, acc) == scan_text(
            s,
            j + quoted(v).len(),
            true,
            was_quoted,
            acc + v,
        ),
    decreases v.len(),
{
    let q = quoted(v);
    if v.len() == 0 {
        assert(acc + v =~= acc);
    } else {
        let rest = v.skip(1);
        let qr = quoted(rest);
        if v[0] == '"' {
            assert(q =~= seq!['"', '"'] + qr);
            assert(s[j] == s.subrange(j, j + q.len())[0]);
            assert(s[j + 1] == s.subrange(j, j + q.len())[1]);
            assert(s.subrange(j + 2, j + 2 + qr.len()) =~= qr) by {
                assert forall|k: int| 0 <= k < qr.len() implies s[j + 2 + k] == qr[k] by {
                    assert(s[j + 2 + k] == s.subrange(j, j + q.len())[2 + k]);
                }
            }
            lemma_scan_quoted(s, j + 2, was_quoted, acc.push('"'), rest);
            assert(acc.push('"') + rest =~= acc + v);
        } else {
            assert(q =~= seq![v[0]] + qr);
            assert(s[j] == s.subrange(j, j + q.len())[0]);
            assert(s.subrange(j + 1, j + 1 + qr.len()) =~= qr) by {
                assert forall|k: int| 0 <= k < qr.len() implies s[j + 1 + k] == qr[k] by {
                    assert(s[j + 1 + k] == s.subrange(j, j + q.len())[1 + k]);
                }
            }
            lemma_scan_quoted(s, j + 1, was_quoted, acc.push(v[0]), rest);
            assert(acc.push(v[0]) + rest =~= acc + v);
        }
    }
}

/// Scanning a field that was written gives back its value, NULL included, and
/// stops behind the comma that follows it, or at the end of the text.
pub proof fn lemma_scan_written_field(s: Seq<char>, i: int, value: Option<Seq<char>>, more: bool)
    requires
        0 <= i,
        i + field_text(value).len() <= s.len(),
        s.subrange(i, i + field_text(value).len()) == field_text(value),
        more ==> i + field_text(value).len() < s.len() && s[i + field_text(value).len()] == ',',
        !more ==> i + field_text(value).len() == s.len(),
    ensures
        scan_text(s, i, false, false, Seq::<char>::empty()) == (TextField::Field {
            value,
            next: if more {
                Some(i + field_text(value).len() + 1)
            } else {
                None
            },
        }),
{
    let f = field_text(value);
    let empty = Seq::<char>::empty();
    match value {
        None => {},
        Some(v) => {
            let q = quoted(v);
            let close = i + 1 + q.len();
            assert(f.len() == q.len() + 2);
            assert(s[i] == f[0]);
            assert(s[close] == f[1 + q.len() as int]);
            assert(s.subrange(i + 1, close) =~= q) by {
                assert forall|k: int| 0 <= k < q.len() implies s[i + 1 + k] == q[k] by {
                    assert(s[i + 1 + k] == s.subrange(i, i + f.len())[1 + k]);
                }
            }
            assert(scan_text(s, i, false, false, empty) == scan_text(s, i + 1, true, true, empty));
            lemma_scan_quoted(s, i + 1, true, empty, v);
            assert(empty + v =~= v);
            assert(scan_text(s, close, true, true, v) == scan_text(s, close + 1, false, true, v));
        },
    }
}

/// Reading as many fields as a text holds gives back their values in order,
/// and the last field ends the record.
pub proof fn lemma_read_written_text(body: Seq<char>, i: int, values: Seq<Option<Seq<char>>>)
    requires
        values.len() >= 1,
        0 <= i <= body.len(),
        body.subrange(i, body.len() as int) == fields_text(values),
    ensures
        read_fields(RecordSource::Text { body, at: Some(i) }, values.len()) == Ok::<
            (Seq<Option<RawValue>>, RecordSource),
            Error,
        >((text_values(values), RecordSource::Text { body, at: None })),
    decreases values.len(),
{
    let src = RecordSource::Text { body, at: Some(i) };
    let f = field_text(values[0]);
    let all = fields_text(values);
    let tail = body.subrange(i, body.len() as int);
    let value = text_values(values)[0];
    if values.len() == 1 {
        assert(body.subrange(i, i + f.len()) =~= f);
        lemma_scan_written_field(body, i, values[0], false);
        let last = RecordSource::Text { body, at: None };
        assert(next_field(src) == Ok::<(Option<RawValue>, RecordSource), Error>((value, last)));
        assert(read_fields(last, 0) == Ok::<(Seq<Option<RawValue>>, RecordSource), Error>(
            (Seq::<Option<RawValue>>::empty(), last),
        ));
        assert(text_values(values) =~= seq![value] + Seq::<Option<RawValue>>::empty());
    } else {
        let others = values.skip(1);
        let rest = fields_text(others);
        assert(all =~= f + seq![','] + rest);
        assert(body.subrange(i, i + f.len()) =~= f) by {
            assert forall|k: int| 0 <= k < f.len() implies body[i + k] == f[k] by {
                assert(body[i + k] == tail[k]);
            }
        }
        assert(body[i + f.len()] == tail[f.len() as int]);
        lemma_scan_written_field(body, i, values[0], true);
        let at = i + f.len() + 1;
        let after = RecordSource::Text { body, at: Some(at) };
        assert(next_field(src) == Ok::<(Option<RawValue>, RecordSource), Error>((value, after)));
        assert(body.subrange(at, body.len() as int) =~= rest) by {
            assert forall|k: int| 0 <= k < rest.len() implies body[at + k] == rest[k] by {
                assert(body[at + k] == tail[f.len() + 1 + k]);
            }
        }
        lemma_read_written_text(body, at, others);
        assert(text_values(values) =~= seq![value] + text_values(others));
    }
}

/// Round trip of the text format: a record of at least one field that was
/// written with every value quoted opens on its first field, and reading as
/// many fields as were written gives back every value, NULL included, in the
/// order written, and ends the record.
pub proof fn lemma_text_round_trip(values: Seq<Option<Seq<char>>>)
    requires
        values.len() >= 1,
    ensures
        open_record(RawValue::Text(record_text(values))) matches Ok(src) && read_fields(
            src,
            values.len(),
        ) == Ok::<(Seq<Option<RawValue>>, RecordSource), Error>(
            (text_values(values), RecordSource::Text { body: fields_text(values), at: None }),
        ),
{
    let text = record_text(values);
    let body = fields_text(values);
    assert(text[0] == '(');
    assert(text[text.len() - 1] == ')');
    assert(text.subrange(1, text.len() - 1) =~= body);
    assert(body.subrange(0, body.len() as int) =~= body);
    lemma_read_written_text(body, 0, values);
}

/// Whether reading a field of type `X` where the record `src` stands gives
/// back `x` and nothing else, and leaves the record `rest`.
pub open spec fn reads_back<X>(src: RecordSource, x: X, rest: RecordSource) -> bool where
    X: DeepView + for <'a>Decode<Option<PgValue<'a>>>,
 {
    &&& behind(src) == rest
    &&& forall|err: Error| !#[trigger] fails_at::<X>(src, err)
    &&& forall|y: X| #[trigger] gives_at::<X>(src, y) ==> y.deep_view() == x.deep_view()
}

/// Where a field of a type that reads back what it wrote holds what `x`
/// wrote, reading it as that type neither fails nor gives another value.
pub proof fn lemma_written_field_decodes<X>(src: RecordSource, x: X, rest: RecordSource) where
    X: Encode<Postgres> + DeepView + for <'a>Decode<Option<PgValue<'a>>>,

    requires
        round_trips::<X>(),
        next_field(src) == Ok::<(Option<RawValue>, RecordSource), Error>(
            (Some(RawValue::Binary(x.encoding())), rest),
        ),
    ensures
        reads_back::<X>(src, x, rest),
{
    let value = Some(RawValue::Binary(x.encoding()));
    assert forall|err: Error| !#[trigger] fails_at::<X>(src, err) by {
        if <X as Decode<Option<PgValue<'static>>>>::decodes(value, Err::<X, Error>(err)) {
            assert(false);
        }
    }
    assert forall|y: X| #[trigger] gives_at::<X>(src, y) implies y.deep_view() == x.deep_view() by {
        assert(<X as Decode<Option<PgValue<'static>>>>::decodes(value, Ok::<X, Error>(y)));
    }
}

/// The field read after `k` others of a record that was written gives back
/// the value that was written there, whatever the other fields hold, and
/// behind the last field nothing of the record is left.
pub proof fn lemma_written_record_reads_back_field<X>(
    fields: Seq<Field>,
    k: int,
    tail: Seq<u8>,
    x: X,
) where X: Encode<Postgres> + DeepView + for <'a>Decode<Option<PgValue<'a>>>
    requires
        encodable(fields),
        0 <= k < fields.len(),
        fields[k].value == Some(x.encoding()),
        round_trips::<X>(),
    ensures
        reads_back::<X>(written_source(fields, k, tail), x, written_source(fields, k + 1, tail)),
        written_source(fields, fields.len() as int, tail) == (RecordSource::Binary {
            rest: tail,
            left: 0,
        }),
{
    lemma_next_written_field(fields, k, tail);
    lemma_written_field_decodes::<X>(
        written_source(fields, k, tail),
        x,
        written_source(fields, k + 1, tail),
    );
    assert(fields.skip(fields.len() as int) =~= Seq::<Field>::empty());
    assert(fields_bytes(Seq::<Field>::empty()) + tail =~= tail);
}

/// Where each of five fields in a row reads back one value of a tuple, the
/// five read back the tuple.
pub proof fn lemma_fields_read_back_the_tuple<A, B, C, D, E>(
    s0: RecordSource,
    s1: RecordSource,
    s2: RecordSource,
    s3: RecordSource,
    s4: RecordSource,
    s5: RecordSource,
    t: (A, B, C, D, E),
    r: Result<(A, B, C, D, E), Error>,
) where
    A: DeepView + for <'a>Decode<Option<PgValue<'a>>>,
    B: DeepView + for <'a>Decode<Option<PgValue<'a>>>,
    C: DeepView + for <'a>Decode<Option<PgValue<'a>>>,
    D: DeepView + for <'a>Decode<Option<PgValue<'a>>>,
    E: DeepView + for <'a>Decode<Option<PgValue<'a>>>,

    requires
        reads_back::<A>(s0, t.0, s1),
        reads_back::<B>(s1, t.1, s2),
        reads_back::<C>(s2, t.2, s3),
        reads_back::<D>(s3, t.3, s4),
        reads_back::<E>(s4, t.4, s5),
        ended(s5),
        decodes_from::<A, B, C, D, E>(s0, r),
    ensures
        r is Ok,
        r->Ok_0.deep_view() == t.deep_view(),
{
    match r {
        Ok(u) => {
            assert(gives_at::<A>(s0, u.0));
            assert(gives_at::<B>(s1, u.1));
            assert(gives_at::<C>(s2, u.2));
            assert(gives_at::<D>(s3, u.3));
            assert(gives_at::<E>(s4, u.4));
        },
        Err(err) => {
            assert(!fails_at::<A>(s0, err));
            assert(!fails_at::<B>(s1, err));
            assert(!fails_at::<C>(s2, err));
            assert(!fails_at::<D>(s3, err));
            assert(!fails_at::<E>(s4, err));
        },
    }
}

/// Round trip of a record of five values: where each field's type reads back
/// what it wrote, and each written value fits a length word, the tuple that
/// was written in the binary format is read back as it was, and nothing else
/// is.
pub proof fn lemma_tuple_round_trip<A, B, C, D, E>(
    t: (A, B, C, D, E),
    r: Result<(A, B, C, D, E), Error>,
) where
    A: Type<Postgres> + Encode<Postgres> + DeepView + for <'a>Decode<Option<PgValue<'a>>>,
    B: Type<Postgres> + Encode<Postgres> + DeepView + for <'a>Decode<Option<PgValue<'a>>>,
    C: Type<Postgres> + Encode<Postgres> + DeepView + for <'a>Decode<Option<PgValue<'a>>>,
    D: Type<Postgres> + Encode<Postgres> + DeepView + for <'a>Decode<Option<PgValue<'a>>>,
    E: Type<Postgres> + Encode<Postgres> + DeepView + for <'a>Decode<Option<PgValue<'a>>>,

    requires
        round_trips::<A>(),
        round_trips::<B>(),
        round_trips::<C>(),
        round_trips::<D>(),
        round_trips::<E>(),
        encodable(tuple_fields(t)),
        <(A, B, C, D, E) as Decode<Option<PgValue<'static>>>>::decodes(
            Some(RawValue::Binary(t.encoding())),
            r,
        ),
    ensures
        r is Ok,
        r->Ok_0.deep_view() == t.deep_view(),
{
    let fields = tuple_fields(t);
    let none = Seq::<u8>::empty();
    let s0 = written_source(fields, 0, none);
    let s1 = written_source(fields, 1, none);
    let s2 = written_source(fields, 2, none);
    let s3 = written_source(fields, 3, none);
    let s4 = written_source(fields, 4, none);
    let s5 = written_source(fields, 5, none);
    assert(decodes_from::<A, B, C, D, E>(s0, r)) by {
        assert(record_bytes(fields) + none =~= t.encoding());
        lemma_open_written_record(fields, none);
    }
    assert(reads_back::<A>(s0, t.0, s1)) by {
        lemma_next_written_field(fields, 0, none);
        lemma_written_field_decodes::<A>(s0, t.0, s1);
    }
    assert(reads_back::<B>(s1, t.1, s2)) by {
        lemma_next_written_field(fields, 1, none);
        lemma_written_field_decodes::<B>(s1, t.1, s2);
    }
    assert(reads_back::<C>(s2, t.2, s3)) by {
        lemma_next_written_field(fields, 2, none);
        lemma_written_field_decodes::<C>(s2, t.2, s3);
    }
    assert(reads_back::<D>(s3, t.3, s4)) by {
        lemma_next_written_field(fields, 3, none);
        lemma_written_field_decodes::<D>(s3, t.3, s4);
    }
    assert(reads_back::<E>(s4, t.4, s5)) by {
        lemma_next_written_field(fields, 4, none);
        lemma_written_field_decodes::<E>(s4, t.4, s5);
    }
    lemma_fields_read_back_the_tuple(s0, s1, s2, s3, s4, s5, t, r);
}

} // verus!
