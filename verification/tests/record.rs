use sqlx_core::decode::Decode;
use sqlx_core::encode::Encode;
use sqlx_core::error::{DecodeError, Error, ProtocolError};
use sqlx_core::postgres::record::{PgRecordDecoder, PgRecordEncoder, RecordField};
use sqlx_core::postgres::{PgValue, Postgres};
use sqlx_core::types::Type;

fn sample() -> Vec<u8> {
    vec![
        0, 0, 0, 5, // five fields
        0, 0, 0, 16, 0, 0, 0, 1, 1, // bool
        0, 0, 0, 23, 0, 0, 0, 4, 0, 0, 0, 7, // int4
        0, 0, 0, 23, 0, 0, 0, 4, 0xFF, 0xFF, 0xFF, 0xFE, // int4
        0, 0, 0, 25, 0, 0, 0, 2, b'h', b'i', // text
        0, 0, 0, 25, 0, 0, 0, 1, b'x', // text
    ]
}

#[test]
fn encoder_reserves_the_count_word() {
    let mut buf = vec![9u8];
    {
        let encoder = PgRecordEncoder::new(&mut buf);
        assert_eq!(encoder.beg, 5);
        assert_eq!(encoder.num, 0);
    }
    assert_eq!(buf, vec![9, 0, 0, 0, 0]);
}

#[test]
fn encoder_writes_oid_length_and_value() {
    let mut buf = Vec::new();
    {
        let mut encoder = PgRecordEncoder::new(&mut buf);
        encoder.encode(7i32);
        assert_eq!(encoder.num, 1);
    }
    assert_eq!(buf, vec![0, 0, 0, 0, 0, 0, 0, 23, 0, 0, 0, 4, 0, 0, 0, 7]);
}

#[test]
fn encoder_finish_patches_the_count() {
    let mut buf = vec![0xAA];
    {
        let mut encoder = PgRecordEncoder::new(&mut buf);
        encoder.encode(true).encode("hi").finish();
    }
    assert_eq!(
        buf,
        vec![0xAA, 0, 0, 0, 2, 0, 0, 0, 16, 0, 0, 0, 1, 1, 0, 0, 0, 25, 0, 0, 0, 2, b'h', b'i']
    );
}

#[test]
fn encoder_finish_on_empty_record() {
    let mut buf = Vec::new();
    PgRecordEncoder::new(&mut buf).finish();
    assert_eq!(buf, vec![0, 0, 0, 0]);
}

#[test]
fn tuple_encodes_as_record() {
    let mut buf = Vec::new();
    let value = (true, 7i32, -2i32, "hi", String::from("x"));
    Encode::<Postgres>::encode(&value, &mut buf);
    assert_eq!(buf, sample());
}

#[test]
fn tuple_size_hint_counts_headers_and_values() {
    let value = (true, 7i32, -2i32, "hi", String::from("x"));
    assert_eq!(Encode::<Postgres>::size_hint(&value), 40 + 1 + 4 + 4 + 2 + 1);
}

#[test]
fn tuple_type_is_record() {
    let info = <(bool, i32, i32, &str, String) as Type<Postgres>>::type_info();
    assert_eq!(info.id.0, 32925);
    assert_eq!(info.name.as_deref(), Some("RECORD"));
    assert_eq!(info.oid(), 32925);
}

#[test]
fn tuple_round_trips_through_binary() {
    let mut buf = Vec::new();
    let value = (false, i32::MIN, i32::MAX, "héllo, \"wörld\"", String::new());
    Encode::<Postgres>::encode(&value, &mut buf);
    let back: (bool, i32, i32, String, String) =
        Decode::decode(Some(PgValue::Binary(&buf))).unwrap();
    assert_eq!(back, (false, i32::MIN, i32::MAX, String::from("héllo, \"wörld\""), String::new()));
}

#[test]
fn binary_fields_come_out_in_order() {
    let bytes = sample();
    let mut decoder = PgRecordDecoder::new(PgValue::Binary(&bytes)).unwrap();
    assert_eq!(decoder.decode::<bool>(), Ok(true));
    assert_eq!(decoder.decode::<i32>(), Ok(7));
    assert_eq!(decoder.decode::<i32>(), Ok(-2));
    assert_eq!(decoder.decode::<String>(), Ok(String::from("hi")));
    assert_eq!(decoder.decode::<Option<String>>(), Ok(Some(String::from("x"))));
    assert_eq!(decoder.decode::<bool>(), Err(Error::Protocol(ProtocolError::NoMoreFields)));
}

#[test]
fn binary_raw_field_borrows_exactly_its_bytes() {
    let bytes = vec![0, 0, 0, 2, 0, 0, 0, 25, 0, 0, 0, 3, 1, 2, 3, 0, 0, 0, 17, 0, 0, 0, 0];
    let mut decoder = PgRecordDecoder::new(PgValue::Binary(&bytes)).unwrap();
    match decoder.decode_raw() {
        Ok(Some(RecordField::Binary(b))) => assert_eq!(b, &[1u8, 2, 3][..]),
        other => panic!("unexpected {:?}", other),
    }
    match decoder.decode_raw() {
        Ok(Some(RecordField::Binary(b))) => assert!(b.is_empty()),
        other => panic!("unexpected {:?}", other),
    }
}

#[test]
fn binary_negative_length_is_null() {
    let bytes = vec![0, 0, 0, 2, 0, 0, 0, 23, 0xFF, 0xFF, 0xFF, 0xFF, 0, 0, 0, 23, 0x80, 0, 0, 0];
    let mut decoder = PgRecordDecoder::new(PgValue::Binary(&bytes)).unwrap();
    assert_eq!(decoder.decode::<Option<i32>>(), Ok(None));
    assert_eq!(decoder.decode::<i32>(), Err(Error::Decode(DecodeError::UnexpectedNull)));
    assert_eq!(decoder.decode::<i32>(), Err(Error::Protocol(ProtocolError::NoMoreFields)));
}

#[test]
fn binary_truncated_count_fails() {
    let bytes = vec![0, 0, 0];
    assert!(matches!(
        PgRecordDecoder::new(PgValue::Binary(&bytes)),
        Err(Error::Protocol(ProtocolError::Truncated))
    ));
}

#[test]
fn binary_truncated_header_fails() {
    let bytes = vec![0, 0, 0, 1, 0, 0, 0, 23, 0, 0, 0];
    let mut decoder = PgRecordDecoder::new(PgValue::Binary(&bytes)).unwrap();
    assert_eq!(decoder.decode::<i32>(), Err(Error::Protocol(ProtocolError::Truncated)));
}

#[test]
fn binary_truncated_payload_fails_and_keeps_the_field() {
    let bytes = vec![0, 0, 0, 1, 0, 0, 0, 23, 0, 0, 0, 4, 0, 0, 0];
    let mut decoder = PgRecordDecoder::new(PgValue::Binary(&bytes)).unwrap();
    assert_eq!(decoder.decode::<i32>(), Err(Error::Protocol(ProtocolError::Truncated)));
    assert_eq!(decoder.decode::<i32>(), Err(Error::Protocol(ProtocolError::Truncated)));
}

#[test]
fn binary_count_limits_the_fields() {
    let bytes = vec![0, 0, 0, 0, 0, 0, 0, 23, 0, 0, 0, 4, 0, 0, 0, 1];
    let mut decoder = PgRecordDecoder::new(PgValue::Binary(&bytes)).unwrap();
    assert_eq!(decoder.decode::<i32>(), Err(Error::Protocol(ProtocolError::NoMoreFields)));
}

#[test]
fn binary_value_of_wrong_size_is_a_mismatch() {
    let bytes = vec![0, 0, 0, 2, 0, 0, 0, 23, 0, 0, 0, 2, 0, 1, 0, 0, 0, 16, 0, 0, 0, 1, 0];
    let mut decoder = PgRecordDecoder::new(PgValue::Binary(&bytes)).unwrap();
    assert_eq!(decoder.decode::<i32>(), Err(Error::Decode(DecodeError::Mismatch)));
    assert_eq!(decoder.decode::<bool>(), Ok(false));
}

#[test]
fn text_empty_record() {
    let mut decoder = PgRecordDecoder::new(PgValue::Text("()")).unwrap();
    assert_eq!(decoder.decode::<Option<i32>>(), Ok(None));
    assert_eq!(decoder.decode::<Option<i32>>(), Err(Error::Protocol(ProtocolError::NoMoreFields)));
}

#[test]
fn text_null_field_is_a_bare_empty_segment() {
    let mut decoder = PgRecordDecoder::new(PgValue::Text("(1,,3)")).unwrap();
    assert_eq!(decoder.decode::<i32>(), Ok(1));
    assert_eq!(decoder.decode::<Option<i32>>(), Ok(None));
    assert_eq!(decoder.decode::<i32>(), Ok(3));
    assert_eq!(decoder.decode::<i32>(), Err(Error::Protocol(ProtocolError::NoMoreFields)));
}

#[test]
fn text_null_into_non_optional_target_fails() {
    let mut decoder = PgRecordDecoder::new(PgValue::Text("(,)")).unwrap();
    assert_eq!(decoder.decode::<i32>(), Err(Error::Decode(DecodeError::UnexpectedNull)));
    assert_eq!(decoder.decode::<String>(), Err(Error::Decode(DecodeError::UnexpectedNull)));
}

#[test]
fn text_quoted_empty_string_is_not_null() {
    let mut decoder = PgRecordDecoder::new(PgValue::Text("(\"\",)")).unwrap();
    assert_eq!(decoder.decode::<Option<String>>(), Ok(Some(String::new())));
    assert_eq!(decoder.decode::<Option<String>>(), Ok(None));
}

#[test]
fn text_quoted_field_with_comma() {
    let mut decoder = PgRecordDecoder::new(PgValue::Text("(\"a,b\",2)")).unwrap();
    assert_eq!(decoder.decode::<String>(), Ok(String::from("a,b")));
    assert_eq!(decoder.decode::<i32>(), Ok(2));
}

#[test]
fn text_quoted_field_with_escaped_quote() {
    let mut decoder = PgRecordDecoder::new(PgValue::Text("(\"say \"\"hi\"\", ok\",t)")).unwrap();
    assert_eq!(decoder.decode::<String>(), Ok(String::from("say \"hi\", ok")));
    assert_eq!(decoder.decode::<bool>(), Ok(true));
}

#[test]
fn text_field_of_only_an_escaped_quote() {
    let mut decoder = PgRecordDecoder::new(PgValue::Text("(\"\"\"\")")).unwrap();
    assert_eq!(decoder.decode::<String>(), Ok(String::from("\"")));
}

#[test]
fn text_last_unquoted_field_is_whole() {
    let mut decoder = PgRecordDecoder::new(PgValue::Text("(f,123)")).unwrap();
    assert_eq!(decoder.decode::<bool>(), Ok(false));
    assert_eq!(decoder.decode::<i32>(), Ok(123));
}

#[test]
fn text_raw_field_is_unquoted() {
    let mut decoder = PgRecordDecoder::new(PgValue::Text("(\"x y\")")).unwrap();
    match decoder.decode_raw() {
        Ok(Some(RecordField::Text(s))) => assert_eq!(s, "x y"),
        other => panic!("unexpected {:?}", other),
    }
}

#[test]
fn text_unterminated_quote_fails_and_keeps_the_field() {
    let mut decoder = PgRecordDecoder::new(PgValue::Text("(1,\"abc)")).unwrap();
    assert_eq!(decoder.decode::<i32>(), Ok(1));
    assert_eq!(decoder.decode::<String>(), Err(Error::Protocol(ProtocolError::UnterminatedQuote)));
    assert_eq!(decoder.decode::<String>(), Err(Error::Protocol(ProtocolError::UnterminatedQuote)));
}

#[test]
fn text_without_parentheses_is_malformed() {
    for s in ["", "(", ")", "1,2", "(1,2", "1,2)", ")("] {
        assert!(
            matches!(
                PgRecordDecoder::new(PgValue::Text(s)),
                Err(Error::Protocol(ProtocolError::MalformedRecord))
            ),
            "{:?}",
            s
        );
    }
}

#[test]
fn text_non_ascii_fields() {
    let mut decoder = PgRecordDecoder::new(PgValue::Text("(żółw,\"日本, 語\")")).unwrap();
    assert_eq!(decoder.decode::<String>(), Ok(String::from("żółw")));
    assert_eq!(decoder.decode::<String>(), Ok(String::from("日本, 語")));
}

#[test]
fn tuple_decodes_from_text() {
    let value: (bool, i32, Option<i32>, String, Option<String>) =
        Decode::decode(Some(PgValue::Text("(t,42,,\"hello, world\",)"))).unwrap();
    assert_eq!(value, (true, 42, None, String::from("hello, world"), None));
}

#[test]
fn text_and_binary_agree() {
    let mut buf = Vec::new();
    Encode::<Postgres>::encode(&(true, 42i32, -1i32, "a\"b", "c,d"), &mut buf);
    let binary: (bool, i32, i32, String, String) =
        Decode::decode(Some(PgValue::Binary(&buf))).unwrap();
    let text: (bool, i32, i32, String, String) =
        Decode::decode(Some(PgValue::Text("(t,42,-1,\"a\"\"b\",\"c,d\")"))).unwrap();
    assert_eq!(binary, text);
}

#[test]
fn tuple_from_null_fails() {
    let r: Result<(bool, i32, i32, String, String), Error> = Decode::decode(None::<PgValue>);
    assert_eq!(r, Err(Error::Decode(DecodeError::UnexpectedNull)));
}

#[test]
fn tuple_reports_the_first_failing_field() {
    let r: Result<(bool, i32, i32, String, String), Error> =
        Decode::decode(Some(PgValue::Text("(t,x,,a,b)")));
    assert_eq!(r, Err(Error::Decode(DecodeError::Mismatch)));
    let r: Result<(bool, i32, i32, String, String), Error> =
        Decode::decode(Some(PgValue::Text("(t,1)")));
    assert_eq!(r, Err(Error::Protocol(ProtocolError::NoMoreFields)));
}

#[test]
fn optional_tuple_from_null_is_none() {
    let r: Result<Option<(bool, i32, i32, String, String)>, Error> =
        Decode::decode(None::<PgValue>);
    assert_eq!(r, Ok(None));
}

#[test]
fn encoder_writes_raw_fields() {
    let mut buf = Vec::new();
    {
        let mut encoder = PgRecordEncoder::new(&mut buf);
        encoder.encode_raw(701, &[1, 2, 3]).encode_raw(17, &[]).finish();
    }
    assert_eq!(buf, vec![0, 0, 0, 2, 0, 0, 2, 0xBD, 0, 0, 0, 3, 1, 2, 3, 0, 0, 0, 17, 0, 0, 0, 0]);
}

#[test]
fn int8_tuple_round_trips() {
    let mut buf = Vec::new();
    let value = (true, -1i32, i64::MIN, i64::MAX, String::from("ok"));
    Encode::<Postgres>::encode(&value, &mut buf);
    let back: (bool, i32, i64, i64, String) = Decode::decode(Some(PgValue::Binary(&buf))).unwrap();
    assert_eq!(back, value);
}

#[test]
fn tuple_refuses_a_binary_record_of_another_count() {
    // count 6, five readable fields
    let mut bytes = sample();
    bytes[3] = 6;
    let r: Result<(bool, i32, i32, String, String), Error> =
        Decode::decode(Some(PgValue::Binary(&bytes)));
    assert_eq!(r, Err(Error::Protocol(ProtocolError::FieldCount)));
    // count 6, six readable fields
    bytes.extend_from_slice(&[0, 0, 0, 16, 0, 0, 0, 1, 1]);
    let r: Result<(bool, i32, i32, String, String), Error> =
        Decode::decode(Some(PgValue::Binary(&bytes)));
    assert_eq!(r, Err(Error::Protocol(ProtocolError::FieldCount)));
    // count 4, five readable fields
    let mut bytes = sample();
    bytes[3] = 4;
    let r: Result<(bool, i32, i32, String, String), Error> =
        Decode::decode(Some(PgValue::Binary(&bytes)));
    assert_eq!(r, Err(Error::Protocol(ProtocolError::FieldCount)));
    // the count is tested before any field
    let mut bytes = sample();
    bytes[3] = 0;
    bytes.truncate(4);
    let r: Result<(bool, i32, i32, String, String), Error> =
        Decode::decode(Some(PgValue::Binary(&bytes)));
    assert_eq!(r, Err(Error::Protocol(ProtocolError::FieldCount)));
}

#[test]
fn tuple_refuses_a_text_record_of_another_count() {
    let r: Result<(bool, i32, i32, String, String), Error> =
        Decode::decode(Some(PgValue::Text("(t,1,2,a,b,c)")));
    assert_eq!(r, Err(Error::Protocol(ProtocolError::FieldCount)));
    let r: Result<(bool, i32, i32, String, String), Error> =
        Decode::decode(Some(PgValue::Text("(t,1,2,a,b,)")));
    assert_eq!(r, Err(Error::Protocol(ProtocolError::FieldCount)));
    let r: Result<(bool, i32, i32, String, String), Error> =
        Decode::decode(Some(PgValue::Text("(t,1,2,a)")));
    assert_eq!(r, Err(Error::Protocol(ProtocolError::NoMoreFields)));
    // a field that does not decode is reported before the count of a text record is known
    let r: Result<(bool, i32, i32, String, String), Error> =
        Decode::decode(Some(PgValue::Text("(t,x,2,a,b,c)")));
    assert_eq!(r, Err(Error::Decode(DecodeError::Mismatch)));
}

#[test]
fn decoder_tells_what_is_left() {
    let bytes = sample();
    let mut decoder = PgRecordDecoder::new(PgValue::Binary(&bytes)).unwrap();
    assert_eq!(decoder.announced(), Some(5));
    assert!(!decoder.is_finished());
    for left in (0..5).rev() {
        decoder.decode_raw().unwrap();
        assert_eq!(decoder.announced(), Some(left));
    }
    assert!(decoder.is_finished());

    let mut decoder = PgRecordDecoder::new(PgValue::Text("(a,b)")).unwrap();
    assert_eq!(decoder.announced(), None);
    assert!(!decoder.is_finished());
    decoder.decode_raw().unwrap();
    assert!(!decoder.is_finished());
    decoder.decode_raw().unwrap();
    assert!(decoder.is_finished());
}
