use sqlx_core::connection::ConnectionSource;
use sqlx_core::database::TypeInfo;
use sqlx_core::decode::Decode;
use sqlx_core::derives::{
    expand_derive_type, rename_all, Backends, Data, DeriveError, DeriveInput, Fields, RenameAll,
    TypeExpansion,
};
use sqlx_core::encode::Encode;
use sqlx_core::error::{ConnectivityError, DecodeError, Error, ProtocolError, Stage};
use sqlx_core::io::{put_i32_be, put_u32_be, set_u32_be};
use sqlx_core::mysql::MySqlTypeInfo;
use sqlx_core::postgres::{PgTypeInfo, PgValue, Postgres, TypeId};
use sqlx_core::row::{ColumnIndex, ColumnMap};
use sqlx_core::sqlite::{SqliteType, SqliteTypeAffinity, SqliteTypeInfo, SqliteValue};
use sqlx_core::text::same_text;
use sqlx_core::types::Type;

#[test]
fn big_endian_words() {
    let mut buf = vec![1u8];
    put_u32_be(&mut buf, 0x0102_0304);
    put_u32_be(&mut buf, u32::MAX);
    put_i32_be(&mut buf, -1);
    put_i32_be(&mut buf, i32::MIN);
    put_i32_be(&mut buf, 258);
    assert_eq!(
        buf,
        vec![1, 1, 2, 3, 4, 255, 255, 255, 255, 255, 255, 255, 255, 0x80, 0, 0, 0, 0, 0, 1, 2]
    );
    set_u32_be(&mut buf, 1, 0xAABB_CCDD);
    assert_eq!(&buf[..6], &[1, 0xAA, 0xBB, 0xCC, 0xDD, 255]);
    set_u32_be(&mut buf, 17, 7);
    assert_eq!(&buf[16..], &[0, 0, 0, 0, 7]);
}

#[test]
fn same_text_compares_characters() {
    assert!(same_text("", ""));
    assert!(same_text("żółw", "żółw"));
    assert!(!same_text("a", "b"));
    assert!(!same_text("a", "ab"));
    assert!(!same_text("ab", "a"));
}

#[test]
fn column_map_insert_and_get() {
    let mut map = ColumnMap::new();
    assert_eq!(map.get("a"), None);
    map.insert(String::from("a"), 0);
    map.insert(String::from("b"), 1);
    assert_eq!(map.get("a"), Some(0));
    assert_eq!(map.get("b"), Some(1));
    map.insert(String::from("a"), 5);
    assert_eq!(map.get("a"), Some(5));
    assert_eq!(map.get("c"), None);
}

#[test]
fn column_index_resolves_positions_and_names() {
    let mut map = ColumnMap::new();
    map.insert(String::from("a"), 1);
    assert_eq!(0usize.resolve(&map, 2), Ok(0));
    assert_eq!(2usize.resolve(&map, 2), Err(Error::ColumnIndexOutOfBounds { index: 2, len: 2 }));
    assert_eq!("a".resolve(&map, 2), Ok(1));
    assert_eq!("a".resolve(&map, 1), Err(Error::ColumnIndexOutOfBounds { index: 1, len: 1 }));
    assert_eq!("x".resolve(&map, 2), Err(Error::ColumnNotFound(String::from("x"))));
}

#[test]
fn pg_try_from() {
    assert!(matches!(PgValue::try_from(Some(PgValue::Text("a"))), Ok(PgValue::Text("a"))));
    assert!(matches!(PgValue::try_from(None), Err(Error::Decode(DecodeError::UnexpectedNull))));
}

#[test]
fn null_into_optional_and_non_optional_targets() {
    assert_eq!(<Option<i32> as Decode<_>>::decode(None::<PgValue>), Ok(None));
    assert_eq!(<Option<bool> as Decode<_>>::decode(None::<PgValue>), Ok(None));
    assert_eq!(<Option<String> as Decode<_>>::decode(None::<PgValue>), Ok(None));
    let null = Err(Error::Decode(DecodeError::UnexpectedNull));
    assert_eq!(<i32 as Decode<_>>::decode(None::<PgValue>), null);
    assert_eq!(<bool as Decode<_>>::decode(None::<PgValue>).map(|_| 0), null);
    assert_eq!(<String as Decode<_>>::decode(None::<PgValue>).map(|_| 0), null);
    assert_eq!(<Option<i64> as Decode<_>>::decode(SqliteValue::Null), Ok(None));
    assert_eq!(
        <i64 as Decode<_>>::decode(SqliteValue::Null),
        Err(Error::Decode(DecodeError::UnexpectedNull))
    );
}

#[test]
fn pg_scalars_decode_from_binary() {
    assert_eq!(bool::decode(Some(PgValue::Binary(&[0]))), Ok(false));
    assert_eq!(bool::decode(Some(PgValue::Binary(&[2]))), Ok(true));
    assert_eq!(
        bool::decode(Some(PgValue::Binary(&[]))),
        Err(Error::Decode(DecodeError::Mismatch))
    );
    assert_eq!(i32::decode(Some(PgValue::Binary(&[0xFF, 0xFF, 0xFF, 0x85]))), Ok(-123));
    assert_eq!(i32::decode(Some(PgValue::Binary(&[0, 0, 1, 0]))), Ok(256));
    assert_eq!(
        i32::decode(Some(PgValue::Binary(&[0, 0, 1, 0, 0]))),
        Err(Error::Decode(DecodeError::Mismatch))
    );
    assert_eq!(
        String::decode(Some(PgValue::Binary("zażółć".as_bytes()))),
        Ok(String::from("zażółć"))
    );
    assert_eq!(
        String::decode(Some(PgValue::Binary(&[0xFF]))),
        Err(Error::Decode(DecodeError::InvalidText))
    );
    assert_eq!(<Option<i32> as Decode<_>>::decode(Some(PgValue::Binary(&[0, 0, 0, 9]))), Ok(Some(9)));
}

#[test]
fn pg_scalars_decode_from_text() {
    assert_eq!(bool::decode(Some(PgValue::Text("t"))), Ok(true));
    assert_eq!(bool::decode(Some(PgValue::Text("f"))), Ok(false));
    assert_eq!(bool::decode(Some(PgValue::Text("true"))), Err(Error::Decode(DecodeError::Mismatch)));
    assert_eq!(bool::decode(Some(PgValue::Text("x"))), Err(Error::Decode(DecodeError::Mismatch)));
    assert_eq!(bool::decode(Some(PgValue::Text(""))), Err(Error::Decode(DecodeError::Mismatch)));
    assert_eq!(i32::decode(Some(PgValue::Text("-2147483648"))), Ok(i32::MIN));
    assert_eq!(i32::decode(Some(PgValue::Text("17"))), Ok(17));
    assert_eq!(
        i32::decode(Some(PgValue::Text("2147483648"))),
        Err(Error::Decode(DecodeError::Mismatch))
    );
    assert_eq!(i32::decode(Some(PgValue::Text("1x"))), Err(Error::Decode(DecodeError::Mismatch)));
    assert_eq!(i32::decode(Some(PgValue::Text("7"))), Ok(7));
    assert_eq!(i32::decode(Some(PgValue::Text("+7"))), Ok(7));
    assert_eq!(i32::decode(Some(PgValue::Text("-0"))), Ok(0));
    assert_eq!(i32::decode(Some(PgValue::Text("007"))), Ok(7));
    assert_eq!(i32::decode(Some(PgValue::Text("-2147483649"))), Err(Error::Decode(DecodeError::Mismatch)));
    for bad in ["", "+", "-", " 7", "7 ", "1_0", "--1", "٧", "0x1"] {
        assert_eq!(
            i32::decode(Some(PgValue::Text(bad))),
            Err(Error::Decode(DecodeError::Mismatch)),
            "{:?}",
            bad
        );
        assert_eq!(
            i64::decode(Some(PgValue::Text(bad))),
            Err(Error::Decode(DecodeError::Mismatch)),
            "{:?}",
            bad
        );
    }
    assert_eq!(i64::decode(Some(PgValue::Text("+9223372036854775807"))), Ok(i64::MAX));
    assert_eq!(String::decode(Some(PgValue::Text("héllo"))), Ok(String::from("héllo")));
}

#[test]
fn pg_scalars_encode() {
    let mut buf = Vec::new();
    Encode::<Postgres>::encode(&true, &mut buf);
    Encode::<Postgres>::encode(&false, &mut buf);
    Encode::<Postgres>::encode(&-2i32, &mut buf);
    Encode::<Postgres>::encode(&"ż", &mut buf);
    Encode::<Postgres>::encode(&String::from("ab"), &mut buf);
    Encode::<Postgres>::encode(&&7i32, &mut buf);
    assert_eq!(buf, vec![1, 0, 0xFF, 0xFF, 0xFF, 0xFE, 0xC5, 0xBC, b'a', b'b', 0, 0, 0, 7]);
    assert_eq!(Encode::<Postgres>::size_hint(&true), 1);
    assert_eq!(Encode::<Postgres>::size_hint(&5i32), 4);
    assert_eq!(Encode::<Postgres>::size_hint(&"ż"), 2);
    assert_eq!(Encode::<Postgres>::size_hint(&String::from("abc")), 3);
    assert_eq!(Encode::<Postgres>::size_hint(&&5i32), 4);
}

#[test]
fn pg_type_infos() {
    let info = <bool as Type<Postgres>>::type_info();
    assert_eq!((info.id, info.name.as_deref()), (TypeId(16), Some("BOOL")));
    let info = <i32 as Type<Postgres>>::type_info();
    assert_eq!((info.id, info.name.as_deref()), (TypeId(23), Some("INT4")));
    let info = <&str as Type<Postgres>>::type_info();
    assert_eq!((info.id, info.name.as_deref()), (TypeId(25), Some("TEXT")));
    let info = <String as Type<Postgres>>::type_info();
    assert_eq!((info.id, info.name.as_deref()), (TypeId(25), Some("TEXT")));
    let info = <&i32 as Type<Postgres>>::type_info();
    assert_eq!(info.oid(), 23);
    let plain = PgTypeInfo::with_oid(23);
    assert_eq!((plain.id, plain.name.clone()), (TypeId(23), None));
    assert!(plain.compatible(&info));
    assert!(!plain.compatible(&PgTypeInfo::with_oid(25)));
    assert!(MySqlTypeInfo { id: 3 }.compatible(&MySqlTypeInfo { id: 3 }));
    assert!(!MySqlTypeInfo { id: 3 }.compatible(&MySqlTypeInfo { id: 8 }));
}

#[test]
fn sqlite_type_info_new_sets_the_affinity() {
    let info = SqliteTypeInfo::new(SqliteType::Integer, SqliteTypeAffinity::Integer);
    assert_eq!(info.kind, SqliteType::Integer);
    assert_eq!(info.affinity, Some(SqliteTypeAffinity::Integer));
}

#[test]
fn sqlite_type_names() {
    let name = |kind| SqliteTypeInfo::new(kind, SqliteTypeAffinity::Blob).to_string();
    assert_eq!(name(SqliteType::Text), "TEXT");
    assert_eq!(name(SqliteType::Boolean), "BOOLEAN");
    assert_eq!(name(SqliteType::Integer), "INTEGER");
    assert_eq!(name(SqliteType::Float), "DOUBLE");
    assert_eq!(name(SqliteType::Blob), "BLOB");
    assert_eq!(SqliteTypeInfo::new(SqliteType::Float, SqliteTypeAffinity::Real).name(), "DOUBLE");
}

#[test]
fn sqlite_type_codes() {
    assert_eq!(SqliteType::Integer.code(), 1);
    assert_eq!(SqliteType::Float.code(), 2);
    assert_eq!(SqliteType::Text.code(), 3);
    assert_eq!(SqliteType::Blob.code(), 4);
    assert_eq!(SqliteType::Boolean.code(), 5);
}

#[test]
fn sqlite_compatible_by_type_or_affinity() {
    let int = SqliteTypeInfo::new(SqliteType::Integer, SqliteTypeAffinity::Integer);
    let boolean = SqliteTypeInfo::new(SqliteType::Boolean, SqliteTypeAffinity::Integer);
    let text = SqliteTypeInfo::new(SqliteType::Text, SqliteTypeAffinity::Text);
    let int_numeric = SqliteTypeInfo::new(SqliteType::Integer, SqliteTypeAffinity::Numeric);
    assert!(int.compatible(&int));
    assert!(int.compatible(&boolean)); // same affinity
    assert!(int.compatible(&int_numeric)); // same type
    assert!(!int.compatible(&text));
    assert!(!boolean.compatible(&int_numeric));
    let bare_blob = SqliteTypeInfo { kind: SqliteType::Blob, affinity: None };
    let bare_text = SqliteTypeInfo { kind: SqliteType::Text, affinity: None };
    assert!(bare_blob.compatible(&bare_text)); // two unknown affinities are the same
    assert!(!bare_blob.compatible(&int));
}

#[test]
fn sqlite_values_decode() {
    assert!(SqliteValue::Null.is_null());
    assert!(!SqliteValue::Integer(0).is_null());
    assert!(!SqliteValue::Text("").is_null());
    assert_eq!(<Option<i64> as Decode<_>>::decode(SqliteValue::Integer(-5)), Ok(Some(-5)));
    assert_eq!(<i64 as Decode<_>>::decode(SqliteValue::Integer(9)), Ok(9));
    assert_eq!(
        <i64 as Decode<_>>::decode(SqliteValue::Text("9")),
        Err(Error::Decode(DecodeError::Mismatch))
    );
    assert_eq!(
        <Option<i64> as Decode<_>>::decode(SqliteValue::Blob(&[1])),
        Err(Error::Decode(DecodeError::Mismatch))
    );
    assert_eq!(
        <i64 as Decode<_>>::decode(SqliteValue::Float { bits: 0 }),
        Err(Error::Decode(DecodeError::Mismatch))
    );
}

#[test]
fn rename_all_lower_case() {
    assert_eq!(rename_all("FooBar", RenameAll::LowerCase), "foobar");
    assert_eq!(rename_all("ŻÓŁW_1", RenameAll::LowerCase), "żółw_1");
    assert_eq!(rename_all("", RenameAll::LowerCase), "");
}

fn input(data: Data, has_repr: bool, postgres_oid: Option<u32>) -> DeriveInput {
    DeriveInput { data, has_repr, postgres_oid }
}

#[test]
fn derive_type_by_shape() {
    let all = Backends { mysql: true, postgres: true };
    assert_eq!(
        expand_derive_type(&input(Data::Struct(Fields::Unnamed(1)), false, None), all),
        Ok(TypeExpansion::Transparent)
    );
    assert_eq!(
        expand_derive_type(&input(Data::Enum, true, None), all),
        Ok(TypeExpansion::WeakEnum)
    );
    assert_eq!(
        expand_derive_type(&input(Data::Enum, false, Some(77)), all),
        Ok(TypeExpansion::StrongEnum { mysql: true, postgres_oid: Some(77) })
    );
    assert_eq!(
        expand_derive_type(&input(Data::Struct(Fields::Named(3)), false, Some(5)), all),
        Ok(TypeExpansion::Struct { postgres_oid: Some(5) })
    );
}

#[test]
fn derive_type_refuses_unsupported_shapes() {
    let all = Backends { mysql: true, postgres: true };
    let refused = |data| expand_derive_type(&input(data, false, Some(1)), all);
    assert_eq!(refused(Data::Union), Err(DeriveError::Union));
    assert_eq!(refused(Data::Struct(Fields::Unnamed(0))), Err(DeriveError::UnnamedFields));
    assert_eq!(refused(Data::Struct(Fields::Unnamed(2))), Err(DeriveError::UnnamedFields));
    assert_eq!(refused(Data::Struct(Fields::Unit)), Err(DeriveError::UnitStruct));
    assert_eq!(DeriveError::Union.message(), "unions are not supported");
    assert_eq!(
        DeriveError::UnnamedFields.message(),
        "structs with zero or more than one unnamed field are not supported"
    );
    assert_eq!(DeriveError::UnitStruct.message(), "unit structs are not supported");
}

#[test]
fn derive_type_follows_the_backends() {
    let none = Backends { mysql: false, postgres: false };
    let postgres = Backends { mysql: false, postgres: true };
    let mysql = Backends { mysql: true, postgres: false };
    assert_eq!(
        expand_derive_type(&input(Data::Enum, false, Some(9)), none),
        Ok(TypeExpansion::StrongEnum { mysql: false, postgres_oid: None })
    );
    assert_eq!(
        expand_derive_type(&input(Data::Enum, false, None), mysql),
        Ok(TypeExpansion::StrongEnum { mysql: true, postgres_oid: None })
    );
    assert_eq!(
        expand_derive_type(&input(Data::Enum, false, None), postgres),
        Err(DeriveError::MissingPostgresOid)
    );
    assert_eq!(
        expand_derive_type(&input(Data::Struct(Fields::Named(0)), false, None), postgres),
        Err(DeriveError::MissingPostgresOid)
    );
    assert_eq!(
        expand_derive_type(&input(Data::Struct(Fields::Named(2)), true, None), mysql),
        Ok(TypeExpansion::Struct { postgres_oid: None })
    );
}

#[test]
fn connection_source_resolution() {
    assert!(ConnectionSource::Connection.resolves_immediately());
    assert!(!ConnectionSource::Pool.resolves_immediately());
}

#[test]
fn error_messages() {
    let cases: Vec<(Error, &str)> = vec![
        (
            Error::Connectivity(ConnectivityError::PoolClosed),
            "attempted to acquire a connection on a closed pool",
        ),
        (Error::Connectivity(ConnectivityError::CheckoutFailed), "failed to acquire a connection"),
        (Error::Connectivity(ConnectivityError::Io), "the connection failed"),
        (
            Error::Protocol(ProtocolError::UnexpectedMessage { stage: Stage::Rows, tag: 1 }),
            "unexpected message",
        ),
        (Error::Protocol(ProtocolError::MalformedMessage), "malformed message"),
        (Error::Protocol(ProtocolError::OutOfSequence), "cursor driven out of sequence"),
        (Error::Protocol(ProtocolError::Truncated), "unexpected end of buffer"),
        (
            Error::Protocol(ProtocolError::MalformedRecord),
            "record is not enclosed in parentheses",
        ),
        (Error::Protocol(ProtocolError::UnterminatedQuote), "unterminated quoted field"),
        (Error::Protocol(ProtocolError::NoMoreFields), "no more fields in record"),
        (
            Error::Protocol(ProtocolError::FieldCount),
            "record has another number of fields than its target",
        ),
        (Error::Decode(DecodeError::Mismatch), "value does not fit the requested type"),
        (Error::Decode(DecodeError::InvalidText), "value is not valid text"),
        (Error::ColumnNotFound(String::from("a")), "no column found with the given name"),
        (Error::ColumnIndexOutOfBounds { index: 1, len: 1 }, "column index out of bounds"),
    ];
    for (error, message) in cases {
        assert_eq!(error.message(), message);
        assert_eq!(error.duplicate(), error);
    }
    assert_eq!(DeriveError::MissingPostgresOid.message(), "OID should be set");
}

#[test]
fn errors_duplicate_and_describe_themselves() {
    let errors = vec![
        Error::Connectivity(ConnectivityError::PoolClosed),
        Error::Protocol(ProtocolError::Truncated),
        Error::Decode(DecodeError::UnexpectedNull),
        Error::ColumnNotFound(String::from("a")),
        Error::ColumnIndexOutOfBounds { index: 3, len: 2 },
    ];
    for e in &errors {
        assert_eq!(&e.duplicate(), e);
        assert!(!e.message().is_empty());
    }
    assert_eq!(
        Error::Decode(DecodeError::UnexpectedNull).message(),
        "unexpected null; try decoding as an `Option`"
    );
}

#[test]
fn pg_int8_codec() {
    let mut buf = Vec::new();
    Encode::<Postgres>::encode(&-2i64, &mut buf);
    Encode::<Postgres>::encode(&0x0102_0304_0506_0708i64, &mut buf);
    assert_eq!(
        buf,
        vec![0xFF, 0xFF, 0xFF, 0xFF, 0xFF, 0xFF, 0xFF, 0xFE, 1, 2, 3, 4, 5, 6, 7, 8]
    );
    assert_eq!(Encode::<Postgres>::size_hint(&1i64), 8);
    assert_eq!(i64::decode(Some(PgValue::Binary(&buf[..8]))), Ok(-2));
    assert_eq!(i64::decode(Some(PgValue::Binary(&buf[8..]))), Ok(0x0102_0304_0506_0708));
    assert_eq!(
        i64::decode(Some(PgValue::Binary(&[0x80, 0, 0, 0, 0, 0, 0, 0]))),
        Ok(i64::MIN)
    );
    assert_eq!(
        i64::decode(Some(PgValue::Binary(&buf[..4]))),
        Err(Error::Decode(DecodeError::Mismatch))
    );
    assert_eq!(i64::decode(Some(PgValue::Text("-9223372036854775808"))), Ok(i64::MIN));
    assert_eq!(
        i64::decode(Some(PgValue::Text("9223372036854775808"))),
        Err(Error::Decode(DecodeError::Mismatch))
    );
    assert_eq!(
        <i64 as Decode<Option<PgValue>>>::decode(None),
        Err(Error::Decode(DecodeError::UnexpectedNull))
    );
    let info = <i64 as Type<Postgres>>::type_info();
    assert_eq!((info.id, info.name.as_deref()), (TypeId(20), Some("INT8")));
}
