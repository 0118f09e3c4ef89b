use sqlx_core::connection::Release;
use sqlx_core::error::{ConnectivityError, DecodeError, Error, ProtocolError, Stage};
use sqlx_core::mysql::cursor::{Action, MySqlArguments, MySqlCursor, Phase};
use sqlx_core::mysql::protocol::{ColumnDefinition, Packet};
use sqlx_core::mysql::row::{MySqlRow, MySqlValue};
use sqlx_core::row::ColumnMap;
use std::sync::Arc;

fn column(name: Option<&str>) -> Packet<'static> {
    Packet::ColumnDefinition(ColumnDefinition { name: name.map(String::from) })
}

fn expect_row<'c>(action: Action<'c, '_>) -> MySqlRow<'c> {
    match action {
        Action::Row(row) => row,
        other => panic!("expected a row, got {:?}", other),
    }
}

fn pull<'c, 'q>(
    cursor: &mut MySqlCursor<'q>,
    prepared: bool,
    stream: &mut std::vec::IntoIter<Packet<'c>>,
) -> Action<'c, 'q> {
    let mut action = cursor.next();
    loop {
        action = match action {
            Action::Checkout => cursor.connected(),
            Action::Run(_, _) => cursor.executed(prepared),
            Action::Read => match stream.next() {
                Some(packet) => cursor.receive(packet),
                None => cursor.failed(Error::Connectivity(ConnectivityError::Io)),
            },
            done => return done,
        }
    }
}

#[test]
fn mysql_try_from_some_is_the_value() {
    assert!(matches!(
        MySqlValue::try_from(Some(MySqlValue::Text("a"))),
        Ok(MySqlValue::Text("a"))
    ));
    let bytes = [1u8, 2];
    assert!(matches!(
        MySqlValue::try_from(Some(MySqlValue::Binary(&bytes))),
        Ok(MySqlValue::Binary(b)) if b == &bytes[..]
    ));
}

#[test]
fn mysql_try_from_none_is_unexpected_null() {
    assert!(matches!(
        MySqlValue::try_from(None),
        Err(Error::Decode(DecodeError::UnexpectedNull))
    ));
}

#[test]
fn mysql_constructors_default_to_binary_and_send_nothing() {
    let cursor = MySqlCursor::from_pool("SELECT 1", None);
    assert_eq!(cursor.phase(), Phase::Start);
    assert_eq!(cursor.release(), Release::Reuse);
    let cursor = MySqlCursor::from_connection("SELECT 1", None);
    assert_eq!(cursor.phase(), Phase::Start);
}

#[test]
fn mysql_pool_source_checks_out_first() {
    let arguments =
        MySqlArguments { null_bitmap: vec![0], param_types: vec![3, 0], params: vec![1, 0, 0, 0] };
    let mut cursor = MySqlCursor::from_pool("SELECT ?", Some(arguments));
    assert!(matches!(cursor.next(), Action::Checkout));
    match cursor.connected() {
        Action::Run(sql, Some(arguments)) => {
            assert_eq!(sql, "SELECT ?");
            assert_eq!(arguments.params, vec![1, 0, 0, 0]);
        }
        other => panic!("unexpected {:?}", other),
    }
}

#[test]
fn mysql_prepared_query_yields_binary_rows_in_order_then_end() {
    let a = [1u8, 0, 0, 0];
    let b = [2u8, 0, 0, 0];
    let mut stream = vec![
        Packet::ColumnCount(2),
        column(Some("id")),
        column(Some("name")),
        Packet::Eof,
        Packet::Row(vec![Some(&a[..]), None]),
        Packet::Row(vec![Some(&b[..]), Some(&b"bob"[..])]),
        Packet::Eof,
    ]
    .into_iter();
    let mut cursor = MySqlCursor::from_pool("SELECT id, name FROM t", None);

    let row = expect_row(pull(&mut cursor, true, &mut stream));
    assert_eq!(row.len(), 2);
    assert!(matches!(row.get_raw("id"), Ok(Some(MySqlValue::Binary(v))) if v == &a[..]));
    assert!(matches!(row.get_raw(1usize), Ok(None)));

    let row = expect_row(pull(&mut cursor, true, &mut stream));
    assert!(matches!(row.get_raw(0usize), Ok(Some(MySqlValue::Binary(v))) if v == &b[..]));
    assert!(matches!(row.get_raw("name"), Ok(Some(MySqlValue::Binary(v))) if v == b"bob"));

    assert!(matches!(pull(&mut cursor, true, &mut stream), Action::End));
    assert_eq!(cursor.phase(), Phase::Done);
    assert_eq!(cursor.release(), Release::Reuse);
    assert!(matches!(pull(&mut cursor, true, &mut stream), Action::End));
    assert!(matches!(cursor.next(), Action::End));
}

#[test]
fn mysql_simple_query_yields_text_rows() {
    let mut stream = vec![
        Packet::ColumnCount(1),
        column(Some("n")),
        Packet::Eof,
        Packet::Row(vec![Some(&b"42"[..])]),
        Packet::Row(vec![Some(&[0xC3u8, 0x28][..])]),
        Packet::Eof,
    ]
    .into_iter();
    let mut cursor = MySqlCursor::from_connection("SELECT n FROM t", None);
    let row = expect_row(pull(&mut cursor, false, &mut stream));
    assert!(matches!(row.get_raw("n"), Ok(Some(MySqlValue::Text("42")))));
    let row = expect_row(pull(&mut cursor, false, &mut stream));
    assert_eq!(row.get_raw("n").map(|_| ()), Err(Error::Decode(DecodeError::InvalidText)));
    assert!(matches!(pull(&mut cursor, false, &mut stream), Action::End));
}

#[test]
fn mysql_statement_without_result_set_ends_at_once() {
    let mut stream = vec![Packet::Complete].into_iter();
    let mut cursor = MySqlCursor::from_connection("DELETE FROM t", None);
    assert!(matches!(pull(&mut cursor, false, &mut stream), Action::End));
    assert!(matches!(pull(&mut cursor, false, &mut stream), Action::End));
}

#[test]
fn mysql_unnamed_and_repeated_columns() {
    let v = [1u8];
    let mut stream = vec![
        Packet::ColumnCount(3),
        column(Some("a")),
        column(None),
        column(Some("a")),
        Packet::Eof,
        Packet::Row(vec![None, None, Some(&v[..])]),
        Packet::Eof,
    ]
    .into_iter();
    let mut cursor = MySqlCursor::from_connection("SELECT a, 1, a FROM t", None);
    let row = expect_row(pull(&mut cursor, true, &mut stream));
    assert!(matches!(row.get_raw("a"), Ok(Some(MySqlValue::Binary(b))) if b == &v[..]));
}

#[test]
fn mysql_unexpected_packet_fails_for_good() {
    let mut stream =
        vec![Packet::ColumnCount(1), column(Some("a")), Packet::Eof, Packet::Other(0xFF)]
            .into_iter();
    let mut cursor = MySqlCursor::from_connection("SELECT a FROM t", None);
    let expected =
        Error::Protocol(ProtocolError::UnexpectedMessage { stage: Stage::Rows, tag: 0xFF });
    match pull(&mut cursor, true, &mut stream) {
        Action::Fail(e) => assert_eq!(e, expected),
        other => panic!("unexpected {:?}", other),
    }
    assert_eq!(cursor.phase(), Phase::Failed);
    assert_eq!(cursor.release(), Release::Close);
    match cursor.receive(Packet::Row(vec![None])) {
        Action::Fail(e) => assert_eq!(e, expected),
        other => panic!("unexpected {:?}", other),
    }
    match cursor.next() {
        Action::Fail(e) => assert_eq!(e, expected),
        other => panic!("unexpected {:?}", other),
    }
}

#[test]
fn mysql_definitions_must_match_the_count() {
    let mut stream = vec![Packet::ColumnCount(2), column(Some("a")), Packet::Eof].into_iter();
    let mut cursor = MySqlCursor::from_connection("SELECT a, b FROM t", None);
    match pull(&mut cursor, true, &mut stream) {
        Action::Fail(e) => assert_eq!(
            e,
            Error::Protocol(ProtocolError::UnexpectedMessage { stage: Stage::Describe, tag: 0xFE })
        ),
        other => panic!("unexpected {:?}", other),
    }

    let mut stream = vec![Packet::ColumnCount(0), column(Some("a"))].into_iter();
    let mut cursor = MySqlCursor::from_connection("SELECT a FROM t", None);
    assert!(matches!(pull(&mut cursor, true, &mut stream), Action::Fail(_)));
}

#[test]
fn mysql_row_before_definitions_is_unexpected() {
    let mut stream = vec![Packet::Row(vec![None])].into_iter();
    let mut cursor = MySqlCursor::from_connection("SELECT 1", None);
    match pull(&mut cursor, true, &mut stream) {
        Action::Fail(e) => assert_eq!(
            e,
            Error::Protocol(ProtocolError::UnexpectedMessage { stage: Stage::Describe, tag: 0 })
        ),
        other => panic!("unexpected {:?}", other),
    }
}

#[test]
fn mysql_release_follows_the_exchange() {
    let mut cursor = MySqlCursor::from_connection("SELECT 1", None);
    assert_eq!(cursor.release(), Release::Reuse);
    cursor.next();
    assert_eq!(cursor.release(), Release::Close);
    cursor.executed(true);
    assert_eq!(cursor.release(), Release::Drain);
    cursor.receive(Packet::ColumnCount(0));
    assert_eq!(cursor.release(), Release::Drain);
    cursor.receive(Packet::Eof);
    assert_eq!(cursor.release(), Release::Drain);
    cursor.receive(Packet::Eof);
    assert_eq!(cursor.release(), Release::Reuse);
}

#[test]
fn mysql_row_len_and_usage_errors() {
    let mut columns = ColumnMap::new();
    columns.insert(String::from("a"), 0);
    columns.insert(String::from("z"), 9);
    let v = [7u8];
    let row = MySqlRow::new(vec![Some(&v[..]), None], Arc::new(columns), true);
    assert_eq!(row.len(), 2);
    assert!(matches!(row.get_raw("a"), Ok(Some(MySqlValue::Binary(b))) if b == &v[..]));
    assert!(matches!(row.get_raw(1usize), Ok(None)));
    assert_eq!(
        row.get_raw(2usize).map(|_| ()),
        Err(Error::ColumnIndexOutOfBounds { index: 2, len: 2 })
    );
    assert_eq!(
        row.get_raw("z").map(|_| ()),
        Err(Error::ColumnIndexOutOfBounds { index: 9, len: 2 })
    );
    assert_eq!(row.get_raw("b").map(|_| ()), Err(Error::ColumnNotFound(String::from("b"))));
}

#[test]
fn mysql_packet_tags() {
    assert_eq!(Packet::Complete.tag(), 0x00);
    assert_eq!(Packet::Eof.tag(), 0xFE);
    assert_eq!(Packet::Other(0xFB).tag(), 0xFB);
    assert_eq!(Packet::ColumnCount(1).tag(), 0x00);
}
