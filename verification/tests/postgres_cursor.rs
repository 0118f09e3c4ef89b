use sqlx_core::connection::Release;
use sqlx_core::error::{ConnectivityError, DecodeError, Error, ProtocolError, Stage};
use sqlx_core::postgres::cursor::{
    describe, Action, PgArguments, PgCursor, Phase, StatementCache,
};
use sqlx_core::postgres::protocol::{
    DataRow, Field, Message, RowDescription, StatementId, TypeFormat,
};
use sqlx_core::postgres::row::PgRow;
use sqlx_core::postgres::{PgValue, TypeId};

fn field(name: Option<&str>, format: TypeFormat) -> Field {
    Field { name: name.map(String::from), type_id: TypeId(23), type_format: format }
}

fn description() -> RowDescription {
    RowDescription {
        fields: vec![
            field(Some("id"), TypeFormat::Binary),
            field(None, TypeFormat::Text),
            field(Some("name"), TypeFormat::Text),
        ],
    }
}

fn data<'c>(values: Vec<Option<&'c [u8]>>) -> Message<'c> {
    Message::DataRow(DataRow { values })
}

fn expect_row<'c>(action: Action<'c, '_>) -> PgRow<'c> {
    match action {
        Action::Row(row) => row,
        other => panic!("expected a row, got {:?}", other),
    }
}

/// Drives one pull of `cursor` over the messages of `stream`, as the owner of a
/// connection does, and returns what the pull ends with.
fn pull<'c, 'q>(
    cursor: &mut PgCursor<'q>,
    cache: &mut StatementCache,
    statement: Option<StatementId>,
    stream: &mut std::vec::IntoIter<Message<'c>>,
    describes: &mut usize,
) -> Action<'c, 'q> {
    let mut action = cursor.next();
    loop {
        action = match action {
            Action::Checkout => cursor.connected(),
            Action::Run(_, _) => cursor.executed(cache, statement),
            Action::Read => {
                if matches!(cursor.phase(), Phase::Describing(_)) {
                    *describes += 1;
                }
                match stream.next() {
                    Some(message) => cursor.receive(cache, message),
                    None => cursor.failed(Error::Connectivity(ConnectivityError::Io)),
                }
            }
            done => return done,
        }
    }
}

#[test]
fn describe_maps_named_fields_and_lists_formats() {
    let d = description();
    let (columns, formats) = describe(Some(&d));
    assert_eq!(columns.get("id"), Some(0));
    assert_eq!(columns.get("name"), Some(2));
    assert_eq!(columns.get("other"), None);
    assert_eq!(formats, vec![TypeFormat::Binary, TypeFormat::Text, TypeFormat::Text]);
}

#[test]
fn describe_without_data_is_empty() {
    let (columns, formats) = describe(None);
    assert_eq!(columns.get("id"), None);
    assert!(formats.is_empty());
}

#[test]
fn describe_later_field_of_same_name_wins() {
    let d = RowDescription {
        fields: vec![field(Some("a"), TypeFormat::Text), field(Some("a"), TypeFormat::Text)],
    };
    let (columns, _) = describe(Some(&d));
    assert_eq!(columns.get("a"), Some(1));
}

#[test]
fn constructors_send_nothing() {
    let cursor = PgCursor::from_pool("SELECT 1", None);
    assert_eq!(cursor.phase(), Phase::Start);
    assert_eq!(cursor.release(), Release::Reuse);
    let cursor = PgCursor::from_connection("SELECT 1", None);
    assert_eq!(cursor.phase(), Phase::Start);
}

#[test]
fn pool_source_checks_out_first() {
    let mut cursor = PgCursor::from_pool("SELECT 1", None);
    assert!(matches!(cursor.next(), Action::Checkout));
    assert_eq!(cursor.phase(), Phase::Connecting);
    assert!(matches!(cursor.connected(), Action::Run("SELECT 1", None)));
    assert_eq!(cursor.phase(), Phase::Executing);
}

#[test]
fn connection_source_runs_at_once_with_its_arguments() {
    let arguments = PgArguments { types: vec![TypeId(23)], values: vec![0, 0, 0, 1] };
    let mut cursor = PgCursor::from_connection("SELECT $1", Some(arguments));
    match cursor.next() {
        Action::Run(sql, Some(arguments)) => {
            assert_eq!(sql, "SELECT $1");
            assert_eq!(arguments.types, vec![TypeId(23)]);
            assert_eq!(arguments.values, vec![0, 0, 0, 1]);
        }
        other => panic!("unexpected {:?}", other),
    }
}

#[test]
fn unprepared_query_yields_rows_in_order_then_end() {
    let one = 1i32.to_be_bytes();
    let two = 2i32.to_be_bytes();
    let mut stream = vec![
        Message::RowDescription(description()),
        data(vec![Some(&one[..]), None, Some(&b"ann"[..])]),
        data(vec![Some(&two[..]), Some(&b"x"[..]), None]),
        Message::CommandComplete,
    ]
    .into_iter();
    let mut cache = StatementCache::new();
    let mut cursor = PgCursor::from_connection("SELECT id, 1, name FROM t", None);
    let mut describes = 0;

    let row = expect_row(pull(&mut cursor, &mut cache, None, &mut stream, &mut describes));
    assert_eq!(row.len(), 3);
    assert!(matches!(row.get_raw(0usize), Ok(Some(PgValue::Binary(b))) if b == &one[..]));
    assert!(matches!(row.get_raw("id"), Ok(Some(PgValue::Binary(b))) if b == &one[..]));
    assert!(matches!(row.get_raw(1usize), Ok(None)));
    assert!(matches!(row.get_raw("name"), Ok(Some(PgValue::Text("ann")))));

    let row = expect_row(pull(&mut cursor, &mut cache, None, &mut stream, &mut describes));
    assert!(matches!(row.get_raw("id"), Ok(Some(PgValue::Binary(b))) if b == &two[..]));
    assert!(matches!(row.get_raw(1usize), Ok(Some(PgValue::Text("x")))));
    assert!(matches!(row.get_raw("name"), Ok(None)));

    assert!(matches!(pull(&mut cursor, &mut cache, None, &mut stream, &mut describes), Action::End));
    assert_eq!(cursor.phase(), Phase::Done);
    assert_eq!(describes, 1);
    // The end is reported again without another read.
    assert!(matches!(cursor.next(), Action::End));
    assert!(matches!(pull(&mut cursor, &mut cache, None, &mut stream, &mut describes), Action::End));
    assert!(stream.next().is_none());
}

#[test]
fn prepared_statement_is_described_once() {
    let id = StatementId(7);
    let mut cache = StatementCache::new();
    let mut describes = 0;
    let v = [5u8];

    let mut stream = vec![
        Message::ParseComplete,
        Message::RowDescription(description()),
        Message::BindComplete,
        data(vec![Some(&v[..]), None, None]),
        Message::CommandComplete,
    ]
    .into_iter();
    let mut first = PgCursor::from_pool("SELECT id, 1, name FROM t", None);
    let row = expect_row(pull(&mut first, &mut cache, Some(id), &mut stream, &mut describes));
    assert!(matches!(row.get_raw("id"), Ok(Some(PgValue::Binary(b))) if b == &v[..]));
    assert!(matches!(pull(&mut first, &mut cache, Some(id), &mut stream, &mut describes), Action::End));
    assert_eq!(describes, 2); // two reads while describing: the acknowledgement and the description

    let (columns, formats) = cache.get(id).expect("the shape is remembered");
    assert_eq!(columns.get("name"), Some(2));
    assert_eq!(*formats, vec![TypeFormat::Binary, TypeFormat::Text, TypeFormat::Text]);

    // The second execution gets no description and needs none.
    let mut stream =
        vec![Message::BindComplete, data(vec![Some(&v[..]), None, None]), Message::CommandComplete]
            .into_iter();
    let mut second = PgCursor::from_pool("SELECT id, 1, name FROM t", None);
    let before = describes;
    let row = expect_row(pull(&mut second, &mut cache, Some(id), &mut stream, &mut describes));
    assert_eq!(describes, before);
    assert!(matches!(row.get_raw("id"), Ok(Some(PgValue::Binary(b))) if b == &v[..]));
    assert_eq!(row.get_raw("name").map(|v| v.is_none()), Ok(true));
    assert!(matches!(pull(&mut second, &mut cache, Some(id), &mut stream, &mut describes), Action::End));
}

#[test]
fn cache_entry_is_written_once() {
    let mut cache = StatementCache::new();
    let id = StatementId(1);
    assert!(cache.get(id).is_none());
    let (columns, formats) = describe(Some(&description()));
    cache.insert(id, std::sync::Arc::new(columns), std::sync::Arc::new(formats));
    let (columns, formats) = describe(None);
    cache.insert(id, std::sync::Arc::new(columns), std::sync::Arc::new(formats));
    let (columns, formats) = cache.get(id).unwrap();
    assert_eq!(columns.get("id"), Some(0));
    assert_eq!(formats.len(), 3);
    assert!(cache.get(StatementId(2)).is_none());
}

#[test]
fn no_data_gives_the_empty_shape() {
    let mut stream = vec![Message::NoData, Message::CommandComplete].into_iter();
    let mut cache = StatementCache::new();
    let mut cursor = PgCursor::from_connection("CREATE TABLE t ()", None);
    let mut describes = 0;
    assert!(matches!(pull(&mut cursor, &mut cache, None, &mut stream, &mut describes), Action::End));
}

#[test]
fn unexpected_message_while_describing_fails_for_good() {
    let mut stream = vec![Message::Other(b'E'), Message::CommandComplete].into_iter();
    let mut cache = StatementCache::new();
    let mut cursor = PgCursor::from_connection("SELECT 1", None);
    let mut describes = 0;
    let expected = Error::Protocol(ProtocolError::UnexpectedMessage {
        stage: Stage::Describe,
        tag: b'E',
    });
    match pull(&mut cursor, &mut cache, None, &mut stream, &mut describes) {
        Action::Fail(e) => assert_eq!(e, expected),
        other => panic!("unexpected {:?}", other),
    }
    assert_eq!(cursor.phase(), Phase::Failed);
    assert_eq!(cursor.release(), Release::Close);
    // No further message is read and no row is returned.
    match pull(&mut cursor, &mut cache, None, &mut stream, &mut describes) {
        Action::Fail(e) => assert_eq!(e, expected),
        other => panic!("unexpected {:?}", other),
    }
    assert!(matches!(stream.next(), Some(Message::CommandComplete)));
    match cursor.receive(&mut cache, data(vec![None])) {
        Action::Fail(e) => assert_eq!(e, expected),
        other => panic!("unexpected {:?}", other),
    }
}

#[test]
fn unexpected_message_while_streaming_fails_for_good() {
    let mut stream = vec![
        Message::NoData,
        Message::RowDescription(description()),
        data(vec![None]),
    ]
    .into_iter();
    let mut cache = StatementCache::new();
    let mut cursor = PgCursor::from_connection("SELECT 1", None);
    let mut describes = 0;
    let expected =
        Error::Protocol(ProtocolError::UnexpectedMessage { stage: Stage::Rows, tag: b'T' });
    match pull(&mut cursor, &mut cache, None, &mut stream, &mut describes) {
        Action::Fail(e) => assert_eq!(e, expected),
        other => panic!("unexpected {:?}", other),
    }
    match pull(&mut cursor, &mut cache, None, &mut stream, &mut describes) {
        Action::Fail(e) => assert_eq!(e, expected),
        other => panic!("unexpected {:?}", other),
    }
}

#[test]
fn data_row_while_describing_is_unexpected() {
    let mut cache = StatementCache::new();
    let mut cursor = PgCursor::from_connection("SELECT 1", None);
    assert!(matches!(cursor.next(), Action::Run(_, _)));
    assert!(matches!(cursor.executed(&cache, None), Action::Read));
    match cursor.receive(&mut cache, data(vec![None])) {
        Action::Fail(e) => assert_eq!(
            e,
            Error::Protocol(ProtocolError::UnexpectedMessage { stage: Stage::Describe, tag: b'D' })
        ),
        other => panic!("unexpected {:?}", other),
    }
}

#[test]
fn reported_failure_is_terminal() {
    let mut cursor = PgCursor::from_pool("SELECT 1", None);
    assert!(matches!(cursor.next(), Action::Checkout));
    let closed = Error::Connectivity(ConnectivityError::PoolClosed);
    match cursor.failed(Error::Connectivity(ConnectivityError::PoolClosed)) {
        Action::Fail(e) => assert_eq!(e, closed),
        other => panic!("unexpected {:?}", other),
    }
    match cursor.next() {
        Action::Fail(e) => assert_eq!(e, closed),
        other => panic!("unexpected {:?}", other),
    }
    match cursor.connected() {
        Action::Fail(e) => assert_eq!(e, closed),
        other => panic!("unexpected {:?}", other),
    }
}

#[test]
fn events_out_of_sequence_fail() {
    let cache = StatementCache::new();
    let mut cursor = PgCursor::from_connection("SELECT 1", None);
    match cursor.executed(&cache, None) {
        Action::Fail(e) => assert_eq!(e, Error::Protocol(ProtocolError::OutOfSequence)),
        other => panic!("unexpected {:?}", other),
    }
    let mut cursor = PgCursor::from_connection("SELECT 1", None);
    assert!(matches!(cursor.next(), Action::Run(_, _)));
    match cursor.next() {
        Action::Fail(e) => assert_eq!(e, Error::Protocol(ProtocolError::OutOfSequence)),
        other => panic!("unexpected {:?}", other),
    }
}

#[test]
fn release_follows_the_exchange() {
    let mut cache = StatementCache::new();
    let mut cursor = PgCursor::from_connection("SELECT 1", None);
    assert_eq!(cursor.release(), Release::Reuse);
    cursor.next();
    assert_eq!(cursor.release(), Release::Close);
    cursor.executed(&cache, None);
    assert_eq!(cursor.release(), Release::Drain);
    cursor.receive(&mut cache, Message::NoData);
    assert_eq!(cursor.release(), Release::Drain);
    cursor.receive(&mut cache, Message::CommandComplete);
    assert_eq!(cursor.release(), Release::Reuse);
}

#[test]
fn row_reports_usage_errors_per_call() {
    let v = [0xFFu8, 0xFE];
    let (columns, formats) = describe(Some(&description()));
    let row = PgRow::new(
        std::sync::Arc::new(columns),
        std::sync::Arc::new(formats),
        DataRow { values: vec![Some(&v[..]), Some(&v[..])] },
    );
    assert_eq!(row.len(), 2);
    assert_eq!(
        row.get_raw(2usize).map(|_| ()),
        Err(Error::ColumnIndexOutOfBounds { index: 2, len: 2 })
    );
    assert_eq!(
        row.get_raw("name").map(|_| ()),
        Err(Error::ColumnIndexOutOfBounds { index: 2, len: 2 })
    );
    assert_eq!(row.get_raw("nope").map(|_| ()), Err(Error::ColumnNotFound(String::from("nope"))));
    // A text column that is not valid UTF-8 fails for that value alone.
    assert_eq!(row.get_raw(1usize).map(|_| ()), Err(Error::Decode(DecodeError::InvalidText)));
    assert!(matches!(row.get_raw(0usize), Ok(Some(PgValue::Binary(b))) if b == &v[..]));
}

#[test]
fn message_tags() {
    assert_eq!(Message::ParseComplete.tag(), b'1');
    assert_eq!(Message::BindComplete.tag(), b'2');
    assert_eq!(Message::NoData.tag(), b'n');
    assert_eq!(Message::CommandComplete.tag(), b'C');
    assert_eq!(Message::RowDescription(description()).tag(), b'T');
    assert_eq!(data(vec![]).tag(), b'D');
    assert_eq!(Message::Other(b'Z').tag(), b'Z');
}
