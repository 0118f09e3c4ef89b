//! The exchange of one query, as the cursor's owner conducts it, and what
//! holds of every such exchange.
//!
//! The owner performs the cursor's actions on a connection whose unread
//! messages are given. The functions here follow the cursor through that
//! exchange; the proofs state what the caller then sees.

use crate::connection::{ConnectionSource, Release};
use crate::error::{ErrorModel, Stage};
use crate::postgres::cursor::{
    described,
    fail,
    fresh,
    release_of,
    remember,
    step,
    unexpected,
    ActionModel,
    CursorModel,
    Event,
    Phase,
    Shape,
};
use crate::postgres::protocol::{FieldModel, MessageModel, StatementId};
use crate::postgres::row::RowModel;
use vstd::prelude::*;

verus! {

/// A cursor, the statement cache of its connection, and the messages that the
/// connection has not yet handed out, in the order of their arrival.
pub struct Exchange<'q> {
    pub cursor: CursorModel<'q>,
    pub cache: Map<u32, Shape>,
    pub unread: Seq<MessageModel>,
}

/// How a pull ends.
pub enum Outcome {
    /// With a row.
    Row(RowModel),
    /// With the end of the stream.
    End,
    /// With a failure.
    Fail(ErrorModel),
    /// Not yet: the cursor waits for a message that has not arrived.
    Waiting,
}

/// An exchange and the outcome of a pull on it.
pub struct Pulled<'q> {
    pub exchange: Exchange<'q>,
    pub outcome: Outcome,
}

/// How many reports an action takes before one that reads can follow.
pub open spec fn rank(action: ActionModel) -> nat {
    match action {
        ActionModel::Checkout => 2,
        ActionModel::Run(_, _) => 1,
        _ => 0,
    }
}

/// The exchange after the cursor has answered `event`, and its answer.
pub open spec fn report<'q>(x: Exchange<'q>, event: Event) -> (Exchange<'q>, ActionModel<'q>) {
    let s = step(x.cursor, x.cache, event);
    (Exchange { cursor: s.cursor, cache: s.cache, unread: x.unread }, s.action)
}

/// The owner performs `action` and those that follow from it until the pull
/// ends: a checkout succeeds, the executor answers with `statement`, and a
/// read hands out the first unread message.
pub open spec fn perform<'q>(
    x: Exchange<'q>,
    statement: Option<StatementId>,
    action: ActionModel<'q>,
) -> Pulled<'q>
    decreases x.unread.len(), rank(action),
{
    match action {
        ActionModel::Row(row) => Pulled { exchange: x, outcome: Outcome::Row(row) },
        ActionModel::End => Pulled { exchange: x, outcome: Outcome::End },
        ActionModel::Fail(e) => Pulled { exchange: x, outcome: Outcome::Fail(e) },
        ActionModel::Checkout => {
            let (y, answer) = report(x, Event::Connected);
            if rank(answer) < 2 {
                perform(y, statement, answer)
            } else {
                Pulled { exchange: y, outcome: Outcome::Waiting }
            }
        },
        ActionModel::Run(_, _) => {
            let (y, answer) = report(x, Event::Executed(statement));
            if rank(answer) < 1 {
                perform(y, statement, answer)
            } else {
                Pulled { exchange: y, outcome: Outcome::Waiting }
            }
        },
        ActionModel::Read => if x.unread.len() == 0 {
            Pulled { exchange: x, outcome: Outcome::Waiting }
        } else {
            let (y, answer) = report(x, Event::Message(x.unread[0]));
            perform(Exchange { unread: x.unread.skip(1), ..y }, statement, answer)
        },
    }
}

/// One pull: the caller asks for the next row and the owner performs what
/// the cursor decides until the pull ends.
pub open spec fn pull<'q>(x: Exchange<'q>, statement: Option<StatementId>) -> Pulled<'q> {
    let (y, answer) = report(x, Event::Next);
    perform(y, statement, answer)
}

/// `n` pulls in a row: the exchange after the last and the outcomes in order.
pub open spec fn pulls<'q>(x: Exchange<'q>, statement: Option<StatementId>, n: nat) -> (
    Exchange<'q>,
    Seq<Outcome>,
)
    decreases n,
{
    if n == 0 {
        (x, Seq::<Outcome>::empty())
    } else {
        let first = pull(x, statement);
        let (last, others) = pulls(first.exchange, statement, (n - 1) as nat);
        (last, seq![first.outcome] + others)
    }
}

/// Whether every message of `messages` is an acknowledgement of a phase of the
/// extended query flow.
pub open spec fn acknowledgements(messages: Seq<MessageModel>) -> bool {
    forall|i: int|
        0 <= i < messages.len() ==> (#[trigger] messages[i] is ParseComplete
            || messages[i] is BindComplete)
}

/// The message that describes a result: a row description, or the
/// announcement of no data.
pub open spec fn description_message(description: Option<Seq<FieldModel>>) -> MessageModel {
    match description {
        Some(fields) => MessageModel::RowDescription(fields),
        None => MessageModel::NoData,
    }
}

/// The data rows that carry `rows`, in order.
pub open spec fn data_rows(rows: Seq<Seq<Option<Seq<u8>>>>) -> Seq<MessageModel> {
    Seq::new(rows.len(), |i: int| MessageModel::DataRow(rows[i]))
}

/// The outcomes that hand out `rows` in the shape `shape`, in order.
pub open spec fn row_outcomes(shape: Shape, rows: Seq<Seq<Option<Seq<u8>>>>) -> Seq<Outcome> {
    Seq::new(
        rows.len(),
        |i: int|
            Outcome::Row(
                RowModel { columns: shape.columns, formats: shape.formats, values: rows[i] },
            ),
    )
}

/// What is left to read of a stream of `rows`: the data rows, the completion
/// of the command, and the messages `later` of whatever follows on the
/// connection.
pub open spec fn rest_of_stream(
    rows: Seq<Seq<Option<Seq<u8>>>>,
    later: Seq<MessageModel>,
) -> Seq<MessageModel> {
    data_rows(rows) + seq![MessageModel::CommandComplete] + later
}

/// A cursor that streams rows of the shape `shape` on its connection.
pub open spec fn streaming<'q>(shape: Shape) -> CursorModel<'q> {
    CursorModel {
        source: ConnectionSource::Connection,
        query: None,
        shape,
        phase: Phase::Streaming,
        failure: None,
    }
}

/// A cursor that has streamed its rows to the end.
pub open spec fn done<'q>(shape: Shape) -> CursorModel<'q> {
    CursorModel { phase: Phase::Done, ..streaming(shape) }
}

/// While the shape is described or rows are streamed, acknowledgements are
/// read and passed over.
pub proof fn lemma_acknowledgements_are_skipped<'q>(
    x: Exchange<'q>,
    statement: Option<StatementId>,
    acks: Seq<MessageModel>,
    rest: Seq<MessageModel>,
)
    requires
        x.cursor.phase is Describing || x.cursor.phase is Streaming,
        acknowledgements(acks),
        x.unread == acks + rest,
    ensures
        perform(x, statement, ActionModel::Read) == perform(
            Exchange { unread: rest, ..x },
            statement,
            ActionModel::Read,
        ),
    decreases acks.len(),
{
    if acks.len() == 0 {
        assert(acks + rest =~= rest);
    } else {
        let m = x.unread[0];
        assert(m == acks[0]);
        let y = Exchange { unread: x.unread.skip(1), ..x };
        assert(report(x, Event::Message(m)) == (x, ActionModel::<'q>::Read));
        assert(perform(x, statement, ActionModel::Read) == perform(y, statement, ActionModel::Read));
        assert(y.unread =~= acks.skip(1) + rest);
        assert(acknowledgements(acks.skip(1))) by {
            assert forall|i: int| 0 <= i < acks.skip(1).len() implies (#[trigger] acks.skip(
                1,
            )[i] is ParseComplete || acks.skip(1)[i] is BindComplete) by {
                assert(acks.skip(1)[i] == acks[i + 1]);
            }
        }
        lemma_acknowledgements_are_skipped(y, statement, acks.skip(1), rest);
    }
}

/// A pull on a cursor that streams reads on.
pub proof fn lemma_pull_while_streaming<'q>(x: Exchange<'q>, statement: Option<StatementId>)
    requires
        x.cursor.phase is Streaming,
    ensures
        pull(x, statement) == perform(x, statement, ActionModel::Read),
{
}

/// A cursor that streams hands out the first `k` rows in the order of their
/// arrival, each in the cursor's shape, and reads nothing behind them.
pub proof fn lemma_rows_in_order<'q>(
    x: Exchange<'q>,
    statement: Option<StatementId>,
    rows: Seq<Seq<Option<Seq<u8>>>>,
    later: Seq<MessageModel>,
    k: nat,
)
    requires
        x.cursor.phase is Streaming,
        x.unread == rest_of_stream(rows, later),
        k <= rows.len(),
    ensures
        pulls(x, statement, k) == (
            Exchange { unread: rest_of_stream(rows.skip(k as int), later), ..x },
            row_outcomes(x.cursor.shape, rows.take(k as int)),
        ),
    decreases k,
{
    if k == 0 {
        assert(rows.skip(0) =~= rows);
        assert(row_outcomes(x.cursor.shape, rows.take(0)) =~= Seq::<Outcome>::empty());
    } else {
        let row = RowModel {
            columns: x.cursor.shape.columns,
            formats: x.cursor.shape.formats,
            values: rows[0],
        };
        let y = Exchange { unread: rest_of_stream(rows.skip(1), later), ..x };
        assert(x.unread[0] == MessageModel::DataRow(rows[0]));
        assert(x.unread.skip(1) =~= y.unread);
        assert(pull(x, statement) == (Pulled { exchange: y, outcome: Outcome::Row(row) })) by {
            reveal_with_fuel(perform, 3);
        }
        lemma_rows_in_order(y, statement, rows.skip(1), later, (k - 1) as nat);
        assert(rows.skip(1).skip(k - 1) =~= rows.skip(k as int));
        assert(seq![Outcome::Row(row)] + row_outcomes(
            x.cursor.shape,
            rows.skip(1).take(k - 1),
        ) =~= row_outcomes(x.cursor.shape, rows.take(k as int)));
    }
}

/// A cursor that streams `rows` hands out each of them in the order of their
/// arrival and then the end of the stream, once. It reads its own messages to
/// the last and none of those that follow.
pub proof fn lemma_stream_to_the_end<'q>(
    x: Exchange<'q>,
    statement: Option<StatementId>,
    rows: Seq<Seq<Option<Seq<u8>>>>,
    later: Seq<MessageModel>,
)
    requires
        x.cursor.phase is Streaming,
        x.unread == rest_of_stream(rows, later),
    ensures
        pulls(x, statement, rows.len() + 1) == (
            Exchange { cursor: CursorModel { phase: Phase::Done, ..x.cursor }, unread: later, ..x },
            row_outcomes(x.cursor.shape, rows) + seq![Outcome::End],
        ),
    decreases rows.len(),
{
    if rows.len() == 0 {
        let y = Exchange {
            cursor: CursorModel { phase: Phase::Done, ..x.cursor },
            unread: later,
            ..x
        };
        assert(x.unread[0] == MessageModel::CommandComplete);
        assert(x.unread.skip(1) =~= later);
        assert(pull(x, statement) == (Pulled { exchange: y, outcome: Outcome::End })) by {
            reveal_with_fuel(perform, 3);
        }
        assert(pulls(y, statement, 0) == (y, Seq::<Outcome>::empty()));
        assert(row_outcomes(x.cursor.shape, rows) + seq![Outcome::End] =~= seq![Outcome::End]
            + Seq::<Outcome>::empty());
    } else {
        let row = RowModel {
            columns: x.cursor.shape.columns,
            formats: x.cursor.shape.formats,
            values: rows[0],
        };
        let y = Exchange { unread: rest_of_stream(rows.skip(1), later), ..x };
        assert(x.unread[0] == MessageModel::DataRow(rows[0]));
        assert(x.unread.skip(1) =~= y.unread);
        assert(pull(x, statement) == (Pulled { exchange: y, outcome: Outcome::Row(row) })) by {
            reveal_with_fuel(perform, 3);
        }
        lemma_stream_to_the_end(y, statement, rows.skip(1), later);
        assert(seq![Outcome::Row(row)] + (row_outcomes(x.cursor.shape, rows.skip(1))
            + seq![Outcome::End]) =~= row_outcomes(x.cursor.shape, rows) + seq![Outcome::End]);
    }
}

/// A cursor that waits for the shape of its result.
pub open spec fn describing<'q>(statement: Option<StatementId>) -> CursorModel<'q> {
    CursorModel { phase: Phase::Describing(statement), ..streaming(described(None)) }
}

/// The first pull sends the query, after a checkout where the source is a
/// pool. Where the shape is not remembered the cursor then waits for it.
pub proof fn lemma_first_pull_sends<'q>(
    source: ConnectionSource,
    sql: &'q str,
    arguments: Option<crate::postgres::cursor::PgArguments>,
    cache: Map<u32, Shape>,
    statement: Option<StatementId>,
    unread: Seq<MessageModel>,
)
    requires
        statement matches Some(id) ==> !cache.contains_key(id.0),
    ensures
        pull(Exchange { cursor: fresh(source, sql, arguments), cache, unread }, statement)
            == perform(
            Exchange { cursor: describing(statement), cache, unread },
            statement,
            ActionModel::Read,
        ),
{
    let c = fresh(source, sql, arguments);
    let x = Exchange { cursor: c, cache, unread };
    let sent = CursorModel {
        source: ConnectionSource::Connection,
        query: None,
        phase: Phase::Executing,
        ..c
    };
    let run = ActionModel::Run(sql, arguments);
    let at_run = Exchange { cursor: sent, cache, unread };
    assert(report(at_run, Event::Executed(statement)) == (
        Exchange { cursor: describing(statement), cache, unread },
        ActionModel::<'q>::Read,
    ));
    assert(perform(at_run, statement, run) == perform(
        Exchange { cursor: describing(statement), cache, unread },
        statement,
        ActionModel::Read,
    ));
    if source == ConnectionSource::Pool {
        let connecting = Exchange { cursor: CursorModel { phase: Phase::Connecting, ..c }, cache, unread };
        assert(report(x, Event::Next) == (connecting, ActionModel::<'q>::Checkout));
        assert(report(connecting, Event::Connected) == (at_run, run));
        assert(perform(connecting, statement, ActionModel::Checkout) == perform(
            at_run,
            statement,
            run,
        ));
    } else {
        assert(report(x, Event::Next) == (at_run, run));
    }
}

/// The description gives the cursor its shape, which is remembered for a
/// prepared statement, and the cursor reads on in the stream behind it.
pub proof fn lemma_description_settles<'q>(
    cache: Map<u32, Shape>,
    statement: Option<StatementId>,
    description: Option<Seq<FieldModel>>,
    rest: Seq<MessageModel>,
)
    ensures
        perform(
            Exchange {
                cursor: describing::<'q>(statement),
                cache,
                unread: seq![description_message(description)] + rest,
            },
            statement,
            ActionModel::Read,
        ) == perform(
            Exchange {
                cursor: streaming::<'q>(described(description)),
                cache: remember(cache, statement, described(description)),
                unread: rest,
            },
            statement,
            ActionModel::Read,
        ),
{
    let behind = seq![description_message(description)] + rest;
    let x = Exchange { cursor: describing::<'q>(statement), cache, unread: behind };
    let settled = Exchange {
        cursor: streaming::<'q>(described(description)),
        cache: remember(cache, statement, described(description)),
        unread: behind,
    };
    assert(behind[0] == description_message(description));
    assert(behind.skip(1) =~= rest);
    assert(report(x, Event::Message(behind[0])) == (settled, ActionModel::<'q>::Read));
}

/// The first pull of a query whose shape is not remembered: the query is
/// sent, after a checkout where the source is a pool, the shape is described
/// and, for a prepared statement, remembered, and the pull reads on in the
/// stream that follows the description.
pub proof fn lemma_first_pull_describes<'q>(
    source: ConnectionSource,
    sql: &'q str,
    arguments: Option<crate::postgres::cursor::PgArguments>,
    cache: Map<u32, Shape>,
    statement: Option<StatementId>,
    acks: Seq<MessageModel>,
    description: Option<Seq<FieldModel>>,
    rest: Seq<MessageModel>,
)
    requires
        statement matches Some(id) ==> !cache.contains_key(id.0),
        acknowledgements(acks),
    ensures
        pull(
            Exchange {
                cursor: fresh(source, sql, arguments),
                cache,
                unread: acks + seq![description_message(description)] + rest,
            },
            statement,
        ) == perform(
            Exchange {
                cursor: streaming(described(description)),
                cache: remember(cache, statement, described(description)),
                unread: rest,
            },
            statement,
            ActionModel::Read,
        ),
{
    let unread = acks + seq![description_message(description)] + rest;
    let behind = seq![description_message(description)] + rest;
    assert(unread =~= acks + behind);
    lemma_first_pull_sends(source, sql, arguments, cache, statement, unread);
    lemma_acknowledgements_are_skipped(
        Exchange { cursor: describing::<'q>(statement), cache, unread },
        statement,
        acks,
        behind,
    );
    lemma_description_settles(cache, statement, description, rest);
}

/// The first pull of a prepared query whose statement the cache knows: the
/// query is sent, the shape is taken from the cache, and the pull reads on in
/// the stream. Nothing is described.
pub proof fn lemma_first_pull_reuses<'q>(
    source: ConnectionSource,
    sql: &'q str,
    arguments: Option<crate::postgres::cursor::PgArguments>,
    cache: Map<u32, Shape>,
    id: StatementId,
    unread: Seq<MessageModel>,
)
    requires
        cache.contains_key(id.0),
    ensures
        pull(Exchange { cursor: fresh(source, sql, arguments), cache, unread }, Some(id))
            == perform(
            Exchange { cursor: streaming(cache[id.0]), cache, unread },
            Some(id),
            ActionModel::Read,
        ),
{
    reveal_with_fuel(perform, 3);
}

/// A query whose shape is not remembered, prepared or not, and whose
/// response holds `rows`: the caller gets each row in the order of its arrival,
/// in the described shape, and then the end of the stream, once. The
/// connection is read to the end of the response and no further, and the
/// shape of a prepared statement is remembered.
pub proof fn lemma_described_query_streams_rows<'q>(
    source: ConnectionSource,
    sql: &'q str,
    arguments: Option<crate::postgres::cursor::PgArguments>,
    cache: Map<u32, Shape>,
    statement: Option<StatementId>,
    acks: Seq<MessageModel>,
    description: Option<Seq<FieldModel>>,
    more_acks: Seq<MessageModel>,
    rows: Seq<Seq<Option<Seq<u8>>>>,
    later: Seq<MessageModel>,
)
    requires
        statement matches Some(id) ==> !cache.contains_key(id.0),
        acknowledgements(acks),
        acknowledgements(more_acks),
    ensures
        pulls(
            Exchange {
                cursor: fresh(source, sql, arguments),
                cache,
                unread: acks + seq![description_message(description)] + (more_acks
                    + rest_of_stream(rows, later)),
            },
            statement,
            rows.len() + 1,
        ) == (
            Exchange {
                cursor: done(described(description)),
                cache: remember(cache, statement, described(description)),
                unread: later,
            },
            row_outcomes(described(description), rows) + seq![Outcome::End],
        ),
{
    let shape = described(description);
    let stream = rest_of_stream(rows, later);
    let x = Exchange {
        cursor: fresh(source, sql, arguments),
        cache,
        unread: acks + seq![description_message(description)] + (more_acks + stream),
    };
    let described_at = Exchange {
        cursor: streaming(shape),
        cache: remember(cache, statement, shape),
        unread: more_acks + stream,
    };
    let y = Exchange { unread: stream, ..described_at };
    lemma_first_pull_describes(
        source,
        sql,
        arguments,
        cache,
        statement,
        acks,
        description,
        more_acks + stream,
    );
    lemma_acknowledgements_are_skipped(described_at, statement, more_acks, stream);
    lemma_pull_while_streaming(y, statement);
    assert(pull(x, statement) == pull(y, statement));
    lemma_stream_to_the_end(y, statement, rows, later);
}

/// A prepared query whose statement the cache knows and whose response holds
/// `rows`: the caller gets each row in the order of its arrival, in the
/// remembered shape, and then the end of the stream, once. The cache is left
/// as it was.
pub proof fn lemma_remembered_query_streams_rows<'q>(
    source: ConnectionSource,
    sql: &'q str,
    arguments: Option<crate::postgres::cursor::PgArguments>,
    cache: Map<u32, Shape>,
    id: StatementId,
    acks: Seq<MessageModel>,
    rows: Seq<Seq<Option<Seq<u8>>>>,
    later: Seq<MessageModel>,
)
    requires
        cache.contains_key(id.0),
        acknowledgements(acks),
    ensures
        pulls(
            Exchange {
                cursor: fresh(source, sql, arguments),
                cache,
                unread: acks + rest_of_stream(rows, later),
            },
            Some(id),
            rows.len() + 1,
        ) == (
            Exchange { cursor: done(cache[id.0]), cache, unread: later },
            row_outcomes(cache[id.0], rows) + seq![Outcome::End],
        ),
{
    let stream = rest_of_stream(rows, later);
    let x = Exchange { cursor: fresh(source, sql, arguments), cache, unread: acks + stream };
    let reused = Exchange { cursor: streaming(cache[id.0]), cache, unread: acks + stream };
    let y = Exchange { unread: stream, ..reused };
    lemma_first_pull_reuses(source, sql, arguments, cache, id, acks + stream);
    lemma_acknowledgements_are_skipped(reused, Some(id), acks, stream);
    lemma_pull_while_streaming(y, Some(id));
    assert(pull(x, Some(id)) == pull(y, Some(id)));
    lemma_stream_to_the_end(y, Some(id), rows, later);
}

/// A cursor that has ended or failed answers every event as it answered the
/// last: with the end of the stream, or with its failure. Its state and the
/// cache stay as they are.
pub proof fn lemma_terminal_states_are_idempotent<'q>(
    c: CursorModel<'q>,
    cache: Map<u32, Shape>,
    event: Event,
)
    requires
        c.phase is Done || (c.phase is Failed && c.failure is Some),
    ensures
        step(c, cache, event).cursor == c,
        step(c, cache, event).cache == cache,
        c.phase is Done ==> step(c, cache, event).action == ActionModel::<'q>::End,
        c.phase is Failed ==> step(c, cache, event).action == ActionModel::<'q>::Fail(
            c.failure->Some_0,
        ),
{
}

/// Every pull on a cursor that has ended or failed ends as the last did and
/// reads nothing: no row is handed out any more.
pub proof fn lemma_no_rows_after_the_end<'q>(
    x: Exchange<'q>,
    statement: Option<StatementId>,
    n: nat,
)
    requires
        x.cursor.phase is Done || (x.cursor.phase is Failed && x.cursor.failure is Some),
    ensures
        pulls(x, statement, n).0 == x,
        pulls(x, statement, n).1.len() == n,
        forall|i: int|
            0 <= i < n ==> #[trigger] pulls(x, statement, n).1[i] == if x.cursor.phase is Done {
                Outcome::End
            } else {
                Outcome::Fail(x.cursor.failure->Some_0)
            },
    decreases n,
{
    if n > 0 {
        assert(pull(x, statement).exchange == x && pull(x, statement).outcome == if x.cursor.phase is Done {
            Outcome::End
        } else {
            Outcome::Fail(x.cursor.failure->Some_0)
        }) by {
            reveal_with_fuel(perform, 2);
        }
        lemma_no_rows_after_the_end(x, statement, (n - 1) as nat);
    }
}

/// Whether the cursor accepts the message `m` in `phase`.
pub open spec fn accepted(phase: Phase, m: MessageModel) -> bool {
    match phase {
        Phase::Describing(_) => m is ParseComplete || m is BindComplete || m is RowDescription
            || m is NoData,
        Phase::Streaming => m is ParseComplete || m is BindComplete || m is CommandComplete
            || m is DataRow,
        Phase::Done | Phase::Failed => true,
        _ => false,
    }
}

/// A message that the cursor does not accept where it stands makes it fail:
/// the pull ends with a protocol failure, no row comes of it, and the cursor
/// has failed for good.
pub proof fn lemma_unexpected_message_fails<'q>(
    c: CursorModel<'q>,
    cache: Map<u32, Shape>,
    m: MessageModel,
)
    requires
        !accepted(c.phase, m),
    ensures
        step(c, cache, Event::Message(m)).action is Fail,
        step(c, cache, Event::Message(m)).action->Fail_0 is Protocol,
        step(c, cache, Event::Message(m)).cursor.phase is Failed,
        step(c, cache, Event::Message(m)).cursor.failure == Some(
            step(c, cache, Event::Message(m)).action->Fail_0,
        ),
        step(c, cache, Event::Message(m)).cache == cache,
        step(c, cache, Event::Message(m)).cursor.shape == c.shape,
        c.phase is Describing ==> step(c, cache, Event::Message(m)).action->Fail_0 == unexpected(
            Stage::Describe,
            m,
        ),
        c.phase is Streaming ==> step(c, cache, Event::Message(m)).action->Fail_0 == unexpected(
            Stage::Rows,
            m,
        ),
{
}

/// After a message that the cursor does not accept, however many pulls
/// follow, each ends with that same failure and reads nothing.
pub proof fn lemma_no_rows_after_unexpected_message<'q>(
    x: Exchange<'q>,
    statement: Option<StatementId>,
    m: MessageModel,
    n: nat,
)
    requires
        !accepted(x.cursor.phase, m),
    ensures
        ({
            let failed = report(x, Event::Message(m)).0;
            &&& pulls(failed, statement, n).0 == failed
            &&& forall|i: int|
                0 <= i < n ==> #[trigger] pulls(failed, statement, n).1[i] == Outcome::Fail(
                    failed.cursor.failure->Some_0,
                )
        }),
{
    lemma_unexpected_message_fails(x.cursor, x.cache, m);
    lemma_no_rows_after_the_end(report(x, Event::Message(m)).0, statement, n);
}

/// The second execution of a prepared statement on one connection describes
/// nothing and sees the shape that the first one saw.
///
/// The first execution finds the statement unknown, waits for the
/// description, takes its shape from it and leaves it in the cache. The
/// second finds it there: it turns to the rows at once, with the same column
/// map and the same formats, and leaves the cache as it is.
pub proof fn lemma_statement_is_described_once<'q>(
    first: CursorModel<'q>,
    second: CursorModel<'q>,
    cache: Map<u32, Shape>,
    id: StatementId,
    fields: Seq<FieldModel>,
)
    requires
        first.phase is Executing,
        second.phase is Executing,
        !cache.contains_key(id.0),
    ensures
        ({
            let asked = step(first, cache, Event::Executed(Some(id)));
            let told = step(
                asked.cursor,
                asked.cache,
                Event::Message(MessageModel::RowDescription(fields)),
            );
            let again = step(second, told.cache, Event::Executed(Some(id)));
            &&& asked.cursor.phase == Phase::Describing(Some(id))
            &&& asked.cache == cache
            &&& told.cursor.phase is Streaming
            &&& told.cursor.shape == described(Some(fields))
            &&& told.cache == cache.insert(id.0, described(Some(fields)))
            &&& again.cursor.phase is Streaming
            &&& again.action is Read
            &&& again.cursor.shape == told.cursor.shape
            &&& again.cache == told.cache
        }),
{
}

/// Nothing that happens to a cursor changes what the cache remembers of a
/// statement: an entry, once written, stays as it is.
pub proof fn lemma_cache_entries_are_written_once<'q>(
    c: CursorModel<'q>,
    cache: Map<u32, Shape>,
    event: Event,
    id: u32,
)
    requires
        cache.contains_key(id),
    ensures
        step(c, cache, event).cache.contains_key(id),
        step(c, cache, event).cache[id] == cache[id],
{
}

/// A cursor that is given up while its query's response is on the connection
/// does not pass for reusable.
///
/// After `k` pulls of a stream of `rows`, what is unread of the response is
/// what the pulls did not hand out. The connection is reported reusable only
/// once the stream was read to its end, and then exactly the messages of what
/// follows are unread: a later query on the connection reads its own response
/// from the start.
pub proof fn lemma_release_after_pulls<'q>(
    x: Exchange<'q>,
    statement: Option<StatementId>,
    rows: Seq<Seq<Option<Seq<u8>>>>,
    later: Seq<MessageModel>,
    k: nat,
)
    requires
        x.cursor.phase is Streaming,
        x.unread == rest_of_stream(rows, later),
        k <= rows.len() + 1,
    ensures
        ({
            let after = pulls(x, statement, k).0;
            &&& k <= rows.len() ==> release_of(after.cursor.phase) == Release::Drain
                && after.unread == rest_of_stream(rows.skip(k as int), later)
            &&& k == rows.len() + 1 ==> release_of(after.cursor.phase) == Release::Reuse
                && after.unread == later
        }),
{
    if k <= rows.len() {
        lemma_rows_in_order(x, statement, rows, later, k);
    } else {
        lemma_stream_to_the_end(x, statement, rows, later);
    }
}

/// A connection is reported reusable only where no response can be
/// outstanding: before the query was sent, or after the stream has ended.
pub proof fn lemma_reuse_means_nothing_outstanding(phase: Phase)
    ensures
        release_of(phase) == Release::Reuse <==> (phase is Start || phase is Connecting
            || phase is Done),
{
}

/// A cursor sends its query at most once: the query goes out with the first
/// action that runs it, and a cursor that holds no query runs none.
pub proof fn lemma_query_is_sent_once<'q>(c: CursorModel<'q>, cache: Map<u32, Shape>, event: Event)
    ensures
        step(c, cache, event).action is Run ==> c.query is Some && step(
            c,
            cache,
            event,
        ).cursor.query is None,
        c.query is None ==> step(c, cache, event).cursor.query is None && !(step(
            c,
            cache,
            event,
        ).action is Run),
{
}

/// The shape that a cursor hands its rows out with is settled before the
/// first row and never changes afterwards: whatever happens to a cursor that
/// streams, has ended or has failed, its column map and formats stay as they
/// are, and every row it hands out has them.
pub proof fn lemma_shape_is_settled<'q>(c: CursorModel<'q>, cache: Map<u32, Shape>, event: Event)
    requires
        c.phase is Streaming || c.phase is Done || c.phase is Failed,
    ensures
        step(c, cache, event).cursor.shape == c.shape,
        step(c, cache, event).cursor.phase is Streaming || step(c, cache, event).cursor.phase is Done
            || step(c, cache, event).cursor.phase is Failed,
        step(c, cache, event).action matches ActionModel::Row(row) ==> row.columns
            == c.shape.columns && row.formats == c.shape.formats,
{
}

/// Rows come only from data rows that arrive while the cursor streams: no
/// other event, and no data row at any other time, makes a row.
pub proof fn lemma_rows_come_from_data_rows<'q>(
    c: CursorModel<'q>,
    cache: Map<u32, Shape>,
    event: Event,
)
    requires
        step(c, cache, event).action is Row,
    ensures
        c.phase is Streaming,
        event matches Event::Message(MessageModel::DataRow(values)) && step(
            c,
            cache,
            event,
        ).action->Row_0.values == values,
{
}

/// The exchange after its owner has drained the connection: as long as the
/// cursor reports that its response is outstanding, the next unread message is
/// handed to it, whatever it answers.
pub open spec fn drain<'q>(x: Exchange<'q>) -> Exchange<'q>
    decreases x.unread.len(),
{
    if release_of(x.cursor.phase) != Release::Drain || x.unread.len() == 0 {
        x
    } else {
        let (y, _) = report(x, Event::Message(x.unread[0]));
        drain(Exchange { unread: x.unread.skip(1), ..y })
    }
}

/// Draining reads the rest of the stream and nothing behind it: a cursor that
/// streams is left ended, the cache as it was, and exactly the messages of
/// what follows unread.
pub proof fn lemma_drain_reads_to_the_end<'q>(
    x: Exchange<'q>,
    rows: Seq<Seq<Option<Seq<u8>>>>,
    later: Seq<MessageModel>,
)
    requires
        x.cursor.phase is Streaming,
        x.unread == rest_of_stream(rows, later),
    ensures
        drain(x) == (Exchange {
            cursor: CursorModel { phase: Phase::Done, ..x.cursor },
            unread: later,
            ..x
        }),
    decreases rows.len(),
{
    if rows.len() == 0 {
        assert(x.unread[0] == MessageModel::CommandComplete);
        assert(x.unread.skip(1) =~= later);
        reveal_with_fuel(drain, 2);
    } else {
        let y = Exchange { unread: rest_of_stream(rows.skip(1), later), ..x };
        assert(x.unread[0] == MessageModel::DataRow(rows[0]));
        assert(x.unread.skip(1) =~= y.unread);
        assert(drain(x) == drain(y));
        lemma_drain_reads_to_the_end(y, rows.skip(1), later);
    }
}

/// A cursor that is given up before its stream has ended does not spoil the
/// connection for the next query.
///
/// The first cursor is given up after `k` of its rows. It does not report the
/// connection reusable. Once its owner has drained the connection, a second
/// cursor for another query on that connection gets exactly the rows of its
/// own response, in order, and then the end: no row of the first response
/// reaches it.
pub proof fn lemma_next_query_sees_its_own_rows<'q>(
    first: Exchange<'q>,
    statement: Option<StatementId>,
    rows: Seq<Seq<Option<Seq<u8>>>>,
    k: nat,
    source: ConnectionSource,
    sql: &'q str,
    arguments: Option<crate::postgres::cursor::PgArguments>,
    next_statement: Option<StatementId>,
    acks: Seq<MessageModel>,
    description: Option<Seq<FieldModel>>,
    more_acks: Seq<MessageModel>,
    next_rows: Seq<Seq<Option<Seq<u8>>>>,
    later: Seq<MessageModel>,
)
    requires
        first.cursor.phase is Streaming,
        k <= rows.len(),
        first.unread == rest_of_stream(
            rows,
            acks + seq![description_message(description)] + (more_acks + rest_of_stream(
                next_rows,
                later,
            )),
        ),
        next_statement matches Some(id) ==> !first.cache.contains_key(id.0),
        acknowledgements(acks),
        acknowledgements(more_acks),
    ensures
        ({
            let given_up = pulls(first, statement, k).0;
            let clean = drain(given_up);
            let second = Exchange {
                cursor: fresh(source, sql, arguments),
                cache: clean.cache,
                unread: clean.unread,
            };
            &&& release_of(given_up.cursor.phase) == Release::Drain
            &&& release_of(clean.cursor.phase) == Release::Reuse
            &&& pulls(second, next_statement, next_rows.len() + 1).1 == row_outcomes(
                described(description),
                next_rows,
            ) + seq![Outcome::End]
            &&& pulls(second, next_statement, next_rows.len() + 1).0.unread == later
        }),
{
    let response = acks + seq![description_message(description)] + (more_acks + rest_of_stream(
        next_rows,
        later,
    ));
    lemma_rows_in_order(first, statement, rows, response, k);
    let given_up = pulls(first, statement, k).0;
    lemma_drain_reads_to_the_end(given_up, rows.skip(k as int), response);
    lemma_described_query_streams_rows(
        source,
        sql,
        arguments,
        first.cache,
        next_statement,
        acks,
        description,
        more_acks,
        next_rows,
        later,
    );
}

} // verus!
