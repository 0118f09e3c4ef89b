//! The exchange of one query, as the cursor's owner conducts it, and what
//! holds of every such exchange.
//!
//! The owner performs the cursor's actions on a connection whose unread
//! packets are given. The functions here follow the cursor through that
//! exchange; the proofs state what the caller then sees.

use crate::connection::{ConnectionSource, Release};
use crate::error::{ErrorModel, Stage};
use crate::mysql::cursor::{
    fresh,
    release_of,
    step,
    unexpected,
    ActionModel,
    CursorModel,
    Event,
    MySqlArguments,
    Phase,
};
use crate::mysql::protocol::PacketModel;
use crate::mysql::row::RowModel;
use vstd::prelude::*;

verus! {

/// A cursor and the packets that its connection has not yet handed out, in
/// the order of their arrival.
pub struct Exchange<'q> {
    pub cursor: CursorModel<'q>,
    pub unread: Seq<PacketModel>,
}

/// How a pull ends.
pub enum Outcome {
    /// With a row.
    Row(RowModel),
    /// With the end of the stream.
    End,
    /// With a failure.
    Fail(ErrorModel),
    /// Not yet: the cursor waits for a packet that has not arrived.
    Waiting,
}

/// An exchange and the outcome of a pull on it.
pub struct Pulled<'q> {
    pub exchange: Exchange<'q>,
    pub outcome: Outcome,
}

/// How many reports an action takes before one that reads can follow.
pub open spec fn rank(action: ActionModel) -> nat {
    match action {
        ActionModel::Checkout => 2,
        ActionModel::Run(_, _) => 1,
        _ => 0,
    }
}

/// The exchange after the cursor has answered `event`, and its answer.
pub open spec fn report<'q>(x: Exchange<'q>, event: Event) -> (Exchange<'q>, ActionModel<'q>) {
    let s = step(x.cursor, event);
    (Exchange { cursor: s.cursor, unread: x.unread }, s.action)
}

/// The owner performs `action` and those that follow from it until the pull
/// ends: a checkout succeeds, the executor sends the query as a prepared
/// statement or as a simple query, and a read hands out the first unread
/// packet.
pub open spec fn perform<'q>(x: Exchange<'q>, prepared: bool, action: ActionModel<'q>) -> Pulled<'q>
    decreases x.unread.len(), rank(action),
{
    match action {
        ActionModel::Row(row) => Pulled { exchange: x, outcome: Outcome::Row(row) },
        ActionModel::End => Pulled { exchange: x, outcome: Outcome::End },
        ActionModel::Fail(e) => Pulled { exchange: x, outcome: Outcome::Fail(e) },
        ActionModel::Checkout => {
            let (y, answer) = report(x, Event::Connected);
            if rank(answer) < 2 {
                perform(y, prepared, answer)
            } else {
                Pulled { exchange: y, outcome: Outcome::Waiting }
            }
        },
        ActionModel::Run(_, _) => {
            let (y, answer) = report(x, Event::Executed { prepared });
            if rank(answer) < 1 {
                perform(y, prepared, answer)
            } else {
                Pulled { exchange: y, outcome: Outcome::Waiting }
            }
        },
        ActionModel::Read => if x.unread.len() == 0 {
            Pulled { exchange: x, outcome: Outcome::Waiting }
        } else {
            let (y, answer) = report(x, Event::Packet(x.unread[0]));
            perform(Exchange { unread: x.unread.skip(1), ..y }, prepared, answer)
        },
    }
}

/// One pull: the caller asks for the next row and the owner performs what
/// the cursor decides until the pull ends.
pub open spec fn pull<'q>(x: Exchange<'q>, prepared: bool) -> Pulled<'q> {
    let (y, answer) = report(x, Event::Next);
    perform(y, prepared, answer)
}

/// `n` pulls in a row: the exchange after the last and the outcomes in order.
pub open spec fn pulls<'q>(x: Exchange<'q>, prepared: bool, n: nat) -> (Exchange<'q>, Seq<Outcome>)
    decreases n,
{
    if n == 0 {
        (x, Seq::<Outcome>::empty())
    } else {
        let first = pull(x, prepared);
        let (last, others) = pulls(first.exchange, prepared, (n - 1) as nat);
        (last, seq![first.outcome] + others)
    }
}

/// The column map of the first `n` of the defined columns: each name leads
/// to the position of its column, a later column replacing an earlier one of
/// the same name, and columns without a name are passed over.
pub open spec fn defined_columns(names: Seq<Option<Seq<char>>>, n: nat) -> Map<Seq<char>, usize>
    decreases n,
{
    if n == 0 {
        Map::empty()
    } else {
        let before = defined_columns(names, (n - 1) as nat);
        match names[n - 1] {
            Some(name) => before.insert(name, (n - 1) as usize),
            None => before,
        }
    }
}

/// The packets that define columns of the given names, in order.
pub open spec fn definitions(names: Seq<Option<Seq<char>>>) -> Seq<PacketModel> {
    Seq::new(names.len(), |i: int| PacketModel::ColumnDefinition(names[i]))
}

/// The packets that carry `rows`, in order.
pub open spec fn row_packets(rows: Seq<Seq<Option<Seq<u8>>>>) -> Seq<PacketModel> {
    Seq::new(rows.len(), |i: int| PacketModel::Row(rows[i]))
}

/// What is left to read of a stream of `rows`: the rows, their end, and the
/// packets `later` of whatever follows on the connection.
pub open spec fn rest_of_stream(
    rows: Seq<Seq<Option<Seq<u8>>>>,
    later: Seq<PacketModel>,
) -> Seq<PacketModel> {
    row_packets(rows) + seq![PacketModel::Eof] + later
}

/// The outcomes that hand out `rows` with the given column map and format,
/// in order.
pub open spec fn row_outcomes(
    columns: Map<Seq<char>, usize>,
    binary: bool,
    rows: Seq<Seq<Option<Seq<u8>>>>,
) -> Seq<Outcome> {
    Seq::new(rows.len(), |i: int| Outcome::Row(RowModel { columns, binary, values: rows[i] }))
}

/// A cursor that streams rows with the given column map and format on its
/// connection.
pub open spec fn streaming<'q>(columns: Map<Seq<char>, usize>, binary: bool) -> CursorModel<'q> {
    CursorModel {
        source: ConnectionSource::Connection,
        query: None,
        columns,
        defining: Map::empty(),
        defined: 0,
        binary,
        phase: Phase::Streaming,
        failure: None,
    }
}

/// A pull on a cursor that streams reads on.
pub proof fn lemma_pull_while_streaming<'q>(x: Exchange<'q>, prepared: bool)
    requires
        x.cursor.phase is Streaming,
    ensures
        pull(x, prepared) == perform(x, prepared, ActionModel::Read),
{
}

/// A cursor that streams hands out the first `k` rows in the order of their
/// arrival, each with the cursor's column map and format, and reads nothing
/// behind them.
pub proof fn lemma_rows_in_order<'q>(
    x: Exchange<'q>,
    prepared: bool,
    rows: Seq<Seq<Option<Seq<u8>>>>,
    later: Seq<PacketModel>,
    k: nat,
)
    requires
        x.cursor.phase is Streaming,
        x.unread == rest_of_stream(rows, later),
        k <= rows.len(),
    ensures
        pulls(x, prepared, k) == (
            Exchange { unread: rest_of_stream(rows.skip(k as int), later), ..x },
            row_outcomes(x.cursor.columns, x.cursor.binary, rows.take(k as int)),
        ),
    decreases k,
{
    if k == 0 {
        assert(rows.skip(0) =~= rows);
        assert(row_outcomes(x.cursor.columns, x.cursor.binary, rows.take(0)) =~= Seq::<
            Outcome,
        >::empty());
    } else {
        let row = RowModel { columns: x.cursor.columns, binary: x.cursor.binary, values: rows[0] };
        let y = Exchange { unread: rest_of_stream(rows.skip(1), later), ..x };
        assert(x.unread[0] == PacketModel::Row(rows[0]));
        assert(x.unread.skip(1) =~= y.unread);
        assert(pull(x, prepared) == (Pulled { exchange: y, outcome: Outcome::Row(row) })) by {
            reveal_with_fuel(perform, 3);
        }
        lemma_rows_in_order(y, prepared, rows.skip(1), later, (k - 1) as nat);
        assert(rows.skip(1).skip(k - 1) =~= rows.skip(k as int));
        assert(seq![Outcome::Row(row)] + row_outcomes(
            x.cursor.columns,
            x.cursor.binary,
            rows.skip(1).take(k - 1),
        ) =~= row_outcomes(x.cursor.columns, x.cursor.binary, rows.take(k as int)));
    }
}

/// A cursor that streams `rows` hands out each of them in the order of their
/// arrival and then the end of the stream, once. It reads its own packets to
/// the last and none of those that follow.
pub proof fn lemma_stream_to_the_end<'q>(
    x: Exchange<'q>,
    prepared: bool,
    rows: Seq<Seq<Option<Seq<u8>>>>,
    later: Seq<PacketModel>,
)
    requires
        x.cursor.phase is Streaming,
        x.unread == rest_of_stream(rows, later),
    ensures
        pulls(x, prepared, rows.len() + 1) == (
            Exchange { cursor: CursorModel { phase: Phase::Done, ..x.cursor }, unread: later },
            row_outcomes(x.cursor.columns, x.cursor.binary, rows) + seq![Outcome::End],
        ),
    decreases rows.len(),
{
    if rows.len() == 0 {
        let y = Exchange { cursor: CursorModel { phase: Phase::Done, ..x.cursor }, unread: later };
        assert(x.unread[0] == PacketModel::Eof);
        assert(x.unread.skip(1) =~= later);
        assert(pull(x, prepared) == (Pulled { exchange: y, outcome: Outcome::End })) by {
            reveal_with_fuel(perform, 3);
        }
        assert(pulls(y, prepared, 0) == (y, Seq::<Outcome>::empty()));
        assert(row_outcomes(x.cursor.columns, x.cursor.binary, rows) + seq![Outcome::End]
            =~= seq![Outcome::End] + Seq::<Outcome>::empty());
    } else {
        let row = RowModel { columns: x.cursor.columns, binary: x.cursor.binary, values: rows[0] };
        let y = Exchange { unread: rest_of_stream(rows.skip(1), later), ..x };
        assert(x.unread[0] == PacketModel::Row(rows[0]));
        assert(x.unread.skip(1) =~= y.unread);
        assert(pull(x, prepared) == (Pulled { exchange: y, outcome: Outcome::Row(row) })) by {
            reveal_with_fuel(perform, 3);
        }
        lemma_stream_to_the_end(y, prepared, rows.skip(1), later);
        assert(seq![Outcome::Row(row)] + (row_outcomes(
            x.cursor.columns,
            x.cursor.binary,
            rows.skip(1),
        ) + seq![Outcome::End]) =~= row_outcomes(x.cursor.columns, x.cursor.binary, rows)
            + seq![Outcome::End]);
    }
}

/// A cursor for whose result columns are being defined, `k` of those named
/// `names` so far.
pub open spec fn defining<'q>(
    binary: bool,
    names: Seq<Option<Seq<char>>>,
    k: nat,
) -> CursorModel<'q> {
    CursorModel {
        defining: defined_columns(names, k),
        defined: k as usize,
        phase: Phase::Defining((names.len() - k) as u64),
        ..streaming(Map::empty(), binary)
    }
}

/// The column definitions are read one after the other, each name leading to
/// the position of its column, and their end makes the map they built the
/// column map of the rows.
pub proof fn lemma_columns_are_defined<'q>(
    binary: bool,
    names: Seq<Option<Seq<char>>>,
    k: nat,
    rest: Seq<PacketModel>,
)
    requires
        k <= names.len() <= usize::MAX,
    ensures
        perform(
            Exchange {
                cursor: defining::<'q>(binary, names, k),
                unread: definitions(names.skip(k as int)) + seq![PacketModel::Eof] + rest,
            },
            binary,
            ActionModel::Read,
        ) == perform(
            Exchange {
                cursor: streaming::<'q>(defined_columns(names, names.len()), binary),
                unread: rest,
            },
            binary,
            ActionModel::Read,
        ),
    decreases names.len() - k,
{
    let unread = definitions(names.skip(k as int)) + seq![PacketModel::Eof] + rest;
    let x = Exchange { cursor: defining::<'q>(binary, names, k), unread };
    if k == names.len() {
        assert(unread[0] == PacketModel::Eof);
        assert(unread.skip(1) =~= rest);
        assert(report(x, Event::Packet(unread[0])) == (
            Exchange {
                cursor: streaming::<'q>(defined_columns(names, names.len()), binary),
                unread,
            },
            ActionModel::<'q>::Read,
        ));
    } else {
        assert(unread[0] == PacketModel::ColumnDefinition(names[k as int]));
        let behind = definitions(names.skip((k + 1) as int)) + seq![PacketModel::Eof] + rest;
        assert(unread.skip(1) =~= behind);
        assert(report(x, Event::Packet(unread[0])) == (
            Exchange { cursor: defining::<'q>(binary, names, k + 1), unread },
            ActionModel::<'q>::Read,
        ));
        lemma_columns_are_defined(binary, names, k + 1, rest);
    }
}

/// The first pull sends the query, after a checkout where the source is a
/// pool, and then waits for the backend's answer. Rows of a prepared query
/// are expected in the binary format, those of a simple query as text.
pub proof fn lemma_first_pull_sends<'q>(
    source: ConnectionSource,
    sql: &'q str,
    arguments: Option<MySqlArguments>,
    prepared: bool,
    unread: Seq<PacketModel>,
)
    ensures
        pull(Exchange { cursor: fresh(source, sql, arguments), unread }, prepared) == perform(
            Exchange {
                cursor: CursorModel { phase: Phase::Awaiting, ..streaming(Map::empty(), prepared) },
                unread,
            },
            prepared,
            ActionModel::Read,
        ),
{
    let c = fresh(source, sql, arguments);
    let x = Exchange { cursor: c, unread };
    let sent = CursorModel {
        source: ConnectionSource::Connection,
        query: None,
        phase: Phase::Executing,
        ..c
    };
    let run = ActionModel::Run(sql, arguments);
    let at_run = Exchange { cursor: sent, unread };
    let awaiting = Exchange {
        cursor: CursorModel { phase: Phase::Awaiting, ..streaming(Map::empty(), prepared) },
        unread,
    };
    assert(report(at_run, Event::Executed { prepared }) == (awaiting, ActionModel::<'q>::Read));
    assert(perform(at_run, prepared, run) == perform(awaiting, prepared, ActionModel::Read));
    if source == ConnectionSource::Pool {
        let connecting = Exchange { cursor: CursorModel { phase: Phase::Connecting, ..c }, unread };
        assert(report(x, Event::Next) == (connecting, ActionModel::<'q>::Checkout));
        assert(report(connecting, Event::Connected) == (at_run, run));
        assert(perform(connecting, prepared, ActionModel::Checkout) == perform(
            at_run,
            prepared,
            run,
        ));
    } else {
        assert(report(x, Event::Next) == (at_run, run));
    }
}

/// A query, prepared or simple, whose response is a result set of `rows`:
/// the caller gets each row in the order of its arrival, with the column map
/// that the definitions built and in the format of the execution path, and
/// then the end of the stream, once. The connection is read to the end of
/// the response and no further.
///
/// The result has no more columns than a position can count, which is all
/// that a row in memory can hold.
pub proof fn lemma_query_streams_rows<'q>(
    source: ConnectionSource,
    sql: &'q str,
    arguments: Option<MySqlArguments>,
    prepared: bool,
    names: Seq<Option<Seq<char>>>,
    rows: Seq<Seq<Option<Seq<u8>>>>,
    later: Seq<PacketModel>,
)
    requires
        names.len() <= usize::MAX,
    ensures
        pulls(
            Exchange {
                cursor: fresh(source, sql, arguments),
                unread: seq![PacketModel::ColumnCount(names.len() as u64)] + (definitions(names)
                    + seq![PacketModel::Eof] + rest_of_stream(rows, later)),
            },
            prepared,
            rows.len() + 1,
        ) == (
            Exchange {
                cursor: CursorModel {
                    phase: Phase::Done,
                    ..streaming(defined_columns(names, names.len()), prepared)
                },
                unread: later,
            },
            row_outcomes(defined_columns(names, names.len()), prepared, rows) + seq![Outcome::End],
        ),
{
    let stream = rest_of_stream(rows, later);
    let behind = definitions(names) + seq![PacketModel::Eof] + stream;
    let unread = seq![PacketModel::ColumnCount(names.len() as u64)] + behind;
    let x = Exchange { cursor: fresh(source, sql, arguments), unread };
    let awaiting = Exchange {
        cursor: CursorModel { phase: Phase::Awaiting, ..streaming(Map::empty(), prepared) },
        unread,
    };
    let counted = Exchange { cursor: defining::<'q>(prepared, names, 0), unread: behind };
    let y = Exchange {
        cursor: streaming::<'q>(defined_columns(names, names.len()), prepared),
        unread: stream,
    };
    lemma_first_pull_sends(source, sql, arguments, prepared, unread);
    assert(unread[0] == PacketModel::ColumnCount(names.len() as u64));
    assert(unread.skip(1) =~= behind);
    assert(report(awaiting, Event::Packet(unread[0])) == (
        Exchange { cursor: counted.cursor, unread },
        ActionModel::<'q>::Read,
    ));
    assert(perform(awaiting, prepared, ActionModel::Read) == perform(
        counted,
        prepared,
        ActionModel::Read,
    ));
    assert(names.skip(0) =~= names);
    lemma_columns_are_defined(prepared, names, 0, stream);
    lemma_pull_while_streaming(y, prepared);
    assert(pull(x, prepared) == pull(y, prepared));
    lemma_stream_to_the_end(y, prepared, rows, later);
}

/// A statement that gives no result set: the first pull ends the stream, and
/// the connection is read to the completion of the statement and no further.
pub proof fn lemma_statement_without_rows_ends<'q>(
    source: ConnectionSource,
    sql: &'q str,
    arguments: Option<MySqlArguments>,
    prepared: bool,
    later: Seq<PacketModel>,
)
    ensures
        pull(
            Exchange {
                cursor: fresh(source, sql, arguments),
                unread: seq![PacketModel::Complete] + later,
            },
            prepared,
        ) == (Pulled {
            exchange: Exchange {
                cursor: CursorModel { phase: Phase::Done, ..streaming(Map::empty(), prepared) },
                unread: later,
            },
            outcome: Outcome::End,
        }),
{
    let unread = seq![PacketModel::Complete] + later;
    lemma_first_pull_sends(source, sql, arguments, prepared, unread);
    assert(unread[0] == PacketModel::Complete);
    assert(unread.skip(1) =~= later);
    reveal_with_fuel(perform, 2);
}

/// A cursor that has ended or failed answers every event as it answered the
/// last: with the end of the stream, or with its failure. Its state stays as
/// it is.
pub proof fn lemma_terminal_states_are_idempotent<'q>(c: CursorModel<'q>, event: Event)
    requires
        c.phase is Done || (c.phase is Failed && c.failure is Some),
    ensures
        step(c, event).cursor == c,
        c.phase is Done ==> step(c, event).action == ActionModel::<'q>::End,
        c.phase is Failed ==> step(c, event).action == ActionModel::<'q>::Fail(c.failure->Some_0),
{
}

/// Every pull on a cursor that has ended or failed ends as the last did and
/// reads nothing: no row is handed out any more.
pub proof fn lemma_no_rows_after_the_end<'q>(x: Exchange<'q>, prepared: bool, n: nat)
    requires
        x.cursor.phase is Done || (x.cursor.phase is Failed && x.cursor.failure is Some),
    ensures
        pulls(x, prepared, n).0 == x,
        pulls(x, prepared, n).1.len() == n,
        forall|i: int|
            0 <= i < n ==> #[trigger] pulls(x, prepared, n).1[i] == if x.cursor.phase is Done {
                Outcome::End
            } else {
                Outcome::Fail(x.cursor.failure->Some_0)
            },
    decreases n,
{
    if n > 0 {
        assert(pull(x, prepared).exchange == x && pull(x, prepared).outcome
            == if x.cursor.phase is Done {
            Outcome::End
        } else {
            Outcome::Fail(x.cursor.failure->Some_0)
        }) by {
            reveal_with_fuel(perform, 2);
        }
        lemma_no_rows_after_the_end(x, prepared, (n - 1) as nat);
    }
}

/// Whether the cursor accepts the packet `p` where it stands.
pub open spec fn accepted(c: CursorModel, p: PacketModel) -> bool {
    match c.phase {
        Phase::Awaiting => p is Complete || p is ColumnCount,
        Phase::Defining(left) => (p is ColumnDefinition && left > 0 && c.defined < usize::MAX) || (
        p is Eof && left == 0),
        Phase::Streaming => p is Row || p is Eof,
        Phase::Done | Phase::Failed => true,
        _ => false,
    }
}

/// A packet that the cursor does not accept where it stands makes it fail:
/// the pull ends with a protocol failure, no row comes of it, and the cursor
/// has failed for good.
pub proof fn lemma_unexpected_packet_fails<'q>(c: CursorModel<'q>, p: PacketModel)
    requires
        !accepted(c, p),
    ensures
        step(c, Event::Packet(p)).action is Fail,
        step(c, Event::Packet(p)).action->Fail_0 is Protocol,
        step(c, Event::Packet(p)).cursor.phase is Failed,
        step(c, Event::Packet(p)).cursor.failure == Some(step(c, Event::Packet(p)).action->Fail_0),
        c.phase is Awaiting || c.phase is Defining ==> step(c, Event::Packet(p)).action->Fail_0
            == unexpected(Stage::Describe, p),
        c.phase is Streaming ==> step(c, Event::Packet(p)).action->Fail_0 == unexpected(
            Stage::Rows,
            p,
        ),
{
}

/// After a packet that the cursor does not accept, however many pulls follow,
/// each ends with that same failure and reads nothing.
pub proof fn lemma_no_rows_after_unexpected_packet<'q>(
    x: Exchange<'q>,
    prepared: bool,
    p: PacketModel,
    n: nat,
)
    requires
        !accepted(x.cursor, p),
    ensures
        ({
            let failed = report(x, Event::Packet(p)).0;
            &&& pulls(failed, prepared, n).0 == failed
            &&& forall|i: int|
                0 <= i < n ==> #[trigger] pulls(failed, prepared, n).1[i] == Outcome::Fail(
                    failed.cursor.failure->Some_0,
                )
        }),
{
    lemma_unexpected_packet_fails(x.cursor, p);
    lemma_no_rows_after_the_end(report(x, Event::Packet(p)).0, prepared, n);
}

/// A cursor that is given up while its query's response is on the connection
/// does not pass for reusable.
///
/// After `k` pulls of a stream of `rows`, what is unread of the response is
/// what the pulls did not hand out. The connection is reported reusable only
/// once the stream was read to its end, and then exactly the packets of what
/// follows are unread: a later query on the connection reads its own response
/// from the start.
pub proof fn lemma_release_after_pulls<'q>(
    x: Exchange<'q>,
    prepared: bool,
    rows: Seq<Seq<Option<Seq<u8>>>>,
    later: Seq<PacketModel>,
    k: nat,
)
    requires
        x.cursor.phase is Streaming,
        x.unread == rest_of_stream(rows, later),
        k <= rows.len() + 1,
    ensures
        ({
            let after = pulls(x, prepared, k).0;
            &&& k <= rows.len() ==> release_of(after.cursor.phase) == Release::Drain
                && after.unread == rest_of_stream(rows.skip(k as int), later)
            &&& k == rows.len() + 1 ==> release_of(after.cursor.phase) == Release::Reuse
                && after.unread == later
        }),
{
    if k <= rows.len() {
        lemma_rows_in_order(x, prepared, rows, later, k);
    } else {
        lemma_stream_to_the_end(x, prepared, rows, later);
    }
}

/// A connection is reported reusable only where no response can be
/// outstanding: before the query was sent, or after the stream has ended.
pub proof fn lemma_reuse_means_nothing_outstanding(phase: Phase)
    ensures
        release_of(phase) == Release::Reuse <==> (phase is Start || phase is Connecting
            || phase is Done),
{
}

/// A cursor sends its query at most once: the query goes out with the first
/// action that runs it, and a cursor that holds no query runs none.
pub proof fn lemma_query_is_sent_once<'q>(c: CursorModel<'q>, event: Event)
    ensures
        step(c, event).action is Run ==> c.query is Some && step(c, event).cursor.query is None,
        c.query is None ==> step(c, event).cursor.query is None && !(step(c, event).action is Run),
{
}

/// The column map and the format that a cursor hands its rows out with are
/// settled before the first row and never change afterwards: whatever happens
/// to a cursor that streams, has ended or has failed, they stay as they are,
/// and every row it hands out has them.
pub proof fn lemma_columns_are_settled<'q>(c: CursorModel<'q>, event: Event)
    requires
        c.phase is Streaming || c.phase is Done || c.phase is Failed,
    ensures
        step(c, event).cursor.columns == c.columns,
        step(c, event).cursor.binary == c.binary,
        step(c, event).cursor.phase is Streaming || step(c, event).cursor.phase is Done || step(
            c,
            event,
        ).cursor.phase is Failed,
        step(c, event).action matches ActionModel::Row(row) ==> row.columns == c.columns
            && row.binary == c.binary,
{
}

/// Rows come only from row packets that arrive while the cursor streams: no
/// other event, and no row packet at any other time, makes a row.
pub proof fn lemma_rows_come_from_row_packets<'q>(c: CursorModel<'q>, event: Event)
    requires
        step(c, event).action is Row,
    ensures
        c.phase is Streaming,
        event matches Event::Packet(PacketModel::Row(values)) && step(
            c,
            event,
        ).action->Row_0.values == values,
{
}

/// The exchange after its owner has drained the connection: as long as the
/// cursor reports that its response is outstanding, the next unread packet is
/// handed to it, whatever it answers.
pub open spec fn drain<'q>(x: Exchange<'q>) -> Exchange<'q>
    decreases x.unread.len(),
{
    if release_of(x.cursor.phase) != Release::Drain || x.unread.len() == 0 {
        x
    } else {
        let (y, _) = report(x, Event::Packet(x.unread[0]));
        drain(Exchange { unread: x.unread.skip(1), ..y })
    }
}

/// Draining reads the rest of the stream and nothing behind it: a cursor that
/// streams is left ended, and exactly the packets of what follows unread.
pub proof fn lemma_drain_reads_to_the_end<'q>(
    x: Exchange<'q>,
    rows: Seq<Seq<Option<Seq<u8>>>>,
    later: Seq<PacketModel>,
)
    requires
        x.cursor.phase is Streaming,
        x.unread == rest_of_stream(rows, later),
    ensures
        drain(x) == (Exchange {
            cursor: CursorModel { phase: Phase::Done, ..x.cursor },
            unread: later,
        }),
    decreases rows.len(),
{
    if rows.len() == 0 {
        assert(x.unread[0] == PacketModel::Eof);
        assert(x.unread.skip(1) =~= later);
        reveal_with_fuel(drain, 2);
    } else {
        let y = Exchange { unread: rest_of_stream(rows.skip(1), later), ..x };
        assert(x.unread[0] == PacketModel::Row(rows[0]));
        assert(x.unread.skip(1) =~= y.unread);
        assert(drain(x) == drain(y));
        lemma_drain_reads_to_the_end(y, rows.skip(1), later);
    }
}

/// A cursor that is given up before its stream has ended does not spoil the
/// connection for the next query.
///
/// The first cursor is given up after `k` of its rows. It does not report the
/// connection reusable. Once its owner has drained the connection, a second
/// cursor for another query on that connection gets exactly the rows of its
/// own response, in order, and then the end: no row of the first response
/// reaches it.
pub proof fn lemma_next_query_sees_its_own_rows<'q>(
    first: Exchange<'q>,
    prepared: bool,
    rows: Seq<Seq<Option<Seq<u8>>>>,
    k: nat,
    source: ConnectionSource,
    sql: &'q str,
    arguments: Option<MySqlArguments>,
    next_prepared: bool,
    names: Seq<Option<Seq<char>>>,
    next_rows: Seq<Seq<Option<Seq<u8>>>>,
    later: Seq<PacketModel>,
)
    requires
        first.cursor.phase is Streaming,
        k <= rows.len(),
        names.len() <= usize::MAX,
        first.unread == rest_of_stream(
            rows,
            seq![PacketModel::ColumnCount(names.len() as u64)] + (definitions(names)
                + seq![PacketModel::Eof] + rest_of_stream(next_rows, later)),
        ),
    ensures
        ({
            let given_up = pulls(first, prepared, k).0;
            let clean = drain(given_up);
            let second = Exchange { cursor: fresh(source, sql, arguments), unread: clean.unread };
            &&& release_of(given_up.cursor.phase) == Release::Drain
            &&& release_of(clean.cursor.phase) == Release::Reuse
            &&& pulls(second, next_prepared, next_rows.len() + 1).1 == row_outcomes(
                defined_columns(names, names.len()),
                next_prepared,
                next_rows,
            ) + seq![Outcome::End]
            &&& pulls(second, next_prepared, next_rows.len() + 1).0.unread == later
        }),
{
    let response = seq![PacketModel::ColumnCount(names.len() as u64)] + (definitions(names)
        + seq![PacketModel::Eof] + rest_of_stream(next_rows, later));
    lemma_rows_in_order(first, prepared, rows, response, k);
    let given_up = pulls(first, prepared, k).0;
    lemma_drain_reads_to_the_end(given_up, rows.skip(k as int), response);
    lemma_query_streams_rows(source, sql, arguments, next_prepared, names, next_rows, later);
}

} // verus!
