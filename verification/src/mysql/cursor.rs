//! The cursor of the MySQL backend: a state machine from the events of one
//! query's exchange to the actions that the connection's owner performs.
//!
//! The cursor decides; it does no input or output. Its owner performs each
//! action and reports what came of it: `next` opens a pull for one row,
//! `connected`, `executed`, `receive` and `failed` report on the action before.
//! A pull ends with a row, with the end of the stream or with a failure.

use crate::connection::{ConnectionSource, Release};
use crate::error::{Error, ErrorModel, ProtocolError, Stage};
use crate::mysql::protocol::{Packet, PacketModel};
use crate::mysql::row::{MySqlRow, RowModel};
use crate::row::ColumnMap;
use std::sync::Arc;
use vstd::prelude::*;

verus! {

/// The arguments of a prepared query, encoded for the wire: the bitmap of
/// those that are NULL, the type of each, and their values one after the
/// other.
#[derive(Debug)]
pub struct MySqlArguments {
    pub null_bitmap: Vec<u8>,
    pub param_types: Vec<u8>,
    pub params: Vec<u8>,
}

/// Where a cursor stands in the exchange of its query.
#[derive(Debug, Clone, Copy, PartialEq, Eq, Structural)]
pub enum Phase {
    /// The query has not been sent.
    Start,
    /// A connection is being checked out of the pool.
    Connecting,
    /// The query is with the executor.
    Executing,
    /// The backend has yet to say whether a result set follows.
    Awaiting,
    /// Columns are being defined; this many definitions are still announced.
    Defining(u64),
    /// Rows are being streamed.
    Streaming,
    /// The stream has ended.
    Done,
    /// The cursor failed for good.
    Failed,
}

/// A lazy, single-pass stream of the rows of one query.
pub struct MySqlCursor<'q> {
    source: ConnectionSource,
    query: Option<(&'q str, Option<MySqlArguments>)>,
    /// The column map of the rows, once the definitions have ended.
    columns: Arc<ColumnMap>,
    /// The column map under construction while columns are defined.
    defining: ColumnMap,
    /// The number of columns defined so far.
    defined: usize,
    binary: bool,
    phase: Phase,
    failure: Option<Error>,
}

/// The model of a cursor.
pub struct CursorModel<'q> {
    pub source: ConnectionSource,
    pub query: Option<(&'q str, Option<MySqlArguments>)>,
    /// The column map that rows are handed out with.
    pub columns: Map<Seq<char>, usize>,
    /// The column map of the definitions read so far.
    pub defining: Map<Seq<char>, usize>,
    /// The number of definitions read so far.
    pub defined: usize,
    /// Whether rows arrive in the binary format.
    pub binary: bool,
    pub phase: Phase,
    pub failure: Option<ErrorModel>,
}

impl<'q> View for MySqlCursor<'q> {
    type V = CursorModel<'q>;

    closed spec fn view(&self) -> CursorModel<'q> {
        CursorModel {
            source: self.source,
            query: self.query,
            columns: self.columns@,
            defining: self.defining@,
            defined: self.defined,
            binary: self.binary,
            phase: self.phase,
            failure: match self.failure {
                Some(e) => Some(e@),
                None => None,
            },
        }
    }
}

/// What happened since the cursor's last action.
pub enum Event {
    /// The caller asks for the next row.
    Next,
    /// A connection was checked out.
    Connected,
    /// The executor sent the query, as a prepared statement or as a simple
    /// query.
    Executed { prepared: bool },
    /// A packet arrived.
    Packet(PacketModel),
    /// The action could not be performed.
    Failed(ErrorModel),
}

/// What the cursor's owner is to do next.
#[derive(Debug)]
pub enum Action<'c, 'q> {
    /// Check a connection out of the pool, then report `connected`.
    Checkout,
    /// Hand the query to the executor, then report `executed`.
    Run(&'q str, Option<MySqlArguments>),
    /// Read the next packet, then report it with `receive`.
    Read,
    /// The pull ends with this row.
    Row(MySqlRow<'c>),
    /// The pull ends: the stream is exhausted.
    End,
    /// The pull ends with this failure.
    Fail(Error),
}

/// The model of an `Action`.
pub enum ActionModel<'q> {
    Checkout,
    Run(&'q str, Option<MySqlArguments>),
    Read,
    Row(RowModel),
    End,
    Fail(ErrorModel),
}

impl<'c, 'q> View for Action<'c, 'q> {
    type V = ActionModel<'q>;

    open spec fn view(&self) -> ActionModel<'q> {
        match self {
            Action::Checkout => ActionModel::Checkout,
            Action::Run(sql, arguments) => ActionModel::Run(*sql, *arguments),
            Action::Read => ActionModel::Read,
            Action::Row(row) => ActionModel::Row(row@),
            Action::End => ActionModel::End,
            Action::Fail(e) => ActionModel::Fail(e@),
        }
    }
}

/// A cursor and the action it decided.
pub struct Step<'q> {
    pub cursor: CursorModel<'q>,
    pub action: ActionModel<'q>,
}

/// A cursor that has not sent its query. Rows are expected in the binary
/// format until the executor says that the query was sent as a simple one.
pub open spec fn fresh<'q>(
    source: ConnectionSource,
    sql: &'q str,
    arguments: Option<MySqlArguments>,
) -> CursorModel<'q> {
    CursorModel {
        source,
        query: Some((sql, arguments)),
        columns: Map::empty(),
        defining: Map::empty(),
        defined: 0,
        binary: true,
        phase: Phase::Start,
        failure: None,
    }
}

/// The cursor fails for good with `error`.
pub open spec fn fail<'q>(c: CursorModel<'q>, error: ErrorModel) -> Step<'q> {
    Step {
        cursor: CursorModel { phase: Phase::Failed, failure: Some(error), query: None, ..c },
        action: ActionModel::Fail(error),
    }
}

/// The failure of a cursor that is driven with an event it does not wait for.
pub open spec fn out_of_sequence() -> ErrorModel {
    ErrorModel::Protocol(ProtocolError::OutOfSequence)
}

/// The failure of a cursor that met the packet `p` at `stage`.
pub open spec fn unexpected(stage: Stage, p: PacketModel) -> ErrorModel {
    ErrorModel::Protocol(ProtocolError::UnexpectedMessage { stage, tag: p.tag() })
}

/// The cursor reads on, as it is.
pub open spec fn read_on<'q>(c: CursorModel<'q>) -> Step<'q> {
    Step { cursor: c, action: ActionModel::Read }
}

/// The cursor sends its query, which it holds no longer.
pub open spec fn send<'q>(c: CursorModel<'q>) -> Step<'q> {
    match c.query {
        Some((sql, arguments)) => Step {
            cursor: CursorModel {
                source: ConnectionSource::Connection,
                query: None,
                phase: Phase::Executing,
                ..c
            },
            action: ActionModel::Run(sql, arguments),
        },
        None => fail(c, out_of_sequence()),
    }
}

/// The transition function of the cursor: from its state and an event to the
/// next state and the action.
///
/// * A cursor that has ended answers every event with the end of the stream,
///   one that has failed with its failure.
/// * A failure that its owner reports makes the cursor fail with it.
/// * The first pull sends the query, after a checkout where the source is a
///   pool. A later pull reads on.
/// * Rows of a prepared query arrive in the binary format, those of a simple
///   query as text.
/// * The backend answers with the completion of a statement that gives no
///   rows, which ends the stream, or with the count of the columns that
///   follow. Each column definition leads its name, where it has one, to its
///   position. The end of the definitions, which must come when as many were
///   read as were announced, makes the map built so far the column map of the
///   rows.
/// * While rows are streamed, a row ends the pull with a row of the cursor's
///   column map and format, and the end of the rows ends the stream.
/// * Any other packet, and any event that the cursor does not wait for, makes
///   it fail.
pub open spec fn step<'q>(c: CursorModel<'q>, event: Event) -> Step<'q> {
    match c.phase {
        Phase::Done => Step { cursor: c, action: ActionModel::End },
        Phase::Failed => Step {
            cursor: c,
            action: ActionModel::Fail(
                match c.failure {
                    Some(e) => e,
                    None => out_of_sequence(),
                },
            ),
        },
        _ => match event {
            Event::Failed(e) => fail(c, e),
            Event::Next => match c.phase {
                Phase::Start | Phase::Connecting => if c.query is None {
                    fail(c, out_of_sequence())
                } else if c.source == ConnectionSource::Pool {
                    Step {
                        cursor: CursorModel { phase: Phase::Connecting, ..c },
                        action: ActionModel::Checkout,
                    }
                } else {
                    send(c)
                },
                Phase::Awaiting | Phase::Defining(_) | Phase::Streaming => read_on(c),
                _ => fail(c, out_of_sequence()),
            },
            Event::Connected => match c.phase {
                Phase::Connecting => send(c),
                _ => fail(c, out_of_sequence()),
            },
            Event::Executed { prepared } => match c.phase {
                Phase::Executing => read_on(
                    CursorModel { binary: prepared, phase: Phase::Awaiting, ..c },
                ),
                _ => fail(c, out_of_sequence()),
            },
            Event::Packet(p) => match c.phase {
                Phase::Awaiting => match p {
                    PacketModel::Complete => Step {
                        cursor: CursorModel { phase: Phase::Done, ..c },
                        action: ActionModel::End,
                    },
                    PacketModel::ColumnCount(n) => read_on(
                        CursorModel {
                            defining: Map::empty(),
                            defined: 0,
                            phase: Phase::Defining(n),
                            ..c
                        },
                    ),
                    _ => fail(c, unexpected(Stage::Describe, p)),
                },
                Phase::Defining(left) => match p {
                    PacketModel::ColumnDefinition(name) => if left > 0 && c.defined < usize::MAX {
                        read_on(
                            CursorModel {
                                defining: match name {
                                    Some(n) => c.defining.insert(n, c.defined),
                                    None => c.defining,
                                },
                                defined: (c.defined + 1) as usize,
                                phase: Phase::Defining((left - 1) as u64),
                                ..c
                            },
                        )
                    } else {
                        fail(c, unexpected(Stage::Describe, p))
                    },
                    PacketModel::Eof => if left == 0 {
                        read_on(
                            CursorModel {
                                columns: c.defining,
                                defining: Map::empty(),
                                defined: 0,
                                phase: Phase::Streaming,
                                ..c
                            },
                        )
                    } else {
                        fail(c, unexpected(Stage::Describe, p))
                    },
                    _ => fail(c, unexpected(Stage::Describe, p)),
                },
                Phase::Streaming => match p {
                    PacketModel::Row(values) => Step {
                        cursor: c,
                        action: ActionModel::Row(
                            RowModel { columns: c.columns, binary: c.binary, values },
                        ),
                    },
                    PacketModel::Eof => Step {
                        cursor: CursorModel { phase: Phase::Done, ..c },
                        action: ActionModel::End,
                    },
                    _ => fail(c, unexpected(Stage::Rows, p)),
                },
                _ => fail(c, out_of_sequence()),
            },
        },
    }
}

/// What becomes of the connection of a cursor that is given up in `phase`.
///
/// Before the query is sent and after the stream has ended no response is
/// outstanding. While columns are defined or rows are streamed, the rest of
/// the response is. While the query is with the executor, and after a
/// failure, nothing is known.
pub open spec fn release_of(phase: Phase) -> Release {
    match phase {
        Phase::Start | Phase::Connecting | Phase::Done => Release::Reuse,
        Phase::Awaiting | Phase::Defining(_) | Phase::Streaming => Release::Drain,
        Phase::Executing | Phase::Failed => Release::Close,
    }
}

impl<'q> MySqlCursor<'q> {
    /// A cursor for `query` whose connection will be checked out of a pool.
    /// Nothing is sent before the first pull.
    pub fn from_pool(query: &'q str, arguments: Option<MySqlArguments>) -> (r: Self)
        ensures
            r@ == fresh(ConnectionSource::Pool, query, arguments),
    {
        MySqlCursor {
            source: ConnectionSource::Pool,
            columns: Arc::new(ColumnMap::new()),
            defining: ColumnMap::new(),
            defined: 0,
            binary: true,
            query: Some((query, arguments)),
            phase: Phase::Start,
            failure: None,
        }
    }

    /// A cursor for `query` on a connection that the caller holds. Nothing is
    /// sent before the first pull.
    pub fn from_connection(query: &'q str, arguments: Option<MySqlArguments>) -> (r: Self)
        ensures
            r@ == fresh(ConnectionSource::Connection, query, arguments),
    {
        MySqlCursor {
            source: ConnectionSource::Connection,
            columns: Arc::new(ColumnMap::new()),
            defining: ColumnMap::new(),
            defined: 0,
            binary: true,
            query: Some((query, arguments)),
            phase: Phase::Start,
            failure: None,
        }
    }

    /// Where the cursor stands.
    pub fn phase(&self) -> (r: Phase)
        ensures
            r == self@.phase,
    {
        self.phase
    }

    /// The answer of a cursor that has ended or failed, `None` while it is
    /// under way.
    fn terminal<'c>(&self) -> (r: Option<Action<'c, 'q>>)
        ensures
            match self@.phase {
                Phase::Done => r matches Some(a) && a@ == ActionModel::<'q>::End,
                Phase::Failed => r matches Some(a) && a@ == ActionModel::<'q>::Fail(
                    match self@.failure {
                        Some(e) => e,
                        None => out_of_sequence(),
                    },
                ),
                _ => r is None,
            },
    {
        match self.phase {
            Phase::Done => Some(Action::End),
            Phase::Failed => match &self.failure {
                Some(e) => Some(Action::Fail(e.duplicate())),
                None => Some(Action::Fail(Error::Protocol(ProtocolError::OutOfSequence))),
            },
            _ => None,
        }
    }

    /// Makes the cursor fail for good.
    fn fail_with<'c>(&mut self, error: Error) -> (r: Action<'c, 'q>)
        ensures
            final(self)@ == fail(old(self)@, error@).cursor,
            r@ == ActionModel::<'q>::Fail(error@),
    {
        let reported = error.duplicate();
        self.phase = Phase::Failed;
        self.failure = Some(error);
        self.query = None;
        Action::Fail(reported)
    }

    /// Sends the query.
    fn send<'c>(&mut self) -> (r: Action<'c, 'q>)
        ensures
            final(self)@ == send(old(self)@).cursor,
            r@ == send(old(self)@).action,
    {
        match self.query.take() {
            Some((sql, arguments)) => {
                self.source = ConnectionSource::Connection;
                self.phase = Phase::Executing;
                Action::Run(sql, arguments)
            },
            None => self.fail_with(Error::Protocol(ProtocolError::OutOfSequence)),
        }
    }

    /// Opens a pull: the caller asks for the next row.
    pub fn next<'c>(&mut self) -> (r: Action<'c, 'q>)
        ensures
            step(old(self)@, Event::Next) == (Step { cursor: final(self)@, action: r@ }),
    {
        if let Some(answer) = self.terminal() {
            return answer;
        }
        match self.phase {
            Phase::Start | Phase::Connecting => {
                if self.query.is_none() {
                    self.fail_with(Error::Protocol(ProtocolError::OutOfSequence))
                } else if !self.source.resolves_immediately() {
                    self.phase = Phase::Connecting;
                    Action::Checkout
                } else {
                    self.send()
                }
            },
            Phase::Awaiting | Phase::Defining(_) | Phase::Streaming => Action::Read,
            _ => self.fail_with(Error::Protocol(ProtocolError::OutOfSequence)),
        }
    }

    /// Reports that a connection was checked out.
    pub fn connected<'c>(&mut self) -> (r: Action<'c, 'q>)
        ensures
            step(old(self)@, Event::Connected) == (Step { cursor: final(self)@, action: r@ }),
    {
        if let Some(answer) = self.terminal() {
            return answer;
        }
        match self.phase {
            Phase::Connecting => self.send(),
            _ => self.fail_with(Error::Protocol(ProtocolError::OutOfSequence)),
        }
    }

    /// Reports that the action could not be performed.
    pub fn failed<'c>(&mut self, error: Error) -> (r: Action<'c, 'q>)
        ensures
            step(old(self)@, Event::Failed(error@)) == (Step { cursor: final(self)@, action: r@ }),
    {
        if let Some(answer) = self.terminal() {
            return answer;
        }
        self.fail_with(error)
    }

    /// Reports that the executor sent the query: as a prepared statement,
    /// whose rows arrive in the binary format, or as a simple query, whose rows
    /// arrive as text.
    pub fn executed<'c>(&mut self, prepared: bool) -> (r: Action<'c, 'q>)
        ensures
            step(old(self)@, Event::Executed { prepared }) == (Step {
                cursor: final(self)@,
                action: r@,
            }),
    {
        if let Some(answer) = self.terminal() {
            return answer;
        }
        match self.phase {
            Phase::Executing => {
                self.binary = prepared;
                self.phase = Phase::Awaiting;
                Action::Read
            },
            _ => self.fail_with(Error::Protocol(ProtocolError::OutOfSequence)),
        }
    }

    /// Reports a packet.
    pub fn receive<'c>(&mut self, packet: Packet<'c>) -> (r: Action<'c, 'q>)
        ensures
            step(old(self)@, Event::Packet(packet@)) == (Step { cursor: final(self)@, action: r@ }),
    {
        if let Some(answer) = self.terminal() {
            return answer;
        }
        let tag = packet.tag();
        match self.phase {
            Phase::Awaiting => match packet {
                Packet::Complete => {
                    self.phase = Phase::Done;
                    Action::End
                },
                Packet::ColumnCount(n) => {
                    self.defining = ColumnMap::new();
                    self.defined = 0;
                    self.phase = Phase::Defining(n);
                    Action::Read
                },
                _ => self.fail_with(
                    Error::Protocol(ProtocolError::UnexpectedMessage { stage: Stage::Describe, tag }),
                ),
            },
            Phase::Defining(left) => match packet {
                Packet::ColumnDefinition(definition) => {
                    if left > 0 && self.defined < usize::MAX {
                        if let Some(name) = definition.name {
                            self.defining.insert(name, self.defined);
                        }
                        self.defined = self.defined + 1;
                        self.phase = Phase::Defining(left - 1);
                        Action::Read
                    } else {
                        self.fail_with(
                            Error::Protocol(
                                ProtocolError::UnexpectedMessage { stage: Stage::Describe, tag },
                            ),
                        )
                    }
                },
                Packet::Eof => {
                    if left == 0 {
                        let mut columns = ColumnMap::new();
                        core::mem::swap(&mut columns, &mut self.defining);
                        self.columns = Arc::new(columns);
                        self.defined = 0;
                        self.phase = Phase::Streaming;
                        Action::Read
                    } else {
                        self.fail_with(
                            Error::Protocol(
                                ProtocolError::UnexpectedMessage { stage: Stage::Describe, tag },
                            ),
                        )
                    }
                },
                _ => self.fail_with(
                    Error::Protocol(ProtocolError::UnexpectedMessage { stage: Stage::Describe, tag }),
                ),
            },
            Phase::Streaming => match packet {
                Packet::Row(values) => Action::Row(
                    MySqlRow::new(values, self.columns.clone(), self.binary),
                ),
                Packet::Eof => {
                    self.phase = Phase::Done;
                    Action::End
                },
                _ => self.fail_with(
                    Error::Protocol(ProtocolError::UnexpectedMessage { stage: Stage::Rows, tag }),
                ),
            },
            _ => self.fail_with(Error::Protocol(ProtocolError::OutOfSequence)),
        }
    }

    /// What to do with the connection if the cursor is given up now.
    pub fn release(&self) -> (r: Release)
        ensures
            r == release_of(self@.phase),
    {
        match self.phase {
            Phase::Start | Phase::Connecting | Phase::Done => Release::Reuse,
            Phase::Awaiting | Phase::Defining(_) | Phase::Streaming => Release::Drain,
            Phase::Executing | Phase::Failed => Release::Close,
        }
    }
}

} // verus!
