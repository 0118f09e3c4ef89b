//! The cursor of the Postgres backend: a state machine from the events of one
//! query's exchange to the actions that the connection's owner performs.
//!
//! The cursor decides; it does no input or output. Its owner performs each
//! action and reports what came of it: `next` opens a pull for one row,
//! `connected`, `executed`, `receive` and `failed` report on the action before.
//! A pull ends with a row, with the end of the stream or with a failure.

use crate::connection::{ConnectionSource, Release};
use crate::error::{Error, ErrorModel, ProtocolError, Stage};
use crate::postgres::protocol::{
    FieldModel,
    Message,
    MessageModel,
    RowDescription,
    StatementId,
    TypeFormat,
};
use crate::postgres::row::{PgRow, RowModel};
use crate::postgres::TypeId;
use crate::row::ColumnMap;
use std::collections::HashMap;
use std::sync::Arc;
use vstd::prelude::*;

verus! {

/// The arguments of a query, encoded for the wire: the type of each and their
/// values one after the other.
#[derive(Debug)]
pub struct PgArguments {
    pub types: Vec<TypeId>,
    pub values: Vec<u8>,
}

/// The column map that the first `n` of the described fields build: each named
/// field's name leads to its position, unnamed fields are passed over.
pub open spec fn described_columns(fields: Seq<FieldModel>, n: nat) -> Map<Seq<char>, usize>
    decreases n,
{
    if n == 0 {
        Map::empty()
    } else {
        let before = described_columns(fields, (n - 1) as nat);
        match fields[n - 1].name {
            Some(name) => before.insert(name, (n - 1) as usize),
            None => before,
        }
    }
}

/// The wire formats of the described fields, in order.
pub open spec fn described_formats(fields: Seq<FieldModel>) -> Seq<TypeFormat> {
    Seq::new(fields.len(), |i: int| fields[i].type_format)
}

/// The shape of a result: where its named columns stand and the wire format
/// of each column.
pub struct Shape {
    pub columns: Map<Seq<char>, usize>,
    pub formats: Seq<TypeFormat>,
}

/// The shape that a description gives; the empty shape where the backend
/// announced no data.
pub open spec fn described(description: Option<Seq<FieldModel>>) -> Shape {
    match description {
        Some(fields) => Shape {
            columns: described_columns(fields, fields.len()),
            formats: described_formats(fields),
        },
        None => Shape { columns: Map::empty(), formats: Seq::empty() },
    }
}

/// Builds the shape of a result from its description: the column map from the
/// names of the named fields, the format list from every field.
///
/// Which message brings the description, and what any other message does to
/// a cursor that waits for it, is decided in `PgCursor::receive`.
pub fn describe(description: Option<&RowDescription>) -> (r: (ColumnMap, Vec<TypeFormat>))
    ensures
        r.0@ == described(
            match description {
                Some(d) => Some(d@),
                None => None,
            },
        ).columns,
        r.1@ == described(
            match description {
                Some(d) => Some(d@),
                None => None,
            },
        ).formats,
{
    let mut columns = ColumnMap::new();
    let mut formats: Vec<TypeFormat> = Vec::new();
    if let Some(description) = description {
        let n: usize = description.fields.len();
        let mut index: usize = 0;
        while index < n
            invariant
                index <= n,
                n == description.fields@.len(),
                columns@ == described_columns(description@, index as nat),
                formats@ == described_formats(description@).subrange(0, index as int),
            decreases n - index,
        {
            let field = &description.fields[index];
            if let Some(name) = &field.name {
                columns.insert(name.clone(), index);
            }
            formats.push(field.type_format);
            index = index + 1;
            assert(formats@ =~= described_formats(description@).subrange(0, index as int));
        }
        assert(formats@ =~= described_formats(description@));
    }
    (columns, formats)
}

/// The shape of a prepared statement, as a connection remembers it.
#[derive(Debug)]
pub struct CachedStatement {
    pub columns: Arc<ColumnMap>,
    pub formats: Arc<Vec<TypeFormat>>,
}

/// What one connection remembers of the statements it has prepared: for each
/// statement identifier the shape of its result. It belongs to that connection
/// alone.
pub struct StatementCache {
    statements: HashMap<u32, CachedStatement>,
}

impl View for StatementCache {
    type V = Map<u32, Shape>;

    closed spec fn view(&self) -> Map<u32, Shape> {
        Map::new(
            |id: u32| self.statements@.contains_key(id),
            |id: u32|
                Shape {
                    columns: self.statements@[id].columns@,
                    formats: self.statements@[id].formats@,
                },
        )
    }
}

impl StatementCache {
    /// The cache of a new connection.
    pub fn new() -> (r: Self)
        ensures
            r@ == Map::<u32, Shape>::empty(),
    {
        let r = StatementCache { statements: HashMap::new() };
        assert(r@ =~= Map::<u32, Shape>::empty());
        r
    }

    /// The remembered shape of `statement`, shared with the cache.
    pub fn get(&self, statement: StatementId) -> (r: Option<(Arc<ColumnMap>, Arc<Vec<TypeFormat>>)>)
        ensures
            match r {
                Some((columns, formats)) => self@.contains_key(statement.0) && self@[statement.0]
                    == (Shape { columns: columns@, formats: formats@ }),
                None => !self@.contains_key(statement.0),
            },
    {
        match self.statements.get(&statement.0) {
            Some(entry) => Some((entry.columns.clone(), entry.formats.clone())),
            None => None,
        }
    }

    /// Remembers the shape of `statement`, unless one is remembered already:
    /// an entry is written once.
    pub fn insert(
        &mut self,
        statement: StatementId,
        columns: Arc<ColumnMap>,
        formats: Arc<Vec<TypeFormat>>,
    )
        ensures
            final(self)@ == remember(
                old(self)@,
                Some(statement),
                Shape { columns: columns@, formats: formats@ },
            ),
    {
        if !self.statements.contains_key(&statement.0) {
            self.statements.insert(statement.0, CachedStatement { columns, formats });
        }
        assert(self@ =~= remember(
            old(self)@,
            Some(statement),
            Shape { columns: columns@, formats: formats@ },
        ));
    }
}

/// The cache after the shape of `statement` was learnt: a prepared statement
/// not yet known is added, nothing else changes.
pub open spec fn remember(cache: Map<u32, Shape>, statement: Option<StatementId>, shape: Shape) -> Map<
    u32,
    Shape,
> {
    match statement {
        Some(id) => if cache.contains_key(id.0) {
            cache
        } else {
            cache.insert(id.0, shape)
        },
        None => cache,
    }
}

/// Where a cursor stands in the exchange of its query.
#[derive(Debug, Clone, Copy, PartialEq, Eq, Structural)]
pub enum Phase {
    /// The query has not been sent.
    Start,
    /// A connection is being checked out of the pool.
    Connecting,
    /// The query is with the executor.
    Executing,
    /// The result's shape is being described; the statement identifier is that
    /// of a prepared query.
    Describing(Option<StatementId>),
    /// Rows are being streamed.
    Streaming,
    /// The stream has ended.
    Done,
    /// The cursor failed for good.
    Failed,
}

/// A lazy, single-pass stream of the rows of one query.
pub struct PgCursor<'q> {
    source: ConnectionSource,
    query: Option<(&'q str, Option<PgArguments>)>,
    columns: Arc<ColumnMap>,
    formats: Arc<Vec<TypeFormat>>,
    phase: Phase,
    failure: Option<Error>,
}

/// The model of a cursor.
pub struct CursorModel<'q> {
    pub source: ConnectionSource,
    pub query: Option<(&'q str, Option<PgArguments>)>,
    pub shape: Shape,
    pub phase: Phase,
    pub failure: Option<ErrorModel>,
}

impl<'q> View for PgCursor<'q> {
    type V = CursorModel<'q>;

    closed spec fn view(&self) -> CursorModel<'q> {
        CursorModel {
            source: self.source,
            query: self.query,
            shape: Shape { columns: self.columns@, formats: self.formats@ },
            phase: self.phase,
            failure: match self.failure {
                Some(e) => Some(e@),
                None => None,
            },
        }
    }
}

/// What happened since the cursor's last action.
pub enum Event {
    /// The caller asks for the next row.
    Next,
    /// A connection was checked out.
    Connected,
    /// The executor sent the query; a prepared query has a statement
    /// identifier.
    Executed(Option<StatementId>),
    /// A message arrived.
    Message(MessageModel),
    /// The action could not be performed.
    Failed(ErrorModel),
}

/// What the cursor's owner is to do next.
#[derive(Debug)]
pub enum Action<'c, 'q> {
    /// Check a connection out of the pool, then report `connected`.
    Checkout,
    /// Hand the query to the executor, then report `executed`.
    Run(&'q str, Option<PgArguments>),
    /// Read the next message, then report it with `receive`.
    Read,
    /// The pull ends with this row.
    Row(PgRow<'c>),
    /// The pull ends: the stream is exhausted.
    End,
    /// The pull ends with this failure.
    Fail(Error),
}

/// The model of an `Action`.
pub enum ActionModel<'q> {
    Checkout,
    Run(&'q str, Option<PgArguments>),
    Read,
    Row(RowModel),
    End,
    Fail(ErrorModel),
}

impl<'c, 'q> View for Action<'c, 'q> {
    type V = ActionModel<'q>;

    open spec fn view(&self) -> ActionModel<'q> {
        match self {
            Action::Checkout => ActionModel::Checkout,
            Action::Run(sql, arguments) => ActionModel::Run(*sql, *arguments),
            Action::Read => ActionModel::Read,
            Action::Row(row) => ActionModel::Row(row@),
            Action::End => ActionModel::End,
            Action::Fail(e) => ActionModel::Fail(e@),
        }
    }
}

/// A cursor, the statement cache of its connection, and the action decided.
pub struct Step<'q> {
    pub cursor: CursorModel<'q>,
    pub cache: Map<u32, Shape>,
    pub action: ActionModel<'q>,
}

/// The cursor fails for good with `error`.
pub open spec fn fail<'q>(c: CursorModel<'q>, cache: Map<u32, Shape>, error: ErrorModel) -> Step<'q> {
    Step {
        cursor: CursorModel { phase: Phase::Failed, failure: Some(error), query: None, ..c },
        cache,
        action: ActionModel::Fail(error),
    }
}

/// The failure of a cursor that is driven with an event it does not wait for.
pub open spec fn out_of_sequence() -> ErrorModel {
    ErrorModel::Protocol(ProtocolError::OutOfSequence)
}

/// The failure of a cursor that met the message `m` at `stage`.
pub open spec fn unexpected(stage: Stage, m: MessageModel) -> ErrorModel {
    ErrorModel::Protocol(ProtocolError::UnexpectedMessage { stage, tag: m.tag() })
}

/// The cursor sends its query, which it holds no longer.
pub open spec fn send<'q>(c: CursorModel<'q>, cache: Map<u32, Shape>) -> Step<'q> {
    match c.query {
        Some((sql, arguments)) => Step {
            cursor: CursorModel {
                source: ConnectionSource::Connection,
                query: None,
                phase: Phase::Executing,
                ..c
            },
            cache,
            action: ActionModel::Run(sql, arguments),
        },
        None => fail(c, cache, out_of_sequence()),
    }
}

/// The cursor has learnt the shape of its result and turns to the rows.
pub open spec fn settle<'q>(
    c: CursorModel<'q>,
    cache: Map<u32, Shape>,
    statement: Option<StatementId>,
    shape: Shape,
) -> Step<'q> {
    Step {
        cursor: CursorModel { shape, phase: Phase::Streaming, ..c },
        cache: remember(cache, statement, shape),
        action: ActionModel::Read,
    }
}

/// The transition function of the cursor: from its state, the statement cache
/// of its connection and an event to the next state, the cache and the action.
///
/// * A cursor that has ended answers every event with the end of the stream,
///   one that has failed with its failure.
/// * A failure that its owner reports makes the cursor fail with it.
/// * The first pull sends the query, after a checkout where the source is a
///   pool. A later pull reads on.
/// * A prepared query whose statement the cache knows takes its shape from the
///   cache. Any other query is described: acknowledgements are passed over, a
///   row description or the announcement of no data gives the shape, and the
///   shape of a prepared statement is remembered.
/// * While rows are streamed, acknowledgements are passed over, a data row
///   ends the pull with a row of the cursor's shape, and the completion of the
///   command ends the stream.
/// * Any other message, and any event that the cursor does not wait for, makes
///   it fail.
pub open spec fn step<'q>(c: CursorModel<'q>, cache: Map<u32, Shape>, event: Event) -> Step<'q> {
    match c.phase {
        Phase::Done => Step { cursor: c, cache, action: ActionModel::End },
        Phase::Failed => Step {
            cursor: c,
            cache,
            action: ActionModel::Fail(
                match c.failure {
                    Some(e) => e,
                    None => out_of_sequence(),
                },
            ),
        },
        _ => match event {
            Event::Failed(e) => fail(c, cache, e),
            Event::Next => match c.phase {
                Phase::Start | Phase::Connecting => if c.query is None {
                    fail(c, cache, out_of_sequence())
                } else if c.source == ConnectionSource::Pool {
                    Step {
                        cursor: CursorModel { phase: Phase::Connecting, ..c },
                        cache,
                        action: ActionModel::Checkout,
                    }
                } else {
                    send(c, cache)
                },
                Phase::Describing(_) | Phase::Streaming => Step {
                    cursor: c,
                    cache,
                    action: ActionModel::Read,
                },
                _ => fail(c, cache, out_of_sequence()),
            },
            Event::Connected => match c.phase {
                Phase::Connecting => send(c, cache),
                _ => fail(c, cache, out_of_sequence()),
            },
            Event::Executed(statement) => match c.phase {
                Phase::Executing => match statement {
                    Some(id) => if cache.contains_key(id.0) {
                        settle(c, cache, statement, cache[id.0])
                    } else {
                        Step {
                            cursor: CursorModel { phase: Phase::Describing(statement), ..c },
                            cache,
                            action: ActionModel::Read,
                        }
                    },
                    None => Step {
                        cursor: CursorModel { phase: Phase::Describing(None), ..c },
                        cache,
                        action: ActionModel::Read,
                    },
                },
                _ => fail(c, cache, out_of_sequence()),
            },
            Event::Message(m) => match c.phase {
                Phase::Describing(statement) => match m {
                    MessageModel::ParseComplete | MessageModel::BindComplete => Step {
                        cursor: c,
                        cache,
                        action: ActionModel::Read,
                    },
                    MessageModel::RowDescription(fields) => settle(
                        c,
                        cache,
                        statement,
                        described(Some(fields)),
                    ),
                    MessageModel::NoData => settle(c, cache, statement, described(None)),
                    _ => fail(c, cache, unexpected(Stage::Describe, m)),
                },
                Phase::Streaming => match m {
                    MessageModel::ParseComplete | MessageModel::BindComplete => Step {
                        cursor: c,
                        cache,
                        action: ActionModel::Read,
                    },
                    MessageModel::CommandComplete => Step {
                        cursor: CursorModel { phase: Phase::Done, ..c },
                        cache,
                        action: ActionModel::End,
                    },
                    MessageModel::DataRow(values) => Step {
                        cursor: c,
                        cache,
                        action: ActionModel::Row(
                            RowModel {
                                columns: c.shape.columns,
                                formats: c.shape.formats,
                                values,
                            },
                        ),
                    },
                    _ => fail(c, cache, unexpected(Stage::Rows, m)),
                },
                _ => fail(c, cache, out_of_sequence()),
            },
        },
    }
}

/// A cursor that has not sent its query.
pub open spec fn fresh<'q>(
    source: ConnectionSource,
    sql: &'q str,
    arguments: Option<PgArguments>,
) -> CursorModel<'q> {
    CursorModel {
        source,
        query: Some((sql, arguments)),
        shape: described(None),
        phase: Phase::Start,
        failure: None,
    }
}

/// What becomes of the connection of a cursor that is given up in `phase`.
///
/// Before the query is sent and after the stream has ended no response is
/// outstanding. While the shape is described or rows are streamed, the rest of
/// the response is. While the query is with the executor, and after a
/// failure, nothing is known.
pub open spec fn release_of(phase: Phase) -> Release {
    match phase {
        Phase::Start | Phase::Connecting | Phase::Done => Release::Reuse,
        Phase::Describing(_) | Phase::Streaming => Release::Drain,
        Phase::Executing | Phase::Failed => Release::Close,
    }
}

impl<'q> PgCursor<'q> {
    /// A cursor for `query` whose connection will be checked out of a pool.
    /// Nothing is sent before the first pull.
    pub fn from_pool(query: &'q str, arguments: Option<PgArguments>) -> (r: Self)
        ensures
            r@ == fresh(ConnectionSource::Pool, query, arguments),
    {
        PgCursor {
            source: ConnectionSource::Pool,
            columns: Arc::new(ColumnMap::new()),
            formats: Arc::new(Vec::new()),
            query: Some((query, arguments)),
            phase: Phase::Start,
            failure: None,
        }
    }

    /// A cursor for `query` on a connection that the caller holds. Nothing is
    /// sent before the first pull.
    pub fn from_connection(query: &'q str, arguments: Option<PgArguments>) -> (r: Self)
        ensures
            r@ == fresh(ConnectionSource::Connection, query, arguments),
    {
        PgCursor {
            source: ConnectionSource::Connection,
            columns: Arc::new(ColumnMap::new()),
            formats: Arc::new(Vec::new()),
            query: Some((query, arguments)),
            phase: Phase::Start,
            failure: None,
        }
    }

    /// Where the cursor stands.
    pub fn phase(&self) -> (r: Phase)
        ensures
            r == self@.phase,
    {
        self.phase
    }

    /// The answer of a cursor that has ended or failed, `None` while it is
    /// under way.
    fn terminal<'c>(&self) -> (r: Option<Action<'c, 'q>>)
        ensures
            match self@.phase {
                Phase::Done => r matches Some(a) && a@ == ActionModel::<'q>::End,
                Phase::Failed => r matches Some(a) && a@ == ActionModel::<'q>::Fail(
                    match self@.failure {
                        Some(e) => e,
                        None => out_of_sequence(),
                    },
                ),
                _ => r is None,
            },
    {
        match self.phase {
            Phase::Done => Some(Action::End),
            Phase::Failed => match &self.failure {
                Some(e) => Some(Action::Fail(e.duplicate())),
                None => Some(Action::Fail(Error::Protocol(ProtocolError::OutOfSequence))),
            },
            _ => None,
        }
    }

    /// Makes the cursor fail for good.
    fn fail_with<'c>(&mut self, error: Error) -> (r: Action<'c, 'q>)
        ensures
            final(self)@ == fail(old(self)@, Map::empty(), error@).cursor,
            r@ == ActionModel::<'q>::Fail(error@),
    {
        let reported = error.duplicate();
        self.phase = Phase::Failed;
        self.failure = Some(error);
        self.query = None;
        Action::Fail(reported)
    }

    /// Sends the query.
    fn send<'c>(&mut self) -> (r: Action<'c, 'q>)
        ensures
            final(self)@ == send(old(self)@, Map::empty()).cursor,
            r@ == send(old(self)@, Map::empty()).action,
    {
        match self.query.take() {
            Some((sql, arguments)) => {
                self.source = ConnectionSource::Connection;
                self.phase = Phase::Executing;
                Action::Run(sql, arguments)
            },
            None => self.fail_with(Error::Protocol(ProtocolError::OutOfSequence)),
        }
    }

    /// Opens a pull: the caller asks for the next row.
    pub fn next<'c>(&mut self) -> (r: Action<'c, 'q>)
        ensures
            step(old(self)@, Map::empty(), Event::Next).cursor == final(self)@,
            step(old(self)@, Map::empty(), Event::Next).action == r@,
            forall|cache: Map<u32, Shape>| #[trigger]
                step(old(self)@, cache, Event::Next) == (Step {
                    cursor: final(self)@,
                    cache,
                    action: r@,
                }),
    {
        if let Some(answer) = self.terminal() {
            return answer;
        }
        match self.phase {
            Phase::Start | Phase::Connecting => {
                if self.query.is_none() {
                    self.fail_with(Error::Protocol(ProtocolError::OutOfSequence))
                } else if !self.source.resolves_immediately() {
                    self.phase = Phase::Connecting;
                    Action::Checkout
                } else {
                    self.send()
                }
            },
            Phase::Describing(_) | Phase::Streaming => Action::Read,
            _ => self.fail_with(Error::Protocol(ProtocolError::OutOfSequence)),
        }
    }

    /// Reports that a connection was checked out.
    pub fn connected<'c>(&mut self) -> (r: Action<'c, 'q>)
        ensures
            step(old(self)@, Map::empty(), Event::Connected).cursor == final(self)@,
            step(old(self)@, Map::empty(), Event::Connected).action == r@,
            forall|cache: Map<u32, Shape>| #[trigger]
                step(old(self)@, cache, Event::Connected) == (Step {
                    cursor: final(self)@,
                    cache,
                    action: r@,
                }),
    {
        if let Some(answer) = self.terminal() {
            return answer;
        }
        match self.phase {
            Phase::Connecting => self.send(),
            _ => self.fail_with(Error::Protocol(ProtocolError::OutOfSequence)),
        }
    }

    /// Reports that the action could not be performed.
    pub fn failed<'c>(&mut self, error: Error) -> (r: Action<'c, 'q>)
        ensures
            step(old(self)@, Map::empty(), Event::Failed(error@)).cursor == final(self)@,
            step(old(self)@, Map::empty(), Event::Failed(error@)).action == r@,
            forall|cache: Map<u32, Shape>| #[trigger]
                step(old(self)@, cache, Event::Failed(error@)) == (Step {
                    cursor: final(self)@,
                    cache,
                    action: r@,
                }),
    {
        if let Some(answer) = self.terminal() {
            return answer;
        }
        self.fail_with(error)
    }

    /// Reports that the executor sent the query. A prepared query takes the
    /// shape that `cache` remembers of its statement; any other is described.
    pub fn executed<'c>(&mut self, cache: &StatementCache, statement: Option<StatementId>) -> (r:
        Action<'c, 'q>)
        ensures
            step(old(self)@, cache@, Event::Executed(statement)) == (Step {
                cursor: final(self)@,
                cache: cache@,
                action: r@,
            }),
    {
        if let Some(answer) = self.terminal() {
            return answer;
        }
        match self.phase {
            Phase::Executing => {
                if let Some(id) = statement {
                    if let Some((columns, formats)) = cache.get(id) {
                        self.columns = columns;
                        self.formats = formats;
                        self.phase = Phase::Streaming;
                        assert(remember(cache@, statement, cache@[id.0]) == cache@);
                        return Action::Read;
                    }
                }
                self.phase = Phase::Describing(statement);
                Action::Read
            },
            _ => self.fail_with(Error::Protocol(ProtocolError::OutOfSequence)),
        }
    }

    /// Reports a message. The shape of a prepared statement that the message
    /// describes is remembered in `cache`.
    pub fn receive<'c>(&mut self, cache: &mut StatementCache, message: Message<'c>) -> (r: Action<
        'c,
        'q,
    >)
        ensures
            step(old(self)@, old(cache)@, Event::Message(message@)) == (Step {
                cursor: final(self)@,
                cache: final(cache)@,
                action: r@,
            }),
    {
        if let Some(answer) = self.terminal() {
            return answer;
        }
        let tag = message.tag();
        match self.phase {
            Phase::Describing(statement) => {
                let (columns, formats) = match message {
                    Message::ParseComplete | Message::BindComplete => {
                        return Action::Read;
                    },
                    Message::RowDescription(description) => describe(Some(&description)),
                    Message::NoData => describe(None),
                    _ => {
                        return self.fail_with(
                            Error::Protocol(
                                ProtocolError::UnexpectedMessage { stage: Stage::Describe, tag },
                            ),
                        );
                    },
                };
                let columns = Arc::new(columns);
                let formats = Arc::new(formats);
                if let Some(id) = statement {
                    cache.insert(id, columns.clone(), formats.clone());
                }
                self.columns = columns;
                self.formats = formats;
                self.phase = Phase::Streaming;
                Action::Read
            },
            Phase::Streaming => match message {
                Message::ParseComplete | Message::BindComplete => Action::Read,
                Message::CommandComplete => {
                    self.phase = Phase::Done;
                    Action::End
                },
                Message::DataRow(data) => Action::Row(
                    PgRow::new(self.columns.clone(), self.formats.clone(), data),
                ),
                _ => self.fail_with(
                    Error::Protocol(ProtocolError::UnexpectedMessage { stage: Stage::Rows, tag }),
                ),
            },
            _ => self.fail_with(Error::Protocol(ProtocolError::OutOfSequence)),
        }
    }

    /// What to do with the connection if the cursor is given up now.
    pub fn release(&self) -> (r: Release)
        ensures
            r == release_of(self@.phase),
    {
        match self.phase {
            Phase::Start | Phase::Connecting | Phase::Done => Release::Reuse,
            Phase::Describing(_) | Phase::Streaming => Release::Drain,
            Phase::Executing | Phase::Failed => Release::Close,
        }
    }
}

} // verus!
