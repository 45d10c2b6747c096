//! The execution of one statement, step by step.
//!
//! An [`Execution`] never touches a database. It says what to do next as a
//! [`Request`]; whoever holds the connection does that and hands back what the
//! database said as a [`Reply`], until the result of the statement stands. All
//! requests of one execution belong to one connection that nobody else uses
//! meanwhile.
//!
//! A statement that leaves work in the write-ahead log is followed by a
//! checkpoint, and its result is only given once the checkpoint has completed.
//! SQLite counts `COMMIT` and its like as read-only statements, so it is not
//! enough to look at whether the statement writes: a checkpoint is due when no
//! transaction is open after the statement, and the statement wrote or was run
//! inside a transaction.

use vstd::prelude::*;

use crate::db::{
    bind_params, is_schema_change, shape_row, CheckpointStats, ExecError, ExecOutcome, Row,
    RowsFormat, SqlValue,
};
use crate::failure::{error_is_interrupt, Failure};
use crate::json::Json;
use crate::settings::CheckpointMode;
use crate::text;

verus! {

// ---------------------------------------------------------------------------
// Requests and replies
// ---------------------------------------------------------------------------

/// What the execution asks of the connection.
#[derive(Debug)]
pub enum Request {
    /// Tell whether the connection is in autocommit mode.
    Autocommit,
    /// Prepare the statement.
    Prepare { sql: String },
    /// Run the prepared statement with these parameters.
    Query { params: Vec<SqlValue> },
    /// Fetch the next row and read a cell for every column.
    FetchRow,
    /// Tell how many rows the latest write changed, how many all have, and the
    /// rowid of the latest insertion.
    Counters,
    /// Run the checkpoint and read its result row.
    Checkpoint { sql: String },
}

/// What a [`Request`] stands for.
pub ghost enum RequestView {
    Autocommit,
    Prepare { sql: Seq<char> },
    Query { params: Seq<crate::db::SqlView> },
    FetchRow,
    Counters,
    Checkpoint { sql: Seq<char> },
}

impl View for Request {
    type V = RequestView;

    open spec fn view(&self) -> RequestView {
        match self {
            Request::Autocommit => RequestView::Autocommit,
            Request::Prepare { sql } => RequestView::Prepare { sql: sql@ },
            Request::Query { params } => RequestView::Query {
                params: crate::db::sql_values(params@),
            },
            Request::FetchRow => RequestView::FetchRow,
            Request::Counters => RequestView::Counters,
            Request::Checkpoint { sql } => RequestView::Checkpoint { sql: sql@ },
        }
    }
}

impl RequestView {
    /// Whether the time limit of the statement runs while this is done.
    pub open spec fn timed(self) -> bool {
        self is Prepare || self is Query || self is FetchRow || self is Counters
    }
}

impl Request {
    /// Whether the time limit of the statement runs while this is done.
    pub fn is_timed(&self) -> (timed: bool)
        ensures
            timed == self@.timed(),
    {
        match self {
            Request::Prepare { .. } => true,
            Request::Query { .. } => true,
            Request::FetchRow => true,
            Request::Counters => true,
            Request::Autocommit => false,
            Request::Checkpoint { .. } => false,
        }
    }
}

/// What is known of a statement once it is prepared.
#[derive(Debug)]
pub struct Prepared {
    /// The statement makes no direct change to the database file.
    pub readonly: bool,
    pub columns: Vec<String>,
    /// How many rows the connection has changed since it was opened, before the
    /// statement runs.
    pub total_changes: u64,
}

/// A row that was fetched.
#[derive(Debug)]
pub enum Fetched {
    /// Its cells, one for every column.
    Cells(Vec<SqlValue>),
    /// The first cell that could not be read.
    Unreadable { column: usize, failure: Failure },
}

/// What the database said.
#[derive(Debug)]
pub enum Reply {
    Autocommit(bool),
    Prepared(Result<Prepared, Failure>),
    Queried(Result<(), Failure>),
    /// `None` after the last row.
    Fetched(Result<Option<Fetched>, Failure>),
    /// `changes` is left behind by the latest statement that wrote rows, whichever
    /// that was; `total_changes` counts the rows of all of them.
    Counters { changes: u64, total_changes: u64, last_insert_rowid: i64 },
    Checkpointed(Result<CheckpointStats, Failure>),
}

/// What a [`Prepared`] stands for.
pub ghost struct PreparedView {
    pub readonly: bool,
    pub columns: Seq<Seq<char>>,
    pub total_changes: u64,
}

impl View for Prepared {
    type V = PreparedView;

    open spec fn view(&self) -> PreparedView {
        PreparedView {
            readonly: self.readonly,
            columns: text::texts(self.columns@),
            total_changes: self.total_changes,
        }
    }
}

/// What a [`Fetched`] stands for.
pub ghost enum FetchedView {
    Cells(Seq<crate::db::SqlView>),
    Unreadable { column: usize, failure: Seq<crate::failure::CauseView> },
}

impl View for Fetched {
    type V = FetchedView;

    open spec fn view(&self) -> FetchedView {
        match self {
            Fetched::Cells(cells) => FetchedView::Cells(crate::db::sql_values(cells@)),
            Fetched::Unreadable { column, failure } => FetchedView::Unreadable {
                column: *column,
                failure: failure@,
            },
        }
    }
}

/// What a [`Reply`] stands for.
pub ghost enum ReplyView {
    Autocommit(bool),
    Prepared(Result<PreparedView, Seq<crate::failure::CauseView>>),
    Queried(Result<(), Seq<crate::failure::CauseView>>),
    Fetched(Result<Option<FetchedView>, Seq<crate::failure::CauseView>>),
    Counters { changes: u64, total_changes: u64, last_insert_rowid: i64 },
    Checkpointed(Result<CheckpointStats, Seq<crate::failure::CauseView>>),
}

impl View for Reply {
    type V = ReplyView;

    open spec fn view(&self) -> ReplyView {
        match self {
            Reply::Autocommit(on) => ReplyView::Autocommit(*on),
            Reply::Prepared(Ok(prepared)) => ReplyView::Prepared(Ok(prepared@)),
            Reply::Prepared(Err(failure)) => ReplyView::Prepared(Err(failure@)),
            Reply::Queried(Ok(())) => ReplyView::Queried(Ok(())),
            Reply::Queried(Err(failure)) => ReplyView::Queried(Err(failure@)),
            Reply::Fetched(Ok(Some(row))) => ReplyView::Fetched(Ok(Some(row@))),
            Reply::Fetched(Ok(None)) => ReplyView::Fetched(Ok(None)),
            Reply::Fetched(Err(failure)) => ReplyView::Fetched(Err(failure@)),
            Reply::Counters {
                changes,
                total_changes,
                last_insert_rowid,
            } => ReplyView::Counters {
                changes: *changes,
                total_changes: *total_changes,
                last_insert_rowid: *last_insert_rowid,
            },
            Reply::Checkpointed(Ok(stats)) => ReplyView::Checkpointed(Ok(*stats)),
            Reply::Checkpointed(Err(failure)) => ReplyView::Checkpointed(Err(failure@)),
        }
    }
}

// ---------------------------------------------------------------------------
// States
// ---------------------------------------------------------------------------

/// What is fixed for the whole execution.
#[derive(Debug, Clone, Copy)]
pub struct ExecOptions {
    pub rows_format: RowsFormat,
    pub checkpoint_mode: CheckpointMode,
    pub max_rows: Option<usize>,
    pub query_timeout_ms: Option<u64>,
}

/// How far the execution has come.
#[derive(Debug)]
enum Phase {
    /// Waiting to learn whether a transaction was open before.
    Begin { sql: String, params: Vec<Json> },
    /// Waiting for the prepared statement.
    Prepare { bound: Vec<SqlValue> },
    /// Waiting for the statement to start.
    Query { prepared: Prepared },
    /// Waiting for a row.
    Fetch { prepared: Prepared, rows: Vec<Row> },
    /// Waiting for the counters.
    Count { prepared: Prepared, rows: Vec<Row> },
    /// Waiting to learn whether a transaction is open after the statement.
    Settle { outcome: ExecOutcome },
    /// Waiting for the checkpoint.
    Flush { argument: &'static str, outcome: ExecOutcome },
}

/// What a phase stands for.
pub ghost enum PhaseView {
    Begin { sql: Seq<char>, params: Seq<crate::json::JsonValue> },
    Prepare { bound: Seq<crate::db::SqlView> },
    Query { prepared: PreparedView },
    Fetch { prepared: PreparedView, rows: Seq<crate::db::RowView> },
    Count { prepared: PreparedView, rows: Seq<crate::db::RowView> },
    Settle { outcome: crate::db::OutcomeView },
    Flush { argument: Seq<char>, outcome: crate::db::OutcomeView },
}

impl View for Phase {
    type V = PhaseView;

    closed spec fn view(&self) -> PhaseView {
        match self {
            Phase::Begin { sql, params } => PhaseView::Begin {
                sql: sql@,
                params: crate::json::json_values(params@),
            },
            Phase::Prepare { bound } => PhaseView::Prepare {
                bound: crate::db::sql_values(bound@),
            },
            Phase::Query { prepared } => PhaseView::Query { prepared: prepared@ },
            Phase::Fetch { prepared, rows } => PhaseView::Fetch {
                prepared: prepared@,
                rows: crate::db::row_values(rows@),
            },
            Phase::Count { prepared, rows } => PhaseView::Count {
                prepared: prepared@,
                rows: crate::db::row_values(rows@),
            },
            Phase::Settle { outcome } => PhaseView::Settle { outcome: outcome@ },
            Phase::Flush { argument, outcome } => PhaseView::Flush {
                argument: argument@,
                outcome: outcome@,
            },
        }
    }
}

/// The execution of one statement.
#[derive(Debug)]
pub struct Execution {
    options: ExecOptions,
    was_in_transaction: bool,
    changes_schema: bool,
    phase: Phase,
}

/// What an [`Execution`] stands for.
pub ghost struct ExecState {
    pub options: ExecOptions,
    /// A transaction was open before the statement.
    pub was_in_transaction: bool,
    /// The statement changes the schema.
    pub changes_schema: bool,
    pub phase: PhaseView,
}

impl View for Execution {
    type V = ExecState;

    closed spec fn view(&self) -> ExecState {
        ExecState {
            options: self.options,
            was_in_transaction: self.was_in_transaction,
            changes_schema: self.changes_schema,
            phase: self.phase@,
        }
    }
}

/// What comes next.
#[derive(Debug)]
pub enum Step {
    /// The request is to be done, and the execution goes on with its reply.
    Ask { execution: Execution, request: Request },
    /// The statement is over.
    Done { result: Result<ExecOutcome, ExecError> },
}

/// What a [`Step`] stands for.
pub ghost enum StepView {
    Ask { state: ExecState, request: RequestView },
    Done { result: Result<crate::db::OutcomeView, crate::db::ExecErrorView> },
}

impl View for Step {
    type V = StepView;

    open spec fn view(&self) -> StepView {
        match self {
            Step::Ask { execution, request } => StepView::Ask {
                state: execution@,
                request: request@,
            },
            Step::Done { result: Ok(outcome) } => StepView::Done { result: Ok(outcome@) },
            Step::Done { result: Err(error) } => StepView::Done { result: Err(error@) },
        }
    }
}

// ---------------------------------------------------------------------------
// Transitions
// ---------------------------------------------------------------------------

/// Whether a checkpoint is due after a statement.
pub open spec fn checkpoint_due(
    was_in_transaction: bool,
    readonly: bool,
    autocommit_after: bool,
) -> bool {
    autocommit_after && (!readonly || was_in_transaction)
}

/// The statement that runs a checkpoint.
pub open spec fn checkpoint_sql(argument: Seq<char>) -> Seq<char> {
    "PRAGMA wal_checkpoint("@ + argument + ")"@
}

/// The message for a checkpoint that did not complete.
pub open spec fn busy_message(argument: Seq<char>, stats: CheckpointStats) -> Seq<char> {
    "wal_checkpoint("@ + argument + ") could not complete (busy="@ + text::signed_decimal(
        stats.busy as int,
    ) + ", log="@ + text::signed_decimal(stats.log as int) + ", checkpointed="@
        + text::signed_decimal(stats.checkpointed as int) + ")"@
}

/// The message for a result with more rows than the cap.
pub open spec fn too_many_rows(cap: usize) -> Seq<char> {
    "result exceeded RUSTYHIP_MAX_ROWS="@ + text::decimal(cap as nat)
        + "; refusing to materialize more rows"@
}

/// The message for a statement that ran into its time limit.
pub open spec fn timed_out(ms: u64) -> Seq<char> {
    "query timeout exceeded "@ + text::decimal(ms as nat) + "ms"@
}

/// The failure that is reported for `failure`: where there is a time limit, an
/// interruption can only come from it.
pub open spec fn reported(
    options: ExecOptions,
    failure: Seq<crate::failure::CauseView>,
) -> Seq<crate::failure::CauseView> {
    match options.query_timeout_ms {
        Some(ms) => if crate::failure::interrupted(failure) {
            crate::failure::plain_failure(timed_out(ms))
        } else {
            failure
        },
        None => failure,
    }
}

/// The end of a statement that failed.
pub open spec fn failed(
    options: ExecOptions,
    failure: Seq<crate::failure::CauseView>,
) -> StepView {
    StepView::Done { result: Err(crate::db::ExecErrorView::Sql(reported(options, failure))) }
}

/// Whether `n` rows fill the cap.
pub open spec fn cap_reached(max_rows: Option<usize>, n: nat) -> bool {
    max_rows matches Some(cap) && n >= cap
}

/// How many rows the statement changed. The counter `changes` belongs to the
/// connection and outlives the statement that set it, so it counts only where the
/// total has moved. A statement that only reads has changed no row, and neither
/// has one that changes the schema, though SQLite may keep rows of its own for it.
pub open spec fn rows_changed(
    prepared: PreparedView,
    changes_schema: bool,
    changes: u64,
    total_changes: u64,
) -> i64 {
    if prepared.readonly || changes_schema || total_changes == prepared.total_changes {
        0
    } else if changes <= i64::MAX {
        changes as i64
    } else {
        i64::MAX
    }
}

/// The outcome of a statement that went through. The rowid of the latest
/// insertion belongs to the connection too; a statement that only reads does not
/// report it.
pub open spec fn outcome_of(
    prepared: PreparedView,
    changes_schema: bool,
    rows: Seq<crate::db::RowView>,
    changes: u64,
    total_changes: u64,
    last_insert_rowid: i64,
) -> crate::db::OutcomeView {
    crate::db::OutcomeView {
        columns: prepared.columns,
        rows,
        rowcount: rows_changed(prepared, changes_schema, changes, total_changes),
        lastrowid: if prepared.readonly {
            0
        } else {
            last_insert_rowid
        },
        readonly: prepared.readonly,
    }
}

/// The start of an execution.
pub open spec fn begun(
    sql: Seq<char>,
    params: Seq<crate::json::JsonValue>,
    options: ExecOptions,
) -> StepView {
    StepView::Ask {
        state: ExecState {
            options,
            was_in_transaction: false,
            changes_schema: crate::db::changes_schema(sql),
            phase: PhaseView::Begin { sql, params },
        },
        request: RequestView::Autocommit,
    }
}

/// Whether `reply` answers what the execution waits for.
pub open spec fn awaited(state: ExecState, reply: ReplyView) -> bool {
    match state.phase {
        PhaseView::Begin { .. } => reply is Autocommit,
        PhaseView::Prepare { .. } => reply is Prepared,
        PhaseView::Query { .. } => reply is Queried,
        PhaseView::Fetch { prepared, .. } => match reply {
            ReplyView::Fetched(Ok(Some(FetchedView::Cells(cells)))) => cells.len()
                == prepared.columns.len(),
            ReplyView::Fetched(_) => true,
            _ => false,
        },
        PhaseView::Count { .. } => reply is Counters,
        PhaseView::Settle { .. } => reply is Autocommit,
        PhaseView::Flush { .. } => reply is Checkpointed,
    }
}

/// The state with another phase.
pub open spec fn at(state: ExecState, phase: PhaseView) -> ExecState {
    ExecState { phase, ..state }
}

/// The end of an execution that got a reply to something else than it asked:
/// whoever holds the connection does not do its work.
pub open spec fn out_of_step() -> StepView {
    StepView::Done {
        result: Err(
            crate::db::ExecErrorView::Internal(
                crate::failure::plain_failure("reply does not answer the request"@),
            ),
        ),
    }
}

/// What follows when `reply` has come.
pub open spec fn transition(state: ExecState, reply: ReplyView) -> StepView {
    if awaited(state, reply) {
        answered(state, reply)
    } else {
        out_of_step()
    }
}

/// What follows when the reply that the execution waits for has come.
pub open spec fn answered(state: ExecState, reply: ReplyView) -> StepView {
    match (state.phase, reply) {
        (PhaseView::Begin { sql, params }, ReplyView::Autocommit(autocommit)) => {
            match crate::db::bound_all(params) {
                Ok(bound) => StepView::Ask {
                    state: ExecState {
                        was_in_transaction: !autocommit,
                        phase: PhaseView::Prepare { bound },
                        ..state
                    },
                    request: RequestView::Prepare { sql },
                },
                Err(message) => failed(state.options, crate::failure::plain_failure(message)),
            }
        },
        (PhaseView::Prepare { bound }, ReplyView::Prepared(Ok(prepared))) => StepView::Ask {
            state: at(state, PhaseView::Query { prepared }),
            request: RequestView::Query { params: bound },
        },
        (PhaseView::Prepare { .. }, ReplyView::Prepared(Err(failure))) => failed(
            state.options,
            crate::failure::in_context("prepare statement"@, failure),
        ),
        (PhaseView::Query { prepared }, ReplyView::Queried(Ok(()))) => StepView::Ask {
            state: at(state, PhaseView::Fetch { prepared, rows: Seq::empty() }),
            request: RequestView::FetchRow,
        },
        (PhaseView::Query { .. }, ReplyView::Queried(Err(failure))) => failed(
            state.options,
            crate::failure::in_context("execute statement"@, failure),
        ),
        (PhaseView::Fetch { prepared, rows }, ReplyView::Fetched(Ok(Some(row)))) => {
            if cap_reached(state.options.max_rows, rows.len()) {
                failed(
                    state.options,
                    crate::failure::plain_failure(too_many_rows(state.options.max_rows->0)),
                )
            } else {
                match row {
                    FetchedView::Cells(cells) => StepView::Ask {
                        state: at(
                            state,
                            PhaseView::Fetch {
                                prepared,
                                rows: rows.push(
                                    crate::db::row_of(
                                        state.options.rows_format,
                                        prepared.columns,
                                        cells,
                                    ),
                                ),
                            },
                        ),
                        request: RequestView::FetchRow,
                    },
                    FetchedView::Unreadable { column, failure } => failed(
                        state.options,
                        crate::failure::in_context(
                            "read column "@ + text::decimal(column as nat),
                            failure,
                        ),
                    ),
                }
            }
        },
        (PhaseView::Fetch { prepared, rows }, ReplyView::Fetched(Ok(None))) => {
            if prepared.readonly {
                StepView::Ask {
                    state: at(
                        state,
                        PhaseView::Settle {
                            outcome: outcome_of(
                                prepared,
                                state.changes_schema,
                                rows,
                                0,
                                prepared.total_changes,
                                0,
                            ),
                        },
                    ),
                    request: RequestView::Autocommit,
                }
            } else {
                StepView::Ask {
                    state: at(state, PhaseView::Count { prepared, rows }),
                    request: RequestView::Counters,
                }
            }
        },
        (PhaseView::Fetch { .. }, ReplyView::Fetched(Err(failure))) => failed(
            state.options,
            crate::failure::in_context("fetch next row"@, failure),
        ),
        (
            PhaseView::Count { prepared, rows },
            ReplyView::Counters { changes, total_changes, last_insert_rowid },
        ) => StepView::Ask {
            state: at(
                state,
                PhaseView::Settle {
                    outcome: outcome_of(
                        prepared,
                        state.changes_schema,
                        rows,
                        changes,
                        total_changes,
                        last_insert_rowid,
                    ),
                },
            ),
            request: RequestView::Autocommit,
        },
        (PhaseView::Settle { outcome }, ReplyView::Autocommit(autocommit)) => {
            match state.options.checkpoint_mode.argument() {
                Some(argument) if checkpoint_due(
                    state.was_in_transaction,
                    outcome.readonly,
                    autocommit,
                ) => StepView::Ask {
                    state: at(state, PhaseView::Flush { argument, outcome }),
                    request: RequestView::Checkpoint { sql: checkpoint_sql(argument) },
                },
                _ => StepView::Done { result: Ok(outcome) },
            }
        },
        (PhaseView::Flush { argument, outcome }, ReplyView::Checkpointed(Ok(stats))) => {
            if stats.busy != 0 {
                StepView::Done {
                    result: Err(
                        crate::db::ExecErrorView::Checkpoint(
                            crate::failure::plain_failure(
                                busy_message(argument, stats),
                            ),
                        ),
                    ),
                }
            } else {
                StepView::Done { result: Ok(outcome) }
            }
        },
        (
            PhaseView::Flush { argument, .. },
            ReplyView::Checkpointed(Err(failure)),
        ) => StepView::Done {
            result: Err(
                crate::db::ExecErrorView::Checkpoint(
                    crate::failure::in_context(
                        "run "@ + checkpoint_sql(argument),
                        failure,
                    ),
                ),
            ),
        },
        _ => out_of_step(),
    }
}

/// The failure that is reported for `failure`.
fn report(options: &ExecOptions, failure: Failure) -> (shown: Failure)
    ensures
        shown@ == reported(*options, failure@),
{
    match options.query_timeout_ms {
        Some(ms) => if error_is_interrupt(&failure) {
            let mut message = "query timeout exceeded ".to_owned();
            text::push_decimal(&mut message, ms as u128);
            message.append("ms");
            Failure::new(message)
        } else {
            failure
        },
        None => failure,
    }
}

/// The end of a statement that failed.
fn fail(options: &ExecOptions, failure: Failure) -> (step: Step)
    ensures
        step@ == failed(*options, failure@),
{
    Step::Done { result: Err(ExecError::Sql(report(options, failure))) }
}

/// The statement that runs a checkpoint.
fn checkpoint_statement(argument: &str) -> (sql: String)
    ensures
        sql@ == checkpoint_sql(argument@),
{
    let mut sql = "PRAGMA wal_checkpoint(".to_owned();
    sql.append(argument);
    sql.append(")");
    sql
}

/// The message for a checkpoint that did not complete.
fn describe_busy(argument: &str, stats: &CheckpointStats) -> (message: String)
    ensures
        message@ == busy_message(argument@, *stats),
{
    let mut message = "wal_checkpoint(".to_owned();
    message.append(argument);
    message.append(") could not complete (busy=");
    text::push_signed(&mut message, stats.busy as i128);
    message.append(", log=");
    text::push_signed(&mut message, stats.log as i128);
    message.append(", checkpointed=");
    text::push_signed(&mut message, stats.checkpointed as i128);
    message.append(")");
    message
}

/// The outcome of a statement that went through.
fn make_outcome(
    prepared: Prepared,
    changes_schema: bool,
    rows: Vec<Row>,
    changes: u64,
    total_changes: u64,
    last_insert_rowid: i64,
) -> (outcome: ExecOutcome)
    ensures
        outcome@ == outcome_of(
            prepared@,
            changes_schema,
            crate::db::row_values(rows@),
            changes,
            total_changes,
            last_insert_rowid,
        ),
{
    let readonly = prepared.readonly;
    let rowcount: i64 = if readonly || changes_schema || total_changes
        == prepared.total_changes {
        0
    } else if changes <= i64::MAX as u64 {
        changes as i64
    } else {
        i64::MAX
    };
    let lastrowid: i64 = if readonly {
        0
    } else {
        last_insert_rowid
    };
    ExecOutcome { columns: prepared.columns, rows, rowcount, lastrowid, readonly }
}

impl Execution {
    /// The execution of the statement `sql` with the parameters `params`.
    pub fn begin(sql: String, params: Vec<Json>, options: ExecOptions) -> (step: Step)
        ensures
            step@ == begun(sql@, crate::json::json_values(params@), options),
    {
        let changes_schema = is_schema_change(sql.as_str());
        let phase = Phase::Begin { sql, params };
        Step::Ask {
            execution: Execution { options, was_in_transaction: false, changes_schema, phase },
            request: Request::Autocommit,
        }
    }

    /// The time limit of the statement, in milliseconds: one budget for all its
    /// timed requests together, which runs from the first of them on.
    pub fn time_limit_ms(&self) -> (ms: Option<u64>)
        ensures
            ms == self@.options.query_timeout_ms,
    {
        self.options.query_timeout_ms
    }

    /// The end of an execution that got a reply to something else than it asked.
    fn out_of_step() -> (step: Step)
        ensures
            step@ == crate::execution::out_of_step(),
    {
        let failure = Failure::new("reply does not answer the request".to_owned());
        Step::Done { result: Err(ExecError::Internal(failure)) }
    }

    /// What follows when a row was fetched.
    fn take_row(
        options: ExecOptions,
        was_in_transaction: bool,
        changes_schema: bool,
        prepared: Prepared,
        rows: Vec<Row>,
        row: Fetched,
    ) -> (step: Step)
        ensures
            step@ == transition(
                ExecState {
                    options,
                    was_in_transaction,
                    changes_schema,
                    phase: PhaseView::Fetch {
                        prepared: prepared@,
                        rows: crate::db::row_values(rows@),
                    },
                },
                ReplyView::Fetched(Ok(Some(row@))),
            ),
    {
        if let Fetched::Cells(cells) = &row {
            if cells.len() != prepared.columns.len() {
                return Self::out_of_step();
            }
        }
        if let Some(cap) = options.max_rows {
            if rows.len() >= cap {
                let mut message = "result exceeded RUSTYHIP_MAX_ROWS=".to_owned();
                text::push_decimal(&mut message, cap as u128);
                message.append("; refusing to materialize more rows");
                return fail(&options, Failure::new(message));
            }
        }
        match row {
            Fetched::Cells(cells) => {
                let mut rows = rows;
                let ghost before = rows@;
                let shaped = shape_row(options.rows_format, &prepared.columns, &cells);
                rows.push(shaped);
                assert(crate::db::row_values(rows@) =~= crate::db::row_values(before).push(
                    shaped@,
                ));
                Step::Ask {
                    execution: Execution {
                        options,
                        was_in_transaction,
                        changes_schema,
                        phase: Phase::Fetch { prepared, rows },
                    },
                    request: Request::FetchRow,
                }
            },
            Fetched::Unreadable { column, failure } => {
                let mut context = "read column ".to_owned();
                text::push_decimal(&mut context, column as u128);
                fail(&options, failure.context(context))
            },
        }
    }

    /// The result when the checkpoint was run.
    fn take_checkpoint(
        argument: &'static str,
        outcome: ExecOutcome,
        reply: Result<CheckpointStats, Failure>,
    ) -> (result: Result<ExecOutcome, ExecError>)
        ensures
            match reply {
                Ok(stats) => if stats.busy != 0 {
                    result matches Err(e) && e@ == crate::db::ExecErrorView::Checkpoint(
                        crate::failure::plain_failure(busy_message(argument@, stats)),
                    )
                } else {
                    result == Ok::<ExecOutcome, ExecError>(outcome)
                },
                Err(f) => result matches Err(e) && e@ == crate::db::ExecErrorView::Checkpoint(
                    crate::failure::in_context("run "@ + checkpoint_sql(argument@), f@),
                ),
            },
    {
        match reply {
            Ok(stats) => if stats.busy != 0 {
                Err(ExecError::Checkpoint(Failure::new(describe_busy(argument, &stats))))
            } else {
                Ok(outcome)
            },
            Err(failure) => {
                let mut context = "run ".to_owned();
                let sql = checkpoint_statement(argument);
                context.append(sql.as_str());
                Err(ExecError::Checkpoint(failure.context(context)))
            },
        }
    }

    /// What follows when `reply` has come.
    pub fn step(self, reply: Reply) -> (step: Step)
        ensures
            step@ == transition(self@, reply@),
    {
        let options = self.options;
        let was_in_transaction = self.was_in_transaction;
        let changes_schema = self.changes_schema;
        match (self.phase, reply) {
            (Phase::Begin { sql, params }, Reply::Autocommit(autocommit)) => {
                match bind_params(params) {
                    Ok(bound) => Step::Ask {
                        execution: Execution {
                            options,
                            was_in_transaction: !autocommit,
                            changes_schema,
                            phase: Phase::Prepare { bound },
                        },
                        request: Request::Prepare { sql },
                    },
                    Err(failure) => fail(&options, failure),
                }
            },
            (Phase::Prepare { bound }, Reply::Prepared(Ok(prepared))) => Step::Ask {
                execution: Execution {
                    options,
                    was_in_transaction,
                    changes_schema,
                    phase: Phase::Query { prepared },
                },
                request: Request::Query { params: bound },
            },
            (Phase::Prepare { .. }, Reply::Prepared(Err(failure))) => fail(
                &options,
                failure.context("prepare statement".to_owned()),
            ),
            (Phase::Query { prepared }, Reply::Queried(Ok(()))) => {
                let rows: Vec<Row> = Vec::new();
                assert(crate::db::row_values(rows@) =~= Seq::empty());
                Step::Ask {
                    execution: Execution {
                        options,
                        was_in_transaction,
                        changes_schema,
                        phase: Phase::Fetch { prepared, rows },
                    },
                    request: Request::FetchRow,
                }
            },
            (Phase::Query { .. }, Reply::Queried(Err(failure))) => fail(
                &options,
                failure.context("execute statement".to_owned()),
            ),
            (Phase::Fetch { prepared, rows }, Reply::Fetched(Ok(Some(row)))) => {
                Self::take_row(
                    options,
                    was_in_transaction,
                    changes_schema,
                    prepared,
                    rows,
                    row,
                )
            },
            (Phase::Fetch { prepared, rows }, Reply::Fetched(Ok(None))) => {
                if prepared.readonly {
                    let total_changes: u64 = prepared.total_changes;
                    let outcome = make_outcome(
                        prepared,
                        changes_schema,
                        rows,
                        0,
                        total_changes,
                        0,
                    );
                    Step::Ask {
                        execution: Execution {
                            options,
                            was_in_transaction,
                            changes_schema,
                            phase: Phase::Settle { outcome },
                        },
                        request: Request::Autocommit,
                    }
                } else {
                    Step::Ask {
                        execution: Execution {
                            options,
                            was_in_transaction,
                            changes_schema,
                            phase: Phase::Count { prepared, rows },
                        },
                        request: Request::Counters,
                    }
                }
            },
            (Phase::Fetch { .. }, Reply::Fetched(Err(failure))) => fail(
                &options,
                failure.context("fetch next row".to_owned()),
            ),
            (
                Phase::Count { prepared, rows },
                Reply::Counters { changes, total_changes, last_insert_rowid },
            ) => {
                let outcome = make_outcome(
                    prepared,
                    changes_schema,
                    rows,
                    changes,
                    total_changes,
                    last_insert_rowid,
                );
                Step::Ask {
                    execution: Execution {
                        options,
                        was_in_transaction,
                        changes_schema,
                        phase: Phase::Settle { outcome },
                    },
                    request: Request::Autocommit,
                }
            },
            (Phase::Settle { outcome }, Reply::Autocommit(autocommit)) => {
                let due = autocommit && (!outcome.readonly || was_in_transaction);
                match options.checkpoint_mode.as_pragma_arg() {
                    Some(argument) => if due {
                        Step::Ask {
                            execution: Execution {
                                options,
                                was_in_transaction,
                                changes_schema,
                                phase: Phase::Flush { argument, outcome },
                            },
                            request: Request::Checkpoint { sql: checkpoint_statement(argument) },
                        }
                    } else {
                        Step::Done { result: Ok(outcome) }
                    },
                    None => Step::Done { result: Ok(outcome) },
                }
            },
            (Phase::Flush { argument, outcome }, Reply::Checkpointed(reply)) => Step::Done {
                result: Self::take_checkpoint(argument, outcome, reply),
            },
            _ => Self::out_of_step(),
        }
    }
}

// ---------------------------------------------------------------------------
// Laws
// ---------------------------------------------------------------------------

/// Where `replies` lead when they come one after the other. Once the statement
/// is over, further replies change nothing.
pub open spec fn run(start: StepView, replies: Seq<ReplyView>) -> StepView
    decreases replies.len(),
{
    if replies.len() == 0 {
        start
    } else {
        match run(start, replies.drop_last()) {
            StepView::Ask { state, .. } => transition(state, replies.last()),
            done => done,
        }
    }
}

/// The last of `replies` ends the statement with `result`.
pub open spec fn ends_with(
    start: StepView,
    replies: Seq<ReplyView>,
    result: Result<crate::db::OutcomeView, crate::db::ExecErrorView>,
) -> bool {
    &&& replies.len() > 0
    &&& run(start, replies.drop_last()) is Ask
    &&& run(start, replies) == StepView::Done { result }
}

/// The replies say that the statement was prepared as `prepared` and then gave
/// the rows `rows`.
pub open spec fn fetched_rows(
    options: ExecOptions,
    replies: Seq<ReplyView>,
    prepared: PreparedView,
    rows: Seq<crate::db::RowView>,
) -> bool {
    &&& replies.len() >= 3 + rows.len()
    &&& replies[1] == ReplyView::Prepared(Ok(prepared))
    &&& forall|i: int|
        0 <= i < rows.len() ==> {
            &&& (#[trigger] replies[3 + i]) matches ReplyView::Fetched(
                Ok(Some(FetchedView::Cells(cells))),
            )
            &&& cells.len() == prepared.columns.len()
            &&& rows[i] == crate::db::row_of(options.rows_format, prepared.columns, cells)
        }
    &&& options.max_rows matches Some(cap) ==> rows.len() <= cap
}

/// What the replies say of the statement once it was prepared.
pub open spec fn prepared_in(replies: Seq<ReplyView>) -> PreparedView {
    replies[1]->Prepared_0->Ok_0
}

/// The replies say that the statement went through with the outcome `outcome`.
pub open spec fn told(
    sql: Seq<char>,
    options: ExecOptions,
    replies: Seq<ReplyView>,
    outcome: crate::db::OutcomeView,
) -> bool {
    let prepared = prepared_in(replies);
    let n = outcome.rows.len() as int;
    &&& prepared.readonly == outcome.readonly
    &&& prepared.columns == outcome.columns
    &&& fetched_rows(options, replies, prepared, outcome.rows)
    &&& replies.len() >= 4 + n
    &&& replies[3 + n] == ReplyView::Fetched(Ok(None))
    &&& if outcome.readonly {
        outcome.rowcount == 0 && outcome.lastrowid == 0
    } else {
        &&& replies.len() >= 5 + n
        &&& replies[4 + n] matches ReplyView::Counters {
            changes,
            total_changes,
            last_insert_rowid,
        }
        &&& outcome.lastrowid == last_insert_rowid
        &&& outcome.rowcount == if crate::db::changes_schema(sql) || total_changes
            == prepared.total_changes {
            0
        } else if changes <= i64::MAX {
            changes as int
        } else {
            i64::MAX as int
        }
    }
}

/// How many replies have come when the outcome of a statement is known.
pub open spec fn settled_at(outcome: crate::db::OutcomeView) -> int {
    if outcome.readonly {
        4 + outcome.rows.len() as int
    } else {
        5 + outcome.rows.len() as int
    }
}

/// What holds of the state that `replies` have led to.
spec fn history(
    sql: Seq<char>,
    params: Seq<crate::json::JsonValue>,
    options: ExecOptions,
    replies: Seq<ReplyView>,
    state: ExecState,
) -> bool {
    &&& state.options == options
    &&& state.changes_schema == crate::db::changes_schema(sql)
    &&& if state.phase is Begin {
        replies.len() == 0
    } else {
        &&& replies.len() > 0
        &&& replies[0] == ReplyView::Autocommit(!state.was_in_transaction)
    }
    &&& match state.phase {
        PhaseView::Begin { sql: text, params: values } => text == sql && values == params,
        PhaseView::Prepare { bound } => replies.len() == 1 && crate::db::bound_all(params) == Ok::<
            Seq<crate::db::SqlView>,
            Seq<char>,
        >(bound),
        PhaseView::Query { prepared } => replies.len() == 2 && replies[1] == ReplyView::Prepared(
            Ok(prepared),
        ),
        PhaseView::Fetch { prepared, rows } => replies.len() == 3 + rows.len() && fetched_rows(
            options,
            replies,
            prepared,
            rows,
        ),
        PhaseView::Count { prepared, rows } => replies.len() == 4 + rows.len() && fetched_rows(
            options,
            replies,
            prepared,
            rows,
        ) && replies[3 + rows.len() as int] == ReplyView::Fetched(Ok(None)) && !prepared.readonly,
        PhaseView::Settle { outcome } => replies.len() == settled_at(outcome) && told(
            sql,
            options,
            replies,
            outcome,
        ),
        PhaseView::Flush { argument, outcome } => {
            &&& replies.len() == settled_at(outcome) + 1
            &&& told(sql, options, replies, outcome)
            &&& replies.last() == ReplyView::Autocommit(true)
            &&& options.checkpoint_mode.argument() == Some(argument)
            &&& checkpoint_due(state.was_in_transaction, outcome.readonly, true)
        },
    }
}

/// What was told stays told when more replies come.
proof fn lemma_told_stays(
    options: ExecOptions,
    replies: Seq<ReplyView>,
    prepared: PreparedView,
    rows: Seq<crate::db::RowView>,
    reply: ReplyView,
)
    requires
        fetched_rows(options, replies, prepared, rows),
    ensures
        fetched_rows(options, replies.push(reply), prepared, rows),
{
    let longer = replies.push(reply);
    assert forall|i: int| 0 <= i < rows.len() implies {
        &&& (#[trigger] longer[3 + i]) matches ReplyView::Fetched(
            Ok(Some(FetchedView::Cells(cells))),
        )
        &&& cells.len() == prepared.columns.len()
        &&& rows[i] == crate::db::row_of(options.rows_format, prepared.columns, cells)
    } by {
        assert(longer[3 + i] == replies[3 + i]);
    }
}

/// The states that an execution can be in.
proof fn lemma_history(
    sql: Seq<char>,
    params: Seq<crate::json::JsonValue>,
    options: ExecOptions,
    replies: Seq<ReplyView>,
)
    ensures
        run(begun(sql, params, options), replies) matches StepView::Ask { state, .. } ==> history(
            sql,
            params,
            options,
            replies,
            state,
        ),
    decreases replies.len(),
{
    let start = begun(sql, params, options);
    if replies.len() > 0 {
        let earlier = replies.drop_last();
        let reply = replies.last();
        lemma_history(sql, params, options, earlier);
        assert(replies == earlier.push(reply));
        if let StepView::Ask { state, .. } = run(start, earlier) {
            if let StepView::Ask { state: next, .. } = transition(state, reply) {
                match state.phase {
                    PhaseView::Fetch { prepared, rows } => {
                        lemma_told_stays(options, earlier, prepared, rows, reply);
                    },
                    PhaseView::Count { prepared, rows } => {
                        lemma_told_stays(options, earlier, prepared, rows, reply);
                    },
                    PhaseView::Settle { outcome } => {
                        let prepared = prepared_in(earlier);
                        lemma_told_stays(options, earlier, prepared, outcome.rows, reply);
                    },
                    _ => {},
                }
            }
        }
    }
}

/// A result is only acknowledged when everything that it has to make durable is
/// durable: where a checkpoint is due and wanted, the last thing that the
/// database said is that the checkpoint ran to completion. Otherwise no
/// checkpoint is run at all.
pub proof fn law_acknowledged_means_flushed(
    sql: Seq<char>,
    params: Seq<crate::json::JsonValue>,
    options: ExecOptions,
    replies: Seq<ReplyView>,
    outcome: crate::db::OutcomeView,
)
    requires
        ends_with(begun(sql, params, options), replies, Ok(outcome)),
    ensures
        replies.len() > settled_at(outcome),
        replies[0] is Autocommit,
        replies[settled_at(outcome)] is Autocommit,
        ({
            let was_in_transaction = !replies[0]->Autocommit_0;
            let autocommit_after = replies[settled_at(outcome)]->Autocommit_0;
            if options.checkpoint_mode != CheckpointMode::Off && autocommit_after && (
            !outcome.readonly || was_in_transaction) {
                &&& replies.len() == settled_at(outcome) + 2
                &&& replies.last() matches ReplyView::Checkpointed(Ok(stats))
                &&& stats.busy == 0
            } else {
                replies.len() == settled_at(outcome) + 1
            }
        }),
{
    lemma_history(sql, params, options, replies.drop_last());
}

/// A checkpoint is asked for only when the mode wants one, the database has just
/// said that no transaction is open, and the statement wrote or was run inside a
/// transaction. So a statement inside an open transaction is never followed by a
/// checkpoint, and neither is a read outside of any.
pub proof fn law_checkpoint_only_when_due(
    sql: Seq<char>,
    params: Seq<crate::json::JsonValue>,
    options: ExecOptions,
    replies: Seq<ReplyView>,
    state: ExecState,
    request: RequestView,
)
    requires
        run(begun(sql, params, options), replies) == (StepView::Ask { state, request }),
        request is Checkpoint,
    ensures
        options.checkpoint_mode != CheckpointMode::Off,
        options.checkpoint_mode.argument() matches Some(argument) && request
            == (RequestView::Checkpoint { sql: checkpoint_sql(argument) }),
        state.phase matches PhaseView::Flush { outcome, .. } && replies[0] is Autocommit && (
        !outcome.readonly || !replies[0]->Autocommit_0),
        !prepared_in(replies).readonly || replies[0] == ReplyView::Autocommit(false),
        replies.last() == ReplyView::Autocommit(true),
{
    lemma_history(sql, params, options, replies);
    lemma_history(sql, params, options, replies.drop_last());
}

/// An outcome tells what the database said, no more and no less: the columns of
/// the prepared statement, every row that was fetched, in that order and in the
/// wanted shape, up to the end of the rows; and the counters, which are 0 for a
/// statement that only reads.
pub proof fn law_outcome_is_what_was_told(
    sql: Seq<char>,
    params: Seq<crate::json::JsonValue>,
    options: ExecOptions,
    replies: Seq<ReplyView>,
    outcome: crate::db::OutcomeView,
)
    requires
        ends_with(begun(sql, params, options), replies, Ok(outcome)),
    ensures
        told(sql, options, replies, outcome),
{
    let earlier = replies.drop_last();
    lemma_history(sql, params, options, earlier);
    assert(replies == earlier.push(replies.last()));
    let prepared = prepared_in(earlier);
    lemma_told_stays(options, earlier, prepared, outcome.rows, replies.last());
}

/// No outcome has more rows than the cap.
pub proof fn law_rows_within_cap(
    sql: Seq<char>,
    params: Seq<crate::json::JsonValue>,
    options: ExecOptions,
    replies: Seq<ReplyView>,
    outcome: crate::db::OutcomeView,
)
    requires
        ends_with(begun(sql, params, options), replies, Ok(outcome)),
    ensures
        options.max_rows matches Some(cap) ==> outcome.rows.len() <= cap,
{
    law_outcome_is_what_was_told(sql, params, options, replies, outcome);
}

/// A statement that only reads reports no counters, whatever an earlier
/// statement on the same connection has left behind.
pub proof fn law_reads_report_no_counters(
    sql: Seq<char>,
    params: Seq<crate::json::JsonValue>,
    options: ExecOptions,
    replies: Seq<ReplyView>,
    outcome: crate::db::OutcomeView,
)
    requires
        ends_with(begun(sql, params, options), replies, Ok(outcome)),
        outcome.readonly,
    ensures
        outcome.rowcount == 0,
        outcome.lastrowid == 0,
{
    law_outcome_is_what_was_told(sql, params, options, replies, outcome);
}

/// A statement that changes the schema reports no rows, whatever it and earlier
/// statements on the same connection have left behind.
pub proof fn law_schema_changes_report_no_rows(
    sql: Seq<char>,
    params: Seq<crate::json::JsonValue>,
    options: ExecOptions,
    replies: Seq<ReplyView>,
    outcome: crate::db::OutcomeView,
)
    requires
        ends_with(begun(sql, params, options), replies, Ok(outcome)),
        crate::db::changes_schema(sql),
    ensures
        outcome.rowcount == 0,
{
    law_outcome_is_what_was_told(sql, params, options, replies, outcome);
}

/// A statement that changes no row reports none, whatever an earlier statement on
/// the same connection has left behind: where the total is the same after the
/// statement as before it, the count of rows is 0.
pub proof fn law_unchanged_total_reports_no_rows(
    sql: Seq<char>,
    params: Seq<crate::json::JsonValue>,
    options: ExecOptions,
    replies: Seq<ReplyView>,
    outcome: crate::db::OutcomeView,
)
    requires
        ends_with(begun(sql, params, options), replies, Ok(outcome)),
        !outcome.readonly,
        replies[4 + outcome.rows.len() as int] matches ReplyView::Counters {
            total_changes,
            ..
        } && total_changes == prepared_in(replies).total_changes,
    ensures
        outcome.rowcount == 0,
{
    law_outcome_is_what_was_told(sql, params, options, replies, outcome);
}

/// The fetching of the first `k` rows.
proof fn lemma_rows_are_taken(
    sql: Seq<char>,
    params: Seq<crate::json::JsonValue>,
    options: ExecOptions,
    replies: Seq<ReplyView>,
    prepared: PreparedView,
    rows: Seq<crate::db::RowView>,
    k: int,
)
    requires
        crate::db::bound_all(params) is Ok,
        replies[0] is Autocommit,
        replies[2] == ReplyView::Queried(Ok(())),
        fetched_rows(options, replies, prepared, rows),
        0 <= k <= rows.len(),
    ensures
        run(begun(sql, params, options), replies.take(3 + k)) == (StepView::Ask {
            state: ExecState {
                options,
                was_in_transaction: !replies[0]->Autocommit_0,
                changes_schema: crate::db::changes_schema(sql),
                phase: PhaseView::Fetch { prepared, rows: rows.take(k) },
            },
            request: RequestView::FetchRow,
        }),
    decreases k,
{
    let start = begun(sql, params, options);
    if k == 0 {
        assert(run(start, Seq::empty()) == start);
        assert(replies.take(1).drop_last() =~= Seq::empty());
        assert(replies.take(2).drop_last() =~= replies.take(1));
        assert(replies.take(3).drop_last() =~= replies.take(2));
        assert(run(start, replies.take(1)) is Ask);
        assert(run(start, replies.take(2)) is Ask);
        assert(rows.take(0) =~= Seq::empty());
    } else {
        lemma_rows_are_taken(sql, params, options, replies, prepared, rows, k - 1);
        assert(replies.take(3 + k).drop_last() =~= replies.take(3 + (k - 1)));
        assert(replies.take(3 + k).last() == replies[3 + (k - 1)]);
        assert(rows.take(k) =~= rows.take(k - 1).push(rows[k - 1]));
    }
}

/// A statement without arrays and objects among its parameters is acknowledged
/// with its outcome whenever the database says that it went through, its rows keep within the cap,
/// and where a checkpoint is due and wanted, that it ran to completion.
pub proof fn law_success_is_owed(
    sql: Seq<char>,
    params: Seq<crate::json::JsonValue>,
    options: ExecOptions,
    replies: Seq<ReplyView>,
    outcome: crate::db::OutcomeView,
)
    requires
        forall|i: int| 0 <= i < params.len() ==> (#[trigger] params[i]) !is Composite,
        told(sql, options, replies, outcome),
        replies[0] is Autocommit,
        replies[2] == ReplyView::Queried(Ok(())),
        replies.len() > settled_at(outcome),
        replies[settled_at(outcome)] is Autocommit,
        if options.checkpoint_mode != CheckpointMode::Off
            && replies[settled_at(outcome)]->Autocommit_0 && (!outcome.readonly
            || !replies[0]->Autocommit_0) {
            &&& replies.len() == settled_at(outcome) + 2
            &&& replies.last() matches ReplyView::Checkpointed(Ok(stats))
            &&& stats.busy == 0
        } else {
            replies.len() == settled_at(outcome) + 1
        },
    ensures
        ends_with(begun(sql, params, options), replies, Ok(outcome)),
{
    let start = begun(sql, params, options);
    let prepared = prepared_in(replies);
    let n = outcome.rows.len() as int;
    let settled = settled_at(outcome);
    crate::db::law_only_composites_cannot_be_bound(params);
    lemma_rows_are_taken(sql, params, options, replies, prepared, outcome.rows, n);
    assert(outcome.rows.take(n) =~= outcome.rows);
    assert(replies.take(4 + n).drop_last() =~= replies.take(3 + n));
    assert(run(start, replies.take(4 + n)) is Ask);
    if !outcome.readonly {
        assert(replies.take(5 + n).drop_last() =~= replies.take(4 + n));
    }
    assert(run(start, replies.take(settled)) == (StepView::Ask {
        state: ExecState {
            options,
            was_in_transaction: !replies[0]->Autocommit_0,
            changes_schema: crate::db::changes_schema(sql),
            phase: PhaseView::Settle { outcome },
        },
        request: RequestView::Autocommit,
    }));
    assert(replies.take(settled + 1).drop_last() =~= replies.take(settled));
    if replies.len() == settled + 1 {
        assert(replies.take(settled + 1) =~= replies);
    } else {
        assert(replies.drop_last() =~= replies.take(settled + 1));
    }
}

/// The kind of an error says what went wrong: a checkpoint error means that the
/// statement itself had gone through and its checkpoint failed or stayed
/// incomplete, and an internal error means a reply to something that was not
/// asked. Every other failure is one of the statement.
pub proof fn law_error_kinds(
    sql: Seq<char>,
    params: Seq<crate::json::JsonValue>,
    options: ExecOptions,
    replies: Seq<ReplyView>,
    error: crate::db::ExecErrorView,
)
    requires
        ends_with(begun(sql, params, options), replies, Err(error)),
    ensures
        run(begun(sql, params, options), replies.drop_last()) matches StepView::Ask {
            state,
            ..
        } && {
            &&& error is Internal <==> !awaited(state, replies.last())
            &&& error is Checkpoint <==> (replies.last() matches ReplyView::Checkpointed(reply)
                && awaited(state, replies.last()) && (reply matches Ok(stats) ==> stats.busy != 0))
        },
{
    lemma_history(sql, params, options, replies.drop_last());
}

/// What is asked for in each phase.
pub open spec fn request_in(phase: PhaseView, request: RequestView) -> bool {
    match phase {
        PhaseView::Begin { .. } => request is Autocommit,
        PhaseView::Prepare { .. } => request is Prepare,
        PhaseView::Query { .. } => request is Query,
        PhaseView::Fetch { .. } => request is FetchRow,
        PhaseView::Count { .. } => request is Counters,
        PhaseView::Settle { .. } => request is Autocommit,
        PhaseView::Flush { .. } => request is Checkpoint,
    }
}

/// Whether a reply answers a request; a row must have a cell for every column of
/// the prepared statement.
pub open spec fn answers(request: RequestView, columns: nat, reply: ReplyView) -> bool {
    match request {
        RequestView::Autocommit => reply is Autocommit,
        RequestView::Prepare { .. } => reply is Prepared,
        RequestView::Query { .. } => reply is Queried,
        RequestView::FetchRow => reply matches ReplyView::Fetched(fetched) && (fetched matches Ok(
            Some(FetchedView::Cells(cells)),
        ) ==> cells.len() == columns),
        RequestView::Counters => reply is Counters,
        RequestView::Checkpoint { .. } => reply is Checkpointed,
    }
}

/// The number of columns of the prepared statement, once it is prepared.
pub open spec fn columns_in(phase: PhaseView) -> nat {
    match phase {
        PhaseView::Query { prepared } => prepared.columns.len(),
        PhaseView::Fetch { prepared, .. } => prepared.columns.len(),
        PhaseView::Count { prepared, .. } => prepared.columns.len(),
        PhaseView::Settle { outcome } => outcome.columns.len(),
        PhaseView::Flush { outcome, .. } => outcome.columns.len(),
        _ => 0,
    }
}

/// Every request is the one that the phase stands for, so the time limit covers
/// the preparing, running, fetching and counting of the statement and nothing
/// else: not its checkpoint, and nothing of the next statement.
pub proof fn law_time_limit_covers_the_statement(
    sql: Seq<char>,
    params: Seq<crate::json::JsonValue>,
    options: ExecOptions,
    replies: Seq<ReplyView>,
)
    ensures
        run(begun(sql, params, options), replies) matches StepView::Ask { state, request } ==> {
            &&& request_in(state.phase, request)
            &&& request.timed() <==> (state.phase is Prepare || state.phase is Query
                || state.phase is Fetch || state.phase is Count)
        },
{
}

/// How far a phase is on the way of a statement.
spec fn rank(phase: PhaseView) -> int {
    match phase {
        PhaseView::Begin { .. } => 0,
        PhaseView::Prepare { .. } => 1,
        PhaseView::Query { .. } => 2,
        PhaseView::Fetch { .. } => 3,
        PhaseView::Count { .. } => 4,
        PhaseView::Settle { .. } => 5,
        PhaseView::Flush { .. } => 6,
    }
}

/// An execution that still goes on has gone on before, and never goes back.
proof fn lemma_phases_go_on(start: StepView, replies: Seq<ReplyView>, i: int, j: int)
    requires
        0 <= i <= j <= replies.len(),
        run(start, replies.take(j)) is Ask,
    ensures
        run(start, replies.take(i)) matches StepView::Ask { state: earlier, .. } && (run(
            start,
            replies.take(j),
        ) matches StepView::Ask { state: later, .. } && rank(earlier.phase) <= rank(later.phase)
            && earlier.options == later.options),
    decreases j - i,
{
    if i < j {
        assert(replies.take(j).drop_last() =~= replies.take(j - 1));
        lemma_phases_go_on(start, replies, i, j - 1);
    }
}

/// Whether a timed request stands after the first `k` of the replies.
pub open spec fn timed_after(start: StepView, replies: Seq<ReplyView>, k: int) -> bool {
    run(start, replies.take(k)) matches StepView::Ask { request, .. } && request.timed()
}

/// The time limit is one budget per statement: its timed requests follow each
/// other without a break, and the limit is the same for all of them.
pub proof fn law_one_time_limit_per_statement(
    sql: Seq<char>,
    params: Seq<crate::json::JsonValue>,
    options: ExecOptions,
    replies: Seq<ReplyView>,
    i: int,
    k: int,
    j: int,
)
    requires
        0 <= i <= k <= j <= replies.len(),
        timed_after(begun(sql, params, options), replies, i),
        timed_after(begun(sql, params, options), replies, j),
    ensures
        timed_after(begun(sql, params, options), replies, k),
        run(begun(sql, params, options), replies.take(k)) matches StepView::Ask { state, .. }
            && state.options.query_timeout_ms == options.query_timeout_ms,
{
    let start = begun(sql, params, options);
    lemma_phases_go_on(start, replies, k, j);
    lemma_phases_go_on(start, replies, i, k);
    lemma_phases_go_on(start, replies, 0, k);
    law_time_limit_covers_the_statement(sql, params, options, replies.take(i));
    law_time_limit_covers_the_statement(sql, params, options, replies.take(k));
    law_time_limit_covers_the_statement(sql, params, options, replies.take(j));
}

/// A connection that answers what it is asked never makes the execution fail as
/// out of step.
pub proof fn law_answers_keep_in_step(
    sql: Seq<char>,
    params: Seq<crate::json::JsonValue>,
    options: ExecOptions,
    replies: Seq<ReplyView>,
    reply: ReplyView,
)
    requires
        run(begun(sql, params, options), replies) matches StepView::Ask { state, request }
            && answers(request, columns_in(state.phase), reply),
    ensures
        run(begun(sql, params, options), replies.push(reply)) matches StepView::Done {
            result: Err(error),
        } ==> error !is Internal,
{
    law_time_limit_covers_the_statement(sql, params, options, replies);
    assert(replies.push(reply).drop_last() =~= replies);
}

/// The statement that is prepared is the one that was given, character for
/// character.
pub proof fn law_prepares_the_given_statement(
    sql: Seq<char>,
    params: Seq<crate::json::JsonValue>,
    options: ExecOptions,
    replies: Seq<ReplyView>,
)
    ensures
        run(begun(sql, params, options), replies) matches StepView::Ask {
            request: RequestView::Prepare { sql: text },
            ..
        } ==> text == sql,
{
    if replies.len() > 0 {
        lemma_history(sql, params, options, replies.drop_last());
    }
}

/// The statement is run with the parameters that were given: as many, in the same
/// order, each as the value that it is.
pub proof fn law_runs_with_the_given_parameters(
    sql: Seq<char>,
    params: Seq<crate::json::JsonValue>,
    options: ExecOptions,
    replies: Seq<ReplyView>,
)
    ensures
        run(begun(sql, params, options), replies) matches StepView::Ask {
            request: RequestView::Query { params: values },
            ..
        } ==> {
            &&& crate::db::bound_all(params) == Ok::<Seq<crate::db::SqlView>, Seq<char>>(values)
            &&& values.len() == params.len()
            &&& forall|i: int|
                0 <= i < params.len() ==> crate::db::carries(#[trigger] params[i], values[i])
        },
{
    if replies.len() > 0 {
        lemma_history(sql, params, options, replies.drop_last());
        crate::db::law_all_parameters_are_bound(params);
        if let StepView::Ask { request: RequestView::Query { params: values }, .. } = run(
            begun(sql, params, options),
            replies,
        ) {
            assert forall|i: int| 0 <= i < params.len() implies crate::db::carries(
                #[trigger] params[i],
                values[i],
            ) by {
                crate::db::law_bound_values_carry_their_parameter(params[i]);
            }
        }
    }
}

/// What is asked for follows from the replies: first whether a transaction is
/// open, then the preparing, then the running, then rows to the end, then for a
/// statement that writes the counters, then again whether a transaction is open,
/// and at last, where one is due, a checkpoint.
pub proof fn law_requests_follow_the_replies(
    sql: Seq<char>,
    params: Seq<crate::json::JsonValue>,
    options: ExecOptions,
    replies: Seq<ReplyView>,
)
    ensures
        run(begun(sql, params, options), replies) matches StepView::Ask { request, .. } ==> {
            if replies.len() == 0 {
                request is Autocommit
            } else if replies.len() == 1 {
                replies[0] is Autocommit && request is Prepare
            } else if replies.len() == 2 {
                (replies[1] matches ReplyView::Prepared(Ok(_))) && request is Query
            } else {
                match replies.last() {
                    ReplyView::Queried(Ok(())) => request is FetchRow,
                    ReplyView::Fetched(Ok(Some(_))) => request is FetchRow,
                    ReplyView::Fetched(Ok(None)) => if prepared_in(replies).readonly {
                        request is Autocommit
                    } else {
                        request is Counters
                    },
                    ReplyView::Counters { .. } => request is Autocommit,
                    ReplyView::Autocommit(open) => open && request is Checkpoint,
                    _ => false,
                }
            }
        },
{
    lemma_history(sql, params, options, replies);
    if replies.len() > 0 {
        lemma_history(sql, params, options, replies.drop_last());
    }
}

/// The checkpoint is run in the mode that was chosen.
pub proof fn law_checkpoint_is_run_in_its_mode(
    sql: Seq<char>,
    params: Seq<crate::json::JsonValue>,
    options: ExecOptions,
    replies: Seq<ReplyView>,
)
    ensures
        run(begun(sql, params, options), replies) matches StepView::Ask {
            request: RequestView::Checkpoint { sql: text },
            ..
        } ==> match options.checkpoint_mode {
            CheckpointMode::Truncate => text == "PRAGMA wal_checkpoint(TRUNCATE)"@,
            CheckpointMode::Restart => text == "PRAGMA wal_checkpoint(RESTART)"@,
            CheckpointMode::Full => text == "PRAGMA wal_checkpoint(FULL)"@,
            CheckpointMode::Passive => text == "PRAGMA wal_checkpoint(PASSIVE)"@,
            CheckpointMode::Off => false,
        },
{
    reveal_strlit("PRAGMA wal_checkpoint(");
    reveal_strlit(")");
    reveal_strlit("TRUNCATE");
    reveal_strlit("RESTART");
    reveal_strlit("FULL");
    reveal_strlit("PASSIVE");
    reveal_strlit("PRAGMA wal_checkpoint(TRUNCATE)");
    reveal_strlit("PRAGMA wal_checkpoint(RESTART)");
    reveal_strlit("PRAGMA wal_checkpoint(FULL)");
    reveal_strlit("PRAGMA wal_checkpoint(PASSIVE)");
    assert(checkpoint_sql("TRUNCATE"@) =~= "PRAGMA wal_checkpoint(TRUNCATE)"@);
    assert(checkpoint_sql("RESTART"@) =~= "PRAGMA wal_checkpoint(RESTART)"@);
    assert(checkpoint_sql("FULL"@) =~= "PRAGMA wal_checkpoint(FULL)"@);
    assert(checkpoint_sql("PASSIVE"@) =~= "PRAGMA wal_checkpoint(PASSIVE)"@);
    if replies.len() > 0 {
        lemma_history(sql, params, options, replies.drop_last());
    }
}

/// For a statement that writes rows, the count is the one that the database gave,
/// and the rowid is the one of its latest insertion.
pub proof fn law_writes_report_what_the_database_counted(
    sql: Seq<char>,
    params: Seq<crate::json::JsonValue>,
    options: ExecOptions,
    replies: Seq<ReplyView>,
    outcome: crate::db::OutcomeView,
)
    requires
        ends_with(begun(sql, params, options), replies, Ok(outcome)),
        !outcome.readonly,
    ensures
        replies[4 + outcome.rows.len() as int] matches ReplyView::Counters {
            changes,
            total_changes,
            last_insert_rowid,
        } && {
            &&& outcome.lastrowid == last_insert_rowid
            &&& !crate::db::changes_schema(sql) && total_changes != prepared_in(
                replies,
            ).total_changes && changes <= i64::MAX ==> outcome.rowcount == changes
            &&& !crate::db::changes_schema(sql) && total_changes != prepared_in(
                replies,
            ).total_changes && changes > i64::MAX ==> outcome.rowcount == i64::MAX
        },
{
    law_outcome_is_what_was_told(sql, params, options, replies, outcome);
}

/// An outcome has the columns of the prepared statement, and a row for every row
/// that was fetched.
pub proof fn law_outcome_has_every_column_and_row(
    sql: Seq<char>,
    params: Seq<crate::json::JsonValue>,
    options: ExecOptions,
    replies: Seq<ReplyView>,
    outcome: crate::db::OutcomeView,
)
    requires
        ends_with(begun(sql, params, options), replies, Ok(outcome)),
    ensures
        replies[1] matches ReplyView::Prepared(Ok(prepared)) && outcome.columns
            == prepared.columns && outcome.readonly == prepared.readonly,
        replies[3 + outcome.rows.len() as int] == ReplyView::Fetched(Ok(None)),
        forall|i: int|
            0 <= i < outcome.rows.len() ==> {
                &&& (#[trigger] replies[3 + i]) matches ReplyView::Fetched(
                    Ok(Some(FetchedView::Cells(cells))),
                )
                &&& cells.len() == outcome.columns.len()
                &&& match options.rows_format {
                    RowsFormat::Objects => outcome.rows[i] matches crate::db::RowView::Object(
                        members,
                    ) && crate::db::shows_by_name(outcome.columns, cells, members),
                    RowsFormat::Arrays => outcome.rows[i] matches crate::db::RowView::Array(
                        values,
                    ) && crate::db::shows_in_order(cells, values),
                }
            },
{
    law_outcome_is_what_was_told(sql, params, options, replies, outcome);
    assert forall|i: int| 0 <= i < outcome.rows.len() implies {
        &&& (#[trigger] replies[3 + i]) matches ReplyView::Fetched(
            Ok(Some(FetchedView::Cells(cells))),
        )
        &&& cells.len() == outcome.columns.len()
        &&& match options.rows_format {
            RowsFormat::Objects => outcome.rows[i] matches crate::db::RowView::Object(members)
                && crate::db::shows_by_name(outcome.columns, cells, members),
            RowsFormat::Arrays => outcome.rows[i] matches crate::db::RowView::Array(values)
                && crate::db::shows_in_order(cells, values),
        }
    } by {
        let cells = replies[3 + i]->Fetched_0->Ok_0->Some_0->Cells_0;
        crate::db::law_rows_show_every_cell(options.rows_format, outcome.columns, cells);
    }
}

/// `shown` tells that `failure` was met while doing what `doing` says.
pub open spec fn tells_of(
    doing: Seq<char>,
    failure: Seq<crate::failure::CauseView>,
    shown: Seq<crate::failure::CauseView>,
) -> bool {
    &&& shown.len() == failure.len() + 1
    &&& shown[0].message == doing
    &&& !shown[0].interrupted
    &&& forall|i: int| 0 <= i < failure.len() ==> shown[i + 1] == #[trigger] failure[i]
}

/// `shown` has `message` as its only cause.
pub open spec fn tells_only(message: Seq<char>, shown: Seq<crate::failure::CauseView>) -> bool {
    shown.len() == 1 && shown[0].message == message && !shown[0].interrupted
}

/// `shown` is what is reported for a `failure` of the statement, met while doing
/// what `doing` says: an interruption is the time limit, where there is one.
pub open spec fn tells_of_statement(
    options: ExecOptions,
    doing: Seq<char>,
    failure: Seq<crate::failure::CauseView>,
    shown: Seq<crate::failure::CauseView>,
) -> bool {
    let stopped = exists|i: int| 0 <= i < failure.len() && (#[trigger] failure[i]).interrupted;
    match options.query_timeout_ms {
        Some(ms) => if stopped {
            tells_only("query timeout exceeded "@ + text::decimal(ms as nat) + "ms"@, shown)
        } else {
            tells_of(doing, failure, shown)
        },
        None => tells_of(doing, failure, shown),
    }
}

/// What is reported for a failure of the statement.
proof fn lemma_reported(
    options: ExecOptions,
    doing: Seq<char>,
    failure: Seq<crate::failure::CauseView>,
)
    ensures
        tells_of_statement(
            options,
            doing,
            failure,
            reported(options, crate::failure::in_context(doing, failure)),
        ),
{
    crate::failure::law_context_keeps_interruption(doing, failure);
    let whole = crate::failure::in_context(doing, failure);
    assert forall|i: int| 0 <= i < failure.len() implies whole[i + 1] == #[trigger] failure[i] by {}
}

/// Every failure ends the statement at once, as an error of the statement that
/// says what was being done and then what the database said.
pub proof fn law_failures_are_passed_on(
    sql: Seq<char>,
    params: Seq<crate::json::JsonValue>,
    options: ExecOptions,
    replies: Seq<ReplyView>,
    reply: ReplyView,
)
    requires
        run(begun(sql, params, options), replies) is Ask,
    ensures
        ({
            let request = run(begun(sql, params, options), replies)->request;
            let next = run(begun(sql, params, options), replies.push(reply));
            let full = options.max_rows matches Some(cap) && replies.len() - 3 >= cap;
            match (request, reply) {
                (RequestView::Prepare { .. }, ReplyView::Prepared(Err(f))) => {
                    &&& next matches StepView::Done {
                        result: Err(crate::db::ExecErrorView::Sql(shown)),
                    }
                    &&& tells_of_statement(options, "prepare statement"@, f, shown)
                },
                (RequestView::Query { .. }, ReplyView::Queried(Err(f))) => {
                    &&& next matches StepView::Done {
                        result: Err(crate::db::ExecErrorView::Sql(shown)),
                    }
                    &&& tells_of_statement(options, "execute statement"@, f, shown)
                },
                (RequestView::FetchRow, ReplyView::Fetched(Err(f))) => {
                    &&& next matches StepView::Done {
                        result: Err(crate::db::ExecErrorView::Sql(shown)),
                    }
                    &&& tells_of_statement(options, "fetch next row"@, f, shown)
                },
                (
                    RequestView::FetchRow,
                    ReplyView::Fetched(Ok(Some(FetchedView::Unreadable { column, failure }))),
                ) => {
                    &&& next matches StepView::Done {
                        result: Err(crate::db::ExecErrorView::Sql(shown)),
                    }
                    &&& if full {
                        tells_only(
                            "result exceeded RUSTYHIP_MAX_ROWS="@ + text::decimal(
                                options.max_rows->0 as nat,
                            ) + "; refusing to materialize more rows"@,
                            shown,
                        )
                    } else {
                        tells_of_statement(
                            options,
                            "read column "@ + text::decimal(column as nat),
                            failure,
                            shown,
                        )
                    }
                },
                _ => true,
            }
        }),
{
    lemma_history(sql, params, options, replies);
    law_time_limit_covers_the_statement(sql, params, options, replies);
    assert(replies.push(reply).drop_last() =~= replies);
    match reply {
        ReplyView::Prepared(Err(f)) => lemma_reported(options, "prepare statement"@, f),
        ReplyView::Queried(Err(f)) => lemma_reported(options, "execute statement"@, f),
        ReplyView::Fetched(Err(f)) => lemma_reported(options, "fetch next row"@, f),
        ReplyView::Fetched(Ok(Some(FetchedView::Unreadable { column, failure }))) => lemma_reported(
            options,
            "read column "@ + text::decimal(column as nat),
            failure,
        ),
        _ => {},
    }
}

/// The row that comes when the cap is reached ends the statement, with an error
/// that names the cap; a row that comes before that does not.
pub proof fn law_cap_is_enforced(
    sql: Seq<char>,
    params: Seq<crate::json::JsonValue>,
    options: ExecOptions,
    replies: Seq<ReplyView>,
    cells: Seq<crate::db::SqlView>,
)
    requires
        run(begun(sql, params, options), replies) matches StepView::Ask { request, .. }
            && request is FetchRow,
        cells.len() == prepared_in(replies).columns.len(),
    ensures
        ({
            let row = ReplyView::Fetched(Ok(Some(FetchedView::Cells(cells))));
            let next = run(begun(sql, params, options), replies.push(row));
            if options.max_rows matches Some(cap) && replies.len() - 3 >= cap {
                &&& next matches StepView::Done {
                    result: Err(crate::db::ExecErrorView::Sql(shown)),
                }
                &&& tells_only(
                    "result exceeded RUSTYHIP_MAX_ROWS="@ + text::decimal(
                        options.max_rows->0 as nat,
                    ) + "; refusing to materialize more rows"@,
                    shown,
                )
            } else {
                next matches StepView::Ask { request, .. } && request is FetchRow
            }
        }),
{
    lemma_history(sql, params, options, replies);
    law_time_limit_covers_the_statement(sql, params, options, replies);
    let row = ReplyView::Fetched(Ok(Some(FetchedView::Cells(cells))));
    assert(replies.push(row).drop_last() =~= replies);
}

/// A checkpoint that fails, or that the database could not complete, is reported
/// as a failure of the checkpoint, with what the database said of it; one that
/// completed lets the outcome through.
pub proof fn law_checkpoint_decides(
    sql: Seq<char>,
    params: Seq<crate::json::JsonValue>,
    options: ExecOptions,
    replies: Seq<ReplyView>,
    reply: Result<CheckpointStats, Seq<crate::failure::CauseView>>,
    asked: Seq<char>,
)
    requires
        run(begun(sql, params, options), replies) matches StepView::Ask { request, .. } && request
            == (RequestView::Checkpoint { sql: asked }),
    ensures
        ({
            let next = run(
                begun(sql, params, options),
                replies.push(ReplyView::Checkpointed(reply)),
            );
            match reply {
                Err(f) => {
                    &&& next matches StepView::Done {
                        result: Err(crate::db::ExecErrorView::Checkpoint(shown)),
                    }
                    &&& tells_of("run "@ + asked, f, shown)
                },
                Ok(stats) => if stats.busy == 0 {
                    next matches StepView::Done { result: Ok(_) }
                } else {
                    &&& next matches StepView::Done {
                        result: Err(crate::db::ExecErrorView::Checkpoint(shown)),
                    }
                    &&& shown.len() == 1
                    &&& "PRAGMA "@ + shown[0].message == asked + " could not complete (busy="@
                        + text::signed_decimal(stats.busy as int) + ", log="@
                        + text::signed_decimal(stats.log as int) + ", checkpointed="@
                        + text::signed_decimal(stats.checkpointed as int) + ")"@
                },
            }
        }),
{
    lemma_history(sql, params, options, replies);
    law_time_limit_covers_the_statement(sql, params, options, replies);
    let sent = ReplyView::Checkpointed(reply);
    assert(replies.push(sent).drop_last() =~= replies);
    lemma_history(sql, params, options, replies.drop_last());
    reveal_strlit("PRAGMA ");
    reveal_strlit("PRAGMA wal_checkpoint(");
    reveal_strlit("wal_checkpoint(");
    reveal_strlit(")");
    reveal_strlit(") could not complete (busy=");
    reveal_strlit(" could not complete (busy=");
    if let Err(f) = reply {
        let whole = crate::failure::in_context("run "@ + asked, f);
        assert forall|i: int| 0 <= i < f.len() implies whole[i + 1] == #[trigger] f[i] by {}
    }
    if let Ok(stats) = reply {
        if let StepView::Ask { state, .. } = run(begun(sql, params, options), replies) {
            if let PhaseView::Flush { argument, .. } = state.phase {
                assert("PRAGMA "@ + busy_message(argument, stats) =~= asked
                    + " could not complete (busy="@ + text::signed_decimal(stats.busy as int)
                    + ", log="@ + text::signed_decimal(stats.log as int) + ", checkpointed="@
                    + text::signed_decimal(stats.checkpointed as int) + ")"@);
            }
        }
    }
}

/// An array or object among the parameters ends the statement before it is
/// prepared, with an error that shows the first of them.
pub proof fn law_parameters_that_cannot_be_bound(
    sql: Seq<char>,
    params: Seq<crate::json::JsonValue>,
    options: ExecOptions,
    i: int,
    shown: Seq<char>,
    autocommit: bool,
)
    requires
        0 <= i < params.len(),
        params[i] == crate::json::JsonValue::Composite(shown),
        forall|j: int| 0 <= j < i ==> (#[trigger] params[j]) !is Composite,
    ensures
        run(
            begun(sql, params, options),
            seq![ReplyView::Autocommit(autocommit)],
        ) matches StepView::Done { result: Err(crate::db::ExecErrorView::Sql(failure)) }
            && tells_only("cannot bind "@ + shown + " as SQL parameter"@, failure),
{
    crate::db::law_only_composites_cannot_be_bound(params);
    crate::db::law_all_parameters_are_bound(params);
    crate::db::law_bound_values_carry_their_parameter(params[i]);
    assert forall|j: int| 0 <= j < i implies crate::db::bound(#[trigger] params[j]) is Ok by {
        crate::db::law_bound_values_carry_their_parameter(params[j]);
    }
    let replies = seq![ReplyView::Autocommit(autocommit)];
    assert(replies.drop_last() =~= Seq::empty());
    assert(run(begun(sql, params, options), Seq::empty()) == begun(sql, params, options));
}

/// A reply to something else than was asked ends the execution as a failure of
/// whoever holds the connection, and no other reply does.
pub proof fn law_other_replies_are_refused(
    sql: Seq<char>,
    params: Seq<crate::json::JsonValue>,
    options: ExecOptions,
    replies: Seq<ReplyView>,
    reply: ReplyView,
)
    requires
        run(begun(sql, params, options), replies) is Ask,
    ensures
        ({
            let request = run(begun(sql, params, options), replies)->request;
            let next = run(begun(sql, params, options), replies.push(reply));
            let fits = match request {
                RequestView::Autocommit => reply is Autocommit,
                RequestView::Prepare { .. } => reply is Prepared,
                RequestView::Query { .. } => reply is Queried,
                RequestView::FetchRow => match reply {
                    ReplyView::Fetched(Ok(Some(FetchedView::Cells(cells)))) => cells.len()
                        == prepared_in(replies).columns.len(),
                    _ => reply is Fetched,
                },
                RequestView::Counters => reply is Counters,
                RequestView::Checkpoint { .. } => reply is Checkpointed,
            };
            if fits {
                !(next matches StepView::Done {
                    result: Err(crate::db::ExecErrorView::Internal(_)),
                })
            } else {
                &&& next matches StepView::Done {
                    result: Err(crate::db::ExecErrorView::Internal(shown)),
                }
                &&& tells_only("reply does not answer the request"@, shown)
            }
        }),
{
    lemma_history(sql, params, options, replies);
    law_time_limit_covers_the_statement(sql, params, options, replies);
    assert(replies.push(reply).drop_last() =~= replies);
}

/// The time limit runs while the statement is prepared, run and fetched and its
/// counters are read; it does not run while the connection tells of transactions,
/// nor during the checkpoint.
pub proof fn law_what_is_timed(request: RequestView)
    ensures
        request.timed() <==> match request {
            RequestView::Autocommit => false,
            RequestView::Prepare { .. } => true,
            RequestView::Query { .. } => true,
            RequestView::FetchRow => true,
            RequestView::Counters => true,
            RequestView::Checkpoint { .. } => false,
        },
{
}

/// The views leave nothing out: what is said of the view of a request, a reply or
/// a step is said of that itself.
pub proof fn law_views_of_steps(
    request: Request,
    reply: Reply,
    prepared: Prepared,
    fetched: Fetched,
    step: Step,
)
    ensures
        match request {
            Request::Autocommit => request@ is Autocommit,
            Request::Prepare { sql } => request@ == (RequestView::Prepare { sql: sql@ }),
            Request::Query { params } => request@ matches RequestView::Query { params: views } && {
                &&& views.len() == params@.len()
                &&& forall|i: int| 0 <= i < params@.len() ==> #[trigger] views[i] == params@[i]@
            },
            Request::FetchRow => request@ is FetchRow,
            Request::Counters => request@ is Counters,
            Request::Checkpoint { sql } => request@ == (RequestView::Checkpoint { sql: sql@ }),
        },
        match reply {
            Reply::Autocommit(on) => reply@ == ReplyView::Autocommit(on),
            Reply::Prepared(Ok(p)) => reply@ == ReplyView::Prepared(Ok(p@)),
            Reply::Prepared(Err(f)) => reply@ == ReplyView::Prepared(Err(f@)),
            Reply::Queried(Ok(())) => reply@ == ReplyView::Queried(Ok(())),
            Reply::Queried(Err(f)) => reply@ == ReplyView::Queried(Err(f@)),
            Reply::Fetched(Ok(Some(row))) => reply@ == ReplyView::Fetched(Ok(Some(row@))),
            Reply::Fetched(Ok(None)) => reply@ == ReplyView::Fetched(Ok(None)),
            Reply::Fetched(Err(f)) => reply@ == ReplyView::Fetched(Err(f@)),
            Reply::Counters {
                changes: c,
                total_changes: t,
                last_insert_rowid: r,
            } => reply@ == (ReplyView::Counters {
                changes: c,
                total_changes: t,
                last_insert_rowid: r,
            }),
            Reply::Checkpointed(Ok(stats)) => reply@ == ReplyView::Checkpointed(Ok(stats)),
            Reply::Checkpointed(Err(f)) => reply@ == ReplyView::Checkpointed(Err(f@)),
        },
        prepared@.readonly == prepared.readonly,
        prepared@.columns.len() == prepared.columns@.len(),
        forall|i: int|
            0 <= i < prepared.columns@.len() ==> #[trigger] prepared@.columns[i]
                == prepared.columns@[i]@,
        prepared@.total_changes == prepared.total_changes,
        match fetched {
            Fetched::Cells(cells) => fetched@ matches FetchedView::Cells(views) && {
                &&& views.len() == cells@.len()
                &&& forall|i: int| 0 <= i < cells@.len() ==> #[trigger] views[i] == cells@[i]@
            },
            Fetched::Unreadable { column: c, failure: f } => fetched@ == (FetchedView::Unreadable {
                column: c,
                failure: f@,
            }),
        },
        match step {
            Step::Ask { execution: e, request: r } => step@ == (StepView::Ask {
                state: e@,
                request: r@,
            }),
            Step::Done { result: Ok(o) } => step@ == (StepView::Done { result: Ok(o@) }),
            Step::Done { result: Err(e) } => step@ == (StepView::Done { result: Err(e@) }),
        },
{
}

/// The steps that come of `replies`, one after the other, as the functions of an
/// [`Execution`] give them.
pub open spec fn steps_follow(steps: Seq<Step>, replies: Seq<Reply>) -> bool {
    &&& steps.len() == replies.len() + 1
    &&& forall|i: int|
        0 <= i < replies.len() ==> ((#[trigger] steps[i]) matches Step::Ask { execution, .. }
            && call_ensures(Execution::step, (execution, replies[i]), steps[i + 1]))
}

/// What the replies stand for.
pub open spec fn reply_values(replies: Seq<Reply>) -> Seq<ReplyView> {
    replies.map_values(|r: Reply| r@)
}

/// What holds of [`run`] holds of the steps that the functions of an execution give.
pub proof fn law_steps_are_runs(
    sql: String,
    params: Vec<Json>,
    options: ExecOptions,
    steps: Seq<Step>,
    replies: Seq<Reply>,
)
    requires
        steps_follow(steps, replies),
        call_ensures(Execution::begin, (sql, params, options), steps[0]),
    ensures
        steps.last()@ == run(
            begun(sql@, crate::json::json_values(params@), options),
            reply_values(replies),
        ),
    decreases replies.len(),
{
    if replies.len() > 0 {
        let n = replies.len() as int;
        let earlier = steps.drop_last();
        let before = replies.drop_last();
        assert forall|i: int| 0 <= i < before.len() implies ((#[trigger] earlier[i]) matches Step::Ask {
            execution,
            ..
        } && call_ensures(Execution::step, (execution, before[i]), earlier[i + 1])) by {
            assert(steps[i] == earlier[i]);
        }
        law_steps_are_runs(sql, params, options, earlier, before);
        assert(reply_values(replies).drop_last() =~= reply_values(before));
        assert(reply_values(replies).last() == replies[n - 1]@);
        assert(steps[n - 1] == earlier.last());
    }
}

/// The database is asked to prepare the statement that was given and to run it with
/// the parameters that were given, whatever it has replied until then.
pub proof fn law_given_statement_reaches_the_database(
    sql: String,
    params: Vec<Json>,
    options: ExecOptions,
    steps: Seq<Step>,
    replies: Seq<Reply>,
)
    requires
        steps_follow(steps, replies),
        call_ensures(Execution::begin, (sql, params, options), steps[0]),
    ensures
        match steps.last() {
            Step::Ask { request: Request::Prepare { sql: asked }, .. } => asked@ == sql@,
            Step::Ask { request: Request::Query { params: values }, .. } => values@.len()
                == params@.len() && forall|i: int|
                0 <= i < params@.len() ==> crate::db::carries(
                    (#[trigger] params@[i])@,
                    values@[i]@,
                ),
            _ => true,
        },
{
    law_steps_are_runs(sql, params, options, steps, replies);
    let given = crate::json::json_values(params@);
    let told = reply_values(replies);
    law_prepares_the_given_statement(sql@, given, options, told);
    law_runs_with_the_given_parameters(sql@, given, options, told);
    if let Step::Ask { request: Request::Query { params: values }, .. } = steps.last() {
        let views = crate::db::sql_values(values@);
        assert(views.len() == values@.len());
        assert forall|i: int| 0 <= i < params@.len() implies crate::db::carries(
            (#[trigger] params@[i])@,
            values@[i]@,
        ) by {
            assert(given[i] == params@[i]@);
            assert(views[i] == values@[i]@);
        }
    }
}

/// The time limit is that of the options, and runs while the statement does.
pub proof fn law_limits_as_values(
    sql: String,
    params: Vec<Json>,
    options: ExecOptions,
    steps: Seq<Step>,
    replies: Seq<Reply>,
    ms: Option<u64>,
    timed: bool,
)
    requires
        steps_follow(steps, replies),
        call_ensures(Execution::begin, (sql, params, options), steps[0]),
    ensures
        steps.last() matches Step::Ask { execution, request } ==> {
            &&& call_ensures(Execution::time_limit_ms, (&execution,), ms) ==> ms
                == options.query_timeout_ms
            &&& call_ensures(Request::is_timed, (&request,), timed) ==> (timed <==> request
                !is Autocommit && request !is Checkpoint)
        },
{
    law_steps_are_runs(sql, params, options, steps, replies);
    lemma_history(sql@, crate::json::json_values(params@), options, reply_values(replies));
}

} // verus!
