//! Executing a prepared agent read in the database's own read-only session.
use vstd::pervasive::unreached;
use vstd::prelude::*;

use crate::error::AppError;
use crate::model::QueryKind;
use crate::services::effects::{ask, done, Effect, HistoryRecord, Note, Settlement, Step, Turn};
use crate::services::query::agent::{
    agent_audit, agent_history, audit_row, history_row, AgentQueryInvocationOrigin,
};
use crate::services::query::agent_prepare::PreparedAgentQueryRun;
use crate::services::query::desktop_run::ResultSize;
use crate::text::Text;

verus! {

/// A read that succeeded and left a durable record.
#[derive(PartialEq, Eq)]
pub struct AgentQueryRun {
    pub connection_id: u128,
    pub connection_name: String,
    pub plan_id: u128,
    pub planning_decision: String,
    pub query_run_id: u128,
    pub sql: String,
    pub size: ResultSize,
}

/// A read that failed after the target was connected.
#[derive(PartialEq, Eq)]
pub struct AgentQueryExecutionFailure {
    pub error: AppError,
}

impl AgentQueryExecutionFailure {
    /// The error, which stays where it is.
    pub fn error(&self) -> (r: &AppError)
        ensures
            *r == self.error,
    {
        &self.error
    }

    /// The failure as an application error.
    pub fn into_error(self) -> (r: AppError)
        ensures
            r == self.error,
    {
        self.error
    }
}

/// A read that succeeded but whose record could not be kept.
#[derive(PartialEq, Eq)]
pub struct AgentQueryConsentFailure {
    pub error: AppError,
}

impl AgentQueryConsentFailure {
    /// The error, which stays where it is.
    pub fn error(&self) -> (r: &AppError)
        ensures
            *r == self.error,
    {
        &self.error
    }

    /// The failure as an application error.
    pub fn into_error(self) -> (r: AppError)
        ensures
            r == self.error,
    {
        self.error
    }
}

/// Why a prepared read did not succeed.
#[derive(PartialEq, Eq)]
pub enum AgentQueryRunError {
    /// The target could not be connected.
    Connection(AppError),
    /// The read itself failed.
    Execution(AgentQueryExecutionFailure),
    /// The read succeeded, but its record could not be kept.
    ConsentHandlePersistence(AgentQueryConsentFailure),
}

/// How executing a read ends.
pub type AgentExecuteEnd = Result<AgentQueryRun, AgentQueryRunError>;

/// Where executing a read stands: what it is waiting to hear.
#[derive(PartialEq, Eq)]
pub enum AgentExecute {
    Connection { run: PreparedAgentQueryRun },
    Backend { run: PreparedAgentQueryRun },
    Execution { run: PreparedAgentQueryRun },
    History { run: PreparedAgentQueryRun, size: ResultSize },
    Receipt { run: PreparedAgentQueryRun, size: ResultSize, query_run_id: u128 },
}

/// What executing a read asks of the outside world.
#[derive(PartialEq, Eq)]
pub enum AgentExecuteRequest {
    /// Connect the pinned connection for reading.
    Connect,
    /// Take the connection's SQL backend.
    OpenBackend,
    /// Run the SQL in a read-only session and fetch at most so many rows.
    RunReadOnly { sql: String, max_rows: u64 },
    /// Write this row to the history, under a fresh id.
    PersistHistory { record: HistoryRecord },
    /// Mark the operation succeeded.
    Succeed { operation_id: u128, duration_ms: u64, query_run_id: u128, row_count: u64 },
}

/// What the outside world answers.
#[derive(PartialEq, Eq)]
pub enum AgentExecuteReply {
    Connection(Result<(), AppError>),
    Backend(Result<(), AppError>),
    Execution(Result<ResultSize, AppError>),
    /// The id of the history row.
    History(Result<u128, AppError>),
    Receipt(Result<(), AppError>),
}

/// A step of executing a read.
pub type AgentExecuteStep = Step<AgentExecute, AgentExecuteRequest, AgentExecuteEnd>;

/// What follows an answer while a read is executed.
pub type AgentExecuteTurn = Turn<AgentExecute, AgentExecuteRequest, AgentExecuteEnd>;

impl PreparedAgentQueryRun {
    /// The audit row of the run.
    pub open spec fn audit(self, error: Option<Note>) -> Effect {
        agent_audit(
            self.pin.connection_id,
            self.pin.profile.engine,
            self.event_context.sql,
            QueryKind::Read,
            self.origin.run_action(),
            error,
        )
    }

    /// The history row of a run that succeeded.
    pub open spec fn success_row(self, size: ResultSize) -> HistoryRecord {
        agent_history(
            self.pin.connection_id,
            self.event_context.sql,
            "ok",
            Some(size.row_count as i64),
            Some(size.duration_ms as i64),
            None,
        )
    }

    /// The end of the plan's claim.
    pub open spec fn failed_because(self, reason: &'static str, error: AppError) -> Effect {
        Effect::Settle {
            operation_id: self.event_context.plan_id,
            settlement: Settlement::Failed { reason, error: Some(error) },
        }
    }

    /// What a run leaves behind that failed before it had a result.
    pub open spec fn failure_effects(self, reason: &'static str, error: AppError) -> Seq<Effect> {
        seq![
            self.audit(Some(Note::Error(error))),
            Effect::History(
                agent_history(
                    self.pin.connection_id,
                    self.event_context.sql,
                    "error",
                    None,
                    None,
                    Some(Note::Error(error)),
                ),
            ),
            self.failed_because(reason, error),
        ]
    }

    fn audit_run(&self, error: Option<Note>) -> (r: Effect)
        ensures
            r == self.audit(error),
    {
        audit_row(
            self.pin.connection_id,
            self.pin.profile.engine,
            &self.event_context.sql,
            QueryKind::Read,
            self.origin.run_audit_action(),
            error,
        )
    }

    fn settle(&self, reason: &'static str, error: &AppError) -> (r: Effect)
        ensures
            r == self.failed_because(reason, *error),
    {
        Effect::Settle {
            operation_id: self.event_context.plan_id,
            settlement: Settlement::Failed { reason, error: Some(error.duplicate()) },
        }
    }

    fn record_failure(&self, reason: &'static str, error: &AppError) -> (r: Vec<Effect>)
        ensures
            r@ == self.failure_effects(reason, *error),
    {
        let mut effects: Vec<Effect> = Vec::new();
        effects.push(self.audit_run(Some(Note::Error(error.duplicate()))));
        effects.push(
            Effect::History(
                history_row(
                    self.pin.connection_id,
                    &self.event_context.sql,
                    "error",
                    None,
                    None,
                    Some(Note::Error(error.duplicate())),
                ),
            ),
        );
        effects.push(self.settle(reason, error));
        assert(effects@ =~= self.failure_effects(reason, *error));
        effects
    }
}

/// What follows once the target was connected.
pub open spec fn after_connection(run: PreparedAgentQueryRun, reply: Result<(), AppError>) -> (
    Seq<Effect>,
    AgentExecuteTurn,
) {
    match reply {
        Err(error) => (
            run.failure_effects("target_connection_failed", error),
            Turn::Done(Err(AgentQueryRunError::Connection(error))),
        ),
        Ok(_) => (
            Seq::empty(),
            Turn::Ask {
                state: AgentExecute::Backend { run },
                request: AgentExecuteRequest::OpenBackend,
            },
        ),
    }
}

fn take_connection(run: PreparedAgentQueryRun, reply: Result<(), AppError>) -> (r: AgentExecuteStep)
    ensures
        r.says(after_connection(run, reply)),
{
    match reply {
        Err(error) => Step {
            effects: run.record_failure("target_connection_failed", &error),
            turn: Turn::Done(Err(AgentQueryRunError::Connection(error))),
        },
        Ok(_) => ask(AgentExecute::Backend { run }, AgentExecuteRequest::OpenBackend),
    }
}

/// What follows once the backend was opened.
pub open spec fn after_backend(run: PreparedAgentQueryRun, reply: Result<(), AppError>) -> (
    Seq<Effect>,
    AgentExecuteTurn,
) {
    match reply {
        Err(error) => (
            run.failure_effects("target_pool_unavailable", error),
            Turn::Done(Err(AgentQueryRunError::Execution(AgentQueryExecutionFailure { error }))),
        ),
        Ok(_) => (
            Seq::empty(),
            Turn::Ask {
                state: AgentExecute::Execution { run },
                request: AgentExecuteRequest::RunReadOnly {
                    sql: run.event_context.sql,
                    max_rows: run.max_rows,
                },
            },
        ),
    }
}

fn take_backend(run: PreparedAgentQueryRun, reply: Result<(), AppError>) -> (r: AgentExecuteStep)
    ensures
        r.says(after_backend(run, reply)),
{
    match reply {
        Err(error) => Step {
            effects: run.record_failure("target_pool_unavailable", &error),
            turn: Turn::Done(
                Err(AgentQueryRunError::Execution(AgentQueryExecutionFailure { error })),
            ),
        },
        Ok(_) => {
            let sql = run.event_context.sql.clone();
            let max_rows = run.max_rows;
            ask(
                AgentExecute::Execution { run },
                AgentExecuteRequest::RunReadOnly { sql, max_rows },
            )
        },
    }
}

/// What follows once the read was executed.
pub open spec fn after_execution(
    run: PreparedAgentQueryRun,
    reply: Result<ResultSize, AppError>,
) -> (Seq<Effect>, AgentExecuteTurn) {
    match reply {
        Err(error) => (
            run.failure_effects("read_execution_failed", error),
            Turn::Done(Err(AgentQueryRunError::Execution(AgentQueryExecutionFailure { error }))),
        ),
        Ok(size) => (
            seq![run.audit(None)],
            Turn::Ask {
                state: AgentExecute::History { run, size },
                request: AgentExecuteRequest::PersistHistory { record: run.success_row(size) },
            },
        ),
    }
}

fn take_execution(run: PreparedAgentQueryRun, reply: Result<ResultSize, AppError>) -> (r:
    AgentExecuteStep)
    ensures
        r.says(after_execution(run, reply)),
{
    match reply {
        Err(error) => Step {
            effects: run.record_failure("read_execution_failed", &error),
            turn: Turn::Done(
                Err(AgentQueryRunError::Execution(AgentQueryExecutionFailure { error })),
            ),
        },
        Ok(size) => {
            let mut effects: Vec<Effect> = Vec::new();
            effects.push(run.audit_run(None));
            assert(effects@ =~= seq![run.audit(None)]);
            let record = history_row(
                run.pin.connection_id,
                &run.event_context.sql,
                "ok",
                Some(size.row_count as i64),
                Some(size.duration_ms as i64),
                None,
            );
            Step {
                effects,
                turn: Turn::Ask {
                    state: AgentExecute::History { run, size },
                    request: AgentExecuteRequest::PersistHistory { record },
                },
            }
        },
    }
}

/// What follows once the history row was written.
pub open spec fn after_history(
    run: PreparedAgentQueryRun,
    size: ResultSize,
    reply: Result<u128, AppError>,
) -> (Seq<Effect>, AgentExecuteTurn) {
    match reply {
        Err(error) => (
            seq![run.failed_because("history_receipt_failed", error)],
            Turn::Done(
                Err(
                    AgentQueryRunError::ConsentHandlePersistence(
                        AgentQueryConsentFailure { error },
                    ),
                ),
            ),
        ),
        Ok(query_run_id) => (
            Seq::empty(),
            Turn::Ask {
                state: AgentExecute::Receipt { run, size, query_run_id },
                request: AgentExecuteRequest::Succeed {
                    operation_id: run.event_context.plan_id,
                    duration_ms: size.duration_ms,
                    query_run_id,
                    row_count: size.row_count,
                },
            },
        ),
    }
}

fn take_history(run: PreparedAgentQueryRun, size: ResultSize, reply: Result<u128, AppError>) -> (r:
    AgentExecuteStep)
    ensures
        r.says(after_history(run, size, reply)),
{
    match reply {
        Err(error) => {
            let mut effects: Vec<Effect> = Vec::new();
            effects.push(run.settle("history_receipt_failed", &error));
            assert(effects@ =~= seq![run.failed_because("history_receipt_failed", error)]);
            Step {
                effects,
                turn: Turn::Done(
                    Err(
                        AgentQueryRunError::ConsentHandlePersistence(
                            AgentQueryConsentFailure { error },
                        ),
                    ),
                ),
            }
        },
        Ok(query_run_id) => {
            let request = AgentExecuteRequest::Succeed {
                operation_id: run.event_context.plan_id,
                duration_ms: size.duration_ms,
                query_run_id,
                row_count: size.row_count,
            };
            ask(AgentExecute::Receipt { run, size, query_run_id }, request)
        },
    }
}

/// What follows once the success was recorded.
pub open spec fn after_receipt(
    run: PreparedAgentQueryRun,
    size: ResultSize,
    query_run_id: u128,
    reply: Result<(), AppError>,
) -> (Seq<Effect>, AgentExecuteTurn) {
    match reply {
        Err(error) => (
            seq![run.failed_because("operation_receipt_failed", error)],
            Turn::Done(
                Err(
                    AgentQueryRunError::ConsentHandlePersistence(
                        AgentQueryConsentFailure { error },
                    ),
                ),
            ),
        ),
        Ok(_) => (
            Seq::empty(),
            Turn::Done(
                Ok(
                    AgentQueryRun {
                        connection_id: run.event_context.connection_id,
                        connection_name: run.event_context.connection_name,
                        plan_id: run.event_context.plan_id,
                        planning_decision: run.decision,
                        query_run_id,
                        sql: run.event_context.sql,
                        size,
                    },
                ),
            ),
        ),
    }
}

fn take_receipt(
    run: PreparedAgentQueryRun,
    size: ResultSize,
    query_run_id: u128,
    reply: Result<(), AppError>,
) -> (r: AgentExecuteStep)
    ensures
        r.says(after_receipt(run, size, query_run_id, reply)),
{
    match reply {
        Err(error) => {
            let mut effects: Vec<Effect> = Vec::new();
            effects.push(run.settle("operation_receipt_failed", &error));
            assert(effects@ =~= seq![run.failed_because("operation_receipt_failed", error)]);
            Step {
                effects,
                turn: Turn::Done(
                    Err(
                        AgentQueryRunError::ConsentHandlePersistence(
                            AgentQueryConsentFailure { error },
                        ),
                    ),
                ),
            }
        },
        Ok(_) => done(
            Ok(
                AgentQueryRun {
                    connection_id: run.event_context.connection_id,
                    connection_name: run.event_context.connection_name,
                    plan_id: run.event_context.plan_id,
                    planning_decision: run.decision,
                    query_run_id,
                    sql: run.event_context.sql,
                    size,
                },
            ),
        ),
    }
}

impl AgentExecute {
    /// Whether `reply` answers what is awaited.
    pub open spec fn awaits(self, reply: AgentExecuteReply) -> bool {
        match self {
            AgentExecute::Connection { .. } => reply is Connection,
            AgentExecute::Backend { .. } => reply is Backend,
            AgentExecute::Execution { .. } => reply is Execution,
            AgentExecute::History { .. } => reply is History,
            AgentExecute::Receipt { .. } => reply is Receipt,
        }
    }

    /// The effects and the turn that follow `reply`.
    pub open spec fn after(self, reply: AgentExecuteReply) -> (Seq<Effect>, AgentExecuteTurn) {
        match self {
            AgentExecute::Connection { run } => after_connection(run, reply->Connection_0),
            AgentExecute::Backend { run } => after_backend(run, reply->Backend_0),
            AgentExecute::Execution { run } => after_execution(run, reply->Execution_0),
            AgentExecute::History { run, size } => after_history(run, size, reply->History_0),
            AgentExecute::Receipt { run, size, query_run_id } => after_receipt(
                run,
                size,
                query_run_id,
                reply->Receipt_0,
            ),
        }
    }

    /// Begins to execute a prepared read.
    pub fn start(run: PreparedAgentQueryRun) -> (r: AgentExecuteStep)
        ensures
            r.says(
                (
                    Seq::empty(),
                    Turn::Ask {
                        state: AgentExecute::Connection { run },
                        request: AgentExecuteRequest::Connect,
                    },
                ),
            ),
    {
        ask(AgentExecute::Connection { run }, AgentExecuteRequest::Connect)
    }

    /// Takes the answer to the last question.
    pub fn advance(self, reply: AgentExecuteReply) -> (r: AgentExecuteStep)
        requires
            self.awaits(reply),
        ensures
            r.says(self.after(reply)),
    {
        match (self, reply) {
            (
                AgentExecute::Connection { run },
                AgentExecuteReply::Connection(reply),
            ) => take_connection(run, reply),
            (AgentExecute::Backend { run }, AgentExecuteReply::Backend(reply)) => take_backend(
                run,
                reply,
            ),
            (
                AgentExecute::Execution { run },
                AgentExecuteReply::Execution(reply),
            ) => take_execution(run, reply),
            (
                AgentExecute::History { run, size },
                AgentExecuteReply::History(reply),
            ) => take_history(run, size, reply),
            (
                AgentExecute::Receipt { run, size, query_run_id },
                AgentExecuteReply::Receipt(reply),
            ) => take_receipt(run, size, query_run_id, reply),
            _ => unreached(),
        }
    }
}

/// Where executing a read stands after these answers, if it is still going on and every
/// one of them answered what was asked.
pub open spec fn state_after(
    run: PreparedAgentQueryRun,
    replies: Seq<AgentExecuteReply>,
) -> Option<AgentExecute>
    decreases replies.len(),
{
    if replies.len() == 0 {
        Some(AgentExecute::Connection { run })
    } else {
        match state_after(run, replies.drop_last()) {
            None => None,
            Some(state) => if state.awaits(replies.last()) {
                match state.after(replies.last()).1 {
                    Turn::Ask { state, .. } => Some(state),
                    Turn::Done(_) => None,
                }
            } else {
                None
            },
        }
    }
}

/// The run that a state is executing.
pub open spec fn run_of(state: AgentExecute) -> PreparedAgentQueryRun {
    match state {
        AgentExecute::Connection { run } => run,
        AgentExecute::Backend { run } => run,
        AgentExecute::Execution { run } => run,
        AgentExecute::History { run, .. } => run,
        AgentExecute::Receipt { run, .. } => run,
    }
}

/// A read keeps to its preparation: whatever is answered, the run stays the one that was
/// prepared, and its SQL is run at most once.
pub proof fn the_run_stays_the_prepared_one(
    run: PreparedAgentQueryRun,
    replies: Seq<AgentExecuteReply>,
)
    ensures
        state_after(run, replies) matches Some(state) ==> {
            &&& run_of(state) == run
            &&& state is Execution ==> replies.len() == 2
            &&& state is Backend ==> replies.len() == 1
            &&& state is Connection ==> replies.len() == 0
            &&& state is History ==> replies.len() == 3
            &&& state is Receipt ==> replies.len() == 4
        },
    decreases replies.len(),
{
    if replies.len() > 0 {
        the_run_stays_the_prepared_one(run, replies.drop_last());
    }
}

/// Every read ends in one of two ways: as a success that the history and the operation
/// both record, or with the plan's claim settled as failed, with the error that is also
/// the answer.
pub proof fn a_read_succeeds_or_is_settled(
    run: PreparedAgentQueryRun,
    replies: Seq<AgentExecuteReply>,
    last: AgentExecuteReply,
)
    requires
        state_after(run, replies) matches Some(state) && state.awaits(last) && state.after(
            last,
        ).1 is Done,
    ensures
        ({
            let (effects, turn) = state_after(run, replies)->0.after(last);
            match turn->Done_0 {
                Ok(finished) => {
                    &&& replies.len() == 4
                    &&& replies[3] == AgentExecuteReply::History(Ok(finished.query_run_id))
                    &&& last matches AgentExecuteReply::Receipt(Ok(_))
                    &&& finished.plan_id == run.event_context.plan_id
                    &&& finished.sql == run.event_context.sql
                    &&& finished.planning_decision == run.decision
                },
                Err(error) => {
                    &&& effects.len() > 0
                    &&& effects.last() matches Effect::Settle {
                        operation_id,
                        settlement: Settlement::Failed { error: Some(cause), .. },
                    }
                    &&& operation_id == run.event_context.plan_id
                    &&& match error {
                        AgentQueryRunError::Connection(error) => cause == error,
                        AgentQueryRunError::Execution(failure) => cause == failure.error,
                        AgentQueryRunError::ConsentHandlePersistence(failure) => cause
                            == failure.error,
                    }
                },
            }
        }),
{
    the_run_stays_the_prepared_one(run, replies);
    if replies.len() == 4 {
        the_run_stays_the_prepared_one(run, replies.drop_last());
        assert(replies.drop_last().len() == 3);
    }
}

/// What executing a read does after each answer, told by what was prepared and the
/// answers alone: the SQL that is run, recorded and told is the prepared one, with the
/// prepared cap on rows; a success is recorded with the size that was fetched and under
/// the id of its history row; and a failure is recorded and settled with its own error.
#[verifier::spinoff_prover]
#[verifier::rlimit(40)]
pub proof fn reads_run_what_was_prepared(
    run: PreparedAgentQueryRun,
    replies: Seq<AgentExecuteReply>,
    last: AgentExecuteReply,
)
    requires
        state_after(run, replies) matches Some(state) && state.awaits(last),
    ensures
        ({
            let all = replies.push(last);
            let (effects, turn) = state_after(run, replies)->0.after(last);
            &&& match last {
                AgentExecuteReply::Connection(Ok(_)) => turn matches Turn::Ask {
                    request: AgentExecuteRequest::OpenBackend,
                    ..
                },
                AgentExecuteReply::Backend(Ok(_)) => {
                    &&& turn matches Turn::Ask {
                        request: AgentExecuteRequest::RunReadOnly { sql, max_rows },
                        ..
                    }
                    &&& sql == run.event_context.sql
                    &&& max_rows == run.max_rows
                },
                AgentExecuteReply::Execution(Ok(size)) => {
                    &&& turn matches Turn::Ask {
                        request: AgentExecuteRequest::PersistHistory { record },
                        ..
                    }
                    &&& record.connection_id == run.pin.connection_id
                    &&& record.sql == run.event_context.sql
                    &&& record.kind == QueryKind::Read
                    &&& record.status == "ok"
                    &&& record.row_count == Some(size.row_count as i64)
                    &&& record.duration_ms == Some(size.duration_ms as i64)
                    &&& record.error is None
                    &&& record.origin == Text::Plain("agent")
                    &&& effects.len() == 1 && effects[0] is Audit
                },
                AgentExecuteReply::History(Ok(id)) => {
                    &&& all[2] matches AgentExecuteReply::Execution(Ok(size))
                    &&& turn matches Turn::Ask {
                        request: AgentExecuteRequest::Succeed {
                            operation_id,
                            duration_ms,
                            query_run_id,
                            row_count,
                        },
                        ..
                    }
                    &&& operation_id == run.event_context.plan_id
                    &&& duration_ms == size.duration_ms
                    &&& row_count == size.row_count
                    &&& query_run_id == id
                },
                AgentExecuteReply::Receipt(Ok(_)) => {
                    &&& all[2] matches AgentExecuteReply::Execution(Ok(size))
                    &&& all[3] matches AgentExecuteReply::History(Ok(id))
                    &&& turn matches Turn::Done(Ok(told))
                    &&& told.connection_id == run.event_context.connection_id
                    &&& told.connection_name == run.event_context.connection_name
                    &&& told.plan_id == run.event_context.plan_id
                    &&& told.planning_decision == run.decision
                    &&& told.query_run_id == id
                    &&& told.sql == run.event_context.sql
                    &&& told.size == size
                },
                AgentExecuteReply::Connection(Err(error)) => {
                    &&& turn matches Turn::Done(Err(AgentQueryRunError::Connection(told)))
                    &&& told == error
                    &&& effects.len() == 3 && effects[0] is Audit && effects[1] is History
                    &&& effects[2] matches Effect::Settle { settlement, .. } && settlement == (
                    Settlement::Failed { reason: "target_connection_failed", error: Some(error) })
                },
                AgentExecuteReply::Backend(Err(error)) => {
                    &&& turn matches Turn::Done(Err(AgentQueryRunError::Execution(failure)))
                    &&& failure.error == error
                    &&& effects.len() == 3 && effects[0] is Audit && effects[1] is History
                    &&& effects[2] matches Effect::Settle { settlement, .. } && settlement == (
                    Settlement::Failed { reason: "target_pool_unavailable", error: Some(error) })
                },
                AgentExecuteReply::Execution(Err(error)) => {
                    &&& turn matches Turn::Done(Err(AgentQueryRunError::Execution(failure)))
                    &&& failure.error == error
                    &&& effects.len() == 3 && effects[0] is Audit && effects[1] is History
                    &&& effects[2] matches Effect::Settle { settlement, .. } && settlement == (
                    Settlement::Failed { reason: "read_execution_failed", error: Some(error) })
                },
                AgentExecuteReply::History(Err(error)) => {
                    &&& turn matches Turn::Done(
                        Err(AgentQueryRunError::ConsentHandlePersistence(failure)),
                    )
                    &&& failure.error == error
                    &&& effects.len() == 1
                    &&& effects[0] matches Effect::Settle { settlement, .. } && settlement == (
                    Settlement::Failed { reason: "history_receipt_failed", error: Some(error) })
                },
                AgentExecuteReply::Receipt(Err(error)) => {
                    &&& turn matches Turn::Done(
                        Err(AgentQueryRunError::ConsentHandlePersistence(failure)),
                    )
                    &&& failure.error == error
                    &&& effects.len() == 1
                    &&& effects[0] matches Effect::Settle { settlement, .. } && settlement == (
                    Settlement::Failed { reason: "operation_receipt_failed", error: Some(error) })
                },
            }
            &&& forall|i: int|
                0 <= i < effects.len() ==> match #[trigger] effects[i] {
                    Effect::Audit(row) => {
                        &&& row.connection_id == run.pin.connection_id
                        &&& row.engine == run.pin.profile.engine
                        &&& row.sql == run.event_context.sql
                        &&& row.kind == QueryKind::Read
                        &&& row.action == Text::Plain(
                            match run.origin {
                                AgentQueryInvocationOrigin::Mcp => "mcp:run_query",
                                AgentQueryInvocationOrigin::Cli => "cli:run_query",
                            },
                        )
                        &&& row.approved_by is None && row.affected_estimate is None
                        &&& row.error == match last {
                            AgentExecuteReply::Connection(Err(error)) => Some(Note::Error(error)),
                            AgentExecuteReply::Backend(Err(error)) => Some(Note::Error(error)),
                            AgentExecuteReply::Execution(Err(error)) => Some(Note::Error(error)),
                            _ => None,
                        }
                    },
                    Effect::History(row) => {
                        &&& row.connection_id == run.pin.connection_id
                        &&& row.sql == run.event_context.sql
                        &&& row.kind == QueryKind::Read
                        &&& row.status == "error"
                        &&& row.row_count is None && row.duration_ms is None
                        &&& row.origin == Text::Plain("agent")
                        &&& effects[0] matches Effect::Audit(audit) && row.error == audit.error
                    },
                    Effect::Settle { operation_id, .. } => operation_id
                        == run.event_context.plan_id,
                    _ => false,
                }
        }),
{
    the_run_stays_the_prepared_one(run, replies);
    if replies.len() == 4 {
        the_run_stays_the_prepared_one(run, replies.drop_last());
        assert(replies.drop_last().last() == replies[2]);
    }
    let all = replies.push(last);
    assert(forall|k: int| 0 <= k < replies.len() ==> all[k] == replies[k]);
}

} // verus!
