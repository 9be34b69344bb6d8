//! Running one SQL operation that the desktop proposed earlier.
//!
//! The run is named by its operation id alone. Everything else (the SQL, the
//! connection, the policy, the approval) is loaded again and compared with what the
//! proposal froze before the target is touched.
use vstd::pervasive::unreached;
use vstd::prelude::*;

use crate::error::AppError;
use crate::model::{Classification, ConnectionAccess, Engine, QueryKind, SafetySettings};
use crate::operations::{OperationKind, OperationRecord, PinnedConnection, PolicySnapshot};
use crate::services::effects::{
    ask, done, duplicate_note, AuditRecord, Effect, HistoryRecord, Note, Settlement, Step, Turn,
};
use crate::services::operation_service::{
    capture_policy, ensure_operation_scope, in_operation_scope, policy_of, scope_changed,
};
use crate::services::query::shared::{kind_of, operation_kind, GateDecision};
use crate::text::{begins_with, same_text, starts_with, Text};

verus! {

/// What a proposal froze: the SQL, and where it came from.
#[derive(PartialEq, Eq)]
pub struct DesktopSqlPayload {
    pub sql: String,
    pub history_origin: String,
}

/// The size of a result set.
#[derive(Debug, Clone, Copy, PartialEq, Eq, Structural)]
pub struct ResultSize {
    pub row_count: u64,
    pub duration_ms: u64,
}

/// What executing a statement came to.
#[derive(Debug, Clone, Copy, PartialEq, Eq, Structural)]
pub struct ExecSummary {
    pub result: Option<ResultSize>,
    pub affected: Option<u64>,
    pub committed: bool,
}

impl ExecSummary {
    /// The rows of the result set, else the rows that the statement affected.
    pub open spec fn rows(self) -> Option<i64> {
        match self.result {
            Some(result) => Some(result.row_count as i64),
            None => match self.affected {
                Some(affected) => Some(affected as i64),
                None => None,
            },
        }
    }

    /// How long producing the result set took.
    pub open spec fn duration(self) -> Option<i64> {
        match self.result {
            Some(result) => Some(result.duration_ms as i64),
            None => None,
        }
    }

    /// Computes [`Self::rows`].
    pub fn row_count(&self) -> (r: Option<i64>)
        ensures
            r == self.rows(),
    {
        match self.result {
            Some(result) => Some(result.row_count as i64),
            None => match self.affected {
                Some(affected) => Some(affected as i64),
                None => None,
            },
        }
    }

    /// Computes [`Self::duration`].
    pub fn duration_ms(&self) -> (r: Option<i64>)
        ensures
            r == self.duration(),
    {
        match self.result {
            Some(result) => Some(result.duration_ms as i64),
            None => None,
        }
    }
}

/// A run refused by policy.
#[derive(PartialEq, Eq)]
pub struct DesktopSqlRunBlocked {
    pub reason: Text,
}

impl DesktopSqlRunBlocked {
    /// The refusal as an application error.
    pub fn into_error(self) -> (r: AppError)
        ensures
            r == (AppError::Blocked { reason: self.reason }),
    {
        AppError::Blocked { reason: self.reason }
    }
}

/// A run that failed after the target was connected.
#[derive(PartialEq, Eq)]
pub struct DesktopSqlExecutionFailure {
    pub error: AppError,
}

impl DesktopSqlExecutionFailure {
    /// The failure as an application error.
    pub fn into_error(self) -> (r: AppError)
        ensures
            r == self.error,
    {
        self.error
    }
}

/// Why a run did not succeed.
#[derive(PartialEq, Eq)]
pub enum DesktopSqlRunError {
    Blocked(DesktopSqlRunBlocked),
    Application(AppError),
    Execution(DesktopSqlExecutionFailure),
}

impl DesktopSqlRunError {
    /// The error that the failure stands for.
    pub open spec fn error(self) -> AppError {
        match self {
            DesktopSqlRunError::Blocked(blocked) => AppError::Blocked { reason: blocked.reason },
            DesktopSqlRunError::Application(error) => error,
            DesktopSqlRunError::Execution(failure) => failure.error,
        }
    }

    /// The failure as an application error.
    pub fn into_error(self) -> (r: AppError)
        ensures
            r == self.error(),
    {
        match self {
            DesktopSqlRunError::Blocked(blocked) => blocked.into_error(),
            DesktopSqlRunError::Application(error) => error,
            DesktopSqlRunError::Execution(failure) => failure.into_error(),
        }
    }
}

/// How a run ends.
pub type DesktopSqlRunEnd = Result<ExecSummary, DesktopSqlRunError>;

/// A policy refusal with a fixed wording.
pub open spec fn run_blocked(reason: &'static str) -> DesktopSqlRunEnd {
    Err(DesktopSqlRunError::Blocked(DesktopSqlRunBlocked { reason: Text::Plain(reason) }))
}

/// What every check has been passed for.
#[derive(PartialEq, Eq)]
pub struct CheckedRun {
    pub operation_id: u128,
    pub actor_id: String,
    pub payload: DesktopSqlPayload,
    pub pin: PinnedConnection,
    pub settings: SafetySettings,
    pub classification: Classification,
}

impl CheckedRun {
    /// Whether the statement is anything but a read.
    pub open spec fn writes(self) -> bool {
        self.classification.spec_is_write()
    }

    /// The access that the statement needs.
    pub open spec fn access(self) -> ConnectionAccess {
        if self.writes() {
            ConnectionAccess::Write
        } else {
            ConnectionAccess::Read
        }
    }

    /// The audit row that precedes a write.
    pub open spec fn attempt(self) -> AuditRecord {
        AuditRecord {
            connection_id: self.pin.connection_id,
            engine: self.pin.profile.engine,
            sql: self.payload.sql,
            kind: self.classification.kind,
            action: Text::Plain("execute:attempt"),
            approved_by: Some(self.actor_id),
            affected_estimate: None,
            error: None,
        }
    }

    /// The audit row and the history row that close a run.
    pub open spec fn closing_rows(
        self,
        action: &'static str,
        status: &'static str,
        rows: Option<i64>,
        duration: Option<i64>,
        error: Option<Note>,
    ) -> Seq<Effect> {
        seq![
            Effect::Audit(
                AuditRecord {
                    connection_id: self.pin.connection_id,
                    engine: self.pin.profile.engine,
                    sql: self.payload.sql,
                    kind: self.classification.kind,
                    action: Text::Plain(action),
                    approved_by: None,
                    affected_estimate: rows,
                    error,
                },
            ),
            Effect::History(
                HistoryRecord {
                    connection_id: self.pin.connection_id,
                    sql: self.payload.sql,
                    kind: self.classification.kind,
                    status,
                    row_count: rows,
                    duration_ms: duration,
                    error,
                    origin: Text::Owned(self.payload.history_origin),
                },
            ),
        ]
    }

    /// The rows that close a run which failed with `error`.
    pub open spec fn failure_rows(self, error: AppError) -> Seq<Effect> {
        self.closing_rows("error", "error", None, None, Some(Note::Error(error)))
    }

    /// The end of the operation's claim.
    pub open spec fn settled(self, settlement: Settlement) -> Seq<Effect> {
        seq![Effect::Settle { operation_id: self.operation_id, settlement }]
    }

    fn is_write(&self) -> (r: bool)
        ensures
            r == self.writes(),
    {
        self.classification.is_write()
    }

    fn access_needed(&self) -> (r: ConnectionAccess)
        ensures
            r == self.access(),
    {
        if self.is_write() {
            ConnectionAccess::Write
        } else {
            ConnectionAccess::Read
        }
    }

    fn record(
        &self,
        effects: &mut Vec<Effect>,
        action: &'static str,
        status: &'static str,
        rows: Option<i64>,
        duration: Option<i64>,
        error: Option<Note>,
    )
        ensures
            final(effects)@ == old(effects)@ + self.closing_rows(
                action,
                status,
                rows,
                duration,
                error,
            ),
    {
        effects.push(
            Effect::Audit(
                AuditRecord {
                    connection_id: self.pin.connection_id,
                    engine: self.pin.profile.engine,
                    sql: self.payload.sql.clone(),
                    kind: self.classification.kind,
                    action: Text::Plain(action),
                    approved_by: None,
                    affected_estimate: rows,
                    error: duplicate_note(&error),
                },
            ),
        );
        effects.push(
            Effect::History(
                HistoryRecord {
                    connection_id: self.pin.connection_id,
                    sql: self.payload.sql.clone(),
                    kind: self.classification.kind,
                    status,
                    row_count: rows,
                    duration_ms: duration,
                    error,
                    origin: Text::Owned(self.payload.history_origin.clone()),
                },
            ),
        );
    }

    fn record_failure(&self, effects: &mut Vec<Effect>, error: &AppError)
        ensures
            final(effects)@ == old(effects)@ + self.failure_rows(*error),
    {
        self.record(effects, "error", "error", None, None, Some(Note::Error(error.duplicate())));
    }

    fn settle(&self, effects: &mut Vec<Effect>, settlement: Settlement)
        ensures
            final(effects)@ == old(effects)@ + self.settled(settlement),
    {
        effects.push(Effect::Settle { operation_id: self.operation_id, settlement });
    }
}

/// Where a run stands: what it is waiting to hear.
#[derive(PartialEq, Eq)]
pub enum DesktopSqlRun {
    Operation { operation_id: u128 },
    Payload { operation_id: u128, planned: OperationRecord },
    Pin { operation_id: u128, planned: OperationRecord, payload: DesktopSqlPayload },
    Safety {
        operation_id: u128,
        planned: OperationRecord,
        payload: DesktopSqlPayload,
        pin: PinnedConnection,
    },
    Policy {
        operation_id: u128,
        planned: OperationRecord,
        payload: DesktopSqlPayload,
        pin: PinnedConnection,
        settings: SafetySettings,
    },
    Classification {
        operation_id: u128,
        planned: OperationRecord,
        payload: DesktopSqlPayload,
        pin: PinnedConnection,
        settings: SafetySettings,
    },
    Gate { run: CheckedRun },
    Claim { run: CheckedRun },
    Attempt { run: CheckedRun },
    Connection { run: CheckedRun },
    Backend { run: CheckedRun },
    Execution { run: CheckedRun },
    Receipt { run: CheckedRun, summary: ExecSummary },
}

/// What a run asks of the outside world.
#[derive(PartialEq, Eq)]
pub enum DesktopSqlRunRequest {
    /// Load the operation.
    LoadOperation { operation_id: u128 },
    /// Decode the payload of the operation just loaded.
    DecodePayload,
    /// Look the connection up in the current scope and hold on to that scope.
    PinConnection { connection_id: u128 },
    /// Load the safety settings.
    LoadSafety { connection_id: u128 },
    /// Compute the revision of this policy.
    HashPolicy { snapshot: PolicySnapshot },
    /// Classify the SQL.
    Classify { sql: String, engine: Engine },
    /// Ask the safety gate.
    Decide { settings: SafetySettings, classification: Classification },
    /// Claim the operation, which nobody can do twice.
    Claim { operation_id: u128 },
    /// Write this row to the audit chain.
    RecordAttempt { record: AuditRecord },
    /// Connect the pinned connection.
    Connect { access: ConnectionAccess },
    /// Take the connection's SQL backend.
    OpenBackend,
    /// Execute the SQL, such that it can be cancelled under the operation's id, and with the
    /// claim's grant where it writes.
    Execute {
        sql: String,
        engine: Engine,
        classification: Classification,
        settings: SafetySettings,
        granted: bool,
        operation_id: u128,
    },
    /// Mark the operation succeeded.
    Succeed {
        operation_id: u128,
        committed: bool,
        duration_ms: Option<i64>,
        row_count: Option<i64>,
    },
}

/// What the outside world answers.
#[derive(PartialEq, Eq)]
pub enum DesktopSqlRunReply {
    Operation(Result<OperationRecord, AppError>),
    Payload(Result<DesktopSqlPayload, AppError>),
    Pin(Result<PinnedConnection, AppError>),
    Safety(Result<SafetySettings, AppError>),
    Policy(Result<String, AppError>),
    Classification(Result<Classification, AppError>),
    Gate(GateDecision),
    Claim(Result<(), AppError>),
    /// The error comes as it is printed.
    Attempt(Result<(), String>),
    Connection(Result<(), AppError>),
    Backend(Result<(), AppError>),
    /// The error comes together with how it is printed.
    Execution(Result<ExecSummary, (AppError, String)>),
    Receipt(Result<(), AppError>),
}

/// A step of a run.
pub type DesktopSqlRunStep = Step<DesktopSqlRun, DesktopSqlRunRequest, DesktopSqlRunEnd>;

/// What follows an answer in a run.
pub type DesktopSqlRunTurn = Turn<DesktopSqlRun, DesktopSqlRunRequest, DesktopSqlRunEnd>;

/// Whether an operation is one that the desktop proposes as SQL.
pub open spec fn is_desktop_sql(planned: OperationRecord) -> bool {
    &&& planned.payload_schema_version == 1
    &&& exists|kind: QueryKind| planned.kind == #[trigger] kind_of(kind)
}

fn supports(planned: &OperationRecord) -> (r: bool)
    ensures
        r == is_desktop_sql(*planned),
{
    proof {
        assert(kind_of(QueryKind::Read) == OperationKind::ReadQuery);
        assert(kind_of(QueryKind::Write) == OperationKind::WriteSql);
        assert(kind_of(QueryKind::Ddl) == OperationKind::Ddl);
        assert(kind_of(QueryKind::Privilege) == OperationKind::Privilege);
    }
    planned.payload_schema_version == 1 && (planned.kind == OperationKind::ReadQuery || planned.kind
        == OperationKind::WriteSql || planned.kind == OperationKind::Ddl || planned.kind
        == OperationKind::Privilege)
}

/// Whether the executor stopped a statement because a person asked it to.
pub open spec fn was_cancelled(error: AppError) -> bool {
    error matches AppError::Safety(text) && text@ == "query cancelled"@
}

/// Whether the executor stopped a statement because it took too long.
pub open spec fn timed_out(error: AppError) -> bool {
    error matches AppError::Safety(text) && begins_with(text@, "query timed out after "@)
}

/// Computes [`was_cancelled`].
pub fn is_cancelled(error: &AppError) -> (r: bool)
    ensures
        r == was_cancelled(*error),
{
    match error {
        AppError::Safety(text) => {
            let text = text.render();
            same_text(text.as_str(), "query cancelled")
        },
        _ => false,
    }
}

/// Computes [`timed_out`].
pub fn is_timed_out(error: &AppError) -> (r: bool)
    ensures
        r == timed_out(*error),
{
    match error {
        AppError::Safety(text) => {
            let text = text.render();
            starts_with(text.as_str(), "query timed out after ")
        },
        _ => false,
    }
}

/// The error that a failed execution is reported as. A write that was cut short, or
/// whose outcome the executor could not confirm, is reported as unknown: it may have
/// taken effect.
pub open spec fn reported_error(writes: bool, error: AppError, printed: String) -> AppError {
    if writes && (was_cancelled(error) || timed_out(error)) {
        AppError::OutcomeUnknown(
            Text::WithText(
                "write execution was interrupted before rollback or commit could be confirmed: ",
                printed,
                "",
            ),
        )
    } else {
        error
    }
}

/// Computes [`reported_error`].
pub fn report_error(writes: bool, error: AppError, printed: String) -> (r: AppError)
    ensures
        r == reported_error(writes, error, printed),
{
    if writes && (is_cancelled(&error) || is_timed_out(&error)) {
        AppError::OutcomeUnknown(
            Text::WithText(
                "write execution was interrupted before rollback or commit could be confirmed: ",
                printed,
                "",
            ),
        )
    } else {
        error
    }
}

/// How the operation of a failed execution is settled.
pub open spec fn failure_settlement(cancelled: bool, reported: AppError) -> Settlement {
    if reported is OutcomeUnknown {
        Settlement::OutcomeUnknown { reason: "target_outcome_unconfirmed", error: None }
    } else if cancelled {
        Settlement::Cancelled { reason: "user_cancelled" }
    } else {
        Settlement::FailedWithKind(reported)
    }
}

fn settle_failure(cancelled: bool, reported: &AppError) -> (r: Settlement)
    ensures
        r == failure_settlement(cancelled, *reported),
{
    match reported {
        AppError::OutcomeUnknown(_) => Settlement::OutcomeUnknown {
            reason: "target_outcome_unconfirmed",
            error: None,
        },
        _ => {
            if cancelled {
                Settlement::Cancelled { reason: "user_cancelled" }
            } else {
                Settlement::FailedWithKind(reported.duplicate())
            }
        },
    }
}

fn refuse(reason: &'static str) -> (r: DesktopSqlRunStep)
    ensures
        r.effects@ == Seq::<Effect>::empty(),
        r.turn == DesktopSqlRunTurn::Done(run_blocked(reason)),
{
    done(Err(DesktopSqlRunError::Blocked(DesktopSqlRunBlocked { reason: Text::Plain(reason) })))
}

/// What follows once the operation was looked up.
pub open spec fn after_operation(
    operation_id: u128,
    reply: Result<OperationRecord, AppError>,
) -> (Seq<Effect>, DesktopSqlRunTurn) {
    (
        Seq::<Effect>::empty(),
        match reply {
            Err(error) => Turn::Done(Err(DesktopSqlRunError::Application(error))),
            Ok(planned) => if is_desktop_sql(planned) {
                Turn::Ask {
                    state: DesktopSqlRun::Payload { operation_id, planned },
                    request: DesktopSqlRunRequest::DecodePayload,
                }
            } else {
                Turn::Done(
                    Err(
                        DesktopSqlRunError::Application(
                            AppError::Blocked {
                                reason: Text::Plain(
                                    "operation is not a supported desktop SQL proposal",
                                ),
                            },
                        ),
                    ),
                )
            },
        },
    )
}

fn take_operation(
    operation_id: u128,
    reply: Result<OperationRecord, AppError>,
) -> (r: DesktopSqlRunStep)
    ensures
        r.says(after_operation(operation_id, reply)),
{
    match reply {
        Err(error) => done(Err(DesktopSqlRunError::Application(error))),
        Ok(planned) => {
            if supports(&planned) {
                ask(
                    DesktopSqlRun::Payload { operation_id, planned },
                    DesktopSqlRunRequest::DecodePayload,
                )
            } else {
                done(
                    Err(
                        DesktopSqlRunError::Application(
                            AppError::Blocked {
                                reason: Text::Plain(
                                    "operation is not a supported desktop SQL proposal",
                                ),
                            },
                        ),
                    ),
                )
            }
        },
    }
}

/// What follows once the payload was decoded.
pub open spec fn after_payload(
    operation_id: u128,
    planned: OperationRecord,
    reply: Result<DesktopSqlPayload, AppError>,
) -> (Seq<Effect>, DesktopSqlRunTurn) {
    (
        Seq::<Effect>::empty(),
        match reply {
            Err(error) => Turn::Done(Err(DesktopSqlRunError::Application(error))),
            Ok(payload) => Turn::Ask {
                state: DesktopSqlRun::Pin { operation_id, planned, payload },
                request: DesktopSqlRunRequest::PinConnection {
                    connection_id: planned.connection_id,
                },
            },
        },
    )
}

fn take_payload(
    operation_id: u128,
    planned: OperationRecord,
    reply: Result<DesktopSqlPayload, AppError>,
) -> (r: DesktopSqlRunStep)
    ensures
        r.says(after_payload(operation_id, planned, reply)),
{
    match reply {
        Err(error) => done(Err(DesktopSqlRunError::Application(error))),
        Ok(payload) => {
            let connection_id = planned.connection_id;
            ask(
                DesktopSqlRun::Pin { operation_id, planned, payload },
                DesktopSqlRunRequest::PinConnection { connection_id },
            )
        },
    }
}

/// What follows once the connection was looked up.
pub open spec fn after_pin(
    operation_id: u128,
    planned: OperationRecord,
    payload: DesktopSqlPayload,
    reply: Result<PinnedConnection, AppError>,
) -> (Seq<Effect>, DesktopSqlRunTurn) {
    (
        Seq::<Effect>::empty(),
        match reply {
            Err(error) => Turn::Done(Err(DesktopSqlRunError::Application(error))),
            Ok(pin) => if in_operation_scope(planned, pin) {
                Turn::Ask {
                    state: DesktopSqlRun::Safety { operation_id, planned, payload, pin },
                    request: DesktopSqlRunRequest::LoadSafety {
                        connection_id: pin.connection_id,
                    },
                }
            } else {
                Turn::Done(Err(DesktopSqlRunError::Application(scope_changed())))
            },
        },
    )
}

fn take_pin(
    operation_id: u128,
    planned: OperationRecord,
    payload: DesktopSqlPayload,
    reply: Result<PinnedConnection, AppError>,
) -> (r: DesktopSqlRunStep)
    ensures
        r.says(after_pin(operation_id, planned, payload, reply)),
{
    match reply {
        Err(error) => done(Err(DesktopSqlRunError::Application(error))),
        Ok(pin) => match ensure_operation_scope(&planned, &pin) {
            Err(error) => done(Err(DesktopSqlRunError::Application(error))),
            Ok(_) => {
                let connection_id = pin.connection_id;
                ask(
                    DesktopSqlRun::Safety { operation_id, planned, payload, pin },
                    DesktopSqlRunRequest::LoadSafety { connection_id },
                )
            },
        },
    }
}

/// What follows once the safety settings were loaded.
pub open spec fn after_safety(
    operation_id: u128,
    planned: OperationRecord,
    payload: DesktopSqlPayload,
    pin: PinnedConnection,
    reply: Result<SafetySettings, AppError>,
) -> (Seq<Effect>, DesktopSqlRunTurn) {
    (
        Seq::<Effect>::empty(),
        match reply {
            Err(error) => Turn::Done(Err(DesktopSqlRunError::Application(error))),
            Ok(settings) => Turn::Ask {
                state: DesktopSqlRun::Policy {
                    operation_id,
                    planned,
                    payload,
                    pin,
                    settings,
                },
                request: DesktopSqlRunRequest::HashPolicy {
                    snapshot: policy_of(pin, Some(settings)),
                },
            },
        },
    )
}

fn take_safety(
    operation_id: u128,
    planned: OperationRecord,
    payload: DesktopSqlPayload,
    pin: PinnedConnection,
    reply: Result<SafetySettings, AppError>,
) -> (r: DesktopSqlRunStep)
    ensures
        r.says(after_safety(operation_id, planned, payload, pin, reply)),
{
    match reply {
        Err(error) => done(Err(DesktopSqlRunError::Application(error))),
        Ok(settings) => {
            let snapshot = capture_policy(&pin, &settings);
            ask(
                DesktopSqlRun::Policy { operation_id, planned, payload, pin, settings },
                DesktopSqlRunRequest::HashPolicy { snapshot },
            )
        },
    }
}

/// What follows once the current policy was hashed.
pub open spec fn after_policy(
    operation_id: u128,
    planned: OperationRecord,
    payload: DesktopSqlPayload,
    pin: PinnedConnection,
    settings: SafetySettings,
    reply: Result<String, AppError>,
) -> (Seq<Effect>, DesktopSqlRunTurn) {
    (
        Seq::<Effect>::empty(),
        match reply {
            Err(error) => Turn::Done(Err(DesktopSqlRunError::Application(error))),
            Ok(revision) => if revision@ == planned.policy_revision@ {
                Turn::Ask {
                    state: DesktopSqlRun::Classification {
                        operation_id,
                        planned,
                        payload,
                        pin,
                        settings,
                    },
                    request: DesktopSqlRunRequest::Classify {
                        sql: payload.sql,
                        engine: pin.profile.engine,
                    },
                }
            } else {
                Turn::Done(
                    run_blocked(
                        "the connection or safety policy changed; create a new proposal",
                    ),
                )
            },
        },
    )
}

fn take_policy(
    operation_id: u128,
    planned: OperationRecord,
    payload: DesktopSqlPayload,
    pin: PinnedConnection,
    settings: SafetySettings,
    reply: Result<String, AppError>,
) -> (r: DesktopSqlRunStep)
    ensures
        r.says(after_policy(operation_id, planned, payload, pin, settings, reply)),
{
    match reply {
        Err(error) => done(Err(DesktopSqlRunError::Application(error))),
        Ok(revision) => {
            if same_text(revision.as_str(), planned.policy_revision.as_str()) {
                let sql = payload.sql.clone();
                let engine = pin.profile.engine;
                ask(
                    DesktopSqlRun::Classification {
                        operation_id,
                        planned,
                        payload,
                        pin,
                        settings,
                    },
                    DesktopSqlRunRequest::Classify { sql, engine },
                )
            } else {
                refuse("the connection or safety policy changed; create a new proposal")
            }
        },
    }
}

/// What follows once the SQL was classified.
pub open spec fn after_classification(
    operation_id: u128,
    planned: OperationRecord,
    payload: DesktopSqlPayload,
    pin: PinnedConnection,
    settings: SafetySettings,
    reply: Result<Classification, AppError>,
) -> (Seq<Effect>, DesktopSqlRunTurn) {
    (
        Seq::<Effect>::empty(),
        match reply {
            Err(error) => Turn::Done(Err(DesktopSqlRunError::Application(error))),
            Ok(classification) => if kind_of(classification.kind) != planned.kind {
                Turn::Done(
                    run_blocked(
                        "stored SQL classification no longer matches its immutable proposal",
                    ),
                )
            } else if !(if classification.spec_is_write() {
                pin.profile.workspace_access.spec_can_write()
            } else {
                pin.profile.workspace_access.spec_can_read()
            }) {
                Turn::Done(
                    run_blocked("your workspace role no longer grants this database access"),
                )
            } else {
                Turn::Ask {
                    state: DesktopSqlRun::Gate {
                        run: CheckedRun {
                            operation_id,
                            actor_id: planned.actor_id,
                            payload,
                            pin,
                            settings,
                            classification,
                        },
                    },
                    request: DesktopSqlRunRequest::Decide { settings, classification },
                }
            },
        },
    )
}

fn take_classification(
    operation_id: u128,
    planned: OperationRecord,
    payload: DesktopSqlPayload,
    pin: PinnedConnection,
    settings: SafetySettings,
    reply: Result<Classification, AppError>,
) -> (r: DesktopSqlRunStep)
    ensures
        r.says(after_classification(operation_id, planned, payload, pin, settings, reply)),
{
    match reply {
        Err(error) => done(Err(DesktopSqlRunError::Application(error))),
        Ok(classification) => {
            if operation_kind(classification.kind) != planned.kind {
                return refuse(
                    "stored SQL classification no longer matches its immutable proposal",
                );
            }
            let access_allowed = if classification.is_write() {
                pin.profile.workspace_access.can_write()
            } else {
                pin.profile.workspace_access.can_read()
            };
            if !access_allowed {
                return refuse("your workspace role no longer grants this database access");
            }
            ask(
                DesktopSqlRun::Gate {
                    run: CheckedRun {
                        operation_id,
                        actor_id: planned.actor_id,
                        payload,
                        pin,
                        settings,
                        classification,
                    },
                },
                DesktopSqlRunRequest::Decide { settings, classification },
            )
        },
    }
}

/// What follows once the safety check has decided.
pub open spec fn after_gate(
    run: CheckedRun,
    reply: GateDecision,
) -> (Seq<Effect>, DesktopSqlRunTurn) {
    match reply {
        GateDecision::Block { reason } => (
            run.closing_rows(
                "blocked",
                "blocked",
                None,
                None,
                Some(Note::Said(Text::Owned(reason))),
            ),
            Turn::Done(
                Err(
                    DesktopSqlRunError::Blocked(
                        DesktopSqlRunBlocked { reason: Text::Owned(reason) },
                    ),
                ),
            ),
        ),
        _ => (
            Seq::<Effect>::empty(),
            Turn::Ask {
                state: DesktopSqlRun::Claim { run },
                request: DesktopSqlRunRequest::Claim { operation_id: run.operation_id },
            },
        ),
    }
}

fn take_gate(run: CheckedRun, reply: GateDecision) -> (r: DesktopSqlRunStep)
    ensures
        r.says(after_gate(run, reply)),
{
    match reply {
        GateDecision::Block { reason } => {
            let mut effects: Vec<Effect> = Vec::new();
            run.record(
                &mut effects,
                "blocked",
                "blocked",
                None,
                None,
                Some(Note::Said(Text::Owned(reason.clone()))),
            );
            Step {
                effects,
                turn: Turn::Done(
                    Err(
                        DesktopSqlRunError::Blocked(
                            DesktopSqlRunBlocked { reason: Text::Owned(reason) },
                        ),
                    ),
                ),
            }
        },
        _ => {
            let operation_id = run.operation_id;
            ask(
                DesktopSqlRun::Claim { run },
                DesktopSqlRunRequest::Claim { operation_id },
            )
        },
    }
}

/// What follows once the operation was claimed.
pub open spec fn after_claim(
    run: CheckedRun,
    reply: Result<(), AppError>,
) -> (Seq<Effect>, DesktopSqlRunTurn) {
    (
        Seq::<Effect>::empty(),
        match reply {
            Err(error) => Turn::Done(Err(DesktopSqlRunError::Application(error))),
            Ok(_) => if run.writes() {
                Turn::Ask {
                    state: DesktopSqlRun::Attempt { run },
                    request: DesktopSqlRunRequest::RecordAttempt { record: run.attempt() },
                }
            } else {
                Turn::Ask {
                    state: DesktopSqlRun::Connection { run },
                    request: DesktopSqlRunRequest::Connect { access: run.access() },
                }
            },
        },
    )
}

fn take_claim(run: CheckedRun, reply: Result<(), AppError>) -> (r: DesktopSqlRunStep)
    ensures
        r.says(after_claim(run, reply)),
{
    match reply {
        Err(error) => done(Err(DesktopSqlRunError::Application(error))),
        Ok(_) => {
            if run.is_write() {
                let record = AuditRecord {
                    connection_id: run.pin.connection_id,
                    engine: run.pin.profile.engine,
                    sql: run.payload.sql.clone(),
                    kind: run.classification.kind,
                    action: Text::Plain("execute:attempt"),
                    approved_by: Some(run.actor_id.clone()),
                    affected_estimate: None,
                    error: None,
                };
                ask(
                    DesktopSqlRun::Attempt { run },
                    DesktopSqlRunRequest::RecordAttempt { record },
                )
            } else {
                let access = run.access_needed();
                ask(
                    DesktopSqlRun::Connection { run },
                    DesktopSqlRunRequest::Connect { access },
                )
            }
        },
    }
}

/// What follows once the attempt was written to the audit chain.
pub open spec fn after_attempt(
    run: CheckedRun,
    reply: Result<(), String>,
) -> (Seq<Effect>, DesktopSqlRunTurn) {
    match reply {
        Err(printed) => (
            run.settled(
                Settlement::Failed { reason: "audit_pre_record_failed", error: None },
            ),
            Turn::Done(
                Err(
                    DesktopSqlRunError::Application(
                        AppError::Config(
                            Text::WithText(
                                "audit pre-record failed — refusing to run write: ",
                                printed,
                                "",
                            ),
                        ),
                    ),
                ),
            ),
        ),
        Ok(_) => (
            Seq::<Effect>::empty(),
            Turn::Ask {
                state: DesktopSqlRun::Connection { run },
                request: DesktopSqlRunRequest::Connect { access: run.access() },
            },
        ),
    }
}

fn take_attempt(run: CheckedRun, reply: Result<(), String>) -> (r: DesktopSqlRunStep)
    ensures
        r.says(after_attempt(run, reply)),
{
    match reply {
        Err(printed) => {
            let mut effects: Vec<Effect> = Vec::new();
            run.settle(
                &mut effects,
                Settlement::Failed { reason: "audit_pre_record_failed", error: None },
            );
            Step {
                effects,
                turn: Turn::Done(
                    Err(
                        DesktopSqlRunError::Application(
                            AppError::Config(
                                Text::WithText(
                                    "audit pre-record failed — refusing to run write: ",
                                    printed,
                                    "",
                                ),
                            ),
                        ),
                    ),
                ),
            }
        },
        Ok(_) => {
            let access = run.access_needed();
            ask(
                DesktopSqlRun::Connection { run },
                DesktopSqlRunRequest::Connect { access },
            )
        },
    }
}

/// What follows once the target was connected.
pub open spec fn after_connection(
    run: CheckedRun,
    reply: Result<(), AppError>,
) -> (Seq<Effect>, DesktopSqlRunTurn) {
    match reply {
        Err(error) => (
            run.failure_rows(error) + run.settled(
                Settlement::Failed { reason: "connection_failed", error: None },
            ),
            Turn::Done(Err(DesktopSqlRunError::Application(error))),
        ),
        Ok(_) => (
            Seq::<Effect>::empty(),
            Turn::Ask {
                state: DesktopSqlRun::Backend { run },
                request: DesktopSqlRunRequest::OpenBackend,
            },
        ),
    }
}

fn take_connection(run: CheckedRun, reply: Result<(), AppError>) -> (r: DesktopSqlRunStep)
    ensures
        r.says(after_connection(run, reply)),
{
    match reply {
        Err(error) => {
            let mut effects: Vec<Effect> = Vec::new();
            run.record_failure(&mut effects, &error);
            run.settle(
                &mut effects,
                Settlement::Failed { reason: "connection_failed", error: None },
            );
            Step { effects, turn: Turn::Done(Err(DesktopSqlRunError::Application(error))) }
        },
        Ok(_) => ask(DesktopSqlRun::Backend { run }, DesktopSqlRunRequest::OpenBackend),
    }
}

/// What follows once the backend was opened.
pub open spec fn after_backend(
    run: CheckedRun,
    reply: Result<(), AppError>,
) -> (Seq<Effect>, DesktopSqlRunTurn) {
    match reply {
        Err(error) => (
            run.failure_rows(error) + run.settled(
                Settlement::Failed { reason: "sql_backend_unavailable", error: None },
            ),
            Turn::Done(
                Err(DesktopSqlRunError::Execution(DesktopSqlExecutionFailure { error })),
            ),
        ),
        Ok(_) => (
            Seq::<Effect>::empty(),
            Turn::Ask {
                state: DesktopSqlRun::Execution { run },
                request: DesktopSqlRunRequest::Execute {
                    sql: run.payload.sql,
                    engine: run.pin.profile.engine,
                    classification: run.classification,
                    settings: run.settings,
                    granted: run.writes(),
                    operation_id: run.operation_id,
                },
            },
        ),
    }
}

fn take_backend(run: CheckedRun, reply: Result<(), AppError>) -> (r: DesktopSqlRunStep)
    ensures
        r.says(after_backend(run, reply)),
{
    match reply {
        Err(error) => {
            let mut effects: Vec<Effect> = Vec::new();
            run.record_failure(&mut effects, &error);
            run.settle(
                &mut effects,
                Settlement::Failed { reason: "sql_backend_unavailable", error: None },
            );
            Step {
                effects,
                turn: Turn::Done(
                    Err(DesktopSqlRunError::Execution(DesktopSqlExecutionFailure { error })),
                ),
            }
        },
        Ok(_) => {
            let question = DesktopSqlRunRequest::Execute {
                sql: run.payload.sql.clone(),
                engine: run.pin.profile.engine,
                classification: run.classification,
                settings: run.settings,
                granted: run.is_write(),
                operation_id: run.operation_id,
            };
            ask(DesktopSqlRun::Execution { run }, question)
        },
    }
}

/// What follows once the SQL was executed.
pub open spec fn after_execution(
    run: CheckedRun,
    reply: Result<ExecSummary, (AppError, String)>,
) -> (Seq<Effect>, DesktopSqlRunTurn) {
    match reply {
        Ok(summary) => (
            Seq::<Effect>::empty(),
            Turn::Ask {
                state: DesktopSqlRun::Receipt { run, summary },
                request: DesktopSqlRunRequest::Succeed {
                    operation_id: run.operation_id,
                    committed: summary.committed,
                    duration_ms: summary.duration(),
                    row_count: summary.rows(),
                },
            },
        ),
        Err(failure) => {
            let reported = reported_error(run.writes(), failure.0, failure.1);
            (
                run.settled(failure_settlement(was_cancelled(failure.0), reported))
                    + run.failure_rows(reported),
                Turn::Done(
                    Err(
                        DesktopSqlRunError::Execution(
                            DesktopSqlExecutionFailure { error: reported },
                        ),
                    ),
                ),
            )
        },
    }
}

fn take_execution(
    run: CheckedRun,
    reply: Result<ExecSummary, (AppError, String)>,
) -> (r: DesktopSqlRunStep)
    ensures
        r.says(after_execution(run, reply)),
{
    match reply {
        Ok(summary) => {
            let request = DesktopSqlRunRequest::Succeed {
                operation_id: run.operation_id,
                committed: summary.committed,
                duration_ms: summary.duration_ms(),
                row_count: summary.row_count(),
            };
            ask(DesktopSqlRun::Receipt { run, summary }, request)
        },
        Err(failure) => {
            let (error, printed) = failure;
            let cancelled = is_cancelled(&error);
            let reported = report_error(run.is_write(), error, printed);
            let mut effects: Vec<Effect> = Vec::new();
            run.settle(&mut effects, settle_failure(cancelled, &reported));
            run.record_failure(&mut effects, &reported);
            Step {
                effects,
                turn: Turn::Done(
                    Err(
                        DesktopSqlRunError::Execution(
                            DesktopSqlExecutionFailure { error: reported },
                        ),
                    ),
                ),
            }
        },
    }
}

/// What follows once the success was recorded.
pub open spec fn after_receipt(
    run: CheckedRun,
    summary: ExecSummary,
    reply: Result<(), AppError>,
) -> (Seq<Effect>, DesktopSqlRunTurn) {
    match reply {
        Err(error) => (
            run.settled(
                if run.writes() {
                    Settlement::OutcomeUnknown { reason: "local_receipt_failed", error: None }
                } else {
                    Settlement::Failed { reason: "local_receipt_failed", error: None }
                },
            ),
            Turn::Done(
                Err(DesktopSqlRunError::Execution(DesktopSqlExecutionFailure { error })),
            ),
        ),
        Ok(_) => (
            (if run.classification.kind == QueryKind::Ddl && summary.committed {
                seq![Effect::ClearSchemaCache { connection_id: run.pin.connection_id }]
            } else {
                Seq::<Effect>::empty()
            }) + run.closing_rows(
                if summary.committed {
                    "execute"
                } else {
                    "read"
                },
                "ok",
                summary.rows(),
                summary.duration(),
                None,
            ),
            Turn::Done(Ok(summary)),
        ),
    }
}

fn take_receipt(
    run: CheckedRun,
    summary: ExecSummary,
    reply: Result<(), AppError>,
) -> (r: DesktopSqlRunStep)
    ensures
        r.says(after_receipt(run, summary, reply)),
{
    match reply {
        Err(error) => {
            let mut effects: Vec<Effect> = Vec::new();
            run.settle(
                &mut effects,
                if run.is_write() {
                    Settlement::OutcomeUnknown { reason: "local_receipt_failed", error: None }
                } else {
                    Settlement::Failed { reason: "local_receipt_failed", error: None }
                },
            );
            Step {
                effects,
                turn: Turn::Done(
                    Err(DesktopSqlRunError::Execution(DesktopSqlExecutionFailure { error })),
                ),
            }
        },
        Ok(_) => {
            let mut effects: Vec<Effect> = Vec::new();
            if run.classification.kind == QueryKind::Ddl && summary.committed {
                effects.push(
                    Effect::ClearSchemaCache { connection_id: run.pin.connection_id },
                );
            }
            run.record(
                &mut effects,
                if summary.committed {
                    "execute"
                } else {
                    "read"
                },
                "ok",
                summary.row_count(),
                summary.duration_ms(),
                None,
            );
            Step { effects, turn: Turn::Done(Ok(summary)) }
        },
    }
}

impl DesktopSqlRun {
    /// Whether `reply` answers what the run is waiting to hear.
    pub open spec fn awaits(self, reply: DesktopSqlRunReply) -> bool {
        match self {
            DesktopSqlRun::Operation { .. } => reply is Operation,
            DesktopSqlRun::Payload { .. } => reply is Payload,
            DesktopSqlRun::Pin { .. } => reply is Pin,
            DesktopSqlRun::Safety { .. } => reply is Safety,
            DesktopSqlRun::Policy { .. } => reply is Policy,
            DesktopSqlRun::Classification { .. } => reply is Classification,
            DesktopSqlRun::Gate { .. } => reply is Gate,
            DesktopSqlRun::Claim { .. } => reply is Claim,
            DesktopSqlRun::Attempt { .. } => reply is Attempt,
            DesktopSqlRun::Connection { .. } => reply is Connection,
            DesktopSqlRun::Backend { .. } => reply is Backend,
            DesktopSqlRun::Execution { .. } => reply is Execution,
            DesktopSqlRun::Receipt { .. } => reply is Receipt,
        }
    }

    /// The effects and the turn that follow `reply`.
    pub open spec fn after(self, reply: DesktopSqlRunReply) -> (Seq<Effect>, DesktopSqlRunTurn) {
        match self {
            DesktopSqlRun::Operation { operation_id } => after_operation(
                operation_id,
                reply->Operation_0,
            ),
            DesktopSqlRun::Payload { operation_id, planned } => after_payload(
                operation_id,
                planned,
                reply->Payload_0,
            ),
            DesktopSqlRun::Pin { operation_id, planned, payload } => after_pin(
                operation_id,
                planned,
                payload,
                reply->Pin_0,
            ),
            DesktopSqlRun::Safety { operation_id, planned, payload, pin } => after_safety(
                operation_id,
                planned,
                payload,
                pin,
                reply->Safety_0,
            ),
            DesktopSqlRun::Policy { operation_id, planned, payload, pin, settings } => after_policy(
                operation_id,
                planned,
                payload,
                pin,
                settings,
                reply->Policy_0,
            ),
            DesktopSqlRun::Classification { operation_id, planned, payload, pin, settings } => after_classification(
                operation_id,
                planned,
                payload,
                pin,
                settings,
                reply->Classification_0,
            ),
            DesktopSqlRun::Gate { run } => after_gate(run, reply->Gate_0),
            DesktopSqlRun::Claim { run } => after_claim(run, reply->Claim_0),
            DesktopSqlRun::Attempt { run } => after_attempt(run, reply->Attempt_0),
            DesktopSqlRun::Connection { run } => after_connection(run, reply->Connection_0),
            DesktopSqlRun::Backend { run } => after_backend(run, reply->Backend_0),
            DesktopSqlRun::Execution { run } => after_execution(run, reply->Execution_0),
            DesktopSqlRun::Receipt { run, summary } => after_receipt(
                run,
                summary,
                reply->Receipt_0,
            ),
        }
    }

    /// Begins the run of an operation.
    pub fn start(operation_id: u128) -> (r: DesktopSqlRunStep)
        ensures
            r.effects@ == Seq::<Effect>::empty(),
            r.turn == (DesktopSqlRunTurn::Ask {
                state: DesktopSqlRun::Operation { operation_id },
                request: DesktopSqlRunRequest::LoadOperation { operation_id },
            }),
    {
        ask(
            DesktopSqlRun::Operation { operation_id },
            DesktopSqlRunRequest::LoadOperation { operation_id },
        )
    }

    /// Takes the answer to the last question.
    pub fn advance(self, reply: DesktopSqlRunReply) -> (r: DesktopSqlRunStep)
        requires
            self.awaits(reply),
        ensures
            r.says(self.after(reply)),
    {
        match (self, reply) {
            (
                DesktopSqlRun::Operation { operation_id },
                DesktopSqlRunReply::Operation(reply),
            ) => take_operation(operation_id, reply),
            (
                DesktopSqlRun::Payload { operation_id, planned },
                DesktopSqlRunReply::Payload(reply),
            ) => take_payload(operation_id, planned, reply),
            (
                DesktopSqlRun::Pin { operation_id, planned, payload },
                DesktopSqlRunReply::Pin(reply),
            ) => take_pin(operation_id, planned, payload, reply),
            (
                DesktopSqlRun::Safety { operation_id, planned, payload, pin },
                DesktopSqlRunReply::Safety(reply),
            ) => take_safety(operation_id, planned, payload, pin, reply),
            (
                DesktopSqlRun::Policy { operation_id, planned, payload, pin, settings },
                DesktopSqlRunReply::Policy(reply),
            ) => take_policy(operation_id, planned, payload, pin, settings, reply),
            (
                DesktopSqlRun::Classification { operation_id, planned, payload, pin, settings },
                DesktopSqlRunReply::Classification(reply),
            ) => take_classification(operation_id, planned, payload, pin, settings, reply),
            (DesktopSqlRun::Gate { run }, DesktopSqlRunReply::Gate(reply)) => take_gate(run, reply),
            (DesktopSqlRun::Claim { run }, DesktopSqlRunReply::Claim(reply)) => take_claim(
                run,
                reply,
            ),
            (DesktopSqlRun::Attempt { run }, DesktopSqlRunReply::Attempt(reply)) => take_attempt(
                run,
                reply,
            ),
            (
                DesktopSqlRun::Connection { run },
                DesktopSqlRunReply::Connection(reply),
            ) => take_connection(run, reply),
            (DesktopSqlRun::Backend { run }, DesktopSqlRunReply::Backend(reply)) => take_backend(
                run,
                reply,
            ),
            (
                DesktopSqlRun::Execution { run },
                DesktopSqlRunReply::Execution(reply),
            ) => take_execution(run, reply),
            (
                DesktopSqlRun::Receipt { run, summary },
                DesktopSqlRunReply::Receipt(reply),
            ) => take_receipt(run, summary, reply),
            _ => unreached(),
        }
    }
}

} // verus!
