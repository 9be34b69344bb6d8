//! Carrying out an approved change of the monitoring role, named by its operation alone.
use vstd::pervasive::unreached;
use vstd::prelude::*;

use crate::error::AppError;
use crate::model::{ConnectionAccess, Engine, QueryKind, SafetySettings};
use crate::operations::{OperationKind, OperationRecord, PinnedConnection, PolicySnapshot};
use crate::services::effects::{
    ask, done, duplicate_note, AuditRecord, Effect, HistoryRecord, Note, Settlement, Step, Turn,
};
use crate::services::monitoring::shared::{
    blocked, executed, monitoring_role_sql, role_sql, scoped, HeldAuthority,
    MonitoringExecutionFailure, MonitoringScopedFailure, MonitoringServiceError, MonitoringStatus,
    MonitoringStatusReceipt,
};
use crate::services::operation_service::{
    capture_policy, ensure_operation_scope, in_operation_scope, policy_of, scope_changed,
};
use crate::text::{begins_with, same_text, starts_with, Text};

verus! {

/// What the proposal froze.
#[derive(PartialEq, Eq)]
pub struct MonitoringPayload {
    pub enabled: bool,
    pub sql: String,
}

/// A change that passed every check and whose operation is claimed.
#[derive(PartialEq, Eq)]
pub struct RoleChange {
    pub operation_id: u128,
    pub payload: MonitoringPayload,
    pub pin: PinnedConnection,
    /// The actor of the claimed operation.
    pub approved_by: String,
}

/// The audit action of a change that has been tried.
pub open spec fn change_action(sql: Seq<char>) -> &'static str {
    if begins_with(sql, "GRANT"@) {
        "monitoring:grant"
    } else {
        "monitoring:revoke"
    }
}

impl RoleChange {
    /// The audit row that precedes the change.
    pub open spec fn attempt(self) -> AuditRecord {
        AuditRecord {
            connection_id: self.pin.connection_id,
            engine: self.pin.profile.engine,
            sql: self.payload.sql,
            kind: QueryKind::Privilege,
            action: Text::Plain(
                if self.payload.enabled {
                    "monitoring:grant:attempt"
                } else {
                    "monitoring:revoke:attempt"
                },
            ),
            approved_by: Some(self.approved_by),
            affected_estimate: None,
            error: None,
        }
    }

    /// The audit row and the history row of a change that has been tried.
    pub open spec fn rows(self, status: &'static str, error: Option<Note>) -> Seq<Effect> {
        seq![
            Effect::Audit(
                AuditRecord {
                    connection_id: self.pin.connection_id,
                    engine: self.pin.profile.engine,
                    sql: self.payload.sql,
                    kind: QueryKind::Privilege,
                    action: Text::Plain(change_action(self.payload.sql@)),
                    approved_by: Some(self.approved_by),
                    affected_estimate: None,
                    error,
                },
            ),
            Effect::History(
                HistoryRecord {
                    connection_id: self.pin.connection_id,
                    sql: self.payload.sql,
                    kind: QueryKind::Privilege,
                    status,
                    row_count: None,
                    duration_ms: None,
                    error,
                    origin: Text::Plain("manual"),
                },
            ),
        ]
    }

    /// The end of the operation's claim.
    pub open spec fn settled(self, settlement: Settlement) -> Seq<Effect> {
        seq![Effect::Settle { operation_id: self.operation_id, settlement }]
    }

    fn record(&self, effects: &mut Vec<Effect>, status: &'static str, error: Option<Note>)
        ensures
            final(effects)@ == old(effects)@ + self.rows(status, error),
    {
        let action = if starts_with(self.payload.sql.as_str(), "GRANT") {
            "monitoring:grant"
        } else {
            "monitoring:revoke"
        };
        effects.push(
            Effect::Audit(
                AuditRecord {
                    connection_id: self.pin.connection_id,
                    engine: self.pin.profile.engine,
                    sql: self.payload.sql.clone(),
                    kind: QueryKind::Privilege,
                    action: Text::Plain(action),
                    approved_by: Some(self.approved_by.clone()),
                    affected_estimate: None,
                    error: duplicate_note(&error),
                },
            ),
        );
        effects.push(
            Effect::History(
                HistoryRecord {
                    connection_id: self.pin.connection_id,
                    sql: self.payload.sql.clone(),
                    kind: QueryKind::Privilege,
                    status,
                    row_count: None,
                    duration_ms: None,
                    error,
                    origin: Text::Plain("manual"),
                },
            ),
        );
    }

    fn settle(&self, effects: &mut Vec<Effect>, settlement: Settlement)
        ensures
            final(effects)@ == old(effects)@ + self.settled(settlement),
    {
        effects.push(Effect::Settle { operation_id: self.operation_id, settlement });
    }
}

/// How a change ends.
pub type MonitoringRunEnd = Result<MonitoringStatusReceipt, MonitoringServiceError>;

/// Where a change stands: what it is waiting to hear.
#[derive(PartialEq, Eq)]
pub enum MonitoringRun {
    Operation { operation_id: u128 },
    Payload { operation_id: u128, planned: OperationRecord },
    Pin { operation_id: u128, planned: OperationRecord, payload: MonitoringPayload },
    Safety {
        operation_id: u128,
        planned: OperationRecord,
        payload: MonitoringPayload,
        pin: PinnedConnection,
    },
    Policy {
        operation_id: u128,
        planned: OperationRecord,
        payload: MonitoringPayload,
        pin: PinnedConnection,
    },
    Claim { operation_id: u128, payload: MonitoringPayload, pin: PinnedConnection },
    Attempt { change: RoleChange },
    Connection { change: RoleChange },
    Backend { change: RoleChange },
    Execution { change: RoleChange },
    Receipt { change: RoleChange },
    Status,
}

/// What a change asks of the outside world.
#[derive(PartialEq, Eq)]
pub enum MonitoringRunRequest {
    /// Load the operation.
    LoadOperation { operation_id: u128 },
    /// Decode the payload of the operation just loaded.
    DecodePayload,
    /// Look the connection up in the current scope and hold on to that scope.
    PinConnection { connection_id: u128 },
    /// Load the safety settings.
    LoadSafety { connection_id: u128 },
    /// Compute the revision of this policy.
    HashPolicy { snapshot: PolicySnapshot },
    /// Claim the operation, which nobody can do twice.
    Claim { operation_id: u128 },
    /// Write this row to the audit chain.
    RecordAttempt { record: AuditRecord },
    /// Connect the pinned connection.
    Connect { access: ConnectionAccess },
    /// Take the connection's SQL backend.
    OpenBackend,
    /// Grant or revoke the role, under the claim's grant.
    SetRole { enabled: bool, operation_id: u128, connection_id: u128 },
    /// Mark the operation succeeded.
    Succeed { operation_id: u128, enabled: bool },
    /// Collect the status from the target.
    Collect { engine: Engine },
}

/// What the outside world answers.
#[derive(PartialEq, Eq)]
pub enum MonitoringRunReply {
    Operation(Result<OperationRecord, AppError>),
    Payload(Result<MonitoringPayload, AppError>),
    Pin(Result<PinnedConnection, AppError>),
    Safety(Result<SafetySettings, AppError>),
    Policy(Result<String, AppError>),
    /// The actor of the claimed operation.
    Claim(Result<String, AppError>),
    /// The error comes together with how it is printed.
    Attempt(Result<(), (AppError, String)>),
    Connection(Result<(), AppError>),
    Backend(Result<(), AppError>),
    Execution(Result<(), AppError>),
    Receipt(Result<(), AppError>),
    Status(Result<MonitoringStatus, AppError>),
}

/// A step of a change.
pub type MonitoringRunStep = Step<MonitoringRun, MonitoringRunRequest, MonitoringRunEnd>;

/// What follows an answer in a change.
pub type MonitoringRunTurn = Turn<MonitoringRun, MonitoringRunRequest, MonitoringRunEnd>;

/// The end of a change that was refused in its scope.
pub open spec fn refused(error: AppError) -> (Seq<Effect>, MonitoringRunTurn) {
    (Seq::empty(), Turn::Done(Err(scoped(error))))
}

fn refuse(error: AppError) -> (r: MonitoringRunStep)
    ensures
        r.says(refused(error)),
{
    done(Err(MonitoringServiceError::Scoped(MonitoringScopedFailure { error })))
}

/// The end of a change that failed.
pub open spec fn failed(error: AppError) -> (Seq<Effect>, MonitoringRunTurn) {
    (Seq::empty(), Turn::Done(Err(MonitoringServiceError::Application(error))))
}

fn fail(error: AppError) -> (r: MonitoringRunStep)
    ensures
        r.says(failed(error)),
{
    done(Err(MonitoringServiceError::Application(error)))
}

/// A question without effects.
pub open spec fn asked(state: MonitoringRun, request: MonitoringRunRequest) -> (
    Seq<Effect>,
    MonitoringRunTurn,
) {
    (Seq::empty(), Turn::Ask { state, request })
}

/// What follows once the operation was looked up.
pub open spec fn after_operation(operation_id: u128, reply: Result<OperationRecord, AppError>) -> (
    Seq<Effect>,
    MonitoringRunTurn,
) {
    match reply {
        Err(error) => failed(error),
        Ok(planned) => if planned.payload_schema_version != 1 || planned.kind
            != OperationKind::Privilege {
            failed(blocked("operation is not a PostgreSQL monitoring-role proposal"))
        } else {
            asked(
                MonitoringRun::Payload { operation_id, planned },
                MonitoringRunRequest::DecodePayload,
            )
        },
    }
}

fn take_operation(operation_id: u128, reply: Result<OperationRecord, AppError>) -> (r:
    MonitoringRunStep)
    ensures
        r.says(after_operation(operation_id, reply)),
{
    match reply {
        Err(error) => fail(error),
        Ok(planned) => {
            if planned.payload_schema_version != 1 || planned.kind != OperationKind::Privilege {
                fail(
                    AppError::Blocked {
                        reason: Text::Plain(
                            "operation is not a PostgreSQL monitoring-role proposal",
                        ),
                    },
                )
            } else {
                ask(
                    MonitoringRun::Payload { operation_id, planned },
                    MonitoringRunRequest::DecodePayload,
                )
            }
        },
    }
}

/// What follows once the payload was decoded: its statement must be the fixed one.
pub open spec fn after_payload(
    operation_id: u128,
    planned: OperationRecord,
    reply: Result<MonitoringPayload, AppError>,
) -> (Seq<Effect>, MonitoringRunTurn) {
    match reply {
        Err(error) => failed(error),
        Ok(payload) => if payload.sql@ != role_sql(payload.enabled)@ {
            failed(blocked("stored monitoring operation does not match the fixed role action"))
        } else {
            asked(
                MonitoringRun::Pin { operation_id, planned, payload },
                MonitoringRunRequest::PinConnection { connection_id: planned.connection_id },
            )
        },
    }
}

fn take_payload(
    operation_id: u128,
    planned: OperationRecord,
    reply: Result<MonitoringPayload, AppError>,
) -> (r: MonitoringRunStep)
    ensures
        r.says(after_payload(operation_id, planned, reply)),
{
    match reply {
        Err(error) => fail(error),
        Ok(payload) => {
            if !same_text(payload.sql.as_str(), monitoring_role_sql(payload.enabled)) {
                fail(
                    AppError::Blocked {
                        reason: Text::Plain(
                            "stored monitoring operation does not match the fixed role action",
                        ),
                    },
                )
            } else {
                let connection_id = planned.connection_id;
                ask(
                    MonitoringRun::Pin { operation_id, planned, payload },
                    MonitoringRunRequest::PinConnection { connection_id },
                )
            }
        },
    }
}

/// What follows once the connection was looked up.
pub open spec fn after_pin(
    operation_id: u128,
    planned: OperationRecord,
    payload: MonitoringPayload,
    reply: Result<PinnedConnection, AppError>,
) -> (Seq<Effect>, MonitoringRunTurn) {
    match reply {
        Err(error) => refused(error),
        Ok(pin) => if !in_operation_scope(planned, pin) {
            failed(scope_changed())
        } else if !pin.profile.workspace_access.spec_can_write() {
            refused(blocked("your workspace role no longer grants monitoring changes"))
        } else if pin.profile.engine != Engine::Postgres {
            refused(
                AppError::Config(
                    Text::Plain("pg_monitor is only available for PostgreSQL connections"),
                ),
            )
        } else {
            asked(
                MonitoringRun::Safety { operation_id, planned, payload, pin },
                MonitoringRunRequest::LoadSafety { connection_id: pin.connection_id },
            )
        },
    }
}

fn take_pin(
    operation_id: u128,
    planned: OperationRecord,
    payload: MonitoringPayload,
    reply: Result<PinnedConnection, AppError>,
) -> (r: MonitoringRunStep)
    ensures
        r.says(after_pin(operation_id, planned, payload, reply)),
{
    match reply {
        Err(error) => refuse(error),
        Ok(pin) => {
            if let Err(error) = ensure_operation_scope(&planned, &pin) {
                return fail(error);
            }
            if !pin.profile.workspace_access.can_write() {
                return refuse(
                    AppError::Blocked {
                        reason: Text::Plain(
                            "your workspace role no longer grants monitoring changes",
                        ),
                    },
                );
            }
            if pin.profile.engine != Engine::Postgres {
                return refuse(
                    AppError::Config(
                        Text::Plain("pg_monitor is only available for PostgreSQL connections"),
                    ),
                );
            }
            let connection_id = pin.connection_id;
            ask(
                MonitoringRun::Safety { operation_id, planned, payload, pin },
                MonitoringRunRequest::LoadSafety { connection_id },
            )
        },
    }
}

/// What follows once the safety settings were loaded.
pub open spec fn after_safety(
    operation_id: u128,
    planned: OperationRecord,
    payload: MonitoringPayload,
    pin: PinnedConnection,
    reply: Result<SafetySettings, AppError>,
) -> (Seq<Effect>, MonitoringRunTurn) {
    match reply {
        Err(error) => failed(error),
        Ok(settings) => if !settings.allow_writes {
            refused(blocked("writes are disabled for this connection"))
        } else {
            asked(
                MonitoringRun::Policy { operation_id, planned, payload, pin },
                MonitoringRunRequest::HashPolicy { snapshot: policy_of(pin, Some(settings)) },
            )
        },
    }
}

fn take_safety(
    operation_id: u128,
    planned: OperationRecord,
    payload: MonitoringPayload,
    pin: PinnedConnection,
    reply: Result<SafetySettings, AppError>,
) -> (r: MonitoringRunStep)
    ensures
        r.says(after_safety(operation_id, planned, payload, pin, reply)),
{
    match reply {
        Err(error) => fail(error),
        Ok(settings) => {
            if !settings.allow_writes {
                refuse(
                    AppError::Blocked {
                        reason: Text::Plain("writes are disabled for this connection"),
                    },
                )
            } else {
                let snapshot = capture_policy(&pin, &settings);
                ask(
                    MonitoringRun::Policy { operation_id, planned, payload, pin },
                    MonitoringRunRequest::HashPolicy { snapshot },
                )
            }
        },
    }
}

/// What follows once the current policy was hashed.
pub open spec fn after_policy(
    operation_id: u128,
    planned: OperationRecord,
    payload: MonitoringPayload,
    pin: PinnedConnection,
    reply: Result<String, AppError>,
) -> (Seq<Effect>, MonitoringRunTurn) {
    match reply {
        Err(error) => failed(error),
        Ok(revision) => if revision@ != planned.policy_revision@ {
            refused(blocked("the connection or safety policy changed; create a new proposal"))
        } else {
            asked(
                MonitoringRun::Claim { operation_id, payload, pin },
                MonitoringRunRequest::Claim { operation_id },
            )
        },
    }
}

fn take_policy(
    operation_id: u128,
    planned: OperationRecord,
    payload: MonitoringPayload,
    pin: PinnedConnection,
    reply: Result<String, AppError>,
) -> (r: MonitoringRunStep)
    ensures
        r.says(after_policy(operation_id, planned, payload, pin, reply)),
{
    match reply {
        Err(error) => fail(error),
        Ok(revision) => {
            if !same_text(revision.as_str(), planned.policy_revision.as_str()) {
                refuse(
                    AppError::Blocked {
                        reason: Text::Plain(
                            "the connection or safety policy changed; create a new proposal",
                        ),
                    },
                )
            } else {
                ask(
                    MonitoringRun::Claim { operation_id, payload, pin },
                    MonitoringRunRequest::Claim { operation_id },
                )
            }
        },
    }
}

/// What follows once the operation was claimed.
pub open spec fn after_claim(
    operation_id: u128,
    payload: MonitoringPayload,
    pin: PinnedConnection,
    reply: Result<String, AppError>,
) -> (Seq<Effect>, MonitoringRunTurn) {
    match reply {
        Err(error) => refused(error),
        Ok(approved_by) => {
            let change = RoleChange { operation_id, payload, pin, approved_by };
            asked(
                MonitoringRun::Attempt { change },
                MonitoringRunRequest::RecordAttempt { record: change.attempt() },
            )
        },
    }
}

fn take_claim(
    operation_id: u128,
    payload: MonitoringPayload,
    pin: PinnedConnection,
    reply: Result<String, AppError>,
) -> (r: MonitoringRunStep)
    ensures
        r.says(after_claim(operation_id, payload, pin, reply)),
{
    match reply {
        Err(error) => refuse(error),
        Ok(approved_by) => {
            let record = AuditRecord {
                connection_id: pin.connection_id,
                engine: pin.profile.engine,
                sql: payload.sql.clone(),
                kind: QueryKind::Privilege,
                action: Text::Plain(
                    if payload.enabled {
                        "monitoring:grant:attempt"
                    } else {
                        "monitoring:revoke:attempt"
                    },
                ),
                approved_by: Some(approved_by.clone()),
                affected_estimate: None,
                error: None,
            };
            ask(
                MonitoringRun::Attempt {
                    change: RoleChange { operation_id, payload, pin, approved_by },
                },
                MonitoringRunRequest::RecordAttempt { record },
            )
        },
    }
}

/// What follows once the attempt was written to the audit chain.
pub open spec fn after_attempt(change: RoleChange, reply: Result<(), (AppError, String)>) -> (
    Seq<Effect>,
    MonitoringRunTurn,
) {
    match reply {
        Err(failure) => (
            change.settled(
                Settlement::Failed { reason: "audit_pre_record_failed", error: Some(failure.0) },
            ),
            Turn::Done(
                Err(
                    scoped(
                        AppError::Config(
                            Text::WithText(
                                "audit pre-record failed — refusing to change pg_monitor: ",
                                failure.1,
                                "",
                            ),
                        ),
                    ),
                ),
            ),
        ),
        Ok(_) => asked(
            MonitoringRun::Connection { change },
            MonitoringRunRequest::Connect { access: ConnectionAccess::Write },
        ),
    }
}

fn take_attempt(change: RoleChange, reply: Result<(), (AppError, String)>) -> (r: MonitoringRunStep)
    ensures
        r.says(after_attempt(change, reply)),
{
    match reply {
        Err(failure) => {
            let (error, printed) = failure;
            let mut effects: Vec<Effect> = Vec::new();
            change.settle(
                &mut effects,
                Settlement::Failed { reason: "audit_pre_record_failed", error: Some(error) },
            );
            let refusal = AppError::Config(
                Text::WithText(
                    "audit pre-record failed — refusing to change pg_monitor: ",
                    printed,
                    "",
                ),
            );
            Step {
                effects,
                turn: Turn::Done(
                    Err(MonitoringServiceError::Scoped(MonitoringScopedFailure { error: refusal })),
                ),
            }
        },
        Ok(_) => ask(
            MonitoringRun::Connection { change },
            MonitoringRunRequest::Connect { access: ConnectionAccess::Write },
        ),
    }
}

/// What follows once the target was connected.
pub open spec fn after_connection(change: RoleChange, reply: Result<(), AppError>) -> (
    Seq<Effect>,
    MonitoringRunTurn,
) {
    match reply {
        Err(error) => (
            change.rows("error", Some(Note::Error(error))) + change.settled(
                Settlement::Failed { reason: "target_connection_failed", error: Some(error) },
            ),
            Turn::Done(Err(MonitoringServiceError::Application(error))),
        ),
        Ok(_) => asked(MonitoringRun::Backend { change }, MonitoringRunRequest::OpenBackend),
    }
}

fn take_connection(change: RoleChange, reply: Result<(), AppError>) -> (r: MonitoringRunStep)
    ensures
        r.says(after_connection(change, reply)),
{
    match reply {
        Err(error) => {
            let mut effects: Vec<Effect> = Vec::new();
            change.record(&mut effects, "error", Some(Note::Error(error.duplicate())));
            change.settle(
                &mut effects,
                Settlement::Failed {
                    reason: "target_connection_failed",
                    error: Some(error.duplicate()),
                },
            );
            Step { effects, turn: Turn::Done(Err(MonitoringServiceError::Application(error))) }
        },
        Ok(_) => ask(MonitoringRun::Backend { change }, MonitoringRunRequest::OpenBackend),
    }
}

/// What follows once the backend was opened.
pub open spec fn after_backend(change: RoleChange, reply: Result<(), AppError>) -> (
    Seq<Effect>,
    MonitoringRunTurn,
) {
    match reply {
        Err(error) => (
            change.settled(
                Settlement::Failed { reason: "target_pool_unavailable", error: Some(error) },
            ),
            Turn::Done(Err(executed(error))),
        ),
        Ok(_) => asked(
            MonitoringRun::Execution { change },
            MonitoringRunRequest::SetRole {
                enabled: change.payload.enabled,
                operation_id: change.operation_id,
                connection_id: change.pin.connection_id,
            },
        ),
    }
}

fn take_backend(change: RoleChange, reply: Result<(), AppError>) -> (r: MonitoringRunStep)
    ensures
        r.says(after_backend(change, reply)),
{
    match reply {
        Err(error) => {
            let mut effects: Vec<Effect> = Vec::new();
            change.settle(
                &mut effects,
                Settlement::Failed {
                    reason: "target_pool_unavailable",
                    error: Some(error.duplicate()),
                },
            );
            Step {
                effects,
                turn: Turn::Done(
                    Err(MonitoringServiceError::Execution(MonitoringExecutionFailure { error })),
                ),
            }
        },
        Ok(_) => {
            let request = MonitoringRunRequest::SetRole {
                enabled: change.payload.enabled,
                operation_id: change.operation_id,
                connection_id: change.pin.connection_id,
            };
            ask(MonitoringRun::Execution { change }, request)
        },
    }
}

/// What follows once the role was set, or was not. A failure leaves open whether it was.
pub open spec fn after_execution(change: RoleChange, reply: Result<(), AppError>) -> (
    Seq<Effect>,
    MonitoringRunTurn,
) {
    match reply {
        Err(error) => (
            change.rows("error", Some(Note::Error(error))) + change.settled(
                Settlement::OutcomeUnknown {
                    reason: "monitoring_role_execution_failed",
                    error: Some(error),
                },
            ),
            Turn::Done(Err(executed(error))),
        ),
        Ok(_) => (
            change.rows("ok", None),
            Turn::Ask {
                state: MonitoringRun::Receipt { change },
                request: MonitoringRunRequest::Succeed {
                    operation_id: change.operation_id,
                    enabled: change.payload.enabled,
                },
            },
        ),
    }
}

fn take_execution(change: RoleChange, reply: Result<(), AppError>) -> (r: MonitoringRunStep)
    ensures
        r.says(after_execution(change, reply)),
{
    let mut effects: Vec<Effect> = Vec::new();
    match reply {
        Err(error) => {
            change.record(&mut effects, "error", Some(Note::Error(error.duplicate())));
            change.settle(
                &mut effects,
                Settlement::OutcomeUnknown {
                    reason: "monitoring_role_execution_failed",
                    error: Some(error.duplicate()),
                },
            );
            Step {
                effects,
                turn: Turn::Done(
                    Err(MonitoringServiceError::Execution(MonitoringExecutionFailure { error })),
                ),
            }
        },
        Ok(_) => {
            change.record(&mut effects, "ok", None);
            let request = MonitoringRunRequest::Succeed {
                operation_id: change.operation_id,
                enabled: change.payload.enabled,
            };
            Step {
                effects,
                turn: Turn::Ask { state: MonitoringRun::Receipt { change }, request },
            }
        },
    }
}

/// What follows once the success was recorded.
pub open spec fn after_receipt(change: RoleChange, reply: Result<(), AppError>) -> (
    Seq<Effect>,
    MonitoringRunTurn,
) {
    match reply {
        Err(error) => (
            change.settled(
                Settlement::OutcomeUnknown { reason: "local_receipt_failed", error: None },
            ),
            Turn::Done(Err(executed(error))),
        ),
        Ok(_) => asked(
            MonitoringRun::Status,
            MonitoringRunRequest::Collect { engine: change.pin.profile.engine },
        ),
    }
}

fn take_receipt(change: RoleChange, reply: Result<(), AppError>) -> (r: MonitoringRunStep)
    ensures
        r.says(after_receipt(change, reply)),
{
    match reply {
        Err(error) => {
            let mut effects: Vec<Effect> = Vec::new();
            change.settle(
                &mut effects,
                Settlement::OutcomeUnknown { reason: "local_receipt_failed", error: None },
            );
            Step {
                effects,
                turn: Turn::Done(
                    Err(MonitoringServiceError::Execution(MonitoringExecutionFailure { error })),
                ),
            }
        },
        Ok(_) => ask(
            MonitoringRun::Status,
            MonitoringRunRequest::Collect { engine: change.pin.profile.engine },
        ),
    }
}

/// What follows once the status was collected.
pub open spec fn after_status(reply: Result<MonitoringStatus, AppError>) -> (
    Seq<Effect>,
    MonitoringRunTurn,
) {
    (
        Seq::empty(),
        match reply {
            Err(error) => Turn::Done(Err(executed(error))),
            Ok(status) => Turn::Done(
                Ok(MonitoringStatusReceipt { status, held: HeldAuthority::Lease }),
            ),
        },
    )
}

fn take_status(reply: Result<MonitoringStatus, AppError>) -> (r: MonitoringRunStep)
    ensures
        r.says(after_status(reply)),
{
    match reply {
        Err(error) => done(
            Err(MonitoringServiceError::Execution(MonitoringExecutionFailure { error })),
        ),
        Ok(status) => done(Ok(MonitoringStatusReceipt::leased(status))),
    }
}

impl MonitoringRun {
    /// Whether `reply` answers what is awaited.
    pub open spec fn awaits(self, reply: MonitoringRunReply) -> bool {
        match self {
            MonitoringRun::Operation { .. } => reply is Operation,
            MonitoringRun::Payload { .. } => reply is Payload,
            MonitoringRun::Pin { .. } => reply is Pin,
            MonitoringRun::Safety { .. } => reply is Safety,
            MonitoringRun::Policy { .. } => reply is Policy,
            MonitoringRun::Claim { .. } => reply is Claim,
            MonitoringRun::Attempt { .. } => reply is Attempt,
            MonitoringRun::Connection { .. } => reply is Connection,
            MonitoringRun::Backend { .. } => reply is Backend,
            MonitoringRun::Execution { .. } => reply is Execution,
            MonitoringRun::Receipt { .. } => reply is Receipt,
            MonitoringRun::Status => reply is Status,
        }
    }

    /// The effects and the turn that follow `reply`.
    pub open spec fn after(self, reply: MonitoringRunReply) -> (Seq<Effect>, MonitoringRunTurn) {
        match self {
            MonitoringRun::Operation { operation_id } => after_operation(
                operation_id,
                reply->Operation_0,
            ),
            MonitoringRun::Payload { operation_id, planned } => after_payload(
                operation_id,
                planned,
                reply->Payload_0,
            ),
            MonitoringRun::Pin { operation_id, planned, payload } => after_pin(
                operation_id,
                planned,
                payload,
                reply->Pin_0,
            ),
            MonitoringRun::Safety { operation_id, planned, payload, pin } => after_safety(
                operation_id,
                planned,
                payload,
                pin,
                reply->Safety_0,
            ),
            MonitoringRun::Policy { operation_id, planned, payload, pin } => after_policy(
                operation_id,
                planned,
                payload,
                pin,
                reply->Policy_0,
            ),
            MonitoringRun::Claim { operation_id, payload, pin } => after_claim(
                operation_id,
                payload,
                pin,
                reply->Claim_0,
            ),
            MonitoringRun::Attempt { change } => after_attempt(change, reply->Attempt_0),
            MonitoringRun::Connection { change } => after_connection(change, reply->Connection_0),
            MonitoringRun::Backend { change } => after_backend(change, reply->Backend_0),
            MonitoringRun::Execution { change } => after_execution(change, reply->Execution_0),
            MonitoringRun::Receipt { change } => after_receipt(change, reply->Receipt_0),
            MonitoringRun::Status => after_status(reply->Status_0),
        }
    }

    /// Begins a change.
    pub fn start(operation_id: u128) -> (r: MonitoringRunStep)
        ensures
            r.says(
                (
                    Seq::empty(),
                    Turn::Ask {
                        state: MonitoringRun::Operation { operation_id },
                        request: MonitoringRunRequest::LoadOperation { operation_id },
                    },
                ),
            ),
    {
        ask(
            MonitoringRun::Operation { operation_id },
            MonitoringRunRequest::LoadOperation { operation_id },
        )
    }

    /// Takes the answer to the last question.
    pub fn advance(self, reply: MonitoringRunReply) -> (r: MonitoringRunStep)
        requires
            self.awaits(reply),
        ensures
            r.says(self.after(reply)),
    {
        match (self, reply) {
            (
                MonitoringRun::Operation { operation_id },
                MonitoringRunReply::Operation(reply),
            ) => take_operation(operation_id, reply),
            (
                MonitoringRun::Payload { operation_id, planned },
                MonitoringRunReply::Payload(reply),
            ) => take_payload(operation_id, planned, reply),
            (
                MonitoringRun::Pin { operation_id, planned, payload },
                MonitoringRunReply::Pin(reply),
            ) => take_pin(operation_id, planned, payload, reply),
            (
                MonitoringRun::Safety { operation_id, planned, payload, pin },
                MonitoringRunReply::Safety(reply),
            ) => take_safety(operation_id, planned, payload, pin, reply),
            (
                MonitoringRun::Policy { operation_id, planned, payload, pin },
                MonitoringRunReply::Policy(reply),
            ) => take_policy(operation_id, planned, payload, pin, reply),
            (
                MonitoringRun::Claim { operation_id, payload, pin },
                MonitoringRunReply::Claim(reply),
            ) => take_claim(operation_id, payload, pin, reply),
            (
                MonitoringRun::Attempt { change },
                MonitoringRunReply::Attempt(reply),
            ) => take_attempt(change, reply),
            (
                MonitoringRun::Connection { change },
                MonitoringRunReply::Connection(reply),
            ) => take_connection(change, reply),
            (
                MonitoringRun::Backend { change },
                MonitoringRunReply::Backend(reply),
            ) => take_backend(change, reply),
            (
                MonitoringRun::Execution { change },
                MonitoringRunReply::Execution(reply),
            ) => take_execution(change, reply),
            (
                MonitoringRun::Receipt { change },
                MonitoringRunReply::Receipt(reply),
            ) => take_receipt(change, reply),
            (MonitoringRun::Status, MonitoringRunReply::Status(reply)) => take_status(reply),
            _ => unreached(),
        }
    }
}

/// Where a change stands after these answers, if it is still going on and every one of
/// them answered what was asked.
pub open spec fn state_after(
    operation_id: u128,
    replies: Seq<MonitoringRunReply>,
) -> Option<MonitoringRun>
    decreases replies.len(),
{
    if replies.len() == 0 {
        Some(MonitoringRun::Operation { operation_id })
    } else {
        match state_after(operation_id, replies.drop_last()) {
            None => None,
            Some(state) => if state.awaits(replies.last()) {
                match state.after(replies.last()).1 {
                    Turn::Ask { state, .. } => Some(state),
                    Turn::Done(_) => None,
                }
            } else {
                None
            },
        }
    }
}

/// Whether the answers so far say that the operation is a role change and that its
/// statement is the fixed one.
pub open spec fn fixed(
    replies: Seq<MonitoringRunReply>,
    planned: OperationRecord,
    payload: MonitoringPayload,
) -> bool {
    &&& replies.len() >= 2
    &&& replies[0] == MonitoringRunReply::Operation(Ok(planned))
    &&& planned.payload_schema_version == 1 && planned.kind == OperationKind::Privilege
    &&& replies[1] == MonitoringRunReply::Payload(Ok(payload))
    &&& payload.sql@ == role_sql(payload.enabled)@
}

/// Whether, besides, the connection is the proposal's, on PostgreSQL, and may be written.
pub open spec fn scoped_to(
    replies: Seq<MonitoringRunReply>,
    planned: OperationRecord,
    payload: MonitoringPayload,
    pin: PinnedConnection,
) -> bool {
    &&& fixed(replies, planned, payload)
    &&& replies.len() >= 3
    &&& replies[2] == MonitoringRunReply::Pin(Ok(pin))
    &&& in_operation_scope(planned, pin)
    &&& pin.profile.workspace_access.spec_can_write()
    &&& pin.profile.engine == Engine::Postgres
}

/// Whether, besides, writes are enabled and the policy is the proposal's.
pub open spec fn permitted(
    replies: Seq<MonitoringRunReply>,
    payload: MonitoringPayload,
    pin: PinnedConnection,
) -> bool {
    &&& replies.len() >= 5
    &&& replies[0] matches MonitoringRunReply::Operation(Ok(planned))
    &&& scoped_to(replies, planned, payload, pin)
    &&& replies[3] matches MonitoringRunReply::Safety(Ok(settings))
    &&& settings.allow_writes
    &&& replies[4] matches MonitoringRunReply::Policy(Ok(revision))
    &&& revision@ == planned.policy_revision@
}

/// Whether, besides, the operation was claimed.
pub open spec fn claimed(
    operation_id: u128,
    replies: Seq<MonitoringRunReply>,
    change: RoleChange,
) -> bool {
    &&& change.operation_id == operation_id
    &&& permitted(replies, change.payload, change.pin)
    &&& replies.len() >= 6
    &&& replies[5] == MonitoringRunReply::Claim(Ok(change.approved_by))
}

/// Whether, besides, the attempt stands in the audit chain.
pub open spec fn announced(
    operation_id: u128,
    replies: Seq<MonitoringRunReply>,
    change: RoleChange,
) -> bool {
    &&& claimed(operation_id, replies, change)
    &&& replies.len() >= 7
    &&& replies[6] matches MonitoringRunReply::Attempt(Ok(_))
}

/// What the answers must have been for a change to stand where it stands.
pub open spec fn explained(
    operation_id: u128,
    replies: Seq<MonitoringRunReply>,
    state: MonitoringRun,
) -> bool {
    match state {
        MonitoringRun::Operation { operation_id: id } => id == operation_id && replies.len() == 0,
        MonitoringRun::Payload { operation_id: id, planned } => {
            &&& id == operation_id && replies.len() == 1
            &&& replies[0] == MonitoringRunReply::Operation(Ok(planned))
            &&& planned.payload_schema_version == 1 && planned.kind == OperationKind::Privilege
        },
        MonitoringRun::Pin { operation_id: id, planned, payload } => {
            id == operation_id && replies.len() == 2 && fixed(replies, planned, payload)
        },
        MonitoringRun::Safety { operation_id: id, planned, payload, pin } => {
            id == operation_id && replies.len() == 3 && scoped_to(replies, planned, payload, pin)
        },
        MonitoringRun::Policy { operation_id: id, planned, payload, pin } => {
            &&& id == operation_id && replies.len() == 4
            &&& scoped_to(replies, planned, payload, pin)
            &&& replies[3] matches MonitoringRunReply::Safety(Ok(settings))
            &&& settings.allow_writes
        },
        MonitoringRun::Claim { operation_id: id, payload, pin } => {
            id == operation_id && replies.len() == 5 && permitted(replies, payload, pin)
        },
        MonitoringRun::Attempt { change } => replies.len() == 6 && claimed(
            operation_id,
            replies,
            change,
        ),
        MonitoringRun::Connection { change } => replies.len() == 7 && announced(
            operation_id,
            replies,
            change,
        ),
        MonitoringRun::Backend { change } => replies.len() == 8 && announced(
            operation_id,
            replies,
            change,
        ),
        MonitoringRun::Execution { change } => replies.len() == 9 && announced(
            operation_id,
            replies,
            change,
        ),
        MonitoringRun::Receipt { change } => replies.len() == 10 && announced(
            operation_id,
            replies,
            change,
        ),
        MonitoringRun::Status => replies.len() == 11,
    }
}

/// A change stands nowhere that its answers do not explain. In particular the role is set
/// only under an operation that this run claimed, whose statement is one of the two fixed
/// ones, whose scope and policy are unchanged, and whose attempt is in the audit chain.
pub proof fn every_state_is_explained(operation_id: u128, replies: Seq<MonitoringRunReply>)
    ensures
        state_after(operation_id, replies) matches Some(state) ==> explained(operation_id, replies, state),
    decreases replies.len(),
{
    if replies.len() > 0 {
        let earlier = replies.drop_last();
        every_state_is_explained(operation_id, earlier);
        assert(forall|k: int| 0 <= k < earlier.len() ==> earlier[k] == replies[k]);
        match state_after(operation_id, earlier) {
            None => {},
            Some(before) => {
                assert(explained(operation_id, earlier, before));
            },
        }
    }
}

/// Whether an effect ends the claim of this operation.
pub open spec fn settles(effect: Effect, operation_id: u128) -> bool {
    effect matches Effect::Settle { operation_id: id, .. } && id == operation_id
}

/// Once its operation is claimed, a change ends with the claim settled, unless its
/// success was recorded before.
pub proof fn a_claimed_change_ends_settled(
    operation_id: u128,
    replies: Seq<MonitoringRunReply>,
    last: MonitoringRunReply,
)
    requires
        6 <= replies.len() <= 10,
        state_after(operation_id, replies) matches Some(state) && state.awaits(last) && state.after(
            last,
        ).1 is Done,
    ensures
        ({
            let effects = state_after(operation_id, replies)->0.after(last).0;
            effects.len() > 0 && settles(effects.last(), operation_id)
        }),
{
    every_state_is_explained(operation_id, replies);
}

/// Once the role may have been set, no failure is settled as if it had not been.
pub proof fn a_failed_change_stays_unknown(change: RoleChange, error: AppError)
    ensures
        after_execution(change, Err(error)).0.last() matches Effect::Settle {
            settlement: Settlement::OutcomeUnknown { .. },
            ..
        },
        after_receipt(change, Err(error)).0.last() matches Effect::Settle {
            settlement: Settlement::OutcomeUnknown { .. },
            ..
        },
{
}

/// The rows of a change say of a grant that it is one, and of a revocation likewise.
pub proof fn the_action_follows_the_payload(payload: MonitoringPayload)
    requires
        payload.sql@ == role_sql(payload.enabled)@,
    ensures
        change_action(payload.sql@) == if payload.enabled {
            "monitoring:grant"
        } else {
            "monitoring:revoke"
        },
{
    reveal_strlit("GRANT pg_monitor TO CURRENT_USER");
    reveal_strlit("REVOKE pg_monitor FROM CURRENT_USER");
    reveal_strlit("GRANT");
    if payload.enabled {
        assert(payload.sql@.subrange(0, 5) =~= "GRANT"@);
    } else {
        assert(payload.sql@.subrange(0, 5)[0] != "GRANT"@[0]);
    }
}

} // verus!
