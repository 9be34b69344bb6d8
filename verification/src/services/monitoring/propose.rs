//! Proposing to grant or revoke the monitoring role.
use vstd::pervasive::unreached;
use vstd::prelude::*;

use crate::error::AppError;
use crate::model::{Engine, SafetySettings};
use crate::operations::{
    is_time, NewOperation, OperationKind, OperationPlanDisposition, OperationRecord,
    OperationRiskLevel, OperationState, PinnedConnection, PolicySnapshot,
};
use crate::services::effects::{ask, done, Effect, Step, Turn};
use crate::services::monitoring::shared::{
    blocked, monitoring_role_sql, role_sql, scoped, MonitoringScopedFailure,
    MonitoringServiceError,
};
use crate::services::operation_service::{
    actor_for_pin, capture_policy, confirmation_for, person_of, policy_of, required_confirmation,
};
use crate::services::query::desktop_propose::WRITE_PROPOSAL_TTL;
use crate::text::Text;

verus! {

/// What is proposed: to have the role, or not to have it.
#[derive(PartialEq, Eq)]
pub struct MonitoringProposalRequest {
    pub connection_id: u128,
    pub enabled: bool,
}

/// What the desktop shows of the proposal.
#[derive(PartialEq, Eq)]
pub struct MonitoringProposalReceipt {
    pub operation_id: u128,
    pub payload_hash: String,
    pub state: OperationState,
    pub enabled: bool,
    pub sql: &'static str,
    pub confirmation_phrase: Option<&'static str>,
    pub expires_at: i128,
}

/// How proposing ends.
pub type MonitoringProposeEnd = Result<MonitoringProposalReceipt, MonitoringServiceError>;

/// Where proposing stands: what it is waiting to hear.
#[derive(PartialEq, Eq)]
pub enum MonitoringPropose {
    Pin { enabled: bool },
    Safety { enabled: bool, pin: PinnedConnection },
    Policy { enabled: bool, pin: PinnedConnection, settings: SafetySettings },
    Plan { enabled: bool, expires_at: i128 },
}

/// What is kept with a proposal for people to look at.
#[derive(Debug, Clone, Copy, PartialEq, Eq)]
pub struct MonitoringPreview {
    pub action: &'static str,
    pub role: &'static str,
    pub sql: &'static str,
}

/// The preview of granting the role, or of revoking it.
pub open spec fn role_preview(enabled: bool) -> MonitoringPreview {
    MonitoringPreview {
        action: if enabled {
            "grant"
        } else {
            "revoke"
        },
        role: "pg_monitor",
        sql: role_sql(enabled),
    }
}

/// Computes [`role_preview`].
pub fn preview_role(enabled: bool) -> (r: MonitoringPreview)
    ensures
        r == role_preview(enabled),
{
    MonitoringPreview {
        action: if enabled {
            "grant"
        } else {
            "revoke"
        },
        role: "pg_monitor",
        sql: monitoring_role_sql(enabled),
    }
}

/// What proposing asks of the outside world.
#[derive(PartialEq, Eq)]
pub enum MonitoringProposeRequest {
    /// Look the connection up in the current scope, for viewing, and hold on to the scope.
    PinForView { connection_id: u128 },
    /// Load the safety settings.
    LoadSafety { connection_id: u128 },
    /// Compute the revision of this policy, draw a fresh id and read the clock.
    HashPolicy { snapshot: PolicySnapshot },
    /// Store this operation, whose payload is whether to grant and the SQL, with this preview.
    Plan {
        operation: NewOperation,
        enabled: bool,
        sql: &'static str,
        preview: MonitoringPreview,
    },
}

/// What the outside world answers.
#[derive(PartialEq, Eq)]
pub enum MonitoringProposeReply {
    Pin(Result<PinnedConnection, AppError>),
    Safety(Result<SafetySettings, AppError>),
    Policy { revision: Result<String, AppError>, fresh_id: u128, now: i128 },
    Plan(Result<OperationRecord, AppError>),
}

/// A step of proposing.
pub type MonitoringProposeStep = Step<
    MonitoringPropose,
    MonitoringProposeRequest,
    MonitoringProposeEnd,
>;

/// What follows an answer while the role change is proposed.
pub type MonitoringProposeTurn = Turn<
    MonitoringPropose,
    MonitoringProposeRequest,
    MonitoringProposeEnd,
>;

/// The end of a proposal that was refused in its scope.
pub open spec fn refused(error: AppError) -> (Seq<Effect>, MonitoringProposeTurn) {
    (Seq::empty(), Turn::Done(Err(scoped(error))))
}

fn refuse(error: AppError) -> (r: MonitoringProposeStep)
    ensures
        r.says(refused(error)),
{
    done(Err(MonitoringServiceError::Scoped(MonitoringScopedFailure { error })))
}

/// The end of a proposal that failed.
pub open spec fn failed(error: AppError) -> (Seq<Effect>, MonitoringProposeTurn) {
    (Seq::empty(), Turn::Done(Err(MonitoringServiceError::Application(error))))
}

fn fail(error: AppError) -> (r: MonitoringProposeStep)
    ensures
        r.says(failed(error)),
{
    done(Err(MonitoringServiceError::Application(error)))
}

/// What follows once the connection was looked up.
pub open spec fn after_pin(enabled: bool, reply: Result<PinnedConnection, AppError>) -> (
    Seq<Effect>,
    MonitoringProposeTurn,
) {
    match reply {
        Err(error) => refused(error),
        Ok(pin) => if !pin.profile.workspace_access.spec_can_write() {
            refused(blocked("your workspace role cannot change database monitoring grants"))
        } else if pin.profile.engine != Engine::Postgres {
            refused(
                AppError::Config(
                    Text::Plain("pg_monitor is only available for PostgreSQL connections"),
                ),
            )
        } else {
            (
                Seq::empty(),
                Turn::Ask {
                    state: MonitoringPropose::Safety { enabled, pin },
                    request: MonitoringProposeRequest::LoadSafety {
                        connection_id: pin.connection_id,
                    },
                },
            )
        },
    }
}

fn take_pin(enabled: bool, reply: Result<PinnedConnection, AppError>) -> (r: MonitoringProposeStep)
    ensures
        r.says(after_pin(enabled, reply)),
{
    match reply {
        Err(error) => refuse(error),
        Ok(pin) => {
            if !pin.profile.workspace_access.can_write() {
                refuse(
                    AppError::Blocked {
                        reason: Text::Plain(
                            "your workspace role cannot change database monitoring grants",
                        ),
                    },
                )
            } else if pin.profile.engine != Engine::Postgres {
                refuse(
                    AppError::Config(
                        Text::Plain("pg_monitor is only available for PostgreSQL connections"),
                    ),
                )
            } else {
                let connection_id = pin.connection_id;
                ask(
                    MonitoringPropose::Safety { enabled, pin },
                    MonitoringProposeRequest::LoadSafety { connection_id },
                )
            }
        },
    }
}

/// What follows once the safety settings were loaded.
pub open spec fn after_safety(
    enabled: bool,
    pin: PinnedConnection,
    reply: Result<SafetySettings, AppError>,
) -> (Seq<Effect>, MonitoringProposeTurn) {
    match reply {
        Err(error) => failed(error),
        Ok(settings) => if !settings.allow_writes {
            refused(blocked("writes are disabled for this connection"))
        } else {
            (
                Seq::empty(),
                Turn::Ask {
                    state: MonitoringPropose::Policy { enabled, pin, settings },
                    request: MonitoringProposeRequest::HashPolicy {
                        snapshot: policy_of(pin, Some(settings)),
                    },
                },
            )
        },
    }
}

fn take_safety(enabled: bool, pin: PinnedConnection, reply: Result<SafetySettings, AppError>) -> (r:
    MonitoringProposeStep)
    ensures
        r.says(after_safety(enabled, pin, reply)),
{
    match reply {
        Err(error) => fail(error),
        Ok(settings) => {
            if !settings.allow_writes {
                refuse(
                    AppError::Blocked {
                        reason: Text::Plain("writes are disabled for this connection"),
                    },
                )
            } else {
                let snapshot = capture_policy(&pin, &settings);
                ask(
                    MonitoringPropose::Policy { enabled, pin, settings },
                    MonitoringProposeRequest::HashPolicy { snapshot },
                )
            }
        },
    }
}

/// The operation that stands for the proposal. It always waits for a person.
pub open spec fn proposed_operation(
    pin: PinnedConnection,
    settings: SafetySettings,
    revision: String,
    operation_id: u128,
    now: i128,
) -> NewOperation {
    NewOperation {
        id: operation_id,
        workspace_id: pin.scope.workspace_id,
        account_scope: pin.scope.account_scope.key(),
        connection_id: pin.connection_id,
        connection_revision: pin.connection_revision,
        terminal_session_id: None,
        actor: person_of(pin, Text::Plain("settings-safety-monitoring")),
        kind: OperationKind::Privilege,
        payload_schema_version: 1,
        risk_level: OperationRiskLevel::High,
        policy_snapshot: policy_of(pin, Some(settings)),
        policy_revision: revision,
        single_use: true,
        idempotency_key: operation_id,
        expires_at: (now + WRITE_PROPOSAL_TTL) as i128,
        disposition: OperationPlanDisposition::ApprovalRequired,
    }
}

/// What follows once the policy was hashed.
pub open spec fn after_policy(
    enabled: bool,
    pin: PinnedConnection,
    settings: SafetySettings,
    revision: Result<String, AppError>,
    fresh_id: u128,
    now: i128,
) -> (Seq<Effect>, MonitoringProposeTurn) {
    match revision {
        Err(error) => failed(error),
        Ok(revision) => (
            Seq::empty(),
            Turn::Ask {
                state: MonitoringPropose::Plan {
                    enabled,
                    expires_at: (now + WRITE_PROPOSAL_TTL) as i128,
                },
                request: MonitoringProposeRequest::Plan {
                    operation: proposed_operation(pin, settings, revision, fresh_id, now),
                    enabled,
                    sql: role_sql(enabled),
                    preview: role_preview(enabled),
                },
            },
        ),
    }
}

fn take_policy(
    enabled: bool,
    pin: PinnedConnection,
    settings: SafetySettings,
    revision: Result<String, AppError>,
    fresh_id: u128,
    now: i128,
) -> (r: MonitoringProposeStep)
    requires
        is_time(now),
    ensures
        r.says(after_policy(enabled, pin, settings, revision, fresh_id, now)),
{
    match revision {
        Err(error) => fail(error),
        Ok(revision) => {
            let expires_at: i128 = now + WRITE_PROPOSAL_TTL;
            let operation = NewOperation {
                id: fresh_id,
                workspace_id: pin.scope.workspace_id,
                account_scope: pin.scope.account_scope.storage_key(),
                connection_id: pin.connection_id,
                connection_revision: pin.connection_revision,
                terminal_session_id: None,
                actor: actor_for_pin(&pin, Text::Plain("settings-safety-monitoring")),
                kind: OperationKind::Privilege,
                payload_schema_version: 1,
                risk_level: OperationRiskLevel::High,
                policy_snapshot: capture_policy(&pin, &settings),
                policy_revision: revision,
                single_use: true,
                idempotency_key: fresh_id,
                expires_at,
                disposition: OperationPlanDisposition::ApprovalRequired,
            };
            ask(
                MonitoringPropose::Plan { enabled, expires_at },
                MonitoringProposeRequest::Plan {
                    operation,
                    enabled,
                    sql: monitoring_role_sql(enabled),
                    preview: preview_role(enabled),
                },
            )
        },
    }
}

/// What follows once the proposal was stored.
pub open spec fn after_plan(
    enabled: bool,
    expires_at: i128,
    reply: Result<OperationRecord, AppError>,
) -> (Seq<Effect>, MonitoringProposeTurn) {
    match reply {
        Err(error) => failed(error),
        Ok(operation) => (
            Seq::empty(),
            Turn::Done(
                Ok(
                    MonitoringProposalReceipt {
                        operation_id: operation.id,
                        payload_hash: operation.payload_hash,
                        state: operation.state,
                        enabled,
                        sql: role_sql(enabled),
                        confirmation_phrase: confirmation_for(operation),
                        expires_at,
                    },
                ),
            ),
        ),
    }
}

fn take_plan(enabled: bool, expires_at: i128, reply: Result<OperationRecord, AppError>) -> (r:
    MonitoringProposeStep)
    ensures
        r.says(after_plan(enabled, expires_at, reply)),
{
    match reply {
        Err(error) => fail(error),
        Ok(operation) => {
            let confirmation_phrase = required_confirmation(&operation);
            done(
                Ok(
                    MonitoringProposalReceipt {
                        operation_id: operation.id,
                        payload_hash: operation.payload_hash,
                        state: operation.state,
                        enabled,
                        sql: monitoring_role_sql(enabled),
                        confirmation_phrase,
                        expires_at,
                    },
                ),
            )
        },
    }
}

impl MonitoringPropose {
    /// Whether `reply` answers what is awaited.
    pub open spec fn awaits(self, reply: MonitoringProposeReply) -> bool {
        match self {
            MonitoringPropose::Pin { .. } => reply is Pin,
            MonitoringPropose::Safety { .. } => reply is Safety,
            MonitoringPropose::Policy { .. } => reply is Policy && is_time(reply->now),
            MonitoringPropose::Plan { .. } => reply is Plan,
        }
    }

    /// The effects and the turn that follow `reply`.
    pub open spec fn after(
        self,
        reply: MonitoringProposeReply,
    ) -> (Seq<Effect>, MonitoringProposeTurn) {
        match self {
            MonitoringPropose::Pin { enabled } => after_pin(enabled, reply->Pin_0),
            MonitoringPropose::Safety { enabled, pin } => after_safety(
                enabled,
                pin,
                reply->Safety_0,
            ),
            MonitoringPropose::Policy { enabled, pin, settings } => after_policy(
                enabled,
                pin,
                settings,
                reply->revision,
                reply->fresh_id,
                reply->now,
            ),
            MonitoringPropose::Plan { enabled, expires_at } => after_plan(
                enabled,
                expires_at,
                reply->Plan_0,
            ),
        }
    }

    /// Begins to propose.
    pub fn start(request: MonitoringProposalRequest) -> (r: MonitoringProposeStep)
        ensures
            r.says(
                (
                    Seq::empty(),
                    Turn::Ask {
                        state: MonitoringPropose::Pin { enabled: request.enabled },
                        request: MonitoringProposeRequest::PinForView {
                            connection_id: request.connection_id,
                        },
                    },
                ),
            ),
    {
        ask(
            MonitoringPropose::Pin { enabled: request.enabled },
            MonitoringProposeRequest::PinForView { connection_id: request.connection_id },
        )
    }

    /// Takes the answer to the last question.
    pub fn advance(self, reply: MonitoringProposeReply) -> (r: MonitoringProposeStep)
        requires
            self.awaits(reply),
        ensures
            r.says(self.after(reply)),
    {
        match (self, reply) {
            (
                MonitoringPropose::Pin { enabled },
                MonitoringProposeReply::Pin(reply),
            ) => take_pin(enabled, reply),
            (
                MonitoringPropose::Safety { enabled, pin },
                MonitoringProposeReply::Safety(reply),
            ) => take_safety(enabled, pin, reply),
            (
                MonitoringPropose::Policy { enabled, pin, settings },
                MonitoringProposeReply::Policy { revision, fresh_id, now },
            ) => take_policy(enabled, pin, settings, revision, fresh_id, now),
            (
                MonitoringPropose::Plan { enabled, expires_at },
                MonitoringProposeReply::Plan(reply),
            ) => take_plan(enabled, expires_at, reply),
            _ => unreached(),
        }
    }
}

} // verus!
