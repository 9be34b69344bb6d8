//! Claiming an agent's plan and checking it against the present.
use vstd::pervasive::unreached;
use vstd::prelude::*;

use crate::error::AppError;
use crate::model::{Classification, ConnectionAccess, Engine, QueryKind, SafetySettings};
use crate::operations::{
    OperationActorKind, OperationKind, OperationRecord, OperationState, PinnedConnection,
    PolicySnapshot,
};
use crate::services::effects::{ask, done, Effect, Settlement, Step, Turn};
use crate::services::operation_service::{
    capture_agent_read_policy, ensure_operation_scope, in_operation_scope, policy_of,
};
use crate::services::query::agent::{
    min_rows, smaller, AgentQueryInvocationOrigin, AgentReadPayload, MAX_AGENT_ROWS,
};
use crate::text::same_text;

verus! {

/// What may be said of a run before it starts.
#[derive(PartialEq, Eq)]
pub struct AgentQueryRunEventContext {
    pub connection_id: u128,
    pub connection_name: String,
    pub plan_id: u128,
    pub sql: String,
}

/// A claimed plan that was found unchanged and may be executed once.
#[derive(PartialEq, Eq)]
pub struct PreparedAgentQueryRun {
    pub pin: PinnedConnection,
    pub event_context: AgentQueryRunEventContext,
    pub decision: String,
    pub max_rows: u64,
    pub origin: AgentQueryInvocationOrigin,
}

/// Why a plan cannot be run. Whatever the reason, the plan is used up.
#[derive(PartialEq, Eq)]
pub enum AgentQueryRunPrepareError {
    /// There is no such plan, or an earlier attempt has used it up.
    UnknownOrAlreadyUsed,
    /// The plan was older than its lifetime.
    Expired,
    /// The scope, the connection or the policy is not what it was.
    AuthorityChanged,
    /// What is stored is not an agent's plan of a single read.
    StoredPlanInvalid,
    Application(AppError),
}

/// How preparing a run ends.
pub type AgentPrepareEnd = Result<PreparedAgentQueryRun, AgentQueryRunPrepareError>;

/// Where preparing a run stands: what it is waiting to hear.
#[derive(PartialEq, Eq)]
pub enum AgentPrepare {
    Operation { plan_id: u128 },
    Payload { plan_id: u128, planned: OperationRecord },
    Claim { plan_id: u128, planned: OperationRecord, payload: AgentReadPayload },
    Pin { plan_id: u128, planned: OperationRecord, payload: AgentReadPayload },
    Safety {
        plan_id: u128,
        planned: OperationRecord,
        payload: AgentReadPayload,
        pin: PinnedConnection,
    },
    Policy {
        plan_id: u128,
        planned: OperationRecord,
        payload: AgentReadPayload,
        pin: PinnedConnection,
        settings: SafetySettings,
    },
    Classification {
        plan_id: u128,
        payload: AgentReadPayload,
        pin: PinnedConnection,
        settings: SafetySettings,
    },
}

/// What preparing a run asks of the outside world.
#[derive(PartialEq, Eq)]
pub enum AgentPrepareRequest {
    /// Load the operation.
    LoadOperation { plan_id: u128 },
    /// Decode the payload of the operation just loaded.
    DecodePayload,
    /// Read the clock, then claim the operation.
    Claim { plan_id: u128 },
    /// Look the connection up in the current scope and hold on to that scope.
    PinConnection { connection_id: u128, access: ConnectionAccess },
    /// Load the safety settings.
    LoadSafety { connection_id: u128 },
    /// Compute the revision of this policy.
    HashPolicy { snapshot: PolicySnapshot },
    /// Classify the SQL.
    Classify { sql: String, engine: Engine },
}

/// What the outside world answers.
#[derive(PartialEq, Eq)]
pub enum AgentPrepareReply {
    Operation(Result<OperationRecord, AppError>),
    /// Nothing where the payload could not be decoded.
    Payload(Option<AgentReadPayload>),
    Claim { now: i128, claimed: Result<(), AppError> },
    Pin(Result<PinnedConnection, AppError>),
    Safety(Result<SafetySettings, AppError>),
    Policy(Result<String, AppError>),
    Classification(Result<Classification, AppError>),
}

/// A step of preparing a run.
pub type AgentPrepareStep = Step<AgentPrepare, AgentPrepareRequest, AgentPrepareEnd>;

/// What follows an answer while a run is prepared.
pub type AgentPrepareTurn = Turn<AgentPrepare, AgentPrepareRequest, AgentPrepareEnd>;

/// The end of an attempt that did not come to a claim of its own: the plan is withdrawn, so
/// that no later attempt can claim it.
pub open spec fn withdrawn(
    plan_id: u128,
    reason: &'static str,
    cause: Option<AppError>,
    error: AgentQueryRunPrepareError,
) -> (Seq<Effect>, AgentPrepareTurn) {
    (
        seq![
            Effect::Settle {
                operation_id: plan_id,
                settlement: Settlement::Withdrawn { reason, error: cause },
            },
        ],
        Turn::Done(Err(error)),
    )
}

fn withdraw(
    plan_id: u128,
    reason: &'static str,
    cause: Option<AppError>,
    error: AgentQueryRunPrepareError,
) -> (r: AgentPrepareStep)
    ensures
        r.says(withdrawn(plan_id, reason, cause, error)),
{
    let mut effects: Vec<Effect> = Vec::new();
    effects.push(
        Effect::Settle {
            operation_id: plan_id,
            settlement: Settlement::Withdrawn { reason, error: cause },
        },
    );
    assert(effects@ =~= withdrawn(plan_id, reason, cause, error).0);
    Step { effects, turn: Turn::Done(Err(error)) }
}

/// The end of an attempt that an outside failure kept from claiming the plan.
pub open spec fn unclaimed(plan_id: u128, reason: &'static str, error: AppError) -> (
    Seq<Effect>,
    AgentPrepareTurn,
) {
    withdrawn(plan_id, reason, Some(error), AgentQueryRunPrepareError::Application(error))
}

fn leave_unclaimed(plan_id: u128, reason: &'static str, error: AppError) -> (r: AgentPrepareStep)
    ensures
        r.says(unclaimed(plan_id, reason, error)),
{
    let cause = error.duplicate();
    withdraw(plan_id, reason, Some(cause), AgentQueryRunPrepareError::Application(error))
}

/// The end of a claim that leads to nothing.
pub open spec fn given_up(
    plan_id: u128,
    reason: &'static str,
    cause: Option<AppError>,
    error: AgentQueryRunPrepareError,
) -> (Seq<Effect>, AgentPrepareTurn) {
    (
        seq![
            Effect::Settle {
                operation_id: plan_id,
                settlement: Settlement::Failed { reason, error: cause },
            },
        ],
        Turn::Done(Err(error)),
    )
}

fn give_up(
    plan_id: u128,
    reason: &'static str,
    cause: Option<AppError>,
    error: AgentQueryRunPrepareError,
) -> (r: AgentPrepareStep)
    ensures
        r.says(given_up(plan_id, reason, cause, error)),
{
    let mut effects: Vec<Effect> = Vec::new();
    effects.push(
        Effect::Settle {
            operation_id: plan_id,
            settlement: Settlement::Failed { reason, error: cause },
        },
    );
    assert(effects@ =~= given_up(plan_id, reason, cause, error).0);
    Step { effects, turn: Turn::Done(Err(error)) }
}

/// The end of a claim that an outside failure put an end to.
pub open spec fn failed(plan_id: u128, reason: &'static str, error: AppError) -> (
    Seq<Effect>,
    AgentPrepareTurn,
) {
    given_up(plan_id, reason, Some(error), AgentQueryRunPrepareError::Application(error))
}

fn fail(plan_id: u128, reason: &'static str, error: AppError) -> (r: AgentPrepareStep)
    ensures
        r.says(failed(plan_id, reason, error)),
{
    let cause = error.duplicate();
    give_up(plan_id, reason, Some(cause), AgentQueryRunPrepareError::Application(error))
}

/// Whether an operation is a read that an agent planned.
pub open spec fn is_agent_read(planned: OperationRecord) -> bool {
    &&& planned.payload_schema_version == 1
    &&& planned.kind == OperationKind::ReadQuery
    &&& planned.actor_kind == OperationActorKind::Agent
}

/// What follows once the operation was looked up. An operation that is no agent's plan is left
/// alone.
pub open spec fn after_operation(plan_id: u128, reply: Result<OperationRecord, AppError>) -> (
    Seq<Effect>,
    AgentPrepareTurn,
) {
    match reply {
        Err(AppError::NotFound(_)) => (
            Seq::empty(),
            Turn::Done(Err(AgentQueryRunPrepareError::UnknownOrAlreadyUsed)),
        ),
        Err(error) => unclaimed(plan_id, "operation_unavailable", error),
        Ok(planned) => if is_agent_read(planned) {
            (
                Seq::empty(),
                Turn::Ask {
                    state: AgentPrepare::Payload { plan_id, planned },
                    request: AgentPrepareRequest::DecodePayload,
                },
            )
        } else {
            (Seq::empty(), Turn::Done(Err(AgentQueryRunPrepareError::StoredPlanInvalid)))
        },
    }
}

fn take_operation(plan_id: u128, reply: Result<OperationRecord, AppError>) -> (r: AgentPrepareStep)
    ensures
        r.says(after_operation(plan_id, reply)),
{
    match reply {
        Err(AppError::NotFound(_)) => done(Err(AgentQueryRunPrepareError::UnknownOrAlreadyUsed)),
        Err(error) => leave_unclaimed(plan_id, "operation_unavailable", error),
        Ok(planned) => {
            if planned.payload_schema_version != 1 || planned.kind != OperationKind::ReadQuery
                || planned.actor_kind != OperationActorKind::Agent {
                done(Err(AgentQueryRunPrepareError::StoredPlanInvalid))
            } else {
                ask(
                    AgentPrepare::Payload { plan_id, planned },
                    AgentPrepareRequest::DecodePayload,
                )
            }
        },
    }
}

/// What follows once the payload was decoded: the plan must be the origin's own and must
/// not have been marked expired.
pub open spec fn after_payload(
    plan_id: u128,
    planned: OperationRecord,
    reply: Option<AgentReadPayload>,
) -> (Seq<Effect>, AgentPrepareTurn) {
    match reply {
        None => withdrawn(
            plan_id,
            "stored_plan_undecodable",
            None,
            AgentQueryRunPrepareError::StoredPlanInvalid,
        ),
        Some(payload) => if planned.actor_id@ != payload.origin.name()@ {
            withdrawn(
                plan_id,
                "stored_plan_actor_mismatch",
                None,
                AgentQueryRunPrepareError::StoredPlanInvalid,
            )
        } else if planned.state == OperationState::Expired {
            (Seq::empty(), Turn::Done(Err(AgentQueryRunPrepareError::UnknownOrAlreadyUsed)))
        } else {
            (
                Seq::empty(),
                Turn::Ask {
                    state: AgentPrepare::Claim { plan_id, planned, payload },
                    request: AgentPrepareRequest::Claim { plan_id },
                },
            )
        },
    }
}

fn take_payload(plan_id: u128, planned: OperationRecord, reply: Option<AgentReadPayload>) -> (r:
    AgentPrepareStep)
    ensures
        r.says(after_payload(plan_id, planned, reply)),
{
    match reply {
        None => withdraw(
            plan_id,
            "stored_plan_undecodable",
            None,
            AgentQueryRunPrepareError::StoredPlanInvalid,
        ),
        Some(payload) => {
            if !same_text(planned.actor_id.as_str(), payload.origin.as_str()) {
                withdraw(
                    plan_id,
                    "stored_plan_actor_mismatch",
                    None,
                    AgentQueryRunPrepareError::StoredPlanInvalid,
                )
            } else if planned.state == OperationState::Expired {
                done(Err(AgentQueryRunPrepareError::UnknownOrAlreadyUsed))
            } else {
                ask(
                    AgentPrepare::Claim { plan_id, planned, payload },
                    AgentPrepareRequest::Claim { plan_id },
                )
            }
        },
    }
}

/// Whether the plan's time had run out when the clock was read. At exactly its boundary a plan
/// is still valid.
pub open spec fn expired_at(planned: OperationRecord, now: i128) -> bool {
    planned.expires_at matches Some(expires_at) && expires_at < now
}

/// What follows once the operation was, or was not, claimed. A plan that could not be claimed,
/// though it is ready, is withdrawn.
pub open spec fn after_claim(
    plan_id: u128,
    planned: OperationRecord,
    payload: AgentReadPayload,
    now: i128,
    claimed: Result<(), AppError>,
) -> (Seq<Effect>, AgentPrepareTurn) {
    match claimed {
        Ok(_) => (
            Seq::empty(),
            Turn::Ask {
                state: AgentPrepare::Pin { plan_id, planned, payload },
                request: AgentPrepareRequest::PinConnection {
                    connection_id: planned.connection_id,
                    access: ConnectionAccess::Read,
                },
            },
        ),
        Err(error) => if expired_at(planned, now) {
            withdrawn(plan_id, "plan_expired", None, AgentQueryRunPrepareError::Expired)
        } else if planned.state != OperationState::Ready {
            (Seq::empty(), Turn::Done(Err(AgentQueryRunPrepareError::UnknownOrAlreadyUsed)))
        } else {
            unclaimed(plan_id, "plan_claim_failed", error)
        },
    }
}

fn take_claim(
    plan_id: u128,
    planned: OperationRecord,
    payload: AgentReadPayload,
    now: i128,
    claimed: Result<(), AppError>,
) -> (r: AgentPrepareStep)
    ensures
        r.says(after_claim(plan_id, planned, payload, now, claimed)),
{
    match claimed {
        Ok(_) => {
            let connection_id = planned.connection_id;
            ask(
                AgentPrepare::Pin { plan_id, planned, payload },
                AgentPrepareRequest::PinConnection {
                    connection_id,
                    access: ConnectionAccess::Read,
                },
            )
        },
        Err(error) => {
            let expired = match planned.expires_at {
                Some(expires_at) => expires_at < now,
                None => false,
            };
            if expired {
                withdraw(plan_id, "plan_expired", None, AgentQueryRunPrepareError::Expired)
            } else if planned.state != OperationState::Ready {
                done(Err(AgentQueryRunPrepareError::UnknownOrAlreadyUsed))
            } else {
                leave_unclaimed(plan_id, "plan_claim_failed", error)
            }
        },
    }
}

/// What follows once the connection was looked up.
pub open spec fn after_pin(
    plan_id: u128,
    planned: OperationRecord,
    payload: AgentReadPayload,
    reply: Result<PinnedConnection, AppError>,
) -> (Seq<Effect>, AgentPrepareTurn) {
    match reply {
        Err(error) => failed(plan_id, "connection_scope_unavailable", error),
        Ok(pin) => if in_operation_scope(planned, pin) {
            (
                Seq::empty(),
                Turn::Ask {
                    state: AgentPrepare::Safety { plan_id, planned, payload, pin },
                    request: AgentPrepareRequest::LoadSafety { connection_id: pin.connection_id },
                },
            )
        } else {
            given_up(
                plan_id,
                "operation_authority_changed",
                None,
                AgentQueryRunPrepareError::AuthorityChanged,
            )
        },
    }
}

fn take_pin(
    plan_id: u128,
    planned: OperationRecord,
    payload: AgentReadPayload,
    reply: Result<PinnedConnection, AppError>,
) -> (r: AgentPrepareStep)
    ensures
        r.says(after_pin(plan_id, planned, payload, reply)),
{
    match reply {
        Err(error) => fail(plan_id, "connection_scope_unavailable", error),
        Ok(pin) => match ensure_operation_scope(&planned, &pin) {
            Err(_) => give_up(
                plan_id,
                "operation_authority_changed",
                None,
                AgentQueryRunPrepareError::AuthorityChanged,
            ),
            Ok(_) => {
                let connection_id = pin.connection_id;
                ask(
                    AgentPrepare::Safety { plan_id, planned, payload, pin },
                    AgentPrepareRequest::LoadSafety { connection_id },
                )
            },
        },
    }
}

/// What follows once the safety settings were loaded.
pub open spec fn after_safety(
    plan_id: u128,
    planned: OperationRecord,
    payload: AgentReadPayload,
    pin: PinnedConnection,
    reply: Result<SafetySettings, AppError>,
) -> (Seq<Effect>, AgentPrepareTurn) {
    match reply {
        Err(error) => failed(plan_id, "safety_policy_unavailable", error),
        Ok(settings) => (
            Seq::empty(),
            Turn::Ask {
                state: AgentPrepare::Policy { plan_id, planned, payload, pin, settings },
                request: AgentPrepareRequest::HashPolicy { snapshot: policy_of(pin, None) },
            },
        ),
    }
}

fn take_safety(
    plan_id: u128,
    planned: OperationRecord,
    payload: AgentReadPayload,
    pin: PinnedConnection,
    reply: Result<SafetySettings, AppError>,
) -> (r: AgentPrepareStep)
    ensures
        r.says(after_safety(plan_id, planned, payload, pin, reply)),
{
    match reply {
        Err(error) => fail(plan_id, "safety_policy_unavailable", error),
        Ok(settings) => {
            let snapshot = capture_agent_read_policy(&pin);
            ask(
                AgentPrepare::Policy { plan_id, planned, payload, pin, settings },
                AgentPrepareRequest::HashPolicy { snapshot },
            )
        },
    }
}

/// What follows once the current policy was hashed.
pub open spec fn after_policy(
    plan_id: u128,
    planned: OperationRecord,
    payload: AgentReadPayload,
    pin: PinnedConnection,
    settings: SafetySettings,
    reply: Result<String, AppError>,
) -> (Seq<Effect>, AgentPrepareTurn) {
    match reply {
        Err(error) => failed(plan_id, "policy_snapshot_failed", error),
        Ok(revision) => if revision@ == planned.policy_revision@ {
            (
                Seq::empty(),
                Turn::Ask {
                    state: AgentPrepare::Classification { plan_id, payload, pin, settings },
                    request: AgentPrepareRequest::Classify {
                        sql: payload.sql,
                        engine: pin.profile.engine,
                    },
                },
            )
        } else {
            given_up(
                plan_id,
                "operation_policy_changed",
                None,
                AgentQueryRunPrepareError::AuthorityChanged,
            )
        },
    }
}

fn take_policy(
    plan_id: u128,
    planned: OperationRecord,
    payload: AgentReadPayload,
    pin: PinnedConnection,
    settings: SafetySettings,
    reply: Result<String, AppError>,
) -> (r: AgentPrepareStep)
    ensures
        r.says(after_policy(plan_id, planned, payload, pin, settings, reply)),
{
    match reply {
        Err(error) => fail(plan_id, "policy_snapshot_failed", error),
        Ok(revision) => {
            if same_text(revision.as_str(), planned.policy_revision.as_str()) {
                let sql = payload.sql.clone();
                let engine = pin.profile.engine;
                ask(
                    AgentPrepare::Classification { plan_id, payload, pin, settings },
                    AgentPrepareRequest::Classify { sql, engine },
                )
            } else {
                give_up(
                    plan_id,
                    "operation_policy_changed",
                    None,
                    AgentQueryRunPrepareError::AuthorityChanged,
                )
            }
        },
    }
}

/// The run that a plan is good for. The cap frozen in the plan can only get smaller.
pub open spec fn prepared_run(
    plan_id: u128,
    payload: AgentReadPayload,
    pin: PinnedConnection,
    settings: SafetySettings,
) -> PreparedAgentQueryRun {
    PreparedAgentQueryRun {
        pin,
        event_context: AgentQueryRunEventContext {
            connection_id: pin.connection_id,
            connection_name: pin.profile.name,
            plan_id,
            sql: payload.sql,
        },
        decision: payload.decision,
        max_rows: smaller(smaller(payload.max_rows, settings.max_rows), MAX_AGENT_ROWS),
        origin: payload.origin,
    }
}

/// What follows once the SQL was classified.
pub open spec fn after_classification(
    plan_id: u128,
    payload: AgentReadPayload,
    pin: PinnedConnection,
    settings: SafetySettings,
    reply: Result<Classification, AppError>,
) -> (Seq<Effect>, AgentPrepareTurn) {
    match reply {
        Err(error) => failed(plan_id, "stored_plan_reclassification_failed", error),
        Ok(classification) => if classification.spec_is_single_read() {
            (Seq::empty(), Turn::Done(Ok(prepared_run(plan_id, payload, pin, settings))))
        } else {
            given_up(
                plan_id,
                "stored_plan_classification_changed",
                None,
                AgentQueryRunPrepareError::StoredPlanInvalid,
            )
        },
    }
}

fn take_classification(
    plan_id: u128,
    payload: AgentReadPayload,
    pin: PinnedConnection,
    settings: SafetySettings,
    reply: Result<Classification, AppError>,
) -> (r: AgentPrepareStep)
    ensures
        r.says(after_classification(plan_id, payload, pin, settings, reply)),
{
    match reply {
        Err(error) => fail(plan_id, "stored_plan_reclassification_failed", error),
        Ok(classification) => {
            if classification.is_single_read() {
                let connection_id = pin.connection_id;
                let connection_name = pin.profile.name.clone();
                let max_rows = min_rows(
                    min_rows(payload.max_rows, settings.max_rows),
                    MAX_AGENT_ROWS,
                );
                done(
                    Ok(
                        PreparedAgentQueryRun {
                            pin,
                            event_context: AgentQueryRunEventContext {
                                connection_id,
                                connection_name,
                                plan_id,
                                sql: payload.sql,
                            },
                            decision: payload.decision,
                            max_rows,
                            origin: payload.origin,
                        },
                    ),
                )
            } else {
                give_up(
                    plan_id,
                    "stored_plan_classification_changed",
                    None,
                    AgentQueryRunPrepareError::StoredPlanInvalid,
                )
            }
        },
    }
}

impl AgentPrepare {
    /// Whether `reply` answers what is awaited.
    pub open spec fn awaits(self, reply: AgentPrepareReply) -> bool {
        match self {
            AgentPrepare::Operation { .. } => reply is Operation,
            AgentPrepare::Payload { .. } => reply is Payload,
            AgentPrepare::Claim { .. } => reply is Claim,
            AgentPrepare::Pin { .. } => reply is Pin,
            AgentPrepare::Safety { .. } => reply is Safety,
            AgentPrepare::Policy { .. } => reply is Policy,
            AgentPrepare::Classification { .. } => reply is Classification,
        }
    }

    /// The effects and the turn that follow `reply`.
    pub open spec fn after(self, reply: AgentPrepareReply) -> (Seq<Effect>, AgentPrepareTurn) {
        match self {
            AgentPrepare::Operation { plan_id } => after_operation(plan_id, reply->Operation_0),
            AgentPrepare::Payload { plan_id, planned } => after_payload(
                plan_id,
                planned,
                reply->Payload_0,
            ),
            AgentPrepare::Claim { plan_id, planned, payload } => after_claim(
                plan_id,
                planned,
                payload,
                reply->now,
                reply->claimed,
            ),
            AgentPrepare::Pin { plan_id, planned, payload } => after_pin(
                plan_id,
                planned,
                payload,
                reply->Pin_0,
            ),
            AgentPrepare::Safety { plan_id, planned, payload, pin } => after_safety(
                plan_id,
                planned,
                payload,
                pin,
                reply->Safety_0,
            ),
            AgentPrepare::Policy { plan_id, planned, payload, pin, settings } => after_policy(
                plan_id,
                planned,
                payload,
                pin,
                settings,
                reply->Policy_0,
            ),
            AgentPrepare::Classification { plan_id, payload, pin, settings } =>
                after_classification(plan_id, payload, pin, settings, reply->Classification_0),
        }
    }

    /// Begins to prepare the run of a plan.
    pub fn start(plan_id: u128) -> (r: AgentPrepareStep)
        ensures
            r.says(
                (
                    Seq::empty(),
                    Turn::Ask {
                        state: AgentPrepare::Operation { plan_id },
                        request: AgentPrepareRequest::LoadOperation { plan_id },
                    },
                ),
            ),
    {
        ask(AgentPrepare::Operation { plan_id }, AgentPrepareRequest::LoadOperation { plan_id })
    }

    /// Takes the answer to the last question.
    pub fn advance(self, reply: AgentPrepareReply) -> (r: AgentPrepareStep)
        requires
            self.awaits(reply),
        ensures
            r.says(self.after(reply)),
    {
        match (self, reply) {
            (AgentPrepare::Operation { plan_id }, AgentPrepareReply::Operation(reply)) =>
            take_operation(plan_id, reply),
            (AgentPrepare::Payload { plan_id, planned }, AgentPrepareReply::Payload(reply)) =>
            take_payload(plan_id, planned, reply),
            (
                AgentPrepare::Claim { plan_id, planned, payload },
                AgentPrepareReply::Claim { now, claimed },
            ) => take_claim(plan_id, planned, payload, now, claimed),
            (AgentPrepare::Pin { plan_id, planned, payload }, AgentPrepareReply::Pin(reply)) =>
            take_pin(plan_id, planned, payload, reply),
            (
                AgentPrepare::Safety { plan_id, planned, payload, pin },
                AgentPrepareReply::Safety(reply),
            ) => take_safety(plan_id, planned, payload, pin, reply),
            (
                AgentPrepare::Policy { plan_id, planned, payload, pin, settings },
                AgentPrepareReply::Policy(reply),
            ) => take_policy(plan_id, planned, payload, pin, settings, reply),
            (
                AgentPrepare::Classification { plan_id, payload, pin, settings },
                AgentPrepareReply::Classification(reply),
            ) => take_classification(plan_id, payload, pin, settings, reply),
            _ => unreached(),
        }
    }
}

/// Where preparing a run stands after these answers, if it is still going on and every
/// one of them answered what was asked.
pub open spec fn state_after(plan_id: u128, replies: Seq<AgentPrepareReply>) -> Option<AgentPrepare>
    decreases replies.len(),
{
    if replies.len() == 0 {
        Some(AgentPrepare::Operation { plan_id })
    } else {
        match state_after(plan_id, replies.drop_last()) {
            None => None,
            Some(state) => if state.awaits(replies.last()) {
                match state.after(replies.last()).1 {
                    Turn::Ask { state, .. } => Some(state),
                    Turn::Done(_) => None,
                }
            } else {
                None
            },
        }
    }
}

/// Whether the answers so far say that the operation was an agent's read, that its
/// payload names the actor as origin, and that it was claimed.
pub open spec fn claimed(
    planned: OperationRecord,
    payload: AgentReadPayload,
    replies: Seq<AgentPrepareReply>,
) -> bool {
    &&& replies.len() >= 3
    &&& replies[0] == AgentPrepareReply::Operation(Ok(planned)) && is_agent_read(planned)
    &&& replies[1] == AgentPrepareReply::Payload(Some(payload))
    &&& planned.actor_id@ == payload.origin.name()@
    &&& planned.state != OperationState::Expired
    &&& replies[2] matches AgentPrepareReply::Claim { claimed: Ok(_), .. }
}

/// What the answers must have been for the preparation to stand where it stands.
pub open spec fn explained(
    plan_id: u128,
    replies: Seq<AgentPrepareReply>,
    state: AgentPrepare,
) -> bool {
    match state {
        AgentPrepare::Operation { plan_id: id } => id == plan_id && replies.len() == 0,
        AgentPrepare::Payload { plan_id: id, planned } => {
            &&& id == plan_id && replies.len() == 1
            &&& replies[0] == AgentPrepareReply::Operation(Ok(planned)) && is_agent_read(planned)
        },
        AgentPrepare::Claim { plan_id: id, planned, payload } => {
            &&& id == plan_id && replies.len() == 2
            &&& replies[0] == AgentPrepareReply::Operation(Ok(planned)) && is_agent_read(planned)
            &&& replies[1] == AgentPrepareReply::Payload(Some(payload))
            &&& planned.actor_id@ == payload.origin.name()@
            &&& planned.state != OperationState::Expired
        },
        AgentPrepare::Pin { plan_id: id, planned, payload } => {
            id == plan_id && replies.len() == 3 && claimed(planned, payload, replies)
        },
        AgentPrepare::Safety { plan_id: id, planned, payload, pin } => {
            &&& id == plan_id && replies.len() == 4 && claimed(planned, payload, replies)
            &&& replies[3] == AgentPrepareReply::Pin(Ok(pin)) && in_operation_scope(planned, pin)
        },
        AgentPrepare::Policy { plan_id: id, planned, payload, pin, settings } => {
            &&& id == plan_id && replies.len() == 5 && claimed(planned, payload, replies)
            &&& replies[3] == AgentPrepareReply::Pin(Ok(pin)) && in_operation_scope(planned, pin)
            &&& replies[4] == AgentPrepareReply::Safety(Ok(settings))
        },
        AgentPrepare::Classification { plan_id: id, payload, pin, settings } => {
            &&& id == plan_id && replies.len() == 6
            &&& replies[0] matches AgentPrepareReply::Operation(Ok(planned))
            &&& claimed(planned, payload, replies)
            &&& replies[3] == AgentPrepareReply::Pin(Ok(pin)) && in_operation_scope(planned, pin)
            &&& replies[4] == AgentPrepareReply::Safety(Ok(settings))
            &&& replies[5] matches AgentPrepareReply::Policy(Ok(revision))
            &&& revision@ == planned.policy_revision@
        },
    }
}

/// A preparation stands nowhere that its answers do not explain.
pub proof fn every_state_is_explained(plan_id: u128, replies: Seq<AgentPrepareReply>)
    ensures
        state_after(plan_id, replies) matches Some(state) ==> explained(plan_id, replies, state),
    decreases replies.len(),
{
    if replies.len() > 0 {
        let earlier = replies.drop_last();
        every_state_is_explained(plan_id, earlier);
        assert(forall|k: int| 0 <= k < earlier.len() ==> earlier[k] == replies[k]);
        match state_after(plan_id, earlier) {
            None => {},
            Some(before) => {
                assert(explained(plan_id, earlier, before));
            },
        }
    }
}

/// A plan is handed on for execution only if it was claimed, and so used up, and its
/// scope, its policy and its classification are still what they were; and the rows it
/// may fetch are capped by the plan, by the connection and by the agents' limit. If it is not
/// handed on, it is settled: as failed, if this attempt had claimed it, and else by withdrawing
/// it. The exceptions have nothing to settle: the plan is unknown or used up already, or the
/// operation is no agent's plan.
pub proof fn a_claimed_plan_is_run_or_settled(
    plan_id: u128,
    replies: Seq<AgentPrepareReply>,
    last: AgentPrepareReply,
)
    requires
        state_after(plan_id, replies) matches Some(state) && state.awaits(last) && state.after(
            last,
        ).1 is Done,
    ensures
        ({
            let (effects, turn) = state_after(plan_id, replies)->0.after(last);
            match turn->Done_0 {
                Ok(run) => {
                    &&& replies.len() == 6 && run.event_context.plan_id == plan_id
                    &&& replies[0] matches AgentPrepareReply::Operation(Ok(planned))
                    &&& replies[1] matches AgentPrepareReply::Payload(Some(payload))
                    &&& claimed(planned, payload, replies)
                    &&& in_operation_scope(planned, run.pin)
                    &&& replies[5] matches AgentPrepareReply::Policy(Ok(revision))
                    &&& revision@ == planned.policy_revision@
                    &&& last matches AgentPrepareReply::Classification(Ok(classification))
                    &&& classification.spec_is_single_read()
                    &&& run.event_context.sql == payload.sql
                    &&& run.max_rows <= payload.max_rows
                    &&& run.max_rows <= MAX_AGENT_ROWS
                    &&& replies[4] matches AgentPrepareReply::Safety(Ok(settings))
                    &&& run.max_rows <= settings.max_rows
                },
                Err(error) => {
                    ||| error is UnknownOrAlreadyUsed && effects.len() == 0 && replies.len() < 3
                    ||| {
                        &&& error is StoredPlanInvalid && effects.len() == 0 && replies.len() == 0
                        &&& last matches AgentPrepareReply::Operation(Ok(planned))
                        &&& !is_agent_read(planned)
                    }
                    ||| settles(effects, plan_id, replies.len() >= 3)
                },
            }
        }),
{
    every_state_is_explained(plan_id, replies);
}

/// Whether the only effect is to settle the plan: as failed where it was claimed, else by
/// withdrawing it.
pub open spec fn settles(effects: Seq<Effect>, plan_id: u128, was_claimed: bool) -> bool {
    &&& effects.len() == 1
    &&& effects[0] matches Effect::Settle { operation_id, settlement }
    &&& operation_id == plan_id
    &&& if was_claimed {
        settlement is Failed
    } else {
        settlement is Withdrawn
    }
}

/// An attempt to prepare a run: the answers it was given, and the one that ended it.
pub struct Attempt {
    pub replies: Seq<AgentPrepareReply>,
    pub last: AgentPrepareReply,
}

impl Attempt {
    /// Whether every answer answered what was asked, and the last one ended the attempt.
    pub open spec fn is_over(self, plan_id: u128) -> bool {
        state_after(plan_id, self.replies) matches Some(state) && state.awaits(self.last)
            && state.after(self.last).1 is Done
    }

    /// The effects of the last answer.
    pub open spec fn effects(self, plan_id: u128) -> Seq<Effect> {
        state_after(plan_id, self.replies)->0.after(self.last).0
    }

    /// What came of the attempt.
    pub open spec fn end(self, plan_id: u128) -> AgentPrepareEnd {
        state_after(plan_id, self.replies)->0.after(self.last).1->Done_0
    }

    /// Whether the claim of the plan was granted.
    pub open spec fn is_granted(self) -> bool {
        self.replies.len() >= 3 && (self.replies[2] matches AgentPrepareReply::Claim {
            claimed: Ok(_),
            ..
        })
    }

    /// Whether the operation that was looked up is no agent's plan.
    pub open spec fn found_no_plan(self) -> bool {
        let first = if self.replies.len() == 0 {
            self.last
        } else {
            self.replies[0]
        };
        first matches AgentPrepareReply::Operation(Ok(planned)) && !is_agent_read(planned)
    }

    /// Whether the attempt used the plan up, or found that it was: its claim was granted, it
    /// settled the plan, or it was told that there is no plan left to claim.
    pub open spec fn uses_up(self, plan_id: u128) -> bool {
        ||| self.is_granted()
        ||| settles(self.effects(plan_id), plan_id, false)
        ||| self.end(plan_id) matches Err(AgentQueryRunPrepareError::UnknownOrAlreadyUsed)
    }
}

/// Every attempt uses the plan up, whatever comes of it.
pub proof fn every_attempt_uses_the_plan_up(plan_id: u128, attempt: Attempt)
    requires
        attempt.is_over(plan_id),
    ensures
        attempt.uses_up(plan_id) || attempt.found_no_plan(),
{
    a_claimed_plan_is_run_or_settled(plan_id, attempt.replies, attempt.last);
    every_state_is_explained(plan_id, attempt.replies);
}

/// Whether the answers to a later attempt are those of a runtime that grants no claim of what
/// is used up and keeps what kind of operation it has stored.
pub open spec fn is_kept(plan_id: u128, earlier: Attempt, later: Attempt) -> bool {
    &&& earlier.uses_up(plan_id) ==> !later.is_granted()
    &&& earlier.found_no_plan() ==> (later.replies.len() > 0 ==> later.found_no_plan())
}

/// A plan is prepared for execution at most once: after an attempt, with whatever outcome, no
/// later one hands it on.
pub proof fn a_plan_is_prepared_at_most_once(plan_id: u128, earlier: Attempt, later: Attempt)
    requires
        earlier.is_over(plan_id),
        later.is_over(plan_id),
        is_kept(plan_id, earlier, later),
    ensures
        later.end(plan_id) is Err,
{
    every_attempt_uses_the_plan_up(plan_id, earlier);
    a_claimed_plan_is_run_or_settled(plan_id, later.replies, later.last);
    every_state_is_explained(plan_id, later.replies);
}

/// What preparing a run does after each answer, told by the plan's id and the answers
/// alone. The connection is the one that the plan was made for; the SQL that is
/// classified again, and that is handed on, is the one that the plan holds; the plan is
/// given up where its workspace, its account, its connection, the revision of that or the
/// policy is another by now, and where the SQL is no single read any more; and the rows
/// that may be fetched are the fewest of those of the plan, of the settings, and a
/// thousand.
#[verifier::spinoff_prover]
#[verifier::rlimit(60)]
pub proof fn runs_are_prepared_from_the_plan(
    plan_id: u128,
    replies: Seq<AgentPrepareReply>,
    last: AgentPrepareReply,
)
    requires
        state_after(plan_id, replies) matches Some(state) && state.awaits(last),
    ensures
        ({
            let all = replies.push(last);
            let (effects, turn) = state_after(plan_id, replies)->0.after(last);
            &&& turn is Ask ==> effects.len() == 0
            &&& match last {
                AgentPrepareReply::Operation(Ok(planned)) => if planned.payload_schema_version == 1
                    && planned.kind == OperationKind::ReadQuery && planned.actor_kind
                    == OperationActorKind::Agent {
                    turn matches Turn::Ask { request: AgentPrepareRequest::DecodePayload, .. }
                } else {
                    &&& turn matches Turn::Done(Err(AgentQueryRunPrepareError::StoredPlanInvalid))
                    &&& effects.len() == 0
                },
                AgentPrepareReply::Operation(Err(error)) => if error is NotFound {
                    &&& turn matches Turn::Done(Err(AgentQueryRunPrepareError::UnknownOrAlreadyUsed))
                    &&& effects.len() == 0
                } else {
                    &&& turn matches Turn::Done(Err(AgentQueryRunPrepareError::Application(told)))
                    &&& told == error
                    &&& {
                        &&& effects.len() == 1
                        &&& effects[0] matches Effect::Settle { operation_id, settlement }
                        &&& operation_id == plan_id
                        &&& settlement == (Settlement::Withdrawn {
                            reason: "operation_unavailable",
                            error: Some(error),
                        })
                    }
                },
                AgentPrepareReply::Payload(None) => {
                    &&& turn matches Turn::Done(Err(AgentQueryRunPrepareError::StoredPlanInvalid))
                    &&& {
                        &&& effects.len() == 1
                        &&& effects[0] matches Effect::Settle { operation_id, settlement }
                        &&& operation_id == plan_id
                        &&& settlement == (Settlement::Withdrawn {
                            reason: "stored_plan_undecodable",
                            error: None,
                        })
                    }
                },
                AgentPrepareReply::Payload(Some(payload)) => {
                    &&& all[0] matches AgentPrepareReply::Operation(Ok(planned))
                    &&& if planned.actor_id@ != match payload.origin {
                        AgentQueryInvocationOrigin::Mcp => "mcp"@,
                        AgentQueryInvocationOrigin::Cli => "cli"@,
                    } {
                        &&& turn matches Turn::Done(
                            Err(AgentQueryRunPrepareError::StoredPlanInvalid),
                        )
                        &&& {
                        &&& effects.len() == 1
                        &&& effects[0] matches Effect::Settle { operation_id, settlement }
                        &&& operation_id == plan_id
                        &&& settlement == (Settlement::Withdrawn {
                            reason: "stored_plan_actor_mismatch",
                            error: None,
                        })
                    }
                    } else if planned.state == OperationState::Expired {
                        &&& turn matches Turn::Done(
                            Err(AgentQueryRunPrepareError::UnknownOrAlreadyUsed),
                        )
                        &&& effects.len() == 0
                    } else {
                        &&& turn matches Turn::Ask {
                            request: AgentPrepareRequest::Claim { plan_id: id },
                            ..
                        }
                        &&& id == plan_id
                    }
                },
                AgentPrepareReply::Claim { claimed: Ok(_), .. } => {
                    &&& all[0] matches AgentPrepareReply::Operation(Ok(planned))
                    &&& turn matches Turn::Ask {
                        request: AgentPrepareRequest::PinConnection { connection_id, access },
                        ..
                    }
                    &&& connection_id == planned.connection_id
                    &&& access == ConnectionAccess::Read
                },
                AgentPrepareReply::Claim { now, claimed: Err(error) } => {
                    &&& all[0] matches AgentPrepareReply::Operation(Ok(planned))
                    &&& if planned.expires_at matches Some(limit) && now > limit {
                        &&& turn matches Turn::Done(Err(AgentQueryRunPrepareError::Expired))
                        &&& {
                        &&& effects.len() == 1
                        &&& effects[0] matches Effect::Settle { operation_id, settlement }
                        &&& operation_id == plan_id
                        &&& settlement == (Settlement::Withdrawn {
                            reason: "plan_expired",
                            error: None,
                        })
                    }
                    } else if planned.state == OperationState::Ready {
                        &&& turn matches Turn::Done(
                            Err(AgentQueryRunPrepareError::Application(told)),
                        )
                        &&& told == error
                        &&& {
                        &&& effects.len() == 1
                        &&& effects[0] matches Effect::Settle { operation_id, settlement }
                        &&& operation_id == plan_id
                        &&& settlement == (Settlement::Withdrawn {
                            reason: "plan_claim_failed",
                            error: Some(error),
                        })
                    }
                    } else {
                        &&& turn matches Turn::Done(
                            Err(AgentQueryRunPrepareError::UnknownOrAlreadyUsed),
                        )
                        &&& effects.len() == 0
                    }
                },
                AgentPrepareReply::Pin(Ok(pin)) => {
                    &&& all[0] matches AgentPrepareReply::Operation(Ok(planned))
                    &&& if planned.workspace_id == pin.scope.workspace_id && planned.account_scope@
                        == pin.scope.account_scope.key()@ && planned.connection_id
                        == pin.connection_id && planned.connection_revision
                        == pin.connection_revision {
                        &&& turn matches Turn::Ask {
                            request: AgentPrepareRequest::LoadSafety { connection_id },
                            ..
                        }
                        &&& connection_id == pin.connection_id
                    } else {
                        &&& turn matches Turn::Done(
                            Err(AgentQueryRunPrepareError::AuthorityChanged),
                        )
                        &&& {
                        &&& effects.len() == 1
                        &&& effects[0] matches Effect::Settle { operation_id, settlement }
                        &&& operation_id == plan_id
                        &&& settlement == (Settlement::Failed {
                            reason: "operation_authority_changed",
                            error: None,
                        })
                    }
                    }
                },
                AgentPrepareReply::Safety(Ok(_)) => {
                    &&& all[3] matches AgentPrepareReply::Pin(Ok(pin))
                    &&& turn matches Turn::Ask {
                        request: AgentPrepareRequest::HashPolicy { snapshot },
                        ..
                    }
                    &&& snapshot.workspace_id == pin.scope.workspace_id
                    &&& snapshot.account_scope == pin.scope.account_scope.key()
                    &&& snapshot.scope_generation == pin.scope.generation
                    &&& snapshot.connection_revision == pin.connection_revision
                    &&& snapshot.binding_revision == pin.binding_revision
                    &&& snapshot.binding_updated_at == pin.binding_updated_at
                    &&& snapshot.credential_mode == pin.profile.credential_mode
                    &&& snapshot.environment == pin.profile.env
                    &&& snapshot.workspace_access == pin.profile.workspace_access
                    &&& snapshot.safety is None
                },
                AgentPrepareReply::Policy(Ok(revision)) => {
                    &&& all[0] matches AgentPrepareReply::Operation(Ok(planned))
                    &&& all[1] matches AgentPrepareReply::Payload(Some(payload))
                    &&& all[3] matches AgentPrepareReply::Pin(Ok(pin))
                    &&& if revision@ == planned.policy_revision@ {
                        &&& turn matches Turn::Ask {
                            request: AgentPrepareRequest::Classify { sql, engine },
                            ..
                        }
                        &&& sql == payload.sql
                        &&& engine == pin.profile.engine
                    } else {
                        &&& turn matches Turn::Done(
                            Err(AgentQueryRunPrepareError::AuthorityChanged),
                        )
                        &&& {
                        &&& effects.len() == 1
                        &&& effects[0] matches Effect::Settle { operation_id, settlement }
                        &&& operation_id == plan_id
                        &&& settlement == (Settlement::Failed {
                            reason: "operation_policy_changed",
                            error: None,
                        })
                    }
                    }
                },
                AgentPrepareReply::Classification(Ok(classification)) => {
                    &&& all[1] matches AgentPrepareReply::Payload(Some(payload))
                    &&& all[3] matches AgentPrepareReply::Pin(Ok(pin))
                    &&& all[4] matches AgentPrepareReply::Safety(Ok(settings))
                    &&& if classification.kind == QueryKind::Read && classification.statement_count
                        == 1 {
                        &&& turn matches Turn::Done(Ok(run))
                        &&& effects.len() == 0
                        &&& run.pin == pin
                        &&& run.event_context.connection_id == pin.connection_id
                        &&& run.event_context.connection_name == pin.profile.name
                        &&& run.event_context.plan_id == plan_id
                        &&& run.event_context.sql == payload.sql
                        &&& run.decision == payload.decision
                        &&& run.origin == payload.origin
                        &&& run.max_rows <= payload.max_rows && run.max_rows <= settings.max_rows
                            && run.max_rows <= 1000
                        &&& run.max_rows == payload.max_rows || run.max_rows == settings.max_rows
                            || run.max_rows == 1000
                    } else {
                        &&& turn matches Turn::Done(
                            Err(AgentQueryRunPrepareError::StoredPlanInvalid),
                        )
                        &&& {
                        &&& effects.len() == 1
                        &&& effects[0] matches Effect::Settle { operation_id, settlement }
                        &&& operation_id == plan_id
                        &&& settlement == (Settlement::Failed {
                            reason: "stored_plan_classification_changed",
                            error: None,
                        })
                    }
                    }
                },
                AgentPrepareReply::Pin(Err(error)) => {
                    &&& turn matches Turn::Done(Err(AgentQueryRunPrepareError::Application(told)))
                    &&& told == error
                    &&& {
                        &&& effects.len() == 1
                        &&& effects[0] matches Effect::Settle { operation_id, settlement }
                        &&& operation_id == plan_id
                        &&& settlement == (Settlement::Failed {
                            reason: "connection_scope_unavailable",
                            error: Some(error),
                        })
                    }
                },
                AgentPrepareReply::Safety(Err(error)) => {
                    &&& turn matches Turn::Done(Err(AgentQueryRunPrepareError::Application(told)))
                    &&& told == error
                    &&& {
                        &&& effects.len() == 1
                        &&& effects[0] matches Effect::Settle { operation_id, settlement }
                        &&& operation_id == plan_id
                        &&& settlement == (Settlement::Failed {
                            reason: "safety_policy_unavailable",
                            error: Some(error),
                        })
                    }
                },
                AgentPrepareReply::Policy(Err(error)) => {
                    &&& turn matches Turn::Done(Err(AgentQueryRunPrepareError::Application(told)))
                    &&& told == error
                    &&& {
                        &&& effects.len() == 1
                        &&& effects[0] matches Effect::Settle { operation_id, settlement }
                        &&& operation_id == plan_id
                        &&& settlement == (Settlement::Failed {
                            reason: "policy_snapshot_failed",
                            error: Some(error),
                        })
                    }
                },
                AgentPrepareReply::Classification(Err(error)) => {
                    &&& turn matches Turn::Done(Err(AgentQueryRunPrepareError::Application(told)))
                    &&& told == error
                    &&& {
                        &&& effects.len() == 1
                        &&& effects[0] matches Effect::Settle { operation_id, settlement }
                        &&& operation_id == plan_id
                        &&& settlement == (Settlement::Failed {
                            reason: "stored_plan_reclassification_failed",
                            error: Some(error),
                        })
                    }
                },
            }
        }),
{
    every_state_is_explained(plan_id, replies);
    let all = replies.push(last);
    assert(forall|k: int| 0 <= k < replies.len() ==> all[k] == replies[k]);
    assert(all.last() == last);
}

} // verus!
