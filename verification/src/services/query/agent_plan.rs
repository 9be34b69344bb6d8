//! Planning a read for an agent. A plan is immutable, short-lived and good for one run.
use vstd::pervasive::unreached;
use vstd::prelude::*;

use crate::error::AppError;
use crate::model::{Classification, ConnectionAccess, Engine, QueryKind, SafetySettings};
use crate::operations::{
    is_time, NewOperation, OperationKind, OperationPlanDisposition, PinnedConnection,
    PolicySnapshot,
};
use crate::services::effects::{ask, done, Effect, Note, Step, Turn};
use crate::services::operation_service::{
    agent_actor_for_pin, agent_of, capture_agent_read_policy, policy_of,
};
use crate::services::query::agent::{
    agent_audit, audit_row, bounded_max_rows, row_cap, AgentQueryInvocationOrigin, MAX_AGENT_ROWS,
    QUERY_PLAN_TTL,
};
use crate::services::query::guidance::{findings, Guidance, HealthSnapshot};
use crate::services::query::shared::{operation_risk, risk_of};
use crate::text::{texts, Text};

verus! {

/// What an agent asks to have planned.
#[derive(PartialEq, Eq)]
pub struct AgentQueryPlanRequest {
    pub connection_id: u128,
    pub sql: String,
    pub max_rows: Option<u64>,
    pub origin: AgentQueryInvocationOrigin,
}

/// What an agent is told of its plan. Nothing in it says how the connection is reached
/// or with what credential.
#[derive(PartialEq, Eq)]
pub struct AgentQueryPlan {
    pub connection_id: u128,
    pub connection_name: String,
    pub environment: Option<String>,
    pub sql: String,
    pub plan_id: u128,
    pub decision: &'static str,
    pub notices: Vec<String>,
    pub suggestions: Vec<String>,
    pub estimated_rows: Option<i64>,
    pub health: HealthSnapshot,
}

/// A read that is about to be stored as a plan.
#[derive(PartialEq, Eq)]
pub struct PlannedRead {
    pub connection_id: u128,
    pub connection_name: String,
    pub environment: Option<String>,
    pub sql: String,
    pub plan_id: u128,
    pub guidance: Guidance,
    pub estimated_rows: Option<i64>,
    pub health: HealthSnapshot,
}

impl PlannedRead {
    /// Whether this is what an agent is told of the plan.
    pub open spec fn is_told_as(self, plan: AgentQueryPlan) -> bool {
        &&& plan.connection_id == self.connection_id
        &&& plan.connection_name == self.connection_name
        &&& plan.environment == self.environment
        &&& plan.sql == self.sql
        &&& plan.plan_id == self.plan_id
        &&& plan.decision == if self.guidance.cautious() {
            "caution"
        } else {
            "ready"
        }
        &&& texts(plan.notices@) == self.guidance.notice_texts(texts(self.health.reasons@))
        &&& texts(plan.suggestions@) == self.guidance.suggestion_texts()
        &&& plan.estimated_rows == self.estimated_rows
        &&& plan.health == self.health
    }

    /// What an agent is told of the plan.
    fn tell(self) -> (r: AgentQueryPlan)
        ensures
            self.is_told_as(r),
    {
        let notices = self.guidance.notices(&self.health.reasons);
        AgentQueryPlan {
            connection_id: self.connection_id,
            connection_name: self.connection_name,
            environment: self.environment,
            sql: self.sql,
            plan_id: self.plan_id,
            decision: self.guidance.decision(),
            notices,
            suggestions: self.guidance.suggestions(),
            estimated_rows: self.estimated_rows,
            health: self.health,
        }
    }
}

/// What is kept with a plan for people to look at: what was found, and what it was found from.
#[derive(PartialEq, Eq)]
pub struct AgentPlanPreview {
    pub guidance: Guidance,
    pub estimated_rows: Option<i64>,
    pub health: HealthSnapshot,
}

impl AgentPlanPreview {
    /// The notices.
    pub fn notices(&self) -> (r: Vec<String>)
        ensures
            texts(r@) == self.guidance.notice_texts(texts(self.health.reasons@)),
    {
        self.guidance.notices(&self.health.reasons)
    }

    /// The suggestions.
    pub fn suggestions(&self) -> (r: Vec<String>)
        ensures
            texts(r@) == self.guidance.suggestion_texts(),
    {
        self.guidance.suggestions()
    }
}

/// A text that is not one single read.
#[derive(PartialEq, Eq)]
pub struct RejectedAgentQueryPlan {
    pub connection_id: u128,
    pub connection_name: String,
    pub engine: Engine,
    pub sql: String,
    pub kind: QueryKind,
    pub origin: AgentQueryInvocationOrigin,
}

impl RejectedAgentQueryPlan {
    /// The row that the rejection leaves in the audit chain, once the agent has been told.
    pub open spec fn rejection(self) -> Effect {
        agent_audit(
            self.connection_id,
            self.engine,
            self.sql,
            self.kind,
            self.origin.plan_action(),
            Some(
                Note::Said(
                    Text::Plain("plan_query accepts exactly one read-only SELECT statement"),
                ),
            ),
        )
    }

    /// The row that the rejection leaves in the audit chain, once the agent has been told.
    pub fn audit_after_result(&self) -> (r: Effect)
        ensures
            r == self.rejection(),
    {
        audit_row(
            self.connection_id,
            self.engine,
            &self.sql,
            self.kind,
            self.origin.plan_audit_action(),
            Some(
                Note::Said(
                    Text::Plain("plan_query accepts exactly one read-only SELECT statement"),
                ),
            ),
        )
    }
}

/// Why nothing was planned.
#[derive(PartialEq, Eq)]
pub enum AgentQueryPlanError {
    /// The connection is to a document database.
    DocumentConnection,
    /// The text is not one single read.
    NotSingleRead(RejectedAgentQueryPlan),
    Application(AppError),
}

/// How planning ends.
pub type AgentPlanEnd = Result<AgentQueryPlan, AgentQueryPlanError>;

/// What a plan is made of before the target has been looked at.
#[derive(PartialEq, Eq)]
pub struct DraftPlan {
    pub request: AgentQueryPlanRequest,
    pub pin: PinnedConnection,
    pub classification: Classification,
    pub settings: SafetySettings,
    pub policy_revision: String,
}

/// Where planning stands: what it is waiting to hear.
#[derive(PartialEq, Eq)]
pub enum AgentPlan {
    Pin { request: AgentQueryPlanRequest },
    Classification { request: AgentQueryPlanRequest, pin: PinnedConnection },
    Safety {
        request: AgentQueryPlanRequest,
        pin: PinnedConnection,
        classification: Classification,
    },
    Policy {
        request: AgentQueryPlanRequest,
        pin: PinnedConnection,
        classification: Classification,
        settings: SafetySettings,
    },
    Connection { draft: DraftPlan },
    Backend { draft: DraftPlan },
    Preview { draft: DraftPlan },
    Health { draft: DraftPlan, estimated_rows: Option<i64> },
    Plan { planned: PlannedRead },
}

/// What planning asks of the outside world.
#[derive(PartialEq, Eq)]
pub enum AgentPlanRequest {
    /// Look the connection up in the current scope and hold on to that scope.
    PinConnection { connection_id: u128, access: ConnectionAccess },
    /// Classify the SQL.
    Classify { sql: String, engine: Engine },
    /// Load the safety settings.
    LoadSafety { connection_id: u128 },
    /// Compute the revision of this policy.
    HashPolicy { snapshot: PolicySnapshot },
    /// Connect the pinned connection.
    Connect,
    /// Take the connection's SQL backend.
    OpenBackend,
    /// Have the planner estimate the rows.
    Preview { sql: String, classification: Classification, settings: SafetySettings },
    /// Check the load, draw a fresh id and read the clock.
    CheckHealth,
    /// Store this operation with this payload and, together with the decision, this preview.
    Plan {
        operation: NewOperation,
        sql: String,
        max_rows: u64,
        decision: &'static str,
        origin: AgentQueryInvocationOrigin,
        preview: AgentPlanPreview,
    },
}

/// What the outside world answers.
#[derive(PartialEq, Eq)]
pub enum AgentPlanReply {
    Pin(Result<PinnedConnection, AppError>),
    Classification(Result<Classification, AppError>),
    Safety(Result<SafetySettings, AppError>),
    Policy(Result<String, AppError>),
    Connection(Result<(), AppError>),
    Backend(Result<(), AppError>),
    /// The estimated rows, where there is an estimate.
    Preview(Result<Option<i64>, AppError>),
    Health { health: HealthSnapshot, fresh_id: u128, now: i128 },
    Plan(Result<(), AppError>),
}

/// A step of planning.
pub type AgentPlanStep = Step<AgentPlan, AgentPlanRequest, AgentPlanEnd>;

/// What follows an answer while a read is planned.
pub type AgentPlanTurn = Turn<AgentPlan, AgentPlanRequest, AgentPlanEnd>;

/// The end of a planning that failed.
pub open spec fn failed(error: AppError) -> (Seq<Effect>, AgentPlanTurn) {
    (Seq::empty(), Turn::Done(Err(AgentQueryPlanError::Application(error))))
}

fn fail(error: AppError) -> (r: AgentPlanStep)
    ensures
        r.says(failed(error)),
{
    done(Err(AgentQueryPlanError::Application(error)))
}

/// What follows once the connection was looked up.
pub open spec fn after_pin(
    request: AgentQueryPlanRequest,
    reply: Result<PinnedConnection, AppError>,
) -> (Seq<Effect>, AgentPlanTurn) {
    match reply {
        Err(error) => failed(error),
        Ok(pin) => if pin.profile.engine.spec_is_document() {
            (Seq::empty(), Turn::Done(Err(AgentQueryPlanError::DocumentConnection)))
        } else {
            (
                Seq::empty(),
                Turn::Ask {
                    state: AgentPlan::Classification { request, pin },
                    request: AgentPlanRequest::Classify {
                        sql: request.sql,
                        engine: pin.profile.engine,
                    },
                },
            )
        },
    }
}

fn take_pin(request: AgentQueryPlanRequest, reply: Result<PinnedConnection, AppError>) -> (r:
    AgentPlanStep)
    ensures
        r.says(after_pin(request, reply)),
{
    match reply {
        Err(error) => fail(error),
        Ok(pin) => {
            if pin.profile.engine.is_document() {
                done(Err(AgentQueryPlanError::DocumentConnection))
            } else {
                let sql = request.sql.clone();
                let engine = pin.profile.engine;
                ask(
                    AgentPlan::Classification { request, pin },
                    AgentPlanRequest::Classify { sql, engine },
                )
            }
        },
    }
}

/// What follows once the SQL was classified.
pub open spec fn after_classification(
    request: AgentQueryPlanRequest,
    pin: PinnedConnection,
    reply: Result<Classification, AppError>,
) -> (Seq<Effect>, AgentPlanTurn) {
    match reply {
        Err(error) => failed(error),
        Ok(classification) => if classification.spec_is_single_read() {
            (
                Seq::empty(),
                Turn::Ask {
                    state: AgentPlan::Safety { request, pin, classification },
                    request: AgentPlanRequest::LoadSafety { connection_id: pin.profile.id },
                },
            )
        } else {
            (
                Seq::empty(),
                Turn::Done(
                    Err(
                        AgentQueryPlanError::NotSingleRead(
                            RejectedAgentQueryPlan {
                                connection_id: pin.profile.id,
                                connection_name: pin.profile.name,
                                engine: pin.profile.engine,
                                sql: request.sql,
                                kind: classification.kind,
                                origin: request.origin,
                            },
                        ),
                    ),
                ),
            )
        },
    }
}

fn take_classification(
    request: AgentQueryPlanRequest,
    pin: PinnedConnection,
    reply: Result<Classification, AppError>,
) -> (r: AgentPlanStep)
    ensures
        r.says(after_classification(request, pin, reply)),
{
    match reply {
        Err(error) => fail(error),
        Ok(classification) => {
            if classification.is_single_read() {
                let connection_id = pin.profile.id;
                ask(
                    AgentPlan::Safety { request, pin, classification },
                    AgentPlanRequest::LoadSafety { connection_id },
                )
            } else {
                done(
                    Err(
                        AgentQueryPlanError::NotSingleRead(
                            RejectedAgentQueryPlan {
                                connection_id: pin.profile.id,
                                connection_name: pin.profile.name,
                                engine: pin.profile.engine,
                                sql: request.sql,
                                kind: classification.kind,
                                origin: request.origin,
                            },
                        ),
                    ),
                )
            }
        },
    }
}

/// What follows once the safety settings were loaded.
pub open spec fn after_safety(
    request: AgentQueryPlanRequest,
    pin: PinnedConnection,
    classification: Classification,
    reply: Result<SafetySettings, AppError>,
) -> (Seq<Effect>, AgentPlanTurn) {
    match reply {
        Err(error) => failed(error),
        Ok(settings) => (
            Seq::empty(),
            Turn::Ask {
                state: AgentPlan::Policy { request, pin, classification, settings },
                request: AgentPlanRequest::HashPolicy { snapshot: policy_of(pin, None) },
            },
        ),
    }
}

fn take_safety(
    request: AgentQueryPlanRequest,
    pin: PinnedConnection,
    classification: Classification,
    reply: Result<SafetySettings, AppError>,
) -> (r: AgentPlanStep)
    ensures
        r.says(after_safety(request, pin, classification, reply)),
{
    match reply {
        Err(error) => fail(error),
        Ok(settings) => {
            let snapshot = capture_agent_read_policy(&pin);
            ask(
                AgentPlan::Policy { request, pin, classification, settings },
                AgentPlanRequest::HashPolicy { snapshot },
            )
        },
    }
}

/// What follows once the policy was hashed.
pub open spec fn after_policy(
    request: AgentQueryPlanRequest,
    pin: PinnedConnection,
    classification: Classification,
    settings: SafetySettings,
    reply: Result<String, AppError>,
) -> (Seq<Effect>, AgentPlanTurn) {
    match reply {
        Err(error) => failed(error),
        Ok(policy_revision) => (
            Seq::empty(),
            Turn::Ask {
                state: AgentPlan::Connection {
                    draft: DraftPlan { request, pin, classification, settings, policy_revision },
                },
                request: AgentPlanRequest::Connect,
            },
        ),
    }
}

fn take_policy(
    request: AgentQueryPlanRequest,
    pin: PinnedConnection,
    classification: Classification,
    settings: SafetySettings,
    reply: Result<String, AppError>,
) -> (r: AgentPlanStep)
    ensures
        r.says(after_policy(request, pin, classification, settings, reply)),
{
    match reply {
        Err(error) => fail(error),
        Ok(policy_revision) => ask(
            AgentPlan::Connection {
                draft: DraftPlan { request, pin, classification, settings, policy_revision },
            },
            AgentPlanRequest::Connect,
        ),
    }
}

/// What follows once the target was connected.
pub open spec fn after_connection(draft: DraftPlan, reply: Result<(), AppError>) -> (
    Seq<Effect>,
    AgentPlanTurn,
) {
    match reply {
        Err(error) => failed(error),
        Ok(_) => (
            Seq::empty(),
            Turn::Ask {
                state: AgentPlan::Backend { draft },
                request: AgentPlanRequest::OpenBackend,
            },
        ),
    }
}

fn take_connection(draft: DraftPlan, reply: Result<(), AppError>) -> (r: AgentPlanStep)
    ensures
        r.says(after_connection(draft, reply)),
{
    match reply {
        Err(error) => fail(error),
        Ok(_) => ask(AgentPlan::Backend { draft }, AgentPlanRequest::OpenBackend),
    }
}

/// What follows once the backend was opened.
pub open spec fn after_backend(draft: DraftPlan, reply: Result<(), AppError>) -> (
    Seq<Effect>,
    AgentPlanTurn,
) {
    match reply {
        Err(error) => failed(error),
        Ok(_) => (
            Seq::empty(),
            Turn::Ask {
                state: AgentPlan::Preview { draft },
                request: AgentPlanRequest::Preview {
                    sql: draft.request.sql,
                    classification: draft.classification,
                    settings: draft.settings,
                },
            },
        ),
    }
}

fn take_backend(draft: DraftPlan, reply: Result<(), AppError>) -> (r: AgentPlanStep)
    ensures
        r.says(after_backend(draft, reply)),
{
    match reply {
        Err(error) => fail(error),
        Ok(_) => {
            let request = AgentPlanRequest::Preview {
                sql: draft.request.sql.clone(),
                classification: draft.classification,
                settings: draft.settings,
            };
            ask(AgentPlan::Preview { draft }, request)
        },
    }
}

/// What follows once the rows were estimated.
pub open spec fn after_preview(draft: DraftPlan, reply: Result<Option<i64>, AppError>) -> (
    Seq<Effect>,
    AgentPlanTurn,
) {
    match reply {
        Err(error) => failed(error),
        Ok(estimated_rows) => (
            Seq::empty(),
            Turn::Ask {
                state: AgentPlan::Health { draft, estimated_rows },
                request: AgentPlanRequest::CheckHealth,
            },
        ),
    }
}

fn take_preview(draft: DraftPlan, reply: Result<Option<i64>, AppError>) -> (r: AgentPlanStep)
    ensures
        r.says(after_preview(draft, reply)),
{
    match reply {
        Err(error) => fail(error),
        Ok(estimated_rows) => ask(
            AgentPlan::Health { draft, estimated_rows },
            AgentPlanRequest::CheckHealth,
        ),
    }
}

/// The operation that stands for a draft.
pub open spec fn planned_operation(draft: DraftPlan, plan_id: u128, now: i128) -> NewOperation {
    NewOperation {
        id: plan_id,
        workspace_id: draft.pin.scope.workspace_id,
        account_scope: draft.pin.scope.account_scope.key(),
        connection_id: draft.pin.connection_id,
        connection_revision: draft.pin.connection_revision,
        terminal_session_id: None,
        actor: agent_of(
            draft.pin,
            Text::Plain(draft.request.origin.name()),
            Text::Plain(draft.request.origin.name()),
        ),
        kind: OperationKind::ReadQuery,
        payload_schema_version: 1,
        risk_level: risk_of(draft.classification),
        policy_snapshot: policy_of(draft.pin, None),
        policy_revision: draft.policy_revision,
        single_use: true,
        idempotency_key: plan_id,
        expires_at: (now + QUERY_PLAN_TTL) as i128,
        disposition: OperationPlanDisposition::Ready,
    }
}

/// What follows once the load was checked: the plan is announced in the audit chain and
/// stored.
pub open spec fn after_health(
    draft: DraftPlan,
    estimated_rows: Option<i64>,
    health: HealthSnapshot,
    fresh_id: u128,
    now: i128,
) -> (Seq<Effect>, AgentPlanTurn) {
    let guidance = findings(
        draft.pin.profile.env,
        health.level@,
        health.coverage@,
        estimated_rows,
        draft.settings.exec_preview_row_limit,
    );
    (
        seq![
            agent_audit(
                draft.pin.profile.id,
                draft.pin.profile.engine,
                draft.request.sql,
                QueryKind::Read,
                draft.request.origin.plan_action(),
                None,
            ),
        ],
        Turn::Ask {
            state: AgentPlan::Plan {
                planned: PlannedRead {
                    connection_id: draft.pin.profile.id,
                    connection_name: draft.pin.profile.name,
                    environment: draft.pin.profile.env,
                    sql: draft.request.sql,
                    plan_id: fresh_id,
                    guidance,
                    estimated_rows,
                    health,
                },
            },
            request: AgentPlanRequest::Plan {
                operation: planned_operation(draft, fresh_id, now),
                sql: draft.request.sql,
                max_rows: row_cap(draft.request.max_rows, draft.settings.max_rows),
                decision: if guidance.cautious() {
                    "caution"
                } else {
                    "ready"
                },
                origin: draft.request.origin,
                preview: AgentPlanPreview { guidance, estimated_rows, health },
            },
        },
    )
}

/// Whether `step` is what follows once the load was checked: of the health that is kept with the
/// plan it matters what it holds.
pub open spec fn is_health_step(
    draft: DraftPlan,
    estimated_rows: Option<i64>,
    health: HealthSnapshot,
    fresh_id: u128,
    now: i128,
    step: AgentPlanStep,
) -> bool {
    let expected = after_health(draft, estimated_rows, health, fresh_id, now);
    &&& step.effects@ == expected.0
    &&& step.turn matches Turn::Ask {
        state,
        request: AgentPlanRequest::Plan { operation, sql, max_rows, decision, origin, preview },
    }
    &&& preview.health.same(health)
    &&& expected.1 == (AgentPlanTurn::Ask {
        state,
        request: AgentPlanRequest::Plan {
            operation,
            sql,
            max_rows,
            decision,
            origin,
            preview: AgentPlanPreview { health, ..preview },
        },
    })
}

fn take_health(
    draft: DraftPlan,
    estimated_rows: Option<i64>,
    health: HealthSnapshot,
    fresh_id: u128,
    now: i128,
) -> (r: AgentPlanStep)
    requires
        is_time(now),
    ensures
        is_health_step(draft, estimated_rows, health, fresh_id, now, r),
{
    let guidance = Guidance::assess(
        &draft.pin.profile.env,
        health.level.as_str(),
        health.coverage.as_str(),
        estimated_rows,
        draft.settings.exec_preview_row_limit,
    );
    let origin = draft.request.origin;
    let mut effects: Vec<Effect> = Vec::new();
    effects.push(
        audit_row(
            draft.pin.profile.id,
            draft.pin.profile.engine,
            &draft.request.sql,
            QueryKind::Read,
            origin.plan_audit_action(),
            None,
        ),
    );
    let operation = NewOperation {
        id: fresh_id,
        workspace_id: draft.pin.scope.workspace_id,
        account_scope: draft.pin.scope.account_scope.storage_key(),
        connection_id: draft.pin.connection_id,
        connection_revision: draft.pin.connection_revision,
        terminal_session_id: None,
        actor: agent_actor_for_pin(
            &draft.pin,
            Text::Plain(origin.as_str()),
            Text::Plain(origin.as_str()),
        ),
        kind: OperationKind::ReadQuery,
        payload_schema_version: 1,
        risk_level: operation_risk(&draft.classification),
        policy_snapshot: capture_agent_read_policy(&draft.pin),
        policy_revision: draft.policy_revision.clone(),
        single_use: true,
        idempotency_key: fresh_id,
        expires_at: now + QUERY_PLAN_TTL,
        disposition: OperationPlanDisposition::Ready,
    };
    let request = AgentPlanRequest::Plan {
        operation,
        sql: draft.request.sql.clone(),
        max_rows: bounded_max_rows(draft.request.max_rows, draft.settings.max_rows),
        decision: guidance.decision(),
        origin,
        preview: AgentPlanPreview { guidance, estimated_rows, health: health.duplicate() },
    };
    let planned = PlannedRead {
        connection_id: draft.pin.profile.id,
        connection_name: draft.pin.profile.name,
        environment: draft.pin.profile.env,
        sql: draft.request.sql,
        plan_id: fresh_id,
        guidance,
        estimated_rows,
        health,
    };
    assert(effects@ =~= after_health(draft, estimated_rows, health, fresh_id, now).0);
    Step { effects, turn: Turn::Ask { state: AgentPlan::Plan { planned }, request } }
}

/// Whether `step` is what follows once the plan was stored.
pub open spec fn is_plan_step(
    planned: PlannedRead,
    reply: Result<(), AppError>,
    step: AgentPlanStep,
) -> bool {
    match reply {
        Err(error) => step.says(failed(error)),
        Ok(_) => {
            &&& step.effects@ == Seq::<Effect>::empty()
            &&& step.turn matches Turn::Done(Ok(plan))
            &&& planned.is_told_as(plan)
        },
    }
}

fn take_plan(planned: PlannedRead, reply: Result<(), AppError>) -> (r: AgentPlanStep)
    ensures
        is_plan_step(planned, reply, r),
{
    match reply {
        Err(error) => fail(error),
        Ok(_) => done(Ok(planned.tell())),
    }
}

impl AgentPlan {
    /// Whether `reply` answers what is awaited.
    pub open spec fn awaits(self, reply: AgentPlanReply) -> bool {
        match self {
            AgentPlan::Pin { .. } => reply is Pin,
            AgentPlan::Classification { .. } => reply is Classification,
            AgentPlan::Safety { .. } => reply is Safety,
            AgentPlan::Policy { .. } => reply is Policy,
            AgentPlan::Connection { .. } => reply is Connection,
            AgentPlan::Backend { .. } => reply is Backend,
            AgentPlan::Preview { .. } => reply is Preview,
            AgentPlan::Health { .. } => reply is Health && is_time(reply->now),
            AgentPlan::Plan { .. } => reply is Plan,
        }
    }

    /// The effects and the turn that follow `reply`, up to the plan that is handed out in the end.
    pub open spec fn after(self, reply: AgentPlanReply) -> (Seq<Effect>, AgentPlanTurn) {
        match self {
            AgentPlan::Pin { request } => after_pin(request, reply->Pin_0),
            AgentPlan::Classification { request, pin } => after_classification(
                request,
                pin,
                reply->Classification_0,
            ),
            AgentPlan::Safety { request, pin, classification } => after_safety(
                request,
                pin,
                classification,
                reply->Safety_0,
            ),
            AgentPlan::Policy { request, pin, classification, settings } => after_policy(
                request,
                pin,
                classification,
                settings,
                reply->Policy_0,
            ),
            AgentPlan::Connection { draft } => after_connection(draft, reply->Connection_0),
            AgentPlan::Backend { draft } => after_backend(draft, reply->Backend_0),
            AgentPlan::Preview { draft } => after_preview(draft, reply->Preview_0),
            AgentPlan::Health { draft, estimated_rows } => after_health(
                draft,
                estimated_rows,
                reply->health,
                reply->fresh_id,
                reply->now,
            ),
            AgentPlan::Plan { .. } => failed(reply->Plan_0->Err_0),
        }
    }

    /// Whether `step` is what follows `reply`.
    pub open spec fn follows(self, reply: AgentPlanReply, step: AgentPlanStep) -> bool {
        match self {
            AgentPlan::Health { draft, estimated_rows } => is_health_step(
                draft,
                estimated_rows,
                reply->health,
                reply->fresh_id,
                reply->now,
                step,
            ),
            AgentPlan::Plan { planned } => is_plan_step(planned, reply->Plan_0, step),
            _ => step.says(self.after(reply)),
        }
    }

    /// Begins to plan a read.
    pub fn start(request: AgentQueryPlanRequest) -> (r: AgentPlanStep)
        ensures
            r.says(
                (
                    Seq::empty(),
                    Turn::Ask {
                        state: AgentPlan::Pin { request },
                        request: AgentPlanRequest::PinConnection {
                            connection_id: request.connection_id,
                            access: ConnectionAccess::Read,
                        },
                    },
                ),
            ),
    {
        let connection_id = request.connection_id;
        ask(
            AgentPlan::Pin { request },
            AgentPlanRequest::PinConnection { connection_id, access: ConnectionAccess::Read },
        )
    }

    /// Takes the answer to the last question.
    pub fn advance(self, reply: AgentPlanReply) -> (r: AgentPlanStep)
        requires
            self.awaits(reply),
        ensures
            self.follows(reply, r),
    {
        match (self, reply) {
            (AgentPlan::Pin { request }, AgentPlanReply::Pin(reply)) => take_pin(request, reply),
            (
                AgentPlan::Classification { request, pin },
                AgentPlanReply::Classification(reply),
            ) => take_classification(request, pin, reply),
            (
                AgentPlan::Safety { request, pin, classification },
                AgentPlanReply::Safety(reply),
            ) => take_safety(request, pin, classification, reply),
            (
                AgentPlan::Policy { request, pin, classification, settings },
                AgentPlanReply::Policy(reply),
            ) => take_policy(request, pin, classification, settings, reply),
            (AgentPlan::Connection { draft }, AgentPlanReply::Connection(reply)) => take_connection(
                draft,
                reply,
            ),
            (AgentPlan::Backend { draft }, AgentPlanReply::Backend(reply)) => take_backend(
                draft,
                reply,
            ),
            (AgentPlan::Preview { draft }, AgentPlanReply::Preview(reply)) => take_preview(
                draft,
                reply,
            ),
            (
                AgentPlan::Health { draft, estimated_rows },
                AgentPlanReply::Health { health, fresh_id, now },
            ) => take_health(draft, estimated_rows, health, fresh_id, now),
            (AgentPlan::Plan { planned }, AgentPlanReply::Plan(reply)) => take_plan(planned, reply),
            _ => unreached(),
        }
    }
}

/// Where planning stands after these answers, if it is still going on and every one of
/// them answered what was asked.
pub open spec fn state_after(
    request: AgentQueryPlanRequest,
    replies: Seq<AgentPlanReply>,
) -> Option<AgentPlan>
    decreases replies.len(),
{
    if replies.len() == 0 {
        Some(AgentPlan::Pin { request })
    } else {
        match state_after(request, replies.drop_last()) {
            None => None,
            Some(state) => if state.awaits(replies.last()) {
                match state.after(replies.last()).1 {
                    Turn::Ask { state, .. } => Some(state),
                    Turn::Done(_) => None,
                }
            } else {
                None
            },
        }
    }
}

/// Whether the answers so far say that the connection holds tables and that the text is
/// one single read.
pub open spec fn accepted(
    request: AgentQueryPlanRequest,
    replies: Seq<AgentPlanReply>,
    pin: PinnedConnection,
    classification: Classification,
) -> bool {
    &&& replies.len() >= 2
    &&& replies[0] == AgentPlanReply::Pin(Ok(pin))
    &&& !pin.profile.engine.spec_is_document()
    &&& replies[1] == AgentPlanReply::Classification(Ok(classification))
    &&& classification.spec_is_single_read()
}

/// Whether a draft is of the request, and of an accepted one.
pub open spec fn drafted(
    request: AgentQueryPlanRequest,
    replies: Seq<AgentPlanReply>,
    draft: DraftPlan,
) -> bool {
    &&& draft.request == request
    &&& replies.len() >= 4
    &&& accepted(request, replies, draft.pin, draft.classification)
    &&& replies[2] == AgentPlanReply::Safety(Ok(draft.settings))
    &&& replies[3] == AgentPlanReply::Policy(Ok(draft.policy_revision))
}

/// What the answers must have been for planning to stand where it stands.
pub open spec fn explained(
    request: AgentQueryPlanRequest,
    replies: Seq<AgentPlanReply>,
    state: AgentPlan,
) -> bool {
    match state {
        AgentPlan::Pin { request: asked } => asked == request && replies.len() == 0,
        AgentPlan::Classification { request: asked, pin } => {
            &&& asked == request && replies.len() == 1
            &&& replies[0] == AgentPlanReply::Pin(Ok(pin))
            &&& !pin.profile.engine.spec_is_document()
        },
        AgentPlan::Safety { request: asked, pin, classification } => {
            asked == request && replies.len() == 2 && accepted(
                request,
                replies,
                pin,
                classification,
            )
        },
        AgentPlan::Policy { request: asked, pin, classification, settings } => {
            &&& asked == request && replies.len() == 3
            &&& accepted(request, replies, pin, classification)
            &&& replies[2] == AgentPlanReply::Safety(Ok(settings))
        },
        AgentPlan::Connection { draft } => replies.len() == 4 && drafted(request, replies, draft),
        AgentPlan::Backend { draft } => replies.len() == 5 && drafted(request, replies, draft),
        AgentPlan::Preview { draft } => replies.len() == 6 && drafted(request, replies, draft),
        AgentPlan::Health { draft, estimated_rows } => {
            &&& replies.len() == 7 && drafted(request, replies, draft)
            &&& replies[6] == AgentPlanReply::Preview(Ok(estimated_rows))
        },
        AgentPlan::Plan { planned } => {
            &&& replies.len() == 8 && planned.sql == request.sql
            &&& replies[0] matches AgentPlanReply::Pin(Ok(pin))
            &&& planned.connection_id == pin.profile.id
            &&& planned.connection_name == pin.profile.name
            &&& planned.environment == pin.profile.env
            &&& replies[1] matches AgentPlanReply::Classification(Ok(classification))
            &&& accepted(request, replies, pin, classification)
            &&& replies[6] == AgentPlanReply::Preview(Ok(planned.estimated_rows))
            &&& replies[7] matches AgentPlanReply::Health { health, fresh_id, .. }
            &&& planned.health == health
            &&& planned.plan_id == fresh_id
            &&& replies[2] matches AgentPlanReply::Safety(Ok(settings))
            &&& planned.guidance == findings(
                pin.profile.env,
                health.level@,
                health.coverage@,
                planned.estimated_rows,
                settings.exec_preview_row_limit,
            )
        },
    }
}

/// Planning stands nowhere that its answers do not explain: in particular the target is
/// looked at, and a plan stored, only for one single read on a database with tables.
pub proof fn every_state_is_explained(request: AgentQueryPlanRequest, replies: Seq<AgentPlanReply>)
    ensures
        state_after(request, replies) matches Some(state) ==> explained(request, replies, state),
    decreases replies.len(),
{
    if replies.len() > 0 {
        let earlier = replies.drop_last();
        every_state_is_explained(request, earlier);
        assert(forall|k: int| 0 <= k < earlier.len() ==> earlier[k] == replies[k]);
        match state_after(request, earlier) {
            None => {},
            Some(before) => {
                assert(explained(request, earlier, before));
            },
        }
    }
}

/// Where a step of planning leads is what [`AgentPlan::after`] says, and planning ends where it
/// says so.
pub proof fn steps_lead_where_they_say(state: AgentPlan, reply: AgentPlanReply, step: AgentPlanStep)
    requires
        state.awaits(reply),
        state.follows(reply, step),
    ensures
        step.effects@ == state.after(reply).0,
        match (step.turn, state.after(reply).1) {
            (Turn::Ask { state: reached, .. }, Turn::Ask { state: said, .. }) => reached == said,
            (Turn::Done(end), Turn::Done(said)) => state is Plan || end == said,
            _ => false,
        },
{
}

/// A plan's rows never exceed the agents' limit, whatever was asked for or configured,
/// and a smaller request is kept to.
pub proof fn row_caps_are_bounded(requested: Option<u64>, configured: u64)
    ensures
        row_cap(requested, configured) <= MAX_AGENT_ROWS,
        requested matches Some(rows) ==> row_cap(requested, configured) <= rows,
        requested is None ==> row_cap(requested, configured) <= configured,
{
}

} // verus!
