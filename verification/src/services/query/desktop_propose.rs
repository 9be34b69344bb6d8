//! Proposing one exact text of SQL. A read becomes ready to run once; everything that
//! changes the target waits for a person, whatever the connection's settings say.
use vstd::pervasive::unreached;
use vstd::prelude::*;

use crate::error::AppError;
use crate::model::{Classification, Engine, QueryKind, SafetySettings, WorkspaceConnectionAccess};
use crate::operations::{
    is_time, NewOperation, OperationKind, OperationPlanDisposition, OperationRecord, OperationState,
    PinnedConnection, PolicySnapshot,
};
use crate::services::effects::{ask, done, Effect, Step, Turn};
use crate::services::operation_service::{
    actor_for_pin, capture_policy, confirmation_for, person_of, policy_of, required_confirmation,
};
use crate::services::query::agent::QUERY_PLAN_TTL;
use crate::services::query::desktop_preview::{
    DesktopPreview, DesktopPreviewReply, DesktopPreviewRequest, DesktopSqlInspectionError,
    PreviewReport,
};
use crate::services::query::shared::{
    kind_of, operation_kind, operation_kinds_are_faithful, operation_risk, risk_of, GateDecision,
};
use crate::text::Text;

verus! {

/// How long a proposal to change the target waits for a person, in nanoseconds.
pub const WRITE_PROPOSAL_TTL: i128 = 300_000_000_000;

/// What the desktop proposes.
#[derive(PartialEq, Eq)]
pub struct DesktopSqlProposalRequest {
    pub connection_id: u128,
    pub sql: String,
    pub origin: Option<String>,
}

/// Where a proposal came from.
pub open spec fn origin_of(origin: Option<String>) -> Text {
    match origin {
        Some(origin) => Text::Owned(origin),
        None => Text::Plain("manual"),
    }
}

fn history_origin(origin: &Option<String>) -> (r: Text)
    ensures
        r == origin_of(*origin),
{
    match origin {
        Some(origin) => Text::Owned(origin.clone()),
        None => Text::Plain("manual"),
    }
}

/// What the desktop shows of a proposal.
#[derive(PartialEq, Eq)]
pub struct DesktopSqlProposalReceipt {
    pub operation_id: u128,
    pub payload_hash: String,
    pub state: OperationState,
    pub approval_required: bool,
    pub auto_run: bool,
    pub confirmation_phrase: Option<&'static str>,
    pub expires_at: i128,
    pub classification: Classification,
    pub preview: PreviewReport,
}

/// A proposal that has been classified.
#[derive(PartialEq, Eq)]
pub struct ProposalDraft {
    pub request: DesktopSqlProposalRequest,
    pub pin: PinnedConnection,
    pub preview: PreviewReport,
    pub settings: SafetySettings,
    pub classification: Classification,
}

/// How proposing ends.
pub type DesktopProposeEnd = Result<DesktopSqlProposalReceipt, DesktopSqlInspectionError>;

/// Where proposing stands: what it is waiting to hear.
#[derive(PartialEq, Eq)]
pub enum DesktopPropose {
    Preview { request: DesktopSqlProposalRequest, inner: DesktopPreview },
    Safety {
        request: DesktopSqlProposalRequest,
        pin: PinnedConnection,
        preview: PreviewReport,
    },
    Classification {
        request: DesktopSqlProposalRequest,
        pin: PinnedConnection,
        preview: PreviewReport,
        settings: SafetySettings,
    },
    Gate { draft: ProposalDraft },
    Policy { draft: ProposalDraft },
    Plan { draft: ProposalDraft, expires_at: i128 },
}

/// What proposing asks of the outside world.
#[derive(PartialEq, Eq)]
pub enum DesktopProposeRequest {
    /// Go on with the preview.
    Preview(DesktopPreviewRequest),
    /// Load the safety settings.
    LoadSafety { connection_id: u128 },
    /// Classify the SQL.
    Classify { sql: String, engine: Engine },
    /// Ask the safety gate.
    Decide { settings: SafetySettings, classification: Classification },
    /// Compute the revision of this policy, draw a fresh id and read the clock.
    HashPolicy { snapshot: PolicySnapshot },
    /// Store this operation with this payload and this preview.
    Plan { operation: NewOperation, sql: String, history_origin: Text, preview: PreviewReport },
}

/// What the outside world answers.
#[derive(PartialEq, Eq)]
pub enum DesktopProposeReply {
    Preview(DesktopPreviewReply),
    Safety(Result<SafetySettings, AppError>),
    Classification(Result<Classification, AppError>),
    Gate(GateDecision),
    Policy { revision: Result<String, AppError>, fresh_id: u128, now: i128 },
    Plan(Result<OperationRecord, AppError>),
}

/// A step of proposing.
pub type DesktopProposeStep = Step<DesktopPropose, DesktopProposeRequest, DesktopProposeEnd>;

/// What follows an answer while SQL is proposed.
pub type DesktopProposeTurn = Turn<DesktopPropose, DesktopProposeRequest, DesktopProposeEnd>;

/// The end of a proposal that failed.
pub open spec fn failed(error: AppError) -> (Seq<Effect>, DesktopProposeTurn) {
    (Seq::empty(), Turn::Done(Err(DesktopSqlInspectionError::Application(error))))
}

fn fail(error: AppError) -> (r: DesktopProposeStep)
    ensures
        r.says(failed(error)),
{
    done(Err(DesktopSqlInspectionError::Application(error)))
}

/// What follows an answer to the preview.
pub open spec fn after_preview(
    request: DesktopSqlProposalRequest,
    preview: DesktopPreview,
    reply: DesktopPreviewReply,
) -> (Seq<Effect>, DesktopProposeTurn) {
    (
        preview.after(reply).0,
        match preview.after(reply).1 {
            Turn::Ask { state, request: question } => Turn::Ask {
                state: DesktopPropose::Preview { request, inner: state },
                request: DesktopProposeRequest::Preview(question),
            },
            Turn::Done(Err(error)) => Turn::Done(Err(error)),
            Turn::Done(Ok(receipt)) => Turn::Ask {
                state: DesktopPropose::Safety {
                    request,
                    pin: receipt.pin,
                    preview: receipt.report,
                },
                request: DesktopProposeRequest::LoadSafety {
                    connection_id: receipt.pin.connection_id,
                },
            },
        },
    )
}

fn take_preview(
    request: DesktopSqlProposalRequest,
    preview: DesktopPreview,
    reply: DesktopPreviewReply,
) -> (r: DesktopProposeStep)
    requires
        preview.awaits(reply),
    ensures
        r.says(after_preview(request, preview, reply)),
{
    let step = preview.advance(reply);
    let effects = step.effects;
    match step.turn {
        Turn::Ask { state, request: question } => Step {
            effects,
            turn: Turn::Ask {
                state: DesktopPropose::Preview { request, inner: state },
                request: DesktopProposeRequest::Preview(question),
            },
        },
        Turn::Done(Err(error)) => Step { effects, turn: Turn::Done(Err(error)) },
        Turn::Done(Ok(receipt)) => {
            let connection_id = receipt.pin.connection_id;
            Step {
                effects,
                turn: Turn::Ask {
                    state: DesktopPropose::Safety {
                        request,
                        pin: receipt.pin,
                        preview: receipt.report,
                    },
                    request: DesktopProposeRequest::LoadSafety { connection_id },
                },
            }
        },
    }
}

/// What follows once the safety settings were loaded.
pub open spec fn after_safety(
    request: DesktopSqlProposalRequest,
    pin: PinnedConnection,
    preview: PreviewReport,
    reply: Result<SafetySettings, AppError>,
) -> (Seq<Effect>, DesktopProposeTurn) {
    match reply {
        Err(error) => failed(error),
        Ok(settings) => (
            Seq::empty(),
            Turn::Ask {
                state: DesktopPropose::Classification { request, pin, preview, settings },
                request: DesktopProposeRequest::Classify {
                    sql: request.sql,
                    engine: pin.profile.engine,
                },
            },
        ),
    }
}

fn take_safety(
    request: DesktopSqlProposalRequest,
    pin: PinnedConnection,
    preview: PreviewReport,
    reply: Result<SafetySettings, AppError>,
) -> (r: DesktopProposeStep)
    ensures
        r.says(after_safety(request, pin, preview, reply)),
{
    match reply {
        Err(error) => fail(error),
        Ok(settings) => {
            let question = DesktopProposeRequest::Classify {
                sql: request.sql.clone(),
                engine: pin.profile.engine,
            };
            ask(DesktopPropose::Classification { request, pin, preview, settings }, question)
        },
    }
}

/// What follows once the SQL was classified.
pub open spec fn after_classification(
    request: DesktopSqlProposalRequest,
    pin: PinnedConnection,
    preview: PreviewReport,
    settings: SafetySettings,
    reply: Result<Classification, AppError>,
) -> (Seq<Effect>, DesktopProposeTurn) {
    match reply {
        Err(error) => failed(error),
        Ok(classification) => if classification.spec_is_write()
            && !pin.profile.workspace_access.spec_can_write() {
            failed(
                AppError::Blocked {
                    reason: Text::Plain("your workspace role grants read-only database access"),
                },
            )
        } else {
            (
                Seq::empty(),
                Turn::Ask {
                    state: DesktopPropose::Gate {
                        draft: ProposalDraft { request, pin, preview, settings, classification },
                    },
                    request: DesktopProposeRequest::Decide { settings, classification },
                },
            )
        },
    }
}

fn take_classification(
    request: DesktopSqlProposalRequest,
    pin: PinnedConnection,
    preview: PreviewReport,
    settings: SafetySettings,
    reply: Result<Classification, AppError>,
) -> (r: DesktopProposeStep)
    ensures
        r.says(after_classification(request, pin, preview, settings, reply)),
{
    match reply {
        Err(error) => fail(error),
        Ok(classification) => {
            if classification.is_write() && !pin.profile.workspace_access.can_write() {
                fail(
                    AppError::Blocked {
                        reason: Text::Plain("your workspace role grants read-only database access"),
                    },
                )
            } else {
                ask(
                    DesktopPropose::Gate {
                        draft: ProposalDraft { request, pin, preview, settings, classification },
                    },
                    DesktopProposeRequest::Decide { settings, classification },
                )
            }
        },
    }
}

/// What follows once the safety check has decided. Only a block ends a proposal; whether a person
/// must approve is settled by what the SQL does.
pub open spec fn after_gate(draft: ProposalDraft, reply: GateDecision) -> (
    Seq<Effect>,
    DesktopProposeTurn,
) {
    match reply {
        GateDecision::Block { reason } => failed(AppError::Blocked { reason: Text::Owned(reason) }),
        _ => (
            Seq::empty(),
            Turn::Ask {
                state: DesktopPropose::Policy { draft },
                request: DesktopProposeRequest::HashPolicy {
                    snapshot: policy_of(draft.pin, Some(draft.settings)),
                },
            },
        ),
    }
}

fn take_gate(draft: ProposalDraft, reply: GateDecision) -> (r: DesktopProposeStep)
    ensures
        r.says(after_gate(draft, reply)),
{
    match reply {
        GateDecision::Block { reason } => fail(AppError::Blocked { reason: Text::Owned(reason) }),
        _ => {
            let snapshot = capture_policy(&draft.pin, &draft.settings);
            ask(DesktopPropose::Policy { draft }, DesktopProposeRequest::HashPolicy { snapshot })
        },
    }
}

/// When a proposal made now runs out.
pub open spec fn expiry(draft: ProposalDraft, now: i128) -> i128 {
    (now + if draft.classification.spec_is_write() {
        WRITE_PROPOSAL_TTL
    } else {
        QUERY_PLAN_TTL
    }) as i128
}

/// The operation that stands for a proposal.
pub open spec fn proposed_operation(
    draft: ProposalDraft,
    revision: String,
    operation_id: u128,
    now: i128,
) -> NewOperation {
    NewOperation {
        id: operation_id,
        workspace_id: draft.pin.scope.workspace_id,
        account_scope: draft.pin.scope.account_scope.key(),
        connection_id: draft.pin.connection_id,
        connection_revision: draft.pin.connection_revision,
        terminal_session_id: None,
        actor: person_of(draft.pin, origin_of(draft.request.origin)),
        kind: kind_of(draft.classification.kind),
        payload_schema_version: 1,
        risk_level: risk_of(draft.classification),
        policy_snapshot: policy_of(draft.pin, Some(draft.settings)),
        policy_revision: revision,
        single_use: true,
        idempotency_key: operation_id,
        expires_at: expiry(draft, now),
        disposition: if draft.classification.spec_is_write() {
            OperationPlanDisposition::ApprovalRequired
        } else {
            OperationPlanDisposition::Ready
        },
    }
}

/// What follows once the policy was hashed.
pub open spec fn after_policy(
    draft: ProposalDraft,
    revision: Result<String, AppError>,
    fresh_id: u128,
    now: i128,
) -> (Seq<Effect>, DesktopProposeTurn) {
    match revision {
        Err(error) => failed(error),
        Ok(revision) => (
            Seq::empty(),
            Turn::Ask {
                state: DesktopPropose::Plan { draft, expires_at: expiry(draft, now) },
                request: DesktopProposeRequest::Plan {
                    operation: proposed_operation(draft, revision, fresh_id, now),
                    sql: draft.request.sql,
                    history_origin: origin_of(draft.request.origin),
                    preview: draft.preview,
                },
            },
        ),
    }
}

fn take_policy(
    draft: ProposalDraft,
    revision: Result<String, AppError>,
    fresh_id: u128,
    now: i128,
) -> (r: DesktopProposeStep)
    requires
        is_time(now),
    ensures
        r.says(after_policy(draft, revision, fresh_id, now)),
{
    match revision {
        Err(error) => fail(error),
        Ok(revision) => {
            let is_write = draft.classification.is_write();
            let expires_at: i128 = if is_write {
                now + WRITE_PROPOSAL_TTL
            } else {
                now + QUERY_PLAN_TTL
            };
            let disposition = if is_write {
                OperationPlanDisposition::ApprovalRequired
            } else {
                OperationPlanDisposition::Ready
            };
            let operation = NewOperation {
                id: fresh_id,
                workspace_id: draft.pin.scope.workspace_id,
                account_scope: draft.pin.scope.account_scope.storage_key(),
                connection_id: draft.pin.connection_id,
                connection_revision: draft.pin.connection_revision,
                terminal_session_id: None,
                actor: actor_for_pin(&draft.pin, history_origin(&draft.request.origin)),
                kind: operation_kind(draft.classification.kind),
                payload_schema_version: 1,
                risk_level: operation_risk(&draft.classification),
                policy_snapshot: capture_policy(&draft.pin, &draft.settings),
                policy_revision: revision,
                single_use: true,
                idempotency_key: fresh_id,
                expires_at,
                disposition,
            };
            let question = DesktopProposeRequest::Plan {
                operation,
                sql: draft.request.sql.clone(),
                history_origin: history_origin(&draft.request.origin),
                preview: draft.preview.duplicate(),
            };
            ask(DesktopPropose::Plan { draft, expires_at }, question)
        },
    }
}

/// What follows once the proposal was stored.
pub open spec fn after_plan(
    draft: ProposalDraft,
    expires_at: i128,
    reply: Result<OperationRecord, AppError>,
) -> (Seq<Effect>, DesktopProposeTurn) {
    match reply {
        Err(error) => failed(error),
        Ok(operation) => (
            Seq::empty(),
            Turn::Done(
                Ok(
                    DesktopSqlProposalReceipt {
                        operation_id: operation.id,
                        payload_hash: operation.payload_hash,
                        state: operation.state,
                        approval_required: draft.classification.spec_is_write(),
                        auto_run: !draft.classification.spec_is_write()
                            && draft.settings.auto_run_reads,
                        confirmation_phrase: confirmation_for(operation),
                        expires_at,
                        classification: draft.classification,
                        preview: draft.preview,
                    },
                ),
            ),
        ),
    }
}

fn take_plan(draft: ProposalDraft, expires_at: i128, reply: Result<OperationRecord, AppError>) -> (r:
    DesktopProposeStep)
    ensures
        r.says(after_plan(draft, expires_at, reply)),
{
    match reply {
        Err(error) => fail(error),
        Ok(operation) => {
            let is_write = draft.classification.is_write();
            let confirmation_phrase = required_confirmation(&operation);
            done(
                Ok(
                    DesktopSqlProposalReceipt {
                        operation_id: operation.id,
                        payload_hash: operation.payload_hash,
                        state: operation.state,
                        approval_required: is_write,
                        auto_run: !is_write && draft.settings.auto_run_reads,
                        confirmation_phrase,
                        expires_at,
                        classification: draft.classification,
                        preview: draft.preview,
                    },
                ),
            )
        },
    }
}

impl DesktopPropose {
    /// Whether `reply` answers what is awaited.
    pub open spec fn awaits(self, reply: DesktopProposeReply) -> bool {
        match self {
            DesktopPropose::Preview { inner, .. } => reply is Preview && inner.awaits(
                reply->Preview_0,
            ),
            DesktopPropose::Safety { .. } => reply is Safety,
            DesktopPropose::Classification { .. } => reply is Classification,
            DesktopPropose::Gate { .. } => reply is Gate,
            DesktopPropose::Policy { .. } => reply is Policy && is_time(reply->now),
            DesktopPropose::Plan { .. } => reply is Plan,
        }
    }

    /// The effects and the turn that follow `reply`.
    pub open spec fn after(self, reply: DesktopProposeReply) -> (Seq<Effect>, DesktopProposeTurn) {
        match self {
            DesktopPropose::Preview { request, inner } => after_preview(
                request,
                inner,
                reply->Preview_0,
            ),
            DesktopPropose::Safety { request, pin, preview } => after_safety(
                request,
                pin,
                preview,
                reply->Safety_0,
            ),
            DesktopPropose::Classification { request, pin, preview, settings } => after_classification(
                request,
                pin,
                preview,
                settings,
                reply->Classification_0,
            ),
            DesktopPropose::Gate { draft } => after_gate(draft, reply->Gate_0),
            DesktopPropose::Policy { draft } => after_policy(
                draft,
                reply->revision,
                reply->fresh_id,
                reply->now,
            ),
            DesktopPropose::Plan { draft, expires_at } => after_plan(
                draft,
                expires_at,
                reply->Plan_0,
            ),
        }
    }

    /// Begins to propose.
    pub fn start(request: DesktopSqlProposalRequest) -> (r: DesktopProposeStep)
        ensures
            r.says(
                (
                    Seq::empty(),
                    Turn::Ask {
                        state: DesktopPropose::Preview {
                            request,
                            inner: DesktopPreview::Pin { sql: request.sql },
                        },
                        request: DesktopProposeRequest::Preview(
                            DesktopPreviewRequest::PinForView {
                                connection_id: request.connection_id,
                            },
                        ),
                    },
                ),
            ),
    {
        let connection_id = request.connection_id;
        let inner = DesktopPreview::Pin { sql: request.sql.clone() };
        ask(
            DesktopPropose::Preview { request, inner },
            DesktopProposeRequest::Preview(DesktopPreviewRequest::PinForView { connection_id }),
        )
    }

    /// Takes the answer to the last question.
    pub fn advance(self, reply: DesktopProposeReply) -> (r: DesktopProposeStep)
        requires
            self.awaits(reply),
        ensures
            r.says(self.after(reply)),
    {
        match (self, reply) {
            (
                DesktopPropose::Preview { request, inner },
                DesktopProposeReply::Preview(reply),
            ) => take_preview(request, inner, reply),
            (
                DesktopPropose::Safety { request, pin, preview },
                DesktopProposeReply::Safety(reply),
            ) => take_safety(request, pin, preview, reply),
            (
                DesktopPropose::Classification { request, pin, preview, settings },
                DesktopProposeReply::Classification(reply),
            ) => take_classification(request, pin, preview, settings, reply),
            (DesktopPropose::Gate { draft }, DesktopProposeReply::Gate(reply)) => take_gate(
                draft,
                reply,
            ),
            (
                DesktopPropose::Policy { draft },
                DesktopProposeReply::Policy { revision, fresh_id, now },
            ) => take_policy(draft, revision, fresh_id, now),
            (
                DesktopPropose::Plan { draft, expires_at },
                DesktopProposeReply::Plan(reply),
            ) => take_plan(draft, expires_at, reply),
            _ => unreached(),
        }
    }
}

/// A proposal that changes its target always waits for a person, whatever the settings
/// say, and one that only reads never does; either can be used once.
pub proof fn writes_always_wait_for_approval(
    draft: ProposalDraft,
    revision: String,
    operation_id: u128,
    now: i128,
)
    ensures
        ({
            let operation = proposed_operation(draft, revision, operation_id, now);
            &&& operation.single_use
            &&& (operation.disposition == OperationPlanDisposition::ApprovalRequired)
                == operation.kind.spec_may_mutate_target()
        }),
{
    operation_kinds_are_faithful(
        draft.classification.kind,
        draft.classification.kind,
    );
}

/// What is stored, and later executed, is exactly the SQL that was proposed.
pub proof fn the_proposed_sql_is_stored(
    draft: ProposalDraft,
    revision: String,
    fresh_id: u128,
    now: i128,
)
    ensures
        after_policy(draft, Ok(revision), fresh_id, now).1 matches Turn::Ask {
            request: DesktopProposeRequest::Plan { sql, operation, .. },
            ..
        } && sql == draft.request.sql && operation.id == fresh_id,
{
}

/// A proposal is begun as a preview of the SQL and the connection that were requested, and
/// goes on with the connection that the preview was made for.
pub proof fn proposals_begin_with_a_preview(
    request: DesktopSqlProposalRequest,
    begun: DesktopProposeStep,
    inner: DesktopPreview,
    reply: DesktopPreviewReply,
)
    requires
        call_ensures(DesktopPropose::start, (request,), begun),
    ensures
        begun.turn matches Turn::Ask {
            state: DesktopPropose::Preview { request: kept, inner: DesktopPreview::Pin { sql } },
            request: DesktopProposeRequest::Preview(
                DesktopPreviewRequest::PinForView { connection_id },
            ),
        } && kept == request && sql == request.sql && connection_id == request.connection_id,
        ({
            let (effects, turn) = DesktopPropose::Preview { request, inner }.after(
                DesktopProposeReply::Preview(reply),
            );
            &&& effects == inner.after(reply).0
            &&& match inner.after(reply).1 {
                Turn::Ask { state, request: question } => turn == (DesktopProposeTurn::Ask {
                    state: DesktopPropose::Preview { request, inner: state },
                    request: DesktopProposeRequest::Preview(question),
                }),
                Turn::Done(Err(error)) => turn == DesktopProposeTurn::Done(Err(error)),
                Turn::Done(Ok(receipt)) => turn matches Turn::Ask {
                    state: DesktopPropose::Safety { request: kept, pin, preview },
                    request: DesktopProposeRequest::LoadSafety { connection_id },
                } && kept == request && pin == receipt.pin && preview == receipt.report
                    && connection_id == receipt.pin.connection_id,
            }
        }),
{
}

/// A proposal from its preview on, told by what was requested and answered. The SQL that
/// is classified and stored is the one requested, and what is stored with it is what was
/// found: its kind, its risk, the policy of the connection that was pinned, and the
/// preview. A write is refused to a role that may not write, and else waits five minutes
/// for a person; a read is ready at once and lasts half a minute. The receipt tells of
/// the operation that was stored.
#[verifier::spinoff_prover]
#[verifier::rlimit(40)]
pub proof fn proposals_store_what_was_requested(
    request: DesktopSqlProposalRequest,
    pin: PinnedConnection,
    preview: PreviewReport,
    settings: SafetySettings,
    classification: Classification,
    decision: GateDecision,
    revision: String,
    fresh_id: u128,
    now: i128,
    stored: OperationRecord,
)
    requires
        is_time(now),
    ensures
        ({
            let writes = classification.kind != QueryKind::Read;
            let access = pin.profile.workspace_access;
            let loaded = DesktopPropose::Safety { request, pin, preview }.after(
                DesktopProposeReply::Safety(Ok(settings)),
            );
            let told = loaded.1->state.after(
                DesktopProposeReply::Classification(Ok(classification)),
            );
            let decided = told.1->state.after(DesktopProposeReply::Gate(decision));
            let hashed = decided.1->state.after(
                DesktopProposeReply::Policy { revision: Ok(revision), fresh_id, now },
            );
            let ended = hashed.1->state.after(DesktopProposeReply::Plan(Ok(stored)));
            &&& loaded.0.len() == 0 && told.0.len() == 0
            &&& loaded.1 matches Turn::Ask {
                request: DesktopProposeRequest::Classify { sql, engine },
                ..
            } && sql == request.sql && engine == pin.profile.engine
            &&& if writes && (access == WorkspaceConnectionAccess::View || access
                == WorkspaceConnectionAccess::Read) {
                told.1 matches Turn::Done(
                    Err(DesktopSqlInspectionError::Application(AppError::Blocked { reason })),
                ) && reason == Text::Plain("your workspace role grants read-only database access")
            } else {
                &&& told.1 matches Turn::Ask {
                    request: DesktopProposeRequest::Decide { settings: used, classification: found },
                    ..
                } && used == settings && found == classification
                &&& decided.0.len() == 0
                &&& match decision {
                    GateDecision::Block { reason } => decided.1 matches Turn::Done(
                        Err(DesktopSqlInspectionError::Application(AppError::Blocked { reason: told })),
                    ) && told == Text::Owned(reason),
                    _ => {
                        &&& hashed.0.len() == 0 && ended.0.len() == 0
                        &&& decided.1 matches Turn::Ask {
                            request: DesktopProposeRequest::HashPolicy { snapshot },
                            ..
                        } && snapshot == policy_of(pin, Some(settings))
                        &&& hashed.1 matches Turn::Ask {
                            request: DesktopProposeRequest::Plan {
                                operation,
                                sql,
                                history_origin,
                                preview: kept,
                            },
                            ..
                        }
                        &&& sql == request.sql
                        &&& history_origin == match request.origin {
                            Some(origin) => Text::Owned(origin),
                            None => Text::Plain("manual"),
                        }
                        &&& kept == preview
                        &&& operation.id == fresh_id && operation.idempotency_key == fresh_id
                        &&& operation.workspace_id == pin.scope.workspace_id
                        &&& operation.account_scope == pin.scope.account_scope.key()
                        &&& operation.connection_id == pin.connection_id
                        &&& operation.connection_revision == pin.connection_revision
                        &&& operation.terminal_session_id is None
                        &&& operation.actor == person_of(pin, history_origin)
                        &&& operation.kind == match classification.kind {
                            QueryKind::Read => OperationKind::ReadQuery,
                            QueryKind::Write => OperationKind::WriteSql,
                            QueryKind::Ddl => OperationKind::Ddl,
                            QueryKind::Privilege => OperationKind::Privilege,
                        }
                        &&& operation.payload_schema_version == 1
                        &&& operation.risk_level == risk_of(classification)
                        &&& operation.policy_snapshot == policy_of(pin, Some(settings))
                        &&& operation.policy_revision == revision
                        &&& operation.single_use
                        &&& operation.expires_at == now + if writes {
                            300_000_000_000int
                        } else {
                            30_000_000_000int
                        }
                        &&& operation.disposition == if writes {
                            OperationPlanDisposition::ApprovalRequired
                        } else {
                            OperationPlanDisposition::Ready
                        }
                        &&& ended.1 matches Turn::Done(Ok(receipt))
                        &&& receipt.operation_id == stored.id
                        &&& receipt.payload_hash == stored.payload_hash
                        &&& receipt.state == stored.state
                        &&& receipt.approval_required == writes
                        &&& receipt.auto_run == (!writes && settings.auto_run_reads)
                        &&& receipt.confirmation_phrase == confirmation_for(stored)
                        &&& receipt.expires_at == operation.expires_at
                        &&& receipt.classification == classification
                        &&& receipt.preview == preview
                    },
                }
            }
        }),
{
}

/// Whatever goes wrong with a proposal is the error that it ends with.
pub proof fn proposal_failures_are_told(state: DesktopPropose, reply: DesktopProposeReply)
    requires
        state.awaits(reply),
    ensures
        match reply {
            DesktopProposeReply::Safety(Err(error)) => state.after(reply).1 matches Turn::Done(
                Err(DesktopSqlInspectionError::Application(told)),
            ) && told == error,
            DesktopProposeReply::Classification(Err(error)) => state.after(
                reply,
            ).1 matches Turn::Done(Err(DesktopSqlInspectionError::Application(told))) && told
                == error,
            DesktopProposeReply::Policy { revision: Err(error), .. } => state.after(
                reply,
            ).1 matches Turn::Done(Err(DesktopSqlInspectionError::Application(told))) && told
                == error,
            DesktopProposeReply::Plan(Err(error)) => state.after(reply).1 matches Turn::Done(
                Err(DesktopSqlInspectionError::Application(told)),
            ) && told == error,
            _ => true,
        },
{
}

} // verus!
