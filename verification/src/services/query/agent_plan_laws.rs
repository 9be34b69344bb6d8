//! What planning an agent's read asks for, stores and tells, in every run.
use vstd::prelude::*;

use crate::model::{Engine, QueryKind, RiskLevel};
use crate::operations::{
    AccountScope, OperationActorKind, OperationKind, OperationPlanDisposition, OperationRiskLevel,
};
use crate::services::effects::{Effect, Turn};
use crate::services::query::agent::AgentQueryInvocationOrigin;
use crate::services::query::agent_plan::{
    every_state_is_explained, state_after, AgentPlanReply, AgentPlanRequest, AgentPlanStep,
    AgentQueryPlanError, AgentQueryPlanRequest,
};
use crate::services::query::guidance::findings;
use crate::text::{texts, Text};

verus! {

/// What planning does after each answer, told by the request and the answers alone. The
/// requested SQL is what is classified, what the planner is asked about and what is
/// stored, and it is asked about as it was classified, under the settings that were
/// loaded. The rows that a plan allows are those requested, or those of the settings
/// where none were requested, and never more than a thousand. Whatever goes wrong is the
/// error that planning ends with.
pub proof fn plans_are_for_what_was_requested(
    request: AgentQueryPlanRequest,
    replies: Seq<AgentPlanReply>,
    last: AgentPlanReply,
    step: AgentPlanStep,
)
    requires
        state_after(request, replies) matches Some(state) && state.awaits(last) && state.follows(
            last,
            step,
        ),
    ensures
        ({
            let all = replies.push(last);
            match last {
                AgentPlanReply::Pin(Ok(pin)) => if pin.profile.engine == Engine::Mongodb {
                    step.turn matches Turn::Done(Err(AgentQueryPlanError::DocumentConnection))
                } else {
                    &&& step.turn matches Turn::Ask {
                        request: AgentPlanRequest::Classify { sql, engine },
                        ..
                    }
                    &&& sql == request.sql
                    &&& engine == pin.profile.engine
                },
                AgentPlanReply::Classification(Ok(classification)) => {
                    &&& all[0] matches AgentPlanReply::Pin(Ok(pin))
                    &&& if classification.kind == QueryKind::Read
                        && classification.statement_count == 1 {
                        &&& step.turn matches Turn::Ask {
                            request: AgentPlanRequest::LoadSafety { connection_id },
                            ..
                        }
                        &&& connection_id == pin.profile.id
                    } else {
                        &&& step.turn matches Turn::Done(
                            Err(AgentQueryPlanError::NotSingleRead(rejected)),
                        )
                        &&& rejected.connection_id == pin.profile.id
                        &&& rejected.connection_name == pin.profile.name
                        &&& rejected.engine == pin.profile.engine
                        &&& rejected.sql == request.sql
                        &&& rejected.kind == classification.kind
                        &&& rejected.origin == request.origin
                    }
                },
                AgentPlanReply::Safety(Ok(_)) => {
                    &&& all[0] matches AgentPlanReply::Pin(Ok(pin))
                    &&& step.turn matches Turn::Ask {
                        request: AgentPlanRequest::HashPolicy { snapshot },
                        ..
                    }
                    &&& snapshot.workspace_id == pin.scope.workspace_id
                    &&& snapshot.account_scope == pin.scope.account_scope.key()
                    &&& snapshot.scope_generation == pin.scope.generation
                    &&& snapshot.connection_revision == pin.connection_revision
                    &&& snapshot.binding_revision == pin.binding_revision
                    &&& snapshot.binding_updated_at == pin.binding_updated_at
                    &&& snapshot.credential_mode == pin.profile.credential_mode
                    &&& snapshot.environment == pin.profile.env
                    &&& snapshot.workspace_access == pin.profile.workspace_access
                    &&& snapshot.safety is None
                },
                AgentPlanReply::Policy(Ok(_)) => step.turn matches Turn::Ask {
                    request: AgentPlanRequest::Connect,
                    ..
                },
                AgentPlanReply::Connection(Ok(_)) => step.turn matches Turn::Ask {
                    request: AgentPlanRequest::OpenBackend,
                    ..
                },
                AgentPlanReply::Backend(Ok(_)) => {
                    &&& step.turn matches Turn::Ask {
                        request: AgentPlanRequest::Preview { sql, classification, settings },
                        ..
                    }
                    &&& sql == request.sql
                    &&& all[1] == AgentPlanReply::Classification(Ok(classification))
                    &&& all[2] == AgentPlanReply::Safety(Ok(settings))
                },
                AgentPlanReply::Preview(Ok(_)) => step.turn matches Turn::Ask {
                    request: AgentPlanRequest::CheckHealth,
                    ..
                },
                AgentPlanReply::Health { health, fresh_id, now } => {
                    &&& all[0] matches AgentPlanReply::Pin(Ok(pin))
                    &&& all[1] matches AgentPlanReply::Classification(Ok(classification))
                    &&& all[2] matches AgentPlanReply::Safety(Ok(settings))
                    &&& step.turn matches Turn::Ask {
                        request: AgentPlanRequest::Plan {
                            operation,
                            sql,
                            max_rows,
                            decision,
                            origin,
                            preview,
                        },
                        ..
                    }
                    &&& sql == request.sql
                    &&& origin == request.origin
                    &&& max_rows <= 1000
                    &&& request.max_rows matches Some(rows) ==> max_rows == if rows < 1000 {
                        rows
                    } else {
                        1000u64
                    }
                    &&& request.max_rows is None ==> max_rows == if settings.max_rows < 1000 {
                        settings.max_rows
                    } else {
                        1000u64
                    }
                    &&& decision == if preview.guidance.cautious() {
                        "caution"
                    } else {
                        "ready"
                    }
                    &&& all[6] == AgentPlanReply::Preview(Ok(preview.estimated_rows))
                    &&& preview.guidance == findings(
                        pin.profile.env,
                        health.level@,
                        health.coverage@,
                        preview.estimated_rows,
                        settings.exec_preview_row_limit,
                    )
                    &&& preview.health.level@ == health.level@
                    &&& preview.health.coverage@ == health.coverage@
                    &&& texts(preview.health.reasons@) == texts(health.reasons@)
                    &&& operation.id == fresh_id && operation.idempotency_key == fresh_id
                    &&& operation.single_use
                    &&& operation.expires_at == now + 30_000_000_000
                    &&& operation.kind == OperationKind::ReadQuery
                    &&& operation.payload_schema_version == 1
                    &&& operation.disposition == OperationPlanDisposition::Ready
                    &&& operation.terminal_session_id is None
                    &&& operation.workspace_id == pin.scope.workspace_id
                    &&& operation.account_scope == pin.scope.account_scope.key()
                    &&& operation.connection_id == pin.connection_id
                    &&& operation.connection_revision == pin.connection_revision
                    &&& operation.actor.kind == OperationActorKind::Agent
                    &&& operation.actor.id == Text::Plain(
                        if request.origin == AgentQueryInvocationOrigin::Mcp {
                            "mcp"
                        } else {
                            "cli"
                        },
                    )
                    &&& operation.actor.provenance.origin_surface == operation.actor.id
                    &&& match pin.scope.account_scope {
                        AccountScope::Personal => {
                            &&& operation.actor.provenance.workspace_account_id is None
                            &&& operation.actor.provenance.local_account_id == Some(
                                Text::Plain("local-user"),
                            )
                        },
                        AccountScope::WorkspaceUser(id) => {
                            &&& operation.actor.provenance.workspace_account_id == Some(
                                Text::Owned(id),
                            )
                            &&& operation.actor.provenance.local_account_id is None
                        },
                    }
                    &&& operation.risk_level == match classification.risk {
                        RiskLevel::Low => OperationRiskLevel::Low,
                        RiskLevel::Medium => OperationRiskLevel::Medium,
                        RiskLevel::High => OperationRiskLevel::High,
                    }
                    &&& all[3] == AgentPlanReply::Policy(Ok(operation.policy_revision))
                    &&& operation.policy_snapshot.connection_revision == pin.connection_revision
                    &&& operation.policy_snapshot.workspace_id == pin.scope.workspace_id
                    &&& operation.policy_snapshot.environment == pin.profile.env
                    &&& operation.policy_snapshot.safety is None
                },
                AgentPlanReply::Plan(Ok(_)) => {
                    &&& all[0] matches AgentPlanReply::Pin(Ok(pin))
                    &&& all[7] matches AgentPlanReply::Health { health, fresh_id, .. }
                    &&& step.turn matches Turn::Done(Ok(plan))
                    &&& plan.connection_id == pin.profile.id
                    &&& plan.connection_name == pin.profile.name
                    &&& plan.environment == pin.profile.env
                    &&& plan.sql == request.sql
                    &&& plan.plan_id == fresh_id
                    &&& all[6] == AgentPlanReply::Preview(Ok(plan.estimated_rows))
                    &&& plan.health == health
                    &&& all[2] matches AgentPlanReply::Safety(Ok(settings))
                    &&& ({
                        let found = findings(
                            pin.profile.env,
                            health.level@,
                            health.coverage@,
                            plan.estimated_rows,
                            settings.exec_preview_row_limit,
                        );
                        &&& plan.decision == if found.cautious() {
                            "caution"
                        } else {
                            "ready"
                        }
                        &&& texts(plan.notices@) == found.notice_texts(texts(health.reasons@))
                        &&& texts(plan.suggestions@) == found.suggestion_texts()
                    })
                },
                AgentPlanReply::Pin(Err(error)) => step.turn matches Turn::Done(
                    Err(AgentQueryPlanError::Application(told)),
                ) && told == error,
                AgentPlanReply::Classification(Err(error)) => step.turn matches Turn::Done(
                    Err(AgentQueryPlanError::Application(told)),
                ) && told == error,
                AgentPlanReply::Safety(Err(error)) => step.turn matches Turn::Done(
                    Err(AgentQueryPlanError::Application(told)),
                ) && told == error,
                AgentPlanReply::Policy(Err(error)) => step.turn matches Turn::Done(
                    Err(AgentQueryPlanError::Application(told)),
                ) && told == error,
                AgentPlanReply::Connection(Err(error)) => step.turn matches Turn::Done(
                    Err(AgentQueryPlanError::Application(told)),
                ) && told == error,
                AgentPlanReply::Backend(Err(error)) => step.turn matches Turn::Done(
                    Err(AgentQueryPlanError::Application(told)),
                ) && told == error,
                AgentPlanReply::Preview(Err(error)) => step.turn matches Turn::Done(
                    Err(AgentQueryPlanError::Application(told)),
                ) && told == error,
                AgentPlanReply::Plan(Err(error)) => step.turn matches Turn::Done(
                    Err(AgentQueryPlanError::Application(told)),
                ) && told == error,
            }
        }),
{
    every_state_is_explained(request, replies);
    let all = replies.push(last);
    assert(forall|k: int| 0 <= k < replies.len() ==> all[k] == replies[k]);
    assert(all.last() == last);
}

/// Planning leaves one row in the audit chain, just before the plan is stored: it tells
/// of the requested SQL, as a read on the pinned connection, under the name of the
/// adapter that asked.
pub proof fn a_plan_is_announced(
    request: AgentQueryPlanRequest,
    replies: Seq<AgentPlanReply>,
    last: AgentPlanReply,
    step: AgentPlanStep,
)
    requires
        state_after(request, replies) matches Some(state) && state.awaits(last) && state.follows(
            last,
            step,
        ),
    ensures
        !(last is Health) ==> step.effects@.len() == 0,
        last is Health ==> {
            &&& replies[0] matches AgentPlanReply::Pin(Ok(pin))
            &&& step.effects@.len() == 1
            &&& step.effects@[0] matches Effect::Audit(row)
            &&& row.connection_id == pin.profile.id
            &&& row.engine == pin.profile.engine
            &&& row.sql == request.sql
            &&& row.kind == QueryKind::Read
            &&& row.action == Text::Plain(
                match request.origin {
                    AgentQueryInvocationOrigin::Mcp => "mcp:plan_query",
                    AgentQueryInvocationOrigin::Cli => "cli:plan_query",
                },
            )
            &&& row.approved_by is None
            &&& row.affected_estimate is None
            &&& row.error is None
        },
{
    every_state_is_explained(request, replies);
}

} // verus!
