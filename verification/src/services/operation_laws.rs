//! What operations are bound to, who may decide on them, and what is recorded of it.
use vstd::prelude::*;

use crate::error::AppError;
use crate::model::{Classification, QueryKind, RiskLevel, SafetySettings};
use crate::operations::{
    AccountScope, OperationActorKind, OperationKind, OperationRecord, OperationRiskLevel,
    OperationState, PinnedConnection,
};
use crate::services::effects::{Effect, Turn};
use crate::services::operation_decision::{
    every_state_is_explained, shown, state_after, wait_turn, Decision, DecisionReply,
    DecisionRequest, DecisionStep, OperationDecisionRequest, TerminalCancel, TerminalCancelReply,
    TerminalCancelRequest, TerminalCancelStep, Verdict, WaitStep,
};
use crate::services::operation_service::{
    agent_of, approver_of, confirmation_for, in_operation_scope, in_terminal_scope, person_of,
    policy_of, summary_of,
};
use crate::services::query::shared::risk_of;
use crate::services::terminal_authority::TerminalAuthority;
use crate::text::{ascii_lower, same_ignoring_ascii_case, Text};

verus! {

/// Approving takes a phrase exactly where the operation may change its target and is
/// critical or on production, however production is spelled: `RUN CRITICAL` for what is
/// critical, and else `PROD`.
pub proof fn risky_approvals_take_a_phrase(record: OperationRecord)
    ensures
        ({
            let harmless = record.kind == OperationKind::ReadQuery || record.kind
                == OperationKind::DocumentRead || record.kind == OperationKind::Export
                || record.kind == OperationKind::DashboardCreate;
            let production = record.policy_environment matches Some(label) && {
                &&& label@.len() == 4
                &&& (label@[0] == 'p' || label@[0] == 'P')
                &&& (label@[1] == 'r' || label@[1] == 'R')
                &&& (label@[2] == 'o' || label@[2] == 'O')
                &&& (label@[3] == 'd' || label@[3] == 'D')
            };
            &&& harmless ==> confirmation_for(record) is None
            &&& !harmless && record.risk_level == OperationRiskLevel::Critical ==> confirmation_for(
                record,
            ) is Some && confirmation_for(record)->0@ == "RUN CRITICAL"@
            &&& !harmless && record.risk_level != OperationRiskLevel::Critical && production
                ==> confirmation_for(record) is Some && confirmation_for(record)->0@ == "PROD"@
            &&& !harmless && record.risk_level != OperationRiskLevel::Critical && !production
                ==> confirmation_for(record) is None
        }),
{
    reveal_strlit("prod");
    let wanted = "prod"@;
    if let Some(label) = record.policy_environment {
        let label = label@;
        if label.len() == 4 {
            assert(same_ignoring_ascii_case(label, wanted) <==> ascii_lower(label[0]) == 'p'
                && ascii_lower(label[1]) == 'r' && ascii_lower(label[2]) == 'o' && ascii_lower(
                label[3],
            ) == 'd') by {
                assert(ascii_lower(wanted[0]) == 'p' && ascii_lower(wanted[1]) == 'r'
                    && ascii_lower(wanted[2]) == 'o' && ascii_lower(wanted[3]) == 'd');
            }
        }
    }
}

/// An operation is in the scope of a pin exactly where the workspace, the account, the
/// connection and its revision are the same, and in that of a Terminal where, besides, it
/// was proposed from this very session.
pub proof fn scopes_are_exact(
    record: OperationRecord,
    pin: PinnedConnection,
    terminal: TerminalAuthority,
)
    ensures
        in_operation_scope(record, pin) <==> record.workspace_id == pin.scope.workspace_id
            && record.connection_id == pin.connection_id && record.connection_revision
            == pin.connection_revision && match pin.scope.account_scope {
            AccountScope::Personal => record.account_scope@ == "personal"@,
            AccountScope::WorkspaceUser(id) => record.account_scope@ == id@,
        },
        in_terminal_scope(record, terminal) <==> record.terminal_session_id == Some(
            terminal.terminal_session_id,
        ) && record.workspace_id == terminal.workspace_id && record.account_scope@
            == terminal.account_scope@ && record.connection_id == terminal.connection_id
            && record.connection_revision == terminal.connection_revision,
{
}

/// Whoever acts is the person of the pinned scope: the user of this device in a personal
/// one, and the workspace's user in a shared one. An agent acts under its own name, on
/// behalf of that person. The person who decides is the same person.
pub proof fn actors_are_the_people_of_the_scope(pin: PinnedConnection, name: Text, surface: Text)
    ensures
        ({
            let person = person_of(pin, surface);
            let agent = agent_of(pin, name, surface);
            let approver = approver_of(pin);
            &&& match pin.scope.account_scope {
                AccountScope::Personal => {
                    &&& person.kind == OperationActorKind::LocalUser
                    &&& person.id == Text::Plain("local-user")
                    &&& person.provenance.local_account_id == Some(Text::Plain("local-user"))
                    &&& person.provenance.workspace_account_id is None
                },
                AccountScope::WorkspaceUser(id) => {
                    &&& person.kind == OperationActorKind::WorkspaceUser
                    &&& person.id == Text::Owned(id)
                    &&& person.provenance.local_account_id is None
                    &&& person.provenance.workspace_account_id == Some(Text::Owned(id))
                },
            }
            &&& person.provenance.origin_surface == surface
            &&& agent.kind == OperationActorKind::Agent
            &&& agent.id == name
            &&& agent.provenance == person.provenance
            &&& approver.kind == person.kind
            &&& approver.id == person.id
        }),
{
}

/// A policy holds what the connection is governed by, as it was pinned, and the safety
/// settings that it is given.
pub proof fn policies_hold_what_was_pinned(pin: PinnedConnection, safety: Option<SafetySettings>)
    ensures
        ({
            let policy = policy_of(pin, safety);
            &&& policy.workspace_id == pin.scope.workspace_id
            &&& policy.account_scope@ == match pin.scope.account_scope {
                AccountScope::Personal => "personal"@,
                AccountScope::WorkspaceUser(id) => id@,
            }
            &&& policy.scope_generation == pin.scope.generation
            &&& policy.connection_revision == pin.connection_revision
            &&& policy.binding_revision == pin.binding_revision
            &&& policy.binding_updated_at == pin.binding_updated_at
            &&& policy.credential_mode == pin.profile.credential_mode
            &&& policy.environment == pin.profile.env
            &&& policy.workspace_access == pin.profile.workspace_access
            &&& policy.safety == safety
        }),
{
}

/// A statement that is no read and names no rows is of critical risk; any other has the
/// risk that was found.
pub proof fn risks_are_as_found(classification: Classification)
    ensures
        ({
            let unbounded = classification.no_where && classification.kind != QueryKind::Read;
            &&& unbounded <==> risk_of(classification) == OperationRiskLevel::Critical
            &&& !unbounded ==> (risk_of(classification) == OperationRiskLevel::Low
                <==> classification.risk == RiskLevel::Low)
            &&& !unbounded ==> (risk_of(classification) == OperationRiskLevel::Medium
                <==> classification.risk == RiskLevel::Medium)
            &&& !unbounded ==> (risk_of(classification) == OperationRiskLevel::High
                <==> classification.risk == RiskLevel::High)
        }),
{
}

/// What is said of an operation in public is the operation's own.
pub proof fn summaries_are_of_the_operation(record: OperationRecord)
    ensures
        ({
            let summary = summary_of(record);
            &&& summary.operation_id == record.id
            &&& summary.connection_id == record.connection_id
            &&& summary.kind == record.kind
            &&& summary.state == record.state
            &&& summary.risk_level == record.risk_level
            &&& summary.payload_hash == record.payload_hash
            &&& summary.expires_at == record.expires_at
            &&& summary.started_at == record.started_at
            &&& summary.finished_at == record.finished_at
            &&& summary.created_at == record.created_at
            &&& summary.updated_at == record.updated_at
        }),
{
}

/// A decision begins by loading the operation that it names.
pub proof fn decisions_begin_with_the_operation(
    request: OperationDecisionRequest,
    verdict: Verdict,
    begun: DecisionStep,
)
    requires
        call_ensures(Decision::start, (request, verdict), begun),
    ensures
        begun.effects@.len() == 0,
        begun.turn matches Turn::Ask { state, request: DecisionRequest::LoadOperation { operation_id } }
            && operation_id == request.operation_id && Some(state) == state_after(
            request,
            verdict,
            Seq::empty(),
        ),
{
}

/// What a decision does after each answer, told by the request and the answers alone. What
/// is recorded is what the person decided, on the operation and the payload that they
/// named, with the reason that they gave, by the person of the pinned scope, under the
/// policy of today. An approval without the phrase that it takes, and a decision on what
/// is no longer in its scope, is refused. Nothing else happens.
pub proof fn decisions_record_what_was_decided(
    request: OperationDecisionRequest,
    verdict: Verdict,
    replies: Seq<DecisionReply>,
    last: DecisionReply,
)
    requires
        state_after(request, verdict, replies) matches Some(state) && state.awaits(last),
    ensures
        ({
            let all = replies.push(last);
            let (effects, turn) = state_after(request, verdict, replies)->0.after(last);
            &&& effects.len() == 0
            &&& match last {
                DecisionReply::Loaded(Ok(record)) => match confirmation_for(record) {
                    Some(phrase) => if verdict == Verdict::Approve && !(
                    request.reason matches Some(reason) && reason@ == phrase@) {
                        turn matches Turn::Done(Err(AppError::Blocked { reason })) && reason@
                            == "type the exact confirmation phrase `"@ + phrase@
                            + "` before approving this operation"@
                    } else {
                        turn matches Turn::Ask {
                            request: DecisionRequest::PinForView { connection_id },
                            ..
                        } && connection_id == record.connection_id
                    },
                    None => turn matches Turn::Ask {
                        request: DecisionRequest::PinForView { connection_id },
                        ..
                    } && connection_id == record.connection_id,
                },
                DecisionReply::Pinned(Ok(pin)) => {
                    &&& all[0] matches DecisionReply::Loaded(Ok(record))
                    &&& if in_operation_scope(record, pin) {
                        turn matches Turn::Ask {
                            request: DecisionRequest::LoadSafety { connection_id },
                            ..
                        } && connection_id == pin.connection_id
                    } else {
                        turn matches Turn::Done(Err(AppError::Blocked { reason })) && reason
                            == Text::Plain(
                            "operation scope or connection revision changed after the proposal was created",
                        )
                    }
                },
                DecisionReply::Safety(Ok(settings)) => {
                    &&& all[1] matches DecisionReply::Pinned(Ok(pin))
                    &&& turn matches Turn::Ask {
                        request: DecisionRequest::HashPolicy { policy },
                        ..
                    }
                    &&& policy == policy_of(pin, Some(settings))
                },
                DecisionReply::Hashed(Ok(revision)) => {
                    &&& all[1] matches DecisionReply::Pinned(Ok(pin))
                    &&& turn matches Turn::Ask {
                        request: DecisionRequest::Record { verdict: said, exact },
                        ..
                    }
                    &&& said == verdict
                    &&& exact.operation_id == request.operation_id
                    &&& exact.expected_payload_hash == request.expected_payload_hash
                    &&& exact.approver == approver_of(pin)
                    &&& exact.current_policy_revision == revision
                    &&& exact.reason == request.reason
                },
                DecisionReply::Decided(Ok(record)) => {
                    &&& turn matches Turn::Done(Ok(receipt))
                    &&& receipt.operation_id == record.id
                    &&& receipt.payload_hash == record.payload_hash
                    &&& receipt.state == record.state
                },
                DecisionReply::Loaded(Err(error)) => turn matches Turn::Done(Err(told)) && told
                    == error,
                DecisionReply::Pinned(Err(error)) => turn matches Turn::Done(Err(told)) && told
                    == error,
                DecisionReply::Safety(Err(error)) => turn matches Turn::Done(Err(told)) && told
                    == error,
                DecisionReply::Hashed(Err(error)) => turn matches Turn::Done(Err(told)) && told
                    == error,
                DecisionReply::Decided(Err(error)) => turn matches Turn::Done(Err(told)) && told
                    == error,
            }
        }),
{
    every_state_is_explained(request, verdict, replies);
    let all = replies.push(last);
    assert(forall|k: int| 0 <= k < replies.len() ==> all[k] == replies[k]);
    assert(all.last() == last);
}

/// A Terminal is shown its own operations and no others. While one of them has not come to
/// rest it goes on waiting until the deadline, at most a twentieth of a second at a time.
pub proof fn terminals_wait_for_their_own(
    record: OperationRecord,
    scope: TerminalAuthority,
    now: i128,
    deadline: i128,
)
    requires
        -1_000_000_000_000_000_000_000 <= now <= 1_000_000_000_000_000_000_000,
        -1_000_000_000_000_000_000_000 <= deadline <= 1_000_000_000_000_000_000_000,
    ensures
        ({
            let over = record.state == OperationState::Rejected || record.state
                == OperationState::Expired || record.state == OperationState::Cancelled
                || record.state == OperationState::Succeeded || record.state
                == OperationState::Failed || record.state == OperationState::OutcomeUnknown;
            let step = wait_turn(Ok(record), scope, now, deadline);
            &&& shown(record, scope) is Ok <==> in_terminal_scope(record, scope)
            &&& shown(record, scope) matches Ok(summary) ==> summary == summary_of(record)
            &&& shown(record, scope) matches Err(error) ==> error == (AppError::Blocked {
                reason: Text::Plain("operation belongs to a different Terminal or connection scope"),
            })
            &&& in_terminal_scope(record, scope) ==> if over {
                step == WaitStep::Done(Ok(summary_of(record)))
            } else if now >= deadline {
                step == WaitStep::Done(
                    Err(AppError::Safety(Text::Plain("operation wait timed out"))),
                )
            } else {
                step matches WaitStep::Sleep(pause) && pause == if deadline - now < 50_000_000 {
                    deadline - now
                } else {
                    50_000_000
                }
            }
        }),
{
}

/// A cancellation loads the operation that was named. Of the Terminal's own operations one
/// that is over is told as it is; one that runs is told to stop, and nothing else; one that
/// waits is cancelled in the name of this session, and told as it then is.
pub proof fn cancellations_are_of_the_named_operation(
    scope: TerminalAuthority,
    operation_id: u128,
    begun: TerminalCancelStep,
    record: OperationRecord,
    cancelled: OperationRecord,
    error: AppError,
)
    requires
        call_ensures(TerminalCancel::start, (scope, operation_id), begun),
    ensures
        ({
            let loaded = begun.turn->state.after(TerminalCancelReply::Loaded(Ok(record)));
            let over = record.state == OperationState::Rejected || record.state
                == OperationState::Expired || record.state == OperationState::Cancelled
                || record.state == OperationState::Succeeded || record.state
                == OperationState::Failed || record.state == OperationState::OutcomeUnknown;
            &&& begun.effects@.len() == 0
            &&& begun.turn matches Turn::Ask {
                request: TerminalCancelRequest::LoadOperation { operation_id: id },
                ..
            } && id == operation_id
            &&& begun.turn->state.after(TerminalCancelReply::Loaded(Err(error))).1 matches Turn::Done(
                Err(told),
            ) && told == error
            &&& if !in_terminal_scope(record, scope) {
                &&& loaded.0.len() == 0
                &&& loaded.1 matches Turn::Done(Err(AppError::Blocked { reason }))
                &&& reason == Text::Plain(
                    "operation belongs to a different Terminal or connection scope",
                )
            } else if over {
                &&& loaded.0.len() == 0
                &&& loaded.1 matches Turn::Done(Ok(told)) && told == summary_of(record)
            } else if record.state == OperationState::Executing {
                &&& loaded.0.len() == 1
                &&& loaded.0[0] matches Effect::CancelExecution { operation_id: id } && id
                    == operation_id
                &&& loaded.1 matches Turn::Done(Ok(told)) && told == summary_of(record)
            } else {
                &&& loaded.0.len() == 0
                &&& loaded.1 matches Turn::Ask {
                    request: TerminalCancelRequest::CancelBeforeExecution {
                        operation_id: id,
                        terminal_session_id,
                    },
                    ..
                } && id == operation_id && terminal_session_id == scope.terminal_session_id
                &&& loaded.1->state.after(
                    TerminalCancelReply::Cancelled(Ok(cancelled)),
                ).1 matches Turn::Done(Ok(told)) && told == summary_of(cancelled)
                &&& loaded.1->state.after(
                    TerminalCancelReply::Cancelled(Err(error)),
                ).1 matches Turn::Done(Err(told)) && told == error
            }
        }),
{
}

} // verus!
