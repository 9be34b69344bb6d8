//! What asking for, proposing and changing the monitoring role ask for and leave behind, in
//! every run.
use vstd::prelude::*;

use crate::error::AppError;
use crate::model::{
    ConnectionAccess, Engine, QueryKind, SafetySettings, WorkspaceConnectionAccess,
};
use crate::operations::{
    is_time, OperationKind, OperationPlanDisposition, OperationRecord, OperationRiskLevel,
    PinnedConnection,
};
use crate::services::effects::{Effect, Note, Settlement, Turn};
use crate::services::monitoring::propose::{
    MonitoringProposalRequest, MonitoringPropose, MonitoringProposeReply,
    MonitoringProposeRequest, MonitoringProposeStep,
};
use crate::services::monitoring::run::{
    every_state_is_explained, state_after, the_action_follows_the_payload, MonitoringRunReply,
    MonitoringRunRequest,
};
use crate::services::monitoring::shared::{
    HeldAuthority, MonitoringServiceError, MonitoringStatus,
};
use crate::services::monitoring::status::{
    MonitoringStatusRun, MonitoringStatusRunReply, MonitoringStatusRunRequest,
    MonitoringStatusRunStep,
};
use crate::services::operation_service::{
    confirmation_for, in_operation_scope, person_of, policy_of,
};
use crate::text::Text;

verus! {

/// What a change of the role does after each answer, told by the operation's id and the
/// answers alone. The statement is one of the two fixed ones; the connection is the
/// operation's, unchanged since it was proposed, on PostgreSQL, and open to writing; and
/// what is set and reported as set is what the payload says.
#[verifier::spinoff_prover]
#[verifier::rlimit(60)]
pub proof fn changes_do_what_was_proposed(
    operation_id: u128,
    replies: Seq<MonitoringRunReply>,
    last: MonitoringRunReply,
)
    requires
        state_after(operation_id, replies) matches Some(state) && state.awaits(last),
    ensures
        ({
            let all = replies.push(last);
            let turn = state_after(operation_id, replies)->0.after(last).1;
            match last {
                MonitoringRunReply::Operation(Ok(planned)) => if planned.payload_schema_version == 1
                    && planned.kind == OperationKind::Privilege {
                    turn matches Turn::Ask { request: MonitoringRunRequest::DecodePayload, .. }
                } else {
                    turn matches Turn::Done(
                        Err(MonitoringServiceError::Application(AppError::Blocked { reason })),
                    ) && reason == Text::Plain(
                        "operation is not a PostgreSQL monitoring-role proposal",
                    )
                },
                MonitoringRunReply::Payload(Ok(payload)) => {
                    &&& all[0] matches MonitoringRunReply::Operation(Ok(planned))
                    &&& if payload.sql@ == (if payload.enabled {
                        "GRANT pg_monitor TO CURRENT_USER"@
                    } else {
                        "REVOKE pg_monitor FROM CURRENT_USER"@
                    }) {
                        turn matches Turn::Ask {
                            request: MonitoringRunRequest::PinConnection { connection_id },
                            ..
                        } && connection_id == planned.connection_id
                    } else {
                        turn matches Turn::Done(
                            Err(MonitoringServiceError::Application(AppError::Blocked { reason })),
                        ) && reason == Text::Plain(
                            "stored monitoring operation does not match the fixed role action",
                        )
                    }
                },
                MonitoringRunReply::Pin(Ok(pin)) => {
                    &&& all[0] matches MonitoringRunReply::Operation(Ok(planned))
                    &&& if !in_operation_scope(planned, pin) {
                        turn matches Turn::Done(
                            Err(MonitoringServiceError::Application(AppError::Blocked { reason })),
                        ) && reason == Text::Plain(
                            "operation scope or connection revision changed after the proposal was created",
                        )
                    } else if pin.profile.workspace_access == WorkspaceConnectionAccess::View
                        || pin.profile.workspace_access == WorkspaceConnectionAccess::Read {
                        turn matches Turn::Done(Err(MonitoringServiceError::Scoped(failure)))
                            && failure.error == (AppError::Blocked {
                            reason: Text::Plain(
                                "your workspace role no longer grants monitoring changes",
                            ),
                        })
                    } else if pin.profile.engine != Engine::Postgres {
                        turn matches Turn::Done(Err(MonitoringServiceError::Scoped(failure)))
                            && failure.error == AppError::Config(
                            Text::Plain("pg_monitor is only available for PostgreSQL connections"),
                        )
                    } else {
                        turn matches Turn::Ask {
                            request: MonitoringRunRequest::LoadSafety { connection_id },
                            ..
                        } && connection_id == pin.connection_id
                    }
                },
                MonitoringRunReply::Safety(Ok(settings)) => {
                    &&& all[2] matches MonitoringRunReply::Pin(Ok(pin))
                    &&& if settings.allow_writes {
                        turn matches Turn::Ask {
                            request: MonitoringRunRequest::HashPolicy { snapshot },
                            ..
                        } && snapshot == policy_of(pin, Some(settings))
                    } else {
                        turn matches Turn::Done(Err(MonitoringServiceError::Scoped(failure)))
                            && failure.error == (AppError::Blocked {
                            reason: Text::Plain("writes are disabled for this connection"),
                        })
                    }
                },
                MonitoringRunReply::Policy(Ok(revision)) => {
                    &&& all[0] matches MonitoringRunReply::Operation(Ok(planned))
                    &&& if revision@ == planned.policy_revision@ {
                        turn matches Turn::Ask {
                            request: MonitoringRunRequest::Claim { operation_id: id },
                            ..
                        } && id == operation_id
                    } else {
                        turn matches Turn::Done(Err(MonitoringServiceError::Scoped(failure)))
                            && failure.error == (AppError::Blocked {
                            reason: Text::Plain(
                                "the connection or safety policy changed; create a new proposal",
                            ),
                        })
                    }
                },
                MonitoringRunReply::Claim(Ok(actor)) => {
                    &&& all[1] matches MonitoringRunReply::Payload(Ok(payload))
                    &&& all[2] matches MonitoringRunReply::Pin(Ok(pin))
                    &&& turn matches Turn::Ask {
                        request: MonitoringRunRequest::RecordAttempt { record },
                        ..
                    }
                    &&& record.connection_id == pin.connection_id
                    &&& record.engine == pin.profile.engine
                    &&& record.sql == payload.sql
                    &&& record.kind == QueryKind::Privilege
                    &&& record.action == Text::Plain(
                        if payload.enabled {
                            "monitoring:grant:attempt"
                        } else {
                            "monitoring:revoke:attempt"
                        },
                    )
                    &&& record.approved_by == Some(actor)
                    &&& record.affected_estimate is None && record.error is None
                },
                MonitoringRunReply::Attempt(Ok(_)) => turn matches Turn::Ask {
                    request: MonitoringRunRequest::Connect { access },
                    ..
                } && access == ConnectionAccess::Write,
                MonitoringRunReply::Connection(Ok(_)) => turn matches Turn::Ask {
                    request: MonitoringRunRequest::OpenBackend,
                    ..
                },
                MonitoringRunReply::Backend(Ok(_)) => {
                    &&& all[1] matches MonitoringRunReply::Payload(Ok(payload))
                    &&& all[2] matches MonitoringRunReply::Pin(Ok(pin))
                    &&& turn matches Turn::Ask {
                        request: MonitoringRunRequest::SetRole {
                            enabled,
                            operation_id: id,
                            connection_id,
                        },
                        ..
                    }
                    &&& enabled == payload.enabled
                    &&& id == operation_id
                    &&& connection_id == pin.connection_id
                },
                MonitoringRunReply::Execution(Ok(_)) => {
                    &&& all[1] matches MonitoringRunReply::Payload(Ok(payload))
                    &&& turn matches Turn::Ask {
                        request: MonitoringRunRequest::Succeed { operation_id: id, enabled },
                        ..
                    }
                    &&& id == operation_id
                    &&& enabled == payload.enabled
                },
                MonitoringRunReply::Receipt(Ok(_)) => turn matches Turn::Ask {
                    request: MonitoringRunRequest::Collect { engine },
                    ..
                } && engine == Engine::Postgres,
                MonitoringRunReply::Status(Ok(status)) => turn matches Turn::Done(Ok(receipt))
                    && receipt.status == status && receipt.held == HeldAuthority::Lease,
                MonitoringRunReply::Attempt(Err((_, printed))) => turn matches Turn::Done(
                    Err(MonitoringServiceError::Scoped(failure)),
                ) && (failure.error matches AppError::Config(text) && text@
                    == "audit pre-record failed — refusing to change pg_monitor: "@ + printed@),
                MonitoringRunReply::Operation(Err(error)) => turn matches Turn::Done(
                    Err(MonitoringServiceError::Application(told)),
                ) && told == error,
                MonitoringRunReply::Payload(Err(error)) => turn matches Turn::Done(
                    Err(MonitoringServiceError::Application(told)),
                ) && told == error,
                MonitoringRunReply::Safety(Err(error)) => turn matches Turn::Done(
                    Err(MonitoringServiceError::Application(told)),
                ) && told == error,
                MonitoringRunReply::Policy(Err(error)) => turn matches Turn::Done(
                    Err(MonitoringServiceError::Application(told)),
                ) && told == error,
                MonitoringRunReply::Connection(Err(error)) => turn matches Turn::Done(
                    Err(MonitoringServiceError::Application(told)),
                ) && told == error,
                MonitoringRunReply::Pin(Err(error)) => turn matches Turn::Done(
                    Err(MonitoringServiceError::Scoped(failure)),
                ) && failure.error == error,
                MonitoringRunReply::Claim(Err(error)) => turn matches Turn::Done(
                    Err(MonitoringServiceError::Scoped(failure)),
                ) && failure.error == error,
                MonitoringRunReply::Backend(Err(error)) => turn matches Turn::Done(
                    Err(MonitoringServiceError::Execution(failure)),
                ) && failure.error == error,
                MonitoringRunReply::Execution(Err(error)) => turn matches Turn::Done(
                    Err(MonitoringServiceError::Execution(failure)),
                ) && failure.error == error,
                MonitoringRunReply::Receipt(Err(error)) => turn matches Turn::Done(
                    Err(MonitoringServiceError::Execution(failure)),
                ) && failure.error == error,
                MonitoringRunReply::Status(Err(error)) => turn matches Turn::Done(
                    Err(MonitoringServiceError::Execution(failure)),
                ) && failure.error == error,
            }
        }),
{
    every_state_is_explained(operation_id, replies);
    let all = replies.push(last);
    assert(forall|k: int| 0 <= k < replies.len() ==> all[k] == replies[k]);
    assert(all.last() == last);
    reveal_strlit("");
}

/// What a change leaves behind: rows that tell of the statement that was tried on the
/// pinned connection, by whom, and with what error if any; and a settlement of this
/// operation wherever its claim leads to nothing. A failure while the role was set leaves
/// open whether it was.
#[verifier::spinoff_prover]
#[verifier::rlimit(60)]
pub proof fn changes_leave_true_rows(
    operation_id: u128,
    replies: Seq<MonitoringRunReply>,
    last: MonitoringRunReply,
)
    requires
        state_after(operation_id, replies) matches Some(state) && state.awaits(last),
    ensures
        ({
            let all = replies.push(last);
            let effects = state_after(operation_id, replies)->0.after(last).0;
            &&& forall|i: int|
                0 <= i < effects.len() ==> match #[trigger] effects[i] {
                    Effect::Audit(row) => {
                        &&& all[1] matches MonitoringRunReply::Payload(Ok(payload))
                        &&& all[2] matches MonitoringRunReply::Pin(Ok(pin))
                        &&& all[5] matches MonitoringRunReply::Claim(Ok(actor))
                        &&& row.connection_id == pin.connection_id
                        &&& row.engine == pin.profile.engine
                        &&& row.sql == payload.sql
                        &&& row.kind == QueryKind::Privilege
                        &&& row.action == Text::Plain(
                            if payload.enabled {
                                "monitoring:grant"
                            } else {
                                "monitoring:revoke"
                            },
                        )
                        &&& row.approved_by == Some(actor)
                        &&& row.affected_estimate is None
                        &&& row.error == match last {
                            MonitoringRunReply::Connection(Err(error)) => Some(Note::Error(error)),
                            MonitoringRunReply::Execution(Err(error)) => Some(Note::Error(error)),
                            _ => None,
                        }
                    },
                    Effect::History(row) => {
                        &&& effects[0] matches Effect::Audit(audit)
                        &&& row.connection_id == audit.connection_id
                        &&& row.sql == audit.sql
                        &&& row.kind == QueryKind::Privilege
                        &&& row.status == if audit.error is Some {
                            "error"
                        } else {
                            "ok"
                        }
                        &&& row.row_count is None && row.duration_ms is None
                        &&& row.error == audit.error
                        &&& row.origin == Text::Plain("manual")
                    },
                    Effect::Settle { operation_id: id, settlement } => {
                        &&& id == operation_id
                        &&& match last {
                            MonitoringRunReply::Attempt(Err((error, _))) => settlement == (
                            Settlement::Failed {
                                reason: "audit_pre_record_failed",
                                error: Some(error),
                            }),
                            MonitoringRunReply::Connection(Err(error)) => settlement == (
                            Settlement::Failed {
                                reason: "target_connection_failed",
                                error: Some(error),
                            }),
                            MonitoringRunReply::Backend(Err(error)) => settlement == (
                            Settlement::Failed {
                                reason: "target_pool_unavailable",
                                error: Some(error),
                            }),
                            MonitoringRunReply::Execution(Err(error)) => settlement == (
                            Settlement::OutcomeUnknown {
                                reason: "monitoring_role_execution_failed",
                                error: Some(error),
                            }),
                            MonitoringRunReply::Receipt(Err(_)) => settlement == (
                            Settlement::OutcomeUnknown {
                                reason: "local_receipt_failed",
                                error: None,
                            }),
                            _ => false,
                        }
                    },
                    _ => false,
                }
            &&& match last {
                MonitoringRunReply::Attempt(Err(_)) => effects.len() == 1,
                MonitoringRunReply::Connection(Err(_)) => effects.len() == 3 && effects[0] is Audit
                    && effects[1] is History && effects[2] is Settle,
                MonitoringRunReply::Backend(Err(_)) => effects.len() == 1,
                MonitoringRunReply::Execution(Err(_)) => effects.len() == 3 && effects[0] is Audit
                    && effects[1] is History && effects[2] is Settle,
                MonitoringRunReply::Execution(Ok(_)) => effects.len() == 2 && effects[0] is Audit
                    && effects[1] is History,
                MonitoringRunReply::Receipt(Err(_)) => effects.len() == 1,
                _ => effects.len() == 0,
            }
        }),
{
    every_state_is_explained(operation_id, replies);
    let all = replies.push(last);
    assert(forall|k: int| 0 <= k < replies.len() ==> all[k] == replies[k]);
    assert(all.last() == last);
    if replies.len() >= 2 && (replies[1] matches MonitoringRunReply::Payload(Ok(_))) {
        let payload = replies[1]->Payload_0->Ok_0;
        if payload.sql@ == (if payload.enabled {
            "GRANT pg_monitor TO CURRENT_USER"@
        } else {
            "REVOKE pg_monitor FROM CURRENT_USER"@
        }) {
            the_action_follows_the_payload(payload);
        }
    }
}

/// A proposal from its beginning, told by what was requested and answered: it is for the
/// connection that was named, which must be on PostgreSQL and open to writing, and for the
/// one of the two fixed statements that was asked for. It always waits for a person, for
/// five minutes, as an operation of high risk.
#[verifier::spinoff_prover]
#[verifier::rlimit(40)]
pub proof fn proposals_are_for_the_role_that_was_asked(
    request: MonitoringProposalRequest,
    begun: MonitoringProposeStep,
    pin: PinnedConnection,
    settings: SafetySettings,
    revision: String,
    fresh_id: u128,
    now: i128,
    stored: OperationRecord,
    error: AppError,
)
    requires
        call_ensures(MonitoringPropose::start, (request,), begun),
        is_time(now),
    ensures
        ({
            let statement = if request.enabled {
                "GRANT pg_monitor TO CURRENT_USER"
            } else {
                "REVOKE pg_monitor FROM CURRENT_USER"
            };
            let access = pin.profile.workspace_access;
            let pinned = begun.turn->state.after(MonitoringProposeReply::Pin(Ok(pin)));
            let loaded = pinned.1->state.after(MonitoringProposeReply::Safety(Ok(settings)));
            let hashed = loaded.1->state.after(
                MonitoringProposeReply::Policy { revision: Ok(revision), fresh_id, now },
            );
            let ended = hashed.1->state.after(MonitoringProposeReply::Plan(Ok(stored)));
            &&& begun.effects@.len() == 0 && pinned.0.len() == 0
            &&& begun.turn matches Turn::Ask {
                request: MonitoringProposeRequest::PinForView { connection_id },
                ..
            } && connection_id == request.connection_id
            &&& begun.turn->state.after(MonitoringProposeReply::Pin(Err(error))).1 matches Turn::Done(
                Err(MonitoringServiceError::Scoped(failure)),
            ) && failure.error == error
            &&& if access == WorkspaceConnectionAccess::View || access
                == WorkspaceConnectionAccess::Read {
                pinned.1 matches Turn::Done(Err(MonitoringServiceError::Scoped(failure)))
                    && failure.error == (AppError::Blocked {
                    reason: Text::Plain(
                        "your workspace role cannot change database monitoring grants",
                    ),
                })
            } else if pin.profile.engine != Engine::Postgres {
                pinned.1 matches Turn::Done(Err(MonitoringServiceError::Scoped(failure)))
                    && failure.error == AppError::Config(
                    Text::Plain("pg_monitor is only available for PostgreSQL connections"),
                )
            } else {
                &&& loaded.0.len() == 0
                &&& pinned.1 matches Turn::Ask {
                    request: MonitoringProposeRequest::LoadSafety { connection_id },
                    ..
                } && connection_id == pin.connection_id
                &&& pinned.1->state.after(
                    MonitoringProposeReply::Safety(Err(error)),
                ).1 matches Turn::Done(Err(MonitoringServiceError::Application(told))) && told
                    == error
                &&& if !settings.allow_writes {
                    loaded.1 matches Turn::Done(Err(MonitoringServiceError::Scoped(failure)))
                        && failure.error == (AppError::Blocked {
                        reason: Text::Plain("writes are disabled for this connection"),
                    })
                } else {
                    &&& hashed.0.len() == 0 && ended.0.len() == 0
                    &&& loaded.1 matches Turn::Ask {
                        request: MonitoringProposeRequest::HashPolicy { snapshot },
                        ..
                    } && snapshot == policy_of(pin, Some(settings))
                    &&& loaded.1->state.after(
                        MonitoringProposeReply::Policy { revision: Err(error), fresh_id, now },
                    ).1 matches Turn::Done(Err(MonitoringServiceError::Application(told))) && told
                        == error
                    &&& hashed.1 matches Turn::Ask {
                        request: MonitoringProposeRequest::Plan { operation, enabled, sql, preview },
                        ..
                    }
                    &&& enabled == request.enabled
                    &&& sql == statement
                    &&& preview.sql == statement
                    &&& preview.role == "pg_monitor"
                    &&& preview.action == if request.enabled {
                        "grant"
                    } else {
                        "revoke"
                    }
                    &&& operation.id == fresh_id && operation.idempotency_key == fresh_id
                    &&& operation.workspace_id == pin.scope.workspace_id
                    &&& operation.account_scope == pin.scope.account_scope.key()
                    &&& operation.connection_id == pin.connection_id
                    &&& operation.connection_revision == pin.connection_revision
                    &&& operation.terminal_session_id is None
                    &&& operation.actor == person_of(pin, Text::Plain("settings-safety-monitoring"))
                    &&& operation.kind == OperationKind::Privilege
                    &&& operation.payload_schema_version == 1
                    &&& operation.risk_level == OperationRiskLevel::High
                    &&& operation.policy_snapshot == policy_of(pin, Some(settings))
                    &&& operation.policy_revision == revision
                    &&& operation.single_use
                    &&& operation.expires_at == now + 300_000_000_000
                    &&& operation.disposition == OperationPlanDisposition::ApprovalRequired
                    &&& hashed.1->state.after(
                        MonitoringProposeReply::Plan(Err(error)),
                    ).1 matches Turn::Done(Err(MonitoringServiceError::Application(told))) && told
                        == error
                    &&& ended.1 matches Turn::Done(Ok(receipt))
                    &&& receipt.operation_id == stored.id
                    &&& receipt.payload_hash == stored.payload_hash
                    &&& receipt.state == stored.state
                    &&& receipt.enabled == request.enabled
                    &&& receipt.sql == statement
                    &&& receipt.confirmation_phrase == confirmation_for(stored)
                    &&& receipt.expires_at == operation.expires_at
                }
            }
        }),
{
}

/// A status is of the connection that was named. One to a document database is told
/// without connecting: basic, and without a role. Any other is connected to read, and its
/// status is told as it was collected for its engine.
pub proof fn a_status_is_of_the_named_connection(
    connection_id: u128,
    begun: MonitoringStatusRunStep,
    pin: PinnedConnection,
    status: MonitoringStatus,
    error: AppError,
)
    requires
        call_ensures(MonitoringStatusRun::start, (connection_id,), begun),
    ensures
        ({
            let pinned = begun.turn->state.after(MonitoringStatusRunReply::Pin(Ok(pin)));
            let connected = pinned.1->state.after(MonitoringStatusRunReply::Connection(Ok(())));
            let opened = connected.1->state.after(MonitoringStatusRunReply::Backend(Ok(())));
            let ended = opened.1->state.after(MonitoringStatusRunReply::Status(Ok(status)));
            &&& begun.effects@.len() == 0 && pinned.0.len() == 0
            &&& begun.turn matches Turn::Ask {
                request: MonitoringStatusRunRequest::PinForView { connection_id: id },
                ..
            } && id == connection_id
            &&& begun.turn->state.after(
                MonitoringStatusRunReply::Pin(Err(error)),
            ).1 matches Turn::Done(Err(MonitoringServiceError::Scoped(failure))) && failure.error
                == error
            &&& if pin.profile.engine == Engine::Mongodb {
                &&& pinned.1 matches Turn::Done(Ok(receipt))
                &&& receipt.held == HeldAuthority::Scope
                &&& receipt.status.engine == Engine::Mongodb
                &&& receipt.status.coverage == Text::Plain("basic")
                &&& !receipt.status.role_available && !receipt.status.role_granted
                &&& receipt.status.current_user is None && !receipt.status.can_manage
                &&& receipt.status.note == Text::Plain(
                    "MongoDB connections use the basic, role-free collector.",
                )
            } else {
                &&& connected.0.len() == 0 && opened.0.len() == 0 && ended.0.len() == 0
                &&& pinned.1 matches Turn::Ask {
                    request: MonitoringStatusRunRequest::Connect { access },
                    ..
                } && access == ConnectionAccess::Read
                &&& pinned.1->state.after(
                    MonitoringStatusRunReply::Connection(Err(error)),
                ).1 matches Turn::Done(Err(MonitoringServiceError::Application(told))) && told
                    == error
                &&& connected.1 matches Turn::Ask {
                    request: MonitoringStatusRunRequest::OpenBackend,
                    ..
                }
                &&& connected.1->state.after(
                    MonitoringStatusRunReply::Backend(Err(error)),
                ).1 matches Turn::Done(Err(MonitoringServiceError::Execution(failure)))
                    && failure.error == error
                &&& opened.1 matches Turn::Ask {
                    request: MonitoringStatusRunRequest::Collect { engine },
                    ..
                } && engine == pin.profile.engine
                &&& opened.1->state.after(
                    MonitoringStatusRunReply::Status(Err(error)),
                ).1 matches Turn::Done(Err(MonitoringServiceError::Execution(failure)))
                    && failure.error == error
                &&& ended.1 matches Turn::Done(Ok(receipt)) && receipt.status == status
                    && receipt.held == HeldAuthority::Lease
            }
        }),
{
}

} // verus!
