//! What holds of every run of a desktop SQL operation, whatever the outside world
//! answers.
use vstd::prelude::*;

use crate::error::AppError;
use crate::model::{ConnectionAccess, QueryKind, WorkspaceConnectionAccess};
use crate::operations::OperationKind;
use crate::services::effects::{Effect, Note, Settlement, Turn};
use crate::services::operation_service::in_operation_scope;
use crate::services::query::desktop_run::{
    after_execution, after_receipt, is_desktop_sql, timed_out, was_cancelled, CheckedRun,
    DesktopSqlRun, DesktopSqlRunError, DesktopSqlRunReply, DesktopSqlRunRequest, ExecSummary,
};
use crate::services::query::shared::{kind_of, GateDecision};
use crate::text::Text;

verus! {

/// Where the run of an operation stands after these answers, if it is still going on
/// and every one of them answered what was asked.
pub open spec fn state_after(operation_id: u128, replies: Seq<DesktopSqlRunReply>) -> Option<
    DesktopSqlRun,
>
    decreases replies.len(),
{
    if replies.len() == 0 {
        Some(DesktopSqlRun::Operation { operation_id })
    } else {
        match state_after(operation_id, replies.drop_last()) {
            None => None,
            Some(state) => if state.awaits(replies.last()) {
                match state.after(replies.last()).1 {
                    Turn::Ask { state, .. } => Some(state),
                    Turn::Done(_) => None,
                }
            } else {
                None
            },
        }
    }
}

/// Whether the answers so far are those that led to `run`: the operation, its payload,
/// the connection in the very scope and revision of the proposal, the settings, a policy
/// whose revision is the proposal's, and a classification of the proposal's kind that the
/// workspace role allows.
pub open spec fn checked(
    operation_id: u128,
    replies: Seq<DesktopSqlRunReply>,
    run: CheckedRun,
) -> bool {
    &&& replies.len() >= 6
    &&& run.operation_id == operation_id
    &&& replies[0] matches DesktopSqlRunReply::Operation(Ok(planned))
    &&& is_desktop_sql(planned)
    &&& run.actor_id == planned.actor_id
    &&& replies[1] == DesktopSqlRunReply::Payload(Ok(run.payload))
    &&& replies[2] == DesktopSqlRunReply::Pin(Ok(run.pin))
    &&& in_operation_scope(planned, run.pin)
    &&& replies[3] == DesktopSqlRunReply::Safety(Ok(run.settings))
    &&& replies[4] matches DesktopSqlRunReply::Policy(Ok(revision))
    &&& revision@ == planned.policy_revision@
    &&& replies[5] == DesktopSqlRunReply::Classification(Ok(run.classification))
    &&& kind_of(run.classification.kind) == planned.kind
    &&& if run.writes() {
        run.pin.profile.workspace_access.spec_can_write()
    } else {
        run.pin.profile.workspace_access.spec_can_read()
    }
}

/// Whether, besides, the safety check let the statement through and the operation was claimed.
pub open spec fn claimed(
    operation_id: u128,
    replies: Seq<DesktopSqlRunReply>,
    run: CheckedRun,
) -> bool {
    &&& checked(operation_id, replies, run)
    &&& replies.len() >= 8
    &&& replies[6] matches DesktopSqlRunReply::Gate(decision)
    &&& !(decision is Block)
    &&& replies[7] matches DesktopSqlRunReply::Claim(Ok(_))
}

/// Whether, besides, the attempt of a write stands in the audit chain.
pub open spec fn announced(
    operation_id: u128,
    replies: Seq<DesktopSqlRunReply>,
    run: CheckedRun,
) -> bool {
    &&& claimed(operation_id, replies, run)
    &&& run.writes() ==> replies.len() >= 9 && (replies[8] matches DesktopSqlRunReply::Attempt(Ok(_)))
}

/// What the answers must have been for a run to stand where it stands.
pub open spec fn explained(
    operation_id: u128,
    replies: Seq<DesktopSqlRunReply>,
    state: DesktopSqlRun,
) -> bool {
    match state {
        DesktopSqlRun::Operation { operation_id: id } => id == operation_id && replies.len() == 0,
        DesktopSqlRun::Payload { operation_id: id, planned } => {
            &&& id == operation_id && replies.len() == 1
            &&& replies[0] == DesktopSqlRunReply::Operation(Ok(planned)) && is_desktop_sql(planned)
        },
        DesktopSqlRun::Pin { operation_id: id, planned, payload } => {
            &&& id == operation_id && replies.len() == 2
            &&& replies[0] == DesktopSqlRunReply::Operation(Ok(planned)) && is_desktop_sql(planned)
            &&& replies[1] == DesktopSqlRunReply::Payload(Ok(payload))
        },
        DesktopSqlRun::Safety { operation_id: id, planned, payload, pin } => {
            &&& id == operation_id && replies.len() == 3
            &&& replies[0] == DesktopSqlRunReply::Operation(Ok(planned)) && is_desktop_sql(planned)
            &&& replies[1] == DesktopSqlRunReply::Payload(Ok(payload))
            &&& replies[2] == DesktopSqlRunReply::Pin(Ok(pin)) && in_operation_scope(planned, pin)
        },
        DesktopSqlRun::Policy { operation_id: id, planned, payload, pin, settings } => {
            &&& id == operation_id && replies.len() == 4
            &&& replies[0] == DesktopSqlRunReply::Operation(Ok(planned)) && is_desktop_sql(planned)
            &&& replies[1] == DesktopSqlRunReply::Payload(Ok(payload))
            &&& replies[2] == DesktopSqlRunReply::Pin(Ok(pin)) && in_operation_scope(planned, pin)
            &&& replies[3] == DesktopSqlRunReply::Safety(Ok(settings))
        },
        DesktopSqlRun::Classification { operation_id: id, planned, payload, pin, settings } => {
            &&& id == operation_id && replies.len() == 5
            &&& replies[0] == DesktopSqlRunReply::Operation(Ok(planned)) && is_desktop_sql(planned)
            &&& replies[1] == DesktopSqlRunReply::Payload(Ok(payload))
            &&& replies[2] == DesktopSqlRunReply::Pin(Ok(pin)) && in_operation_scope(planned, pin)
            &&& replies[3] == DesktopSqlRunReply::Safety(Ok(settings))
            &&& replies[4] matches DesktopSqlRunReply::Policy(Ok(revision))
            &&& revision@ == planned.policy_revision@
        },
        DesktopSqlRun::Gate { run } => replies.len() == 6 && checked(operation_id, replies, run),
        DesktopSqlRun::Claim { run } => {
            &&& replies.len() == 7 && checked(operation_id, replies, run)
            &&& replies[6] matches DesktopSqlRunReply::Gate(decision)
            &&& !(decision is Block)
        },
        DesktopSqlRun::Attempt { run } => replies.len() == 8 && run.writes() && claimed(
            operation_id,
            replies,
            run,
        ),
        DesktopSqlRun::Connection { run } => announced(operation_id, replies, run),
        DesktopSqlRun::Backend { run } => announced(operation_id, replies, run),
        DesktopSqlRun::Execution { run } => announced(operation_id, replies, run),
        DesktopSqlRun::Receipt { run, .. } => announced(operation_id, replies, run),
    }
}

/// A run stands nowhere that its answers do not explain. In particular the target is
/// connected, and a statement executed, only in a run whose proposal was found
/// unchanged in scope, revision, policy and kind, whose role and gate allow it, and
/// whose operation was claimed by this run; and a write, besides, only once the attempt
/// stands in the audit chain.
pub proof fn every_state_is_explained(operation_id: u128, replies: Seq<DesktopSqlRunReply>)
    ensures
        state_after(operation_id, replies) matches Some(state) ==> explained(
            operation_id,
            replies,
            state,
        ),
    decreases replies.len(),
{
    if replies.len() > 0 {
        let earlier = replies.drop_last();
        every_state_is_explained(operation_id, earlier);
        assert(forall|k: int| 0 <= k < earlier.len() ==> earlier[k] == replies[k]);
        match state_after(operation_id, earlier) {
            None => {},
            Some(before) => {
                assert(explained(operation_id, earlier, before));
            },
        }
    }
}

/// Whether an effect ends the claim of this operation.
pub open spec fn settles(effect: Effect, operation_id: u128) -> bool {
    effect matches Effect::Settle { operation_id: id, .. } && id == operation_id
}

/// Once its operation is claimed, a run ends either in success, with the success
/// recorded, or with the claim settled some other way: no claim is left open.
pub proof fn a_claimed_run_ends_settled(
    operation_id: u128,
    replies: Seq<DesktopSqlRunReply>,
    last: DesktopSqlRunReply,
)
    requires
        replies.len() >= 8,
        state_after(operation_id, replies) matches Some(state) && state.awaits(last) && state.after(
            last,
        ).1 is Done,
    ensures
        ({
            let (effects, turn) = state_after(operation_id, replies)->0.after(last);
            ||| (last matches DesktopSqlRunReply::Receipt(Ok(_))) && turn->Done_0 is Ok
            ||| exists|i: int|
                0 <= i < effects.len() && settles(#[trigger] effects[i], operation_id)
        }),
{
    every_state_is_explained(operation_id, replies);
    let state = state_after(operation_id, replies)->0;
    let (effects, turn) = state.after(last);
    match state {
        DesktopSqlRun::Attempt { run } => {
            assert(settles(effects[0], operation_id));
        },
        DesktopSqlRun::Connection { run } => {
            assert(settles(effects[2], operation_id));
        },
        DesktopSqlRun::Backend { run } => {
            assert(settles(effects[2], operation_id));
        },
        DesktopSqlRun::Execution { run } => {
            assert(settles(effects[0], operation_id));
        },
        DesktopSqlRun::Receipt { run, summary } => {
            if last->Receipt_0 is Err {
                assert(settles(effects[0], operation_id));
            }
        },
        _ => {},
    }
}

/// A write that was cut short is neither reported nor settled as failed, cancelled or
/// succeeded: its outcome is unknown, in the answer, in the operation and in the rows.
pub proof fn an_interrupted_write_stays_unknown(run: CheckedRun, failure: (AppError, String))
    requires
        run.writes(),
        was_cancelled(failure.0) || timed_out(failure.0) || failure.0 is OutcomeUnknown,
    ensures
        ({
            let (effects, turn) = after_execution(run, Err(failure));
            &&& effects[0] == (Effect::Settle {
                operation_id: run.operation_id,
                settlement: Settlement::OutcomeUnknown { reason: "target_outcome_unconfirmed", error: None },
            })
            &&& turn matches Turn::Done(Err(error)) && error.error() is OutcomeUnknown
        }),
{
}

/// A write whose success could not be recorded is settled as unknown as well.
pub proof fn an_unrecorded_write_stays_unknown(
    run: CheckedRun,
    summary: ExecSummary,
    error: AppError,
)
    requires
        run.writes(),
    ensures
        after_receipt(run, summary, Err(error)).0 == seq![
            Effect::Settle {
                operation_id: run.operation_id,
                settlement: Settlement::OutcomeUnknown { reason: "local_receipt_failed", error: None },
            },
        ],
{
}

/// What a run asks for is what it was told before, and nothing else. The connection is
/// the one that the operation names. The statement that is classified, that stands in
/// the attempt and that is executed is the SQL of the payload that was loaded; its
/// engine is that of the pinned connection; and it is executed as it was classified,
/// under the settings that were loaded, with a grant exactly where it is no read. What
/// is reported as done is what the executor reported.
pub proof fn every_request_says_what_was_answered(
    operation_id: u128,
    replies: Seq<DesktopSqlRunReply>,
    last: DesktopSqlRunReply,
)
    requires
        state_after(operation_id, replies) matches Some(state) && state.awaits(last) && state.after(
            last,
        ).1 is Ask,
    ensures
        ({
            let all = replies.push(last);
            match state_after(operation_id, replies)->0.after(last).1->request {
                DesktopSqlRunRequest::LoadOperation { .. } => false,
                DesktopSqlRunRequest::DecodePayload => last is Operation,
                DesktopSqlRunRequest::PinConnection { connection_id } => {
                    &&& last is Payload
                    &&& all[0] matches DesktopSqlRunReply::Operation(Ok(planned))
                    &&& connection_id == planned.connection_id
                },
                DesktopSqlRunRequest::LoadSafety { connection_id } => {
                    &&& last matches DesktopSqlRunReply::Pin(Ok(pin))
                    &&& connection_id == pin.connection_id
                },
                DesktopSqlRunRequest::HashPolicy { snapshot } => {
                    &&& all[2] matches DesktopSqlRunReply::Pin(Ok(pin))
                    &&& last matches DesktopSqlRunReply::Safety(Ok(settings))
                    &&& snapshot.workspace_id == pin.scope.workspace_id
                    &&& snapshot.account_scope == pin.scope.account_scope.key()
                    &&& snapshot.scope_generation == pin.scope.generation
                    &&& snapshot.connection_revision == pin.connection_revision
                    &&& snapshot.binding_revision == pin.binding_revision
                    &&& snapshot.binding_updated_at == pin.binding_updated_at
                    &&& snapshot.credential_mode == pin.profile.credential_mode
                    &&& snapshot.environment == pin.profile.env
                    &&& snapshot.workspace_access == pin.profile.workspace_access
                    &&& snapshot.safety == Some(settings)
                },
                DesktopSqlRunRequest::Classify { sql, engine } => {
                    &&& all[1] matches DesktopSqlRunReply::Payload(Ok(payload))
                    &&& all[2] matches DesktopSqlRunReply::Pin(Ok(pin))
                    &&& last is Policy
                    &&& sql == payload.sql
                    &&& engine == pin.profile.engine
                },
                DesktopSqlRunRequest::Decide { settings, classification } => {
                    &&& all[3] == DesktopSqlRunReply::Safety(Ok(settings))
                    &&& last == DesktopSqlRunReply::Classification(Ok(classification))
                },
                DesktopSqlRunRequest::Claim { operation_id: id } => {
                    &&& last is Gate
                    &&& id == operation_id
                },
                DesktopSqlRunRequest::RecordAttempt { record } => {
                    &&& all[0] matches DesktopSqlRunReply::Operation(Ok(planned))
                    &&& all[1] matches DesktopSqlRunReply::Payload(Ok(payload))
                    &&& all[2] matches DesktopSqlRunReply::Pin(Ok(pin))
                    &&& all[5] matches DesktopSqlRunReply::Classification(Ok(classification))
                    &&& last is Claim
                    &&& classification.kind != QueryKind::Read
                    &&& record.sql == payload.sql
                    &&& record.connection_id == pin.connection_id
                    &&& record.engine == pin.profile.engine
                    &&& record.kind == classification.kind
                    &&& record.action == Text::Plain("execute:attempt")
                    &&& record.approved_by == Some(planned.actor_id)
                    &&& record.affected_estimate is None
                    &&& record.error is None
                },
                DesktopSqlRunRequest::Connect { access } => {
                    &&& all[5] matches DesktopSqlRunReply::Classification(Ok(classification))
                    &&& if classification.kind == QueryKind::Read {
                        last is Claim && access == ConnectionAccess::Read
                    } else {
                        last is Attempt && access == ConnectionAccess::Write
                    }
                },
                DesktopSqlRunRequest::OpenBackend => last is Connection,
                DesktopSqlRunRequest::Execute {
                    sql,
                    engine,
                    classification,
                    settings,
                    granted,
                    operation_id: id,
                } => {
                    &&& all[1] matches DesktopSqlRunReply::Payload(Ok(payload))
                    &&& all[2] matches DesktopSqlRunReply::Pin(Ok(pin))
                    &&& last is Backend
                    &&& sql == payload.sql
                    &&& engine == pin.profile.engine
                    &&& all[3] == DesktopSqlRunReply::Safety(Ok(settings))
                    &&& all[5] == DesktopSqlRunReply::Classification(Ok(classification))
                    &&& granted == (classification.kind != QueryKind::Read)
                    &&& id == operation_id
                },
                DesktopSqlRunRequest::Succeed {
                    operation_id: id,
                    committed,
                    duration_ms,
                    row_count,
                } => {
                    &&& last matches DesktopSqlRunReply::Execution(Ok(summary))
                    &&& id == operation_id
                    &&& committed == summary.committed
                    &&& summary.result matches Some(result) ==> duration_ms == Some(
                        result.duration_ms as i64,
                    ) && row_count == Some(result.row_count as i64)
                    &&& summary.result is None ==> duration_ms is None && row_count == (
                    match summary.affected {
                        Some(affected) => Some(affected as i64),
                        None => None,
                    })
                },
            }
        }),
{
    every_state_is_explained(operation_id, replies);
    let all = replies.push(last);
    assert(forall|k: int| 0 <= k < replies.len() ==> all[k] == replies[k]);
    assert(all.last() == last);
}

/// How a failed execution is settled: as unknown where the executor says so, and where a
/// write was cancelled or took too long; else as cancelled where it was, and else as failed
/// with the error.
pub open spec fn is_settled_as(settlement: Settlement, writes: bool, error: AppError) -> bool {
    let cancelled = error matches AppError::Safety(text) && text@ == "query cancelled"@;
    let late = error matches AppError::Safety(text) && "query timed out after "@.is_prefix_of(text@);
    if error is OutcomeUnknown || (writes && (cancelled || late)) {
        settlement == (Settlement::OutcomeUnknown {
            reason: "target_outcome_unconfirmed",
            error: None,
        })
    } else if cancelled {
        settlement == (Settlement::Cancelled { reason: "user_cancelled" })
    } else {
        settlement == Settlement::FailedWithKind(error)
    }
}

/// The rows that a run leaves tell of the statement that was proposed, on the connection
/// that was pinned, as the kind that it was classified as, and of what became of it: a
/// refusal with its reason, an error, or success with the rows that were reported. A
/// blocked, failed or finished run leaves one row in the audit chain and one in the
/// history; a settlement is of this operation; and a cached schema is dropped only for
/// the pinned connection, once a change of its schema was committed.
#[verifier::spinoff_prover]
#[verifier::rlimit(60)]
pub proof fn every_row_tells_what_happened(
    operation_id: u128,
    replies: Seq<DesktopSqlRunReply>,
    last: DesktopSqlRunReply,
)
    requires
        state_after(operation_id, replies) matches Some(state) && state.awaits(last),
    ensures
        ({
            let all = replies.push(last);
            let effects = state_after(operation_id, replies)->0.after(last).0;
            &&& forall|i: int|
                0 <= i < effects.len() ==> match #[trigger] effects[i] {
                    Effect::Audit(row) => {
                        &&& all[1] matches DesktopSqlRunReply::Payload(Ok(payload))
                        &&& all[2] matches DesktopSqlRunReply::Pin(Ok(pin))
                        &&& all[5] matches DesktopSqlRunReply::Classification(Ok(classification))
                        &&& row.connection_id == pin.connection_id
                        &&& row.engine == pin.profile.engine
                        &&& row.sql == payload.sql
                        &&& row.kind == classification.kind
                        &&& row.approved_by is None
                        &&& match last {
                            DesktopSqlRunReply::Gate(GateDecision::Block { reason }) => {
                                &&& row.action == Text::Plain("blocked")
                                &&& row.affected_estimate is None
                                &&& row.error == Some(Note::Said(Text::Owned(reason)))
                            },
                            DesktopSqlRunReply::Receipt(Ok(_)) => {
                                &&& all[all.len() - 2] matches DesktopSqlRunReply::Execution(
                                    Ok(summary),
                                )
                                &&& row.action == Text::Plain(
                                    if summary.committed {
                                        "execute"
                                    } else {
                                        "read"
                                    },
                                )
                                &&& row.affected_estimate == match summary.result {
                                    Some(result) => Some(result.row_count as i64),
                                    None => match summary.affected {
                                        Some(affected) => Some(affected as i64),
                                        None => None,
                                    },
                                }
                                &&& row.error is None
                            },
                            DesktopSqlRunReply::Connection(Err(error)) => {
                                &&& row.action == Text::Plain("error")
                                &&& row.affected_estimate is None
                                &&& row.error == Some(Note::Error(error))
                            },
                            DesktopSqlRunReply::Backend(Err(error)) => {
                                &&& row.action == Text::Plain("error")
                                &&& row.affected_estimate is None
                                &&& row.error == Some(Note::Error(error))
                            },
                            DesktopSqlRunReply::Execution(Err((error, _))) => {
                                &&& row.action == Text::Plain("error")
                                &&& row.affected_estimate is None
                                &&& row.error == Some(Note::Error(error)) || (row.error matches Some(
                                    Note::Error(AppError::OutcomeUnknown(_)),
                                ) && classification.kind != QueryKind::Read)
                            },
                            _ => false,
                        }
                    },
                    Effect::History(row) => {
                        &&& all[1] matches DesktopSqlRunReply::Payload(Ok(payload))
                        &&& i > 0 && (effects[i - 1] matches Effect::Audit(audit) && {
                            &&& row.connection_id == audit.connection_id
                            &&& row.sql == audit.sql
                            &&& row.kind == audit.kind
                            &&& row.row_count == audit.affected_estimate
                            &&& row.error == audit.error
                        })
                        &&& row.origin == Text::Owned(payload.history_origin)
                        &&& row.status == match last {
                            DesktopSqlRunReply::Gate(_) => "blocked",
                            DesktopSqlRunReply::Receipt(_) => "ok",
                            _ => "error",
                        }
                        &&& row.duration_ms == match last {
                            DesktopSqlRunReply::Receipt(_) => match all[all.len() - 2] {
                                DesktopSqlRunReply::Execution(Ok(summary)) => match summary.result {
                                    Some(result) => Some(result.duration_ms as i64),
                                    None => None,
                                },
                                _ => None,
                            },
                            _ => None::<i64>,
                        }
                    },
                    Effect::Settle { operation_id: id, settlement } => {
                        &&& id == operation_id
                        &&& match last {
                            DesktopSqlRunReply::Attempt(Err(_)) => settlement == (Settlement::Failed {
                                reason: "audit_pre_record_failed",
                                error: None,
                            }),
                            DesktopSqlRunReply::Connection(Err(_)) => settlement == (
                            Settlement::Failed { reason: "connection_failed", error: None }),
                            DesktopSqlRunReply::Backend(Err(_)) => settlement == (
                            Settlement::Failed { reason: "sql_backend_unavailable", error: None }),
                            DesktopSqlRunReply::Execution(Err((error, _))) => {
                                &&& all[5] matches DesktopSqlRunReply::Classification(
                                    Ok(classification),
                                )
                                &&& is_settled_as(
                                    settlement,
                                    classification.kind != QueryKind::Read,
                                    error,
                                )
                            },
                            DesktopSqlRunReply::Receipt(Err(_)) => {
                                &&& all[5] matches DesktopSqlRunReply::Classification(
                                    Ok(classification),
                                )
                                &&& if classification.kind == QueryKind::Read {
                                    settlement == (Settlement::Failed {
                                        reason: "local_receipt_failed",
                                        error: None,
                                    })
                                } else {
                                    settlement == (Settlement::OutcomeUnknown {
                                        reason: "local_receipt_failed",
                                        error: None,
                                    })
                                }
                            },
                            _ => false,
                        }
                    },
                    Effect::ClearSchemaCache { connection_id } => {
                        &&& last matches DesktopSqlRunReply::Receipt(Ok(_))
                        &&& all[2] matches DesktopSqlRunReply::Pin(Ok(pin))
                        &&& connection_id == pin.connection_id
                        &&& all[5] matches DesktopSqlRunReply::Classification(Ok(classification))
                        &&& classification.kind == QueryKind::Ddl
                        &&& all[all.len() - 2] matches DesktopSqlRunReply::Execution(Ok(summary))
                        &&& summary.committed
                    },
                    _ => false,
                }
            &&& (last matches DesktopSqlRunReply::Gate(GateDecision::Block { .. })) ==> effects.len()
                == 2 && effects[1] is History
            &&& (last matches DesktopSqlRunReply::Connection(Err(_))) ==> effects.len() == 3
                && effects[1] is History && effects[2] is Settle
            &&& (last matches DesktopSqlRunReply::Backend(Err(_))) ==> effects.len() == 3
                && effects[1] is History && effects[2] is Settle
            &&& (last matches DesktopSqlRunReply::Execution(Err(_))) ==> effects.len() == 3
                && effects[2] is History && effects[0] is Settle
            &&& (last matches DesktopSqlRunReply::Receipt(Ok(_))) ==> {
                &&& effects.len() >= 2
                &&& effects.last() is History
                &&& all[5] matches DesktopSqlRunReply::Classification(Ok(classification))
                &&& all[all.len() - 2] matches DesktopSqlRunReply::Execution(Ok(summary))
                &&& effects.len() == if classification.kind == QueryKind::Ddl && summary.committed {
                    3int
                } else {
                    2int
                }
            }
        }),
{
    every_state_is_explained(operation_id, replies);
    if replies.len() > 0 {
        every_state_is_explained(operation_id, replies.drop_last());
    }
    let all = replies.push(last);
    assert(forall|k: int| 0 <= k < replies.len() ==> all[k] == replies[k]);
    assert(all.last() == last);
    assert(replies.len() > 0 ==> all[all.len() - 2] == replies.last());
    let state = state_after(operation_id, replies)->0;
    let effects = state.after(last).0;
    match state {
        DesktopSqlRun::Gate { run } => {
            assert(effects.len() == 0 || effects.len() == 2);
        },
        DesktopSqlRun::Attempt { run } => {
            assert(effects.len() <= 1);
        },
        DesktopSqlRun::Connection { run } => {
            assert(effects.len() == 0 || effects.len() == 3);
        },
        DesktopSqlRun::Backend { run } => {
            assert(effects.len() == 0 || effects.len() == 3);
        },
        DesktopSqlRun::Execution { run } => {
            assert(effects.len() == 0 || effects.len() == 3);
        },
        DesktopSqlRun::Receipt { run, summary } => {
            assert(all[all.len() - 2] == DesktopSqlRunReply::Execution(Ok(summary)));
            assert(effects.len() <= 3);
        },
        _ => {
            assert(effects.len() == 0);
        },
    }
}

/// How a run ends: refused, with the reason; with the error that was met, except that a
/// write that was cut short is reported as unknown, in words that quote the error; or
/// with what the executor reported.
pub proof fn every_end_tells_what_happened(
    operation_id: u128,
    replies: Seq<DesktopSqlRunReply>,
    last: DesktopSqlRunReply,
)
    requires
        state_after(operation_id, replies) matches Some(state) && state.awaits(last) && state.after(
            last,
        ).1 is Done,
    ensures
        ({
            let all = replies.push(last);
            let end = state_after(operation_id, replies)->0.after(last).1->Done_0;
            match last {
                DesktopSqlRunReply::Operation(Err(error)) => end == (Err::<ExecSummary, _>(
                    DesktopSqlRunError::Application(error),
                )),
                DesktopSqlRunReply::Payload(Err(error)) => end == (Err::<ExecSummary, _>(
                    DesktopSqlRunError::Application(error),
                )),
                DesktopSqlRunReply::Pin(Err(error)) => end == (Err::<ExecSummary, _>(
                    DesktopSqlRunError::Application(error),
                )),
                DesktopSqlRunReply::Safety(Err(error)) => end == (Err::<ExecSummary, _>(
                    DesktopSqlRunError::Application(error),
                )),
                DesktopSqlRunReply::Policy(Err(error)) => end == (Err::<ExecSummary, _>(
                    DesktopSqlRunError::Application(error),
                )),
                DesktopSqlRunReply::Classification(Err(error)) => end == (Err::<ExecSummary, _>(
                    DesktopSqlRunError::Application(error),
                )),
                DesktopSqlRunReply::Claim(Err(error)) => end == (Err::<ExecSummary, _>(
                    DesktopSqlRunError::Application(error),
                )),
                DesktopSqlRunReply::Connection(Err(error)) => end == (Err::<ExecSummary, _>(
                    DesktopSqlRunError::Application(error),
                )),
                DesktopSqlRunReply::Gate(GateDecision::Block { reason }) => end matches Err(
                    DesktopSqlRunError::Blocked(blocked),
                ) && blocked.reason == Text::Owned(reason),
                DesktopSqlRunReply::Attempt(Err(printed)) => end matches Err(
                    DesktopSqlRunError::Application(AppError::Config(text)),
                ) && text@ == "audit pre-record failed — refusing to run write: "@ + printed@,
                DesktopSqlRunReply::Backend(Err(error)) => end matches Err(
                    DesktopSqlRunError::Execution(failure),
                ) && failure.error == error,
                DesktopSqlRunReply::Execution(Err((error, printed))) => {
                    &&& all[5] matches DesktopSqlRunReply::Classification(Ok(classification))
                    &&& end matches Err(DesktopSqlRunError::Execution(failure))
                    &&& if classification.kind != QueryKind::Read && (error matches AppError::Safety(
                        text,
                    ) && (text@ == "query cancelled"@ || "query timed out after "@.is_prefix_of(
                        text@,
                    ))) {
                        failure.error matches AppError::OutcomeUnknown(text) && text@
                            == "write execution was interrupted before rollback or commit could be confirmed: "@
                            + printed@
                    } else {
                        failure.error == error
                    }
                },
                DesktopSqlRunReply::Receipt(Err(error)) => end matches Err(
                    DesktopSqlRunError::Execution(failure),
                ) && failure.error == error,
                DesktopSqlRunReply::Receipt(Ok(_)) => {
                    &&& all[all.len() - 2] matches DesktopSqlRunReply::Execution(Ok(summary))
                    &&& end == Ok::<_, DesktopSqlRunError>(summary)
                },
                DesktopSqlRunReply::Operation(Ok(planned)) => {
                    &&& planned.payload_schema_version != 1 || (planned.kind
                        != OperationKind::ReadQuery && planned.kind != OperationKind::WriteSql
                        && planned.kind != OperationKind::Ddl && planned.kind
                        != OperationKind::Privilege)
                    &&& end matches Err(
                        DesktopSqlRunError::Application(AppError::Blocked { reason }),
                    )
                    &&& reason == Text::Plain("operation is not a supported desktop SQL proposal")
                },
                DesktopSqlRunReply::Pin(Ok(pin)) => {
                    &&& all[0] matches DesktopSqlRunReply::Operation(Ok(planned))
                    &&& planned.workspace_id != pin.scope.workspace_id || planned.account_scope@
                        != pin.scope.account_scope.key()@ || planned.connection_id
                        != pin.connection_id || planned.connection_revision
                        != pin.connection_revision
                    &&& end matches Err(
                        DesktopSqlRunError::Application(AppError::Blocked { reason }),
                    )
                    &&& reason == Text::Plain(
                        "operation scope or connection revision changed after the proposal was created",
                    )
                },
                DesktopSqlRunReply::Policy(Ok(revision)) => {
                    &&& all[0] matches DesktopSqlRunReply::Operation(Ok(planned))
                    &&& revision@ != planned.policy_revision@
                    &&& end matches Err(DesktopSqlRunError::Blocked(blocked))
                    &&& blocked.reason == Text::Plain(
                        "the connection or safety policy changed; create a new proposal",
                    )
                },
                DesktopSqlRunReply::Classification(Ok(classification)) => {
                    &&& all[0] matches DesktopSqlRunReply::Operation(Ok(planned))
                    &&& all[2] matches DesktopSqlRunReply::Pin(Ok(pin))
                    &&& end matches Err(DesktopSqlRunError::Blocked(blocked))
                    &&& if planned.kind != (match classification.kind {
                        QueryKind::Read => OperationKind::ReadQuery,
                        QueryKind::Write => OperationKind::WriteSql,
                        QueryKind::Ddl => OperationKind::Ddl,
                        QueryKind::Privilege => OperationKind::Privilege,
                    }) {
                        blocked.reason == Text::Plain(
                            "stored SQL classification no longer matches its immutable proposal",
                        )
                    } else {
                        &&& pin.profile.workspace_access == WorkspaceConnectionAccess::View || (
                        classification.kind != QueryKind::Read && pin.profile.workspace_access
                            == WorkspaceConnectionAccess::Read)
                        &&& blocked.reason == Text::Plain(
                            "your workspace role no longer grants this database access",
                        )
                    }
                },
                _ => false,
            }
        }),
{
    every_state_is_explained(operation_id, replies);
    if replies.len() > 0 {
        every_state_is_explained(operation_id, replies.drop_last());
    }
    let all = replies.push(last);
    assert(forall|k: int| 0 <= k < replies.len() ==> all[k] == replies[k]);
    assert(all.last() == last);
    assert(replies.len() > 0 ==> all[all.len() - 2] == replies.last());
    reveal_strlit("");
    assert(kind_of(QueryKind::Read) == OperationKind::ReadQuery);
    assert(kind_of(QueryKind::Write) == OperationKind::WriteSql);
    assert(kind_of(QueryKind::Ddl) == OperationKind::Ddl);
    assert(kind_of(QueryKind::Privilege) == OperationKind::Privilege);
}

} // verus!
