//! What running a script asks for and leaves behind, in every run.
use vstd::prelude::*;

use crate::error::AppError;
use crate::model::{ConnectionAccess, Engine, QueryKind, SafetySettings, WorkspaceConnectionAccess};
use crate::operations::PinnedConnection;
use crate::services::effects::{Effect, Note, Turn};
use crate::services::query::desktop_run::ResultSize;
use crate::services::script::reads::{rows_total, ReadScript};
use crate::services::script::run::{
    close_interrupted, close_reads, close_transaction, ClosedScript, DesktopScriptRunRequest,
    ReadyScript, ScriptContext, ScriptReadCall, ScriptRun, ScriptRunReply, ScriptRunRequest,
    ScriptRunStep, ScriptWriteCall,
};
use crate::services::script::shared::{
    failed, first_error, skipped, succeeded, DesktopScriptRunError, ScriptStatement,
};
use crate::services::script::transaction::{affected_total, Transaction, TransactionPhase};
use crate::sql_script::script_statements;
use crate::text::{texts, Text};

verus! {

/// The checks of a script begin with the connection that was named and its settings, and
/// go on with the statements of the script that was given, split as its engine splits
/// them and handed over in order. A script without any is refused.
pub proof fn the_statements_are_those_of_the_script(
    request: DesktopScriptRunRequest,
    begun: ScriptRunStep,
    pin: PinnedConnection,
    pinned: ScriptRunStep,
    settings: SafetySettings,
    loaded: ScriptRunStep,
)
    requires
        call_ensures(ScriptRun::start, (request,), begun),
        begun.turn->state.follows(ScriptRunReply::Pin(Ok(pin)), pinned),
        pinned.turn->state.follows(ScriptRunReply::Safety(Ok(settings)), loaded),
    ensures
        begun.effects@.len() == 0 && pinned.effects@.len() == 0 && loaded.effects@.len() == 0,
        begun.turn matches Turn::Ask { request: ScriptRunRequest::PinConnection { connection_id }, .. }
            && connection_id == request.connection_id,
        pinned.turn matches Turn::Ask { request: ScriptRunRequest::LoadSafety { connection_id }, .. }
            && connection_id == request.connection_id,
        ({
            let found = script_statements(request.sql@, pin.profile.engine == Engine::Mysql);
            if found.len() == 0 {
                loaded.turn matches Turn::Done(Err(DesktopScriptRunError::Scoped(failure)))
                    && failure.error == AppError::Config(
                    Text::Plain("no executable statements in the script"),
                )
            } else {
                &&& loaded.turn matches Turn::Ask {
                    state: ScriptRun::Classification {
                        request: kept,
                        pin: kept_pin,
                        settings: kept_settings,
                        statements: kept_statements,
                    },
                    request: ScriptRunRequest::ClassifyStatements { engine, statements },
                }
                &&& engine == pin.profile.engine
                &&& texts(statements@) == found
                &&& kept_statements@ == statements@
                &&& kept == request && kept_pin == pin && kept_settings == settings
            }
        }),
{
}

/// What becomes of a classified script. Reads run where they run by themselves or were
/// approved, on a connection for reading. Anything else runs only under a role that may
/// write, with writes enabled and approved, and once its attempt is written down. Every
/// refusal but that of the role is recorded.
pub proof fn scripts_run_as_approved(
    request: DesktopScriptRunRequest,
    pin: PinnedConnection,
    settings: SafetySettings,
    statements: Vec<String>,
    kinds: Vec<QueryKind>,
    step: ScriptRunStep,
)
    requires
        (ScriptRun::Classification { request, pin, settings, statements }).follows(
            ScriptRunReply::Classification(Ok(kinds)),
            step,
        ),
    ensures
        ({
            let access = pin.profile.workspace_access;
            if forall|k: int| 0 <= k < kinds@.len() ==> #[trigger] kinds@[k] == QueryKind::Read {
                if settings.auto_run_reads || request.approved {
                    &&& step.effects@.len() == 0
                    &&& step.turn matches Turn::Ask {
                        state: ScriptRun::Connection { context, statements: kept },
                        request: ScriptRunRequest::Connect { access: asked },
                    }
                    &&& asked == ConnectionAccess::Read
                    &&& kept == statements
                    &&& context.request == request && context.pin == pin && context.settings
                        == settings && context.kinds == kinds
                } else {
                    is_recorded_refusal(
                        request,
                        pin,
                        QueryKind::Read,
                        "reads require approval for this connection",
                        step,
                    )
                }
            } else if access == WorkspaceConnectionAccess::View || access
                == WorkspaceConnectionAccess::Read {
                &&& step.effects@.len() == 0
                &&& step.turn matches Turn::Done(Err(DesktopScriptRunError::Scoped(failure)))
                &&& failure.error == (AppError::Blocked {
                    reason: Text::Plain("your workspace role grants read-only database access"),
                })
            } else if !settings.allow_writes {
                is_recorded_refusal(
                    request,
                    pin,
                    QueryKind::Write,
                    "writing is disabled for this connection (writes are off by default). Enable writes in the connection's safety settings to run this script.",
                    step,
                )
            } else if !request.approved {
                is_recorded_refusal(
                    request,
                    pin,
                    QueryKind::Write,
                    "this script modifies data and requires explicit approval",
                    step,
                )
            } else {
                &&& step.effects@.len() == 0
                &&& step.turn matches Turn::Ask {
                    state: ScriptRun::Attempt { context, statements: kept },
                    request: ScriptRunRequest::RecordAttempt { record },
                }
                &&& kept == statements
                &&& context.request == request && context.pin == pin && context.settings == settings
                    && context.kinds == kinds
                &&& record.connection_id == request.connection_id
                &&& record.engine == pin.profile.engine
                &&& record.sql == request.sql
                &&& record.kind == told_kind(kinds@)
                &&& record.action == Text::Plain("script:execute:attempt")
                &&& record.approved_by is None && record.affected_estimate is None
                    && record.error is None
            }
        }),
{
}

/// A refusal with this reason, which the audit chain and the history tell of as well.
pub open spec fn is_recorded_refusal(
    request: DesktopScriptRunRequest,
    pin: PinnedConnection,
    kind: QueryKind,
    reason: &'static str,
    step: ScriptRunStep,
) -> bool {
    &&& step.turn matches Turn::Done(Err(DesktopScriptRunError::Scoped(failure)))
    &&& failure.error == (AppError::Blocked { reason: Text::Plain(reason) })
    &&& are_rows_of_the_script(
        request,
        pin,
        kind,
        "blocked",
        "blocked",
        None,
        Some(Note::Said(Text::Plain(reason))),
        step.effects@,
    )
}

/// Whether these are one row of the audit chain and one of the history, and tell of the
/// whole script on the pinned connection.
pub open spec fn are_rows_of_the_script(
    request: DesktopScriptRunRequest,
    pin: PinnedConnection,
    kind: QueryKind,
    action: &'static str,
    status: &'static str,
    rows: Option<i64>,
    error: Option<Note>,
    effects: Seq<Effect>,
) -> bool {
    &&& effects.len() == 2
    &&& effects[0] matches Effect::Audit(audit)
    &&& effects[1] matches Effect::History(history)
    &&& audit.connection_id == pin.connection_id && history.connection_id == pin.connection_id
    &&& audit.engine == pin.profile.engine
    &&& audit.sql == request.sql && history.sql == request.sql
    &&& audit.kind == kind && history.kind == kind
    &&& audit.action == Text::Plain(action)
    &&& history.status == status
    &&& audit.approved_by is None && history.duration_ms is None
    &&& audit.affected_estimate == rows && history.row_count == rows
    &&& audit.error == error && history.error == error
    &&& history.origin == match request.origin {
        Some(origin) => Text::Owned(origin),
        None => Text::Plain("manual"),
    }
}

/// What a script is recorded as: a read where all of it reads, and else a schema change
/// before a privilege change before a write.
pub open spec fn told_kind(kinds: Seq<QueryKind>) -> QueryKind {
    if all_read(kinds) {
        QueryKind::Read
    } else if exists|k: int| 0 <= k < kinds.len() && #[trigger] kinds[k] == QueryKind::Ddl {
        QueryKind::Ddl
    } else if exists|k: int| 0 <= k < kinds.len() && #[trigger] kinds[k] == QueryKind::Privilege {
        QueryKind::Privilege
    } else {
        QueryKind::Write
    }
}

/// From the approval on, a script stays what it was: once its attempt is written down and
/// its connection is open it may run, as reads exactly where all of it reads. Where that
/// fails, the error is what the run ends with, and it is recorded, except that reads which
/// find no backend, and writes whose attempt could not be written down, leave no rows.
#[verifier::spinoff_prover]
#[verifier::rlimit(40)]
pub proof fn approved_scripts_come_to_run(
    state: ScriptRun,
    reply: ScriptRunReply,
    step: ScriptRunStep,
)
    requires
        state.awaits(reply),
        state.follows(reply, step),
    ensures
        match (state, reply) {
            (ScriptRun::Attempt { context, statements }, ScriptRunReply::Attempt(Ok(_))) => {
                &&& step.effects@.len() == 0
                &&& step.turn matches Turn::Ask {
                    state: ScriptRun::Connection { context: kept, statements: listed },
                    request: ScriptRunRequest::Connect { access },
                }
                &&& kept == context && listed == statements && access == ConnectionAccess::Write
            },
            (ScriptRun::Attempt { .. }, ScriptRunReply::Attempt(Err(printed))) => {
                &&& step.effects@.len() == 0
                &&& step.turn matches Turn::Done(Err(DesktopScriptRunError::Scoped(failure)))
                &&& failure.error matches AppError::Config(text)
                &&& text@ == "audit pre-record failed — refusing to run script: "@ + printed@
            },
            (ScriptRun::Connection { context, statements }, ScriptRunReply::Connection(Ok(_))) => {
                &&& step.effects@.len() == 0
                &&& step.turn matches Turn::Ask {
                    state: ScriptRun::Backend { context: kept, statements: listed },
                    request: ScriptRunRequest::OpenBackend,
                }
                &&& kept == context && listed == statements
            },
            (ScriptRun::Connection { context, .. }, ScriptRunReply::Connection(Err(error))) => {
                &&& step.turn matches Turn::Done(Err(DesktopScriptRunError::Application(told)))
                &&& told == error
                &&& are_failure_rows(context, error, step.effects@)
            },
            (ScriptRun::Backend { context, statements }, ScriptRunReply::Backend(Ok(_))) => {
                &&& step.effects@.len() == 0
                &&& if all_read(context.kinds@) {
                    &&& step.turn matches Turn::Done(
                        Ok(ReadyScript::Reads { context: kept, statements: listed }),
                    )
                    &&& kept == context && listed == statements
                } else {
                    &&& step.turn matches Turn::Done(
                        Ok(ReadyScript::Writes { context: kept, statements: listed }),
                    )
                    &&& kept == context && listed == statements
                }
            },
            (ScriptRun::Backend { context, .. }, ScriptRunReply::Backend(Err(error))) => {
                &&& step.turn matches Turn::Done(Err(DesktopScriptRunError::Execution(failure)))
                &&& failure.error == error
                &&& if all_read(context.kinds@) {
                    step.effects@.len() == 0
                } else {
                    are_failure_rows(context, error, step.effects@)
                }
            },
            (ScriptRun::Pin { .. }, ScriptRunReply::Pin(Err(error))) => {
                &&& step.effects@.len() == 0
                &&& step.turn matches Turn::Done(Err(DesktopScriptRunError::Scoped(failure)))
                &&& failure.error == error
            },
            (ScriptRun::Safety { .. }, ScriptRunReply::Safety(Err(error))) => {
                &&& step.effects@.len() == 0
                &&& step.turn matches Turn::Done(Err(DesktopScriptRunError::Scoped(failure)))
                &&& failure.error == error
            },
            (ScriptRun::Classification { .. }, ScriptRunReply::Classification(Err(error))) => {
                &&& step.effects@.len() == 0
                &&& step.turn matches Turn::Done(Err(DesktopScriptRunError::Scoped(failure)))
                &&& failure.error == error
            },
            _ => true,
        },
{
    reveal_strlit("");
    match state {
        ScriptRun::Connection { context, .. } => {
            assert(context.kind() == told_kind(context.kinds@));
        },
        ScriptRun::Backend { context, .. } => {
            assert(context.kind() == told_kind(context.kinds@));
        },
        _ => {},
    }
}

/// Whether every statement is a read.
pub open spec fn all_read(kinds: Seq<QueryKind>) -> bool {
    forall|k: int| 0 <= k < kinds.len() ==> #[trigger] kinds[k] == QueryKind::Read
}

/// Whether these rows tell that the script failed as a whole with this error.
pub open spec fn are_failure_rows(
    context: ScriptContext,
    error: AppError,
    effects: Seq<Effect>,
) -> bool {
    are_rows_of_the_script(
        context.request,
        context.pin,
        told_kind(context.kinds@),
        "script:execute",
        "error",
        None,
        Some(Note::Error(error)),
        effects,
    )
}

/// The calls of a script are made for its statements in order, under the id that the
/// request gave: the next one is the first without an outcome. A read is run in the
/// dialect of the pinned connection and fetches no more rows than the settings allow.
pub proof fn calls_are_for_the_next_statement(
    context: ScriptContext,
    reads: ReadScript,
    transaction: Transaction,
)
    ensures
        forall|call: Option<ScriptReadCall>| #[trigger]
            call_ensures(ScriptContext::next_read, (&context, &reads), call) ==> {
                &&& call is None <==> reads.outcomes@.len() == reads.statements@.len()
                &&& call matches Some(call) ==> {
                    &&& call.sql == reads.statements@[reads.outcomes@.len() as int]
                    &&& call.engine == context.pin.profile.engine
                    &&& call.max_rows == context.settings.max_rows
                    &&& call.query_id == context.request.query_id
                }
            },
        forall|call: ScriptWriteCall| #[trigger]
            call_ensures(ScriptContext::next_write, (&context, &transaction), call) ==> {
                &&& call.sql == transaction.statements@[transaction.outcomes@.len() as int]
                &&& call.query_id == context.request.query_id
            },
{
}

/// What is told and recorded of a script that has run: its outcomes, and whether it took
/// effect; the rows that its statements read or affected, taken together; and the first
/// error. Reads are never committed. A cached schema is dropped only once a change of it
/// was committed.
#[verifier::spinoff_prover]
#[verifier::rlimit(40)]
pub proof fn scripts_are_closed_as_they_ran(
    context: ScriptContext,
    reads: ReadScript,
    transaction: Transaction,
    error: AppError,
)
    requires
        !all_read(context.kinds@),
    ensures
        forall|closed: ClosedScript| #[trigger]
            call_ensures(close_reads, (&context, reads), closed) ==> {
                &&& closed.outcome.statements == reads.outcomes
                &&& !closed.outcome.committed && closed.outcome.all_reads
                &&& are_rows_of_the_script(
                    context.request,
                    context.pin,
                    QueryKind::Read,
                    "script:execute",
                    if reads.failure is Some {
                        "error"
                    } else {
                        "ok"
                    },
                    Some(reads.total),
                    match reads.failure {
                        Some(message) => Some(Note::Said(Text::Owned(message))),
                        None => None,
                    },
                    closed.effects@,
                )
            },
        forall|closed: ClosedScript| #[trigger]
            call_ensures(close_transaction, (&context, transaction), closed) ==> {
                let committed = transaction.phase == TransactionPhase::Committed;
                let changed = exists|k: int|
                    0 <= k < context.kinds@.len() && #[trigger] context.kinds@[k] == QueryKind::Ddl;
                &&& closed.outcome.statements == transaction.outcomes
                &&& closed.outcome.committed == committed && !closed.outcome.all_reads
                &&& committed && changed ==> closed.effects@.len() == 3 && (
                closed.effects@[0] matches Effect::ClearSchemaCache { connection_id }
                    && connection_id == context.request.connection_id)
                &&& !(committed && changed) ==> closed.effects@.len() == 2
                &&& are_rows_of_the_script(
                    context.request,
                    context.pin,
                    told_kind(context.kinds@),
                    "script:execute",
                    if committed {
                        "ok"
                    } else {
                        "error"
                    },
                    Some(affected_total(transaction.outcomes@) as i64),
                    match first_error(transaction.outcomes@) {
                        Some(text) => Some(Note::Said(text)),
                        None => None,
                    },
                    closed.effects@.skip(closed.effects@.len() - 2),
                )
            },
        forall|closed: (Vec<Effect>, DesktopScriptRunError)| #[trigger]
            call_ensures(close_interrupted, (&context, error), closed) ==> {
                &&& closed.1 matches DesktopScriptRunError::Execution(failure) && failure.error
                    == error
                &&& are_failure_rows(context, error, closed.0@)
            },
{
    assert(context.kind() == told_kind(context.kinds@));
}

/// The error of a script is that of its first statement that has one, and there is none
/// only where no statement has one.
pub proof fn the_first_error_is_told(outcomes: Seq<ScriptStatement>)
    ensures
        match first_error(outcomes) {
            None => forall|k: int|
                0 <= k < outcomes.len() ==> (#[trigger] outcomes[k]).error is None,
            Some(text) => exists|k: int|
                0 <= k < outcomes.len() && (#[trigger] outcomes[k]).error == Some(text) && forall|
                    j: int,
                |
                    0 <= j < k ==> (#[trigger] outcomes[j]).error is None,
        },
    decreases outcomes.len(),
{
    if outcomes.len() > 0 {
        let rest = outcomes.drop_first();
        the_first_error_is_told(rest);
        assert(forall|k: int| 0 <= k < rest.len() ==> #[trigger] rest[k] == outcomes[k + 1]);
        match first_error(outcomes) {
            None => {
                assert forall|k: int| 0 <= k < outcomes.len() implies (
                #[trigger] outcomes[k]).error is None by {
                    if k > 0 {
                        assert(rest[k - 1] == outcomes[k]);
                    }
                }
            },
            Some(text) => {
                if outcomes[0].error is None {
                    let k = choose|k: int|
                        0 <= k < rest.len() && (#[trigger] rest[k]).error == Some(text) && forall|
                            j: int,
                        |
                            0 <= j < k ==> (#[trigger] rest[j]).error is None;
                    assert(outcomes[k + 1].error == Some(text));
                    assert forall|j: int| 0 <= j < k + 1 implies (
                    #[trigger] outcomes[j]).error is None by {
                        if j > 0 {
                            assert(rest[j - 1] == outcomes[j]);
                        }
                    }
                } else {
                    assert(outcomes[0].error == Some(text));
                }
            },
        }
    }
}

/// What is said of a statement: the rows that it affected, or why it failed, or that it was
/// skipped because another had failed; and totals grow by what each statement reports.
pub proof fn statements_report_their_own(
    sql: String,
    affected: u64,
    message: Text,
    outcomes: Seq<ScriptStatement>,
    next: ScriptStatement,
)
    ensures
        ({
            let done = succeeded(sql, affected);
            done.sql == sql && done.affected == Some(affected as i64) && done.error is None
                && done.result is None
        }),
        ({
            let lost = failed(sql, message);
            lost.sql == sql && lost.affected is None && lost.error == Some(message) && lost.result
                is None
        }),
        ({
            let left = skipped(sql);
            left.sql == sql && left.affected is None && left.result is None && left.error == Some(
                Text::Plain("skipped — transaction rolled back"),
            )
        }),
        affected_total(outcomes.push(next)) == affected_total(outcomes) + match next.affected {
            Some(affected) => affected as int,
            None => 0int,
        },
        rows_total(outcomes.push(next)) == rows_total(outcomes) + match next.result {
            Some(size) => size.row_count as i64 as int,
            None => 0int,
        },
        affected_total(Seq::empty()) == 0,
        rows_total(Seq::empty()) == 0,
{
    assert(outcomes.push(next).drop_last() =~= outcomes);
}

/// What a transaction reports of its statements. One that cannot begin fails them all, with
/// the reason. A statement that was executed reports the rows that it affected, and the
/// next one follows, or the commit. One that failed reports the error; those before it keep
/// their reports, those behind it are skipped, and all is rolled back. A commit that failed
/// takes every success back.
#[verifier::spinoff_prover]
#[verifier::rlimit(40)]
pub proof fn transactions_report_each_statement(
    starting: &mut Transaction,
    running: &mut Transaction,
    failing: &mut Transaction,
    ending: &mut Transaction,
    losing: &mut Transaction,
    printed: String,
    affected: u64,
    k: int,
)
    requires
        call_ensures(Transaction::begun, (starting, Err::<(), String>(printed)), ()),
        call_ensures(Transaction::executed, (running, Ok::<u64, String>(affected)), ()),
        call_ensures(Transaction::executed, (failing, Err::<u64, String>(printed)), ()),
        call_ensures(Transaction::committed, (ending, Ok::<(), String>(())), ()),
        call_ensures(Transaction::committed, (losing, Err::<(), String>(printed)), ()),
    ensures
        ({
            let after = *final(starting);
            let told = after.outcomes@[k];
            &&& after.phase == TransactionPhase::Aborted
            &&& after.outcomes@.len() == old(starting).statements@.len()
            &&& 0 <= k < after.outcomes@.len() ==> told.sql == old(starting).statements@[k]
                && told.affected is None && (told.error matches Some(text) && text@
                == "could not begin transaction: "@ + printed@)
        }),
        ({
            let after = *final(running);
            let n = old(running).outcomes@.len() as int;
            let told = after.outcomes@[n];
            &&& after.outcomes@.len() == n + 1
            &&& told.sql == old(running).statements@[n]
            &&& told.affected == Some(affected as i64) && told.error is None
            &&& 0 <= k < n ==> after.outcomes@[k] == old(running).outcomes@[k]
            &&& after.phase == if n + 1 == old(running).statements@.len() {
                TransactionPhase::Committing
            } else {
                TransactionPhase::Running
            }
        }),
        ({
            let after = *final(failing);
            let n = old(failing).outcomes@.len() as int;
            let told = after.outcomes@[k];
            &&& after.phase == TransactionPhase::RollingBack
            &&& after.outcomes@.len() == old(failing).statements@.len()
            &&& 0 <= k < n && k < after.outcomes@.len() ==> told == old(failing).outcomes@[k]
            &&& n <= k < after.outcomes@.len() ==> told.sql == old(failing).statements@[k]
                && told.affected is None && told.error is Some && told.error->0@ == if k == n {
                printed@
            } else {
                "skipped — transaction rolled back"@
            }
        }),
        final(ending).phase == TransactionPhase::Committed,
        final(ending).outcomes == old(ending).outcomes,
        ({
            let after = *final(losing);
            let told = after.outcomes@[k];
            &&& after.phase == TransactionPhase::Aborted
            &&& after.outcomes@.len() == old(losing).outcomes@.len()
            &&& 0 <= k < after.outcomes@.len() ==> told.sql == old(losing).outcomes@[k].sql
                && told.affected is None && (told.error matches Some(text) && text@
                == "commit failed — nothing was saved: "@ + printed@)
        }),
{
    reveal_strlit("");
}

/// What a script of reads reports of its statements: the rows that each read, which the
/// total grows by; the error of one that failed, which becomes the script's; and that those
/// behind it were skipped.
pub proof fn reads_report_each_statement(
    reading: &mut ReadScript,
    failing: &mut ReadScript,
    size: ResultSize,
    printed: String,
    k: int,
)
    requires
        call_ensures(ReadScript::record, (reading, Ok::<ResultSize, String>(size)), ()),
        call_ensures(ReadScript::record, (failing, Err::<ResultSize, String>(printed)), ()),
    ensures
        ({
            let n = old(reading).outcomes@.len() as int;
            let told = final(reading).outcomes@[n];
            &&& final(reading).outcomes@.len() == n + 1
            &&& told.sql == old(reading).statements@[n]
            &&& told.result == Some(size) && told.affected is None && told.error is None
            &&& 0 <= k < n ==> final(reading).outcomes@[k] == old(reading).outcomes@[k]
            &&& final(reading).total == old(reading).total + size.row_count as i64
            &&& final(reading).failure == old(reading).failure
        }),
        ({
            let n = old(failing).outcomes@.len() as int;
            let told = final(failing).outcomes@[k];
            &&& final(failing).outcomes@.len() == old(failing).statements@.len()
            &&& 0 <= k < n && k < final(failing).outcomes@.len() ==> told
                == old(failing).outcomes@[k]
            &&& n <= k < final(failing).outcomes@.len() ==> told.sql
                == old(failing).statements@[k] && told.result is None && told.error is Some
                && told.error->0@ == if k == n {
                printed@
            } else {
                "skipped — transaction rolled back"@
            }
            &&& final(failing).total == old(failing).total
            &&& final(failing).failure == Some(printed)
        }),
{
}

} // verus!
