//! A script from the desktop: the checks before it runs, and what is recorded after.
use vstd::pervasive::unreached;
use vstd::prelude::*;

use crate::error::AppError;
use crate::model::{ConnectionAccess, Engine, QueryKind, SafetySettings};
use crate::operations::PinnedConnection;
use crate::services::effects::{
    ask, done, duplicate_note, AuditRecord, Effect, HistoryRecord, Note, Step, Turn,
};
use crate::services::query::desktop_propose::origin_of;
use crate::services::script::reads::ReadScript;
use crate::services::script::shared::{
    contains_kind, find_error, first_error, has_kind, has_write, kind_of_script, script_has_write,
    script_kind, DesktopScriptExecutionFailure, DesktopScriptRunError, DesktopScriptScopedFailure,
    ScriptStatement,
};
use crate::services::script::transaction::{
    affected_total, sum_affected, sums_fit, Transaction, TransactionPhase,
};
use crate::sql_script::{script_statements, split_statements};
use crate::text::{duplicate_texts, texts, Text};

verus! {

/// What the desktop asks to have run.
#[derive(PartialEq, Eq)]
pub struct DesktopScriptRunRequest {
    pub connection_id: u128,
    pub sql: String,
    pub approved: bool,
    pub query_id: Option<u128>,
    pub origin: Option<String>,
}

/// A script whose statements are known and classified.
#[derive(PartialEq, Eq)]
pub struct ScriptContext {
    pub request: DesktopScriptRunRequest,
    pub pin: PinnedConnection,
    pub settings: SafetySettings,
    pub kinds: Vec<QueryKind>,
}

/// A call that reads: the statement to run in a read-only session of this engine, the most rows
/// to fetch, and the id under which it can be cancelled.
#[derive(PartialEq, Eq)]
pub struct ScriptReadCall {
    pub sql: String,
    pub engine: Engine,
    pub max_rows: u64,
    pub query_id: Option<u128>,
}

/// A call that writes: the statement to execute in the transaction, and the id under which the
/// whole transaction can be cancelled.
#[derive(PartialEq, Eq)]
pub struct ScriptWriteCall {
    pub sql: String,
    pub query_id: Option<u128>,
}

impl ScriptContext {
    /// The call for the next statement of a script of reads, if any is left to run.
    pub fn next_read(&self, reads: &ReadScript) -> (r: Option<ScriptReadCall>)
        requires
            reads.wf(),
        ensures
            r == if reads.finished() {
                None
            } else {
                Some(
                    ScriptReadCall {
                        sql: reads.statements@[reads.outcomes@.len() as int],
                        engine: self.pin.profile.engine,
                        max_rows: self.settings.max_rows,
                        query_id: self.request.query_id,
                    },
                )
            },
    {
        match reads.next() {
            Some(statement) => Some(
                ScriptReadCall {
                    sql: statement.clone(),
                    engine: self.pin.profile.engine,
                    max_rows: self.settings.max_rows,
                    query_id: self.request.query_id,
                },
            ),
            None => None,
        }
    }

    /// The call for the next statement of a transaction.
    pub fn next_write(&self, transaction: &Transaction) -> (r: ScriptWriteCall)
        requires
            transaction.wf(),
            transaction.phase == TransactionPhase::Running,
        ensures
            r == (ScriptWriteCall {
                sql: transaction.statements@[transaction.outcomes@.len() as int],
                query_id: self.request.query_id,
            }),
    {
        ScriptWriteCall {
            sql: transaction.next().clone(),
            query_id: self.request.query_id,
        }
    }
}

/// A script that may run now, on a connection that is open for it.
#[derive(PartialEq, Eq)]
pub enum ReadyScript {
    /// Every statement reads: run them one by one in read-only sessions.
    Reads { context: ScriptContext, statements: Vec<String> },
    /// Some statement writes: run them all in one transaction.
    Writes { context: ScriptContext, statements: Vec<String> },
}

/// What became of a script.
#[derive(PartialEq, Eq)]
pub struct ScriptOutcome {
    pub statements: Vec<ScriptStatement>,
    pub committed: bool,
    pub all_reads: bool,
}

/// A script that has run, and what is written down about it.
#[derive(PartialEq, Eq)]
pub struct ClosedScript {
    pub effects: Vec<Effect>,
    pub outcome: ScriptOutcome,
}

/// The audit row and the history row of a script.
pub open spec fn script_rows(
    request: DesktopScriptRunRequest,
    pin: PinnedConnection,
    kind: QueryKind,
    action: &'static str,
    status: &'static str,
    row_count: Option<i64>,
    error: Option<Note>,
) -> Seq<Effect> {
    seq![
        Effect::Audit(
            AuditRecord {
                connection_id: pin.connection_id,
                engine: pin.profile.engine,
                sql: request.sql,
                kind,
                action: Text::Plain(action),
                approved_by: None,
                affected_estimate: row_count,
                error,
            },
        ),
        Effect::History(
            HistoryRecord {
                connection_id: pin.connection_id,
                sql: request.sql,
                kind,
                status,
                row_count,
                duration_ms: None,
                error,
                origin: origin_of(request.origin),
            },
        ),
    ]
}

fn record(
    effects: &mut Vec<Effect>,
    request: &DesktopScriptRunRequest,
    pin: &PinnedConnection,
    kind: QueryKind,
    action: &'static str,
    status: &'static str,
    row_count: Option<i64>,
    error: Option<Note>,
)
    ensures
        final(effects)@ == old(effects)@ + script_rows(
            *request,
            *pin,
            kind,
            action,
            status,
            row_count,
            error,
        ),
{
    let origin = match &request.origin {
        Some(origin) => Text::Owned(origin.clone()),
        None => Text::Plain("manual"),
    };
    effects.push(
        Effect::Audit(
            AuditRecord {
                connection_id: pin.connection_id,
                engine: pin.profile.engine,
                sql: request.sql.clone(),
                kind,
                action: Text::Plain(action),
                approved_by: None,
                affected_estimate: row_count,
                error: duplicate_note(&error),
            },
        ),
    );
    effects.push(
        Effect::History(
            HistoryRecord {
                connection_id: pin.connection_id,
                sql: request.sql.clone(),
                kind,
                status,
                row_count,
                duration_ms: None,
                error,
                origin,
            },
        ),
    );
}

/// How the checks end.
pub type ScriptRunEnd = Result<ReadyScript, DesktopScriptRunError>;

/// Where the checks stand: what they are waiting to hear.
#[derive(PartialEq, Eq)]
pub enum ScriptRun {
    Pin { request: DesktopScriptRunRequest },
    Safety { request: DesktopScriptRunRequest, pin: PinnedConnection },
    Classification {
        request: DesktopScriptRunRequest,
        pin: PinnedConnection,
        settings: SafetySettings,
        statements: Vec<String>,
    },
    Attempt { context: ScriptContext, statements: Vec<String> },
    Connection { context: ScriptContext, statements: Vec<String> },
    Backend { context: ScriptContext, statements: Vec<String> },
}

/// What the checks ask of the outside world.
#[derive(PartialEq, Eq)]
pub enum ScriptRunRequest {
    /// Look the connection up in the current scope and hold on to that scope.
    PinConnection { connection_id: u128 },
    /// Load the safety settings.
    LoadSafety { connection_id: u128 },
    /// Classify these statements, one by one, up to the first that cannot be classified.
    ClassifyStatements { engine: Engine, statements: Vec<String> },
    /// Write this row to the audit chain.
    RecordAttempt { record: AuditRecord },
    /// Connect the pinned connection.
    Connect { access: ConnectionAccess },
    /// Take the connection's SQL backend.
    OpenBackend,
}

/// What the outside world answers.
#[derive(PartialEq, Eq)]
pub enum ScriptRunReply {
    Pin(Result<PinnedConnection, AppError>),
    Safety(Result<SafetySettings, AppError>),
    /// The kind of each statement.
    Classification(Result<Vec<QueryKind>, AppError>),
    /// The error comes as it is printed.
    Attempt(Result<(), String>),
    Connection(Result<(), AppError>),
    Backend(Result<(), AppError>),
}

/// A step of the checks.
pub type ScriptRunStep = Step<ScriptRun, ScriptRunRequest, ScriptRunEnd>;

/// What follows an answer during the checks.
pub type ScriptRunTurn = Turn<ScriptRun, ScriptRunRequest, ScriptRunEnd>;

/// A refusal in the scope of the request.
pub open spec fn scoped(error: AppError) -> ScriptRunTurn {
    Turn::Done(Err(DesktopScriptRunError::Scoped(DesktopScriptScopedFailure { error })))
}

fn refuse(error: AppError) -> (r: ScriptRunStep)
    ensures
        r.says((Seq::empty(), scoped(error))),
{
    done(Err(DesktopScriptRunError::Scoped(DesktopScriptScopedFailure { error })))
}

/// What follows once the connection was looked up.
pub open spec fn after_pin(
    request: DesktopScriptRunRequest,
    reply: Result<PinnedConnection, AppError>,
) -> (Seq<Effect>, ScriptRunTurn) {
    (
        Seq::empty(),
        match reply {
            Err(error) => scoped(error),
            Ok(pin) => Turn::Ask {
                state: ScriptRun::Safety { request, pin },
                request: ScriptRunRequest::LoadSafety { connection_id: request.connection_id },
            },
        },
    )
}

fn take_pin(request: DesktopScriptRunRequest, reply: Result<PinnedConnection, AppError>) -> (r:
    ScriptRunStep)
    ensures
        r.says(after_pin(request, reply)),
{
    match reply {
        Err(error) => refuse(error),
        Ok(pin) => {
            let connection_id = request.connection_id;
            ask(
                ScriptRun::Safety { request, pin },
                ScriptRunRequest::LoadSafety { connection_id },
            )
        },
    }
}

/// Whether `step` follows once the safety settings were loaded: the script is split, and
/// its statements, if it holds any, are to be classified.
pub open spec fn follows_safety(
    request: DesktopScriptRunRequest,
    pin: PinnedConnection,
    reply: Result<SafetySettings, AppError>,
    step: ScriptRunStep,
) -> bool {
    let found = script_statements(request.sql@, pin.profile.engine == Engine::Mysql);
    match reply {
        Err(error) => step.says((Seq::empty(), scoped(error))),
        Ok(settings) => if found.len() == 0 {
            step.says(
                (
                    Seq::empty(),
                    scoped(
                        AppError::Config(Text::Plain("no executable statements in the script")),
                    ),
                ),
            )
        } else {
            &&& step.effects@ == Seq::<Effect>::empty()
            &&& step.turn matches Turn::Ask { state, request: question }
            &&& question matches ScriptRunRequest::ClassifyStatements {
                engine,
                statements: handed,
            }
            &&& engine == pin.profile.engine
            &&& state matches ScriptRun::Classification {
                request: kept,
                pin: kept_pin,
                settings: kept_settings,
                statements,
            }
            &&& kept == request && kept_pin == pin && kept_settings == settings
            &&& texts(statements@) == found
            &&& handed@ == statements@
        },
    }
}

fn take_safety(
    request: DesktopScriptRunRequest,
    pin: PinnedConnection,
    reply: Result<SafetySettings, AppError>,
) -> (r: ScriptRunStep)
    ensures
        follows_safety(request, pin, reply, r),
{
    match reply {
        Err(error) => refuse(error),
        Ok(settings) => {
            let engine = pin.profile.engine;
            let statements = split_statements(request.sql.as_str(), engine);
            assert(texts(statements@).len() == statements@.len());
            if statements.len() == 0 {
                return refuse(
                    AppError::Config(Text::Plain("no executable statements in the script")),
                );
            }
            let handed = duplicate_texts(&statements);
            ask(
                ScriptRun::Classification { request, pin, settings, statements },
                ScriptRunRequest::ClassifyStatements { engine, statements: handed },
            )
        },
    }
}

/// The refusal of a script, which the rows record too.
pub open spec fn recorded_refusal(
    request: DesktopScriptRunRequest,
    pin: PinnedConnection,
    kind: QueryKind,
    reason: &'static str,
) -> (Seq<Effect>, ScriptRunTurn) {
    (
        script_rows(
            request,
            pin,
            kind,
            "blocked",
            "blocked",
            None,
            Some(Note::Said(Text::Plain(reason))),
        ),
        scoped(AppError::Blocked { reason: Text::Plain(reason) }),
    )
}

fn refuse_and_record(
    request: &DesktopScriptRunRequest,
    pin: &PinnedConnection,
    kind: QueryKind,
    reason: &'static str,
) -> (r: ScriptRunStep)
    ensures
        r.says(recorded_refusal(*request, *pin, kind, reason)),
{
    let mut effects: Vec<Effect> = Vec::new();
    record(
        &mut effects,
        request,
        pin,
        kind,
        "blocked",
        "blocked",
        None,
        Some(Note::Said(Text::Plain(reason))),
    );
    Step {
        effects,
        turn: Turn::Done(
            Err(
                DesktopScriptRunError::Scoped(
                    DesktopScriptScopedFailure {
                        error: AppError::Blocked { reason: Text::Plain(reason) },
                    },
                ),
            ),
        ),
    }
}

/// The audit row that precedes a script that writes.
pub open spec fn attempt_of(context: ScriptContext) -> AuditRecord {
    AuditRecord {
        connection_id: context.request.connection_id,
        engine: context.pin.profile.engine,
        sql: context.request.sql,
        kind: script_kind(context.kinds@),
        action: Text::Plain("script:execute:attempt"),
        approved_by: None,
        affected_estimate: None,
        error: None,
    }
}

/// What follows once the statements were classified. A script of reads needs approval
/// where reads do not run by themselves; a script that writes needs a role that may write,
/// a connection with writes enabled, and approval.
pub open spec fn after_classification(
    request: DesktopScriptRunRequest,
    pin: PinnedConnection,
    settings: SafetySettings,
    statements: Vec<String>,
    reply: Result<Vec<QueryKind>, AppError>,
) -> (Seq<Effect>, ScriptRunTurn) {
    match reply {
        Err(error) => (Seq::empty(), scoped(error)),
        Ok(kinds) => {
            let context = ScriptContext { request, pin, settings, kinds };
            if !has_write(kinds@) {
                if !settings.auto_run_reads && !request.approved {
                    recorded_refusal(
                        request,
                        pin,
                        QueryKind::Read,
                        "reads require approval for this connection",
                    )
                } else {
                    (
                        Seq::empty(),
                        Turn::Ask {
                            state: ScriptRun::Connection { context, statements },
                            request: ScriptRunRequest::Connect { access: ConnectionAccess::Read },
                        },
                    )
                }
            } else if !pin.profile.workspace_access.spec_can_write() {
                (
                    Seq::empty(),
                    scoped(
                        AppError::Blocked {
                            reason: Text::Plain(
                                "your workspace role grants read-only database access",
                            ),
                        },
                    ),
                )
            } else if !settings.allow_writes {
                recorded_refusal(
                    request,
                    pin,
                    QueryKind::Write,
                    "writing is disabled for this connection (writes are off by default). Enable writes in the connection's safety settings to run this script.",
                )
            } else if !request.approved {
                recorded_refusal(
                    request,
                    pin,
                    QueryKind::Write,
                    "this script modifies data and requires explicit approval",
                )
            } else {
                (
                    Seq::empty(),
                    Turn::Ask {
                        state: ScriptRun::Attempt { context, statements },
                        request: ScriptRunRequest::RecordAttempt { record: attempt_of(context) },
                    },
                )
            }
        },
    }
}

fn take_classification(
    request: DesktopScriptRunRequest,
    pin: PinnedConnection,
    settings: SafetySettings,
    statements: Vec<String>,
    reply: Result<Vec<QueryKind>, AppError>,
) -> (r: ScriptRunStep)
    ensures
        r.says(after_classification(request, pin, settings, statements, reply)),
{
    let kinds = match reply {
        Err(error) => {
            return refuse(error);
        },
        Ok(kinds) => kinds,
    };
    if !script_has_write(kinds.as_slice()) {
        if !settings.auto_run_reads && !request.approved {
            return refuse_and_record(
                &request,
                &pin,
                QueryKind::Read,
                "reads require approval for this connection",
            );
        }
        return ask(
            ScriptRun::Connection {
                context: ScriptContext { request, pin, settings, kinds },
                statements,
            },
            ScriptRunRequest::Connect { access: ConnectionAccess::Read },
        );
    }
    if !pin.profile.workspace_access.can_write() {
        return refuse(
            AppError::Blocked {
                reason: Text::Plain("your workspace role grants read-only database access"),
            },
        );
    }
    if !settings.allow_writes {
        return refuse_and_record(
            &request,
            &pin,
            QueryKind::Write,
            "writing is disabled for this connection (writes are off by default). Enable writes in the connection's safety settings to run this script.",
        );
    }
    if !request.approved {
        return refuse_and_record(
            &request,
            &pin,
            QueryKind::Write,
            "this script modifies data and requires explicit approval",
        );
    }
    let record = AuditRecord {
        connection_id: request.connection_id,
        engine: pin.profile.engine,
        sql: request.sql.clone(),
        kind: kind_of_script(kinds.as_slice()),
        action: Text::Plain("script:execute:attempt"),
        approved_by: None,
        affected_estimate: None,
        error: None,
    };
    ask(
        ScriptRun::Attempt { context: ScriptContext { request, pin, settings, kinds }, statements },
        ScriptRunRequest::RecordAttempt { record },
    )
}

/// What follows once the attempt was written to the audit chain.
pub open spec fn after_attempt(
    context: ScriptContext,
    statements: Vec<String>,
    reply: Result<(), String>,
) -> (Seq<Effect>, ScriptRunTurn) {
    (
        Seq::empty(),
        match reply {
            Err(printed) => scoped(
                AppError::Config(
                    Text::WithText(
                        "audit pre-record failed — refusing to run script: ",
                        printed,
                        "",
                    ),
                ),
            ),
            Ok(_) => Turn::Ask {
                state: ScriptRun::Connection { context, statements },
                request: ScriptRunRequest::Connect { access: ConnectionAccess::Write },
            },
        },
    )
}

fn take_attempt(context: ScriptContext, statements: Vec<String>, reply: Result<(), String>) -> (r:
    ScriptRunStep)
    ensures
        r.says(after_attempt(context, statements, reply)),
{
    match reply {
        Err(printed) => refuse(
            AppError::Config(
                Text::WithText("audit pre-record failed — refusing to run script: ", printed, ""),
            ),
        ),
        Ok(_) => ask(
            ScriptRun::Connection { context, statements },
            ScriptRunRequest::Connect { access: ConnectionAccess::Write },
        ),
    }
}

impl ScriptContext {
    /// What the script is recorded as.
    pub open spec fn kind(self) -> QueryKind {
        if has_write(self.kinds@) {
            script_kind(self.kinds@)
        } else {
            QueryKind::Read
        }
    }

    /// The rows of a script that failed as a whole.
    pub open spec fn failure_rows(self, error: AppError) -> Seq<Effect> {
        script_rows(
            self.request,
            self.pin,
            self.kind(),
            "script:execute",
            "error",
            None,
            Some(Note::Error(error)),
        )
    }

    fn recorded_kind(&self) -> (r: QueryKind)
        ensures
            r == self.kind(),
    {
        if script_has_write(self.kinds.as_slice()) {
            kind_of_script(self.kinds.as_slice())
        } else {
            QueryKind::Read
        }
    }

    fn record_failure(&self, error: &AppError) -> (r: Vec<Effect>)
        ensures
            r@ == self.failure_rows(*error),
    {
        let mut effects: Vec<Effect> = Vec::new();
        record(
            &mut effects,
            &self.request,
            &self.pin,
            self.recorded_kind(),
            "script:execute",
            "error",
            None,
            Some(Note::Error(error.duplicate())),
        );
        assert(effects@ =~= self.failure_rows(*error));
        effects
    }
}

/// What follows once the target was connected.
pub open spec fn after_connection(
    context: ScriptContext,
    statements: Vec<String>,
    reply: Result<(), AppError>,
) -> (Seq<Effect>, ScriptRunTurn) {
    match reply {
        Err(error) => (
            context.failure_rows(error),
            Turn::Done(Err(DesktopScriptRunError::Application(error))),
        ),
        Ok(_) => (
            Seq::empty(),
            Turn::Ask {
                state: ScriptRun::Backend { context, statements },
                request: ScriptRunRequest::OpenBackend,
            },
        ),
    }
}

fn take_connection(
    context: ScriptContext,
    statements: Vec<String>,
    reply: Result<(), AppError>,
) -> (r: ScriptRunStep)
    ensures
        r.says(after_connection(context, statements, reply)),
{
    match reply {
        Err(error) => Step {
            effects: context.record_failure(&error),
            turn: Turn::Done(Err(DesktopScriptRunError::Application(error))),
        },
        Ok(_) => ask(ScriptRun::Backend { context, statements }, ScriptRunRequest::OpenBackend),
    }
}

/// What follows once the backend was opened. A script of reads that cannot be run for want
/// of a backend leaves no rows; one that writes does.
pub open spec fn after_backend(
    context: ScriptContext,
    statements: Vec<String>,
    reply: Result<(), AppError>,
) -> (Seq<Effect>, ScriptRunTurn) {
    match reply {
        Err(error) => (
            if has_write(context.kinds@) {
                context.failure_rows(error)
            } else {
                Seq::empty()
            },
            Turn::Done(
                Err(DesktopScriptRunError::Execution(DesktopScriptExecutionFailure { error })),
            ),
        ),
        Ok(_) => (
            Seq::empty(),
            Turn::Done(
                Ok(
                    if has_write(context.kinds@) {
                        ReadyScript::Writes { context, statements }
                    } else {
                        ReadyScript::Reads { context, statements }
                    },
                ),
            ),
        ),
    }
}

fn take_backend(context: ScriptContext, statements: Vec<String>, reply: Result<(), AppError>) -> (r:
    ScriptRunStep)
    ensures
        r.says(after_backend(context, statements, reply)),
{
    let writes = script_has_write(context.kinds.as_slice());
    match reply {
        Err(error) => {
            let effects: Vec<Effect> = if writes {
                context.record_failure(&error)
            } else {
                Vec::new()
            };
            Step {
                effects,
                turn: Turn::Done(
                    Err(DesktopScriptRunError::Execution(DesktopScriptExecutionFailure { error })),
                ),
            }
        },
        Ok(_) => {
            if writes {
                done(Ok(ReadyScript::Writes { context, statements }))
            } else {
                done(Ok(ReadyScript::Reads { context, statements }))
            }
        },
    }
}

impl ScriptRun {
    /// Whether `reply` answers what is awaited. There is one kind for each statement.
    pub open spec fn awaits(self, reply: ScriptRunReply) -> bool {
        match self {
            ScriptRun::Pin { .. } => reply is Pin,
            ScriptRun::Safety { .. } => reply is Safety,
            ScriptRun::Classification { statements, .. } => {
                &&& reply matches ScriptRunReply::Classification(kinds)
                &&& kinds matches Ok(kinds) ==> kinds@.len() == statements@.len()
            },
            ScriptRun::Attempt { .. } => reply is Attempt,
            ScriptRun::Connection { .. } => reply is Connection,
            ScriptRun::Backend { .. } => reply is Backend,
        }
    }

    /// Whether `step` is what follows `reply`.
    pub open spec fn follows(self, reply: ScriptRunReply, step: ScriptRunStep) -> bool {
        match self {
            ScriptRun::Pin { request } => step.says(after_pin(request, reply->Pin_0)),
            ScriptRun::Safety { request, pin } => follows_safety(
                request,
                pin,
                reply->Safety_0,
                step,
            ),
            ScriptRun::Classification { request, pin, settings, statements } => step.says(
                after_classification(request, pin, settings, statements, reply->Classification_0),
            ),
            ScriptRun::Attempt { context, statements } => step.says(
                after_attempt(context, statements, reply->Attempt_0),
            ),
            ScriptRun::Connection { context, statements } => step.says(
                after_connection(context, statements, reply->Connection_0),
            ),
            ScriptRun::Backend { context, statements } => step.says(
                after_backend(context, statements, reply->Backend_0),
            ),
        }
    }

    /// Begins the checks.
    pub fn start(request: DesktopScriptRunRequest) -> (r: ScriptRunStep)
        ensures
            r.says(
                (
                    Seq::empty(),
                    Turn::Ask {
                        state: ScriptRun::Pin { request },
                        request: ScriptRunRequest::PinConnection {
                            connection_id: request.connection_id,
                        },
                    },
                ),
            ),
    {
        let connection_id = request.connection_id;
        ask(ScriptRun::Pin { request }, ScriptRunRequest::PinConnection { connection_id })
    }

    /// Takes the answer to the last question.
    pub fn advance(self, reply: ScriptRunReply) -> (r: ScriptRunStep)
        requires
            self.awaits(reply),
        ensures
            self.follows(reply, r),
    {
        match (self, reply) {
            (ScriptRun::Pin { request }, ScriptRunReply::Pin(reply)) => take_pin(request, reply),
            (ScriptRun::Safety { request, pin }, ScriptRunReply::Safety(reply)) => take_safety(
                request,
                pin,
                reply,
            ),
            (
                ScriptRun::Classification { request, pin, settings, statements },
                ScriptRunReply::Classification(reply),
            ) => take_classification(request, pin, settings, statements, reply),
            (ScriptRun::Attempt { context, statements }, ScriptRunReply::Attempt(reply)) =>
            take_attempt(context, statements, reply),
            (ScriptRun::Connection { context, statements }, ScriptRunReply::Connection(reply)) =>
            take_connection(context, statements, reply),
            (ScriptRun::Backend { context, statements }, ScriptRunReply::Backend(reply)) =>
            take_backend(context, statements, reply),
            _ => unreached(),
        }
    }
}

/// Closes a script of reads that has run.
pub fn close_reads(context: &ScriptContext, reads: ReadScript) -> (r: ClosedScript)
    requires
        reads.wf(),
        reads.finished(),
    ensures
        r.effects@ == script_rows(
            context.request,
            context.pin,
            QueryKind::Read,
            "script:execute",
            if reads.failure is Some {
                "error"
            } else {
                "ok"
            },
            Some(reads.total),
            match reads.failure {
                Some(message) => Some(Note::Said(Text::Owned(message))),
                None => None,
            },
        ),
        r.outcome == (ScriptOutcome {
            statements: reads.outcomes,
            committed: false,
            all_reads: true,
        }),
{
    let mut effects: Vec<Effect> = Vec::new();
    let (status, error) = match reads.failure {
        Some(message) => ("error", Some(Note::Said(Text::Owned(message)))),
        None => ("ok", None),
    };
    let ghost note = error;
    record(
        &mut effects,
        &context.request,
        &context.pin,
        QueryKind::Read,
        "script:execute",
        status,
        Some(reads.total),
        error,
    );
    assert(effects@ =~= script_rows(
        context.request,
        context.pin,
        QueryKind::Read,
        "script:execute",
        status,
        Some(reads.total),
        note,
    ));
    ClosedScript {
        effects,
        outcome: ScriptOutcome { statements: reads.outcomes, committed: false, all_reads: true },
    }
}

/// What is written down about a transaction that has come to its end.
pub open spec fn transaction_effects(context: ScriptContext, transaction: Transaction) -> Seq<
    Effect,
> {
    let committed = transaction.phase == TransactionPhase::Committed;
    (if committed && has_kind(context.kinds@, QueryKind::Ddl) {
        seq![Effect::ClearSchemaCache { connection_id: context.request.connection_id }]
    } else {
        seq![]
    }) + script_rows(
        context.request,
        context.pin,
        script_kind(context.kinds@),
        "script:execute",
        if committed {
            "ok"
        } else {
            "error"
        },
        Some(affected_total(transaction.outcomes@) as i64),
        match first_error(transaction.outcomes@) {
            Some(error) => Some(Note::Said(error)),
            None => None,
        },
    )
}

/// Closes a script whose transaction has come to its end.
pub fn close_transaction(context: &ScriptContext, transaction: Transaction) -> (r: ClosedScript)
    requires
        transaction.wf(),
        transaction.phase == TransactionPhase::Committed || transaction.phase
            == TransactionPhase::Aborted,
        sums_fit(transaction.outcomes@),
    ensures
        r.effects@ == transaction_effects(*context, transaction),
        r.outcome == (ScriptOutcome {
            statements: transaction.outcomes,
            committed: transaction.phase == TransactionPhase::Committed,
            all_reads: false,
        }),
{
    let committed = transaction.phase == TransactionPhase::Committed;
    let mut effects: Vec<Effect> = Vec::new();
    if committed && contains_kind(context.kinds.as_slice(), QueryKind::Ddl) {
        effects.push(
            Effect::ClearSchemaCache { connection_id: context.request.connection_id },
        );
    }
    let ghost before = effects@;
    let total: i64 = sum_affected(&transaction.outcomes);
    let error = match find_error(&transaction.outcomes) {
        Some(error) => Some(Note::Said(error)),
        None => None,
    };
    record(
        &mut effects,
        &context.request,
        &context.pin,
        kind_of_script(context.kinds.as_slice()),
        "script:execute",
        if committed {
            "ok"
        } else {
            "error"
        },
        Some(total),
        error,
    );
    assert(effects@ =~= transaction_effects(*context, transaction));
    ClosedScript {
        effects,
        outcome: ScriptOutcome {
            statements: transaction.outcomes,
            committed,
            all_reads: false,
        },
    }
}

/// Closes a script whose transaction was cancelled or took too long.
pub fn close_interrupted(context: &ScriptContext, error: AppError) -> (r: (
    Vec<Effect>,
    DesktopScriptRunError,
))
    ensures
        r.0@ == context.failure_rows(error),
        r.1 == DesktopScriptRunError::Execution(DesktopScriptExecutionFailure { error }),
{
    let effects = context.record_failure(&error);
    (effects, DesktopScriptRunError::Execution(DesktopScriptExecutionFailure { error }))
}

/// A script that writes is connected for writing only once it is approved, on a connection
/// with writes enabled, under a role that may write, and with its attempt in the audit
/// chain: no other turn of the checks asks for such a connection.
pub proof fn writing_is_approved_and_announced(
    state: ScriptRun,
    reply: ScriptRunReply,
    step: ScriptRunStep,
)
    requires
        state.awaits(reply),
        state.follows(reply, step),
        step.turn matches Turn::Ask {
            request: ScriptRunRequest::Connect { access: ConnectionAccess::Write },
            ..
        },
    ensures
        state is Attempt && (reply matches ScriptRunReply::Attempt(Ok(_))),
{
}

/// The checks reach the point of announcing an attempt only for an approved script that
/// writes, on a connection with writes enabled, under a role that may write.
pub proof fn only_approved_writes_are_announced(
    state: ScriptRun,
    reply: ScriptRunReply,
    step: ScriptRunStep,
)
    requires
        state.awaits(reply),
        state.follows(reply, step),
        step.turn matches Turn::Ask { state: ScriptRun::Attempt { .. }, .. },
    ensures
        step.turn matches Turn::Ask { state: ScriptRun::Attempt { context, .. }, .. } && {
            &&& has_write(context.kinds@)
            &&& context.request.approved
            &&& context.settings.allow_writes
            &&& context.pin.profile.workspace_access.spec_can_write()
        },
{
}

} // verus!
