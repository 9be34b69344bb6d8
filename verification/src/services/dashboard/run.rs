//! Running a saved dashboard again.
use vstd::pervasive::unreached;
use vstd::prelude::*;

use crate::error::AppError;
use crate::model::{ConnectionAccess, Dashboard, Engine, QueryKind, SafetySettings};
use crate::operations::PinnedConnection;
use crate::services::document::shared::{bounded_desktop_rows, desktop_cap};
use crate::services::effects::{
    ask, done, duplicate_note, AuditRecord, Effect, HistoryRecord, Note, Step, Turn,
};
use crate::services::query::desktop_run::ResultSize;
use crate::text::Text;

verus! {

/// What is asked to run.
#[derive(Debug, Clone, Copy, PartialEq, Eq, Structural)]
pub struct DashboardRunRequest {
    pub dashboard_id: u128,
    pub query_id: Option<u128>,
}

/// A failure before the target was connected.
#[derive(PartialEq, Eq)]
pub struct DashboardRunScopedFailure {
    pub error: AppError,
}

impl DashboardRunScopedFailure {
    /// The failure as an application error.
    pub fn into_error(self) -> (r: AppError)
        ensures
            r == self.error,
    {
        self.error
    }
}

/// A failure after the target was connected.
#[derive(PartialEq, Eq)]
pub struct DashboardRunExecutionFailure {
    pub error: AppError,
}

impl DashboardRunExecutionFailure {
    /// The failure as an application error.
    pub fn into_error(self) -> (r: AppError)
        ensures
            r == self.error,
    {
        self.error
    }
}

/// Why a dashboard did not run.
#[derive(PartialEq, Eq)]
pub enum DashboardRunError {
    Application(AppError),
    Scoped(DashboardRunScopedFailure),
    Execution(DashboardRunExecutionFailure),
}

impl DashboardRunError {
    /// The error that the failure stands for.
    pub open spec fn error(self) -> AppError {
        match self {
            DashboardRunError::Application(error) => error,
            DashboardRunError::Scoped(failure) => failure.error,
            DashboardRunError::Execution(failure) => failure.error,
        }
    }

    /// The failure as an application error.
    pub fn into_error(self) -> (r: AppError)
        ensures
            r == self.error(),
    {
        match self {
            DashboardRunError::Application(error) => error,
            DashboardRunError::Scoped(failure) => failure.into_error(),
            DashboardRunError::Execution(failure) => failure.into_error(),
        }
    }
}

/// The rows of a run.
pub open spec fn run_rows(
    pin: PinnedConnection,
    sql: String,
    kind: QueryKind,
    status: &'static str,
    row_count: Option<i64>,
    duration_ms: Option<i64>,
    error: Option<Note>,
) -> Seq<Effect> {
    seq![
        Effect::Audit(
            AuditRecord {
                connection_id: pin.connection_id,
                engine: pin.profile.engine,
                sql,
                kind,
                action: Text::Plain("dashboard:run"),
                approved_by: None,
                affected_estimate: row_count,
                error,
            },
        ),
        Effect::History(
            HistoryRecord {
                connection_id: pin.connection_id,
                sql,
                kind,
                status,
                row_count,
                duration_ms,
                error,
                origin: Text::Plain("dashboard"),
            },
        ),
    ]
}

fn record(
    pin: &PinnedConnection,
    sql: &String,
    kind: QueryKind,
    status: &'static str,
    row_count: Option<i64>,
    duration_ms: Option<i64>,
    error: Option<Note>,
) -> (r: Vec<Effect>)
    ensures
        r@ == run_rows(*pin, *sql, kind, status, row_count, duration_ms, error),
{
    let mut effects: Vec<Effect> = Vec::new();
    effects.push(
        Effect::Audit(
            AuditRecord {
                connection_id: pin.connection_id,
                engine: pin.profile.engine,
                sql: sql.clone(),
                kind,
                action: Text::Plain("dashboard:run"),
                approved_by: None,
                affected_estimate: row_count,
                error: duplicate_note(&error),
            },
        ),
    );
    let ghost note = error;
    effects.push(
        Effect::History(
            HistoryRecord {
                connection_id: pin.connection_id,
                sql: sql.clone(),
                kind,
                status,
                row_count,
                duration_ms,
                error,
                origin: Text::Plain("dashboard"),
            },
        ),
    );
    assert(effects@ =~= run_rows(*pin, *sql, kind, status, row_count, duration_ms, note));
    effects
}

/// What is wrong with a stored dashboard.
#[derive(PartialEq, Eq)]
pub struct InvalidDashboard {
    pub error: AppError,
    /// The kind of its SQL, if it could be classified.
    pub kind: Option<QueryKind>,
}

/// How a run ends.
pub type DashboardRunEnd = Result<ResultSize, DashboardRunError>;

/// Where a run stands: what it is waiting to hear.
#[derive(PartialEq, Eq)]
pub enum DashboardRun {
    Load { request: DashboardRunRequest },
    Pin { request: DashboardRunRequest, dashboard: Dashboard },
    Validation { request: DashboardRunRequest, dashboard: Dashboard, pin: PinnedConnection },
    Safety { request: DashboardRunRequest, dashboard: Dashboard, pin: PinnedConnection },
    Connection {
        request: DashboardRunRequest,
        dashboard: Dashboard,
        pin: PinnedConnection,
        max_rows: u64,
    },
    Backend {
        request: DashboardRunRequest,
        dashboard: Dashboard,
        pin: PinnedConnection,
        max_rows: u64,
    },
    Execution { dashboard: Dashboard, pin: PinnedConnection },
}

/// What a run asks of the outside world.
#[derive(PartialEq, Eq)]
pub enum DashboardRunQuestion {
    /// Load the dashboard, and hold on to the scope it was found in.
    LoadDashboard { dashboard_id: u128 },
    /// Look its connection up in that scope.
    PinConnection { connection_id: u128 },
    /// Validate the dashboard that the state holds for this engine.
    Validate { engine: Engine },
    /// Load the safety settings.
    LoadSafety { connection_id: u128 },
    /// Connect the pinned connection.
    Connect { access: ConnectionAccess },
    /// Take the connection's SQL backend.
    OpenBackend,
    /// Run the SQL in a read-only session, such that it can be cancelled under its id, and
    /// fetch at most so many rows.
    RunReadOnly { sql: String, max_rows: u64, query_id: Option<u128> },
}

/// What the outside world answers.
#[derive(PartialEq, Eq)]
pub enum DashboardRunReply {
    Load(Result<Dashboard, AppError>),
    Pin(Result<PinnedConnection, AppError>),
    Validation(Result<(), InvalidDashboard>),
    Safety(Result<SafetySettings, AppError>),
    Connection(Result<(), AppError>),
    Backend(Result<(), AppError>),
    Execution(Result<ResultSize, AppError>),
}

/// A step of a run.
pub type DashboardRunStep = Step<DashboardRun, DashboardRunQuestion, DashboardRunEnd>;

/// What follows an answer in a run.
pub type DashboardRunTurn = Turn<DashboardRun, DashboardRunQuestion, DashboardRunEnd>;

/// The end of a run that failed in its scope.
pub open spec fn scoped(error: AppError) -> DashboardRunTurn {
    Turn::Done(Err(DashboardRunError::Scoped(DashboardRunScopedFailure { error })))
}

fn fail(error: AppError) -> (r: DashboardRunStep)
    ensures
        r.says((Seq::empty(), scoped(error))),
{
    done(Err(DashboardRunError::Scoped(DashboardRunScopedFailure { error })))
}

/// What follows once the dashboard was loaded.
pub open spec fn after_load(request: DashboardRunRequest, reply: Result<Dashboard, AppError>) -> (
    Seq<Effect>,
    DashboardRunTurn,
) {
    (
        Seq::empty(),
        match reply {
            Err(error) => scoped(error),
            Ok(dashboard) => Turn::Ask {
                state: DashboardRun::Pin { request, dashboard },
                request: DashboardRunQuestion::PinConnection {
                    connection_id: dashboard.connection_id,
                },
            },
        },
    )
}

fn take_load(request: DashboardRunRequest, reply: Result<Dashboard, AppError>) -> (r:
    DashboardRunStep)
    ensures
        r.says(after_load(request, reply)),
{
    match reply {
        Err(error) => fail(error),
        Ok(dashboard) => {
            let connection_id = dashboard.connection_id;
            ask(
                DashboardRun::Pin { request, dashboard },
                DashboardRunQuestion::PinConnection { connection_id },
            )
        },
    }
}

/// What follows once the connection was looked up.
pub open spec fn after_pin(
    request: DashboardRunRequest,
    dashboard: Dashboard,
    reply: Result<PinnedConnection, AppError>,
) -> (Seq<Effect>, DashboardRunTurn) {
    (
        Seq::empty(),
        match reply {
            Err(error) => scoped(error),
            Ok(pin) => Turn::Ask {
                state: DashboardRun::Validation { request, dashboard, pin },
                request: DashboardRunQuestion::Validate { engine: pin.profile.engine },
            },
        },
    )
}

fn take_pin(
    request: DashboardRunRequest,
    dashboard: Dashboard,
    reply: Result<PinnedConnection, AppError>,
) -> (r: DashboardRunStep)
    ensures
        r.says(after_pin(request, dashboard, reply)),
{
    match reply {
        Err(error) => fail(error),
        Ok(pin) => {
            let engine = pin.profile.engine;
            ask(
                DashboardRun::Validation { request, dashboard, pin },
                DashboardRunQuestion::Validate { engine },
            )
        },
    }
}

/// What follows once the dashboard was validated for the engine as it is today. SQL that
/// cannot even be classified is recorded as a write.
pub open spec fn after_validation(
    request: DashboardRunRequest,
    dashboard: Dashboard,
    pin: PinnedConnection,
    reply: Result<(), InvalidDashboard>,
) -> (Seq<Effect>, DashboardRunTurn) {
    match reply {
        Err(invalid) => (
            run_rows(
                pin,
                dashboard.sql,
                match invalid.kind {
                    Some(kind) => kind,
                    None => QueryKind::Write,
                },
                "blocked",
                None,
                None,
                Some(Note::Error(invalid.error)),
            ),
            scoped(invalid.error),
        ),
        Ok(_) => (
            Seq::empty(),
            Turn::Ask {
                state: DashboardRun::Safety { request, dashboard, pin },
                request: DashboardRunQuestion::LoadSafety {
                    connection_id: dashboard.connection_id,
                },
            },
        ),
    }
}

fn take_validation(
    request: DashboardRunRequest,
    dashboard: Dashboard,
    pin: PinnedConnection,
    reply: Result<(), InvalidDashboard>,
) -> (r: DashboardRunStep)
    ensures
        r.says(after_validation(request, dashboard, pin, reply)),
{
    match reply {
        Err(invalid) => {
            let kind = match invalid.kind {
                Some(kind) => kind,
                None => QueryKind::Write,
            };
            let error = invalid.error;
            let effects = record(
                &pin,
                &dashboard.sql,
                kind,
                "blocked",
                None,
                None,
                Some(Note::Error(error.duplicate())),
            );
            Step {
                effects,
                turn: Turn::Done(
                    Err(DashboardRunError::Scoped(DashboardRunScopedFailure { error })),
                ),
            }
        },
        Ok(_) => {
            let connection_id = dashboard.connection_id;
            ask(
                DashboardRun::Safety { request, dashboard, pin },
                DashboardRunQuestion::LoadSafety { connection_id },
            )
        },
    }
}

/// What follows once the safety settings were loaded.
pub open spec fn after_safety(
    request: DashboardRunRequest,
    dashboard: Dashboard,
    pin: PinnedConnection,
    reply: Result<SafetySettings, AppError>,
) -> (Seq<Effect>, DashboardRunTurn) {
    (
        Seq::empty(),
        match reply {
            Err(error) => scoped(error),
            Ok(settings) => Turn::Ask {
                state: DashboardRun::Connection {
                    request,
                    dashboard,
                    pin,
                    max_rows: desktop_cap(settings.max_rows),
                },
                request: DashboardRunQuestion::Connect { access: ConnectionAccess::Read },
            },
        },
    )
}

fn take_safety(
    request: DashboardRunRequest,
    dashboard: Dashboard,
    pin: PinnedConnection,
    reply: Result<SafetySettings, AppError>,
) -> (r: DashboardRunStep)
    ensures
        r.says(after_safety(request, dashboard, pin, reply)),
{
    match reply {
        Err(error) => fail(error),
        Ok(settings) => ask(
            DashboardRun::Connection {
                request,
                dashboard,
                pin,
                max_rows: bounded_desktop_rows(settings.max_rows),
            },
            DashboardRunQuestion::Connect { access: ConnectionAccess::Read },
        ),
    }
}

/// The rows of a run that failed on its way to the data.
pub open spec fn failure_rows(dashboard: Dashboard, pin: PinnedConnection, error: AppError) -> Seq<
    Effect,
> {
    run_rows(
        pin,
        dashboard.sql,
        QueryKind::Read,
        "error",
        None,
        None,
        Some(Note::Error(error)),
    )
}

/// What follows once the target was connected.
pub open spec fn after_connection(
    request: DashboardRunRequest,
    dashboard: Dashboard,
    pin: PinnedConnection,
    max_rows: u64,
    reply: Result<(), AppError>,
) -> (Seq<Effect>, DashboardRunTurn) {
    match reply {
        Err(error) => (
            failure_rows(dashboard, pin, error),
            Turn::Done(Err(DashboardRunError::Application(error))),
        ),
        Ok(_) => (
            Seq::empty(),
            Turn::Ask {
                state: DashboardRun::Backend { request, dashboard, pin, max_rows },
                request: DashboardRunQuestion::OpenBackend,
            },
        ),
    }
}

fn take_connection(
    request: DashboardRunRequest,
    dashboard: Dashboard,
    pin: PinnedConnection,
    max_rows: u64,
    reply: Result<(), AppError>,
) -> (r: DashboardRunStep)
    ensures
        r.says(after_connection(request, dashboard, pin, max_rows, reply)),
{
    match reply {
        Err(error) => Step {
            effects: record(
                &pin,
                &dashboard.sql,
                QueryKind::Read,
                "error",
                None,
                None,
                Some(Note::Error(error.duplicate())),
            ),
            turn: Turn::Done(Err(DashboardRunError::Application(error))),
        },
        Ok(_) => ask(
            DashboardRun::Backend { request, dashboard, pin, max_rows },
            DashboardRunQuestion::OpenBackend,
        ),
    }
}

/// What follows once the backend was opened.
pub open spec fn after_backend(
    request: DashboardRunRequest,
    dashboard: Dashboard,
    pin: PinnedConnection,
    max_rows: u64,
    reply: Result<(), AppError>,
) -> (Seq<Effect>, DashboardRunTurn) {
    (
        Seq::empty(),
        match reply {
            Err(error) => Turn::Done(
                Err(DashboardRunError::Execution(DashboardRunExecutionFailure { error })),
            ),
            Ok(_) => Turn::Ask {
                state: DashboardRun::Execution { dashboard, pin },
                request: DashboardRunQuestion::RunReadOnly {
                    sql: dashboard.sql,
                    max_rows,
                    query_id: request.query_id,
                },
            },
        },
    )
}

fn take_backend(
    request: DashboardRunRequest,
    dashboard: Dashboard,
    pin: PinnedConnection,
    max_rows: u64,
    reply: Result<(), AppError>,
) -> (r: DashboardRunStep)
    ensures
        r.says(after_backend(request, dashboard, pin, max_rows, reply)),
{
    match reply {
        Err(error) => done(
            Err(DashboardRunError::Execution(DashboardRunExecutionFailure { error })),
        ),
        Ok(_) => {
            let sql = dashboard.sql.clone();
            ask(
                DashboardRun::Execution { dashboard, pin },
                DashboardRunQuestion::RunReadOnly { sql, max_rows, query_id: request.query_id },
            )
        },
    }
}

/// What follows once the SQL was run.
pub open spec fn after_execution(
    dashboard: Dashboard,
    pin: PinnedConnection,
    reply: Result<ResultSize, AppError>,
) -> (Seq<Effect>, DashboardRunTurn) {
    match reply {
        Ok(size) => (
            run_rows(
                pin,
                dashboard.sql,
                QueryKind::Read,
                "ok",
                Some(size.row_count as i64),
                Some(size.duration_ms as i64),
                None,
            ),
            Turn::Done(Ok(size)),
        ),
        Err(error) => (
            failure_rows(dashboard, pin, error),
            Turn::Done(Err(DashboardRunError::Execution(DashboardRunExecutionFailure { error }))),
        ),
    }
}

fn take_execution(
    dashboard: Dashboard,
    pin: PinnedConnection,
    reply: Result<ResultSize, AppError>,
) -> (r: DashboardRunStep)
    ensures
        r.says(after_execution(dashboard, pin, reply)),
{
    match reply {
        Ok(size) => Step {
            effects: record(
                &pin,
                &dashboard.sql,
                QueryKind::Read,
                "ok",
                Some(size.row_count as i64),
                Some(size.duration_ms as i64),
                None,
            ),
            turn: Turn::Done(Ok(size)),
        },
        Err(error) => Step {
            effects: record(
                &pin,
                &dashboard.sql,
                QueryKind::Read,
                "error",
                None,
                None,
                Some(Note::Error(error.duplicate())),
            ),
            turn: Turn::Done(
                Err(DashboardRunError::Execution(DashboardRunExecutionFailure { error })),
            ),
        },
    }
}

impl DashboardRun {
    /// Whether `reply` answers what is awaited.
    pub open spec fn awaits(self, reply: DashboardRunReply) -> bool {
        match self {
            DashboardRun::Load { .. } => reply is Load,
            DashboardRun::Pin { .. } => reply is Pin,
            DashboardRun::Validation { .. } => reply is Validation,
            DashboardRun::Safety { .. } => reply is Safety,
            DashboardRun::Connection { .. } => reply is Connection,
            DashboardRun::Backend { .. } => reply is Backend,
            DashboardRun::Execution { .. } => reply is Execution,
        }
    }

    /// The effects and the turn that follow `reply`.
    pub open spec fn after(self, reply: DashboardRunReply) -> (Seq<Effect>, DashboardRunTurn) {
        match self {
            DashboardRun::Load { request } => after_load(request, reply->Load_0),
            DashboardRun::Pin { request, dashboard } => after_pin(request, dashboard, reply->Pin_0),
            DashboardRun::Validation { request, dashboard, pin } => after_validation(
                request,
                dashboard,
                pin,
                reply->Validation_0,
            ),
            DashboardRun::Safety { request, dashboard, pin } => after_safety(
                request,
                dashboard,
                pin,
                reply->Safety_0,
            ),
            DashboardRun::Connection { request, dashboard, pin, max_rows } => after_connection(
                request,
                dashboard,
                pin,
                max_rows,
                reply->Connection_0,
            ),
            DashboardRun::Backend { request, dashboard, pin, max_rows } => after_backend(
                request,
                dashboard,
                pin,
                max_rows,
                reply->Backend_0,
            ),
            DashboardRun::Execution { dashboard, pin } => after_execution(
                dashboard,
                pin,
                reply->Execution_0,
            ),
        }
    }

    /// Begins a run.
    pub fn start(request: DashboardRunRequest) -> (r: DashboardRunStep)
        ensures
            r.says(
                (
                    Seq::empty(),
                    Turn::Ask {
                        state: DashboardRun::Load { request },
                        request: DashboardRunQuestion::LoadDashboard {
                            dashboard_id: request.dashboard_id,
                        },
                    },
                ),
            ),
    {
        ask(
            DashboardRun::Load { request },
            DashboardRunQuestion::LoadDashboard { dashboard_id: request.dashboard_id },
        )
    }

    /// Takes the answer to the last question.
    pub fn advance(self, reply: DashboardRunReply) -> (r: DashboardRunStep)
        requires
            self.awaits(reply),
        ensures
            r.says(self.after(reply)),
    {
        match (self, reply) {
            (DashboardRun::Load { request }, DashboardRunReply::Load(reply)) => take_load(
                request,
                reply,
            ),
            (
                DashboardRun::Pin { request, dashboard },
                DashboardRunReply::Pin(reply),
            ) => take_pin(request, dashboard, reply),
            (
                DashboardRun::Validation { request, dashboard, pin },
                DashboardRunReply::Validation(reply),
            ) => take_validation(request, dashboard, pin, reply),
            (
                DashboardRun::Safety { request, dashboard, pin },
                DashboardRunReply::Safety(reply),
            ) => take_safety(request, dashboard, pin, reply),
            (
                DashboardRun::Connection { request, dashboard, pin, max_rows },
                DashboardRunReply::Connection(reply),
            ) => take_connection(request, dashboard, pin, max_rows, reply),
            (
                DashboardRun::Backend { request, dashboard, pin, max_rows },
                DashboardRunReply::Backend(reply),
            ) => take_backend(request, dashboard, pin, max_rows, reply),
            (
                DashboardRun::Execution { dashboard, pin },
                DashboardRunReply::Execution(reply),
            ) => take_execution(dashboard, pin, reply),
            _ => unreached(),
        }
    }
}

/// Where a run stands after these answers, if it is still going on and every one of them
/// answered what was asked.
pub open spec fn state_after(
    request: DashboardRunRequest,
    replies: Seq<DashboardRunReply>,
) -> Option<DashboardRun>
    decreases replies.len(),
{
    if replies.len() == 0 {
        Some(DashboardRun::Load { request })
    } else {
        match state_after(request, replies.drop_last()) {
            None => None,
            Some(state) => if state.awaits(replies.last()) {
                match state.after(replies.last()).1 {
                    Turn::Ask { state, .. } => Some(state),
                    Turn::Done(_) => None,
                }
            } else {
                None
            },
        }
    }
}

/// Whether the answers so far are these, and the dashboard was found valid.
pub open spec fn validated(
    replies: Seq<DashboardRunReply>,
    dashboard: Dashboard,
    pin: PinnedConnection,
) -> bool {
    &&& replies.len() >= 3
    &&& replies[0] == DashboardRunReply::Load(Ok(dashboard))
    &&& replies[1] == DashboardRunReply::Pin(Ok(pin))
    &&& replies[2] matches DashboardRunReply::Validation(Ok(_))
}

/// What the answers must have been for a run to stand where it stands.
pub open spec fn explained(
    request: DashboardRunRequest,
    replies: Seq<DashboardRunReply>,
    state: DashboardRun,
) -> bool {
    match state {
        DashboardRun::Load { request: asked } => asked == request && replies.len() == 0,
        DashboardRun::Pin { request: asked, dashboard } => {
            &&& asked == request && replies.len() == 1
            &&& replies[0] == DashboardRunReply::Load(Ok(dashboard))
        },
        DashboardRun::Validation { request: asked, dashboard, pin } => {
            &&& asked == request && replies.len() == 2
            &&& replies[0] == DashboardRunReply::Load(Ok(dashboard))
            &&& replies[1] == DashboardRunReply::Pin(Ok(pin))
        },
        DashboardRun::Safety { request: asked, dashboard, pin } => {
            asked == request && replies.len() == 3 && validated(replies, dashboard, pin)
        },
        DashboardRun::Connection { request: asked, dashboard, pin, max_rows } => {
            &&& asked == request && replies.len() == 4 && validated(replies, dashboard, pin)
            &&& replies[3] matches DashboardRunReply::Safety(Ok(settings))
            &&& max_rows == if settings.max_rows < 1 {
                1u64
            } else if settings.max_rows > 100_000 {
                100_000u64
            } else {
                settings.max_rows
            }
        },
        DashboardRun::Backend { request: asked, dashboard, pin, max_rows } => {
            &&& asked == request && replies.len() == 5 && validated(replies, dashboard, pin)
            &&& replies[3] matches DashboardRunReply::Safety(Ok(settings))
            &&& max_rows == if settings.max_rows < 1 {
                1u64
            } else if settings.max_rows > 100_000 {
                100_000u64
            } else {
                settings.max_rows
            }
        },
        DashboardRun::Execution { dashboard, pin } => replies.len() == 6 && validated(
            replies,
            dashboard,
            pin,
        ),
    }
}

/// A run stands nowhere that its answers do not explain: in particular stored SQL is run only
/// after it was validated once more, and only with the cap on rows that the loaded settings come to.
pub proof fn every_state_is_explained(request: DashboardRunRequest, replies: Seq<DashboardRunReply>)
    ensures
        state_after(request, replies) matches Some(state) ==> explained(request, replies, state),
    decreases replies.len(),
{
    if replies.len() > 0 {
        let earlier = replies.drop_last();
        every_state_is_explained(request, earlier);
        assert(forall|k: int| 0 <= k < earlier.len() ==> earlier[k] == replies[k]);
        match state_after(request, earlier) {
            None => {},
            Some(before) => {
                assert(explained(request, earlier, before));
            },
        }
    }
}

/// What a run does after each answer, told by the request and the answers alone. It asks
/// for the connection of the loaded dashboard, validates for that connection's engine,
/// loads that connection's settings, connects to read, and runs the SQL of the loaded
/// dashboard under the id that was requested, fetching as many rows as the loaded
/// settings allow, but at least one and at most a hundred thousand. Whatever goes wrong
/// is the error that the run ends with.
pub proof fn runs_ask_for_what_was_loaded(
    request: DashboardRunRequest,
    replies: Seq<DashboardRunReply>,
    last: DashboardRunReply,
)
    requires
        state_after(request, replies) matches Some(state) && state.awaits(last),
    ensures
        ({
            let all = replies.push(last);
            let turn = state_after(request, replies)->0.after(last).1;
            match last {
                DashboardRunReply::Load(Ok(dashboard)) => turn matches Turn::Ask {
                    request: DashboardRunQuestion::PinConnection { connection_id },
                    ..
                } && connection_id == dashboard.connection_id,
                DashboardRunReply::Pin(Ok(pin)) => turn matches Turn::Ask {
                    request: DashboardRunQuestion::Validate { engine },
                    ..
                } && engine == pin.profile.engine,
                DashboardRunReply::Validation(Ok(_)) => {
                    &&& all[0] matches DashboardRunReply::Load(Ok(dashboard))
                    &&& turn matches Turn::Ask {
                        request: DashboardRunQuestion::LoadSafety { connection_id },
                        ..
                    }
                    &&& connection_id == dashboard.connection_id
                },
                DashboardRunReply::Safety(Ok(_)) => turn matches Turn::Ask {
                    request: DashboardRunQuestion::Connect { access },
                    ..
                } && access == ConnectionAccess::Read,
                DashboardRunReply::Connection(Ok(_)) => turn matches Turn::Ask {
                    request: DashboardRunQuestion::OpenBackend,
                    ..
                },
                DashboardRunReply::Backend(Ok(_)) => {
                    &&& all[0] matches DashboardRunReply::Load(Ok(dashboard))
                    &&& all[3] matches DashboardRunReply::Safety(Ok(settings))
                    &&& turn matches Turn::Ask {
                        request: DashboardRunQuestion::RunReadOnly { sql, max_rows, query_id },
                        ..
                    }
                    &&& sql == dashboard.sql
                    &&& query_id == request.query_id
                    &&& 1 <= max_rows <= 100_000
                    &&& 1 <= settings.max_rows <= 100_000 ==> max_rows == settings.max_rows
                    &&& settings.max_rows < 1 ==> max_rows == 1
                    &&& settings.max_rows > 100_000 ==> max_rows == 100_000
                },
                DashboardRunReply::Execution(Ok(size)) => turn matches Turn::Done(Ok(told)) && told
                    == size,
                DashboardRunReply::Load(Err(error)) => turn matches Turn::Done(
                    Err(DashboardRunError::Scoped(failure)),
                ) && failure.error == error,
                DashboardRunReply::Pin(Err(error)) => turn matches Turn::Done(
                    Err(DashboardRunError::Scoped(failure)),
                ) && failure.error == error,
                DashboardRunReply::Validation(Err(invalid)) => turn matches Turn::Done(
                    Err(DashboardRunError::Scoped(failure)),
                ) && failure.error == invalid.error,
                DashboardRunReply::Safety(Err(error)) => turn matches Turn::Done(
                    Err(DashboardRunError::Scoped(failure)),
                ) && failure.error == error,
                DashboardRunReply::Connection(Err(error)) => turn matches Turn::Done(
                    Err(DashboardRunError::Application(told)),
                ) && told == error,
                DashboardRunReply::Backend(Err(error)) => turn matches Turn::Done(
                    Err(DashboardRunError::Execution(failure)),
                ) && failure.error == error,
                DashboardRunReply::Execution(Err(error)) => turn matches Turn::Done(
                    Err(DashboardRunError::Execution(failure)),
                ) && failure.error == error,
            }
        }),
{
    every_state_is_explained(request, replies);
    let all = replies.push(last);
    assert(forall|k: int| 0 <= k < replies.len() ==> all[k] == replies[k]);
    assert(all.last() == last);
}

/// The rows that a run leaves tell of the SQL of the loaded dashboard on the pinned
/// connection. A dashboard that is no longer valid is blocked, under the kind that its
/// SQL has, or as a write where it has none; a failure to connect or to run is an error
/// of a read; and a read that succeeded comes with its rows and its time. Nothing else
/// leaves a row.
pub proof fn run_rows_tell_what_happened(
    request: DashboardRunRequest,
    replies: Seq<DashboardRunReply>,
    last: DashboardRunReply,
)
    requires
        state_after(request, replies) matches Some(state) && state.awaits(last),
    ensures
        ({
            let all = replies.push(last);
            let effects = state_after(request, replies)->0.after(last).0;
            if (last matches DashboardRunReply::Validation(Err(_))) || (
            last matches DashboardRunReply::Connection(Err(_))) || last is Execution {
                &&& all[0] matches DashboardRunReply::Load(Ok(dashboard))
                &&& all[1] matches DashboardRunReply::Pin(Ok(pin))
                &&& effects.len() == 2
                &&& effects[0] matches Effect::Audit(audit)
                &&& effects[1] matches Effect::History(history)
                &&& audit.connection_id == pin.connection_id && history.connection_id
                    == pin.connection_id
                &&& audit.engine == pin.profile.engine
                &&& audit.sql == dashboard.sql && history.sql == dashboard.sql
                &&& audit.action == Text::Plain("dashboard:run") && history.origin == Text::Plain(
                    "dashboard",
                )
                &&& audit.approved_by is None
                &&& audit.kind == history.kind
                &&& audit.error == history.error
                &&& audit.affected_estimate == history.row_count
                &&& match last {
                    DashboardRunReply::Execution(Ok(size)) => {
                        &&& history.kind == QueryKind::Read
                        &&& history.status == "ok"
                        &&& history.row_count == Some(size.row_count as i64)
                        &&& history.duration_ms == Some(size.duration_ms as i64)
                        &&& history.error is None
                    },
                    DashboardRunReply::Execution(Err(error)) => {
                        &&& history.kind == QueryKind::Read
                        &&& history.status == "error"
                        &&& history.row_count is None && history.duration_ms is None
                        &&& history.error == Some(Note::Error(error))
                    },
                    DashboardRunReply::Connection(Err(error)) => {
                        &&& history.kind == QueryKind::Read
                        &&& history.status == "error"
                        &&& history.row_count is None && history.duration_ms is None
                        &&& history.error == Some(Note::Error(error))
                    },
                    DashboardRunReply::Validation(Err(invalid)) => {
                        &&& invalid.kind is Some ==> Some(history.kind) == invalid.kind
                        &&& invalid.kind is None ==> history.kind == QueryKind::Write
                        &&& history.status == "blocked"
                        &&& history.row_count is None && history.duration_ms is None
                        &&& history.error == Some(Note::Error(invalid.error))
                    },
                    _ => false,
                }
            } else {
                effects.len() == 0
            }
        }),
{
    every_state_is_explained(request, replies);
    let all = replies.push(last);
    assert(forall|k: int| 0 <= k < replies.len() ==> all[k] == replies[k]);
    assert(all.last() == last);
}

} // verus!
