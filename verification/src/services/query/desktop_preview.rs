//! Inspecting SQL from the desktop, and previewing what it would do, before any of it
//! may run.
use vstd::pervasive::unreached;
use vstd::prelude::*;

use crate::error::AppError;
use crate::model::{
    Classification, ConnectionAccess, Engine, QueryKind, SafetySettings, WorkspaceConnectionAccess,
};
use crate::operations::PinnedConnection;
use crate::services::effects::{ask, done, Effect, Step, Turn};
use crate::text::Text;

verus! {

/// How a preview came about.
#[derive(Debug, Clone, Copy, PartialEq, Eq, Structural)]
pub enum PreviewMode {
    /// The target was not touched.
    Skipped,
    /// The planner estimated the rows.
    Estimated,
    /// The statement was run and rolled back.
    Exact,
}

/// What a statement would do.
#[derive(PartialEq, Eq)]
pub struct PreviewReport {
    pub mode: PreviewMode,
    pub estimated_rows: Option<i64>,
    pub exact_rows: Option<i64>,
    /// The planner's output, as JSON text.
    pub plan: Option<String>,
    pub note: Option<Text>,
}

impl PreviewReport {
    /// An equal report.
    pub fn duplicate(&self) -> (r: PreviewReport)
        ensures
            r == *self,
    {
        PreviewReport {
            mode: self.mode,
            estimated_rows: self.estimated_rows,
            exact_rows: self.exact_rows,
            plan: self.plan.clone(),
            note: match &self.note {
                Some(note) => Some(note.duplicate()),
                None => None,
            },
        }
    }
}

/// A report of a preview that was skipped.
pub open spec fn skipped(note: &'static str) -> PreviewReport {
    PreviewReport {
        mode: PreviewMode::Skipped,
        estimated_rows: None,
        exact_rows: None,
        plan: None,
        note: Some(Text::Plain(note)),
    }
}

/// A report of a preview that was skipped.
pub fn skipped_preview_report(note: &'static str) -> (r: PreviewReport)
    ensures
        r == skipped(note),
{
    PreviewReport {
        mode: PreviewMode::Skipped,
        estimated_rows: None,
        exact_rows: None,
        plan: None,
        note: Some(Text::Plain(note)),
    }
}

/// The access that a preview connects with: to read, whatever the statement is and
/// whatever the settings allow.
pub fn desktop_preview_connection_access(
    _classification: &Classification,
    _settings: &SafetySettings,
) -> (r: ConnectionAccess)
    ensures
        r == ConnectionAccess::Read,
{
    ConnectionAccess::Read
}

/// Why SQL could not be inspected.
#[derive(PartialEq, Eq)]
pub enum DesktopSqlInspectionError {
    Application(AppError),
}

impl DesktopSqlInspectionError {
    /// The failure as an application error.
    pub fn into_error(self) -> (r: AppError)
        ensures
            r == self->Application_0,
    {
        match self {
            DesktopSqlInspectionError::Application(error) => error,
        }
    }
}

/// A preview, and the connection it was made for.
#[derive(PartialEq, Eq)]
pub struct DesktopSqlPreviewReceipt {
    pub report: PreviewReport,
    pub pin: PinnedConnection,
}

/// What to do about a preview before the target is touched.
#[derive(PartialEq, Eq)]
pub enum PreviewVerdict {
    /// The workspace role does not let the statement run at all.
    Refuse(AppError),
    /// The preview is answered without the target.
    Skip(&'static str),
    /// The target is asked.
    Measure,
}

/// What to do about a preview before the target is touched: a read needs a role that may
/// execute; a preview of anything else is skipped where the role or the settings would
/// not let it run; and changes of schema and privilege have no rows to count.
pub open spec fn preview_verdict(
    pin: PinnedConnection,
    settings: SafetySettings,
    classification: Classification,
) -> PreviewVerdict {
    let access = pin.profile.workspace_access;
    if !classification.spec_is_write() && !access.spec_can_read() {
        PreviewVerdict::Refuse(
            AppError::Blocked {
                reason: Text::Plain("workspace role cannot execute this connection"),
            },
        )
    } else if classification.spec_is_write() && !access.spec_can_write() {
        PreviewVerdict::Skip("workspace role is read-only — write preview skipped")
    } else if classification.spec_is_write() && !settings.allow_writes {
        PreviewVerdict::Skip(
            "writes are disabled for this connection — impact preview skipped (no rows locked)",
        )
    } else if classification.kind == QueryKind::Ddl || classification.kind
        == QueryKind::Privilege {
        PreviewVerdict::Skip(
            "DDL / privilege change — no row-count preview; review the statement directly.",
        )
    } else {
        PreviewVerdict::Measure
    }
}

/// Computes [`preview_verdict`].
pub fn judge_preview(
    pin: &PinnedConnection,
    settings: &SafetySettings,
    classification: &Classification,
) -> (r: PreviewVerdict)
    ensures
        r == preview_verdict(*pin, *settings, *classification),
{
    let access = pin.profile.workspace_access;
    let is_non_read = classification.is_write();
    if !is_non_read && !access.can_read() {
        return PreviewVerdict::Refuse(
            AppError::Blocked {
                reason: Text::Plain("workspace role cannot execute this connection"),
            },
        );
    }
    if is_non_read && !access.can_write() {
        return PreviewVerdict::Skip("workspace role is read-only — write preview skipped");
    }
    if is_non_read && !settings.allow_writes {
        return PreviewVerdict::Skip(
            "writes are disabled for this connection — impact preview skipped (no rows locked)",
        );
    }
    if classification.kind == QueryKind::Ddl || classification.kind == QueryKind::Privilege {
        return PreviewVerdict::Skip(
            "DDL / privilege change — no row-count preview; review the statement directly.",
        );
    }
    PreviewVerdict::Measure
}

/// How a preview ends.
pub type DesktopPreviewEnd = Result<DesktopSqlPreviewReceipt, DesktopSqlInspectionError>;

/// Where a preview stands: what it is waiting to hear.
#[derive(PartialEq, Eq)]
pub enum DesktopPreview {
    Pin { sql: String },
    Safety { sql: String, pin: PinnedConnection },
    Classification { sql: String, pin: PinnedConnection, settings: SafetySettings },
    Connection {
        sql: String,
        pin: PinnedConnection,
        settings: SafetySettings,
        classification: Classification,
    },
    Backend {
        sql: String,
        pin: PinnedConnection,
        settings: SafetySettings,
        classification: Classification,
    },
    Report { pin: PinnedConnection },
}

/// What a preview asks of the outside world.
#[derive(PartialEq, Eq)]
pub enum DesktopPreviewRequest {
    /// Look the connection up in the current scope, for viewing, and hold on to the scope.
    PinForView { connection_id: u128 },
    /// Load the safety settings.
    LoadSafety { connection_id: u128 },
    /// Classify the SQL.
    Classify { sql: String, engine: Engine },
    /// Connect the pinned connection.
    Connect { access: ConnectionAccess },
    /// Take the connection's SQL backend.
    OpenBackend,
    /// Have the database preview the statement in a read-only session.
    Preview { sql: String, classification: Classification, settings: SafetySettings },
}

/// What the outside world answers.
#[derive(PartialEq, Eq)]
pub enum DesktopPreviewReply {
    Pin(Result<PinnedConnection, AppError>),
    Safety(Result<SafetySettings, AppError>),
    Classification(Result<Classification, AppError>),
    Connection(Result<(), AppError>),
    Backend(Result<(), AppError>),
    Report(Result<PreviewReport, AppError>),
}

/// A step of a preview.
pub type DesktopPreviewStep = Step<DesktopPreview, DesktopPreviewRequest, DesktopPreviewEnd>;

/// What follows an answer in a preview.
pub type DesktopPreviewTurn = Turn<DesktopPreview, DesktopPreviewRequest, DesktopPreviewEnd>;

/// The end of an inspection that failed.
pub open spec fn failed(error: AppError) -> (Seq<Effect>, DesktopPreviewTurn) {
    (Seq::empty(), Turn::Done(Err(DesktopSqlInspectionError::Application(error))))
}

fn fail(error: AppError) -> (r: DesktopPreviewStep)
    ensures
        r.says(failed(error)),
{
    done(Err(DesktopSqlInspectionError::Application(error)))
}

/// What follows once the connection was looked up.
pub open spec fn after_pin(sql: String, reply: Result<PinnedConnection, AppError>) -> (
    Seq<Effect>,
    DesktopPreviewTurn,
) {
    match reply {
        Err(error) => failed(error),
        Ok(pin) => (
            Seq::empty(),
            Turn::Ask {
                state: DesktopPreview::Safety { sql, pin },
                request: DesktopPreviewRequest::LoadSafety { connection_id: pin.connection_id },
            },
        ),
    }
}

fn take_pin(sql: String, reply: Result<PinnedConnection, AppError>) -> (r: DesktopPreviewStep)
    ensures
        r.says(after_pin(sql, reply)),
{
    match reply {
        Err(error) => fail(error),
        Ok(pin) => {
            let connection_id = pin.connection_id;
            ask(
                DesktopPreview::Safety { sql, pin },
                DesktopPreviewRequest::LoadSafety { connection_id },
            )
        },
    }
}

/// What follows once the safety settings were loaded.
pub open spec fn after_safety(
    sql: String,
    pin: PinnedConnection,
    reply: Result<SafetySettings, AppError>,
) -> (Seq<Effect>, DesktopPreviewTurn) {
    match reply {
        Err(error) => failed(error),
        Ok(settings) => (
            Seq::empty(),
            Turn::Ask {
                state: DesktopPreview::Classification { sql, pin, settings },
                request: DesktopPreviewRequest::Classify { sql, engine: pin.profile.engine },
            },
        ),
    }
}

fn take_safety(sql: String, pin: PinnedConnection, reply: Result<SafetySettings, AppError>) -> (r:
    DesktopPreviewStep)
    ensures
        r.says(after_safety(sql, pin, reply)),
{
    match reply {
        Err(error) => fail(error),
        Ok(settings) => {
            let request = DesktopPreviewRequest::Classify {
                sql: sql.clone(),
                engine: pin.profile.engine,
            };
            ask(DesktopPreview::Classification { sql, pin, settings }, request)
        },
    }
}

/// What follows once the SQL was classified.
pub open spec fn after_classification(
    sql: String,
    pin: PinnedConnection,
    settings: SafetySettings,
    reply: Result<Classification, AppError>,
) -> (Seq<Effect>, DesktopPreviewTurn) {
    match reply {
        Err(error) => failed(error),
        Ok(classification) => match preview_verdict(pin, settings, classification) {
            PreviewVerdict::Refuse(error) => failed(error),
            PreviewVerdict::Skip(note) => (
                Seq::empty(),
                Turn::Done(Ok(DesktopSqlPreviewReceipt { report: skipped(note), pin })),
            ),
            PreviewVerdict::Measure => (
                Seq::empty(),
                Turn::Ask {
                    state: DesktopPreview::Connection { sql, pin, settings, classification },
                    request: DesktopPreviewRequest::Connect { access: ConnectionAccess::Read },
                },
            ),
        },
    }
}

fn take_classification(
    sql: String,
    pin: PinnedConnection,
    settings: SafetySettings,
    reply: Result<Classification, AppError>,
) -> (r: DesktopPreviewStep)
    ensures
        r.says(after_classification(sql, pin, settings, reply)),
{
    match reply {
        Err(error) => fail(error),
        Ok(classification) => match judge_preview(&pin, &settings, &classification) {
            PreviewVerdict::Refuse(error) => fail(error),
            PreviewVerdict::Skip(note) => done(
                Ok(DesktopSqlPreviewReceipt { report: skipped_preview_report(note), pin }),
            ),
            PreviewVerdict::Measure => {
                let access = desktop_preview_connection_access(&classification, &settings);
                ask(
                    DesktopPreview::Connection { sql, pin, settings, classification },
                    DesktopPreviewRequest::Connect { access },
                )
            },
        },
    }
}

/// What follows once the target was connected.
pub open spec fn after_connection(
    sql: String,
    pin: PinnedConnection,
    settings: SafetySettings,
    classification: Classification,
    reply: Result<(), AppError>,
) -> (Seq<Effect>, DesktopPreviewTurn) {
    match reply {
        Err(error) => failed(error),
        Ok(_) => (
            Seq::empty(),
            Turn::Ask {
                state: DesktopPreview::Backend { sql, pin, settings, classification },
                request: DesktopPreviewRequest::OpenBackend,
            },
        ),
    }
}

fn take_connection(
    sql: String,
    pin: PinnedConnection,
    settings: SafetySettings,
    classification: Classification,
    reply: Result<(), AppError>,
) -> (r: DesktopPreviewStep)
    ensures
        r.says(after_connection(sql, pin, settings, classification, reply)),
{
    match reply {
        Err(error) => fail(error),
        Ok(_) => ask(
            DesktopPreview::Backend { sql, pin, settings, classification },
            DesktopPreviewRequest::OpenBackend,
        ),
    }
}

/// What follows once the backend was opened.
pub open spec fn after_backend(
    sql: String,
    pin: PinnedConnection,
    settings: SafetySettings,
    classification: Classification,
    reply: Result<(), AppError>,
) -> (Seq<Effect>, DesktopPreviewTurn) {
    match reply {
        Err(error) => failed(error),
        Ok(_) => (
            Seq::empty(),
            Turn::Ask {
                state: DesktopPreview::Report { pin },
                request: DesktopPreviewRequest::Preview { sql, classification, settings },
            },
        ),
    }
}

fn take_backend(
    sql: String,
    pin: PinnedConnection,
    settings: SafetySettings,
    classification: Classification,
    reply: Result<(), AppError>,
) -> (r: DesktopPreviewStep)
    ensures
        r.says(after_backend(sql, pin, settings, classification, reply)),
{
    match reply {
        Err(error) => fail(error),
        Ok(_) => ask(
            DesktopPreview::Report { pin },
            DesktopPreviewRequest::Preview { sql, classification, settings },
        ),
    }
}

/// What follows once the database reported.
pub open spec fn after_report(pin: PinnedConnection, reply: Result<PreviewReport, AppError>) -> (
    Seq<Effect>,
    DesktopPreviewTurn,
) {
    match reply {
        Err(error) => failed(error),
        Ok(report) => (
            Seq::empty(),
            Turn::Done(Ok(DesktopSqlPreviewReceipt { report, pin })),
        ),
    }
}

fn take_report(pin: PinnedConnection, reply: Result<PreviewReport, AppError>) -> (r:
    DesktopPreviewStep)
    ensures
        r.says(after_report(pin, reply)),
{
    match reply {
        Err(error) => fail(error),
        Ok(report) => done(Ok(DesktopSqlPreviewReceipt { report, pin })),
    }
}

impl DesktopPreview {
    /// Whether `reply` answers what is awaited.
    pub open spec fn awaits(self, reply: DesktopPreviewReply) -> bool {
        match self {
            DesktopPreview::Pin { .. } => reply is Pin,
            DesktopPreview::Safety { .. } => reply is Safety,
            DesktopPreview::Classification { .. } => reply is Classification,
            DesktopPreview::Connection { .. } => reply is Connection,
            DesktopPreview::Backend { .. } => reply is Backend,
            DesktopPreview::Report { .. } => reply is Report,
        }
    }

    /// The effects and the turn that follow `reply`.
    pub open spec fn after(self, reply: DesktopPreviewReply) -> (Seq<Effect>, DesktopPreviewTurn) {
        match self {
            DesktopPreview::Pin { sql } => after_pin(sql, reply->Pin_0),
            DesktopPreview::Safety { sql, pin } => after_safety(sql, pin, reply->Safety_0),
            DesktopPreview::Classification { sql, pin, settings } => after_classification(
                sql,
                pin,
                settings,
                reply->Classification_0,
            ),
            DesktopPreview::Connection { sql, pin, settings, classification } => after_connection(
                sql,
                pin,
                settings,
                classification,
                reply->Connection_0,
            ),
            DesktopPreview::Backend { sql, pin, settings, classification } => after_backend(
                sql,
                pin,
                settings,
                classification,
                reply->Backend_0,
            ),
            DesktopPreview::Report { pin } => after_report(pin, reply->Report_0),
        }
    }

    /// Begins a preview.
    pub fn start(connection_id: u128, sql: String) -> (r: DesktopPreviewStep)
        ensures
            r.says(
                (
                    Seq::empty(),
                    Turn::Ask {
                        state: DesktopPreview::Pin { sql },
                        request: DesktopPreviewRequest::PinForView { connection_id },
                    },
                ),
            ),
    {
        ask(DesktopPreview::Pin { sql }, DesktopPreviewRequest::PinForView { connection_id })
    }

    /// Takes the answer to the last question.
    pub fn advance(self, reply: DesktopPreviewReply) -> (r: DesktopPreviewStep)
        requires
            self.awaits(reply),
        ensures
            r.says(self.after(reply)),
    {
        match (self, reply) {
            (DesktopPreview::Pin { sql }, DesktopPreviewReply::Pin(reply)) => take_pin(sql, reply),
            (
                DesktopPreview::Safety { sql, pin },
                DesktopPreviewReply::Safety(reply),
            ) => take_safety(sql, pin, reply),
            (
                DesktopPreview::Classification { sql, pin, settings },
                DesktopPreviewReply::Classification(reply),
            ) => take_classification(sql, pin, settings, reply),
            (
                DesktopPreview::Connection { sql, pin, settings, classification },
                DesktopPreviewReply::Connection(reply),
            ) => take_connection(sql, pin, settings, classification, reply),
            (
                DesktopPreview::Backend { sql, pin, settings, classification },
                DesktopPreviewReply::Backend(reply),
            ) => take_backend(sql, pin, settings, classification, reply),
            (DesktopPreview::Report { pin }, DesktopPreviewReply::Report(reply)) => take_report(
                pin,
                reply,
            ),
            _ => unreached(),
        }
    }
}

/// The only access that a preview ever connects with is read access.
pub proof fn a_preview_never_connects_for_writing(state: DesktopPreview, reply: DesktopPreviewReply)
    requires
        state.awaits(reply),
    ensures
        state.after(reply).1 matches Turn::Ask { request: DesktopPreviewRequest::Connect { access }, .. }
            ==> access == ConnectionAccess::Read,
{
}

/// A preview that would have to touch rows it may not change never reaches the target.
pub proof fn a_forbidden_write_is_not_previewed(
    sql: String,
    pin: PinnedConnection,
    settings: SafetySettings,
    classification: Classification,
)
    requires
        classification.spec_is_write(),
        !pin.profile.workspace_access.spec_can_write() || !settings.allow_writes,
    ensures
        after_classification(sql, pin, settings, Ok(classification)).1 matches Turn::Done(Ok(receipt))
            && receipt.report.mode == PreviewMode::Skipped,
{
}

/// A preview from its beginning, told by what was asked for and answered. It is of the
/// connection and of the SQL that were asked for, in the dialect of the connection's
/// engine and under the settings that were loaded. Whoever may not run a statement at all
/// is refused. The database is asked exactly for a read, and for a write of rows that
/// both the role and the settings allow; else the report says why it was skipped and
/// holds no numbers. What the database reports is handed on as it is.
pub proof fn previews_are_of_what_was_asked(
    connection_id: u128,
    sql: String,
    begun: DesktopPreviewStep,
    pin: PinnedConnection,
    settings: SafetySettings,
    classification: Classification,
    report: PreviewReport,
)
    requires
        call_ensures(DesktopPreview::start, (connection_id, sql), begun),
    ensures
        ({
            let access = pin.profile.workspace_access;
            let writes = classification.kind != QueryKind::Read;
            let pinned = begun.turn->state.after(DesktopPreviewReply::Pin(Ok(pin)));
            let loaded = pinned.1->state.after(DesktopPreviewReply::Safety(Ok(settings)));
            let told = loaded.1->state.after(
                DesktopPreviewReply::Classification(Ok(classification)),
            );
            let connected = told.1->state.after(DesktopPreviewReply::Connection(Ok(())));
            let opened = connected.1->state.after(DesktopPreviewReply::Backend(Ok(())));
            let ended = opened.1->state.after(DesktopPreviewReply::Report(Ok(report)));
            &&& begun.effects@.len() == 0 && pinned.0.len() == 0 && loaded.0.len() == 0
                && told.0.len() == 0
            &&& begun.turn matches Turn::Ask {
                request: DesktopPreviewRequest::PinForView { connection_id: id },
                ..
            } && id == connection_id
            &&& pinned.1 matches Turn::Ask {
                request: DesktopPreviewRequest::LoadSafety { connection_id: id },
                ..
            } && id == pin.connection_id
            &&& loaded.1 matches Turn::Ask {
                request: DesktopPreviewRequest::Classify { sql: asked, engine },
                ..
            } && asked == sql && engine == pin.profile.engine
            &&& if !writes && access == WorkspaceConnectionAccess::View {
                told.1 matches Turn::Done(
                    Err(DesktopSqlInspectionError::Application(AppError::Blocked { reason })),
                ) && reason == Text::Plain("workspace role cannot execute this connection")
            } else if writes && (access == WorkspaceConnectionAccess::View || access
                == WorkspaceConnectionAccess::Read || !settings.allow_writes || classification.kind
                != QueryKind::Write) {
                &&& told.1 matches Turn::Done(Ok(receipt))
                &&& receipt.pin == pin
                &&& receipt.report.mode == PreviewMode::Skipped
                &&& receipt.report.estimated_rows is None && receipt.report.exact_rows is None
                &&& receipt.report.plan is None
                &&& receipt.report.note == Some(
                    Text::Plain(
                        if access == WorkspaceConnectionAccess::View || access
                            == WorkspaceConnectionAccess::Read {
                            "workspace role is read-only — write preview skipped"
                        } else if !settings.allow_writes {
                            "writes are disabled for this connection — impact preview skipped (no rows locked)"
                        } else {
                            "DDL / privilege change — no row-count preview; review the statement directly."
                        },
                    ),
                )
            } else {
                &&& connected.0.len() == 0 && opened.0.len() == 0 && ended.0.len() == 0
                &&& told.1 matches Turn::Ask {
                    request: DesktopPreviewRequest::Connect { access: asked },
                    ..
                } && asked == ConnectionAccess::Read
                &&& connected.1 matches Turn::Ask {
                    request: DesktopPreviewRequest::OpenBackend,
                    ..
                }
                &&& opened.1 matches Turn::Ask {
                    request: DesktopPreviewRequest::Preview {
                        sql: asked,
                        classification: found,
                        settings: used,
                    },
                    ..
                } && asked == sql && found == classification && used == settings
                &&& ended.1 matches Turn::Done(Ok(receipt)) && receipt.report == report
                    && receipt.pin == pin
            }
        }),
{
}

/// Whatever goes wrong in a preview is the error that it ends with.
pub proof fn preview_failures_are_told(state: DesktopPreview, reply: DesktopPreviewReply)
    requires
        state.awaits(reply),
    ensures
        match reply {
            DesktopPreviewReply::Pin(Err(error)) => state.after(reply).1 matches Turn::Done(
                Err(DesktopSqlInspectionError::Application(told)),
            ) && told == error,
            DesktopPreviewReply::Safety(Err(error)) => state.after(reply).1 matches Turn::Done(
                Err(DesktopSqlInspectionError::Application(told)),
            ) && told == error,
            DesktopPreviewReply::Classification(Err(error)) => state.after(
                reply,
            ).1 matches Turn::Done(Err(DesktopSqlInspectionError::Application(told))) && told
                == error,
            DesktopPreviewReply::Connection(Err(error)) => state.after(reply).1 matches Turn::Done(
                Err(DesktopSqlInspectionError::Application(told)),
            ) && told == error,
            DesktopPreviewReply::Backend(Err(error)) => state.after(reply).1 matches Turn::Done(
                Err(DesktopSqlInspectionError::Application(told)),
            ) && told == error,
            DesktopPreviewReply::Report(Err(error)) => state.after(reply).1 matches Turn::Done(
                Err(DesktopSqlInspectionError::Application(told)),
            ) && told == error,
            _ => true,
        },
{
}

} // verus!
