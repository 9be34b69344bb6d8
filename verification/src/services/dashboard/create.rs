//! Making a dashboard out of a read that an agent ran earlier.
use vstd::pervasive::unreached;
use vstd::prelude::*;

use crate::error::AppError;
use crate::model::{
    DashboardDraft, DashboardVisualization, Engine, HistoryEntry, QueryKind, VISUALIZATION_VERSION,
};
use crate::operations::PinnedConnection;
use crate::services::effects::{ask, done, Effect, Step, Turn};
use crate::text::same_text;

verus! {

/// Whether a dashboard may be made of this run: it was an agent's, it read, it succeeded.
pub open spec fn eligible(source: HistoryEntry) -> bool {
    source.origin@ == "agent"@ && source.status@ == "ok"@ && source.kind == QueryKind::Read
}

/// Computes [`eligible`].
pub fn is_eligible_agent_run(source: &HistoryEntry) -> (r: bool)
    ensures
        r == eligible(*source),
{
    same_text(source.origin.as_str(), "agent") && same_text(source.status.as_str(), "ok")
        && source.kind == QueryKind::Read
}

/// How an agent wants a dashboard to look. Where the data comes from is not its to say.
#[derive(PartialEq, Eq)]
pub struct AgentDashboardPresentation {
    pub title: String,
    pub description: String,
    pub kind: String,
    pub x_column: Option<String>,
    pub y_columns: Vec<String>,
}

/// What may be said of a dashboard before it is made.
#[derive(PartialEq, Eq)]
pub struct AgentDashboardEventContext {
    pub query_run_id: u128,
    pub connection_id: u128,
    pub connection_name: String,
    pub title: String,
    pub sql: String,
}

/// A dashboard that may be made, of the very run that was asked for.
#[derive(PartialEq, Eq)]
pub struct PreparedAgentDashboard {
    pub connection: PinnedConnection,
    pub draft: DashboardDraft,
    pub event_context: AgentDashboardEventContext,
}

/// Why no dashboard may be made.
#[derive(PartialEq, Eq)]
pub enum AgentDashboardPrepareError {
    QueryRunNotFound,
    QueryRunIneligible,
    Application(AppError),
}

/// How the preparation ends.
pub type DashboardPrepareEnd = Result<PreparedAgentDashboard, AgentDashboardPrepareError>;

/// Where the preparation stands: what it is waiting to hear.
#[derive(PartialEq, Eq)]
pub enum DashboardPrepare {
    Resolve { query_run_id: u128, presentation: AgentDashboardPresentation },
    Pin { query_run_id: u128, presentation: AgentDashboardPresentation },
    Source {
        query_run_id: u128,
        presentation: AgentDashboardPresentation,
        connection: PinnedConnection,
    },
}

/// What the preparation asks of the outside world.
#[derive(PartialEq, Eq)]
pub enum DashboardPrepareRequest {
    /// Look the run up in the history of the current scope, and hold on to that scope.
    ResolveHistory { query_run_id: u128 },
    /// Look its connection up.
    PinConnection { connection_id: u128 },
    /// Look this run up again, provided that nothing has changed since.
    ReloadHistory { query_run_id: u128 },
}

/// What the outside world answers.
#[derive(PartialEq, Eq)]
pub enum DashboardPrepareReply {
    Resolve(Result<HistoryEntry, AppError>),
    Pin(Result<PinnedConnection, AppError>),
    Source(Result<HistoryEntry, AppError>),
}

/// A step of the preparation.
pub type DashboardPrepareStep = Step<
    DashboardPrepare,
    DashboardPrepareRequest,
    DashboardPrepareEnd,
>;

/// What follows an answer during the preparation.
pub type DashboardPrepareTurn = Turn<
    DashboardPrepare,
    DashboardPrepareRequest,
    DashboardPrepareEnd,
>;

/// The end of a preparation that failed to find the run.
pub open spec fn not_loaded(error: AppError) -> DashboardPrepareTurn {
    Turn::Done(
        Err(
            match error {
                AppError::NotFound(_) => AgentDashboardPrepareError::QueryRunNotFound,
                error => AgentDashboardPrepareError::Application(error),
            },
        ),
    )
}

fn fail_to_load(error: AppError) -> (r: DashboardPrepareStep)
    ensures
        r.says((Seq::empty(), not_loaded(error))),
{
    match error {
        AppError::NotFound(_) => done(Err(AgentDashboardPrepareError::QueryRunNotFound)),
        error => done(Err(AgentDashboardPrepareError::Application(error))),
    }
}

/// What follows once the run was looked up.
pub open spec fn after_resolve(
    query_run_id: u128,
    presentation: AgentDashboardPresentation,
    reply: Result<HistoryEntry, AppError>,
) -> (Seq<Effect>, DashboardPrepareTurn) {
    (
        Seq::empty(),
        match reply {
            Err(error) => not_loaded(error),
            Ok(history) => if eligible(history) {
                Turn::Ask {
                    state: DashboardPrepare::Pin { query_run_id, presentation },
                    request: DashboardPrepareRequest::PinConnection {
                        connection_id: history.connection_id,
                    },
                }
            } else {
                Turn::Done(Err(AgentDashboardPrepareError::QueryRunIneligible))
            },
        },
    )
}

fn take_resolve(
    query_run_id: u128,
    presentation: AgentDashboardPresentation,
    reply: Result<HistoryEntry, AppError>,
) -> (r: DashboardPrepareStep)
    ensures
        r.says(after_resolve(query_run_id, presentation, reply)),
{
    match reply {
        Err(error) => fail_to_load(error),
        Ok(history) => {
            if is_eligible_agent_run(&history) {
                ask(
                    DashboardPrepare::Pin { query_run_id, presentation },
                    DashboardPrepareRequest::PinConnection {
                        connection_id: history.connection_id,
                    },
                )
            } else {
                done(Err(AgentDashboardPrepareError::QueryRunIneligible))
            }
        },
    }
}

/// What follows once the connection was looked up.
pub open spec fn after_pin(
    query_run_id: u128,
    presentation: AgentDashboardPresentation,
    reply: Result<PinnedConnection, AppError>,
) -> (Seq<Effect>, DashboardPrepareTurn) {
    (
        Seq::empty(),
        match reply {
            Err(error) => Turn::Done(Err(AgentDashboardPrepareError::Application(error))),
            Ok(connection) => Turn::Ask {
                state: DashboardPrepare::Source { query_run_id, presentation, connection },
                request: DashboardPrepareRequest::ReloadHistory { query_run_id },
            },
        },
    )
}

fn take_pin(
    query_run_id: u128,
    presentation: AgentDashboardPresentation,
    reply: Result<PinnedConnection, AppError>,
) -> (r: DashboardPrepareStep)
    ensures
        r.says(after_pin(query_run_id, presentation, reply)),
{
    match reply {
        Err(error) => done(Err(AgentDashboardPrepareError::Application(error))),
        Ok(connection) => ask(
            DashboardPrepare::Source { query_run_id, presentation, connection },
            DashboardPrepareRequest::ReloadHistory { query_run_id },
        ),
    }
}

/// The dashboard that a run is good for: its connection and its SQL are the run's.
pub open spec fn prepared_dashboard(
    query_run_id: u128,
    presentation: AgentDashboardPresentation,
    connection: PinnedConnection,
    source: HistoryEntry,
) -> PreparedAgentDashboard {
    PreparedAgentDashboard {
        connection,
        draft: DashboardDraft {
            connection_id: source.connection_id,
            title: presentation.title,
            description: presentation.description,
            sql: source.sql,
            visualization: DashboardVisualization {
                version: VISUALIZATION_VERSION,
                kind: presentation.kind,
                x_column: presentation.x_column,
                y_columns: presentation.y_columns,
            },
        },
        event_context: AgentDashboardEventContext {
            query_run_id,
            connection_id: connection.connection_id,
            connection_name: connection.profile.name,
            title: presentation.title,
            sql: source.sql,
        },
    }
}

/// What follows once the run was looked up again.
pub open spec fn after_source(
    query_run_id: u128,
    presentation: AgentDashboardPresentation,
    connection: PinnedConnection,
    reply: Result<HistoryEntry, AppError>,
) -> (Seq<Effect>, DashboardPrepareTurn) {
    (
        Seq::empty(),
        match reply {
            Err(error) => not_loaded(error),
            Ok(source) => if eligible(source) {
                Turn::Done(
                    Ok(prepared_dashboard(query_run_id, presentation, connection, source)),
                )
            } else {
                Turn::Done(Err(AgentDashboardPrepareError::QueryRunIneligible))
            },
        },
    )
}

fn take_source(
    query_run_id: u128,
    presentation: AgentDashboardPresentation,
    connection: PinnedConnection,
    reply: Result<HistoryEntry, AppError>,
) -> (r: DashboardPrepareStep)
    ensures
        r.says(after_source(query_run_id, presentation, connection, reply)),
{
    match reply {
        Err(error) => fail_to_load(error),
        Ok(source) => {
            if !is_eligible_agent_run(&source) {
                return done(Err(AgentDashboardPrepareError::QueryRunIneligible));
            }
            let event_context = AgentDashboardEventContext {
                query_run_id,
                connection_id: connection.connection_id,
                connection_name: connection.profile.name.clone(),
                title: presentation.title.clone(),
                sql: source.sql.clone(),
            };
            let draft = DashboardDraft {
                connection_id: source.connection_id,
                title: presentation.title,
                description: presentation.description,
                sql: source.sql,
                visualization: DashboardVisualization {
                    version: VISUALIZATION_VERSION,
                    kind: presentation.kind,
                    x_column: presentation.x_column,
                    y_columns: presentation.y_columns,
                },
            };
            done(Ok(PreparedAgentDashboard { connection, draft, event_context }))
        },
    }
}

impl DashboardPrepare {
    /// Whether `reply` answers what is awaited.
    pub open spec fn awaits(self, reply: DashboardPrepareReply) -> bool {
        match self {
            DashboardPrepare::Resolve { .. } => reply is Resolve,
            DashboardPrepare::Pin { .. } => reply is Pin,
            DashboardPrepare::Source { .. } => reply is Source,
        }
    }

    /// The effects and the turn that follow `reply`.
    pub open spec fn after(
        self,
        reply: DashboardPrepareReply,
    ) -> (Seq<Effect>, DashboardPrepareTurn) {
        match self {
            DashboardPrepare::Resolve { query_run_id, presentation } => after_resolve(
                query_run_id,
                presentation,
                reply->Resolve_0,
            ),
            DashboardPrepare::Pin { query_run_id, presentation } => after_pin(
                query_run_id,
                presentation,
                reply->Pin_0,
            ),
            DashboardPrepare::Source { query_run_id, presentation, connection } => after_source(
                query_run_id,
                presentation,
                connection,
                reply->Source_0,
            ),
        }
    }

    /// Begins the preparation.
    pub fn start(
        query_run_id: u128,
        presentation: AgentDashboardPresentation,
    ) -> (r: DashboardPrepareStep)
        ensures
            r.says(
                (
                    Seq::empty(),
                    Turn::Ask {
                        state: DashboardPrepare::Resolve { query_run_id, presentation },
                        request: DashboardPrepareRequest::ResolveHistory { query_run_id },
                    },
                ),
            ),
    {
        ask(
            DashboardPrepare::Resolve { query_run_id, presentation },
            DashboardPrepareRequest::ResolveHistory { query_run_id },
        )
    }

    /// Takes the answer to the last question.
    pub fn advance(self, reply: DashboardPrepareReply) -> (r: DashboardPrepareStep)
        requires
            self.awaits(reply),
        ensures
            r.says(self.after(reply)),
    {
        match (self, reply) {
            (
                DashboardPrepare::Resolve { query_run_id, presentation },
                DashboardPrepareReply::Resolve(reply),
            ) => take_resolve(query_run_id, presentation, reply),
            (
                DashboardPrepare::Pin { query_run_id, presentation },
                DashboardPrepareReply::Pin(reply),
            ) => take_pin(query_run_id, presentation, reply),
            (
                DashboardPrepare::Source { query_run_id, presentation, connection },
                DashboardPrepareReply::Source(reply),
            ) => take_source(query_run_id, presentation, connection, reply),
            _ => unreached(),
        }
    }
}

/// Why a prepared dashboard was not saved.
#[derive(PartialEq, Eq)]
pub enum AgentDashboardCommitError {
    InvalidDraft(AppError),
    Persistence(AppError),
}

/// Where a draft that is to be saved stands.
#[derive(PartialEq, Eq)]
pub enum DashboardCommit {
    Validation { draft: DashboardDraft, connection: PinnedConnection },
    Saving,
}

/// What saving a draft asks of the outside world.
#[derive(PartialEq, Eq)]
pub enum DashboardCommitRequest {
    /// Validate the draft that the state holds for this engine.
    Validate { engine: Engine },
    /// Save this draft, provided that the connection is still the same.
    Save { draft: DashboardDraft, connection: PinnedConnection },
}

/// What the outside world answers.
#[derive(PartialEq, Eq)]
pub enum DashboardCommitReply {
    Validation(Result<(), AppError>),
    /// The id of the saved dashboard.
    Saving(Result<u128, AppError>),
}

/// How saving a draft ends.
pub type DashboardCommitEnd = Result<u128, AgentDashboardCommitError>;

/// A step of saving a draft.
pub type DashboardCommitStep = Step<DashboardCommit, DashboardCommitRequest, DashboardCommitEnd>;

/// What follows an answer while a draft is saved.
pub type DashboardCommitTurn = Turn<DashboardCommit, DashboardCommitRequest, DashboardCommitEnd>;

/// What follows once the draft was validated.
pub open spec fn after_validation(
    draft: DashboardDraft,
    connection: PinnedConnection,
    reply: Result<(), AppError>,
) -> (Seq<Effect>, DashboardCommitTurn) {
    (
        Seq::empty(),
        match reply {
            Err(error) => Turn::Done(Err(AgentDashboardCommitError::InvalidDraft(error))),
            Ok(_) => Turn::Ask {
                state: DashboardCommit::Saving,
                request: DashboardCommitRequest::Save { draft, connection },
            },
        },
    )
}

fn take_validation(
    draft: DashboardDraft,
    connection: PinnedConnection,
    reply: Result<(), AppError>,
) -> (r: DashboardCommitStep)
    ensures
        r.says(after_validation(draft, connection, reply)),
{
    match reply {
        Err(error) => done(Err(AgentDashboardCommitError::InvalidDraft(error))),
        Ok(_) => ask(
            DashboardCommit::Saving,
            DashboardCommitRequest::Save { draft, connection },
        ),
    }
}

/// What follows once the draft was saved.
pub open spec fn after_saving(reply: Result<u128, AppError>) -> (Seq<Effect>, DashboardCommitTurn) {
    (
        Seq::empty(),
        match reply {
            Err(error) => Turn::Done(Err(AgentDashboardCommitError::Persistence(error))),
            Ok(id) => Turn::Done(Ok(id)),
        },
    )
}

fn take_saving(reply: Result<u128, AppError>) -> (r: DashboardCommitStep)
    ensures
        r.says(after_saving(reply)),
{
    match reply {
        Err(error) => done(Err(AgentDashboardCommitError::Persistence(error))),
        Ok(id) => done(Ok(id)),
    }
}

impl DashboardCommit {
    /// Whether `reply` answers what is awaited.
    pub open spec fn awaits(self, reply: DashboardCommitReply) -> bool {
        match self {
            DashboardCommit::Validation { .. } => reply is Validation,
            DashboardCommit::Saving => reply is Saving,
        }
    }

    /// The effects and the turn that follow `reply`.
    pub open spec fn after(
        self,
        reply: DashboardCommitReply,
    ) -> (Seq<Effect>, DashboardCommitTurn) {
        match self {
            DashboardCommit::Validation { draft, connection } => after_validation(
                draft,
                connection,
                reply->Validation_0,
            ),
            DashboardCommit::Saving => after_saving(reply->Saving_0),
        }
    }

    /// Begins to save a draft for a connection.
    pub fn start(draft: DashboardDraft, connection: PinnedConnection) -> (r: DashboardCommitStep)
        ensures
            r.says(
                (
                    Seq::empty(),
                    Turn::Ask {
                        state: DashboardCommit::Validation { draft, connection },
                        request: DashboardCommitRequest::Validate {
                            engine: connection.profile.engine,
                        },
                    },
                ),
            ),
    {
        let engine = connection.profile.engine;
        ask(
            DashboardCommit::Validation { draft, connection },
            DashboardCommitRequest::Validate { engine },
        )
    }

    /// Takes the answer to the last question.
    pub fn advance(self, reply: DashboardCommitReply) -> (r: DashboardCommitStep)
        requires
            self.awaits(reply),
        ensures
            r.says(self.after(reply)),
    {
        match (self, reply) {
            (
                DashboardCommit::Validation { draft, connection },
                DashboardCommitReply::Validation(reply),
            ) => take_validation(draft, connection, reply),
            (DashboardCommit::Saving, DashboardCommitReply::Saving(reply)) => take_saving(reply),
            _ => unreached(),
        }
    }
}

/// A dashboard that an agent gets made shows exactly the SQL of an agent's read that
/// succeeded, on the connection of that read: nothing the agent supplies can change either.
pub proof fn provenance_is_the_run(
    query_run_id: u128,
    presentation: AgentDashboardPresentation,
    connection: PinnedConnection,
    reply: Result<HistoryEntry, AppError>,
)
    requires
        after_source(query_run_id, presentation, connection, reply).1 matches Turn::Done(Ok(_)),
    ensures
        reply is Ok && eligible(reply->Ok_0),
        after_source(query_run_id, presentation, connection, reply).1 matches Turn::Done(
            Ok(prepared),
        ) && prepared.draft.sql == reply->Ok_0.sql && prepared.draft.connection_id
            == reply->Ok_0.connection_id && prepared.event_context.sql == reply->Ok_0.sql,
{
}

/// A dashboard from its beginning, told by what was asked for and answered. It is made of
/// the run that was named, if that was a successful read of an agent's both when it was
/// first found and when it was found again: the SQL and the connection are that run's, and
/// only the looks are the agent's.
pub proof fn dashboards_are_made_of_the_named_run(
    query_run_id: u128,
    presentation: AgentDashboardPresentation,
    begun: DashboardPrepareStep,
    found: HistoryEntry,
    connection: PinnedConnection,
    source: HistoryEntry,
    error: AppError,
)
    requires
        call_ensures(DashboardPrepare::start, (query_run_id, presentation), begun),
    ensures
        ({
            let resolved = begun.turn->state.after(DashboardPrepareReply::Resolve(Ok(found)));
            let lost = begun.turn->state.after(DashboardPrepareReply::Resolve(Err(error)));
            let pinned = resolved.1->state.after(DashboardPrepareReply::Pin(Ok(connection)));
            let ended = pinned.1->state.after(DashboardPrepareReply::Source(Ok(source)));
            let gone = pinned.1->state.after(DashboardPrepareReply::Source(Err(error)));
            &&& begun.effects@.len() == 0 && resolved.0.len() == 0
            &&& begun.turn matches Turn::Ask {
                request: DashboardPrepareRequest::ResolveHistory { query_run_id: id },
                ..
            } && id == query_run_id
            &&& error is NotFound ==> lost.1 == DashboardPrepareTurn::Done(
                Err(AgentDashboardPrepareError::QueryRunNotFound),
            )
            &&& !(error is NotFound) ==> lost.1 == DashboardPrepareTurn::Done(
                Err(AgentDashboardPrepareError::Application(error)),
            )
            &&& if found.origin@ == "agent"@ && found.status@ == "ok"@ && found.kind
                == QueryKind::Read {
                &&& pinned.0.len() == 0 && ended.0.len() == 0
                &&& resolved.1 matches Turn::Ask {
                    request: DashboardPrepareRequest::PinConnection { connection_id },
                    ..
                } && connection_id == found.connection_id
                &&& resolved.1->state.after(
                    DashboardPrepareReply::Pin(Err(error)),
                ).1 matches Turn::Done(Err(AgentDashboardPrepareError::Application(told))) && told
                    == error
                &&& pinned.1 matches Turn::Ask {
                    request: DashboardPrepareRequest::ReloadHistory { query_run_id: id },
                    ..
                } && id == query_run_id
                &&& error is NotFound ==> gone.1 == DashboardPrepareTurn::Done(
                    Err(AgentDashboardPrepareError::QueryRunNotFound),
                )
                &&& !(error is NotFound) ==> gone.1 == DashboardPrepareTurn::Done(
                    Err(AgentDashboardPrepareError::Application(error)),
                )
                &&& if source.origin@ == "agent"@ && source.status@ == "ok"@ && source.kind
                    == QueryKind::Read {
                    &&& ended.1 matches Turn::Done(Ok(prepared))
                    &&& prepared.connection == connection
                    &&& prepared.draft.connection_id == source.connection_id
                    &&& prepared.draft.title == presentation.title
                    &&& prepared.draft.description == presentation.description
                    &&& prepared.draft.sql == source.sql
                    &&& prepared.draft.visualization.version == 1
                    &&& prepared.draft.visualization.kind == presentation.kind
                    &&& prepared.draft.visualization.x_column == presentation.x_column
                    &&& prepared.draft.visualization.y_columns == presentation.y_columns
                    &&& prepared.event_context.query_run_id == query_run_id
                    &&& prepared.event_context.connection_id == connection.connection_id
                    &&& prepared.event_context.connection_name == connection.profile.name
                    &&& prepared.event_context.title == presentation.title
                    &&& prepared.event_context.sql == source.sql
                } else {
                    ended.1 matches Turn::Done(Err(AgentDashboardPrepareError::QueryRunIneligible))
                }
            } else {
                resolved.1 matches Turn::Done(Err(AgentDashboardPrepareError::QueryRunIneligible))
            }
        }),
{
}

/// The draft that is saved is the one that was validated for the engine of its connection,
/// together with that connection, and the id that is told is that under which it was saved.
pub proof fn the_validated_draft_is_saved(
    draft: DashboardDraft,
    connection: PinnedConnection,
    begun: DashboardCommitStep,
    id: u128,
    error: AppError,
)
    requires
        call_ensures(DashboardCommit::start, (draft, connection), begun),
    ensures
        ({
            let valid = begun.turn->state.after(DashboardCommitReply::Validation(Ok(())));
            &&& begun.effects@.len() == 0 && valid.0.len() == 0
            &&& begun.turn matches Turn::Ask {
                request: DashboardCommitRequest::Validate { engine },
                ..
            } && engine == connection.profile.engine
            &&& begun.turn->state.after(
                DashboardCommitReply::Validation(Err(error)),
            ).1 matches Turn::Done(Err(AgentDashboardCommitError::InvalidDraft(told))) && told
                == error
            &&& valid.1 matches Turn::Ask {
                request: DashboardCommitRequest::Save { draft: saved, connection: kept },
                ..
            } && saved == draft && kept == connection
            &&& valid.1->state.after(DashboardCommitReply::Saving(Ok(id))).1 matches Turn::Done(
                Ok(told),
            ) && told == id
            &&& valid.1->state.after(DashboardCommitReply::Saving(Err(error))).1 matches Turn::Done(
                Err(AgentDashboardCommitError::Persistence(told)),
            ) && told == error
        }),
{
}

} // verus!
