//! A document read for an agent.
use vstd::pervasive::unreached;
use vstd::prelude::*;

use crate::error::{AppError, AppResult};
use crate::model::{ConnectionAccess, QueryKind, SafetySettings};
use crate::operations::PinnedConnection;
use crate::services::document::shared::{
    agent_action, agent_audit_action, agent_history_origin, agent_rejection_fallback,
    audit_document, bounded_agent_rows, document_audit, document_history, first_note_or, note_or,
    rejection_fallback, remember_document, DocumentClassification, DocumentQuery,
    DocumentReadEventContext, DocumentReadResult, PageSize,
};
use crate::services::effects::{ask, done, duplicate_note, Effect, Note, Step, Turn};
use crate::services::query::agent::{row_cap, AgentQueryInvocationOrigin};
use crate::text::Text;

verus! {

/// What an agent asks to have read. The text of the query is fixed from here on.
#[derive(PartialEq, Eq)]
pub struct AgentDocumentReadRequest {
    pub connection_id: u128,
    pub query: DocumentQuery,
    pub query_text: String,
    pub max_rows: Option<u64>,
    pub origin: AgentQueryInvocationOrigin,
}

impl AgentDocumentReadRequest {
    /// A request for a query that was written as text, unless it could not be.
    pub fn try_new(
        connection_id: u128,
        query: DocumentQuery,
        query_text: AppResult<String>,
        max_rows: Option<u64>,
        origin: AgentQueryInvocationOrigin,
    ) -> (r: AppResult<AgentDocumentReadRequest>)
        ensures
            r == match query_text {
                Err(error) => Err(error),
                Ok(query_text) => Ok(
                    AgentDocumentReadRequest { connection_id, query, query_text, max_rows, origin },
                ),
            },
    {
        match query_text {
            Err(error) => Err(error),
            Ok(query_text) => Ok(
                AgentDocumentReadRequest { connection_id, query, query_text, max_rows, origin },
            ),
        }
    }
}

/// A query that is not a read.
#[derive(PartialEq, Eq)]
pub struct RejectedAgentDocumentRead {
    pub context: DocumentReadEventContext,
    pub message: Text,
}

/// A read that failed on the target.
#[derive(PartialEq, Eq)]
pub struct AgentDocumentExecutionFailure {
    pub context: DocumentReadEventContext,
    pub error: AppError,
}

impl AgentDocumentExecutionFailure {
    /// The failure as an application error.
    pub fn into_error(self) -> (r: AppError)
        ensures
            r == self.error,
    {
        self.error
    }
}

/// Why a read did not succeed.
#[derive(PartialEq, Eq)]
pub enum AgentDocumentReadError {
    /// The connection is to a database with tables.
    NonDocumentConnection,
    /// The query is not a read.
    Rejected(RejectedAgentDocumentRead),
    Application(AppError),
    Execution(AgentDocumentExecutionFailure),
}

/// How a read ends.
pub type AgentDocumentEnd = Result<DocumentReadResult, AgentDocumentReadError>;

/// Where a read stands: what it is waiting to hear.
#[derive(PartialEq, Eq)]
pub enum AgentDocument {
    Pin { request: AgentDocumentReadRequest },
    Classification { request: AgentDocumentReadRequest, pin: PinnedConnection },
    Safety { request: AgentDocumentReadRequest, pin: PinnedConnection },
    Connection { request: AgentDocumentReadRequest, pin: PinnedConnection, max_rows: u64 },
    Backend { request: AgentDocumentReadRequest, pin: PinnedConnection, max_rows: u64 },
    Page { request: AgentDocumentReadRequest, pin: PinnedConnection },
}

/// What a read asks of the outside world.
#[derive(PartialEq, Eq)]
pub enum AgentDocumentRequest {
    /// Look the connection up in the current scope and hold on to that scope.
    PinConnection { connection_id: u128, access: ConnectionAccess },
    /// Classify this query.
    Classify { query: DocumentQuery },
    /// Load the safety settings.
    LoadSafety { connection_id: u128 },
    /// Connect the pinned connection.
    Connect,
    /// Take the connection's document backend.
    OpenBackend,
    /// Run this query and fetch at most so many documents.
    Run { query: DocumentQuery, max_rows: u64 },
}

/// What the outside world answers.
#[derive(PartialEq, Eq)]
pub enum AgentDocumentReply {
    Pin(Result<PinnedConnection, AppError>),
    Classification(DocumentClassification),
    Safety(Result<SafetySettings, AppError>),
    Connection(Result<(), AppError>),
    Backend(Result<(), AppError>),
    Page(Result<PageSize, AppError>),
}

/// A step of a read.
pub type AgentDocumentStep = Step<AgentDocument, AgentDocumentRequest, AgentDocumentEnd>;

/// What follows an answer in a read.
pub type AgentDocumentTurn = Turn<AgentDocument, AgentDocumentRequest, AgentDocumentEnd>;

/// The end of a read that failed.
pub open spec fn failed(error: AppError) -> (Seq<Effect>, AgentDocumentTurn) {
    (Seq::empty(), Turn::Done(Err(AgentDocumentReadError::Application(error))))
}

fn fail(error: AppError) -> (r: AgentDocumentStep)
    ensures
        r.says(failed(error)),
{
    done(Err(AgentDocumentReadError::Application(error)))
}

/// What may be said of the read.
pub open spec fn context_of(request: AgentDocumentReadRequest, pin: PinnedConnection) ->
    DocumentReadEventContext {
    DocumentReadEventContext {
        connection_id: pin.connection_id,
        connection_name: pin.profile.name,
        query_text: request.query_text,
    }
}

/// What follows once the connection was looked up.
pub open spec fn after_pin(
    request: AgentDocumentReadRequest,
    reply: Result<PinnedConnection, AppError>,
) -> (Seq<Effect>, AgentDocumentTurn) {
    match reply {
        Err(error) => failed(error),
        Ok(pin) => if pin.profile.engine.spec_is_document() {
            (
                Seq::empty(),
                Turn::Ask {
                    state: AgentDocument::Classification { request, pin },
                    request: AgentDocumentRequest::Classify { query: request.query },
                },
            )
        } else {
            (Seq::empty(), Turn::Done(Err(AgentDocumentReadError::NonDocumentConnection)))
        },
    }
}

fn take_pin(request: AgentDocumentReadRequest, reply: Result<PinnedConnection, AppError>) -> (r:
    AgentDocumentStep)
    ensures
        r.says(after_pin(request, reply)),
{
    match reply {
        Err(error) => fail(error),
        Ok(pin) => {
            if pin.profile.engine.is_document() {
                let query = request.query.duplicate();
                ask(
                    AgentDocument::Classification { request, pin },
                    AgentDocumentRequest::Classify { query },
                )
            } else {
                done(Err(AgentDocumentReadError::NonDocumentConnection))
            }
        },
    }
}

/// What follows once the query was classified. A query that is not a read goes into the
/// audit chain and nowhere else.
pub open spec fn after_classification(
    request: AgentDocumentReadRequest,
    pin: PinnedConnection,
    reply: DocumentClassification,
) -> (Seq<Effect>, AgentDocumentTurn) {
    if reply.found.kind == QueryKind::Read {
        (
            Seq::empty(),
            Turn::Ask {
                state: AgentDocument::Safety { request, pin },
                request: AgentDocumentRequest::LoadSafety { connection_id: pin.connection_id },
            },
        )
    } else {
        let message = note_or(reply.first_note, rejection_fallback(request.origin));
        (
            seq![
                document_audit(
                    pin,
                    request.query_text,
                    reply.found.kind,
                    agent_action(request.origin),
                    None,
                    Some(Note::Said(message)),
                ),
            ],
            Turn::Done(
                Err(
                    AgentDocumentReadError::Rejected(
                        RejectedAgentDocumentRead { context: context_of(request, pin), message },
                    ),
                ),
            ),
        )
    }
}

fn take_classification(
    request: AgentDocumentReadRequest,
    pin: PinnedConnection,
    reply: DocumentClassification,
) -> (r: AgentDocumentStep)
    ensures
        r.says(after_classification(request, pin, reply)),
{
    if reply.found.kind == QueryKind::Read {
        let connection_id = pin.connection_id;
        return ask(
            AgentDocument::Safety { request, pin },
            AgentDocumentRequest::LoadSafety { connection_id },
        );
    }
    let message = first_note_or(&reply.first_note, agent_rejection_fallback(request.origin));
    let mut effects: Vec<Effect> = Vec::new();
    effects.push(
        audit_document(
            &pin,
            &request.query_text,
            reply.found.kind,
            agent_audit_action(request.origin),
            None,
            Some(Note::Said(message.duplicate())),
        ),
    );
    assert(effects@ =~= after_classification(request, pin, reply).0);
    let context = DocumentReadEventContext {
        connection_id: pin.connection_id,
        connection_name: pin.profile.name,
        query_text: request.query_text,
    };
    Step {
        effects,
        turn: Turn::Done(
            Err(AgentDocumentReadError::Rejected(RejectedAgentDocumentRead { context, message })),
        ),
    }
}

/// What follows once the safety settings were loaded.
pub open spec fn after_safety(
    request: AgentDocumentReadRequest,
    pin: PinnedConnection,
    reply: Result<SafetySettings, AppError>,
) -> (Seq<Effect>, AgentDocumentTurn) {
    match reply {
        Err(error) => failed(error),
        Ok(settings) => (
            Seq::empty(),
            Turn::Ask {
                state: AgentDocument::Connection {
                    request,
                    pin,
                    max_rows: row_cap(request.max_rows, settings.max_rows),
                },
                request: AgentDocumentRequest::Connect,
            },
        ),
    }
}

fn take_safety(
    request: AgentDocumentReadRequest,
    pin: PinnedConnection,
    reply: Result<SafetySettings, AppError>,
) -> (r: AgentDocumentStep)
    ensures
        r.says(after_safety(request, pin, reply)),
{
    match reply {
        Err(error) => fail(error),
        Ok(settings) => {
            let max_rows = bounded_agent_rows(request.max_rows, settings.max_rows);
            ask(
                AgentDocument::Connection { request, pin, max_rows },
                AgentDocumentRequest::Connect,
            )
        },
    }
}

/// What follows once the target was connected.
pub open spec fn after_connection(
    request: AgentDocumentReadRequest,
    pin: PinnedConnection,
    max_rows: u64,
    reply: Result<(), AppError>,
) -> (Seq<Effect>, AgentDocumentTurn) {
    match reply {
        Err(error) => failed(error),
        Ok(_) => (
            Seq::empty(),
            Turn::Ask {
                state: AgentDocument::Backend { request, pin, max_rows },
                request: AgentDocumentRequest::OpenBackend,
            },
        ),
    }
}

fn take_connection(
    request: AgentDocumentReadRequest,
    pin: PinnedConnection,
    max_rows: u64,
    reply: Result<(), AppError>,
) -> (r: AgentDocumentStep)
    ensures
        r.says(after_connection(request, pin, max_rows, reply)),
{
    match reply {
        Err(error) => fail(error),
        Ok(_) => ask(
            AgentDocument::Backend { request, pin, max_rows },
            AgentDocumentRequest::OpenBackend,
        ),
    }
}

/// What follows once the backend was opened.
pub open spec fn after_backend(
    request: AgentDocumentReadRequest,
    pin: PinnedConnection,
    max_rows: u64,
    reply: Result<(), AppError>,
) -> (Seq<Effect>, AgentDocumentTurn) {
    match reply {
        Err(error) => failed(error),
        Ok(_) => (
            Seq::empty(),
            Turn::Ask {
                state: AgentDocument::Page { request, pin },
                request: AgentDocumentRequest::Run { query: request.query, max_rows },
            },
        ),
    }
}

fn take_backend(
    request: AgentDocumentReadRequest,
    pin: PinnedConnection,
    max_rows: u64,
    reply: Result<(), AppError>,
) -> (r: AgentDocumentStep)
    ensures
        r.says(after_backend(request, pin, max_rows, reply)),
{
    match reply {
        Err(error) => fail(error),
        Ok(_) => {
            let query = request.query.duplicate();
            ask(
                AgentDocument::Page { request, pin },
                AgentDocumentRequest::Run { query, max_rows },
            )
        },
    }
}

/// The rows of a read that has been tried.
pub open spec fn read_rows(
    request: AgentDocumentReadRequest,
    pin: PinnedConnection,
    rows: Option<i64>,
    duration_ms: Option<i64>,
    error: Option<Note>,
) -> Seq<Effect> {
    seq![
        document_audit(
            pin,
            request.query_text,
            QueryKind::Read,
            agent_action(request.origin),
            None,
            error,
        ),
        document_history(
            pin,
            request.query_text,
            QueryKind::Read,
            if error is Some {
                "error"
            } else {
                "ok"
            },
            rows,
            duration_ms,
            error,
            Text::Plain("agent"),
        ),
    ]
}

fn record_read(
    request: &AgentDocumentReadRequest,
    pin: &PinnedConnection,
    rows: Option<i64>,
    duration_ms: Option<i64>,
    error: Option<Note>,
) -> (r: Vec<Effect>)
    ensures
        r@ == read_rows(*request, *pin, rows, duration_ms, error),
{
    let mut effects: Vec<Effect> = Vec::new();
    let status = if error.is_some() {
        "error"
    } else {
        "ok"
    };
    effects.push(
        audit_document(
            pin,
            &request.query_text,
            QueryKind::Read,
            agent_audit_action(request.origin),
            None,
            duplicate_note(&error),
        ),
    );
    let ghost note = error;
    effects.push(
        remember_document(
            pin,
            &request.query_text,
            QueryKind::Read,
            status,
            rows,
            duration_ms,
            error,
            Text::Plain(agent_history_origin(request.origin)),
        ),
    );
    assert(effects@ =~= read_rows(*request, *pin, rows, duration_ms, note));
    effects
}

/// What follows once the query was run.
pub open spec fn after_page(
    request: AgentDocumentReadRequest,
    pin: PinnedConnection,
    reply: Result<PageSize, AppError>,
) -> (Seq<Effect>, AgentDocumentTurn) {
    match reply {
        Err(error) => (
            read_rows(request, pin, None, None, Some(Note::Error(error))),
            Turn::Done(
                Err(
                    AgentDocumentReadError::Execution(
                        AgentDocumentExecutionFailure { context: context_of(request, pin), error },
                    ),
                ),
            ),
        ),
        Ok(size) => (
            read_rows(
                request,
                pin,
                Some(size.doc_count as i64),
                Some(size.duration_ms as i64),
                None,
            ),
            Turn::Done(
                Ok(
                    DocumentReadResult {
                        context: context_of(request, pin),
                        query: request.query,
                        size,
                    },
                ),
            ),
        ),
    }
}

fn take_page(
    request: AgentDocumentReadRequest,
    pin: PinnedConnection,
    reply: Result<PageSize, AppError>,
) -> (r: AgentDocumentStep)
    ensures
        r.says(after_page(request, pin, reply)),
{
    match reply {
        Err(error) => {
            let effects = record_read(
                &request,
                &pin,
                None,
                None,
                Some(Note::Error(error.duplicate())),
            );
            let context = DocumentReadEventContext {
                connection_id: pin.connection_id,
                connection_name: pin.profile.name,
                query_text: request.query_text,
            };
            Step {
                effects,
                turn: Turn::Done(
                    Err(
                        AgentDocumentReadError::Execution(
                            AgentDocumentExecutionFailure { context, error },
                        ),
                    ),
                ),
            }
        },
        Ok(size) => {
            let effects = record_read(
                &request,
                &pin,
                Some(size.doc_count as i64),
                Some(size.duration_ms as i64),
                None,
            );
            let context = DocumentReadEventContext {
                connection_id: pin.connection_id,
                connection_name: pin.profile.name,
                query_text: request.query_text,
            };
            Step {
                effects,
                turn: Turn::Done(Ok(DocumentReadResult { context, query: request.query, size })),
            }
        },
    }
}

impl AgentDocument {
    /// Whether `reply` answers what is awaited.
    pub open spec fn awaits(self, reply: AgentDocumentReply) -> bool {
        match self {
            AgentDocument::Pin { .. } => reply is Pin,
            AgentDocument::Classification { .. } => reply is Classification,
            AgentDocument::Safety { .. } => reply is Safety,
            AgentDocument::Connection { .. } => reply is Connection,
            AgentDocument::Backend { .. } => reply is Backend,
            AgentDocument::Page { .. } => reply is Page,
        }
    }

    /// The effects and the turn that follow `reply`.
    pub open spec fn after(self, reply: AgentDocumentReply) -> (Seq<Effect>, AgentDocumentTurn) {
        match self {
            AgentDocument::Pin { request } => after_pin(request, reply->Pin_0),
            AgentDocument::Classification { request, pin } => after_classification(
                request,
                pin,
                reply->Classification_0,
            ),
            AgentDocument::Safety { request, pin } => after_safety(request, pin, reply->Safety_0),
            AgentDocument::Connection { request, pin, max_rows } => after_connection(
                request,
                pin,
                max_rows,
                reply->Connection_0,
            ),
            AgentDocument::Backend { request, pin, max_rows } => after_backend(
                request,
                pin,
                max_rows,
                reply->Backend_0,
            ),
            AgentDocument::Page { request, pin } => after_page(request, pin, reply->Page_0),
        }
    }

    /// Begins a read.
    pub fn start(request: AgentDocumentReadRequest) -> (r: AgentDocumentStep)
        ensures
            r.says(
                (
                    Seq::empty(),
                    Turn::Ask {
                        state: AgentDocument::Pin { request },
                        request: AgentDocumentRequest::PinConnection {
                            connection_id: request.connection_id,
                            access: ConnectionAccess::Read,
                        },
                    },
                ),
            ),
    {
        let connection_id = request.connection_id;
        ask(
            AgentDocument::Pin { request },
            AgentDocumentRequest::PinConnection { connection_id, access: ConnectionAccess::Read },
        )
    }

    /// Takes the answer to the last question.
    pub fn advance(self, reply: AgentDocumentReply) -> (r: AgentDocumentStep)
        requires
            self.awaits(reply),
        ensures
            r.says(self.after(reply)),
    {
        match (self, reply) {
            (AgentDocument::Pin { request }, AgentDocumentReply::Pin(reply)) => take_pin(
                request,
                reply,
            ),
            (
                AgentDocument::Classification { request, pin },
                AgentDocumentReply::Classification(reply),
            ) => take_classification(request, pin, reply),
            (
                AgentDocument::Safety { request, pin },
                AgentDocumentReply::Safety(reply),
            ) => take_safety(request, pin, reply),
            (
                AgentDocument::Connection { request, pin, max_rows },
                AgentDocumentReply::Connection(reply),
            ) => take_connection(request, pin, max_rows, reply),
            (
                AgentDocument::Backend { request, pin, max_rows },
                AgentDocumentReply::Backend(reply),
            ) => take_backend(request, pin, max_rows, reply),
            (
                AgentDocument::Page { request, pin },
                AgentDocumentReply::Page(reply),
            ) => take_page(request, pin, reply),
            _ => unreached(),
        }
    }
}

/// Where a read stands after these answers, if it is still going on and every one of them
/// answered what was asked.
pub open spec fn state_after(
    request: AgentDocumentReadRequest,
    replies: Seq<AgentDocumentReply>,
) -> Option<AgentDocument>
    decreases replies.len(),
{
    if replies.len() == 0 {
        Some(AgentDocument::Pin { request })
    } else {
        match state_after(request, replies.drop_last()) {
            None => None,
            Some(state) => if state.awaits(replies.last()) {
                match state.after(replies.last()).1 {
                    Turn::Ask { state, .. } => Some(state),
                    Turn::Done(_) => None,
                }
            } else {
                None
            },
        }
    }
}

/// Whether the answers so far say that the connection is to a document database and the
/// query a read.
pub open spec fn accepted(replies: Seq<AgentDocumentReply>, pin: PinnedConnection) -> bool {
    &&& replies.len() >= 2
    &&& replies[0] == AgentDocumentReply::Pin(Ok(pin))
    &&& pin.profile.engine.spec_is_document()
    &&& replies[1] matches AgentDocumentReply::Classification(classification)
    &&& classification.found.kind == QueryKind::Read
}

/// What the answers must have been for a read to stand where it stands.
pub open spec fn explained(
    request: AgentDocumentReadRequest,
    replies: Seq<AgentDocumentReply>,
    state: AgentDocument,
) -> bool {
    match state {
        AgentDocument::Pin { request: asked } => asked == request && replies.len() == 0,
        AgentDocument::Classification { request: asked, pin } => {
            &&& asked == request && replies.len() == 1
            &&& replies[0] == AgentDocumentReply::Pin(Ok(pin))
            &&& pin.profile.engine.spec_is_document()
        },
        AgentDocument::Safety { request: asked, pin } => {
            asked == request && replies.len() == 2 && accepted(replies, pin)
        },
        AgentDocument::Connection { request: asked, pin, max_rows } => {
            &&& asked == request && replies.len() == 3 && accepted(replies, pin)
            &&& replies[2] matches AgentDocumentReply::Safety(Ok(settings))
            &&& max_rows == row_cap(request.max_rows, settings.max_rows)
        },
        AgentDocument::Backend { request: asked, pin, max_rows } => {
            &&& asked == request && replies.len() == 4 && accepted(replies, pin)
            &&& replies[2] matches AgentDocumentReply::Safety(Ok(settings))
            &&& max_rows == row_cap(request.max_rows, settings.max_rows)
        },
        AgentDocument::Page { request: asked, pin } => {
            asked == request && replies.len() == 5 && accepted(replies, pin)
        },
    }
}

/// A read stands nowhere that its answers do not explain: in particular a document database
/// is connected only for a query that was classified as a read, with the agents' cap.
pub proof fn every_state_is_explained(
    request: AgentDocumentReadRequest,
    replies: Seq<AgentDocumentReply>,
)
    ensures
        state_after(request, replies) matches Some(state) ==> explained(request, replies, state),
    decreases replies.len(),
{
    if replies.len() > 0 {
        let earlier = replies.drop_last();
        every_state_is_explained(request, earlier);
        assert(forall|k: int| 0 <= k < earlier.len() ==> earlier[k] == replies[k]);
        match state_after(request, earlier) {
            None => {},
            Some(before) => {
                assert(explained(request, earlier, before));
            },
        }
    }
}

} // verus!
