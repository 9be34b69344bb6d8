//! A document read from the desktop.
use vstd::pervasive::unreached;
use vstd::prelude::*;

use crate::error::AppError;
use crate::model::{Classification, ConnectionAccess, QueryKind, SafetySettings};
use crate::operations::PinnedConnection;
use crate::services::document::shared::{
    audit_document, blocked_reason, bounded_desktop_rows, desktop_blocked_reason, desktop_cap,
    document_audit, document_history, remember_document, DocumentClassification, DocumentQuery,
    DocumentReadEventContext, DocumentReadResult, PageSize,
};
use crate::services::effects::{ask, done, duplicate_note, Effect, Note, Step, Turn};
use crate::services::query::desktop_propose::origin_of;
use crate::services::query::shared::GateDecision;
use crate::text::Text;

verus! {

/// What the desktop asks to have read.
#[derive(PartialEq, Eq)]
pub struct DesktopDocumentReadRequest {
    pub connection_id: u128,
    pub query: DocumentQuery,
    pub approved: bool,
    pub query_id: Option<u128>,
    pub origin: Option<String>,
}

/// A read refused by policy.
#[derive(PartialEq, Eq)]
pub struct DesktopDocumentBlocked {
    pub reason: Text,
}

impl DesktopDocumentBlocked {
    /// The refusal as an application error.
    pub fn into_error(self) -> (r: AppError)
        ensures
            r == (AppError::Blocked { reason: self.reason }),
    {
        AppError::Blocked { reason: self.reason }
    }
}

/// A read that failed on the target.
#[derive(PartialEq, Eq)]
pub struct DesktopDocumentExecutionFailure {
    pub error: AppError,
}

impl DesktopDocumentExecutionFailure {
    /// The failure as an application error.
    pub fn into_error(self) -> (r: AppError)
        ensures
            r == self.error,
    {
        self.error
    }
}

/// Why a read did not succeed.
#[derive(PartialEq, Eq)]
pub enum DesktopDocumentReadError {
    NonDocumentConnection,
    Blocked(DesktopDocumentBlocked),
    Application(AppError),
    Execution(DesktopDocumentExecutionFailure),
}

impl DesktopDocumentReadError {
    /// The error that the failure stands for.
    pub open spec fn error(self) -> AppError {
        match self {
            DesktopDocumentReadError::NonDocumentConnection => AppError::Config(
                Text::Plain("document queries are only available on MongoDB connections"),
            ),
            DesktopDocumentReadError::Blocked(blocked) => AppError::Blocked {
                reason: blocked.reason,
            },
            DesktopDocumentReadError::Application(error) => error,
            DesktopDocumentReadError::Execution(failure) => failure.error,
        }
    }

    /// The failure as an application error.
    pub fn into_error(self) -> (r: AppError)
        ensures
            r == self.error(),
    {
        match self {
            DesktopDocumentReadError::NonDocumentConnection => AppError::Config(
                Text::Plain("document queries are only available on MongoDB connections"),
            ),
            DesktopDocumentReadError::Blocked(blocked) => blocked.into_error(),
            DesktopDocumentReadError::Application(error) => error,
            DesktopDocumentReadError::Execution(failure) => failure.into_error(),
        }
    }
}

/// A read whose query is known.
#[derive(PartialEq, Eq)]
pub struct InspectedRead {
    pub request: DesktopDocumentReadRequest,
    pub pin: PinnedConnection,
    pub settings: SafetySettings,
    pub classification: DocumentClassification,
    pub query_text: String,
}

impl InspectedRead {
    /// The rows that close a read.
    pub open spec fn rows(
        self,
        kind: QueryKind,
        action: &'static str,
        status: &'static str,
        rows: Option<i64>,
        duration_ms: Option<i64>,
        error: Option<Note>,
    ) -> Seq<Effect> {
        seq![
            document_audit(self.pin, self.query_text, kind, action, rows, error),
            document_history(
                self.pin,
                self.query_text,
                kind,
                status,
                rows,
                duration_ms,
                error,
                origin_of(self.request.origin),
            ),
        ]
    }

    fn record(
        &self,
        kind: QueryKind,
        action: &'static str,
        status: &'static str,
        rows: Option<i64>,
        duration_ms: Option<i64>,
        error: Option<Note>,
    ) -> (r: Vec<Effect>)
        ensures
            r@ == self.rows(kind, action, status, rows, duration_ms, error),
    {
        let origin = match &self.request.origin {
            Some(origin) => Text::Owned(origin.clone()),
            None => Text::Plain("manual"),
        };
        let mut effects: Vec<Effect> = Vec::new();
        effects.push(
            audit_document(
                &self.pin,
                &self.query_text,
                kind,
                action,
                rows,
                duplicate_note(&error),
            ),
        );
        let ghost note = error;
        effects.push(
            remember_document(
                &self.pin,
                &self.query_text,
                kind,
                status,
                rows,
                duration_ms,
                error,
                origin,
            ),
        );
        assert(effects@ =~= self.rows(kind, action, status, rows, duration_ms, note));
        effects
    }
}

/// How a read ends.
pub type DesktopDocumentEnd = Result<DocumentReadResult, DesktopDocumentReadError>;

/// Where a read stands: what it is waiting to hear.
#[derive(PartialEq, Eq)]
pub enum DesktopDocument {
    Pin { request: DesktopDocumentReadRequest },
    Safety { request: DesktopDocumentReadRequest, pin: PinnedConnection },
    Query { request: DesktopDocumentReadRequest, pin: PinnedConnection, settings: SafetySettings },
    Gate { read: InspectedRead },
    Connection { read: InspectedRead },
    Backend { read: InspectedRead },
    Page { read: InspectedRead },
}

/// What a read asks of the outside world.
#[derive(PartialEq, Eq)]
pub enum DesktopDocumentRequest {
    /// Look the connection up in the current scope and hold on to that scope.
    PinConnection { connection_id: u128 },
    /// Load the safety settings.
    LoadSafety { connection_id: u128 },
    /// Classify this query and write it as text.
    InspectQuery { query: DocumentQuery },
    /// Ask the safety gate.
    Decide { settings: SafetySettings, classification: Classification },
    /// Connect the pinned connection.
    Connect { access: ConnectionAccess },
    /// Take the connection's document backend.
    OpenBackend,
    /// Run this query, such that it can be cancelled under its id, and fetch at most so many
    /// documents.
    Run { query: DocumentQuery, max_rows: u64, query_id: Option<u128> },
}

/// What the outside world answers.
#[derive(PartialEq, Eq)]
pub enum DesktopDocumentReply {
    Pin(Result<PinnedConnection, AppError>),
    Safety(Result<SafetySettings, AppError>),
    Query { classification: DocumentClassification, query_text: Result<String, AppError> },
    Gate(GateDecision),
    Connection(Result<(), AppError>),
    Backend(Result<(), AppError>),
    Page(Result<PageSize, AppError>),
}

/// A step of a read.
pub type DesktopDocumentStep = Step<DesktopDocument, DesktopDocumentRequest, DesktopDocumentEnd>;

/// What follows an answer in a read.
pub type DesktopDocumentTurn = Turn<DesktopDocument, DesktopDocumentRequest, DesktopDocumentEnd>;

/// The end of a read that failed.
pub open spec fn failed(error: AppError) -> (Seq<Effect>, DesktopDocumentTurn) {
    (Seq::empty(), Turn::Done(Err(DesktopDocumentReadError::Application(error))))
}

fn fail(error: AppError) -> (r: DesktopDocumentStep)
    ensures
        r.says(failed(error)),
{
    done(Err(DesktopDocumentReadError::Application(error)))
}

/// What follows once the connection was looked up.
pub open spec fn after_pin(
    request: DesktopDocumentReadRequest,
    reply: Result<PinnedConnection, AppError>,
) -> (Seq<Effect>, DesktopDocumentTurn) {
    match reply {
        Err(error) => failed(error),
        Ok(pin) => if pin.profile.engine.spec_is_document() {
            (
                Seq::empty(),
                Turn::Ask {
                    state: DesktopDocument::Safety { request, pin },
                    request: DesktopDocumentRequest::LoadSafety {
                        connection_id: pin.connection_id,
                    },
                },
            )
        } else {
            (Seq::empty(), Turn::Done(Err(DesktopDocumentReadError::NonDocumentConnection)))
        },
    }
}

fn take_pin(request: DesktopDocumentReadRequest, reply: Result<PinnedConnection, AppError>) -> (r:
    DesktopDocumentStep)
    ensures
        r.says(after_pin(request, reply)),
{
    match reply {
        Err(error) => fail(error),
        Ok(pin) => {
            if pin.profile.engine.is_document() {
                let connection_id = pin.connection_id;
                ask(
                    DesktopDocument::Safety { request, pin },
                    DesktopDocumentRequest::LoadSafety { connection_id },
                )
            } else {
                done(Err(DesktopDocumentReadError::NonDocumentConnection))
            }
        },
    }
}

/// What follows once the safety settings were loaded.
pub open spec fn after_safety(
    request: DesktopDocumentReadRequest,
    pin: PinnedConnection,
    reply: Result<SafetySettings, AppError>,
) -> (Seq<Effect>, DesktopDocumentTurn) {
    match reply {
        Err(error) => failed(error),
        Ok(settings) => (
            Seq::empty(),
            Turn::Ask {
                state: DesktopDocument::Query { request, pin, settings },
                request: DesktopDocumentRequest::InspectQuery { query: request.query },
            },
        ),
    }
}

fn take_safety(
    request: DesktopDocumentReadRequest,
    pin: PinnedConnection,
    reply: Result<SafetySettings, AppError>,
) -> (r: DesktopDocumentStep)
    ensures
        r.says(after_safety(request, pin, reply)),
{
    match reply {
        Err(error) => fail(error),
        Ok(settings) => {
            let query = request.query.duplicate();
            ask(
                DesktopDocument::Query { request, pin, settings },
                DesktopDocumentRequest::InspectQuery { query },
            )
        },
    }
}

/// The refusal of a read, which the rows record too.
pub open spec fn recorded_refusal(read: InspectedRead, reason: Text) -> (
    Seq<Effect>,
    DesktopDocumentTurn,
) {
    (
        read.rows(
            read.classification.found.kind,
            "blocked",
            "blocked",
            None,
            None,
            Some(Note::Said(reason)),
        ),
        Turn::Done(Err(DesktopDocumentReadError::Blocked(DesktopDocumentBlocked { reason }))),
    )
}

fn refuse(read: InspectedRead, reason: Text) -> (r: DesktopDocumentStep)
    ensures
        r.says(recorded_refusal(read, reason)),
{
    let effects = read.record(
        read.classification.found.kind,
        "blocked",
        "blocked",
        None,
        None,
        Some(Note::Said(reason.duplicate())),
    );
    Step {
        effects,
        turn: Turn::Done(Err(DesktopDocumentReadError::Blocked(DesktopDocumentBlocked { reason }))),
    }
}

/// What follows once the query was inspected. Only a read is put to the safety check.
pub open spec fn after_query(
    request: DesktopDocumentReadRequest,
    pin: PinnedConnection,
    settings: SafetySettings,
    classification: DocumentClassification,
    query_text: Result<String, AppError>,
) -> (Seq<Effect>, DesktopDocumentTurn) {
    match query_text {
        Err(error) => failed(error),
        Ok(query_text) => {
            let read = InspectedRead { request, pin, settings, classification, query_text };
            if classification.found.kind != QueryKind::Read {
                recorded_refusal(
                    read,
                    blocked_reason(classification, GateDecision::AutoRun, request.approved)->0,
                )
            } else {
                (
                    Seq::empty(),
                    Turn::Ask {
                        state: DesktopDocument::Gate { read },
                        request: DesktopDocumentRequest::Decide {
                            settings,
                            classification: classification.found,
                        },
                    },
                )
            }
        },
    }
}

fn take_query(
    request: DesktopDocumentReadRequest,
    pin: PinnedConnection,
    settings: SafetySettings,
    classification: DocumentClassification,
    query_text: Result<String, AppError>,
) -> (r: DesktopDocumentStep)
    ensures
        r.says(after_query(request, pin, settings, classification, query_text)),
{
    match query_text {
        Err(error) => fail(error),
        Ok(query_text) => {
            let approved = request.approved;
            let read = InspectedRead { request, pin, settings, classification, query_text };
            match desktop_blocked_reason(&read.classification, &GateDecision::AutoRun, approved) {
                Some(reason) => refuse(read, reason),
                None => {
                    let question = DesktopDocumentRequest::Decide {
                        settings,
                        classification: read.classification.found,
                    };
                    ask(DesktopDocument::Gate { read }, question)
                },
            }
        },
    }
}

/// What follows once the safety check has decided.
pub open spec fn after_gate(read: InspectedRead, reply: GateDecision) -> (
    Seq<Effect>,
    DesktopDocumentTurn,
) {
    match blocked_reason(read.classification, reply, read.request.approved) {
        Some(reason) => recorded_refusal(read, reason),
        None => (
            Seq::empty(),
            Turn::Ask {
                state: DesktopDocument::Connection { read },
                request: DesktopDocumentRequest::Connect { access: ConnectionAccess::Read },
            },
        ),
    }
}

fn take_gate(read: InspectedRead, reply: GateDecision) -> (r: DesktopDocumentStep)
    ensures
        r.says(after_gate(read, reply)),
{
    match desktop_blocked_reason(&read.classification, &reply, read.request.approved) {
        Some(reason) => refuse(read, reason),
        None => ask(
            DesktopDocument::Connection { read },
            DesktopDocumentRequest::Connect { access: ConnectionAccess::Read },
        ),
    }
}

/// What follows once the target was connected.
pub open spec fn after_connection(read: InspectedRead, reply: Result<(), AppError>) -> (
    Seq<Effect>,
    DesktopDocumentTurn,
) {
    match reply {
        Err(error) => (
            read.rows(
                read.classification.found.kind,
                "error",
                "error",
                None,
                None,
                Some(Note::Error(error)),
            ),
            Turn::Done(Err(DesktopDocumentReadError::Application(error))),
        ),
        Ok(_) => (
            Seq::empty(),
            Turn::Ask {
                state: DesktopDocument::Backend { read },
                request: DesktopDocumentRequest::OpenBackend,
            },
        ),
    }
}

fn take_connection(read: InspectedRead, reply: Result<(), AppError>) -> (r: DesktopDocumentStep)
    ensures
        r.says(after_connection(read, reply)),
{
    match reply {
        Err(error) => Step {
            effects: read.record(
                read.classification.found.kind,
                "error",
                "error",
                None,
                None,
                Some(Note::Error(error.duplicate())),
            ),
            turn: Turn::Done(Err(DesktopDocumentReadError::Application(error))),
        },
        Ok(_) => ask(DesktopDocument::Backend { read }, DesktopDocumentRequest::OpenBackend),
    }
}

/// What follows once the backend was opened.
pub open spec fn after_backend(read: InspectedRead, reply: Result<(), AppError>) -> (
    Seq<Effect>,
    DesktopDocumentTurn,
) {
    match reply {
        Err(error) => failed(error),
        Ok(_) => (
            Seq::empty(),
            Turn::Ask {
                state: DesktopDocument::Page { read },
                request: DesktopDocumentRequest::Run {
                    query: read.request.query,
                    max_rows: desktop_cap(read.settings.max_rows),
                    query_id: read.request.query_id,
                },
            },
        ),
    }
}

fn take_backend(read: InspectedRead, reply: Result<(), AppError>) -> (r: DesktopDocumentStep)
    ensures
        r.says(after_backend(read, reply)),
{
    match reply {
        Err(error) => fail(error),
        Ok(_) => {
            let request = DesktopDocumentRequest::Run {
                query: read.request.query.duplicate(),
                max_rows: bounded_desktop_rows(read.settings.max_rows),
                query_id: read.request.query_id,
            };
            ask(DesktopDocument::Page { read }, request)
        },
    }
}

/// What follows once the query was run.
pub open spec fn after_page(read: InspectedRead, reply: Result<PageSize, AppError>) -> (
    Seq<Effect>,
    DesktopDocumentTurn,
) {
    match reply {
        Ok(size) => (
            read.rows(
                QueryKind::Read,
                "read",
                "ok",
                Some(size.doc_count as i64),
                Some(size.duration_ms as i64),
                None,
            ),
            Turn::Done(
                Ok(
                    DocumentReadResult {
                        context: DocumentReadEventContext {
                            connection_id: read.pin.connection_id,
                            connection_name: read.pin.profile.name,
                            query_text: read.query_text,
                        },
                        query: read.request.query,
                        size,
                    },
                ),
            ),
        ),
        Err(error) => (
            read.rows(QueryKind::Read, "error", "error", None, None, Some(Note::Error(error))),
            Turn::Done(
                Err(
                    DesktopDocumentReadError::Execution(DesktopDocumentExecutionFailure { error }),
                ),
            ),
        ),
    }
}

fn take_page(read: InspectedRead, reply: Result<PageSize, AppError>) -> (r: DesktopDocumentStep)
    ensures
        r.says(after_page(read, reply)),
{
    match reply {
        Ok(size) => {
            let effects = read.record(
                QueryKind::Read,
                "read",
                "ok",
                Some(size.doc_count as i64),
                Some(size.duration_ms as i64),
                None,
            );
            Step {
                effects,
                turn: Turn::Done(
                    Ok(
                        DocumentReadResult {
                            context: DocumentReadEventContext {
                                connection_id: read.pin.connection_id,
                                connection_name: read.pin.profile.name,
                                query_text: read.query_text,
                            },
                            query: read.request.query,
                            size,
                        },
                    ),
                ),
            }
        },
        Err(error) => {
            let effects = read.record(
                QueryKind::Read,
                "error",
                "error",
                None,
                None,
                Some(Note::Error(error.duplicate())),
            );
            Step {
                effects,
                turn: Turn::Done(
                    Err(
                        DesktopDocumentReadError::Execution(
                            DesktopDocumentExecutionFailure { error },
                        ),
                    ),
                ),
            }
        },
    }
}

impl DesktopDocument {
    /// Whether `reply` answers what is awaited.
    pub open spec fn awaits(self, reply: DesktopDocumentReply) -> bool {
        match self {
            DesktopDocument::Pin { .. } => reply is Pin,
            DesktopDocument::Safety { .. } => reply is Safety,
            DesktopDocument::Query { .. } => reply is Query,
            DesktopDocument::Gate { .. } => reply is Gate,
            DesktopDocument::Connection { .. } => reply is Connection,
            DesktopDocument::Backend { .. } => reply is Backend,
            DesktopDocument::Page { .. } => reply is Page,
        }
    }

    /// The effects and the turn that follow `reply`.
    pub open spec fn after(
        self,
        reply: DesktopDocumentReply,
    ) -> (Seq<Effect>, DesktopDocumentTurn) {
        match self {
            DesktopDocument::Pin { request } => after_pin(request, reply->Pin_0),
            DesktopDocument::Safety { request, pin } => after_safety(request, pin, reply->Safety_0),
            DesktopDocument::Query { request, pin, settings } => after_query(
                request,
                pin,
                settings,
                reply->classification,
                reply->query_text,
            ),
            DesktopDocument::Gate { read } => after_gate(read, reply->Gate_0),
            DesktopDocument::Connection { read } => after_connection(read, reply->Connection_0),
            DesktopDocument::Backend { read } => after_backend(read, reply->Backend_0),
            DesktopDocument::Page { read } => after_page(read, reply->Page_0),
        }
    }

    /// Begins a read.
    pub fn start(request: DesktopDocumentReadRequest) -> (r: DesktopDocumentStep)
        ensures
            r.says(
                (
                    Seq::empty(),
                    Turn::Ask {
                        state: DesktopDocument::Pin { request },
                        request: DesktopDocumentRequest::PinConnection {
                            connection_id: request.connection_id,
                        },
                    },
                ),
            ),
    {
        let connection_id = request.connection_id;
        ask(
            DesktopDocument::Pin { request },
            DesktopDocumentRequest::PinConnection { connection_id },
        )
    }

    /// Takes the answer to the last question.
    pub fn advance(self, reply: DesktopDocumentReply) -> (r: DesktopDocumentStep)
        requires
            self.awaits(reply),
        ensures
            r.says(self.after(reply)),
    {
        match (self, reply) {
            (DesktopDocument::Pin { request }, DesktopDocumentReply::Pin(reply)) => take_pin(
                request,
                reply,
            ),
            (
                DesktopDocument::Safety { request, pin },
                DesktopDocumentReply::Safety(reply),
            ) => take_safety(request, pin, reply),
            (
                DesktopDocument::Query { request, pin, settings },
                DesktopDocumentReply::Query { classification, query_text },
            ) => take_query(request, pin, settings, classification, query_text),
            (DesktopDocument::Gate { read }, DesktopDocumentReply::Gate(reply)) => take_gate(
                read,
                reply,
            ),
            (
                DesktopDocument::Connection { read },
                DesktopDocumentReply::Connection(reply),
            ) => take_connection(read, reply),
            (
                DesktopDocument::Backend { read },
                DesktopDocumentReply::Backend(reply),
            ) => take_backend(read, reply),
            (DesktopDocument::Page { read }, DesktopDocumentReply::Page(reply)) => take_page(
                read,
                reply,
            ),
            _ => unreached(),
        }
    }
}

/// Where a read stands after these answers, if it is still going on and every one of them
/// answered what was asked.
pub open spec fn state_after(
    request: DesktopDocumentReadRequest,
    replies: Seq<DesktopDocumentReply>,
) -> Option<DesktopDocument>
    decreases replies.len(),
{
    if replies.len() == 0 {
        Some(DesktopDocument::Pin { request })
    } else {
        match state_after(request, replies.drop_last()) {
            None => None,
            Some(state) => if state.awaits(replies.last()) {
                match state.after(replies.last()).1 {
                    Turn::Ask { state, .. } => Some(state),
                    Turn::Done(_) => None,
                }
            } else {
                None
            },
        }
    }
}

/// Whether the answers so far say that the query is a read of a document database.
pub open spec fn inspected(
    request: DesktopDocumentReadRequest,
    replies: Seq<DesktopDocumentReply>,
    read: InspectedRead,
) -> bool {
    &&& read.request == request && replies.len() >= 3
    &&& replies[0] == DesktopDocumentReply::Pin(Ok(read.pin))
    &&& read.pin.profile.engine.spec_is_document()
    &&& replies[1] == DesktopDocumentReply::Safety(Ok(read.settings))
    &&& replies[2] == (DesktopDocumentReply::Query {
        classification: read.classification,
        query_text: Ok(read.query_text),
    })
    &&& read.classification.found.kind == QueryKind::Read
}

/// Whether, besides, the safety check let it through.
pub open spec fn passed(
    request: DesktopDocumentReadRequest,
    replies: Seq<DesktopDocumentReply>,
    read: InspectedRead,
) -> bool {
    &&& inspected(request, replies, read) && replies.len() >= 4
    &&& replies[3] matches DesktopDocumentReply::Gate(gate)
    &&& blocked_reason(read.classification, gate, request.approved) is None
}

/// What the answers must have been for a read to stand where it stands.
pub open spec fn explained(
    request: DesktopDocumentReadRequest,
    replies: Seq<DesktopDocumentReply>,
    state: DesktopDocument,
) -> bool {
    match state {
        DesktopDocument::Pin { request: asked } => asked == request && replies.len() == 0,
        DesktopDocument::Safety { request: asked, pin } => {
            &&& asked == request && replies.len() == 1
            &&& replies[0] == DesktopDocumentReply::Pin(Ok(pin))
            &&& pin.profile.engine.spec_is_document()
        },
        DesktopDocument::Query { request: asked, pin, settings } => {
            &&& asked == request && replies.len() == 2
            &&& replies[0] == DesktopDocumentReply::Pin(Ok(pin))
            &&& pin.profile.engine.spec_is_document()
            &&& replies[1] == DesktopDocumentReply::Safety(Ok(settings))
        },
        DesktopDocument::Gate { read } => replies.len() == 3 && inspected(request, replies, read),
        DesktopDocument::Connection { read } => replies.len() == 4 && passed(
            request,
            replies,
            read,
        ),
        DesktopDocument::Backend { read } => replies.len() == 5 && passed(request, replies, read),
        DesktopDocument::Page { read } => replies.len() == 6 && passed(request, replies, read),
    }
}

/// A read stands nowhere that its answers do not explain: in particular a document database
/// is connected only for a read that the safety check let through.
pub proof fn every_state_is_explained(
    request: DesktopDocumentReadRequest,
    replies: Seq<DesktopDocumentReply>,
)
    ensures
        state_after(request, replies) matches Some(state) ==> explained(request, replies, state),
    decreases replies.len(),
{
    if replies.len() > 0 {
        let earlier = replies.drop_last();
        every_state_is_explained(request, earlier);
        assert(forall|k: int| 0 <= k < earlier.len() ==> earlier[k] == replies[k]);
        match state_after(request, earlier) {
            None => {},
            Some(before) => {
                assert(explained(request, earlier, before));
            },
        }
    }
}

} // verus!
