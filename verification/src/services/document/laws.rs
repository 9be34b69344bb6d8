//! What reading documents asks for and leaves behind, in every run.
use vstd::prelude::*;

use crate::error::AppError;
use crate::model::{ConnectionAccess, Engine, QueryKind, SafetySettings};
use crate::operations::PinnedConnection;
use crate::services::document::agent::{
    AgentDocument, AgentDocumentReadError, AgentDocumentReadRequest, AgentDocumentReply,
    AgentDocumentRequest, AgentDocumentStep,
};
use crate::services::document::desktop::{
    DesktopDocument, DesktopDocumentReadError, DesktopDocumentReadRequest, DesktopDocumentReply,
    DesktopDocumentRequest, DesktopDocumentStep, DesktopDocumentTurn,
};
use crate::services::document::shared::{
    DocumentClassification, DocumentReadEventContext, PageSize,
};
use crate::services::effects::{Effect, Note, Turn};
use crate::services::query::agent::AgentQueryInvocationOrigin;
use crate::services::query::shared::GateDecision;
use crate::text::Text;

verus! {

/// Whether a context tells of this text on the pinned connection.
pub open spec fn tells_of(
    context: DocumentReadEventContext,
    pin: PinnedConnection,
    query_text: String,
) -> bool {
    &&& context.connection_id == pin.connection_id
    &&& context.connection_name == pin.profile.name
    &&& context.query_text == query_text
}

/// Whether this is the row of the audit chain of this text on the pinned connection.
pub open spec fn is_audit(
    effect: Effect,
    pin: PinnedConnection,
    query_text: String,
    kind: QueryKind,
    action: &'static str,
    rows: Option<i64>,
    error: Option<Note>,
) -> bool {
    &&& effect matches Effect::Audit(row)
    &&& row.connection_id == pin.connection_id
    &&& row.engine == pin.profile.engine
    &&& row.sql == query_text
    &&& row.kind == kind
    &&& row.action == Text::Plain(action)
    &&& row.approved_by is None
    &&& row.affected_estimate == rows
    &&& row.error == error
}

/// Whether this is the row of the history of this text on the pinned connection.
pub open spec fn is_history(
    effect: Effect,
    pin: PinnedConnection,
    query_text: String,
    kind: QueryKind,
    status: &'static str,
    rows: Option<i64>,
    duration_ms: Option<i64>,
    error: Option<Note>,
    origin: Text,
) -> bool {
    &&& effect matches Effect::History(row)
    &&& row.connection_id == pin.connection_id
    &&& row.sql == query_text
    &&& row.kind == kind
    &&& row.status == status
    &&& row.row_count == rows
    &&& row.duration_ms == duration_ms
    &&& row.error == error
    &&& row.origin == origin
}

/// An agent's read from its beginning, told by what was requested and answered. It is of
/// the connection that was named, which must be to a document database, and the query that
/// is classified and run is the one requested. What is not a read is refused, in the
/// classifier's words where it has any, and goes into the audit chain. As many documents
/// are fetched as were requested, or as the settings allow where none were, and never more
/// than a thousand. A read that was tried is recorded with what came of it.
#[verifier::spinoff_prover]
#[verifier::rlimit(60)]
pub proof fn agents_read_what_they_requested(
    request: AgentDocumentReadRequest,
    begun: AgentDocumentStep,
    pin: PinnedConnection,
    classification: DocumentClassification,
    settings: SafetySettings,
    size: PageSize,
    error: AppError,
)
    requires
        call_ensures(AgentDocument::start, (request,), begun),
    ensures
        ({
            let action = match request.origin {
                AgentQueryInvocationOrigin::Mcp => "mcp:run_document_query",
                AgentQueryInvocationOrigin::Cli => "cli:run_document_query",
            };
            let pinned = begun.turn->state.after(AgentDocumentReply::Pin(Ok(pin)));
            let told = pinned.1->state.after(AgentDocumentReply::Classification(classification));
            let loaded = told.1->state.after(AgentDocumentReply::Safety(Ok(settings)));
            let connected = loaded.1->state.after(AgentDocumentReply::Connection(Ok(())));
            let opened = connected.1->state.after(AgentDocumentReply::Backend(Ok(())));
            let ended = opened.1->state.after(AgentDocumentReply::Page(Ok(size)));
            let broken = opened.1->state.after(AgentDocumentReply::Page(Err(error)));
            &&& begun.effects@.len() == 0 && pinned.0.len() == 0
            &&& begun.turn matches Turn::Ask {
                request: AgentDocumentRequest::PinConnection { connection_id, access },
                ..
            } && connection_id == request.connection_id && access == ConnectionAccess::Read
            &&& begun.turn->state.after(AgentDocumentReply::Pin(Err(error))).1 matches Turn::Done(
                Err(AgentDocumentReadError::Application(lost)),
            ) && lost == error
            &&& if pin.profile.engine != Engine::Mongodb {
                pinned.1 matches Turn::Done(Err(AgentDocumentReadError::NonDocumentConnection))
            } else {
                &&& pinned.1 matches Turn::Ask {
                    request: AgentDocumentRequest::Classify { query },
                    ..
                } && query == request.query
                &&& if classification.found.kind != QueryKind::Read {
                    &&& told.1 matches Turn::Done(Err(AgentDocumentReadError::Rejected(rejected)))
                    &&& tells_of(rejected.context, pin, request.query_text)
                    &&& rejected.message == match classification.first_note {
                        Some(note) => Text::Owned(note),
                        None => Text::Plain(
                            match request.origin {
                                AgentQueryInvocationOrigin::Mcp => "document writes are not supported over MCP",
                                AgentQueryInvocationOrigin::Cli => "document writes are not supported over CLI",
                            },
                        ),
                    }
                    &&& told.0.len() == 1
                    &&& is_audit(
                        told.0[0],
                        pin,
                        request.query_text,
                        classification.found.kind,
                        action,
                        None,
                        Some(Note::Said(rejected.message)),
                    )
                } else {
                    &&& told.0.len() == 0 && loaded.0.len() == 0 && connected.0.len() == 0
                        && opened.0.len() == 0
                    &&& told.1 matches Turn::Ask {
                        request: AgentDocumentRequest::LoadSafety { connection_id },
                        ..
                    } && connection_id == pin.connection_id
                    &&& told.1->state.after(
                        AgentDocumentReply::Safety(Err(error)),
                    ).1 matches Turn::Done(Err(AgentDocumentReadError::Application(lost))) && lost
                        == error
                    &&& loaded.1 matches Turn::Ask { request: AgentDocumentRequest::Connect, .. }
                    &&& loaded.1->state.after(
                        AgentDocumentReply::Connection(Err(error)),
                    ).1 matches Turn::Done(Err(AgentDocumentReadError::Application(lost))) && lost
                        == error
                    &&& connected.1 matches Turn::Ask {
                        request: AgentDocumentRequest::OpenBackend,
                        ..
                    }
                    &&& connected.1->state.after(
                        AgentDocumentReply::Backend(Err(error)),
                    ).1 matches Turn::Done(Err(AgentDocumentReadError::Application(lost))) && lost
                        == error
                    &&& opened.1 matches Turn::Ask {
                        request: AgentDocumentRequest::Run { query, max_rows },
                        ..
                    }
                    &&& query == request.query
                    &&& max_rows <= 1000
                    &&& request.max_rows matches Some(rows) ==> max_rows <= rows && (max_rows == rows
                        || max_rows == 1000)
                    &&& request.max_rows is None ==> max_rows <= settings.max_rows && (max_rows
                        == settings.max_rows || max_rows == 1000)
                    &&& ended.1 matches Turn::Done(Ok(read))
                    &&& tells_of(read.context, pin, request.query_text)
                    &&& read.query == request.query && read.size == size
                    &&& ended.0.len() == 2
                    &&& is_audit(
                        ended.0[0],
                        pin,
                        request.query_text,
                        QueryKind::Read,
                        action,
                        None,
                        None,
                    )
                    &&& is_history(
                        ended.0[1],
                        pin,
                        request.query_text,
                        QueryKind::Read,
                        "ok",
                        Some(size.doc_count as i64),
                        Some(size.duration_ms as i64),
                        None,
                        Text::Plain("agent"),
                    )
                    &&& broken.1 matches Turn::Done(Err(AgentDocumentReadError::Execution(failure)))
                    &&& failure.error == error && tells_of(failure.context, pin, request.query_text)
                    &&& broken.0.len() == 2
                    &&& is_audit(
                        broken.0[0],
                        pin,
                        request.query_text,
                        QueryKind::Read,
                        action,
                        None,
                        Some(Note::Error(error)),
                    )
                    &&& is_history(
                        broken.0[1],
                        pin,
                        request.query_text,
                        QueryKind::Read,
                        "error",
                        None,
                        None,
                        Some(Note::Error(error)),
                        Text::Plain("agent"),
                    )
                }
            }
        }),
{
}

/// Whether a step of a read from the desktop refuses it for this reason and records that.
pub open spec fn is_refused(
    turn: DesktopDocumentTurn,
    effects: Seq<Effect>,
    pin: PinnedConnection,
    query_text: String,
    kind: QueryKind,
    reason: Text,
    origin: Text,
) -> bool {
    &&& turn matches Turn::Done(Err(DesktopDocumentReadError::Blocked(blocked)))
    &&& blocked.reason == reason
    &&& effects.len() == 2
    &&& is_audit(effects[0], pin, query_text, kind, "blocked", None, Some(Note::Said(reason)))
    &&& is_history(
        effects[1],
        pin,
        query_text,
        kind,
        "blocked",
        None,
        None,
        Some(Note::Said(reason)),
        origin,
    )
}

/// A read from the desktop from its beginning, told by what was requested and answered. It
/// is of the connection that was named, which must be to a document database, and the
/// query that is inspected and run is the one requested. What is not a read is refused;
/// what the safety check blocks, too; and what it wants approved, unless it was. As many
/// documents are fetched as the settings allow, but at least one and at most a hundred
/// thousand, under the id that was requested. Whatever was refused, failed or read is
/// recorded, but for a failure to open the backend.
#[verifier::spinoff_prover]
#[verifier::rlimit(80)]
pub proof fn the_desktop_reads_what_it_requested(
    request: DesktopDocumentReadRequest,
    begun: DesktopDocumentStep,
    pin: PinnedConnection,
    settings: SafetySettings,
    classification: DocumentClassification,
    query_text: String,
    decision: GateDecision,
    size: PageSize,
    error: AppError,
)
    requires
        call_ensures(DesktopDocument::start, (request,), begun),
    ensures
        ({
            let origin = match request.origin {
                Some(origin) => Text::Owned(origin),
                None => Text::Plain("manual"),
            };
            let kind = classification.found.kind;
            let pinned = begun.turn->state.after(DesktopDocumentReply::Pin(Ok(pin)));
            let loaded = pinned.1->state.after(DesktopDocumentReply::Safety(Ok(settings)));
            let told = loaded.1->state.after(
                DesktopDocumentReply::Query { classification, query_text: Ok(query_text) },
            );
            let decided = told.1->state.after(DesktopDocumentReply::Gate(decision));
            let connected = decided.1->state.after(DesktopDocumentReply::Connection(Ok(())));
            let unreachable = decided.1->state.after(DesktopDocumentReply::Connection(Err(error)));
            let opened = connected.1->state.after(DesktopDocumentReply::Backend(Ok(())));
            let ended = opened.1->state.after(DesktopDocumentReply::Page(Ok(size)));
            let broken = opened.1->state.after(DesktopDocumentReply::Page(Err(error)));
            &&& begun.effects@.len() == 0 && pinned.0.len() == 0
            &&& begun.turn matches Turn::Ask {
                request: DesktopDocumentRequest::PinConnection { connection_id },
                ..
            } && connection_id == request.connection_id
            &&& begun.turn->state.after(DesktopDocumentReply::Pin(Err(error))).1 matches Turn::Done(
                Err(DesktopDocumentReadError::Application(lost)),
            ) && lost == error
            &&& if pin.profile.engine != Engine::Mongodb {
                pinned.1 matches Turn::Done(Err(DesktopDocumentReadError::NonDocumentConnection))
            } else {
                &&& loaded.0.len() == 0
                &&& pinned.1 matches Turn::Ask {
                    request: DesktopDocumentRequest::LoadSafety { connection_id },
                    ..
                } && connection_id == pin.connection_id
                &&& pinned.1->state.after(
                    DesktopDocumentReply::Safety(Err(error)),
                ).1 matches Turn::Done(Err(DesktopDocumentReadError::Application(lost))) && lost
                    == error
                &&& loaded.1 matches Turn::Ask {
                    request: DesktopDocumentRequest::InspectQuery { query },
                    ..
                } && query == request.query
                &&& loaded.1->state.after(
                    DesktopDocumentReply::Query { classification, query_text: Err(error) },
                ).1 matches Turn::Done(Err(DesktopDocumentReadError::Application(lost))) && lost
                    == error
                &&& if kind != QueryKind::Read {
                    is_refused(
                        told.1,
                        told.0,
                        pin,
                        query_text,
                        kind,
                        match classification.first_note {
                            Some(note) => Text::Owned(note),
                            None => Text::Plain("document writes are not supported"),
                        },
                        origin,
                    )
                } else {
                    &&& told.0.len() == 0
                    &&& told.1 matches Turn::Ask {
                        request: DesktopDocumentRequest::Decide { settings: used, classification: found },
                        ..
                    } && used == settings && found == classification.found
                    &&& match decision {
                        GateDecision::Block { reason } => is_refused(
                            decided.1,
                            decided.0,
                            pin,
                            query_text,
                            kind,
                            Text::Owned(reason),
                            origin,
                        ),
                        GateDecision::RequireApproval => !request.approved ==> is_refused(
                            decided.1,
                            decided.0,
                            pin,
                            query_text,
                            kind,
                            Text::Plain("this query requires explicit approval"),
                            origin,
                        ),
                        GateDecision::AutoRun => true,
                    }
                    &&& decision is AutoRun || (decision is RequireApproval && request.approved) ==> {
                        &&& decided.0.len() == 0 && connected.0.len() == 0 && opened.0.len() == 0
                        &&& decided.1 matches Turn::Ask {
                            request: DesktopDocumentRequest::Connect { access },
                            ..
                        } && access == ConnectionAccess::Read
                        &&& unreachable.1 matches Turn::Done(
                            Err(DesktopDocumentReadError::Application(lost)),
                        ) && lost == error
                        &&& unreachable.0.len() == 2
                        &&& is_audit(
                            unreachable.0[0],
                            pin,
                            query_text,
                            kind,
                            "error",
                            None,
                            Some(Note::Error(error)),
                        )
                        &&& is_history(
                            unreachable.0[1],
                            pin,
                            query_text,
                            kind,
                            "error",
                            None,
                            None,
                            Some(Note::Error(error)),
                            origin,
                        )
                        &&& connected.1 matches Turn::Ask {
                            request: DesktopDocumentRequest::OpenBackend,
                            ..
                        }
                        &&& connected.1->state.after(
                            DesktopDocumentReply::Backend(Err(error)),
                        ).1 matches Turn::Done(Err(DesktopDocumentReadError::Application(lost)))
                            && lost == error
                        &&& opened.1 matches Turn::Ask {
                            request: DesktopDocumentRequest::Run { query, max_rows, query_id },
                            ..
                        }
                        &&& query == request.query
                        &&& query_id == request.query_id
                        &&& settings.max_rows < 1 ==> max_rows == 1
                        &&& settings.max_rows > 100_000 ==> max_rows == 100_000
                        &&& 1 <= settings.max_rows <= 100_000 ==> max_rows == settings.max_rows
                        &&& ended.1 matches Turn::Done(Ok(read))
                        &&& tells_of(read.context, pin, query_text)
                        &&& read.query == request.query && read.size == size
                        &&& ended.0.len() == 2
                        &&& is_audit(
                            ended.0[0],
                            pin,
                            query_text,
                            kind,
                            "read",
                            Some(size.doc_count as i64),
                            None,
                        )
                        &&& is_history(
                            ended.0[1],
                            pin,
                            query_text,
                            kind,
                            "ok",
                            Some(size.doc_count as i64),
                            Some(size.duration_ms as i64),
                            None,
                            origin,
                        )
                        &&& broken.1 matches Turn::Done(
                            Err(DesktopDocumentReadError::Execution(failure)),
                        ) && failure.error == error
                        &&& broken.0.len() == 2
                        &&& is_audit(
                            broken.0[0],
                            pin,
                            query_text,
                            kind,
                            "error",
                            None,
                            Some(Note::Error(error)),
                        )
                        &&& is_history(
                            broken.0[1],
                            pin,
                            query_text,
                            kind,
                            "error",
                            None,
                            None,
                            Some(Note::Error(error)),
                            origin,
                        )
                    }
                }
            }
        }),
{
}

} // verus!
