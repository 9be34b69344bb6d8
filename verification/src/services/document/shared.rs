//! What the document services share.
use vstd::prelude::*;

use crate::model::{Classification, QueryKind};
use crate::operations::PinnedConnection;
use crate::services::effects::{AuditRecord, Effect, HistoryRecord, Note};
use crate::services::query::agent::{min_rows, row_cap, AgentQueryInvocationOrigin, MAX_AGENT_ROWS};
use crate::services::query::shared::GateDecision;
use crate::text::Text;

verus! {

/// The most documents that the desktop is given.
pub const MAX_DESKTOP_ROWS: u64 = 100_000;

/// A document query: which one it is, its canonical JSON says.
#[derive(PartialEq, Eq)]
pub struct DocumentQuery {
    pub json: String,
}

impl DocumentQuery {
    /// An equal query.
    pub fn duplicate(&self) -> (r: DocumentQuery)
        ensures
            r == *self,
    {
        DocumentQuery { json: self.json.clone() }
    }
}

/// What may be said of a document read.
#[derive(PartialEq, Eq)]
pub struct DocumentReadEventContext {
    pub connection_id: u128,
    pub connection_name: String,
    pub query_text: String,
}

/// The size of a page of documents.
#[derive(Debug, Clone, Copy, PartialEq, Eq, Structural)]
pub struct PageSize {
    pub doc_count: u64,
    pub duration_ms: u64,
}

/// A document read that succeeded.
#[derive(PartialEq, Eq)]
pub struct DocumentReadResult {
    pub context: DocumentReadEventContext,
    pub query: DocumentQuery,
    pub size: PageSize,
}

/// What the classifier says of a document query.
#[derive(PartialEq, Eq)]
pub struct DocumentClassification {
    pub found: Classification,
    /// The first thing that it found wrong.
    pub first_note: Option<String>,
}

/// The document cap of an agent's read: the one asked for, else the connection's, and
/// never more than an agent is given.
pub fn bounded_agent_rows(requested: Option<u64>, configured: u64) -> (r: u64)
    ensures
        r == row_cap(requested, configured),
{
    let rows: u64 = match requested {
        Some(rows) => rows,
        None => configured,
    };
    min_rows(rows, MAX_AGENT_ROWS)
}

/// The document cap of a read from the desktop: the connection's, but at least one and
/// never more than the desktop is given.
pub open spec fn desktop_cap(configured: u64) -> u64 {
    if configured < 1 {
        1
    } else if configured > MAX_DESKTOP_ROWS {
        MAX_DESKTOP_ROWS
    } else {
        configured
    }
}

/// Computes [`desktop_cap`].
pub fn bounded_desktop_rows(configured: u64) -> (r: u64)
    ensures
        r == desktop_cap(configured),
{
    if configured < 1 {
        1
    } else if configured > MAX_DESKTOP_ROWS {
        MAX_DESKTOP_ROWS
    } else {
        configured
    }
}

/// The audit action of an agent's document read.
pub open spec fn agent_action(origin: AgentQueryInvocationOrigin) -> &'static str {
    match origin {
        AgentQueryInvocationOrigin::Mcp => "mcp:run_document_query",
        AgentQueryInvocationOrigin::Cli => "cli:run_document_query",
    }
}

/// The audit action of an agent's document read.
pub fn agent_audit_action(origin: AgentQueryInvocationOrigin) -> (r: &'static str)
    ensures
        r == agent_action(origin),
{
    match origin {
        AgentQueryInvocationOrigin::Mcp => "mcp:run_document_query",
        AgentQueryInvocationOrigin::Cli => "cli:run_document_query",
    }
}

/// What an agent is told whose query is not a read, if the classifier has nothing to say.
pub open spec fn rejection_fallback(origin: AgentQueryInvocationOrigin) -> &'static str {
    match origin {
        AgentQueryInvocationOrigin::Mcp => "document writes are not supported over MCP",
        AgentQueryInvocationOrigin::Cli => "document writes are not supported over CLI",
    }
}

/// What an agent is told whose query is not a read, if the classifier has nothing to say.
pub fn agent_rejection_fallback(origin: AgentQueryInvocationOrigin) -> (r: &'static str)
    ensures
        r == rejection_fallback(origin),
{
    match origin {
        AgentQueryInvocationOrigin::Mcp => "document writes are not supported over MCP",
        AgentQueryInvocationOrigin::Cli => "document writes are not supported over CLI",
    }
}

/// The origin that the history gives to an agent's read, whatever adapter it came through.
pub fn agent_history_origin(_origin: AgentQueryInvocationOrigin) -> (r: &'static str)
    ensures
        r == "agent",
{
    "agent"
}

/// What the classifier said first, else a wording of the library's own.
pub open spec fn note_or(first_note: Option<String>, fallback: &'static str) -> Text {
    match first_note {
        Some(note) => Text::Owned(note),
        None => Text::Plain(fallback),
    }
}

/// Computes [`note_or`].
pub fn first_note_or(first_note: &Option<String>, fallback: &'static str) -> (r: Text)
    ensures
        r == note_or(*first_note, fallback),
{
    match first_note {
        Some(note) => Text::Owned(note.clone()),
        None => Text::Plain(fallback),
    }
}

/// Why the desktop may not run a query, if it may not: because it is not a read, because
/// the safety check blocks it, or because it wants an approval that was not given.
pub open spec fn blocked_reason(
    classification: DocumentClassification,
    gate: GateDecision,
    approved: bool,
) -> Option<Text> {
    if classification.found.kind != QueryKind::Read {
        Some(note_or(classification.first_note, "document writes are not supported"))
    } else {
        match gate {
            GateDecision::Block { reason } => Some(Text::Owned(reason)),
            GateDecision::RequireApproval => if approved {
                None
            } else {
                Some(Text::Plain("this query requires explicit approval"))
            },
            GateDecision::AutoRun => None,
        }
    }
}

/// Computes [`blocked_reason`].
pub fn desktop_blocked_reason(
    classification: &DocumentClassification,
    gate: &GateDecision,
    approved: bool,
) -> (r: Option<Text>)
    ensures
        r == blocked_reason(*classification, *gate, approved),
{
    if classification.found.kind != QueryKind::Read {
        return Some(first_note_or(&classification.first_note, "document writes are not supported"));
    }
    match gate {
        GateDecision::Block { reason } => Some(Text::Owned(reason.clone())),
        GateDecision::RequireApproval => {
            if approved {
                None
            } else {
                Some(Text::Plain("this query requires explicit approval"))
            }
        },
        GateDecision::AutoRun => None,
    }
}

/// The audit row of a document query.
pub open spec fn document_audit(
    pin: PinnedConnection,
    query_text: String,
    kind: QueryKind,
    action: &'static str,
    rows: Option<i64>,
    error: Option<Note>,
) -> Effect {
    Effect::Audit(
        AuditRecord {
            connection_id: pin.connection_id,
            engine: pin.profile.engine,
            sql: query_text,
            kind,
            action: Text::Plain(action),
            approved_by: None,
            affected_estimate: rows,
            error,
        },
    )
}

/// Makes [`document_audit`].
pub fn audit_document(
    pin: &PinnedConnection,
    query_text: &String,
    kind: QueryKind,
    action: &'static str,
    rows: Option<i64>,
    error: Option<Note>,
) -> (r: Effect)
    ensures
        r == document_audit(*pin, *query_text, kind, action, rows, error),
{
    Effect::Audit(
        AuditRecord {
            connection_id: pin.connection_id,
            engine: pin.profile.engine,
            sql: query_text.clone(),
            kind,
            action: Text::Plain(action),
            approved_by: None,
            affected_estimate: rows,
            error,
        },
    )
}

/// The history row of a document query.
pub open spec fn document_history(
    pin: PinnedConnection,
    query_text: String,
    kind: QueryKind,
    status: &'static str,
    rows: Option<i64>,
    duration_ms: Option<i64>,
    error: Option<Note>,
    origin: Text,
) -> Effect {
    Effect::History(
        HistoryRecord {
            connection_id: pin.connection_id,
            sql: query_text,
            kind,
            status,
            row_count: rows,
            duration_ms,
            error,
            origin,
        },
    )
}

/// Makes [`document_history`].
pub fn remember_document(
    pin: &PinnedConnection,
    query_text: &String,
    kind: QueryKind,
    status: &'static str,
    rows: Option<i64>,
    duration_ms: Option<i64>,
    error: Option<Note>,
    origin: Text,
) -> (r: Effect)
    ensures
        r == document_history(*pin, *query_text, kind, status, rows, duration_ms, error, origin),
{
    Effect::History(
        HistoryRecord {
            connection_id: pin.connection_id,
            sql: query_text.clone(),
            kind,
            status,
            row_count: rows,
            duration_ms,
            error,
            origin,
        },
    )
}

/// A query that is not a read is blocked whatever the safety check says and whoever approved it,
/// and what the safety check blocks no approval lets through.
pub proof fn approval_does_not_weaken_the_gate(
    classification: DocumentClassification,
    gate: GateDecision,
    approved: bool,
)
    ensures
        classification.found.kind != QueryKind::Read ==> blocked_reason(
            classification,
            gate,
            approved,
        ) is Some,
        gate is Block ==> blocked_reason(classification, gate, approved) is Some,
        blocked_reason(classification, gate, false) is None ==> blocked_reason(
            classification,
            gate,
            true,
        ) is None,
{
}

} // verus!
