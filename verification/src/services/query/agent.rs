//! What the agents' query services share.
use vstd::prelude::*;

use crate::model::{Engine, QueryKind};
use crate::services::effects::{AuditRecord, Effect, HistoryRecord, Note};
use crate::text::Text;

verus! {

/// How long an agent's plan stays valid, in nanoseconds. It is still valid at exactly this age,
/// and expired only when it is older.
pub const QUERY_PLAN_TTL: i128 = 30_000_000_000;

/// The most rows that an agent is given, whatever a connection's setting allows.
pub const MAX_AGENT_ROWS: u64 = 1000;

/// The smaller of two row caps.
pub open spec fn smaller(a: u64, b: u64) -> u64 {
    if a < b {
        a
    } else {
        b
    }
}

/// Computes [`smaller`].
pub fn min_rows(a: u64, b: u64) -> (r: u64)
    ensures
        r == smaller(a, b),
{
    if a < b {
        a
    } else {
        b
    }
}

/// The row cap of a plan: the one asked for, else the connection's, and never more than
/// an agent is given.
pub open spec fn row_cap(requested: Option<u64>, configured: u64) -> u64 {
    smaller(
        match requested {
            Some(rows) => rows,
            None => configured,
        },
        MAX_AGENT_ROWS,
    )
}

/// Computes [`row_cap`].
pub fn bounded_max_rows(requested: Option<u64>, configured: u64) -> (r: u64)
    ensures
        r == row_cap(requested, configured),
{
    let rows: u64 = match requested {
        Some(rows) => rows,
        None => configured,
    };
    min_rows(rows, MAX_AGENT_ROWS)
}

/// The local adapter that an agent's request came in through.
#[derive(Debug, Clone, Copy, PartialEq, Eq, Structural)]
pub enum AgentQueryInvocationOrigin {
    Mcp,
    Cli,
}

impl AgentQueryInvocationOrigin {
    /// The adapter's name.
    pub open spec fn name(self) -> &'static str {
        match self {
            AgentQueryInvocationOrigin::Mcp => "mcp",
            AgentQueryInvocationOrigin::Cli => "cli",
        }
    }

    /// The audit action of planning a query.
    pub open spec fn plan_action(self) -> &'static str {
        match self {
            AgentQueryInvocationOrigin::Mcp => "mcp:plan_query",
            AgentQueryInvocationOrigin::Cli => "cli:plan_query",
        }
    }

    /// The audit action of running a query.
    pub open spec fn run_action(self) -> &'static str {
        match self {
            AgentQueryInvocationOrigin::Mcp => "mcp:run_query",
            AgentQueryInvocationOrigin::Cli => "cli:run_query",
        }
    }

    /// The adapter's name.
    pub fn as_str(self) -> (r: &'static str)
        ensures
            r == self.name(),
    {
        match self {
            AgentQueryInvocationOrigin::Mcp => "mcp",
            AgentQueryInvocationOrigin::Cli => "cli",
        }
    }

    /// The audit action of planning a query.
    pub fn plan_audit_action(self) -> (r: &'static str)
        ensures
            r == self.plan_action(),
    {
        match self {
            AgentQueryInvocationOrigin::Mcp => "mcp:plan_query",
            AgentQueryInvocationOrigin::Cli => "cli:plan_query",
        }
    }

    /// The audit action of running a query.
    pub fn run_audit_action(self) -> (r: &'static str)
        ensures
            r == self.run_action(),
    {
        match self {
            AgentQueryInvocationOrigin::Mcp => "mcp:run_query",
            AgentQueryInvocationOrigin::Cli => "cli:run_query",
        }
    }
}

/// What a plan froze.
#[derive(PartialEq, Eq)]
pub struct AgentReadPayload {
    pub sql: String,
    pub max_rows: u64,
    pub decision: String,
    pub origin: AgentQueryInvocationOrigin,
}

/// The audit row of an agent's query.
pub open spec fn agent_audit(
    connection_id: u128,
    engine: Engine,
    sql: String,
    kind: QueryKind,
    action: &'static str,
    error: Option<Note>,
) -> Effect {
    Effect::Audit(
        AuditRecord {
            connection_id,
            engine,
            sql,
            kind,
            action: Text::Plain(action),
            approved_by: None,
            affected_estimate: None,
            error,
        },
    )
}

/// Makes [`agent_audit`].
pub fn audit_row(
    connection_id: u128,
    engine: Engine,
    sql: &String,
    kind: QueryKind,
    action: &'static str,
    error: Option<Note>,
) -> (r: Effect)
    ensures
        r == agent_audit(connection_id, engine, *sql, kind, action, error),
{
    Effect::Audit(
        AuditRecord {
            connection_id,
            engine,
            sql: sql.clone(),
            kind,
            action: Text::Plain(action),
            approved_by: None,
            affected_estimate: None,
            error,
        },
    )
}

/// The history row of an agent's read.
pub open spec fn agent_history(
    connection_id: u128,
    sql: String,
    status: &'static str,
    row_count: Option<i64>,
    duration_ms: Option<i64>,
    error: Option<Note>,
) -> HistoryRecord {
    HistoryRecord {
        connection_id,
        sql,
        kind: QueryKind::Read,
        status,
        row_count,
        duration_ms,
        error,
        origin: Text::Plain("agent"),
    }
}

/// Makes [`agent_history`].
pub fn history_row(
    connection_id: u128,
    sql: &String,
    status: &'static str,
    row_count: Option<i64>,
    duration_ms: Option<i64>,
    error: Option<Note>,
) -> (r: HistoryRecord)
    ensures
        r == agent_history(connection_id, *sql, status, row_count, duration_ms, error),
{
    HistoryRecord {
        connection_id,
        sql: sql.clone(),
        kind: QueryKind::Read,
        status,
        row_count,
        duration_ms,
        error,
        origin: Text::Plain("agent"),
    }
}

} // verus!
