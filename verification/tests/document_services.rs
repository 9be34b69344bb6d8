use dopedb::error::AppError;
use dopedb::model::{
    Classification, ConnectionAccess, Engine, QueryKind, RiskLevel, SafetySettings,
    WorkspaceConnectionAccess, WorkspaceCredentialMode,
};
use dopedb::operations::{AccountScope, PinnedConnection, PinnedProfile, ScopePin};
use dopedb::services::document::agent::{
    AgentDocument, AgentDocumentEnd, AgentDocumentReadError, AgentDocumentReadRequest,
    AgentDocumentReply, AgentDocumentRequest,
};
use dopedb::services::document::desktop::{
    DesktopDocument, DesktopDocumentEnd, DesktopDocumentReadRequest, DesktopDocumentReply,
    DesktopDocumentRequest,
};
use dopedb::services::document::shared::{
    DocumentClassification, DocumentQuery, PageSize, MAX_DESKTOP_ROWS,
};
use dopedb::services::effects::{AuditRecord, Effect, HistoryRecord, Note, Turn};
use dopedb::services::query::agent::{AgentQueryInvocationOrigin, MAX_AGENT_ROWS};
use dopedb::services::query::shared::GateDecision;
use dopedb::text::Text;

fn pin(engine: Engine) -> PinnedConnection {
    PinnedConnection {
        scope: ScopePin { workspace_id: 1, account_scope: AccountScope::Personal, generation: 3 },
        connection_id: 5,
        connection_revision: 2,
        binding_revision: None,
        binding_updated_at: None,
        profile: PinnedProfile {
            id: 5,
            name: "document-service-test".into(),
            engine,
            env: Some("test".into()),
            workspace_access: WorkspaceConnectionAccess::Local,
            credential_mode: WorkspaceCredentialMode::Local,
        },
    }
}

fn found(kind: QueryKind) -> Classification {
    Classification { kind, risk: RiskLevel::Low, no_where: false, statement_count: 1 }
}

fn safe_find() -> DocumentClassification {
    DocumentClassification { found: found(QueryKind::Read), first_note: None }
}

fn blocked_aggregate() -> DocumentClassification {
    DocumentClassification {
        found: found(QueryKind::Write),
        first_note: Some("aggregation stage $out is not allowed".into()),
    }
}

fn asked() -> DocumentQuery {
    DocumentQuery { json: r#"{"op":"find","collection":"users"}"#.into() }
}

fn unavailable() -> AppError {
    AppError::Network(Text::Plain("backend unavailable"))
}

fn audits(effects: &[Effect]) -> Vec<&AuditRecord> {
    effects
        .iter()
        .filter_map(|effect| match effect {
            Effect::Audit(row) => Some(row),
            _ => None,
        })
        .collect()
}

fn histories(effects: &[Effect]) -> Vec<&HistoryRecord> {
    effects
        .iter()
        .filter_map(|effect| match effect {
            Effect::History(row) => Some(row),
            _ => None,
        })
        .collect()
}

fn read_for_agent(
    engine: Engine,
    query_text: &str,
    classification: DocumentClassification,
    origin: AgentQueryInvocationOrigin,
    page: Result<PageSize, AppError>,
) -> (bool, Vec<Effect>, AgentDocumentEnd) {
    let mut connected = false;
    let mut effects = Vec::new();
    let (mut classification, mut page) = (Some(classification), Some(page));
    let request = AgentDocumentReadRequest::try_new(
        5,
        asked(),
        Ok(query_text.into()),
        Some(5_000),
        origin,
    );
    let mut step = AgentDocument::start(request.unwrap());
    loop {
        effects.append(&mut step.effects);
        let (state, request) = match step.turn {
            Turn::Done(end) => return (connected, effects, end),
            Turn::Ask { state, request } => (state, request),
        };
        let reply = match request {
            AgentDocumentRequest::PinConnection { connection_id, access } => {
                assert_eq!((connection_id, access), (5, ConnectionAccess::Read));
                AgentDocumentReply::Pin(Ok(pin(engine)))
            }
            AgentDocumentRequest::Classify { query } => {
                assert!(query == asked());
                AgentDocumentReply::Classification(classification.take().unwrap())
            }
            AgentDocumentRequest::LoadSafety { connection_id } => {
                assert_eq!(connection_id, 5);
                AgentDocumentReply::Safety(Ok(SafetySettings::default()))
            }
            AgentDocumentRequest::Connect => {
                connected = true;
                AgentDocumentReply::Connection(Ok(()))
            }
            AgentDocumentRequest::OpenBackend => AgentDocumentReply::Backend(Ok(())),
            AgentDocumentRequest::Run { query, max_rows } => {
                assert!(query == asked());
                assert_eq!(max_rows, MAX_AGENT_ROWS);
                AgentDocumentReply::Page(page.take().unwrap())
            }
        };
        step = state.advance(reply);
    }
}

#[test]
fn rejected_agent_query_is_audited_without_history_or_profile_leak() {
    let (connected, effects, end) = read_for_agent(
        Engine::Mongodb,
        "{}",
        blocked_aggregate(),
        AgentQueryInvocationOrigin::Mcp,
        Err(unavailable()),
    );
    let Err(AgentDocumentReadError::Rejected(rejected)) = end else { panic!() };
    assert_eq!(rejected.context.connection_id, 5);
    assert_eq!(rejected.context.connection_name, "document-service-test");
    assert!(rejected.message.render().contains("$out"));
    assert!(!connected);
    let audit = audits(&effects);
    assert_eq!(audit.len(), 1);
    assert_eq!(audit[0].action.render(), "mcp:run_document_query");
    assert_eq!(audit[0].kind, QueryKind::Write);
    assert!(histories(&effects).is_empty());
}

#[test]
fn a_rejection_without_a_note_names_the_adapter() {
    for (origin, message) in [
        (AgentQueryInvocationOrigin::Mcp, "document writes are not supported over MCP"),
        (AgentQueryInvocationOrigin::Cli, "document writes are not supported over CLI"),
    ] {
        let silent = DocumentClassification { found: found(QueryKind::Write), first_note: None };
        let (_, effects, end) =
            read_for_agent(Engine::Mongodb, "{}", silent, origin, Err(unavailable()));
        let Err(AgentDocumentReadError::Rejected(rejected)) = end else { panic!() };
        assert_eq!(rejected.message.render(), message);
        assert_eq!(audits(&effects)[0].error, Some(Note::Said(Text::Plain(message))));
    }
}

#[test]
fn cli_provenance_uses_cli_audit_but_agent_history() {
    let (connected, effects, end) = read_for_agent(
        Engine::Mongodb,
        r#"{"op":"count","collection":"users"}"#,
        safe_find(),
        AgentQueryInvocationOrigin::Cli,
        Ok(PageSize { doc_count: 1, duration_ms: 2 }),
    );
    assert!(connected);
    let Ok(result) = end else { panic!() };
    assert_eq!(result.size, PageSize { doc_count: 1, duration_ms: 2 });
    assert!(result.query == asked());
    assert_eq!(result.context.query_text, r#"{"op":"count","collection":"users"}"#);
    let history = histories(&effects);
    assert_eq!(history.len(), 1);
    assert_eq!(history[0].origin.render(), "agent");
    assert_eq!(history[0].status, "ok");
    assert_eq!((history[0].row_count, history[0].duration_ms), (Some(1), Some(2)));
    let audit = audits(&effects);
    assert_eq!(audit.len(), 1);
    assert_eq!(audit[0].action.render(), "cli:run_document_query");
    assert_eq!(audit[0].affected_estimate, None);
}

#[test]
fn agent_execution_error_preserves_audit_and_history_contract() {
    let query_text = r#"{"op":"find","collection":"users"}"#;
    let (_, effects, end) = read_for_agent(
        Engine::Mongodb,
        query_text,
        safe_find(),
        AgentQueryInvocationOrigin::Mcp,
        Err(unavailable()),
    );
    let Err(AgentDocumentReadError::Execution(failure)) = end else { panic!() };
    assert_eq!(failure.into_error(), unavailable());
    let history = histories(&effects);
    assert_eq!(history.len(), 1);
    assert_eq!(history[0].sql, query_text);
    assert_eq!(history[0].kind, QueryKind::Read);
    assert_eq!(history[0].status, "error");
    assert_eq!(history[0].origin.render(), "agent");
    assert_eq!(history[0].error, Some(Note::Error(unavailable())));
    let audit = audits(&effects);
    assert_eq!(audit.len(), 1);
    assert_eq!(audit[0].action.render(), "mcp:run_document_query");
    assert_eq!(audit[0].kind, QueryKind::Read);
    assert_eq!(audit[0].affected_estimate, None);
    assert_eq!(audit[0].error, Some(Note::Error(unavailable())));
}

#[test]
fn a_query_that_cannot_be_written_is_not_asked_for() {
    assert!(matches!(
        AgentDocumentReadRequest::try_new(
            5,
            asked(),
            Err(unavailable()),
            None,
            AgentQueryInvocationOrigin::Mcp,
        ),
        Err(error) if error == unavailable()
    ));
}

#[test]
fn sql_connection_is_rejected_without_exposing_its_profile() {
    let (connected, effects, end) = read_for_agent(
        Engine::Sqlite,
        "{}",
        safe_find(),
        AgentQueryInvocationOrigin::Mcp,
        Err(unavailable()),
    );
    assert!(matches!(end, Err(AgentDocumentReadError::NonDocumentConnection)));
    assert!(!connected && effects.is_empty());
}

struct Desktop {
    engine: Engine,
    classification: DocumentClassification,
    approved: bool,
    origin: Option<String>,
    gate: GateDecision,
    connection: Result<(), AppError>,
    page: Result<PageSize, AppError>,
}

fn desktop() -> Desktop {
    Desktop {
        engine: Engine::Mongodb,
        classification: safe_find(),
        approved: true,
        origin: None,
        gate: GateDecision::RequireApproval,
        connection: Ok(()),
        page: Ok(PageSize { doc_count: 3, duration_ms: 7 }),
    }
}

fn read_for_desktop(host: Desktop) -> (bool, Vec<Effect>, DesktopDocumentEnd) {
    let mut connected = false;
    let mut effects = Vec::new();
    let mut classification = Some(host.classification);
    let (mut gate, mut connection, mut page) =
        (Some(host.gate), Some(host.connection), Some(host.page));
    let mut step = DesktopDocument::start(DesktopDocumentReadRequest {
        connection_id: 5,
        query: asked(),
        approved: host.approved,
        query_id: Some(8),
        origin: host.origin,
    });
    loop {
        effects.append(&mut step.effects);
        let (state, request) = match step.turn {
            Turn::Done(end) => return (connected, effects, end),
            Turn::Ask { state, request } => (state, request),
        };
        let reply = match request {
            DesktopDocumentRequest::PinConnection { connection_id } => {
                assert_eq!(connection_id, 5);
                DesktopDocumentReply::Pin(Ok(pin(host.engine)))
            }
            DesktopDocumentRequest::LoadSafety { .. } => {
                DesktopDocumentReply::Safety(Ok(SafetySettings {
                    max_rows: u64::MAX,
                    ..SafetySettings::default()
                }))
            }
            DesktopDocumentRequest::InspectQuery { query } => {
                assert!(query == asked());
                DesktopDocumentReply::Query {
                    classification: classification.take().unwrap(),
                    query_text: Ok("query".into()),
                }
            }
            DesktopDocumentRequest::Decide { classification, .. } => {
                assert_eq!(classification, found(QueryKind::Read));
                DesktopDocumentReply::Gate(gate.take().unwrap())
            }
            DesktopDocumentRequest::Connect { access } => {
                assert_eq!(access, ConnectionAccess::Read);
                connected = true;
                DesktopDocumentReply::Connection(connection.take().unwrap())
            }
            DesktopDocumentRequest::OpenBackend => DesktopDocumentReply::Backend(Ok(())),
            DesktopDocumentRequest::Run { query, max_rows, query_id } => {
                assert!(query == asked());
                assert_eq!((max_rows, query_id), (MAX_DESKTOP_ROWS, Some(8)));
                DesktopDocumentReply::Page(page.take().unwrap())
            }
        };
        step = state.advance(reply);
    }
}

#[test]
fn desktop_block_keeps_legacy_audit_history_and_manual_origin() {
    let (connected, effects, end) =
        read_for_desktop(Desktop { classification: blocked_aggregate(), ..desktop() });
    let Err(error) = end else { panic!() };
    assert!(matches!(error.into_error(), AppError::Blocked { .. }));
    assert!(!connected);
    let history = histories(&effects);
    assert_eq!(history.len(), 1);
    assert_eq!(history[0].origin.render(), "manual");
    assert_eq!(history[0].status, "blocked");
    assert_eq!(history[0].kind, QueryKind::Write);
    let audit = audits(&effects);
    assert_eq!(audit.len(), 1);
    assert_eq!(audit[0].action.render(), "blocked");
    assert_eq!(audit[0].kind, QueryKind::Write);
}

#[test]
fn an_unapproved_read_is_blocked_and_recorded() {
    let (connected, effects, end) =
        read_for_desktop(Desktop { approved: false, ..desktop() });
    let Err(error) = end else { panic!() };
    assert_eq!(
        error.into_error(),
        AppError::Blocked { reason: Text::Plain("this query requires explicit approval") }
    );
    assert!(!connected);
    assert_eq!((audits(&effects).len(), histories(&effects).len()), (1, 1));
}

#[test]
fn a_desktop_read_is_recorded_under_its_origin() {
    let (connected, effects, end) =
        read_for_desktop(Desktop { origin: Some("data-view".into()), ..desktop() });
    assert!(connected);
    let Ok(result) = end else { panic!() };
    assert_eq!(result.size.doc_count, 3);
    assert!(result.query == asked());
    let history = histories(&effects);
    assert_eq!((history[0].status, history[0].row_count), ("ok", Some(3)));
    assert_eq!(history[0].origin.render(), "data-view");
    let audit = audits(&effects);
    assert_eq!((audit[0].action.render().as_str(), audit[0].affected_estimate), ("read", Some(3)));
}

#[test]
fn a_desktop_read_that_fails_keeps_its_error() {
    let (_, effects, end) = read_for_desktop(Desktop { page: Err(unavailable()), ..desktop() });
    assert_eq!(end.err().map(|error| error.into_error()), Some(unavailable()));
    assert_eq!(histories(&effects)[0].status, "error");
    let (_, effects, end) =
        read_for_desktop(Desktop { connection: Err(unavailable()), ..desktop() });
    assert_eq!(end.err().map(|error| error.into_error()), Some(unavailable()));
    assert_eq!(histories(&effects)[0].status, "error");
    let (connected, effects, end) =
        read_for_desktop(Desktop { engine: Engine::Postgres, ..desktop() });
    assert!(!connected && effects.is_empty());
    assert_eq!(
        end.err().map(|error| error.into_error()),
        Some(AppError::Config(Text::Plain(
            "document queries are only available on MongoDB connections"
        )))
    );
}
