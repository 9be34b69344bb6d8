use dopedb::model::{
    Classification, ConnectionAccess, ConnectionProfile, Engine, Provider, QueryKind, RiskLevel,
    SafetySettings, WorkspaceConnectionAccess, WorkspaceCredentialMode,
};
use dopedb::services::document::shared::{
    agent_audit_action, agent_history_origin, bounded_agent_rows, bounded_desktop_rows,
    desktop_blocked_reason, DocumentClassification, MAX_DESKTOP_ROWS,
};
use dopedb::services::query::agent::{bounded_max_rows, AgentQueryInvocationOrigin, MAX_AGENT_ROWS};
use dopedb::services::query::desktop_preview::{
    desktop_preview_connection_access, skipped_preview_report, PreviewMode,
};
use dopedb::services::query::guidance::{planning_guidance, HealthSnapshot};
use dopedb::services::query::shared::GateDecision;
use dopedb::services::script::shared::script_has_write;
use dopedb::text::Text;

fn classification(kind: QueryKind) -> Classification {
    Classification { kind, risk: RiskLevel::Low, no_where: false, statement_count: 1 }
}

fn profile(env: Option<&str>) -> ConnectionProfile {
    ConnectionProfile {
        id: 4,
        name: "test".into(),
        engine: Engine::Sqlite,
        provider: Provider::Generic,
        driver_id: Some("sqlx-sqlite".into()),
        host: String::new(),
        port: 0,
        database: "test.db".into(),
        username: String::new(),
        sslmode: "disable".into(),
        extra_params: Vec::new(),
        readonly_default: true,
        allow_writes: false,
        secret_ref: None,
        env: env.map(Into::into),
        schema_group: None,
        workspace_access: WorkspaceConnectionAccess::Local,
        credential_mode: WorkspaceCredentialMode::Local,
    }
}

#[test]
fn row_caps_preserve_agent_and_desktop_contracts() {
    assert_eq!(bounded_agent_rows(Some(5_000), 25), MAX_AGENT_ROWS);
    assert_eq!(bounded_agent_rows(None, 5_000), MAX_AGENT_ROWS);
    assert_eq!(bounded_agent_rows(Some(0), 500), 0);
    assert_eq!(bounded_desktop_rows(0), 1);
    assert_eq!(bounded_desktop_rows(250), 250);
    assert_eq!(bounded_desktop_rows(u64::MAX), MAX_DESKTOP_ROWS);
}

#[test]
fn desktop_gate_requires_approval_without_weakening_typed_read_only() {
    let find = DocumentClassification { found: classification(QueryKind::Read), first_note: None };
    let gate = GateDecision::RequireApproval;
    assert_eq!(
        desktop_blocked_reason(&find, &gate, false).map(|reason| reason.render()).as_deref(),
        Some("this query requires explicit approval")
    );
    assert!(desktop_blocked_reason(&find, &gate, true).is_none());

    let rejected = DocumentClassification {
        found: classification(QueryKind::Write),
        first_note: Some("aggregation stage $out is not allowed".into()),
    };
    assert!(desktop_blocked_reason(&rejected, &gate, true)
        .is_some_and(|reason| reason.render().contains("$out")));
}

#[test]
fn agent_origin_splits_audit_and_preserves_history_origin() {
    assert_eq!(
        agent_audit_action(AgentQueryInvocationOrigin::Mcp),
        "mcp:run_document_query"
    );
    assert_eq!(
        agent_audit_action(AgentQueryInvocationOrigin::Cli),
        "cli:run_document_query"
    );
    assert_eq!(
        agent_history_origin(AgentQueryInvocationOrigin::Mcp),
        "agent"
    );
    assert_eq!(
        agent_history_origin(AgentQueryInvocationOrigin::Cli),
        "agent"
    );
}

#[test]
fn desktop_preview_access_is_always_read_only_before_exact_approval() {
    let settings = SafetySettings {
        allow_writes: true,
        explain_preview: true,
        ..SafetySettings::default()
    };

    for classification in [
        classification(QueryKind::Read),
        classification(QueryKind::Write),
        classification(QueryKind::Ddl),
        classification(QueryKind::Privilege),
    ] {
        assert_eq!(
            desktop_preview_connection_access(&classification, &settings),
            ConnectionAccess::Read
        );
    }
}

#[test]
fn desktop_static_preview_reports_keep_exact_legacy_messages() {
    let workspace =
        skipped_preview_report("workspace role is read-only — write preview skipped");
    assert_eq!(workspace.mode, PreviewMode::Skipped);
    assert_eq!(workspace.estimated_rows, None);
    assert_eq!(workspace.exact_rows, None);
    assert_eq!(workspace.plan, None);
    assert_eq!(
        workspace.note,
        Some(Text::Plain("workspace role is read-only — write preview skipped"))
    );

    let disabled = skipped_preview_report(
        "writes are disabled for this connection — impact preview skipped (no rows locked)",
    );
    assert_eq!(
        disabled.note.map(|note| note.render()).as_deref(),
        Some("writes are disabled for this connection — impact preview skipped (no rows locked)")
    );
}

#[test]
fn row_cap_is_frozen_in_the_stored_plan() {
    assert_eq!(bounded_max_rows(Some(5_000), 25), MAX_AGENT_ROWS);
    assert_eq!(bounded_max_rows(None, 5_000), MAX_AGENT_ROWS);
    assert_eq!(bounded_max_rows(Some(7), 500), 7);
}

#[test]
fn production_and_limited_monitoring_are_guidance_not_blocks() {
    let health = HealthSnapshot {
        level: "normal".into(),
        coverage: "limited".into(),
        reasons: vec!["Monitoring coverage is limited without pg_monitor.".into()],
    };
    let (decision, notices, suggestions) =
        planning_guidance(&profile(Some("prod")), &health, Some(100_001), 50_000);

    assert_eq!(decision, "caution");
    assert!(notices
        .iter()
        .any(|notice| notice == "This connection is labeled production."));
    assert!(notices
        .iter()
        .any(|notice| notice.contains("EXPLAIN estimates 100001")));
    assert!(suggestions
        .iter()
        .any(|suggestion| suggestion.contains("pg_monitor")));
    assert!(suggestions.windows(2).all(|pair| pair[0] <= pair[1]));
}

#[test]
fn nothing_remarkable_is_ready() {
    let health = HealthSnapshot {
        level: "normal".into(),
        coverage: "full".into(),
        reasons: Vec::new(),
    };
    let (decision, notices, suggestions) =
        planning_guidance(&profile(Some("dev")), &health, Some(50_000), 50_000);
    assert_eq!(decision, "ready");
    assert!(notices.is_empty() && suggestions.is_empty());
    let (decision, notices, _) = planning_guidance(&profile(None), &health, Some(3), -1);
    assert_eq!(decision, "caution");
    assert_eq!(
        notices,
        ["EXPLAIN estimates 3 result/plan rows, above the configured -1 review threshold."]
    );
}

#[test]
fn write_path_only_when_a_statement_writes() {
    assert!(!script_has_write(&[QueryKind::Read, QueryKind::Read]));
    assert!(script_has_write(&[QueryKind::Read, QueryKind::Write]));
    assert!(script_has_write(&[QueryKind::Ddl]));
    assert!(script_has_write(&[QueryKind::Privilege]));
}
