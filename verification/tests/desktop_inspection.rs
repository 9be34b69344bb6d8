use dopedb::error::AppError;
use dopedb::model::{
    Classification, ConnectionAccess, Engine, QueryKind, RiskLevel, SafetySettings,
    WorkspaceConnectionAccess, WorkspaceCredentialMode,
};
use dopedb::operations::{
    AccountScope, OperationActorKind, OperationKind, OperationPlanDisposition, OperationRecord,
    OperationRiskLevel, OperationState, PinnedConnection, PinnedProfile, ScopePin,
};
use dopedb::services::effects::Turn;
use dopedb::services::query::agent::QUERY_PLAN_TTL;
use dopedb::services::query::desktop_preview::{
    DesktopPreview, DesktopPreviewEnd, DesktopPreviewReply, DesktopPreviewRequest, PreviewMode,
    PreviewReport,
};
use dopedb::services::query::desktop_propose::{
    DesktopPropose, DesktopProposeEnd, DesktopProposeReply, DesktopProposeRequest,
    DesktopSqlProposalRequest, WRITE_PROPOSAL_TTL,
};
use dopedb::services::query::shared::{operation_kind, operation_risk, GateDecision};
use dopedb::text::Text;

fn pin(access: WorkspaceConnectionAccess) -> PinnedConnection {
    PinnedConnection {
        scope: ScopePin { workspace_id: 1, account_scope: AccountScope::Personal, generation: 3 },
        connection_id: 5,
        connection_revision: 2,
        binding_revision: None,
        binding_updated_at: None,
        profile: PinnedProfile {
            id: 5,
            name: "target".into(),
            engine: Engine::Sqlite,
            env: None,
            workspace_access: access,
            credential_mode: WorkspaceCredentialMode::Local,
        },
    }
}

fn classification(kind: QueryKind) -> Classification {
    Classification { kind, risk: RiskLevel::Low, no_where: false, statement_count: 1 }
}

fn settings(allow_writes: bool) -> SafetySettings {
    SafetySettings { allow_writes, ..SafetySettings::default() }
}

fn measured() -> PreviewReport {
    PreviewReport {
        mode: PreviewMode::Estimated,
        estimated_rows: Some(2),
        exact_rows: None,
        plan: Some("[]".into()),
        note: Some(Text::Plain("no target-mutating statement was executed")),
    }
}

fn answer_preview(
    request: DesktopPreviewRequest,
    access: WorkspaceConnectionAccess,
    allow_writes: bool,
    kind: QueryKind,
    connected: &mut Vec<ConnectionAccess>,
) -> DesktopPreviewReply {
    match request {
        DesktopPreviewRequest::PinForView { connection_id } => {
            assert_eq!(connection_id, 5);
            DesktopPreviewReply::Pin(Ok(pin(access)))
        }
        DesktopPreviewRequest::LoadSafety { .. } => {
            DesktopPreviewReply::Safety(Ok(settings(allow_writes)))
        }
        DesktopPreviewRequest::Classify { .. } => {
            DesktopPreviewReply::Classification(Ok(classification(kind)))
        }
        DesktopPreviewRequest::Connect { access } => {
            connected.push(access);
            DesktopPreviewReply::Connection(Ok(()))
        }
        DesktopPreviewRequest::OpenBackend => DesktopPreviewReply::Backend(Ok(())),
        DesktopPreviewRequest::Preview { .. } => DesktopPreviewReply::Report(Ok(measured())),
    }
}

fn preview(
    sql: &str,
    access: WorkspaceConnectionAccess,
    allow_writes: bool,
    kind: QueryKind,
) -> (Vec<ConnectionAccess>, DesktopPreviewEnd) {
    let mut connected = Vec::new();
    let mut step = DesktopPreview::start(5, sql.into());
    loop {
        assert!(step.effects.is_empty());
        let (state, request) = match step.turn {
            Turn::Done(end) => return (connected, end),
            Turn::Ask { state, request } => (state, request),
        };
        step = state.advance(answer_preview(request, access, allow_writes, kind, &mut connected));
    }
}

fn skipped(note: &'static str) -> PreviewReport {
    PreviewReport {
        mode: PreviewMode::Skipped,
        estimated_rows: None,
        exact_rows: None,
        plan: None,
        note: Some(Text::Plain(note)),
    }
}

#[test]
fn desktop_preview_preserves_viewer_gate_order_and_exact_messages() {
    let (connected, end) = preview(
        "UPDATE users SET name = 'Grace' WHERE id = 1",
        WorkspaceConnectionAccess::View,
        false,
        QueryKind::Write,
    );
    assert!(connected.is_empty());
    assert!(matches!(
        end,
        Ok(receipt)
            if receipt.report == skipped("workspace role is read-only — write preview skipped")
    ));
    let (connected, end) = preview(
        "SELECT id FROM users",
        WorkspaceConnectionAccess::View,
        false,
        QueryKind::Read,
    );
    assert!(connected.is_empty());
    assert_eq!(
        end.err().map(|error| error.into_error()),
        Some(AppError::Blocked {
            reason: Text::Plain("workspace role cannot execute this connection")
        })
    );
}

#[test]
fn desktop_preconnection_skips_do_not_open_the_target_database() {
    let (connected, end) = preview(
        "DELETE FROM users WHERE id = 1",
        WorkspaceConnectionAccess::Local,
        false,
        QueryKind::Write,
    );
    assert!(connected.is_empty());
    assert!(matches!(end, Ok(receipt) if receipt.report == skipped(
        "writes are disabled for this connection — impact preview skipped (no rows locked)"
    )));
    let (connected, end) = preview(
        "DELETE FROM users WHERE id = 1",
        WorkspaceConnectionAccess::View,
        true,
        QueryKind::Write,
    );
    assert!(connected.is_empty());
    assert!(matches!(
        end,
        Ok(receipt)
            if receipt.report == skipped("workspace role is read-only — write preview skipped")
    ));
}

#[test]
fn desktop_ddl_preview_skips_before_opening_the_target() {
    for kind in [QueryKind::Ddl, QueryKind::Privilege] {
        let (connected, end) = preview(
            "CREATE TABLE preview_only (id INTEGER PRIMARY KEY)",
            WorkspaceConnectionAccess::Local,
            true,
            kind,
        );
        assert!(connected.is_empty());
        assert!(matches!(end, Ok(receipt) if receipt.report == skipped(
            "DDL / privilege change — no row-count preview; review the statement directly."
        )));
    }
}

#[test]
fn desktop_write_preview_never_executes_before_exact_approval() {
    let (connected, end) = preview(
        "UPDATE users SET name = 'Grace' WHERE id = 1",
        WorkspaceConnectionAccess::Local,
        true,
        QueryKind::Write,
    );
    assert_eq!(connected, [ConnectionAccess::Read]);
    let Ok(receipt) = end else { panic!() };
    assert!(receipt.report == measured());
    assert_eq!(receipt.pin.connection_id, 5);
}

#[test]
fn desktop_read_preview_preserves_wire_shape_and_lease_guard() {
    let (connected, end) = preview(
        "SELECT id, name FROM users ORDER BY id",
        WorkspaceConnectionAccess::Local,
        false,
        QueryKind::Read,
    );
    assert_eq!(connected, [ConnectionAccess::Read]);
    assert!(matches!(end, Ok(receipt) if receipt.report == measured()));
}

fn propose(
    access: WorkspaceConnectionAccess,
    kind: QueryKind,
    gate: GateDecision,
) -> (bool, DesktopProposeEnd) {
    let mut connected = Vec::new();
    let mut planned = false;
    let mut gate = Some(gate);
    let mut step = DesktopPropose::start(DesktopSqlProposalRequest {
        connection_id: 5,
        sql: "statement".into(),
        origin: None,
    });
    loop {
        assert!(step.effects.is_empty());
        let (state, request) = match step.turn {
            Turn::Done(end) => return (planned, end),
            Turn::Ask { state, request } => (state, request),
        };
        let reply = match request {
            DesktopProposeRequest::Preview(request) => DesktopProposeReply::Preview(
                answer_preview(request, access, true, kind, &mut connected),
            ),
            DesktopProposeRequest::LoadSafety { .. } => {
                DesktopProposeReply::Safety(Ok(settings(true)))
            }
            DesktopProposeRequest::Classify { .. } => {
                DesktopProposeReply::Classification(Ok(classification(kind)))
            }
            DesktopProposeRequest::Decide { .. } => DesktopProposeReply::Gate(gate.take().unwrap()),
            DesktopProposeRequest::HashPolicy { .. } => DesktopProposeReply::Policy {
                revision: Ok("revision".into()),
                fresh_id: 40,
                now: 1_000,
            },
            DesktopProposeRequest::Plan { operation, sql, history_origin, .. } => {
                planned = true;
                let writes = kind != QueryKind::Read;
                assert_eq!(sql, "statement");
                assert_eq!(history_origin.render(), "manual");
                assert_eq!(
                    operation.disposition,
                    if writes {
                        OperationPlanDisposition::ApprovalRequired
                    } else {
                        OperationPlanDisposition::Ready
                    }
                );
                assert_eq!(
                    operation.expires_at,
                    1_000 + if writes { WRITE_PROPOSAL_TTL } else { QUERY_PLAN_TTL }
                );
                DesktopProposeReply::Plan(Ok(OperationRecord {
                    id: operation.id,
                    workspace_id: operation.workspace_id,
                    account_scope: operation.account_scope.render(),
                    connection_id: operation.connection_id,
                    connection_revision: operation.connection_revision,
                    terminal_session_id: None,
                    actor_kind: OperationActorKind::LocalUser,
                    actor_id: "local-user".into(),
                    kind: operation.kind,
                    payload_schema_version: 1,
                    payload_hash: "hash".into(),
                    risk_level: operation.risk_level,
                    policy_environment: None,
                    policy_revision: operation.policy_revision,
                    state: if writes {
                        OperationState::PendingApproval
                    } else {
                        OperationState::Ready
                    },
                    expires_at: Some(operation.expires_at),
                    started_at: None,
                    finished_at: None,
                    created_at: 1_000,
                    updated_at: 1_000,
                }))
            }
        };
        step = state.advance(reply);
    }
}

#[test]
fn desktop_sql_workspace_view_role_blocks_without_audit_or_target_touch() {
    let (planned, end) =
        propose(WorkspaceConnectionAccess::View, QueryKind::Write, GateDecision::RequireApproval);
    assert!(!planned);
    assert_eq!(
        end.err().map(|error| error.into_error()),
        Some(AppError::Blocked {
            reason: Text::Plain("your workspace role grants read-only database access")
        })
    );
}

#[test]
fn desktop_sql_write_gate_rejects_before_persist_or_target_touch() {
    let reason = "writing is disabled for this connection (writes are off by default). Enable \
                  writes in the connection's safety settings to propose it.";
    let (planned, end) = propose(
        WorkspaceConnectionAccess::Local,
        QueryKind::Write,
        GateDecision::Block { reason: reason.into() },
    );
    assert!(!planned);
    assert_eq!(
        end.err().map(|error| error.into_error()),
        Some(AppError::Blocked { reason: Text::Owned(reason.into()) })
    );
    let (connected, end) = preview(
        "UPDATE users SET name = 'Grace' WHERE id = 1",
        WorkspaceConnectionAccess::Local,
        false,
        QueryKind::Write,
    );
    assert!(connected.is_empty() && end.is_ok());
}

#[test]
fn desktop_arbitrary_privilege_sql_is_blocked_before_persistence() {
    let (planned, end) = propose(
        WorkspaceConnectionAccess::Local,
        QueryKind::Privilege,
        GateDecision::Block { reason: "arbitrary privilege SQL is not supported".into() },
    );
    assert!(!planned);
    assert!(matches!(
        end.err().map(|error| error.into_error()),
        Some(AppError::Blocked { reason }) if reason.render().contains("arbitrary privilege SQL")
    ));
}

#[test]
fn a_write_waits_for_approval_and_a_read_is_ready() {
    let (planned, end) =
        propose(WorkspaceConnectionAccess::Local, QueryKind::Write, GateDecision::AutoRun);
    let Ok(receipt) = end else { panic!() };
    assert!(planned && receipt.approval_required && !receipt.auto_run);
    assert_eq!(receipt.state, OperationState::PendingApproval);
    let (_, end) =
        propose(WorkspaceConnectionAccess::Local, QueryKind::Read, GateDecision::AutoRun);
    let Ok(receipt) = end else { panic!() };
    assert!(!receipt.approval_required && receipt.auto_run);
    assert_eq!(receipt.confirmation_phrase, None);
    assert_eq!((receipt.operation_id, receipt.payload_hash.as_str()), (40, "hash"));
    assert!(receipt.preview == measured());
    assert_eq!(receipt.classification, classification(QueryKind::Read));
}

#[test]
fn kinds_and_risks_of_proposals() {
    assert_eq!(operation_kind(QueryKind::Read), OperationKind::ReadQuery);
    assert_eq!(operation_kind(QueryKind::Write), OperationKind::WriteSql);
    assert_eq!(operation_kind(QueryKind::Ddl), OperationKind::Ddl);
    assert_eq!(operation_kind(QueryKind::Privilege), OperationKind::Privilege);
    assert_eq!(
        operation_risk(&Classification {
            risk: RiskLevel::High,
            ..classification(QueryKind::Write)
        }),
        OperationRiskLevel::High
    );
}
