use dopedb::error::AppError;
use dopedb::model::{
    ConnectionAccess, Engine, QueryKind, SafetySettings, WorkspaceConnectionAccess,
    WorkspaceCredentialMode,
};
use dopedb::operations::{
    AccountScope, OperationActorKind, OperationKind, OperationPlanDisposition, OperationRecord,
    OperationRiskLevel, OperationState, PinnedConnection, PinnedProfile, ScopePin,
};
use dopedb::services::effects::{Effect, Settlement, Turn};
use dopedb::services::monitoring::propose::{
    preview_role, MonitoringProposalRequest, MonitoringPropose, MonitoringProposeEnd, MonitoringProposeReply,
    MonitoringProposeRequest,
};
use dopedb::services::monitoring::run::{
    MonitoringPayload, MonitoringRun, MonitoringRunEnd, MonitoringRunReply, MonitoringRunRequest,
};
use dopedb::services::monitoring::shared::{HeldAuthority, MonitoringStatus};
use dopedb::text::Text;

const GRANT: &str = "GRANT pg_monitor TO CURRENT_USER";

fn pin(engine: Engine, access: WorkspaceConnectionAccess) -> PinnedConnection {
    PinnedConnection {
        scope: ScopePin { workspace_id: 1, account_scope: AccountScope::Personal, generation: 3 },
        connection_id: 5,
        connection_revision: 2,
        binding_revision: None,
        binding_updated_at: None,
        profile: PinnedProfile {
            id: 5,
            name: "monitored".into(),
            engine,
            env: None,
            workspace_access: access,
            credential_mode: WorkspaceCredentialMode::Local,
        },
    }
}

fn operation(state: OperationState) -> OperationRecord {
    OperationRecord {
        id: 40,
        workspace_id: 1,
        account_scope: "personal".into(),
        connection_id: 5,
        connection_revision: 2,
        terminal_session_id: None,
        actor_kind: OperationActorKind::LocalUser,
        actor_id: "local-user".into(),
        kind: OperationKind::Privilege,
        payload_schema_version: 1,
        payload_hash: "hash".into(),
        risk_level: OperationRiskLevel::High,
        policy_environment: None,
        policy_revision: "revision".into(),
        state,
        expires_at: Some(1_000),
        started_at: None,
        finished_at: None,
        created_at: 1,
        updated_at: 1,
    }
}

fn failure() -> AppError {
    AppError::Network(Text::Plain("down"))
}

fn propose(
    engine: Engine,
    access: WorkspaceConnectionAccess,
    allow_writes: bool,
) -> (Vec<Effect>, MonitoringProposeEnd) {
    let mut effects = Vec::new();
    let mut step =
        MonitoringPropose::start(MonitoringProposalRequest { connection_id: 5, enabled: true });
    loop {
        effects.append(&mut step.effects);
        let (state, request) = match step.turn {
            Turn::Done(end) => return (effects, end),
            Turn::Ask { state, request } => (state, request),
        };
        let reply = match request {
            MonitoringProposeRequest::PinForView { connection_id } => {
                assert_eq!(connection_id, 5);
                MonitoringProposeReply::Pin(Ok(pin(engine, access)))
            }
            MonitoringProposeRequest::LoadSafety { .. } => {
                MonitoringProposeReply::Safety(Ok(SafetySettings {
                    allow_writes,
                    ..SafetySettings::default()
                }))
            }
            MonitoringProposeRequest::HashPolicy { snapshot } => {
                assert!(snapshot.safety.is_some());
                MonitoringProposeReply::Policy {
                    revision: Ok("revision".into()),
                    fresh_id: 40,
                    now: 1_000,
                }
            }
            MonitoringProposeRequest::Plan { operation: planned, enabled, sql, preview } => {
                assert_eq!((preview.action, preview.role), ("grant", "pg_monitor"));
                assert_eq!(preview.sql, GRANT);
                assert!(enabled);
                assert_eq!(sql, GRANT);
                assert_eq!((planned.id, planned.idempotency_key), (40, 40));
                assert_eq!(planned.kind, OperationKind::Privilege);
                assert_eq!(planned.risk_level, OperationRiskLevel::High);
                assert_eq!(planned.disposition, OperationPlanDisposition::ApprovalRequired);
                assert_eq!(planned.expires_at, 1_000 + 300_000_000_000);
                assert!(planned.single_use);
                MonitoringProposeReply::Plan(Ok(operation(OperationState::PendingApproval)))
            }
        };
        step = state.advance(reply);
    }
}

#[test]
fn non_postgres_change_rejects_before_audit_or_target_touch() {
    let (effects, end) = propose(Engine::Mongodb, WorkspaceConnectionAccess::Local, true);
    assert_eq!(
        end.err().map(|error| error.into_error()),
        Some(AppError::Config(Text::Plain(
            "pg_monitor is only available for PostgreSQL connections"
        )))
    );
    assert!(effects.is_empty());
}

#[test]
fn revoking_is_previewed_as_revoking() {
    let preview = preview_role(false);
    assert_eq!((preview.action, preview.role), ("revoke", "pg_monitor"));
    assert!(preview.sql.starts_with("REVOKE"));
}

#[test]
fn a_proposal_needs_a_role_and_settings_that_write() {
    let (_, end) = propose(Engine::Postgres, WorkspaceConnectionAccess::View, true);
    assert_eq!(
        end.err().map(|error| error.into_error()),
        Some(AppError::Blocked {
            reason: Text::Plain("your workspace role cannot change database monitoring grants")
        })
    );
    let (_, end) = propose(Engine::Postgres, WorkspaceConnectionAccess::Local, false);
    assert_eq!(
        end.err().map(|error| error.into_error()),
        Some(AppError::Blocked { reason: Text::Plain("writes are disabled for this connection") })
    );
}

struct Host {
    payload_sql: &'static str,
    revision: &'static str,
    claim: Result<String, AppError>,
    attempt: Result<(), (AppError, String)>,
    execution: Result<(), AppError>,
    receipt: Result<(), AppError>,
}

fn host() -> Host {
    Host {
        payload_sql: GRANT,
        revision: "revision",
        claim: Ok("local-user".into()),
        attempt: Ok(()),
        execution: Ok(()),
        receipt: Ok(()),
    }
}

fn run(host: Host) -> (Vec<&'static str>, Vec<Effect>, MonitoringRunEnd) {
    let mut asked = Vec::new();
    let mut effects = Vec::new();
    let (mut claim, mut attempt, mut execution, mut receipt) =
        (Some(host.claim), Some(host.attempt), Some(host.execution), Some(host.receipt));
    let mut step = MonitoringRun::start(40);
    loop {
        effects.append(&mut step.effects);
        let (state, request) = match step.turn {
            Turn::Done(end) => return (asked, effects, end),
            Turn::Ask { state, request } => (state, request),
        };
        let reply = match request {
            MonitoringRunRequest::LoadOperation { operation_id } => {
                assert_eq!(operation_id, 40);
                MonitoringRunReply::Operation(Ok(operation(OperationState::Approved)))
            }
            MonitoringRunRequest::DecodePayload => MonitoringRunReply::Payload(Ok(
                MonitoringPayload { enabled: true, sql: host.payload_sql.into() },
            )),
            MonitoringRunRequest::PinConnection { .. } => MonitoringRunReply::Pin(Ok(pin(
                Engine::Postgres,
                WorkspaceConnectionAccess::Local,
            ))),
            MonitoringRunRequest::LoadSafety { .. } => {
                MonitoringRunReply::Safety(Ok(SafetySettings {
                    allow_writes: true,
                    ..SafetySettings::default()
                }))
            }
            MonitoringRunRequest::HashPolicy { .. } => {
                MonitoringRunReply::Policy(Ok(host.revision.into()))
            }
            MonitoringRunRequest::Claim { .. } => {
                asked.push("claim");
                MonitoringRunReply::Claim(claim.take().unwrap())
            }
            MonitoringRunRequest::RecordAttempt { record } => {
                asked.push("attempt");
                assert_eq!(record.action.render(), "monitoring:grant:attempt");
                assert_eq!(record.approved_by.as_deref(), Some("local-user"));
                assert_eq!(record.kind, QueryKind::Privilege);
                MonitoringRunReply::Attempt(attempt.take().unwrap())
            }
            MonitoringRunRequest::Connect { access } => {
                assert_eq!(access, ConnectionAccess::Write);
                asked.push("connect");
                MonitoringRunReply::Connection(Ok(()))
            }
            MonitoringRunRequest::OpenBackend => MonitoringRunReply::Backend(Ok(())),
            MonitoringRunRequest::SetRole { enabled, operation_id, connection_id } => {
                assert_eq!((enabled, operation_id, connection_id), (true, 40, 5));
                asked.push("set");
                MonitoringRunReply::Execution(execution.take().unwrap())
            }
            MonitoringRunRequest::Succeed { .. } => {
                asked.push("succeed");
                MonitoringRunReply::Receipt(receipt.take().unwrap())
            }
            MonitoringRunRequest::Collect { engine } => {
                assert_eq!(engine, Engine::Postgres);
                asked.push("collect");
                MonitoringRunReply::Status(Ok(MonitoringStatus {
                    engine,
                    coverage: Text::Plain("full"),
                    role_available: true,
                    role_granted: true,
                    current_user: None,
                    can_manage: true,
                    note: Text::Plain(""),
                }))
            }
        };
        step = state.advance(reply);
    }
}

#[test]
fn unapproved_postgres_change_remains_pending_without_target_or_audit_touch() {
    let (effects, end) = propose(Engine::Postgres, WorkspaceConnectionAccess::Local, true);
    let Ok(proposal) = end else { panic!() };
    assert!(effects.is_empty());
    assert_eq!(proposal.state, OperationState::PendingApproval);
    assert_eq!(proposal.sql, GRANT);
    let (asked, effects, end) = run(Host {
        claim: Err(AppError::Blocked { reason: Text::Plain("operation is not approved") }),
        ..host()
    });
    assert!(matches!(
        end.err().map(|error| error.into_error()),
        Some(AppError::Blocked { .. })
    ));
    assert_eq!(asked, ["claim"]);
    assert!(effects.is_empty());
}

#[test]
fn an_approved_change_is_recorded_before_and_after() {
    let (asked, effects, end) = run(host());
    let Ok(receipt) = end else { panic!() };
    assert_eq!(receipt.held, HeldAuthority::Lease);
    assert!(receipt.status.role_granted);
    assert_eq!(asked, ["claim", "attempt", "connect", "set", "succeed", "collect"]);
    assert!(effects.iter().any(|effect| matches!(
        effect,
        Effect::History(row) if row.status == "ok" && row.kind == QueryKind::Privilege
    )));
}

#[test]
fn a_tampered_role_change_never_reaches_the_target() {
    let (asked, effects, end) = run(Host { payload_sql: "GRANT ALL TO PUBLIC", ..host() });
    assert_eq!(
        end.err().map(|error| error.into_error()),
        Some(AppError::Blocked {
            reason: Text::Plain(
                "stored monitoring operation does not match the fixed role action"
            )
        })
    );
    assert!(asked.is_empty() && effects.is_empty());
    let (asked, _, end) = run(Host { revision: "other", ..host() });
    assert!(end.is_err());
    assert!(asked.is_empty());
}

#[test]
fn a_change_is_refused_when_its_attempt_cannot_be_recorded() {
    let (asked, effects, end) = run(Host { attempt: Err((failure(), "down".into())), ..host() });
    assert_eq!(asked, ["claim", "attempt"]);
    assert_eq!(
        end.err().map(|error| error.into_error().message()).as_deref(),
        Some("audit pre-record failed — refusing to change pg_monitor: down")
    );
    assert!(
        effects
            == [Effect::Settle {
                operation_id: 40,
                settlement: Settlement::Failed {
                    reason: "audit_pre_record_failed",
                    error: Some(failure())
                }
            }]
    );
}

#[test]
fn a_change_that_fails_on_the_target_has_an_unknown_outcome() {
    let (asked, effects, end) = run(Host { execution: Err(failure()), ..host() });
    assert_eq!(end.err().map(|error| error.into_error()), Some(failure()));
    assert_eq!(asked, ["claim", "attempt", "connect", "set"]);
    assert!(effects.iter().any(|effect| matches!(
        effect,
        Effect::Settle {
            settlement: Settlement::OutcomeUnknown {
                reason: "monitoring_role_execution_failed",
                ..
            },
            ..
        }
    )));
    let (_, effects, end) = run(Host { receipt: Err(failure()), ..host() });
    assert_eq!(end.err().map(|error| error.into_error()), Some(failure()));
    assert!(effects.iter().any(|effect| matches!(
        effect,
        Effect::Settle {
            settlement: Settlement::OutcomeUnknown { reason: "local_receipt_failed", error: None },
            ..
        }
    )));
}
