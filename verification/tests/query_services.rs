use dopedb::error::AppError;
use dopedb::model::{
    Classification, ConnectionAccess, Engine, QueryKind, RiskLevel, SafetySettings,
    WorkspaceConnectionAccess, WorkspaceCredentialMode,
};
use dopedb::operations::{
    AccountScope, OperationActorKind, OperationKind, OperationRecord, OperationRiskLevel,
    OperationState, PinnedConnection, PinnedProfile, ScopePin,
};
use dopedb::services::effects::{Effect, Settlement, Step, Turn};
use dopedb::services::operation_decision::{
    show_terminal, wait_terminal, Decision, DecisionReply, DecisionRequest,
    OperationDecisionRequest, TerminalCancel, TerminalCancelReply, TerminalCancelRequest, Verdict,
    WaitStep,
};
use dopedb::services::query::agent::{AgentQueryInvocationOrigin, AgentReadPayload, QUERY_PLAN_TTL};
use dopedb::services::query::agent_execute::{
    AgentExecute, AgentExecuteReply, AgentExecuteRequest, AgentQueryRun, AgentQueryRunError,
};
use dopedb::services::query::agent_plan::{
    AgentPlan, AgentPlanReply, AgentPlanRequest, AgentQueryPlan, AgentQueryPlanError,
    AgentQueryPlanRequest,
};
use dopedb::services::query::agent_prepare::{
    AgentPrepare, AgentPrepareReply, AgentPrepareRequest, AgentQueryRunPrepareError,
    PreparedAgentQueryRun,
};
use dopedb::services::query::desktop_classify::{
    DesktopClassify, DesktopClassifyReply, DesktopClassifyRequest, DesktopSqlClassificationRequest,
};
use dopedb::services::query::desktop_run::{
    DesktopSqlPayload, DesktopSqlRun, DesktopSqlRunError, DesktopSqlRunReply, DesktopSqlRunRequest,
    ExecSummary, ResultSize,
};
use dopedb::services::query::guidance::HealthSnapshot;
use dopedb::services::query::shared::GateDecision;
use dopedb::services::terminal_authority::TerminalAuthority;
use dopedb::text::Text;

const SESSION: u128 = 900;

fn pin() -> PinnedConnection {
    PinnedConnection {
        scope: ScopePin {
            workspace_id: 1,
            account_scope: AccountScope::Personal,
            generation: 3,
        },
        connection_id: 5,
        connection_revision: 2,
        binding_revision: None,
        binding_updated_at: None,
        profile: PinnedProfile {
            id: 5,
            name: "target".into(),
            engine: Engine::Sqlite,
            env: Some("dev".into()),
            workspace_access: WorkspaceConnectionAccess::Local,
            credential_mode: WorkspaceCredentialMode::Local,
        },
    }
}

fn record(kind: OperationKind) -> OperationRecord {
    OperationRecord {
        id: 40,
        workspace_id: 1,
        account_scope: "personal".into(),
        connection_id: 5,
        connection_revision: 2,
        terminal_session_id: Some(SESSION),
        actor_kind: OperationActorKind::LocalUser,
        actor_id: "local-user".into(),
        kind,
        payload_schema_version: 1,
        payload_hash: "hash".into(),
        risk_level: OperationRiskLevel::Medium,
        policy_environment: Some("dev".into()),
        policy_revision: "revision".into(),
        state: OperationState::Approved,
        expires_at: Some(1_000),
        started_at: None,
        finished_at: None,
        created_at: 1,
        updated_at: 1,
    }
}

fn classification(kind: QueryKind) -> Classification {
    Classification { kind, risk: RiskLevel::Low, no_where: false, statement_count: 1 }
}

fn failure() -> AppError {
    AppError::Network(Text::Plain("down"))
}

struct DesktopHost {
    kind: QueryKind,
    gate: fn() -> GateDecision,
    revision: &'static str,
    origin: &'static str,
    claim: fn() -> Result<(), AppError>,
    attempt: Result<(), &'static str>,
    execution: fn() -> Result<ExecSummary, (AppError, String)>,
    receipt: fn() -> Result<(), AppError>,
}

fn desktop() -> DesktopHost {
    DesktopHost {
        kind: QueryKind::Write,
        gate: || GateDecision::RequireApproval,
        revision: "revision",
        origin: "manual",
        claim: || Ok(()),
        attempt: Ok(()),
        execution: || Ok(ExecSummary { result: None, affected: Some(3), committed: true }),
        receipt: || Ok(()),
    }
}

fn run_desktop(
    host: DesktopHost,
) -> (Vec<&'static str>, Vec<Effect>, Result<ExecSummary, DesktopSqlRunError>) {
    let mut asked = Vec::new();
    let mut effects = Vec::new();
    let mut step: Step<_, _, _> = DesktopSqlRun::start(40);
    loop {
        effects.append(&mut step.effects);
        let (state, request) = match step.turn {
            Turn::Done(end) => return (asked, effects, end),
            Turn::Ask { state, request } => (state, request),
        };
        let reply = match request {
            DesktopSqlRunRequest::LoadOperation { operation_id } => {
                assert_eq!(operation_id, 40);
                DesktopSqlRunReply::Operation(Ok(record(match host.kind {
                    QueryKind::Read => OperationKind::ReadQuery,
                    QueryKind::Write => OperationKind::WriteSql,
                    QueryKind::Ddl => OperationKind::Ddl,
                    QueryKind::Privilege => OperationKind::Privilege,
                })))
            }
            DesktopSqlRunRequest::DecodePayload => DesktopSqlRunReply::Payload(Ok(
                DesktopSqlPayload { sql: "UPDATE t SET a = 1".into(), history_origin: host.origin.into() },
            )),
            DesktopSqlRunRequest::PinConnection { connection_id } => {
                assert_eq!(connection_id, 5);
                DesktopSqlRunReply::Pin(Ok(pin()))
            }
            DesktopSqlRunRequest::LoadSafety { .. } => {
                DesktopSqlRunReply::Safety(Ok(SafetySettings {
                    allow_writes: true,
                    ..SafetySettings::default()
                }))
            }
            DesktopSqlRunRequest::HashPolicy { snapshot } => {
                assert_eq!(snapshot.scope_generation, 3);
                DesktopSqlRunReply::Policy(Ok(host.revision.into()))
            }
            DesktopSqlRunRequest::Classify { .. } => {
                DesktopSqlRunReply::Classification(Ok(classification(host.kind)))
            }
            DesktopSqlRunRequest::Decide { .. } => {
                asked.push("gate");
                DesktopSqlRunReply::Gate((host.gate)())
            }
            DesktopSqlRunRequest::Claim { .. } => {
                asked.push("claim");
                DesktopSqlRunReply::Claim((host.claim)())
            }
            DesktopSqlRunRequest::RecordAttempt { record } => {
                assert_eq!(record.action.render(), "execute:attempt");
                assert_eq!(record.approved_by.as_deref(), Some("local-user"));
                asked.push("attempt");
                DesktopSqlRunReply::Attempt(host.attempt.map_err(Into::into))
            }
            DesktopSqlRunRequest::Connect { access } => {
                asked.push(match access {
                    ConnectionAccess::Read => "connect read",
                    ConnectionAccess::Write => "connect write",
                });
                DesktopSqlRunReply::Connection(Ok(()))
            }
            DesktopSqlRunRequest::OpenBackend => DesktopSqlRunReply::Backend(Ok(())),
            DesktopSqlRunRequest::Execute { granted, .. } => {
                asked.push(if granted { "execute granted" } else { "execute" });
                DesktopSqlRunReply::Execution((host.execution)())
            }
            DesktopSqlRunRequest::Succeed { .. } => {
                asked.push("succeed");
                DesktopSqlRunReply::Receipt((host.receipt)())
            }
        };
        step = state.advance(reply);
    }
}

fn audits(effects: &[Effect]) -> usize {
    effects.iter().filter(|effect| matches!(effect, Effect::Audit(_))).count()
}

fn histories(effects: &[Effect]) -> usize {
    effects.iter().filter(|effect| matches!(effect, Effect::History(_))).count()
}

#[test]
fn desktop_sql_exact_approval_commits_and_records_both_ledgers() {
    let unapproved = || AppError::Blocked { reason: Text::Plain("operation is not approved") };
    let (asked, effects, end) = run_desktop(DesktopHost {
        claim: || Err(AppError::Blocked { reason: Text::Plain("operation is not approved") }),
        ..desktop()
    });
    assert_eq!(end.err().map(|error| error.into_error()), Some(unapproved()));
    assert_eq!(asked, ["gate", "claim"]);
    assert!(effects.is_empty());

    let (asked, effects, end) = run_desktop(DesktopHost {
        origin: "sql",
        execution: || Ok(ExecSummary { result: None, affected: Some(1), committed: true }),
        ..desktop()
    });
    assert_eq!(
        end.ok(),
        Some(ExecSummary { result: None, affected: Some(1), committed: true })
    );
    assert_eq!(
        asked,
        ["gate", "claim", "attempt", "connect write", "execute granted", "succeed"]
    );
    let [Effect::Audit(audit), Effect::History(history)] = effects.as_slice() else { panic!() };
    assert_eq!(audit.action.render(), "execute");
    assert_eq!((history.status, history.origin.render().as_str()), ("ok", "sql"));
    assert_eq!((history.kind, history.row_count), (QueryKind::Write, Some(1)));
}

#[test]
fn desktop_sql_write_fails_closed_when_attempt_audit_is_unavailable() {
    let (asked, _, end) = run_desktop(DesktopHost { attempt: Err("disk full"), ..desktop() });
    assert!(end.is_err());
    assert_eq!(asked, ["gate", "claim", "attempt"]);
}

#[test]
fn desktop_sql_execution_failure_closes_the_attempt_and_keeps_original_error() {
    let (asked, effects, end) = run_desktop(DesktopHost {
        execution: || Err((failure(), "down".into())),
        ..desktop()
    });
    assert_eq!(end.err().map(|error| error.into_error()), Some(failure()));
    assert!(!asked.contains(&"succeed"));
    assert_eq!((audits(&effects), histories(&effects)), (1, 1));
    assert!(effects.iter().any(|effect| matches!(
        effect,
        Effect::Settle { operation_id: 40, settlement: Settlement::FailedWithKind(_) }
    )));
}

#[test]
fn unacknowledged_target_commit_becomes_outcome_unknown_without_retry() {
    let (asked, effects, end) = run_desktop(DesktopHost {
        execution: || {
            Err((AppError::OutcomeUnknown(Text::Plain("commit lost")), "commit lost".into()))
        },
        ..desktop()
    });
    assert!(matches!(
        end.err().map(|error| error.into_error()),
        Some(AppError::OutcomeUnknown(_))
    ));
    assert_eq!(asked.iter().filter(|asked| asked.starts_with("execute")).count(), 1);
    let settled: Vec<&Effect> =
        effects.iter().filter(|effect| matches!(effect, Effect::Settle { .. })).collect();
    assert!(matches!(
        settled.as_slice(),
        [Effect::Settle {
            operation_id: 40,
            settlement: Settlement::OutcomeUnknown { reason: "target_outcome_unconfirmed", .. }
        }]
    ));
    let (asked, _, end) = run_desktop(DesktopHost {
        claim: || Err(AppError::Blocked { reason: Text::Plain("operation cannot be claimed") }),
        ..desktop()
    });
    assert!(end.is_err());
    assert_eq!(asked, ["gate", "claim"]);
}

#[test]
fn a_run_that_the_safety_settings_block_is_not_claimed() {
    let (asked, effects, end) = run_desktop(DesktopHost {
        gate: || GateDecision::Block { reason: "writes are off".into() },
        ..desktop()
    });
    assert_eq!(
        end.err().map(|error| error.into_error()),
        Some(AppError::Blocked { reason: Text::Owned("writes are off".into()) })
    );
    assert_eq!(asked, ["gate"]);
    assert!(effects.iter().all(|effect| !matches!(effect, Effect::Settle { .. })));
}

#[test]
fn a_changed_policy_ends_a_run_before_it_is_claimed() {
    let (asked, _, end) = run_desktop(DesktopHost { revision: "other", ..desktop() });
    assert!(end.is_err());
    assert!(asked.is_empty());
}

#[test]
fn desktop_sql_committed_ddl_invalidates_the_legacy_schema_cache() {
    let (_, effects, end) = run_desktop(DesktopHost { kind: QueryKind::Ddl, ..desktop() });
    assert!(end.is_ok());
    assert!(effects.contains(&Effect::ClearSchemaCache { connection_id: 5 }));
    let (_, effects, _) = run_desktop(desktop());
    assert!(!effects.contains(&Effect::ClearSchemaCache { connection_id: 5 }));
}

#[test]
fn a_read_is_not_granted_anything() {
    let (asked, _, end) = run_desktop(DesktopHost {
        kind: QueryKind::Read,
        gate: || GateDecision::AutoRun,
        execution: || {
            Ok(ExecSummary {
                result: Some(ResultSize { row_count: 2, duration_ms: 1 }),
                affected: None,
                committed: false,
            })
        },
        ..desktop()
    });
    assert!(end.is_ok());
    assert_eq!(asked, ["gate", "claim", "connect read", "execute", "succeed"]);
}

#[test]
fn desktop_sql_read_preserves_wire_provenance_and_lease_guard() {
    let (_, effects, end) = run_desktop(DesktopHost {
        kind: QueryKind::Read,
        gate: || GateDecision::AutoRun,
        execution: || {
            Ok(ExecSummary {
                result: Some(ResultSize { row_count: 2, duration_ms: 1 }),
                affected: None,
                committed: false,
            })
        },
        ..desktop()
    });
    let Ok(summary) = end else { panic!() };
    assert_eq!(summary.result.map(|result| result.row_count), Some(2));
    assert_eq!((summary.affected, summary.committed), (None, false));
    let Some(Effect::Audit(audit)) = effects.first() else { panic!() };
    assert_eq!((audit.action.render().as_str(), audit.affected_estimate), ("read", Some(2)));
    let Some(Effect::History(history)) = effects.get(1) else { panic!() };
    assert_eq!((history.status, history.kind), ("ok", QueryKind::Read));
    assert_eq!(history.row_count, Some(2));
    assert_eq!(history.origin.render(), "manual");
    assert_eq!(effects.len(), 2);
}

#[test]
fn interrupted_writes_are_reported_as_unknown_and_reads_as_cancelled() {
    let stopped = || Err((AppError::Safety(Text::Plain("query cancelled")), "stopped".into()));
    let (_, effects, end) = run_desktop(DesktopHost { execution: stopped, ..desktop() });
    assert_eq!(
        end.err().map(|error| error.into_error().message()).as_deref(),
        Some(
            "write execution was interrupted before rollback or commit could be confirmed: stopped"
        )
    );
    assert!(effects.iter().any(|effect| matches!(
        effect,
        Effect::Settle { settlement: Settlement::OutcomeUnknown { .. }, .. }
    )));
    let (_, effects, end) = run_desktop(DesktopHost {
        kind: QueryKind::Read,
        execution: stopped,
        ..desktop()
    });
    assert!(matches!(end.err().map(|error| error.into_error()), Some(AppError::Safety(_))));
    assert!(effects.iter().any(|effect| matches!(
        effect,
        Effect::Settle { settlement: Settlement::Cancelled { reason: "user_cancelled" }, .. }
    )));
}

#[test]
fn classification_is_made_in_the_dialect_of_the_pinned_connection() {
    let request =
        DesktopSqlClassificationRequest { connection_id: 5, sql: "SELECT id FROM users".into() };
    let Turn::Ask { state, request } = DesktopClassify::start(request).turn else { panic!() };
    assert!(request == DesktopClassifyRequest::PinForView { connection_id: 5 });
    let Turn::Ask { state, request } = state.advance(DesktopClassifyReply::Pinned(Ok(pin()))).turn
    else {
        panic!()
    };
    assert!(
        request
            == DesktopClassifyRequest::Classify {
                sql: "SELECT id FROM users".into(),
                engine: Engine::Sqlite
            }
    );
    let read = classification(QueryKind::Read);
    assert!(matches!(
        state.advance(DesktopClassifyReply::Classified(Ok(read))).turn,
        Turn::Done(Ok(found)) if found == read
    ));
}

fn decide(
    verdict: Verdict,
    reason: Option<&str>,
    record: OperationRecord,
) -> Result<OperationState, AppError> {
    let request = OperationDecisionRequest {
        operation_id: 40,
        expected_payload_hash: "seen".into(),
        reason: reason.map(Into::into),
    };
    let mut step = Decision::start(request, verdict);
    loop {
        let (state, request) = match step.turn {
            Turn::Done(end) => return end.map(|receipt| receipt.state),
            Turn::Ask { state, request } => (state, request),
        };
        let reply = match request {
            DecisionRequest::LoadOperation { .. } => DecisionReply::Loaded(Ok(OperationRecord {
                account_scope: record.account_scope.clone(),
                actor_id: record.actor_id.clone(),
                payload_hash: record.payload_hash.clone(),
                policy_environment: record.policy_environment.clone(),
                policy_revision: record.policy_revision.clone(),
                ..record
            })),
            DecisionRequest::PinForView { .. } => DecisionReply::Pinned(Ok(pin())),
            DecisionRequest::LoadSafety { .. } => {
                DecisionReply::Safety(Ok(SafetySettings::default()))
            }
            DecisionRequest::HashPolicy { .. } => DecisionReply::Hashed(Ok("now".into())),
            DecisionRequest::Record { verdict, exact } => {
                assert_eq!(exact.expected_payload_hash, "seen");
                assert_eq!(exact.current_policy_revision, "now");
                assert_eq!(exact.approver.id.render(), "local-user");
                DecisionReply::Decided(Ok(OperationRecord {
                    state: match verdict {
                        Verdict::Approve => OperationState::Approved,
                        Verdict::Reject => OperationState::Rejected,
                    },
                    account_scope: record.account_scope.clone(),
                    actor_id: record.actor_id.clone(),
                    payload_hash: record.payload_hash.clone(),
                    policy_environment: record.policy_environment.clone(),
                    policy_revision: record.policy_revision.clone(),
                    ..record
                }))
            }
        };
        step = state.advance(reply);
    }
}

#[test]
fn critical_write_requires_the_exact_typed_confirmation() {
    let critical = || {
        let mut record = record(OperationKind::WriteSql);
        record.risk_level = OperationRiskLevel::Critical;
        record
    };
    for reason in [None, Some("run critical"), Some("PROD"), Some(" RUN CRITICAL")] {
        assert!(matches!(
            decide(Verdict::Approve, reason, critical()),
            Err(error) if error.message().contains(
                "type the exact confirmation phrase `RUN CRITICAL` before approving this operation"
            )
        ));
    }
    assert_eq!(
        decide(Verdict::Approve, Some("RUN CRITICAL"), critical()),
        Ok(OperationState::Approved)
    );
    assert_eq!(decide(Verdict::Reject, None, critical()), Ok(OperationState::Rejected));
}

#[test]
fn production_write_requires_production_confirmation() {
    let production = || {
        let mut record = record(OperationKind::WriteSql);
        record.policy_environment = Some("Prod".into());
        record
    };
    assert!(decide(Verdict::Approve, None, production()).is_err());
    assert_eq!(
        decide(Verdict::Approve, Some("PROD"), production()),
        Ok(OperationState::Approved)
    );
    let mut read = production();
    read.kind = OperationKind::ReadQuery;
    assert_eq!(decide(Verdict::Approve, None, read), Ok(OperationState::Approved));
}

#[test]
fn a_decision_on_another_revision_is_refused() {
    let mut moved = record(OperationKind::WriteSql);
    moved.connection_revision = 1;
    assert!(matches!(
        decide(Verdict::Reject, None, moved),
        Err(AppError::Blocked { reason })
            if reason.render()
                == "operation scope or connection revision changed after the proposal was created"
    ));
}

fn authority() -> TerminalAuthority {
    TerminalAuthority {
        terminal_session_id: SESSION,
        workspace_id: 1,
        account_scope: "personal".into(),
        connection_id: 5,
        connection_revision: 2,
        client_protocol_version: 1,
    }
}

#[test]
fn terminals_see_and_cancel_their_own_operations_only() {
    let mut foreign = record(OperationKind::WriteSql);
    foreign.terminal_session_id = None;
    assert!(matches!(
        show_terminal(&foreign, &authority()),
        Err(error) if error.message().contains("different Terminal")
    ));
    assert!(show_terminal(&record(OperationKind::WriteSql), &authority()).is_ok());

    let loaded = |state: OperationState| {
        let mut record = record(OperationKind::WriteSql);
        record.state = state;
        let Turn::Ask { state, .. } = TerminalCancel::start(authority(), 40).turn else { panic!() };
        state.advance(TerminalCancelReply::Loaded(Ok(record)))
    };
    let over = loaded(OperationState::Succeeded);
    assert!(over.effects.is_empty() && matches!(over.turn, Turn::Done(Ok(_))));
    let running = loaded(OperationState::Executing);
    assert!(running.effects == [Effect::CancelExecution { operation_id: 40 }]);
    let Turn::Ask { state, request } = loaded(OperationState::Ready).turn else { panic!() };
    assert!(
        request
            == TerminalCancelRequest::CancelBeforeExecution {
                operation_id: 40,
                terminal_session_id: SESSION
            }
    );
    let mut cancelled = record(OperationKind::WriteSql);
    cancelled.state = OperationState::Cancelled;
    assert!(matches!(
        state.advance(TerminalCancelReply::Cancelled(Ok(cancelled))).turn,
        Turn::Done(Ok(summary)) if summary.state == OperationState::Cancelled
    ));
}

#[test]
fn a_terminal_waits_in_short_naps_until_its_deadline() {
    let waiting = || Ok(record(OperationKind::WriteSql));
    assert!(wait_terminal(waiting(), &authority(), 0, 70_000_000) == WaitStep::Sleep(50_000_000));
    assert!(
        wait_terminal(waiting(), &authority(), 50_000_000, 70_000_000)
            == WaitStep::Sleep(20_000_000)
    );
    assert!(
        wait_terminal(waiting(), &authority(), 70_000_000, 70_000_000)
            == WaitStep::Done(Err(AppError::Safety(Text::Plain("operation wait timed out"))))
    );
    let mut over = record(OperationKind::WriteSql);
    over.state = OperationState::Failed;
    assert!(matches!(
        wait_terminal(Ok(over), &authority(), 99, 1),
        WaitStep::Done(Ok(summary)) if summary.state == OperationState::Failed
    ));
}

fn plan(kind: QueryKind, engine: Engine) -> Result<(i128, AgentQueryPlan), AgentQueryPlanError> {
    let mut expires_at = 0;
    let mut step = AgentPlan::start(AgentQueryPlanRequest {
        connection_id: 5,
        sql: "SELECT 1".into(),
        max_rows: Some(5_000),
        origin: AgentQueryInvocationOrigin::Cli,
    });
    loop {
        let (state, request) = match step.turn {
            Turn::Done(end) => return end.map(|plan| (expires_at, plan)),
            Turn::Ask { state, request } => (state, request),
        };
        let reply = match request {
            AgentPlanRequest::PinConnection { access, .. } => {
                assert_eq!(access, ConnectionAccess::Read);
                let mut pin = pin();
                pin.profile.engine = engine;
                AgentPlanReply::Pin(Ok(pin))
            }
            AgentPlanRequest::Classify { .. } => {
                AgentPlanReply::Classification(Ok(classification(kind)))
            }
            AgentPlanRequest::LoadSafety { .. } => {
                AgentPlanReply::Safety(Ok(SafetySettings::default()))
            }
            AgentPlanRequest::HashPolicy { snapshot } => {
                assert!(snapshot.safety.is_none());
                AgentPlanReply::Policy(Ok("revision".into()))
            }
            AgentPlanRequest::Connect => AgentPlanReply::Connection(Ok(())),
            AgentPlanRequest::OpenBackend => AgentPlanReply::Backend(Ok(())),
            AgentPlanRequest::Preview { .. } => AgentPlanReply::Preview(Ok(Some(12))),
            AgentPlanRequest::CheckHealth => AgentPlanReply::Health {
                health: HealthSnapshot {
                    level: "normal".into(),
                    coverage: "full".into(),
                    reasons: vec!["replication is current".into()],
                },
                fresh_id: 77,
                now: 1_000,
            },
            AgentPlanRequest::Plan { operation, max_rows, decision, preview, .. } => {
                assert_eq!(preview.estimated_rows, Some(12));
                assert_eq!(preview.health.level, "normal");
                assert_eq!(preview.notices(), ["replication is current"]);
                assert!(preview.suggestions().is_empty());
                assert_eq!(max_rows, 1000);
                assert_eq!(decision, "ready");
                assert_eq!(operation.id, 77);
                assert!(operation.single_use);
                expires_at = operation.expires_at;
                AgentPlanReply::Plan(Ok(()))
            }
        };
        step = state.advance(reply);
    }
}

#[test]
fn a_plan_freezes_its_cap_and_expires() {
    let Ok((expires_at, plan)) = plan(QueryKind::Read, Engine::Sqlite) else { panic!() };
    assert_eq!(expires_at, 1_000 + QUERY_PLAN_TTL);
    assert_eq!(plan.plan_id, 77);
    assert_eq!(plan.estimated_rows, Some(12));
    assert_eq!(plan.decision, "ready");
    assert_eq!(plan.notices, ["replication is current"]);
    assert!(plan.suggestions.is_empty());
    assert_eq!((plan.health.level.as_str(), plan.health.coverage.as_str()), ("normal", "full"));
}

#[test]
fn non_read_rejection_audits_only_after_adapter_result_boundary() {
    let Err(AgentQueryPlanError::NotSingleRead(rejected)) = plan(QueryKind::Write, Engine::Sqlite)
    else {
        panic!()
    };
    assert!(matches!(
        rejected.audit_after_result(),
        Effect::Audit(row) if row.action.render() == "cli:plan_query"
            && row.kind == QueryKind::Write
    ));
    assert!(matches!(
        plan(QueryKind::Read, Engine::Mongodb),
        Err(AgentQueryPlanError::DocumentConnection)
    ));
}

fn prepare(
    now: i128,
    claimed: Result<(), AppError>,
    revision: &str,
) -> (Vec<Effect>, Result<PreparedAgentQueryRun, AgentQueryRunPrepareError>) {
    prepare_from(OperationState::Ready, now, claimed, revision)
}

fn prepare_from(
    planned_state: OperationState,
    now: i128,
    claimed: Result<(), AppError>,
    revision: &str,
) -> (Vec<Effect>, Result<PreparedAgentQueryRun, AgentQueryRunPrepareError>) {
    let mut effects = Vec::new();
    let mut claimed = Some(claimed);
    let mut step = AgentPrepare::start(40);
    loop {
        effects.append(&mut step.effects);
        let (state, request) = match step.turn {
            Turn::Done(end) => return (effects, end),
            Turn::Ask { state, request } => (state, request),
        };
        let reply = match request {
            AgentPrepareRequest::LoadOperation { .. } => {
                let mut planned = record(OperationKind::ReadQuery);
                planned.actor_kind = OperationActorKind::Agent;
                planned.actor_id = AgentQueryInvocationOrigin::Mcp.as_str().into();
                planned.state = planned_state;
                AgentPrepareReply::Operation(Ok(planned))
            }
            AgentPrepareRequest::DecodePayload => {
                AgentPrepareReply::Payload(Some(AgentReadPayload {
                    sql: "SELECT 1".into(),
                    max_rows: 7,
                    decision: "ready".into(),
                    origin: AgentQueryInvocationOrigin::Mcp,
                }))
            }
            AgentPrepareRequest::Claim { .. } => {
                AgentPrepareReply::Claim { now, claimed: claimed.take().unwrap() }
            }
            AgentPrepareRequest::PinConnection { .. } => AgentPrepareReply::Pin(Ok(pin())),
            AgentPrepareRequest::LoadSafety { .. } => {
                AgentPrepareReply::Safety(Ok(SafetySettings::default()))
            }
            AgentPrepareRequest::HashPolicy { .. } => {
                AgentPrepareReply::Policy(Ok(revision.into()))
            }
            AgentPrepareRequest::Classify { .. } => {
                AgentPrepareReply::Classification(Ok(classification(QueryKind::Read)))
            }
        };
        step = state.advance(reply);
    }
}

#[test]
fn a_plan_that_is_unchanged_may_run_once() {
    let (effects, end) = prepare(10, Ok(()), "revision");
    assert!(effects.is_empty());
    let Ok(run) = end else { panic!() };
    assert_eq!(run.max_rows, 7);
    assert_eq!(run.event_context.plan_id, 40);
}

fn is_withdrawn(effects: &[Effect]) -> bool {
    matches!(
        effects,
        [Effect::Settle { operation_id: 40, settlement: Settlement::Withdrawn { .. } }]
    )
}

#[test]
fn a_plan_is_valid_at_exactly_its_boundary() {
    for now in [999, 1_000] {
        let (effects, end) = prepare(now, Err(failure()), "revision");
        assert!(matches!(
            end,
            Err(AgentQueryRunPrepareError::Application(error)) if error == failure()
        ));
        assert!(is_withdrawn(&effects));
        assert!(prepare(now, Ok(()), "revision").1.is_ok());
    }
    assert!(matches!(
        prepare(1_001, Err(failure()), "revision").1,
        Err(AgentQueryRunPrepareError::Expired)
    ));
}

#[test]
fn expired_failure_also_consumes_the_plan() {
    let second_after = 1_000 + 1_000_000_000;
    let (effects, end) = prepare(second_after, Err(failure()), "revision");
    assert!(matches!(end, Err(AgentQueryRunPrepareError::Expired)));
    assert!(is_withdrawn(&effects));
    assert!(matches!(
        prepare_from(OperationState::Expired, second_after, Ok(()), "revision").1,
        Err(AgentQueryRunPrepareError::UnknownOrAlreadyUsed)
    ));
}

#[test]
fn every_failed_attempt_takes_the_plan_out_of_use() {
    let loaded = |reply: Result<OperationRecord, AppError>| {
        let Turn::Ask { state, .. } = AgentPrepare::start(40).turn else { panic!() };
        state.advance(AgentPrepareReply::Operation(reply))
    };
    let plan = || {
        let mut planned = record(OperationKind::ReadQuery);
        planned.actor_kind = OperationActorKind::Agent;
        planned.actor_id = AgentQueryInvocationOrigin::Mcp.as_str().into();
        planned.state = OperationState::Ready;
        planned
    };
    let unavailable = loaded(Err(failure()));
    assert!(is_withdrawn(&unavailable.effects));
    assert!(matches!(
        unavailable.turn,
        Turn::Done(Err(AgentQueryRunPrepareError::Application(error))) if error == failure()
    ));

    let Turn::Ask { state, .. } = loaded(Ok(plan())).turn else { panic!() };
    let undecodable = state.advance(AgentPrepareReply::Payload(None));
    assert!(is_withdrawn(&undecodable.effects));
    assert!(matches!(
        undecodable.turn,
        Turn::Done(Err(AgentQueryRunPrepareError::StoredPlanInvalid))
    ));

    let Turn::Ask { state, .. } = loaded(Ok(plan())).turn else { panic!() };
    let foreign = state.advance(AgentPrepareReply::Payload(Some(AgentReadPayload {
        sql: "SELECT 1".into(),
        max_rows: 7,
        decision: "ready".into(),
        origin: AgentQueryInvocationOrigin::Cli,
    })));
    assert!(is_withdrawn(&foreign.effects));
    assert!(matches!(foreign.turn, Turn::Done(Err(AgentQueryRunPrepareError::StoredPlanInvalid))));

    let proposal = loaded(Ok(record(OperationKind::WriteSql)));
    assert!(proposal.effects.is_empty());
    assert!(matches!(
        proposal.turn,
        Turn::Done(Err(AgentQueryRunPrepareError::StoredPlanInvalid))
    ));
}

#[test]
fn service_clones_claim_one_durable_operation() {
    assert!(prepare(10, Ok(()), "revision").1.is_ok());
    let second = AppError::Blocked { reason: Text::Plain("operation is already claimed") };
    assert!(matches!(
        prepare_from(OperationState::Executing, 10, Err(second), "revision").1,
        Err(AgentQueryRunPrepareError::UnknownOrAlreadyUsed)
    ));
}

#[test]
fn authority_failure_consumes_the_plan_before_awaiting() {
    let (effects, end) = prepare(10, Ok(()), "other");
    assert!(matches!(end, Err(AgentQueryRunPrepareError::AuthorityChanged)));
    assert!(effects.iter().any(|effect| matches!(
        effect,
        Effect::Settle { operation_id: 40, settlement: Settlement::Failed { .. } }
    )));
}

fn execute(
    size: Result<ResultSize, AppError>,
    history: Result<u128, AppError>,
) -> (Vec<Effect>, Result<AgentQueryRun, AgentQueryRunError>) {
    let (_, Ok(run)) = prepare(10, Ok(()), "revision") else { panic!() };
    let (mut size, mut history) = (Some(size), Some(history));
    let mut effects = Vec::new();
    let mut step = AgentExecute::start(run);
    loop {
        effects.append(&mut step.effects);
        let (state, request) = match step.turn {
            Turn::Done(end) => return (effects, end),
            Turn::Ask { state, request } => (state, request),
        };
        let reply = match request {
            AgentExecuteRequest::Connect => AgentExecuteReply::Connection(Ok(())),
            AgentExecuteRequest::OpenBackend => AgentExecuteReply::Backend(Ok(())),
            AgentExecuteRequest::RunReadOnly { sql, max_rows } => {
                assert_eq!((sql.as_str(), max_rows), ("SELECT 1", 7));
                AgentExecuteReply::Execution(size.take().unwrap())
            }
            AgentExecuteRequest::PersistHistory { record } => {
                assert_eq!(record.origin.render(), "agent");
                AgentExecuteReply::History(history.take().unwrap())
            }
            AgentExecuteRequest::Succeed { query_run_id, .. } => {
                assert_eq!(query_run_id, 60);
                AgentExecuteReply::Receipt(Ok(()))
            }
        };
        step = state.advance(reply);
    }
}

#[test]
fn sqlite_plan_run_persists_required_provenance() {
    let size = ResultSize { row_count: 1, duration_ms: 2 };
    let (effects, end) = execute(Ok(size), Ok(60));
    let Ok(run) = end else { panic!() };
    assert_eq!((run.query_run_id, run.plan_id, run.size), (60, 40, size));
    assert!(effects.iter().any(|effect| matches!(
        effect,
        Effect::Audit(row) if row.action.render() == "mcp:run_query"
    )));
}

#[test]
fn successful_read_without_consent_history_returns_no_rows_and_consumes_plan() {
    let size = ResultSize { row_count: 1, duration_ms: 2 };
    let (effects, end) = execute(Ok(size), Err(failure()));
    assert!(matches!(end, Err(AgentQueryRunError::ConsentHandlePersistence(_))));
    assert!(effects.iter().any(|effect| matches!(effect, Effect::Settle { operation_id: 40, .. })));
}

#[test]
fn execution_failure_keeps_single_use_and_persists_best_effort_history() {
    let (effects, end) = execute(Err(failure()), Ok(60));
    assert!(matches!(
        end,
        Err(AgentQueryRunError::Execution(failed)) if *failed.error() == failure()
    ));
    assert_eq!((audits(&effects), histories(&effects)), (1, 1));
    assert!(effects.iter().any(|effect| matches!(effect, Effect::Settle { operation_id: 40, .. })));
}
