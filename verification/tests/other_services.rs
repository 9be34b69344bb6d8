use dopedb::error::AppError;
use dopedb::model::{
    ConnectionAccess, Dashboard, DashboardVisualization, Engine, HistoryEntry, QueryKind,
    SafetySettings, WorkspaceConnectionAccess, WorkspaceCredentialMode,
};
use dopedb::operations::{AccountScope, PinnedConnection, PinnedProfile, ScopePin};
use dopedb::services::activity_service::{
    record_best_effort, ActivityRecordRequest, AuditEntry, AuditRead, AuditReadReply,
    AuditReadRequest, AuditSnapshot, AuditSnapshotReply, AuditSnapshotRequest,
};
use dopedb::services::catalog_service::{
    CatalogReadMode, CatalogReadPolicy, TerminalCatalog, TerminalCatalogEnd,
};
use dopedb::services::dashboard::create::{
    AgentDashboardCommitError, AgentDashboardPrepareError, AgentDashboardPresentation,
    DashboardCommit, DashboardCommitReply, DashboardCommitRequest, DashboardPrepare,
    DashboardPrepareReply, DashboardPrepareRequest, PreparedAgentDashboard,
};
use dopedb::services::dashboard::run::{
    DashboardRun, DashboardRunQuestion, DashboardRunReply, DashboardRunRequest, InvalidDashboard,
};
use dopedb::services::effects::{Effect, Note, Turn};
use dopedb::services::monitoring::shared::{monitoring_role_sql, HeldAuthority};
use dopedb::services::monitoring::status::{
    MonitoringStatusRun, MonitoringStatusRunReply, MonitoringStatusRunRequest,
};
use dopedb::services::query::desktop_run::ResultSize;
use dopedb::services::query::pool::{pool_ref, DbPool, PoolRef};
use dopedb::services::script::reads::ReadScript;
use dopedb::services::script::run::{
    close_interrupted, close_reads, close_transaction, DesktopScriptRunRequest, ReadyScript, ScriptRun,
    ScriptRunReply, ScriptRunRequest,
};
use dopedb::services::script::shared::DesktopScriptRunError;
use dopedb::services::script::transaction::{sum_affected, Transaction, TransactionPhase};
use dopedb::services::terminal_authority::TerminalAuthority;
use dopedb::text::Text;

fn pin(engine: Engine) -> PinnedConnection {
    PinnedConnection {
        scope: ScopePin {
            workspace_id: 1,
            account_scope: AccountScope::WorkspaceUser("user".into()),
            generation: 3,
        },
        connection_id: 5,
        connection_revision: 2,
        binding_revision: None,
        binding_updated_at: None,
        profile: PinnedProfile {
            id: 5,
            name: "target".into(),
            engine,
            env: None,
            workspace_access: WorkspaceConnectionAccess::Write,
            credential_mode: WorkspaceCredentialMode::MemberLocal,
        },
    }
}

fn failure() -> AppError {
    AppError::Network(Text::Plain("down"))
}

fn audits(effects: &[Effect]) -> Vec<String> {
    effects
        .iter()
        .filter_map(|effect| match effect {
            Effect::Audit(row) => Some(row.action.render()),
            _ => None,
        })
        .collect()
}

fn script(
    sql: &str,
    approved: bool,
    settings: SafetySettings,
    kinds: Vec<QueryKind>,
    attempt: Result<(), &str>,
) -> (Vec<&'static str>, Result<ReadyScript, DesktopScriptRunError>) {
    let (asked, _, end) = script_from(None, sql, approved, settings, kinds, attempt);
    (asked, end)
}

fn script_from(
    origin: Option<&str>,
    sql: &str,
    approved: bool,
    settings: SafetySettings,
    kinds: Vec<QueryKind>,
    attempt: Result<(), &str>,
) -> (Vec<&'static str>, Vec<Effect>, Result<ReadyScript, DesktopScriptRunError>) {
    let mut asked = Vec::new();
    let mut effects = Vec::new();
    let mut step = ScriptRun::start(DesktopScriptRunRequest {
        connection_id: 5,
        sql: sql.into(),
        approved,
        query_id: Some(8),
        origin: origin.map(Into::into),
    });
    loop {
        effects.append(&mut step.effects);
        let (state, request) = match step.turn {
            Turn::Done(end) => return (asked, effects, end),
            Turn::Ask { state, request } => (state, request),
        };
        let reply = match request {
            ScriptRunRequest::PinConnection { .. } => ScriptRunReply::Pin(Ok(pin(Engine::Sqlite))),
            ScriptRunRequest::LoadSafety { .. } => ScriptRunReply::Safety(Ok(settings)),
            ScriptRunRequest::ClassifyStatements { statements, .. } => {
                assert_eq!(statements.len(), kinds.len());
                ScriptRunReply::Classification(Ok(kinds.clone()))
            }
            ScriptRunRequest::RecordAttempt { record } => {
                assert_eq!(record.action.render(), "script:execute:attempt");
                asked.push("attempt");
                ScriptRunReply::Attempt(attempt.map_err(Into::into))
            }
            ScriptRunRequest::Connect { access } => {
                asked.push(match access {
                    ConnectionAccess::Read => "connect read",
                    ConnectionAccess::Write => "connect write",
                });
                ScriptRunReply::Connection(Ok(()))
            }
            ScriptRunRequest::OpenBackend => ScriptRunReply::Backend(Ok(())),
        };
        step = state.advance(reply);
    }
}

fn writable() -> SafetySettings {
    SafetySettings { allow_writes: true, ..SafetySettings::default() }
}

#[test]
fn transaction_commits_all_on_success() {
    let (asked, end) = script(
        "INSERT INTO t VALUES (1); INSERT INTO t VALUES (2);",
        true,
        writable(),
        vec![QueryKind::Write, QueryKind::Write],
        Ok(()),
    );
    assert_eq!(asked, ["attempt", "connect write"]);
    let Ok(ReadyScript::Writes { context, statements }) = end else { panic!() };
    let mut transaction = Transaction::new(statements);
    transaction.begun(Ok(()));
    assert_eq!(transaction.next(), "INSERT INTO t VALUES (1)");
    let call = context.next_write(&transaction);
    assert_eq!((call.sql.as_str(), call.query_id), ("INSERT INTO t VALUES (1)", Some(8)));
    transaction.executed(Ok(1));
    transaction.executed(Ok(2));
    assert_eq!(transaction.phase, TransactionPhase::Committing);
    transaction.committed(Ok(()));
    let closed = close_transaction(&context, transaction);
    assert!(closed.outcome.committed && !closed.outcome.all_reads);
    assert_eq!(closed.outcome.statements.len(), 2);
    assert!(closed.outcome.statements.iter().all(|statement| statement.error.is_none()));
}

#[test]
fn transaction_rolls_back_the_whole_script_on_error() {
    let (_, end) = script(
        "INSERT INTO t VALUES (1); BAD; INSERT INTO t VALUES (2)",
        true,
        writable(),
        vec![QueryKind::Write, QueryKind::Write, QueryKind::Write],
        Ok(()),
    );
    let Ok(ReadyScript::Writes { context, statements }) = end else { panic!() };
    let mut transaction = Transaction::new(statements);
    transaction.begun(Ok(()));
    transaction.executed(Ok(1));
    transaction.executed(Err("no such table".into()));
    assert_eq!(transaction.phase, TransactionPhase::RollingBack);
    transaction.rolled_back();
    let closed = close_transaction(&context, transaction);
    assert!(!closed.outcome.committed);
    let errors: Vec<Option<String>> = closed
        .outcome
        .statements
        .iter()
        .map(|statement| statement.error.as_ref().map(|error| error.render()))
        .collect();
    assert_eq!(errors.len(), 3);
    assert!(errors[1].as_deref().is_some_and(|error| error.contains("no such table")));
    assert_eq!(errors[2].as_deref(), Some("skipped — transaction rolled back"));
}

#[test]
fn write_script_fails_closed_when_attempt_audit_is_unavailable() {
    let (asked, end) = script(
        "DELETE FROM t",
        true,
        writable(),
        vec![QueryKind::Write],
        Err("disk full"),
    );
    assert_eq!(asked, ["attempt"]);
    assert!(end.is_err());
}

#[test]
fn write_script_gates_preserve_exact_errors_and_never_touch_target() {
    let (asked, end) = script(
        "DELETE FROM t",
        true,
        SafetySettings::default(),
        vec![QueryKind::Write],
        Ok(()),
    );
    assert!(asked.is_empty() && end.is_err());
    let (asked, end) =
        script("DELETE FROM t", false, writable(), vec![QueryKind::Write], Ok(()));
    assert!(asked.is_empty() && end.is_err());
}

#[test]
fn read_script_preserves_wire_history_and_lease() {
    let (asked, end) = script(
        "SELECT 1; SELECT 2",
        false,
        SafetySettings::default(),
        vec![QueryKind::Read, QueryKind::Read],
        Ok(()),
    );
    assert_eq!(asked, ["connect read"]);
    let Ok(ReadyScript::Reads { context, statements }) = end else { panic!() };
    let mut reads = ReadScript::new(statements);
    assert_eq!(reads.next().map(String::as_str), Some("SELECT 1"));
    let Some(call) = context.next_read(&reads) else { panic!() };
    assert_eq!((call.sql.as_str(), call.engine), ("SELECT 1", Engine::Sqlite));
    assert_eq!((call.max_rows, call.query_id), (1000, Some(8)));
    reads.record(Ok(ResultSize { row_count: 3, duration_ms: 1 }));
    reads.record(Ok(ResultSize { row_count: 4, duration_ms: 1 }));
    assert!(reads.next().is_none() && context.next_read(&reads).is_none());
    let closed = close_reads(&context, reads);
    assert!(closed.outcome.all_reads);
    assert!(closed.effects.iter().any(|effect| matches!(
        effect,
        Effect::History(row) if row.row_count == Some(7) && row.status == "ok"
    )));
}

#[test]
fn read_script_approval_gate_preserves_exact_block_contract() {
    let manual = SafetySettings { auto_run_reads: false, ..SafetySettings::default() };
    let (asked, effects, end) = script_from(
        None,
        "SELECT id FROM users",
        false,
        manual,
        vec![QueryKind::Read],
        Ok(()),
    );
    assert!(asked.is_empty());
    assert_eq!(
        end.err().map(|error| error.into_error()),
        Some(AppError::Blocked {
            reason: Text::Plain("reads require approval for this connection")
        })
    );
    assert_eq!(audits(&effects), ["blocked"]);
    let Some(Effect::History(row)) = effects.last() else { panic!() };
    assert_eq!((row.status, row.origin.render().as_str()), ("blocked", "manual"));
}

#[test]
fn write_script_is_atomic_and_closes_attempt_ledger() {
    let (asked, _, end) = script_from(
        Some("data-view"),
        "UPDATE users SET name = 'Grace' WHERE id = 1;\
         UPDATE users SET name = 'Ken' WHERE id = 2",
        true,
        writable(),
        vec![QueryKind::Write, QueryKind::Write],
        Ok(()),
    );
    assert_eq!(asked, ["attempt", "connect write"]);
    let Ok(ReadyScript::Writes { context, statements }) = end else { panic!() };
    let mut transaction = Transaction::new(statements);
    transaction.begun(Ok(()));
    transaction.executed(Ok(1));
    transaction.executed(Ok(1));
    transaction.committed(Ok(()));
    let closed = close_transaction(&context, transaction);
    assert!(closed.outcome.committed && !closed.outcome.all_reads);
    assert_eq!(closed.outcome.statements.len(), 2);
    assert_eq!(audits(&closed.effects), ["script:execute"]);
    assert!(closed.effects.iter().any(|effect| matches!(
        effect,
        Effect::History(row) if row.origin.render() == "data-view"
            && row.status == "ok"
            && row.row_count == Some(2)
    )));
}

#[test]
fn committed_ddl_script_invalidates_schema_cache() {
    let run = |kinds: Vec<QueryKind>| {
        let (_, end) = script(
            "CREATE TABLE widgets (id INTEGER PRIMARY KEY);\
             INSERT INTO widgets (id) VALUES (1)",
            true,
            writable(),
            kinds,
            Ok(()),
        );
        let Ok(ReadyScript::Writes { context, statements }) = end else { panic!() };
        let mut transaction = Transaction::new(statements);
        transaction.begun(Ok(()));
        transaction.executed(Ok(0));
        transaction.executed(Ok(1));
        transaction.committed(Ok(()));
        close_transaction(&context, transaction)
    };
    let closed = run(vec![QueryKind::Ddl, QueryKind::Write]);
    assert!(closed.outcome.committed);
    assert!(closed.effects.contains(&Effect::ClearSchemaCache { connection_id: 5 }));
    assert!(closed.effects.iter().all(|effect| match effect {
        Effect::Audit(row) => row.kind == QueryKind::Ddl,
        _ => true,
    }));
    let closed = run(vec![QueryKind::Write, QueryKind::Write]);
    assert!(!closed.effects.contains(&Effect::ClearSchemaCache { connection_id: 5 }));
}

#[test]
fn an_interrupted_script_is_recorded_as_failed() {
    let (_, end) = script("DELETE FROM t", true, writable(), vec![QueryKind::Write], Ok(()));
    let Ok(ReadyScript::Writes { context, .. }) = end else { panic!() };
    let (effects, error) = close_interrupted(&context, failure());
    assert_eq!(error.into_error(), failure());
    assert_eq!(audits(&effects), ["script:execute"]);
    assert!(effects.iter().any(|effect| matches!(
        effect,
        Effect::History(row) if row.status == "error"
            && row.row_count.is_none()
            && row.error == Some(Note::Error(failure()))
    )));
}

#[test]
fn rows_are_counted_across_statements() {
    let mut transaction = Transaction::new(vec!["a".into(), "b".into(), "c".into()]);
    transaction.begun(Ok(()));
    transaction.executed(Ok(u64::MAX));
    transaction.executed(Ok(4));
    assert_eq!(transaction.outcomes[0].affected, Some(-1));
    transaction.executed(Ok(2));
    assert_eq!(sum_affected(&transaction.outcomes), 5);
}

#[test]
fn a_pool_is_borrowed_as_what_it_is() {
    let mysql: DbPool<u8, u16, u32> = DbPool::Mysql(7);
    assert_eq!(pool_ref(&mysql), PoolRef::Mysql(&7));
    let sqlite: DbPool<u8, u16, u32> = DbPool::Sqlite(9);
    assert_eq!(pool_ref(&sqlite), PoolRef::Sqlite(&9));
    let postgres: DbPool<u8, u16, u32> = DbPool::Postgres(3);
    assert_eq!(pool_ref(&postgres), PoolRef::Postgres(&3));
}

#[test]
fn failed_write_script_rolls_back_and_returns_statement_outcomes() {
    let (_, end) = script(
        "UPDATE users SET name = 'Grace' WHERE id = 1;\
         UPDATE missing_users SET name = 'Ken' WHERE id = 2;\
         UPDATE users SET name = 'Dennis' WHERE id = 2",
        true,
        writable(),
        vec![QueryKind::Write, QueryKind::Write, QueryKind::Write],
        Ok(()),
    );
    let Ok(ReadyScript::Writes { context, statements }) = end else { panic!() };
    let mut transaction = Transaction::new(statements);
    transaction.begun(Ok(()));
    transaction.executed(Ok(1));
    transaction.executed(Err("no such table: missing_users".into()));
    transaction.rolled_back();
    let closed = close_transaction(&context, transaction);
    assert!(!closed.outcome.committed);
    let errors: Vec<Option<String>> = closed
        .outcome
        .statements
        .iter()
        .map(|statement| statement.error.as_ref().map(Text::render))
        .collect();
    assert_eq!(errors.len(), 3);
    assert_eq!(errors[0], None);
    assert!(errors[1].as_deref().is_some_and(|message| message.contains("missing_users")));
    assert_eq!(errors[2].as_deref(), Some("skipped — transaction rolled back"));
    assert_eq!(audits(&closed.effects), ["script:execute"]);
    assert!(closed.effects.iter().any(|effect| matches!(
        effect,
        Effect::History(row) if row.status == "error" && matches!(
            &row.error,
            Some(Note::Said(text)) if text.render().contains("missing_users")
        )
    )));
}

fn line(status: &str, origin: &str, kind: QueryKind) -> HistoryEntry {
    HistoryEntry {
        id: 60,
        connection_id: 5,
        sql: "SELECT day, visitors FROM daily".into(),
        kind,
        status: status.into(),
        row_count: Some(1),
        duration_ms: Some(1),
        error: None,
        executed_at: 1,
        origin: origin.into(),
    }
}

fn prepare(
    resolved: Result<HistoryEntry, AppError>,
) -> Result<PreparedAgentDashboard, AgentDashboardPrepareError> {
    let presentation = AgentDashboardPresentation {
        title: "Daily".into(),
        description: String::new(),
        kind: "line".into(),
        x_column: Some("day".into()),
        y_columns: vec!["visitors".into()],
    };
    let mut resolved = Some(resolved);
    let mut step = DashboardPrepare::start(60, presentation);
    loop {
        let (state, request) = match step.turn {
            Turn::Done(end) => return end,
            Turn::Ask { state, request } => (state, request),
        };
        let reply = match request {
            DashboardPrepareRequest::ResolveHistory { query_run_id } => {
                assert_eq!(query_run_id, 60);
                DashboardPrepareReply::Resolve(resolved.take().unwrap())
            }
            DashboardPrepareRequest::PinConnection { .. } => {
                DashboardPrepareReply::Pin(Ok(pin(Engine::Sqlite)))
            }
            DashboardPrepareRequest::ReloadHistory { query_run_id } => {
                assert_eq!(query_run_id, 60);
                DashboardPrepareReply::Source(Ok(line("ok", "agent", QueryKind::Read)))
            }
        };
        step = state.advance(reply);
    }
}

#[test]
fn prepare_distinguishes_missing_and_ineligible_query_runs() {
    assert!(matches!(
        prepare(Err(AppError::NotFound(Text::Plain("query history")))),
        Err(AgentDashboardPrepareError::QueryRunNotFound)
    ));
    for ineligible in [
        line("error", "agent", QueryKind::Read),
        line("ok", "manual", QueryKind::Read),
        line("ok", "agent", QueryKind::Write),
    ] {
        assert!(matches!(
            prepare(Ok(ineligible)),
            Err(AgentDashboardPrepareError::QueryRunIneligible)
        ));
    }
    let Ok(prepared) = prepare(Ok(line("ok", "agent", QueryKind::Read))) else { panic!() };
    assert_eq!(prepared.draft.sql, "SELECT day, visitors FROM daily");
    assert_eq!(prepared.draft.connection_id, 5);
    assert_eq!(prepared.event_context.connection_name, "target");
}

fn run_dashboard(
    validation: Result<(), InvalidDashboard>,
    execution: Result<ResultSize, AppError>,
) -> (Vec<&'static str>, Vec<Effect>, Option<AppError>) {
    let (mut validation, mut execution) = (Some(validation), Some(execution));
    let mut asked = Vec::new();
    let mut effects = Vec::new();
    let mut step = DashboardRun::start(DashboardRunRequest { dashboard_id: 9, query_id: Some(8) });
    loop {
        effects.append(&mut step.effects);
        let (state, request) = match step.turn {
            Turn::Done(end) => return (asked, effects, end.err().map(|error| error.into_error())),
            Turn::Ask { state, request } => (state, request),
        };
        let reply = match request {
            DashboardRunQuestion::LoadDashboard { .. } => DashboardRunReply::Load(Ok(Dashboard {
                id: 9,
                connection_id: 5,
                title: "t".into(),
                description: String::new(),
                sql: "SELECT 1".into(),
                visualization: DashboardVisualization {
                    version: 1,
                    kind: "table".into(),
                    x_column: None,
                    y_columns: Vec::new(),
                },
                created_at: 1,
                updated_at: 1,
            })),
            DashboardRunQuestion::PinConnection { .. } => {
                DashboardRunReply::Pin(Ok(pin(Engine::Sqlite)))
            }
            DashboardRunQuestion::Validate { .. } => {
                DashboardRunReply::Validation(validation.take().unwrap())
            }
            DashboardRunQuestion::LoadSafety { .. } => {
                DashboardRunReply::Safety(Ok(SafetySettings::default()))
            }
            DashboardRunQuestion::Connect { .. } => {
                asked.push("connect");
                DashboardRunReply::Connection(Ok(()))
            }
            DashboardRunQuestion::OpenBackend => DashboardRunReply::Backend(Ok(())),
            DashboardRunQuestion::RunReadOnly { query_id, .. } => {
                assert_eq!(query_id, Some(8));
                asked.push("run");
                DashboardRunReply::Execution(execution.take().unwrap())
            }
        };
        step = state.advance(reply);
    }
}

#[test]
fn dashboard_run_revalidates_tampered_sql_before_target_touch() {
    let invalid = InvalidDashboard { error: failure(), kind: Some(QueryKind::Write) };
    let (asked, effects, error) =
        run_dashboard(Err(invalid), Ok(ResultSize { row_count: 1, duration_ms: 1 }));
    assert!(asked.is_empty());
    assert_eq!(error, Some(failure()));
    assert_eq!(audits(&effects).len(), 1);
}

#[test]
fn dashboard_run_execution_error_preserves_original_error_and_ledger() {
    let (asked, effects, error) = run_dashboard(Ok(()), Err(failure()));
    assert_eq!(asked, ["connect", "run"]);
    assert_eq!(error, Some(failure()));
    assert!(effects.iter().any(|effect| matches!(
        effect,
        Effect::History(row) if row.status == "error"
    )));
    let (_, effects, error) =
        run_dashboard(Ok(()), Ok(ResultSize { row_count: 4, duration_ms: 1 }));
    assert_eq!(error, None);
    assert!(effects.iter().any(|effect| matches!(
        effect,
        Effect::History(row) if row.status == "ok" && row.row_count == Some(4)
    )));
}

#[test]
fn document_status_preserves_basic_wire_without_target_probe() {
    let Turn::Ask { state, request } = MonitoringStatusRun::start(5).turn else { panic!() };
    assert!(request == MonitoringStatusRunRequest::PinForView { connection_id: 5 });
    let Turn::Done(Ok(receipt)) =
        state.advance(MonitoringStatusRunReply::Pin(Ok(pin(Engine::Mongodb)))).turn
    else {
        panic!()
    };
    assert_eq!(receipt.held, HeldAuthority::Scope);
    assert!(!receipt.status.role_available && !receipt.status.can_manage);
    assert!(monitoring_role_sql(true).starts_with("GRANT"));
    assert!(monitoring_role_sql(false).starts_with("REVOKE"));
}

#[test]
fn activities_are_recorded_without_an_approver() {
    let effect = record_best_effort(ActivityRecordRequest {
        connection_id: 5,
        engine: Engine::Sqlite,
        subject: "SELECT 1".into(),
        kind: QueryKind::Read,
        action: "read".into(),
        error: Some("late".into()),
    });
    let Effect::Audit(row) = effect else { panic!() };
    assert_eq!((row.sql.as_str(), row.action.render().as_str()), ("SELECT 1", "read"));
    assert_eq!(row.approved_by, None);
    assert_eq!(row.error, Some(Note::Said(Text::Owned("late".into()))));
}

#[test]
fn audit_reads_reject_an_out_of_scope_connection_before_chain_access() {
    let missing = || AppError::NotFound(Text::WithId("connection ", 6, ""));
    let Turn::Ask { state, request } = AuditRead::start(6).turn else { panic!() };
    assert!(request == AuditReadRequest::LoadConnection { connection_id: 6 });
    assert!(matches!(
        state.advance(AuditReadReply::Loaded(Err(missing()))).turn,
        Turn::Done(Err(error)) if error == missing()
    ));
    let Turn::Ask { state, .. } = AuditRead::start(5).turn else { panic!() };
    let Turn::Ask { state, request } = state.advance(AuditReadReply::Loaded(Ok(()))).turn else {
        panic!()
    };
    assert!(request == AuditReadRequest::VerifyChain { connection_id: 5 });
    assert!(matches!(
        state.advance(AuditReadReply::Verified(Ok((false, Some(3))))).turn,
        Turn::Done(Ok(verdict)) if !verdict.ok && verdict.first_bad_index == Some(3)
    ));
}

#[test]
fn a_terminal_loads_the_catalog_of_its_own_connection() {
    let authority = |revision: i64| TerminalAuthority {
        terminal_session_id: 9,
        workspace_id: 1,
        account_scope: "user".into(),
        connection_id: 5,
        connection_revision: revision,
        client_protocol_version: 1,
    };
    let load = |revision: i64| {
        let step = TerminalCatalog::start(authority(revision), CatalogReadPolicy::Refresh);
        let Turn::Ask { state, .. } = step.turn else { panic!() };
        match state.advance(Ok(pin(Engine::Postgres))).turn {
            Turn::Done(end) => end,
            Turn::Ask { .. } => panic!(),
        }
    };
    assert!(
        load(2) == TerminalCatalogEnd::Load { connection_id: 5, mode: CatalogReadMode::Refresh }
    );
    assert!(matches!(load(1), TerminalCatalogEnd::Refuse(AppError::Blocked { .. })));
    assert_eq!(CatalogReadMode::from(CatalogReadPolicy::LiveNoCache), CatalogReadMode::LiveNoCache);
}

#[test]
fn prepared_context_is_allowlisted_and_validation_waits_for_commit() {
    let prepared = || {
        let Ok(prepared) = prepare(Ok(line("ok", "agent", QueryKind::Read))) else { panic!() };
        prepared
    };
    let context = prepared().event_context;
    assert_eq!((context.query_run_id, context.connection_id), (60, 5));
    assert_eq!(context.connection_name, "target");
    assert_eq!(context.title, "Daily");
    assert_eq!(context.sql, "SELECT day, visitors FROM daily");

    let ready = prepared();
    let Turn::Ask { state, request } = DashboardCommit::start(ready.draft, ready.connection).turn
    else {
        panic!()
    };
    assert!(request == DashboardCommitRequest::Validate { engine: Engine::Sqlite });
    let Turn::Ask { state, request } = state.advance(DashboardCommitReply::Validation(Ok(()))).turn
    else {
        panic!()
    };
    assert!(matches!(
        request,
        DashboardCommitRequest::Save { draft, connection }
            if draft.sql == "SELECT day, visitors FROM daily" && connection.connection_id == 5
    ));
    assert!(matches!(
        state.advance(DashboardCommitReply::Saving(Ok(70))).turn,
        Turn::Done(Ok(70))
    ));

    let invalid = prepared();
    let Turn::Ask { state, .. } = DashboardCommit::start(invalid.draft, invalid.connection).turn
    else {
        panic!()
    };
    let refused = AppError::Config(Text::Plain("a dashboard needs a title"));
    assert!(matches!(
        state.advance(DashboardCommitReply::Validation(Err(refused))).turn,
        Turn::Done(Err(AgentDashboardCommitError::InvalidDraft(AppError::Config(_))))
    ));
}

#[test]
fn dashboard_run_preserves_wire_ledger_and_lease_contract() {
    let (asked, effects, error) =
        run_dashboard(Ok(()), Ok(ResultSize { row_count: 2, duration_ms: 1 }));
    assert_eq!(error, None);
    assert_eq!(asked, ["connect", "run"]);
    assert_eq!(audits(&effects), ["dashboard:run"]);
    assert!(effects.iter().any(|effect| matches!(
        effect,
        Effect::Audit(row) if row.affected_estimate == Some(2)
    )));
    assert!(effects.iter().any(|effect| matches!(
        effect,
        Effect::History(row) if row.origin.render() == "dashboard"
            && row.status == "ok"
            && row.kind == QueryKind::Read
            && row.row_count == Some(2)
    )));
}

#[test]
fn typed_audit_receipts_preserve_the_legacy_wire() {
    let Turn::Ask { state, .. } = AuditRead::start(5).turn else { panic!() };
    let Turn::Ask { state, .. } = state.advance(AuditReadReply::Loaded(Ok(()))).turn else {
        panic!()
    };
    assert!(matches!(
        state.advance(AuditReadReply::Verified(Ok((true, None)))).turn,
        Turn::Done(Ok(verdict)) if verdict.ok && verdict.first_bad_index.is_none()
    ));

    let entry = AuditEntry {
        id: 1,
        connection_id: 5,
        ts: 2,
        engine: Engine::Sqlite,
        agent_prompt: None,
        sql: "SELECT 1".into(),
        kind: QueryKind::Read,
        action: "read".into(),
        approved_by: None,
        affected_estimate: None,
        error: None,
        prev_hash: None,
        hash: "hash".into(),
    };
    let Turn::Ask { state, .. } = AuditSnapshot::start(5).turn else { panic!() };
    let Turn::Ask { state, request } = state.advance(AuditSnapshotReply::Loaded(Ok(()))).turn
    else {
        panic!()
    };
    assert!(request == AuditSnapshotRequest::TakeSnapshot { connection_id: 5 });
    let Turn::Done(Ok(snapshot)) =
        state.advance(AuditSnapshotReply::Taken(Ok((vec![entry], true, None)))).turn
    else {
        panic!()
    };
    assert_eq!(snapshot.entries.len(), 1);
    assert_eq!(snapshot.entries[0].action, "read");
    assert!(snapshot.verdict.ok && snapshot.verdict.first_bad_index.is_none());

    let missing = || AppError::NotFound(Text::WithId("connection ", 6, ""));
    let Turn::Ask { state, .. } = AuditSnapshot::start(6).turn else { panic!() };
    assert!(matches!(
        state.advance(AuditSnapshotReply::Loaded(Err(missing()))).turn,
        Turn::Done(Err(error)) if error == missing()
    ));
}
