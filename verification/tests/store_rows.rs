use dopedb::model::{
    AgentProvider, Engine, Provider, QueryKind, SafetySettings, WorkspaceConnectionAccess,
    WorkspaceCredentialMode, WorkspaceKind, WorkspaceLifecycleState, WorkspaceRole,
};
use dopedb::store::codec::{
    engine_str, kind_str, lifecycle_state_str, parse_engine, parse_kind, parse_lifecycle_state,
    parse_provider, parse_uuid, parse_uuid_opt, parse_workspace_access, parse_workspace_kind,
    parse_workspace_role, provider_str, workspace_access_str, workspace_kind_str,
    workspace_role_str,
};
use dopedb::state::McpRuntime;
use dopedb::store::rows::{
    read_connection, row_to_chat_message, row_to_chat_thread, row_to_history, row_to_member,
    row_to_safety, row_to_workspace, safety_to_row, RawConnection, RawHistory, RawMember,
    RawMessage, RawThread, RawWorkspace,
};
use dopedb::store::startup::audit_needs_rebuild;
use dopedb::store::tables::SyncStatus;

const ID: &str = "018f9999-8888-7777-8666-555544443331";

#[test]
fn every_stored_text_is_read_back() {
    for engine in [Engine::Postgres, Engine::Mysql, Engine::Sqlite, Engine::Mongodb] {
        assert_eq!(parse_engine(engine_str(engine).into()), Ok(engine));
    }
    for provider in [Provider::Auto, Provider::Generic, Provider::Neon, Provider::PlanetScale] {
        assert_eq!(parse_provider(provider_str(provider).into()), Ok(provider));
    }
    for access in [
        WorkspaceConnectionAccess::View,
        WorkspaceConnectionAccess::Read,
        WorkspaceConnectionAccess::Write,
        WorkspaceConnectionAccess::Manage,
        WorkspaceConnectionAccess::Local,
    ] {
        assert_eq!(parse_workspace_access(workspace_access_str(access).into()), Ok(access));
    }
    for kind in [WorkspaceKind::Personal, WorkspaceKind::Team] {
        assert_eq!(parse_workspace_kind(workspace_kind_str(kind).into()), Ok(kind));
    }
    for state in [
        WorkspaceLifecycleState::Active,
        WorkspaceLifecycleState::Archived,
        WorkspaceLifecycleState::Deleted,
    ] {
        assert_eq!(parse_lifecycle_state(lifecycle_state_str(state).into()), Ok(state));
    }
    for role in [
        WorkspaceRole::Viewer,
        WorkspaceRole::Analyst,
        WorkspaceRole::Editor,
        WorkspaceRole::Admin,
        WorkspaceRole::Owner,
    ] {
        assert_eq!(parse_workspace_role(workspace_role_str(role).into()), Ok(role));
    }
    for kind in [QueryKind::Read, QueryKind::Write, QueryKind::Ddl, QueryKind::Privilege] {
        assert_eq!(parse_kind(kind_str(kind).into()), Ok(kind));
    }
    assert_eq!(provider_str(Provider::PlanetScale), "planetScale");
}

#[test]
fn texts_that_stand_for_nothing_are_named() {
    let said = |message: Result<(), dopedb::error::AppError>| message.unwrap_err().message();
    assert_eq!(said(parse_engine("Postgres".into()).map(drop)), "unknown engine 'Postgres'");
    assert_eq!(said(parse_provider("".into()).map(drop)), "unknown provider ''");
    assert_eq!(said(parse_workspace_kind("x".into()).map(drop)), "unknown workspace kind 'x'");
    assert_eq!(
        said(parse_lifecycle_state("x".into()).map(drop)),
        "unknown workspace lifecycle state 'x'"
    );
    assert_eq!(said(parse_workspace_role("x".into()).map(drop)), "unknown workspace role 'x'");
    assert_eq!(said(parse_kind("x".into()).map(drop)), "unknown query kind 'x'");
    let bad = said(parse_uuid("nope".into()).map(drop));
    assert!(bad.starts_with("bad uuid 'nope': "), "{bad}");
    assert!(bad.len() > "bad uuid 'nope': ".len());
    assert_eq!(parse_uuid_opt(None), Ok(None));
    assert_eq!(
        parse_uuid(ID.into()).unwrap(),
        uuid::Uuid::parse_str(ID).unwrap().as_u128()
    );
    assert_eq!(parse_uuid(ID.replace('-', "").to_uppercase()), parse_uuid(ID.into()));
}

fn connection() -> RawConnection {
    RawConnection {
        id: ID.into(),
        name: "one".into(),
        engine: "mysql".into(),
        provider: "auto".into(),
        driver_id: None,
        host: "h".into(),
        port: 65_536 + 3306,
        database: "d".into(),
        username: "u".into(),
        sslmode: "disable".into(),
        extra_params: "{}".into(),
        secret_ref: None,
        readonly_default: true,
        allow_writes: false,
        env: None,
        schema_group: None,
        workspace_id: "00000000-0000-0000-0000-000000000001".into(),
        account_user_id: None,
        remote_id: Some(ID.into()),
        revision: 1,
        sync_status: SyncStatus::Local,
        workspace_access: "read".into(),
        credential_mode: WorkspaceCredentialMode::MemberLocal,
        deleted_at: None,
        created_at: 1,
        updated_at: 1,
    }
}

#[test]
fn connections_are_read_column_by_column() {
    let row = read_connection(connection()).unwrap();
    assert_eq!(row.id, uuid::Uuid::parse_str(ID).unwrap().as_u128());
    assert_eq!((row.engine, row.port, row.workspace_id), (Engine::Mysql, 3306, 1));
    assert_eq!(row.remote_id, Some(row.id));
    let said = |change: fn(&mut RawConnection)| {
        let mut row = connection();
        change(&mut row);
        read_connection(row).unwrap_err().message()
    };
    assert!(said(|row| row.id = "x".into()).starts_with("bad uuid 'x'"));
    assert_eq!(said(|row| row.engine = "x".into()), "unknown engine 'x'");
    assert_eq!(said(|row| row.provider = "x".into()), "unknown provider 'x'");
    assert_eq!(
        said(|row| row.workspace_access = "x".into()),
        "unknown workspace connection access 'x'"
    );
    assert!(said(|row| row.workspace_id = "y".into()).starts_with("bad uuid 'y'"));
    assert!(said(|row| row.remote_id = Some("z".into())).starts_with("bad uuid 'z'"));
}

#[test]
fn other_rows_are_read_alike() {
    let workspace = |kind: &str, state: &str| {
        row_to_workspace(RawWorkspace {
            id: ID.into(),
            name: "w".into(),
            kind: kind.into(),
            lifecycle_state: state.into(),
            created_at: 1,
            updated_at: 2,
        })
    };
    assert_eq!(workspace("team", "archived").unwrap().kind, WorkspaceKind::Team);
    assert_eq!(workspace("x", "y").unwrap_err().message(), "unknown workspace kind 'x'");
    assert_eq!(
        workspace("team", "y").unwrap_err().message(),
        "unknown workspace lifecycle state 'y'"
    );
    let member = |workspace_id: &str, role: &str| {
        row_to_member(RawMember {
            id: ID.into(),
            workspace_id: workspace_id.into(),
            user_id: None,
            display_name: "m".into(),
            role: role.into(),
            active: true,
            joined_at: 1,
        })
    };
    assert_eq!(member(ID, "editor").unwrap().role, WorkspaceRole::Editor);
    assert_eq!(member(ID, "x").unwrap_err().message(), "unknown workspace role 'x'");
    assert!(!member("x", "editor").unwrap_err().message().contains("bad uuid"));
    let history = |kind: &str| {
        row_to_history(RawHistory {
            id: ID.into(),
            connection_id: ID.into(),
            sql: "s".into(),
            kind: kind.into(),
            status: "ok".into(),
            row_count: None,
            duration_ms: None,
            error: None,
            executed_at: 1,
            origin: "manual".into(),
        })
    };
    assert_eq!(history("ddl").unwrap().kind, QueryKind::Ddl);
    assert_eq!(history("x").unwrap_err().message(), "unknown query kind 'x'");
    let thread = |provider: Option<AgentProvider>| {
        row_to_chat_thread(
            RawThread {
                id: ID.into(),
                provider: "x".into(),
                connection_id: None,
                title: "t".into(),
                cli_session_id: None,
                model: None,
                effort: None,
                created_at: 1,
                updated_at: 1,
            },
            provider,
        )
    };
    assert_eq!(thread(Some(AgentProvider::Codex)).unwrap().provider, AgentProvider::Codex);
    assert_eq!(thread(None).unwrap_err().message(), "unknown agent provider 'x'");
    let message = row_to_chat_message(RawMessage {
        id: ID.into(),
        thread_id: "x".into(),
        role: "user".into(),
        text: "t".into(),
        error: None,
        created_at: 1,
    });
    assert!(message.unwrap_err().message().starts_with("bad uuid 'x'"));
}

#[test]
fn row_limits_survive_the_signed_column() {
    for max_rows in [0, 1000, u64::MAX, 1 << 63] {
        let settings = SafetySettings { max_rows, ..SafetySettings::default() };
        assert_eq!(row_to_safety(safety_to_row(&settings)), settings);
    }
    let settings = SafetySettings { max_rows: u64::MAX, ..SafetySettings::default() };
    assert_eq!(safety_to_row(&settings).max_rows, -1);
}

#[test]
fn an_audit_table_that_cascades_is_rebuilt() {
    assert!(audit_needs_rebuild(&Some("... REFERENCES c(id) on delete cascade".into())));
    assert!(!audit_needs_rebuild(&Some("CREATE TABLE audit_log (id TEXT)".into())));
    assert!(!audit_needs_rebuild(&None));
}

#[test]
fn nothing_is_up_at_first() {
    let runtime = McpRuntime::default();
    assert!(!runtime.http_running && !runtime.bridge_running && !runtime.http_fallback);
    assert!(runtime.http_port.is_none() && runtime.http_url.is_none());
    assert!(runtime.last_error.is_none());
}
