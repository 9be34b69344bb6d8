use dopedb::error::AppError;
use dopedb::ids::PERSONAL_WORKSPACE_ID;
use dopedb::model::{
    AgentProvider, ConnectionProfile, DashboardDraft, DashboardVisualization, Engine, HistoryEntry,
    Provider, QueryKind, SafetySettings, WorkspaceAuthUser, WorkspaceConnectionAccess,
    WorkspaceCredentialMode, WorkspaceLifecycleState, WorkspaceRole,
};
use dopedb::store::dashboards::row_to_dashboard;
use dopedb::store::tables::{CacheRow, OutboxOperation, Store};
use dopedb::text::Text;

fn sqlite_profile(id: u128, name: &str) -> ConnectionProfile {
    ConnectionProfile {
        id,
        name: name.into(),
        engine: Engine::Sqlite,
        provider: Provider::Generic,
        driver_id: Some("sqlx-sqlite".into()),
        host: String::new(),
        port: 0,
        database: ":memory:".into(),
        username: String::new(),
        sslmode: "disable".into(),
        extra_params: Vec::new(),
        readonly_default: true,
        allow_writes: false,
        secret_ref: None,
        env: None,
        schema_group: None,
        workspace_access: WorkspaceConnectionAccess::Local,
        credential_mode: WorkspaceCredentialMode::Local,
    }
}

fn workspace_user(id: &str, name: &str) -> WorkspaceAuthUser {
    WorkspaceAuthUser {
        id: id.into(),
        email: format!("{}@example.com", name.to_lowercase()),
        display_name: name.into(),
    }
}

fn draft(connection_id: u128, title: &str, kind: &str) -> DashboardDraft {
    DashboardDraft {
        connection_id,
        title: title.into(),
        description: String::new(),
        sql: "SELECT 1".into(),
        visualization: DashboardVisualization {
            version: 1,
            kind: kind.into(),
            x_column: None,
            y_columns: Vec::new(),
        },
    }
}

fn entry(id: u128, connection_id: u128, executed_at: i128) -> HistoryEntry {
    HistoryEntry {
        id,
        connection_id,
        sql: "SELECT 1".into(),
        kind: QueryKind::Read,
        status: "ok".into(),
        row_count: Some(1),
        duration_ms: Some(1),
        error: None,
        executed_at,
        origin: "manual".into(),
    }
}

const ALPHA: &str = "10000000-0000-0000-0000-000000000001";
const BETA: &str = "20000000-0000-0000-0000-000000000002";

#[test]
fn remembered_account_can_activate_personal_scope_before_membership_sync() {
    let mut store = Store::fresh(1);
    let user = workspace_user(ALPHA, "Offline");

    store.remember_workspace_account(&user, 2);
    let active = store.activate_workspace_account(user.id.clone(), 3).unwrap();

    assert_eq!(active.id, PERSONAL_WORKSPACE_ID);
    assert_eq!(store.workspace_accounts()[0].user.id, user.id);
    assert_eq!(store.active_workspace_account_id(), Some(user.id));
}

#[test]
fn active_workspace_scopes_connections_and_tombstones_mutations() {
    let mut store = Store::fresh(1);
    let personal_connection = sqlite_profile(100, "personal");
    store.upsert_connection(&personal_connection, 900, 2).unwrap();
    let personal_dashboard = store
        .save_dashboard(
            draft(personal_connection.id, "personal dashboard", "table"),
            "{}".into(),
            200,
            901,
            3,
        )
        .unwrap();

    let team_id = 300;
    let user = workspace_user(ALPHA, "Owner");
    store
        .sync_account_workspaces(
            &user,
            &vec![(team_id, "Team".into(), WorkspaceRole::Owner)],
            &vec![400],
            4,
        )
        .unwrap();
    store.activate_workspace(team_id, Some(user.id.clone()), 5).unwrap();
    assert!(store.list_connections().unwrap().is_empty());
    assert!(matches!(
        store.get_connection(personal_connection.id),
        Err(AppError::NotFound(_))
    ));
    assert!(matches!(
        store.get_dashboard(personal_dashboard.id),
        Err(AppError::NotFound(_))
    ));

    let team_connection = sqlite_profile(101, "team");
    store.upsert_connection(&team_connection, 902, 6).unwrap();
    assert_eq!(store.list_connections().unwrap()[0].id, team_connection.id);
    store.delete_connection(team_connection.id, 903, 7).unwrap();
    assert!(store.list_connections().unwrap().is_empty());
    let row = store.connections.iter().find(|row| row.id == team_connection.id).unwrap();
    assert_eq!(row.deleted_at, Some(7));
    let change = store.outbox.last().unwrap();
    assert_eq!(change.resource_id, team_connection.id);
    assert_eq!(change.operation, OutboxOperation::Delete);
    assert_eq!(change.revision, 2);

    store
        .activate_workspace(PERSONAL_WORKSPACE_ID, Some(user.id.clone()), 8)
        .unwrap();
    assert_eq!(store.list_connections().unwrap()[0].id, personal_connection.id);
}

#[test]
fn account_membership_sync_preserves_other_accounts_and_restores_scope() {
    let mut store = Store::fresh(1);
    let alpha = 301;
    let beta = 302;
    let user_a = workspace_user(ALPHA, "Alpha");
    let user_b = workspace_user(BETA, "Beta");

    store
        .sync_account_workspaces(
            &user_a,
            &vec![
                (alpha, "Alpha".into(), WorkspaceRole::Owner),
                (beta, "Beta".into(), WorkspaceRole::Editor),
            ],
            &vec![401, 402],
            2,
        )
        .unwrap();
    store
        .sync_account_workspaces(
            &user_b,
            &vec![(alpha, "Alpha shared".into(), WorkspaceRole::Viewer)],
            &vec![403],
            3,
        )
        .unwrap();
    let listed = store.list_workspaces();
    assert_eq!(listed.len(), 3);
    assert!(listed.iter().any(|workspace| workspace.id == alpha));
    assert!(listed.iter().any(|workspace| workspace.id == beta));

    store.activate_workspace(alpha, Some(user_a.id.clone()), 4).unwrap();
    store
        .sync_account_workspaces(
            &user_a,
            &vec![(beta, "Beta renamed".into(), WorkspaceRole::Admin)],
            &vec![404],
            5,
        )
        .unwrap();
    let listed = store.list_workspaces();
    assert_eq!(listed.len(), 3);
    assert!(listed.iter().any(|workspace| workspace.id == alpha));
    assert_eq!(
        listed
            .iter()
            .find(|workspace| workspace.id == beta)
            .unwrap()
            .name,
        "Beta renamed"
    );
    assert_eq!(store.active_workspace().unwrap().id, beta);
    let accounts = store.workspace_accounts();
    assert_eq!(accounts.len(), 2);
    assert_eq!(accounts[0].user.id, user_a.id);
    assert_eq!(accounts[0].memberships[0].role, WorkspaceRole::Admin);

    store.sync_account_workspaces(&user_b, &vec![], &vec![], 6).unwrap();
    let row = store.workspaces.iter().find(|row| row.id == alpha).unwrap();
    assert_eq!(row.lifecycle_state, WorkspaceLifecycleState::Archived);
}

#[test]
fn remote_template_sync_preserves_member_local_credential_binding() {
    let mut store = Store::fresh(1);
    let workspace_id = 300;
    let user = workspace_user(ALPHA, "Owner");
    store
        .sync_account_workspaces(
            &user,
            &vec![(workspace_id, "Team".into(), WorkspaceRole::Owner)],
            &vec![400],
            2,
        )
        .unwrap();

    let id = 100;
    let mut local_binding = sqlite_profile(id, "shared");
    local_binding.workspace_access = WorkspaceConnectionAccess::Write;
    store
        .sync_remote_connections(workspace_id, &user.id, &vec![(local_binding, 1)], 3)
        .unwrap();
    let binding_ref = uuid::Uuid::from_u128(id).to_string();
    store
        .bind_connection_credentials(
            id,
            &user.id,
            "member-account",
            vec![("member-local-option".into(), "on".into())],
            Some(binding_ref.clone()),
            4,
        )
        .unwrap();

    let mut remote_update = sqlite_profile(id, "renamed");
    remote_update.allow_writes = false;
    remote_update.workspace_access = WorkspaceConnectionAccess::Read;
    store
        .sync_remote_connections(workspace_id, &user.id, &vec![(remote_update, 2)], 5)
        .unwrap();
    store.activate_workspace(workspace_id, Some(user.id.clone()), 6).unwrap();

    let loaded = store.get_connection(id).unwrap();
    assert_eq!(loaded.name, "renamed");
    assert_eq!(loaded.username, "member-account");
    assert_eq!(
        loaded.extra_params,
        vec![("member-local-option".to_string(), "on".to_string())]
    );
    assert_eq!(loaded.secret_ref.as_deref(), Some(binding_ref.as_str()));
    assert_eq!(loaded.workspace_access, WorkspaceConnectionAccess::Read);
    assert!(!loaded.allow_writes);
}

#[test]
fn shared_connection_bindings_are_isolated_per_signed_in_account() {
    let mut store = Store::fresh(1);
    let workspace_id = 300;
    let connection_id = 100;
    let user_a = workspace_user(ALPHA, "Alpha");
    let user_b = workspace_user(BETA, "Beta");
    for (member, user) in [(401, &user_a), (402, &user_b)] {
        store
            .sync_account_workspaces(
                user,
                &vec![(workspace_id, "Shared".into(), WorkspaceRole::Analyst)],
                &vec![member],
                2,
            )
            .unwrap();
    }
    let mut template = sqlite_profile(connection_id, "shared");
    template.workspace_access = WorkspaceConnectionAccess::Write;
    template.allow_writes = true;
    let mut read_only_template = template.duplicate();
    read_only_template.workspace_access = WorkspaceConnectionAccess::Read;
    read_only_template.allow_writes = false;
    store
        .sync_remote_connections(workspace_id, &user_a.id, &vec![(template, 1)], 3)
        .unwrap();
    store
        .sync_remote_connections(workspace_id, &user_b.id, &vec![(read_only_template, 1)], 4)
        .unwrap();
    let (ref_a, ref_b) = ("ref-a".to_string(), "ref-b".to_string());
    store
        .bind_connection_credentials(
            connection_id,
            &user_a.id,
            "alpha-db-user",
            Vec::new(),
            Some(ref_a.clone()),
            5,
        )
        .unwrap();
    store
        .bind_connection_credentials(
            connection_id,
            &user_b.id,
            " beta-db-user ",
            Vec::new(),
            Some(ref_b.clone()),
            6,
        )
        .unwrap();

    store.activate_workspace(workspace_id, Some(user_a.id.clone()), 7).unwrap();
    let profile_a = store.get_connection(connection_id).unwrap();
    assert_eq!(profile_a.username, "alpha-db-user");
    assert_eq!(profile_a.secret_ref, Some(ref_a));
    assert_eq!(profile_a.workspace_access, WorkspaceConnectionAccess::Write);
    assert!(profile_a.allow_writes);
    store
        .set_schema_cache(connection_id, r#"{"owner":"alpha"}"#.into(), 8)
        .unwrap();
    store.insert_history(entry(500, connection_id, 9)).unwrap();
    let thread_a = store
        .create_chat_thread(AgentProvider::Codex, connection_id, None, None, 600, 10)
        .unwrap();

    store.activate_workspace(workspace_id, Some(user_b.id.clone()), 11).unwrap();
    let profile_b = store.get_connection(connection_id).unwrap();
    assert_eq!(profile_b.username, "beta-db-user");
    assert_eq!(profile_b.secret_ref, Some(ref_b));
    assert_eq!(profile_b.workspace_access, WorkspaceConnectionAccess::Read);
    assert!(!profile_b.allow_writes);
    assert!(store.get_schema_cache(connection_id).unwrap().is_none());
    assert!(store.list_history(connection_id).unwrap().is_empty());
    assert!(store.list_chat_threads().unwrap().is_empty());
    assert!(matches!(
        store.get_chat_thread(thread_a.id),
        Err(AppError::NotFound(_))
    ));
    store
        .set_schema_cache(connection_id, r#"{"owner":"beta"}"#.into(), 12)
        .unwrap();

    store.activate_workspace(workspace_id, Some(user_a.id.clone()), 13).unwrap();
    assert_eq!(
        store.get_schema_cache(connection_id).unwrap().as_deref(),
        Some(r#"{"owner":"alpha"}"#)
    );
    assert_eq!(store.list_history(connection_id).unwrap().len(), 1);
    assert_eq!(store.list_chat_threads().unwrap().len(), 1);
}

#[test]
fn team_local_connections_are_visible_only_to_their_owning_account() {
    let mut store = Store::fresh(1);
    let workspace_id = 300;
    let connection_id = 100;
    let user_a = workspace_user(ALPHA, "Alpha");
    let user_b = workspace_user(BETA, "Beta");
    for (member, user) in [(401, &user_a), (402, &user_b)] {
        store
            .sync_account_workspaces(
                user,
                &vec![(workspace_id, "Shared".into(), WorkspaceRole::Editor)],
                &vec![member],
                2,
            )
            .unwrap();
    }

    store.activate_workspace(workspace_id, Some(user_a.id.clone()), 3).unwrap();
    store
        .upsert_connection(&sqlite_profile(connection_id, "alpha-local"), 900, 4)
        .unwrap();
    assert_eq!(store.list_connections().unwrap().len(), 1);

    store.activate_workspace(workspace_id, Some(user_b.id.clone()), 5).unwrap();
    assert!(store.list_connections().unwrap().is_empty());
    assert!(matches!(
        store.get_connection(connection_id),
        Err(AppError::NotFound(_))
    ));
    assert!(matches!(
        store.upsert_connection(&sqlite_profile(connection_id, "taken"), 901, 6),
        Err(AppError::NotFound(_))
    ));

    store.activate_workspace(workspace_id, Some(user_a.id.clone()), 7).unwrap();
    assert_eq!(store.get_connection(connection_id).unwrap().name, "alpha-local");
}

#[test]
fn schema_group_batch_rolls_back_when_any_connection_is_missing() {
    let mut store = Store::fresh(1);
    let connection_id = 100;
    let mut profile = sqlite_profile(connection_id, "dev");
    profile.env = Some("dev".into());
    store.upsert_connection(&profile, 900, 2).unwrap();

    let error = store
        .set_connections_schema_group(
            &vec![connection_id, 101],
            Some("core".into()),
            &vec![901, 902],
            3,
        )
        .unwrap_err();
    assert!(matches!(error, AppError::NotFound(_)));
    assert_eq!(store.get_connection(connection_id).unwrap().schema_group, None);
    assert_eq!(store.outbox.len(), 1);

    store
        .set_connections_schema_group(&vec![connection_id], Some("core".into()), &vec![903], 4)
        .unwrap();
    let grouped = store.get_connection(connection_id).unwrap();
    assert_eq!(grouped.schema_group.as_deref(), Some("core"));
    assert_eq!(store.outbox.last().unwrap().revision, 2);
    let grouped = store
        .set_connection_schema_group(connection_id, None, 904, 5)
        .unwrap();
    assert_eq!(grouped.schema_group, None);
    assert_eq!(store.outbox.last().unwrap().revision, 3);
}

#[test]
fn dashboard_round_trip_delete_and_connection_cascade() {
    let mut store = Store::fresh(1);
    let connection_id = 100;
    store
        .upsert_connection(&sqlite_profile(connection_id, "analytics"), 900, 2)
        .unwrap();

    let loaded = store.get_connection(connection_id).unwrap();
    assert_eq!(loaded.provider, Provider::Generic);
    assert_eq!(loaded.driver_id.as_deref(), Some("sqlx-sqlite"));

    let json = r#"{"version":1,"kind":"line","xColumn":"day","yColumns":["visitors"]}"#;
    let saved = store
        .save_dashboard(draft(connection_id, "Daily visitors", "line"), json.into(), 200, 901, 3)
        .unwrap();
    let listed = store.list_dashboards(connection_id).unwrap();
    assert_eq!(listed.len(), 1);
    assert_eq!(listed[0].id, saved.id);
    assert_eq!(listed[0].visualization_json, json);
    let found = store.get_dashboard(saved.id).unwrap();
    assert_eq!(found.id, saved.id);
    let visualization = draft(connection_id, "", "line").visualization;
    let dashboard = row_to_dashboard(&found, Ok(visualization)).unwrap();
    assert_eq!(dashboard, saved);
    assert!(row_to_dashboard(
        &found,
        Err(AppError::Config(Text::Plain("unsupported version")))
    )
    .is_err());

    let history = entry(500, connection_id, 4);
    store.insert_history(history.duplicate()).unwrap();
    assert_eq!(store.get_history(history.id).unwrap().id, history.id);

    store.delete_dashboard(saved.id, 902, 5).unwrap();
    assert!(store.list_dashboards(connection_id).unwrap().is_empty());
    assert!(matches!(store.delete_dashboard(saved.id, 903, 6), Err(AppError::NotFound(_))));

    store
        .save_dashboard(draft(connection_id, "again", "line"), json.into(), 201, 904, 7)
        .unwrap();
    store.delete_connection(connection_id, 905, 8).unwrap();
    assert!(store.list_dashboards(connection_id).unwrap().is_empty());
    assert!(matches!(store.get_history(history.id), Err(AppError::NotFound(_))));
}

#[test]
fn chat_thread_and_messages_round_trip_delete_cascades() {
    let mut store = Store::fresh(1);
    let connection_id = 100;
    store
        .upsert_connection(&sqlite_profile(connection_id, "chat-context"), 900, 2)
        .unwrap();

    let thread = store
        .create_chat_thread(AgentProvider::Codex, connection_id, None, None, 600, 3)
        .unwrap();
    assert_eq!(thread.title, "");
    assert!(thread.cli_session_id.is_none());

    store
        .insert_chat_message(thread.id, "user".into(), "hello there".into(), None, 700, 4)
        .unwrap();
    store
        .insert_chat_message(thread.id, "assistant".into(), "hi!".into(), None, 701, 5)
        .unwrap();

    store
        .finish_chat_turn(
            thread.id,
            Some("thr-123".into()),
            Some("gpt-5.6-sol".into()),
            Some("high".into()),
            "hello there".into(),
            6,
        )
        .unwrap();

    let reloaded = store.get_chat_thread(thread.id).unwrap();
    assert_eq!(reloaded.title, "hello there");
    assert_eq!(reloaded.cli_session_id.as_deref(), Some("thr-123"));
    assert_eq!(reloaded.model.as_deref(), Some("gpt-5.6-sol"));
    assert_eq!(reloaded.effort.as_deref(), Some("high"));

    store
        .finish_chat_turn(
            thread.id,
            Some("thr-124".into()),
            None,
            None,
            "ignored title".into(),
            7,
        )
        .unwrap();
    assert_eq!(store.get_chat_thread(thread.id).unwrap().title, "hello there");

    let messages = store.list_chat_messages(thread.id).unwrap();
    assert_eq!(messages.len(), 2);
    assert_eq!(messages[0].role, "user");
    assert_eq!(messages[1].role, "assistant");

    let listed = store.list_chat_threads().unwrap();
    assert_eq!(listed.len(), 1);
    assert_eq!(listed[0].id, thread.id);

    store.delete_chat_thread(thread.id).unwrap();
    assert!(store.list_chat_messages(thread.id).unwrap().is_empty());
    assert!(store.messages.is_empty());
    assert!(matches!(
        store.get_chat_thread(thread.id),
        Err(AppError::NotFound(_))
    ));
    assert!(matches!(
        store.delete_chat_thread(thread.id),
        Err(AppError::NotFound(_))
    ));
}

#[test]
fn creating_a_thread_with_missing_connection_preserves_scope_failure() {
    let mut store = Store::fresh(1);
    let missing = 5;
    let error = store
        .create_chat_thread(AgentProvider::Codex, missing, None, None, 600, 2)
        .unwrap_err();
    assert_eq!(error, AppError::NotFound(Text::WithId("connection ", missing, "")));
    assert_eq!(error.message(), "connection 00000000-0000-0000-0000-000000000005");
}

#[test]
fn connections_are_listed_by_name_and_saved_with_their_parameters() {
    let mut store = Store::fresh(1);
    for (id, name) in [(3, "zeta"), (1, "alpha"), (2, "Beta")] {
        let mut profile = sqlite_profile(id, name);
        profile.extra_params = vec![
            ("a".into(), "1".into()),
            ("quote\"d".into(), "ü\n".into()),
        ];
        store.upsert_connection(&profile, 900, 2).unwrap();
    }
    let names: Vec<String> =
        store.list_connections().unwrap().into_iter().map(|profile| profile.name).collect();
    assert_eq!(names, ["Beta", "alpha", "zeta"]);
    let mut expected = sqlite_profile(1, "alpha");
    expected.extra_params = vec![("a".into(), "1".into()), ("quote\"d".into(), "ü\n".into())];
    assert_eq!(store.get_connection(1).unwrap(), expected);
    assert_eq!(store.connections[1].extra_params.render(), r#"{"a":"1","quote\"d":"ü\n"}"#);
    assert_eq!(store.connections[1].revision, 1);
    store.upsert_connection(&expected, 901, 3).unwrap();
    assert_eq!(store.connections[1].revision, 2);
    assert_eq!((store.connections[1].created_at, store.connections[1].updated_at), (2, 3));
}

#[test]
fn unreadable_parameters_count_as_none() {
    let mut store = Store::fresh(1);
    store.upsert_connection(&sqlite_profile(1, "one"), 900, 2).unwrap();
    assert_eq!(store.connections[0].extra_params.render(), "{}");
    store.connections[0].extra_params = Text::Plain("[1, 2]");
    assert!(store.get_connection(1).unwrap().extra_params.is_empty());
    store.connections[0].extra_params = Text::Plain(r#" {"b":"2","a":"1"} "#);
    assert_eq!(store.get_connection(1).unwrap().extra_params, vec![
        ("a".to_string(), "1".to_string()),
        ("b".to_string(), "2".to_string())
    ]);
}

#[test]
fn only_local_connections_are_saved() {
    let mut store = Store::fresh(1);
    let mut shared = sqlite_profile(1, "shared");
    shared.workspace_access = WorkspaceConnectionAccess::Read;
    assert!(matches!(
        store.upsert_connection(&shared, 900, 2),
        Err(error) if error.message()
            == "shared connection templates cannot be edited as local connections"
    ));
    let mut bound = sqlite_profile(1, "bound");
    bound.credential_mode = WorkspaceCredentialMode::MemberLocal;
    assert!(matches!(
        store.upsert_connection(&bound, 900, 2),
        Err(error) if error.message() == "local connections must use local credential mode"
    ));
    assert!(store.connections.is_empty() && store.outbox.is_empty());
}

#[test]
fn safety_settings_are_kept_per_connection() {
    let mut store = Store::fresh(1);
    store.upsert_connection(&sqlite_profile(1, "one"), 900, 2).unwrap();
    store.upsert_connection(&sqlite_profile(2, "two"), 901, 2).unwrap();
    assert_eq!(store.get_safety(1).unwrap(), SafetySettings::default());
    let settings = SafetySettings { allow_writes: true, max_rows: 7, ..SafetySettings::default() };
    store.set_safety(1, &settings).unwrap();
    assert_eq!(store.get_safety(1).unwrap(), settings);
    assert_eq!(store.get_safety(2).unwrap(), SafetySettings::default());
    assert!(matches!(store.get_safety(3), Err(AppError::NotFound(_))));
}

#[test]
fn history_is_listed_latest_first() {
    let mut store = Store::fresh(1);
    store.upsert_connection(&sqlite_profile(1, "one"), 900, 2).unwrap();
    for (id, at) in [(10, 5), (11, 9), (12, 7)] {
        store.insert_history(entry(id, 1, at)).unwrap();
    }
    let ids: Vec<u128> = store.list_history(1).unwrap().into_iter().map(|line| line.id).collect();
    assert_eq!(ids, [11, 12, 10]);
    assert!(matches!(
        store.get_history(13),
        Err(error) if error.message()
            == "query history 00000000-0000-0000-0000-00000000000d"
    ));
}

#[test]
fn a_cached_catalog_is_dropped_on_request() {
    let mut store = Store::fresh(1);
    store.upsert_connection(&sqlite_profile(1, "one"), 900, 2).unwrap();
    store.set_schema_cache(1, "first".into(), 3).unwrap();
    store.set_schema_cache(1, "second".into(), 4).unwrap();
    assert_eq!(store.schema_cache.len(), 1);
    assert_eq!(store.get_schema_cache(1).unwrap().as_deref(), Some("second"));
    store.clear_schema_cache(1).unwrap();
    assert_eq!(store.get_schema_cache(1).unwrap(), None);
}

#[test]
fn teams_are_chosen_by_their_members_only() {
    let mut store = Store::fresh(1);
    let user = workspace_user(ALPHA, "Alpha");
    let stranger = workspace_user(BETA, "Beta");
    store.remember_workspace_account(&stranger, 2);
    store
        .sync_account_workspaces(
            &user,
            &vec![(300, "Team".into(), WorkspaceRole::Owner)],
            &vec![400],
            3,
        )
        .unwrap();
    let said = |result: Result<_, AppError>| match result {
        Ok(_) => String::new(),
        Err(error) => error.message(),
    };
    assert_eq!(
        said(store.activate_workspace(301, Some(user.id.clone()), 4).map(drop)),
        "workspace 00000000-0000-0000-0000-00000000012d"
    );
    assert_eq!(
        said(store.activate_workspace(300, None, 4).map(drop)),
        "a team workspace must be selected with an authenticated account"
    );
    assert_eq!(
        said(store.activate_workspace(300, Some("nobody".into()), 4).map(drop)),
        "workspace account nobody"
    );
    assert_eq!(
        said(store.activate_workspace(300, Some(stranger.id.clone()), 4).map(drop)),
        format!("workspace 00000000-0000-0000-0000-00000000012c for account {BETA}")
    );
    assert_eq!(said(store.activate_workspace(300, Some(user.id.clone()), 4).map(drop)), "");
    assert_eq!(store.active_local_scope().unwrap().render(), ALPHA);
}

#[test]
fn a_reported_team_never_takes_the_place_of_the_personal_workspace() {
    let mut store = Store::fresh(1);
    let user = workspace_user(ALPHA, "Alpha");
    assert!(matches!(
        store.sync_account_workspaces(
            &user,
            &vec![(PERSONAL_WORKSPACE_ID, "Mine".into(), WorkspaceRole::Owner)],
            &vec![400],
            2
        ),
        Err(error) if error.message() == "remote workspace conflicts with the Personal Workspace"
    ));
    assert!(store.accounts.is_empty());
}

#[test]
fn removing_the_active_account_falls_back_to_the_one_used_last() {
    let mut store = Store::fresh(1);
    let user_a = workspace_user(ALPHA, "Alpha");
    let user_b = workspace_user(BETA, "Beta");
    for (member, user, team) in [(401, &user_a, 300), (402, &user_b, 301)] {
        store
            .sync_account_workspaces(
                user,
                &vec![(team, format!("Team {team}"), WorkspaceRole::Owner)],
                &vec![member],
                2,
            )
            .unwrap();
    }
    store.activate_workspace(301, Some(user_b.id.clone()), 3).unwrap();
    store.activate_workspace(300, Some(user_a.id.clone()), 4).unwrap();
    store.remove_workspace_account(&user_a.id, 5);
    assert_eq!(store.active_workspace_account_id(), Some(user_b.id.clone()));
    assert_eq!(store.active_workspace().unwrap().id, 301);
    assert_eq!(store.list_workspaces().len(), 2);
    store.remove_workspace_account(&user_b.id, 6);
    assert_eq!(store.active_workspace_account_id(), None);
    assert_eq!(store.active_workspace().unwrap().id, PERSONAL_WORKSPACE_ID);
    assert!(store.workspace_accounts().is_empty());
}

#[test]
fn what_nobody_owned_in_a_team_goes_to_the_first_account_that_is_confirmed() {
    let mut store = Store::fresh(1);
    let user = workspace_user(ALPHA, "Alpha");
    store.upsert_connection(&sqlite_profile(1, "legacy"), 900, 2).unwrap();
    store.set_schema_cache(1, "{}".into(), 2).unwrap();
    store.insert_history(entry(10, 1, 2)).unwrap();
    store.create_chat_thread(AgentProvider::Codex, 1, None, None, 600, 2).unwrap();
    let mut shared = store.connections[0].duplicate();
    store.connections[0].workspace_id = 300;
    shared.id = 2;
    shared.workspace_id = 300;
    shared.remote_id = Some(2);
    shared.workspace_access = WorkspaceConnectionAccess::Read;
    shared.username = Text::Plain("member");
    store.connections.push(shared);

    store
        .sync_account_workspaces(
            &user,
            &vec![(300, "Team".into(), WorkspaceRole::Owner)],
            &vec![400],
            3,
        )
        .unwrap();
    assert_eq!(store.connections[0].account_user_id.as_deref(), Some(ALPHA));
    assert_eq!(store.connections[1].username, Text::Plain(""));
    assert_eq!(store.bindings.len(), 1);
    assert_eq!(store.bindings[0].username, Text::Plain("member"));
    assert_eq!(store.bindings[0].workspace_access, WorkspaceConnectionAccess::View);
    assert_eq!(store.history[0].account_scope.render(), ALPHA);
    assert_eq!(store.schema_cache[0].account_scope.render(), ALPHA);
    assert_eq!(store.threads[0].account_scope.render(), ALPHA);
    assert_eq!(store.threads[0].workspace_id, 300);

    store.schema_cache.push(CacheRow {
        connection_id: 1,
        account_scope: Text::Plain("personal"),
        introspected_at: 4,
        catalog_json: "{}".into(),
    });
    let error = store
        .sync_account_workspaces(&user, &vec![(300, "New".into(), WorkspaceRole::Owner)], &vec![401], 5)
        .unwrap_err();
    assert_eq!(
        error.message(),
        "UNIQUE constraint failed: schema_cache.connection_id, schema_cache.account_scope"
    );
    assert_eq!(store.workspaces[1].name, "Team");
}

#[test]
fn templates_that_are_no_longer_reported_are_deleted() {
    let mut store = Store::fresh(1);
    let user = workspace_user(ALPHA, "Alpha");
    store
        .sync_account_workspaces(
            &user,
            &vec![(300, "Team".into(), WorkspaceRole::Owner)],
            &vec![400],
            2,
        )
        .unwrap();
    let template = |id: u128| {
        let mut profile = sqlite_profile(id, "shared");
        profile.workspace_access = WorkspaceConnectionAccess::Write;
        profile.credential_mode = WorkspaceCredentialMode::MemberLocal;
        profile
    };
    store
        .sync_remote_connections(300, &user.id, &vec![(template(1), 1), (template(2), 1)], 3)
        .unwrap();
    store.activate_workspace(300, Some(user.id.clone()), 4).unwrap();
    assert_eq!(store.list_connections().unwrap().len(), 2);
    store.sync_remote_connections(300, &user.id, &vec![(template(2), 2)], 5).unwrap();
    assert_eq!(store.list_connections().unwrap().len(), 1);
    assert!(matches!(
        store.sync_remote_connections(301, &user.id, &vec![], 6),
        Err(AppError::NotFound(_))
    ));

    store.purge_remote_connection_cache(300, 2);
    assert!(store.list_connections().unwrap().is_empty());
    assert!(store.bindings.iter().all(|binding| binding.connection_id != 2));
    assert!(store.safety.iter().all(|row| row.connection_id != 2));

    store.activate_workspace(PERSONAL_WORKSPACE_ID, Some(user.id.clone()), 7).unwrap();
    store.upsert_connection(&sqlite_profile(9, "mine"), 900, 8).unwrap();
    assert!(matches!(
        store.sync_remote_connections(300, &user.id, &vec![(template(9), 1)], 9),
        Err(error) if error.message()
            == "remote connection 00000000-0000-0000-0000-000000000009 conflicts with another workspace"
    ));
}

#[test]
fn binding_takes_a_shared_connection_that_may_be_read() {
    let mut store = Store::fresh(1);
    let user = workspace_user(ALPHA, "Alpha");
    store
        .sync_account_workspaces(
            &user,
            &vec![(300, "Team".into(), WorkspaceRole::Owner)],
            &vec![400],
            2,
        )
        .unwrap();
    let mut template = sqlite_profile(1, "shared");
    template.workspace_access = WorkspaceConnectionAccess::View;
    store.sync_remote_connections(300, &user.id, &vec![(template, 1)], 3).unwrap();
    let mut bind = |id: u128, account: &str| {
        match store.bind_connection_credentials(id, &account.to_string(), "me", vec![], None, 4) {
            Ok(_) => String::new(),
            Err(error) => error.message(),
        }
    };
    assert_eq!(bind(1, ALPHA), "workspace role cannot execute this connection");
    assert_eq!(bind(1, BETA), "shared connection 00000000-0000-0000-0000-000000000001");
    assert_eq!(bind(2, ALPHA), "shared connection 00000000-0000-0000-0000-000000000002");
}

#[test]
fn an_active_workspace_that_is_not_there_gives_way_to_the_personal_one() {
    let mut store = Store::fresh(1);
    store.active_workspace = 999;
    assert!(matches!(
        store.active_workspace(),
        Err(error) if error.message() == "no active workspace is configured"
    ));
    store.migrate_workspace_foundation();
    assert_eq!(store.active_workspace().unwrap().name, "Personal Workspace");
}

#[test]
fn chat_metadata_round_trips_through_the_transport_neutral_service() {
    let mut store = Store::fresh(1);
    store.upsert_connection(&sqlite_profile(100, "agent-test"), 900, 2).unwrap();
    let thread = store
        .create_chat_thread(
            AgentProvider::Codex,
            100,
            Some("gpt-test".into()),
            Some("high".into()),
            600,
            3,
        )
        .unwrap();
    store
        .insert_chat_message(thread.id, "user".into(), "show users".into(), None, 700, 4)
        .unwrap();
    let threads = store.list_chat_threads().unwrap();
    assert_eq!(threads.len(), 1);
    assert_eq!(threads[0].id, thread.id);
    assert_eq!(threads[0].connection_id, Some(100));
    assert_eq!(threads[0].model.as_deref(), Some("gpt-test"));
    let messages = store.list_chat_messages(thread.id).unwrap();
    assert_eq!(messages.len(), 1);
    assert_eq!(messages[0].role, "user");
    assert_eq!(messages[0].text, "show users");
    store.delete_chat_thread(thread.id).unwrap();
    assert!(store.list_chat_threads().unwrap().is_empty());
    assert!(store.list_chat_messages(thread.id).unwrap().is_empty());
}

#[test]
fn a_dashboard_needs_a_live_connection() {
    let mut store = Store::fresh(1);
    store.upsert_connection(&sqlite_profile(100, "charts"), 900, 2).unwrap();
    let saved = store.save_dashboard(draft(100, "kept", "line"), "{}".into(), 200, 901, 3).unwrap();
    assert_eq!(store.get_dashboard(saved.id).unwrap().title, "kept");
    let listed = store.list_dashboards(100).unwrap();
    assert_eq!(listed.iter().map(|row| row.id).collect::<Vec<_>>(), [saved.id]);

    store.delete_connection(100, 902, 4).unwrap();
    let (dashboards, queued) = (store.dashboards.len(), store.outbox.len());
    for missing in [100, 101] {
        assert_eq!(
            store.save_dashboard(draft(missing, "lost", "line"), "{}".into(), 201, 903, 5),
            Err(AppError::NotFound(Text::WithId("connection ", missing, "")))
        );
    }
    assert_eq!((store.dashboards.len(), store.outbox.len()), (dashboards, queued));
    assert!(matches!(store.get_dashboard(201), Err(AppError::NotFound(_))));
}

#[test]
fn an_account_has_the_role_that_was_reported_last() {
    let mut store = Store::fresh(1);
    let user = workspace_user(ALPHA, "Owner");
    store
        .sync_account_workspaces(
            &user,
            &vec![
                (300, "Team".into(), WorkspaceRole::Owner),
                (301, "Other".into(), WorkspaceRole::Editor),
                (300, "Team".into(), WorkspaceRole::Viewer),
            ],
            &vec![400, 401, 402],
            2,
        )
        .unwrap();
    let accounts = store.workspace_accounts();
    let roles: Vec<(u128, WorkspaceRole)> = accounts[0]
        .memberships
        .iter()
        .map(|membership| (membership.workspace_id, membership.role))
        .collect();
    assert!(roles.contains(&(300, WorkspaceRole::Viewer)));
    assert!(roles.contains(&(301, WorkspaceRole::Editor)));
    assert_eq!(roles.len(), 2);
}

#[test]
fn an_id_stands_for_one_row() {
    let unique = |column: &'static str| Err::<(), AppError>(AppError::Host(Text::Plain(column)));
    let line = || HistoryEntry {
        id: 800,
        connection_id: 100,
        sql: "SELECT 1".into(),
        kind: QueryKind::Read,
        status: "ok".into(),
        row_count: None,
        duration_ms: None,
        error: None,
        executed_at: 3,
        origin: "manual".into(),
    };
    let mut store = Store::fresh(1);
    store.upsert_connection(&sqlite_profile(100, "keys"), 900, 2).unwrap();
    store.insert_history(line()).unwrap();
    assert_eq!(
        store.insert_history(line()),
        unique("UNIQUE constraint failed: query_history.id")
    );
    assert_eq!(store.list_history(100).unwrap().len(), 1);

    store.save_dashboard(draft(100, "one", "line"), "{}".into(), 200, 901, 3).unwrap();
    assert_eq!(
        store.save_dashboard(draft(100, "two", "line"), "{}".into(), 200, 902, 4).map(|_| ()),
        unique("UNIQUE constraint failed: dashboards.id")
    );
    assert_eq!(store.list_dashboards(100).unwrap().len(), 1);

    store.create_chat_thread(AgentProvider::Codex, 100, None, None, 600, 3).unwrap();
    assert_eq!(
        store.create_chat_thread(AgentProvider::Codex, 100, None, None, 600, 4).map(|_| ()),
        unique("UNIQUE constraint failed: agent_chat_threads.id")
    );
    store.insert_chat_message(600, "user".into(), "hi".into(), None, 700, 4).unwrap();
    assert_eq!(
        store.insert_chat_message(600, "user".into(), "hi".into(), None, 700, 5).map(|_| ()),
        unique("UNIQUE constraint failed: agent_chat_messages.id")
    );
    assert_eq!(store.list_chat_messages(600).unwrap().len(), 1);
}
