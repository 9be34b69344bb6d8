use std::collections::HashMap;

use dopedb::error::AppError;
use dopedb::model::{
    ConnectionAccess, ConnectionProfile, Engine, Provider, SafetySettings,
    WorkspaceConnectionAccess, WorkspaceCredentialMode,
};
use dopedb::operations::{AccountScope, PinnedConnection, PinnedProfile, ScopePin};
use dopedb::services::connection::groups::{
    Regrouping, RegroupingReply, RegroupingRequest,
};
use dopedb::services::connection::lifecycle::{
    check_profile_test, check_saved_test, Removal, RemovalPin, RemovalReply, RemovalRequest,
};
use dopedb::services::connection::select::{
    list_terminal_summaries, resolve_terminal_cli, terminal_summary, ConnectionSelector,
};
use dopedb::services::connection::upsert::{
    ConnectionUpsert, ConnectionUpsertAsk, ConnectionUpsertReply, ConnectionUpsertRequest,
};
use dopedb::services::effects::{Effect, Step, Turn};
use dopedb::services::safety_service::{SafetyUpdate, SafetyUpdateReply, SafetyUpdateRequest};
use dopedb::services::terminal_authority::TerminalAuthority;
use dopedb::services::workspace::bind::MAX_CONNECTION_CREDENTIAL_BYTES;
use dopedb::store::tables::Store;
use dopedb::text::Text;
use uuid::Uuid;

struct Host {
    store: Store,
    credentials: HashMap<u128, String>,
    next_id: u128,
    now: i128,
}

fn local_profile(id: u128, name: &str, engine: Engine) -> ConnectionProfile {
    ConnectionProfile {
        id,
        name: name.into(),
        engine,
        provider: Provider::Generic,
        driver_id: None,
        host: "localhost".into(),
        port: 0,
        database: "db".into(),
        username: "tester".into(),
        sslmode: "disable".into(),
        extra_params: Vec::new(),
        readonly_default: true,
        allow_writes: false,
        secret_ref: None,
        env: Some("test".into()),
        schema_group: None,
        workspace_access: WorkspaceConnectionAccess::Local,
        credential_mode: WorkspaceCredentialMode::Local,
    }
}

impl Host {
    fn new() -> Host {
        Host { store: Store::fresh(1), credentials: HashMap::new(), next_id: 1_000, now: 1 }
    }

    fn fresh(&mut self) -> u128 {
        self.next_id += 1;
        self.next_id
    }

    fn tick(&mut self) -> i128 {
        self.now += 1;
        self.now
    }

    fn carry_out(&mut self, effects: Vec<Effect>) {
        for effect in effects {
            match effect {
                Effect::DeleteSecret { credential_id, .. } => {
                    self.credentials.remove(&credential_id);
                }
                Effect::ClearSchemaCache { connection_id } => {
                    let _ = self.store.clear_schema_cache(connection_id);
                }
                _ => {}
            }
        }
    }

    fn upsert(
        &mut self,
        profile: ConnectionProfile,
        password: Option<&str>,
    ) -> Result<ConnectionProfile, AppError> {
        let mut step: Step<_, _, _> = ConnectionUpsert::start(ConnectionUpsertRequest {
            profile,
            password: password.map(Into::into),
        });
        loop {
            self.carry_out(step.effects);
            let (state, request) = match step.turn {
                Turn::Done(end) => return end,
                Turn::Ask { state, request } => (state, request),
            };
            let reply = match request {
                ConnectionUpsertAsk::ValidateDriver { .. } => ConnectionUpsertReply::Driver(Ok(())),
                ConnectionUpsertAsk::EnsureWriteScope { connection_id } => {
                    ConnectionUpsertReply::Scope(
                        self.store.ensure_connection_write_scope(connection_id),
                    )
                }
                ConnectionUpsertAsk::ListConnections => ConnectionUpsertReply::Listed {
                    connections: self.store.list_connections(),
                    fresh_id: self.fresh(),
                },
                ConnectionUpsertAsk::StoreSecret { credential_id, secret } => {
                    self.credentials.insert(credential_id, secret);
                    ConnectionUpsertReply::SecretStored(Ok(()))
                }
                ConnectionUpsertAsk::Save { profile } => {
                    let (id, now) = (self.fresh(), self.tick());
                    ConnectionUpsertReply::Saved(self.store.upsert_connection(&profile, id, now))
                }
            };
            step = state.advance(reply);
        }
    }

    fn set_schema_group(
        &mut self,
        ids: Vec<u128>,
        group: Option<&str>,
    ) -> Result<Vec<ConnectionProfile>, AppError> {
        let mut step = Regrouping::start(ids, group.map(Into::into));
        loop {
            self.carry_out(step.effects);
            let (state, request) = match step.turn {
                Turn::Done(end) => return end,
                Turn::Ask { state, request } => (state, request),
            };
            let reply = match request {
                RegroupingRequest::ListConnections => {
                    RegroupingReply::Listed(self.store.list_connections())
                }
                RegroupingRequest::StoreGroup { ids, group } => {
                    let outbox: Vec<u128> = ids.iter().map(|_| self.fresh()).collect();
                    let now = self.tick();
                    RegroupingReply::Stored(
                        self.store.set_connections_schema_group(&ids, group, &outbox, now),
                    )
                }
            };
            step = state.advance(reply);
        }
    }

    fn delete(&mut self, id: u128) -> Result<(), AppError> {
        let mut step = Removal::start(id);
        loop {
            self.carry_out(step.effects);
            let (state, request) = match step.turn {
                Turn::Done(end) => return end,
                Turn::Ask { state, request } => (state, request),
            };
            let reply = match request {
                RemovalRequest::Pin { connection_id } => RemovalReply::Pinned(
                    self.store.get_connection(connection_id).map(|profile| RemovalPin {
                        workspace_access: profile.workspace_access,
                        secret_ref: profile.secret_ref,
                    }),
                ),
                RemovalRequest::Delete { connection_id } => {
                    let (id, now) = (self.fresh(), self.tick());
                    RemovalReply::Deleted(self.store.delete_connection(connection_id, id, now))
                }
            };
            step = state.advance(reply);
        }
    }

    fn update_safety(
        &mut self,
        connection_id: u128,
        settings: SafetySettings,
    ) -> (Vec<ConnectionAccess>, Result<(), AppError>) {
        let mut asked = Vec::new();
        let mut step = SafetyUpdate::start(connection_id, settings);
        loop {
            let (state, request) = match step.turn {
                Turn::Done(end) => return (asked, end),
                Turn::Ask { state, request } => (state, request),
            };
            let reply = match request {
                SafetyUpdateRequest::LoadAccess { connection_id } => SafetyUpdateReply::Loaded(
                    self.store
                        .get_connection(connection_id)
                        .map(|profile| profile.workspace_access),
                ),
                SafetyUpdateRequest::Authorize { access, .. } => {
                    asked.push(access);
                    SafetyUpdateReply::Authorized(Ok(()))
                }
                SafetyUpdateRequest::Store { connection_id, settings } => {
                    SafetyUpdateReply::Stored(self.store.set_safety(connection_id, &settings))
                }
            };
            step = state.advance(reply);
        }
    }
}

#[test]
fn upsert_normalizes_metadata_and_never_trusts_an_ipc_secret_reference() {
    let mut host = Host::new();
    let id = 5;
    let mut draft = local_profile(id, "local", Engine::Sqlite);
    draft.schema_group = Some("  Core  ".into());
    draft.secret_ref = Some(Uuid::from_u128(77).to_string());

    let saved = host.upsert(draft, None).unwrap();

    assert_eq!(saved.schema_group.as_deref(), Some("Core"));
    assert_eq!(saved.secret_ref, None);
    assert!(host.credentials.is_empty());
    let persisted = host.store.get_connection(id).unwrap();
    assert_eq!(persisted.schema_group.as_deref(), Some("Core"));
    assert_eq!(persisted.secret_ref, None);
}

#[test]
fn credential_rotation_commits_the_new_pointer_before_retiring_old_material() {
    let mut host = Host::new();
    let id = 5;
    let saved = host
        .upsert(local_profile(id, "local", Engine::Sqlite), Some("old-secret"))
        .unwrap();
    let old_id = Uuid::parse_str(saved.secret_ref.as_deref().unwrap()).unwrap().as_u128();
    assert_eq!(
        host.credentials.get(&old_id).map(String::as_str),
        Some("old-secret")
    );

    let mut edited = saved;
    edited.secret_ref = Some(Uuid::from_u128(77).to_string());
    let rotated = host.upsert(edited, Some("new-secret")).unwrap();
    let new_id = Uuid::parse_str(rotated.secret_ref.as_deref().unwrap()).unwrap();
    assert_eq!(host.credentials.len(), 1);
    assert_eq!(
        host.credentials.get(&new_id.as_u128()).map(String::as_str),
        Some("new-secret")
    );
    assert!(!host.credentials.contains_key(&old_id));
    assert_eq!(
        host.store.get_connection(id).unwrap().secret_ref.as_deref(),
        Some(new_id.to_string().as_str())
    );

    host.delete(id).unwrap();
    assert!(host.credentials.is_empty());
    assert!(matches!(
        host.store.get_connection(id),
        Err(AppError::NotFound(message))
            if message.render() == format!("connection {}", Uuid::from_u128(id))
    ));
}

#[test]
fn a_failed_profile_commit_removes_the_unpublished_replacement_secret() {
    let mut host = Host::new();
    let mut incompatible = local_profile(5, "invalid", Engine::Sqlite);
    incompatible.credential_mode = WorkspaceCredentialMode::MemberLocal;

    let error = host.upsert(incompatible, Some("must-be-removed")).unwrap_err();

    assert!(matches!(
        error,
        AppError::Config(message)
            if message.render() == "local connections must use local credential mode"
    ));
    assert!(host.credentials.is_empty());
    assert!(host.store.list_connections().unwrap().is_empty());
}

#[test]
fn schema_group_batch_deduplicates_ids_and_rejects_mixed_engines_atomically() {
    let mut host = Host::new();
    let (alpha_id, beta_id, mysql_id) = (5, 6, 7);
    for profile in [
        local_profile(alpha_id, "alpha", Engine::Sqlite),
        local_profile(beta_id, "beta", Engine::Sqlite),
        local_profile(mysql_id, "mysql", Engine::Mysql),
    ] {
        host.upsert(profile, None).unwrap();
    }

    let updated = host
        .set_schema_group(vec![alpha_id, alpha_id, beta_id], Some("  Core  "))
        .unwrap();
    assert_eq!(updated.len(), 2);
    assert!(updated
        .iter()
        .all(|profile| profile.schema_group.as_deref() == Some("Core")));

    let error = host.set_schema_group(vec![mysql_id], Some("core")).unwrap_err();
    assert!(matches!(
        error,
        AppError::Config(message)
            if message.render()
                == "schema group 'core' already contains a different database engine"
    ));
    assert_eq!(host.store.get_connection(mysql_id).unwrap().schema_group, None);
    assert!(host.set_schema_group(vec![], Some("core")).unwrap().is_empty());
    assert!(matches!(
        host.set_schema_group(vec![alpha_id, 99], None),
        Err(AppError::NotFound(message)) if message == Text::WithId("connection ", 99, "")
    ));
}

#[test]
fn profile_test_rejects_shared_and_oversized_credentials_before_dialing() {
    let mut shared = local_profile(5, "shared", Engine::Sqlite);
    shared.workspace_access = WorkspaceConnectionAccess::Read;
    shared.credential_mode = WorkspaceCredentialMode::MemberLocal;
    assert!(matches!(
        check_profile_test(&shared, None),
        Err(AppError::Blocked { reason })
            if reason.render() == "shared connections must be tested through workspace authorization"
    ));

    let local = local_profile(5, "local", Engine::Sqlite);
    let oversized = "x".repeat(MAX_CONNECTION_CREDENTIAL_BYTES + 1);
    assert!(matches!(
        check_profile_test(&local, Some(oversized)),
        Err(AppError::Config(message))
            if message.render() == "connection credential exceeds the size limit"
    ));
    assert_eq!(check_profile_test(&local, None).unwrap(), "");
    assert_eq!(check_profile_test(&local, Some("secret".into())).unwrap(), "secret");
}

#[test]
fn saved_test_preserves_the_workspace_view_only_error() {
    let mut profile = local_profile(5, "view-only", Engine::Sqlite);
    assert!(check_saved_test(&profile).is_ok());
    profile.workspace_access = WorkspaceConnectionAccess::View;
    assert!(matches!(
        check_saved_test(&profile),
        Err(AppError::Blocked { reason })
            if reason.render() == "your workspace role cannot test this shared connection"
    ));
}

#[test]
fn unfit_upserts_are_refused_before_anything_is_kept() {
    let mut host = Host::new();
    let mut shared = local_profile(5, "shared", Engine::Sqlite);
    shared.workspace_access = WorkspaceConnectionAccess::Read;
    assert!(matches!(host.upsert(shared, Some("secret")), Err(AppError::Blocked { .. })));
    let oversized = "x".repeat(MAX_CONNECTION_CREDENTIAL_BYTES + 1);
    assert!(matches!(
        host.upsert(local_profile(5, "big", Engine::Sqlite), Some(&oversized)),
        Err(AppError::Config(message))
            if message.render() == "connection credential exceeds the size limit"
    ));
    host.upsert(local_profile(5, "one", Engine::Sqlite), Some("")).unwrap();
    host.store.connections[0].secret_ref = Some("not an id".into());
    assert!(matches!(
        host.upsert(local_profile(5, "one", Engine::Sqlite), None),
        Err(AppError::Config(message))
            if message.render() == "stored connection secret reference is invalid"
    ));
    assert!(host.credentials.is_empty());
}

#[test]
fn shared_connections_are_not_removed() {
    let Turn::Ask { state, .. } = Removal::start(5).turn else { panic!() };
    let pin = RemovalPin { workspace_access: WorkspaceConnectionAccess::Manage, secret_ref: None };
    assert!(matches!(
        state.advance(RemovalReply::Pinned(Ok(pin))).turn,
        Turn::Done(Err(AppError::Blocked { .. }))
    ));
}

fn pinned(profile: &ConnectionProfile) -> PinnedConnection {
    PinnedConnection {
        scope: ScopePin {
            workspace_id: 1,
            account_scope: AccountScope::Personal,
            generation: 0,
        },
        connection_id: profile.id,
        connection_revision: 1,
        binding_revision: None,
        binding_updated_at: None,
        profile: PinnedProfile {
            id: profile.id,
            name: profile.name.clone(),
            engine: profile.engine,
            env: profile.env.clone(),
            workspace_access: profile.workspace_access,
            credential_mode: profile.credential_mode,
        },
    }
}

#[test]
fn terminal_list_does_not_disclose_sibling_connections() {
    let mut host = Host::new();
    let (pinned_id, sibling_id) = (5, 6);
    for profile in [
        local_profile(pinned_id, "pinned", Engine::Sqlite),
        local_profile(sibling_id, "sibling", Engine::Sqlite),
    ] {
        host.upsert(profile, None).unwrap();
    }
    let profile = host.store.get_connection(pinned_id).unwrap();
    let pin = pinned(&profile);
    let mut authority = TerminalAuthority {
        terminal_session_id: 9,
        workspace_id: pin.scope.workspace_id,
        account_scope: "personal".into(),
        connection_id: pin.connection_id,
        connection_revision: pin.connection_revision,
        client_protocol_version: 1,
    };

    let listed = list_terminal_summaries(&authority, &pin, &profile).unwrap();
    assert_eq!(listed.len(), 1);
    assert_eq!(listed[0].id, pinned_id);
    assert!(listed.iter().all(|summary| summary.id != sibling_id));
    assert_eq!(terminal_summary(&authority, &pin, &profile).unwrap(), listed[0]);
    let profiles = host.store.list_connections().unwrap();
    let found = resolve_terminal_cli(&authority, &pin, &profiles, &ConnectionSelector::Current);
    assert_eq!(found.unwrap().unwrap().id, pinned_id);

    authority.connection_revision = 2;
    assert!(matches!(
        list_terminal_summaries(&authority, &pin, &profile),
        Err(AppError::Blocked { reason })
            if reason.render() == "Terminal connection authority is no longer current"
    ));
    assert!(resolve_terminal_cli(&authority, &pin, &profiles, &ConnectionSelector::Current).is_err());
}

#[test]
fn update_clamps_both_untrusted_row_limits() {
    let mut host = Host::new();
    let connection_id = 5;
    host.upsert(local_profile(connection_id, "safety-test", Engine::Sqlite), None).unwrap();
    let mut settings = host.store.get_safety(connection_id).unwrap();
    settings.allow_writes = true;
    settings.max_rows = u64::MAX;
    settings.exec_preview_row_limit = -1;
    let (asked, end) = host.update_safety(connection_id, settings);
    assert!(end.is_ok());
    assert_eq!(asked, [ConnectionAccess::Write]);
    let stored = host.store.get_safety(connection_id).unwrap();
    assert!(stored.allow_writes);
    assert_eq!(stored.max_rows, 100_000);
    assert_eq!(stored.exec_preview_row_limit, 0);

    let mut settings = stored;
    settings.max_rows = 0;
    settings.exec_preview_row_limit = i64::MAX;
    assert!(host.update_safety(connection_id, settings).1.is_ok());
    let stored = host.store.get_safety(connection_id).unwrap();
    assert_eq!(stored.max_rows, 1);
    assert_eq!(stored.exec_preview_row_limit, 1_000_000);
}

#[test]
fn a_role_that_cannot_write_never_enables_writes() {
    let mut host = Host::new();
    host.upsert(local_profile(5, "safety-test", Engine::Sqlite), None).unwrap();
    host.store.connections[0].workspace_access = WorkspaceConnectionAccess::Read;
    let settings = SafetySettings { allow_writes: true, ..SafetySettings::default() };
    let (asked, end) = host.update_safety(5, settings);
    assert!(end.is_ok());
    assert_eq!(asked, [ConnectionAccess::Read]);
    assert!(!host.store.get_safety(5).unwrap().allow_writes);
    assert!(matches!(host.update_safety(6, settings).1, Err(AppError::NotFound(_))));
}

#[test]
fn read_only_workspace_role_cannot_persist_write_enablement() {
    let refused =
        || AppError::Blocked { reason: Text::Plain("workspace role cannot execute this connection") };
    let settings = SafetySettings { allow_writes: true, ..SafetySettings::default() };
    let Turn::Ask { state, .. } = SafetyUpdate::start(5, settings).turn else { panic!() };
    let Turn::Ask { state, request } =
        state.advance(SafetyUpdateReply::Loaded(Ok(WorkspaceConnectionAccess::Read))).turn
    else {
        panic!()
    };
    assert!(
        request
            == SafetyUpdateRequest::Authorize { connection_id: 5, access: ConnectionAccess::Read }
    );
    assert!(matches!(
        state.advance(SafetyUpdateReply::Authorized(Err(refused()))).turn,
        Turn::Done(Err(error)) if error == refused()
    ));
}
