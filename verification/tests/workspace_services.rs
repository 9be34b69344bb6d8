use dopedb::error::AppError;
use dopedb::model::{
    ConnectionProfile, Engine, Provider, Workspace, WorkspaceAccountMembership,
    WorkspaceAuthAccount, WorkspaceAuthUser,
    WorkspaceConnectionAccess, WorkspaceCredentialMode, WorkspaceKind, WorkspaceLifecycleState,
    WorkspaceRole,
};
use dopedb::services::effects::{Effect, Turn};
use dopedb::services::workspace::accounts::{
    auth_state_from_store, ensure_active_account, feature_state, session_verdict, AccountRepair,
    AuthRefresh, AuthRefreshReply, AuthRefreshRequest, LoginCompletion, LoginCompletionReply,
    LoginCompletionRequest, SessionVerdict, SignOut, SignOutAll, SignOutReply, SignOutRequest,
    UserValidation, UserValidationReply, UserValidationRequest, WorkspaceLoginPoll,
    WorkspaceLoginPollStatus,
};
use dopedb::services::workspace::bind::{
    CredentialBinding, CredentialBindingReply, CredentialBindingRequest, MutationPin,
};
use dopedb::services::workspace::copy::{
    ConnectionCopy, ConnectionCopyReply, ConnectionCopyRequest, CreatedTemplate, Selection,
    WorkspaceConnectionCopyRequest,
};
use dopedb::services::workspace::refresh::{
    MembershipRefresh, MembershipRefreshReply, MembershipRefreshRequest,
};
use dopedb::services::workspace::selection::{
    AccountActivation, Activation, ActivationReply, ActivationRequest, ConnectionSync,
    ConnectionSyncReply, ConnectionSyncRequest, MembershipSync, MembershipSyncReply,
    MembershipSyncRequest,
};
use dopedb::store::tables::Store;
use dopedb::text::Text;
use uuid::Uuid;

fn user(id: &str) -> WorkspaceAuthUser {
    WorkspaceAuthUser {
        id: id.into(),
        email: "member@example.com".into(),
        display_name: "Member".into(),
    }
}

fn account(id: &str) -> WorkspaceAuthAccount {
    WorkspaceAuthAccount { user: user(id), memberships: Vec::new() }
}

fn workspace(id: u128, kind: WorkspaceKind) -> Workspace {
    Workspace {
        id,
        name: "W".into(),
        kind,
        lifecycle_state: WorkspaceLifecycleState::Active,
        created_at: 1,
        updated_at: 1,
    }
}

fn failure() -> AppError {
    AppError::Network(Text::Plain("down"))
}

fn local_profile(id: u128) -> ConnectionProfile {
    ConnectionProfile {
        id,
        name: "local".into(),
        engine: Engine::Sqlite,
        provider: Provider::Generic,
        driver_id: None,
        host: String::new(),
        port: 0,
        database: ":memory:".into(),
        username: "tester".into(),
        sslmode: "disable".into(),
        extra_params: Vec::new(),
        readonly_default: true,
        allow_writes: false,
        secret_ref: None,
        env: None,
        schema_group: None,
        workspace_access: WorkspaceConnectionAccess::Local,
        credential_mode: WorkspaceCredentialMode::Local,
    }
}

#[test]
fn workspaces_are_on_unless_the_setting_means_off() {
    let enabled = |value: Option<&str>| feature_state(&value.map(Into::into)).enabled;
    assert!(enabled(None));
    assert!(enabled(Some("1")));
    assert!(enabled(Some("")));
    assert!(enabled(Some("no")));
    for off in ["0", "false", "off", " OFF ", "False\n"] {
        assert!(!enabled(Some(off)), "{off}");
    }
}

#[test]
fn fresh_auth_state_preserves_the_unauthenticated_wire_and_personal_scope() {
    let store = Store::fresh(1);
    let state =
        auth_state_from_store(store.workspace_accounts(), store.active_workspace_account_id());
    assert!(!state.authenticated);
    assert!(state.user.is_none() && state.accounts.is_empty());
    let workspaces = store.list_workspaces();
    assert_eq!(workspaces.len(), 1);
    assert_eq!(store.active_workspace().unwrap().id, workspaces[0].id);
    assert_eq!(workspaces[0].kind, WorkspaceKind::Personal);
}

#[test]
fn cached_accounts_select_their_own_team_membership_without_exposing_a_session() {
    let mut store = Store::fresh(1);
    let team_id = 300;
    let user = user("user-1");
    store.remember_workspace_account(&user, 2);
    store
        .sync_account_workspaces(
            &user,
            &vec![(team_id, "Team".into(), WorkspaceRole::Editor)],
            &vec![400],
            3,
        )
        .unwrap();
    let active = store.activate_workspace_account(user.id.clone(), 4).unwrap();
    assert_eq!(active.id, team_id);

    let auth =
        auth_state_from_store(store.workspace_accounts(), store.active_workspace_account_id());
    assert!(auth.authenticated);
    assert_eq!(
        auth.user.as_ref().map(|user| user.id.as_str()),
        Some(user.id.as_str())
    );
    assert_eq!(auth.accounts.len(), 1);
    assert_eq!(auth.accounts[0].memberships.len(), 1);
}

#[test]
fn the_active_account_is_repaired_from_what_is_remembered() {
    let accounts = vec![account("a"), account("b")];
    assert!(ensure_active_account(&accounts, Some("b".into())) == AccountRepair::Keep);
    assert!(
        ensure_active_account(&accounts, Some("c".into()))
            == AccountRepair::Remove { user_id: "c".into() }
    );
    assert!(
        ensure_active_account(&accounts, None) == AccountRepair::Activate { user_id: "a".into() }
    );
    assert!(ensure_active_account(&vec![], None) == AccountRepair::Keep);
    assert!(session_verdict(Ok(None)) == SessionVerdict::Remove);
    assert!(session_verdict(Err(failure())) == SessionVerdict::Defer);
}

#[test]
fn missing_workspace_selection_keeps_the_exact_not_found_contract() {
    let missing = 404;
    let Turn::Ask { state, request } = Activation::start(missing, None).turn else { panic!() };
    assert!(request == ActivationRequest::ListWorkspaces);
    let store = Store::fresh(1);
    let Turn::Done(Err(error)) =
        state.advance(ActivationReply::Listed(Ok(store.list_workspaces()))).turn
    else {
        panic!()
    };
    assert_eq!(error, AppError::NotFound(Text::WithId("workspace ", missing, "")));
    assert_eq!(error.message(), format!("workspace {}", Uuid::from_u128(missing)));
}

#[test]
fn a_team_is_opened_for_a_confirmed_account() {
    let listed = || ActivationReply::Listed(Ok(vec![workspace(300, WorkspaceKind::Team)]));
    let Turn::Ask { state, .. } = Activation::start(300, None).turn else { panic!() };
    assert!(matches!(
        state.advance(listed()).turn,
        Turn::Done(Err(error))
            if error.message() == "team workspace selection requires an account"
    ));
    let Turn::Ask { state, .. } = Activation::start(300, Some("u".into())).turn else { panic!() };
    let Turn::Ask { state, request } = state.advance(listed()).turn else { panic!() };
    assert!(request == ActivationRequest::ValidateUser { user_id: "u".into() });
    let Turn::Ask { state, request } = state.advance(ActivationReply::Validated(Ok(user("u")))).turn
    else {
        panic!()
    };
    assert!(request == ActivationRequest::SyncMemberships { user: user("u") });
    let Turn::Ask { state, request } = state.advance(ActivationReply::Synced(Ok(()))).turn else {
        panic!()
    };
    assert!(
        request
            == ActivationRequest::ActivateWorkspace { id: 300, account_user_id: Some("u".into()) }
    );
    let team = workspace(300, WorkspaceKind::Team);
    let Turn::Ask { state, request } = state.advance(ActivationReply::Activated(Ok(team))).turn
    else {
        panic!()
    };
    assert!(
        request == ActivationRequest::SyncConnections { user_id: "u".into(), workspace_id: 300 }
    );
    assert!(matches!(
        state.advance(ActivationReply::Connections(Err(failure()))).turn,
        Turn::Done(Ok(opened)) if opened.id == 300
    ));
}

#[test]
fn an_account_opens_in_its_own_workspace() {
    let Turn::Ask { state, .. } = AccountActivation::start("u".into()).turn else { panic!() };
    let Turn::Ask { state, .. } = state.advance(ActivationReply::Validated(Ok(user("u")))).turn
    else {
        panic!()
    };
    let Turn::Ask { state, request } = state.advance(ActivationReply::Synced(Ok(()))).turn else {
        panic!()
    };
    assert!(request == ActivationRequest::ActivateAccount { user_id: "u".into() });
    let personal = workspace(1, WorkspaceKind::Personal);
    assert!(matches!(
        state.advance(ActivationReply::Activated(Ok(personal))).turn,
        Turn::Done(Ok(opened)) if opened.id == 1
    ));
}

#[test]
fn signing_out_lets_go_of_connections_before_the_session() {
    let Turn::Ask { state, request } = SignOut::start(None).turn else { panic!() };
    assert!(request == SignOutRequest::LoadActiveAccount);
    assert!(matches!(
        state.advance(SignOutReply::Active(Ok(None))).turn,
        Turn::Done(Err(error)) if error.message() == "no workspace account is signed in"
    ));
    let Turn::Ask { state, request } = SignOut::start(Some("u".into())).turn else { panic!() };
    assert!(request == SignOutRequest::RemoveAccount { user_id: "u".into() });
    let Turn::Ask { state, request } = state.advance(SignOutReply::Removed(Ok(()))).turn else {
        panic!()
    };
    assert!(request == SignOutRequest::Revoke { user_id: "u".into() });
    assert!(matches!(state.advance(SignOutReply::Revoked(Ok(()))).turn, Turn::Done(Ok(()))));

    let mut all = SignOutAll::new();
    all.note(Ok(()));
    all.note(Err(failure()));
    all.note(Err(AppError::Config(Text::Plain("later"))));
    assert_eq!(all.finish(), Err(failure()));
    assert_eq!(SignOutAll::new().finish(), Ok(()));
}

#[test]
fn a_login_is_not_undone_by_a_deferred_sync() {
    let pending = WorkspaceLoginPoll { status: WorkspaceLoginPollStatus::Pending, user: None };
    assert!(matches!(LoginCompletion::start(pending).turn, Turn::Done(Ok(_))));
    let nobody = WorkspaceLoginPoll { status: WorkspaceLoginPollStatus::SignedIn, user: None };
    assert!(matches!(
        LoginCompletion::start(nobody).turn,
        Turn::Done(Err(error)) if error.message() == "workspace login did not return an account"
    ));
    let poll =
        WorkspaceLoginPoll { status: WorkspaceLoginPollStatus::SignedIn, user: Some(user("u")) };
    let Turn::Ask { state, .. } = LoginCompletion::start(poll).turn else { panic!() };
    let Turn::Ask { state, request } =
        state.advance(LoginCompletionReply::Memberships(Err(failure()))).turn
    else {
        panic!()
    };
    assert!(request == LoginCompletionRequest::ActivateAccount { user_id: "u".into() });
    assert!(matches!(
        state.advance(LoginCompletionReply::Activated(Ok(()))).turn,
        Turn::Done(Ok(poll)) if poll.user == Some(user("u"))
    ));
}

#[test]
fn a_session_that_is_over_costs_the_account() {
    let Turn::Ask { state, .. } = UserValidation::start("u".into()).turn else { panic!() };
    let Turn::Ask { state, request } = state.advance(UserValidationReply::Session(Ok(None))).turn
    else {
        panic!()
    };
    assert!(request == UserValidationRequest::RemoveAccount { user_id: "u".into() });
    let Turn::Ask { state, .. } = state.advance(UserValidationReply::Removed(Ok(()))).turn else {
        panic!()
    };
    assert!(matches!(
        state.advance(UserValidationReply::Repaired(Ok(()))).turn,
        Turn::Done(Err(error)) if error.message() == "workspace session is no longer active"
    ));
}

#[test]
fn an_outage_keeps_the_last_known_identity() {
    let Turn::Ask { state, .. } = AuthRefresh::start().turn else { panic!() };
    let Turn::Ask { state, request } = state.advance(AuthRefreshReply::Accounts(Ok(true))).turn
    else {
        panic!()
    };
    assert!(request == AuthRefreshRequest::EnsureActiveAccount);
    let Turn::Ask { state, .. } = state.advance(AuthRefreshReply::Repaired(Ok(()))).turn else {
        panic!()
    };
    let Turn::Ask { state, request } =
        state.advance(AuthRefreshReply::Active(Ok(Some("u".into())))).turn
    else {
        panic!()
    };
    assert!(request == AuthRefreshRequest::LoadSession { user_id: "u".into() });
    assert!(matches!(
        state.advance(AuthRefreshReply::Session(Err(failure()))).turn,
        Turn::Done(Ok(()))
    ));
}

#[test]
fn every_remembered_account_is_refreshed_in_turn() {
    let mut asked = Vec::new();
    let mut turn = MembershipRefresh::start().turn;
    let end = loop {
        let (state, request) = match turn {
            Turn::Done(end) => break end,
            Turn::Ask { state, request } => (state, request),
        };
        let reply = match request {
            MembershipRefreshRequest::ListAccounts => MembershipRefreshReply::Accounts(Ok(vec![
                "kept".into(),
                "gone".into(),
                "away".into(),
            ])),
            MembershipRefreshRequest::LoadSession { user_id } => {
                let reply = match user_id.as_str() {
                    "kept" => Ok(Some(user("kept"))),
                    "gone" => Ok(None),
                    _ => Err(failure()),
                };
                asked.push(format!("session {user_id}"));
                MembershipRefreshReply::Session(reply)
            }
            MembershipRefreshRequest::SyncMemberships { user } => {
                asked.push(format!("sync {}", user.id));
                MembershipRefreshReply::Synced(Ok(()))
            }
            MembershipRefreshRequest::RemoveAccount { user_id } => {
                asked.push(format!("remove {user_id}"));
                MembershipRefreshReply::Removed(Ok(()))
            }
            MembershipRefreshRequest::EnsureActiveAccount => {
                asked.push("repair".into());
                MembershipRefreshReply::Repaired(Ok(()))
            }
        };
        turn = state.advance(reply).turn;
    };
    assert!(end.is_ok());
    assert_eq!(asked, [
        "session kept",
        "sync kept",
        "session gone",
        "remove gone",
        "session away",
        "repair"
    ]);
}

#[test]
fn memberships_bring_connections_for_the_open_team_only() {
    let stored = || {
        let Turn::Ask { state, .. } = MembershipSync::start(user("u")).turn else { panic!() };
        let Turn::Ask { state, request } =
            state.advance(MembershipSyncReply::Remembered(Ok(()))).turn
        else {
            panic!()
        };
        assert!(request == MembershipSyncRequest::FetchWorkspaces { user_id: "u".into() });
        let Turn::Ask { state, .. } = state.advance(MembershipSyncReply::Fetched(Ok(vec![]))).turn
        else {
            panic!()
        };
        let Turn::Ask { state, .. } = state.advance(MembershipSyncReply::Stored(Ok(()))).turn else {
            panic!()
        };
        state
    };
    let personal = workspace(1, WorkspaceKind::Personal);
    assert!(matches!(
        stored().advance(MembershipSyncReply::ActiveWorkspace(Ok(personal))).turn,
        Turn::Done(Ok(()))
    ));
    let team = || MembershipSyncReply::ActiveWorkspace(Ok(workspace(300, WorkspaceKind::Team)));
    let Turn::Ask { state, .. } = stored().advance(team()).turn else { panic!() };
    assert!(matches!(
        state.advance(MembershipSyncReply::ActiveAccount(Ok(Some("other".into())))).turn,
        Turn::Done(Ok(()))
    ));
    let Turn::Ask { state, .. } = stored().advance(team()).turn else { panic!() };
    let Turn::Ask { request, .. } =
        state.advance(MembershipSyncReply::ActiveAccount(Ok(Some("u".into())))).turn
    else {
        panic!()
    };
    assert!(
        request
            == MembershipSyncRequest::SyncConnections {
                account_user_id: "u".into(),
                workspace_id: 300
            }
    );
}

#[test]
fn connections_that_cannot_be_fetched_stay_as_they_are() {
    let fetched = || match ConnectionSync::start("u".into(), 300).turn {
        Turn::Ask { state, .. } => state,
        Turn::Done(_) => panic!(),
    };
    assert!(matches!(
        fetched().advance(ConnectionSyncReply::Fetched(Err(failure()))).turn,
        Turn::Done(Ok(()))
    ));
    assert!(matches!(
        fetched().advance(ConnectionSyncReply::Fetched(Ok(None))).turn,
        Turn::Done(Ok(()))
    ));
    let Turn::Ask { state, request } =
        fetched().advance(ConnectionSyncReply::Fetched(Ok(Some(vec![])))).turn
    else {
        panic!()
    };
    assert!(matches!(request, ConnectionSyncRequest::StoreRemote { workspace_id: 300, .. }));
    let step = state.advance(ConnectionSyncReply::Stored(Ok(vec![8, 9])));
    assert!(
        step.effects
            == [8, 9].map(|credential_id| Effect::DeleteSecret {
                credential_id,
                action: "remove_remote_connection"
            })
    );
    assert!(matches!(step.turn, Turn::Done(Ok(()))));
}

fn copy_request() -> WorkspaceConnectionCopyRequest {
    WorkspaceConnectionCopyRequest {
        connection_id: 5,
        workspace_id: 300,
        account_user_id: "u".into(),
    }
}

#[test]
fn copy_resolves_local_scope_before_reading_or_publishing_credentials() {
    let Turn::Ask { state, request } = ConnectionCopy::start(copy_request()).turn else { panic!() };
    assert!(request == ConnectionCopyRequest::LoadConnection { connection_id: 5 });
    let Turn::Ask { state, request } =
        state.advance(ConnectionCopyReply::Source(Ok(local_profile(5)))).turn
    else {
        panic!()
    };
    assert!(request == ConnectionCopyRequest::ListWorkspaces);
    let Turn::Done(Err(error)) = state
        .advance(ConnectionCopyReply::Workspaces(Ok(vec![workspace(1, WorkspaceKind::Personal)])))
        .turn
    else {
        panic!()
    };
    assert_eq!(
        error,
        AppError::NotFound(Text::WithId("team workspace ", 300, ""))
    );
}

#[test]
fn a_copy_that_cannot_be_bound_is_taken_back() {
    let mut source = local_profile(5);
    source.secret_ref = Some(Uuid::from_u128(70).to_string());
    let mut created = local_profile(6);
    created.workspace_access = WorkspaceConnectionAccess::Write;
    created.credential_mode = WorkspaceCredentialMode::MemberLocal;
    let mut asked = Vec::new();
    let mut effects = Vec::new();
    let mut step = ConnectionCopy::start(copy_request());
    let end = loop {
        effects.append(&mut step.effects);
        let (state, request) = match step.turn {
            Turn::Done(end) => break end,
            Turn::Ask { state, request } => (state, request),
        };
        let reply = match request {
            ConnectionCopyRequest::LoadConnection { .. } => {
                ConnectionCopyReply::Source(Ok(source.duplicate()))
            }
            ConnectionCopyRequest::ListWorkspaces => {
                ConnectionCopyReply::Workspaces(Ok(vec![workspace(300, WorkspaceKind::Team)]))
            }
            ConnectionCopyRequest::LoadSelection => ConnectionCopyReply::Selected(Ok(Selection {
                account_user_id: Some("u".into()),
                workspace_id: 1,
            })),
            ConnectionCopyRequest::ListAccounts => {
                let mut member = account("u");
                member.memberships.push(WorkspaceAccountMembership {
                    workspace_id: 300,
                    role: WorkspaceRole::Editor,
                });
                ConnectionCopyReply::Accounts(Ok(vec![member]))
            }
            ConnectionCopyRequest::FetchSecret { secret_ref } => {
                assert_eq!(secret_ref, Uuid::from_u128(70).to_string());
                ConnectionCopyReply::Secret(Ok("hunter".into()))
            }
            ConnectionCopyRequest::FetchRemote { .. } => {
                ConnectionCopyReply::Remote {
                    remote: Ok(Some(vec![(local_profile(9), 4)])),
                    fresh_id: 71,
                }
            }
            ConnectionCopyRequest::StoreSecret { credential_id, secret } => {
                assert_eq!((credential_id, secret.as_str()), (71, "hunter"));
                asked.push("store");
                ConnectionCopyReply::Stored(Ok(()))
            }
            ConnectionCopyRequest::Share { account_user_id, workspace_id, template } => {
                assert_eq!((account_user_id.as_str(), workspace_id), ("u", 300));
                assert_eq!(template.name, source.name);
                asked.push("share");
                ConnectionCopyReply::Shared(Ok(CreatedTemplate {
                    profile: created.duplicate(),
                    revision: 1,
                }))
            }
            ConnectionCopyRequest::SyncRemote { templates, .. } => {
                let handed: Vec<(u128, i64)> =
                    templates.iter().map(|(profile, revision)| (profile.id, *revision)).collect();
                assert_eq!(handed, [(9, 4), (6, 1)]);
                ConnectionCopyReply::Synced(Ok(vec![]))
            }
            ConnectionCopyRequest::Bind { connection_id, username, credential, .. } => {
                assert_eq!((connection_id, credential), (6, Some(71)));
                assert_eq!(username, source.username);
                asked.push("bind");
                ConnectionCopyReply::Bound(Err(failure()))
            }
            ConnectionCopyRequest::DeleteRemote { connection_id, .. } => {
                assert_eq!(connection_id, 6);
                asked.push("delete");
                ConnectionCopyReply::Undone(Ok(()))
            }
        };
        step = state.advance(reply);
    };
    assert!(matches!(end, Err(error) if error == failure()));
    assert_eq!(asked, ["store", "share", "bind", "delete"]);
    assert!(effects.iter().any(|effect| matches!(
        effect,
        Effect::DeleteSecret { credential_id: 71, .. }
    )));
}

#[test]
fn binding_validates_secrets_before_scope_mutation_and_rejects_local_profiles() {
    let connection_id = 5;
    assert!(matches!(
        CredentialBinding::start(connection_id, "bad\nname", "secret".into()).turn,
        Turn::Done(Err(AppError::Config(message))) if message.render() == "username is invalid"
    ));
    assert!(matches!(
        CredentialBinding::start(connection_id, "member", String::new()).turn,
        Turn::Done(Err(AppError::Config(message)))
            if message.render() == "connection credential is empty or exceeds the size limit"
    ));
    let Turn::Ask { state, .. } =
        CredentialBinding::start(connection_id, " member ", "secret".into()).turn
    else {
        panic!()
    };
    let pin = MutationPin {
        workspace_access: WorkspaceConnectionAccess::Local,
        credential_mode: WorkspaceCredentialMode::Local,
        secret_ref: None,
        extra_params: Vec::new(),
        selected_account_id: None,
    };
    assert!(matches!(
        state.advance(CredentialBindingReply::Mutation { pin: Ok(pin), fresh_id: 9 }).turn,
        Turn::Done(Err(AppError::Config(message)))
            if message.render() == "connection is not a shared workspace template"
    ));
}

#[test]
fn a_binding_keeps_the_trimmed_name_under_a_fresh_credential() {
    let Turn::Ask { state, .. } = CredentialBinding::start(5, " member ", "secret".into()).turn else {
        panic!()
    };
    let pin = MutationPin {
        workspace_access: WorkspaceConnectionAccess::Write,
        credential_mode: WorkspaceCredentialMode::MemberLocal,
        secret_ref: Some(Uuid::from_u128(70).to_string()),
        extra_params: vec![("sslcert".into(), "a".into())],
        selected_account_id: Some("u".into()),
    };
    let Turn::Ask { state, request } =
        state.advance(CredentialBindingReply::Mutation { pin: Ok(pin), fresh_id: 71 }).turn
    else {
        panic!()
    };
    assert!(request == CredentialBindingRequest::StoreSecret { credential_id: 71, secret: "secret".into() });
    let Turn::Ask { state, request } = state.advance(CredentialBindingReply::Stored(Ok(()))).turn
    else {
        panic!()
    };
    assert!(
        request
            == CredentialBindingRequest::Bind {
                connection_id: 5,
                account_user_id: "u".into(),
                username: "member".into(),
                extra_params: vec![("sslcert".into(), "a".into())],
                credential_id: 71
            }
    );
    let step = state.advance(CredentialBindingReply::Bound(Ok(local_profile(5))));
    assert!(step.effects.iter().any(|effect| matches!(
        effect,
        Effect::DeleteSecret { credential_id: 70, .. }
    )));
    assert!(matches!(step.turn, Turn::Done(Ok(_))));
}
