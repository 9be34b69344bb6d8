//! Copying a local connection into a team workspace.
//!
//! Only a template without credentials goes to the server. Everything that can fail
//! locally is tried before the server is asked to create anything, and what was created is
//! taken back if the copy cannot be completed.
use vstd::pervasive::unreached;
use vstd::prelude::*;

use crate::error::AppError;
use crate::model::{
    ConnectionProfile, Workspace, WorkspaceAccountMembership, WorkspaceAuthAccount,
    WorkspaceConnectionAccess, WorkspaceKind,
};
use crate::services::effects::{ask, done, Effect, Step, Turn};
use crate::text::{same_text, Text};
use crate::workspace_auth::remote::{share_request, shared_part, SharedConnectionRequest};

verus! {

/// What is to be copied, where to, and on whose behalf.
#[derive(PartialEq, Eq)]
pub struct WorkspaceConnectionCopyRequest {
    pub connection_id: u128,
    pub workspace_id: u128,
    pub account_user_id: String,
}

/// Whether a team workspace with this id is listed.
pub open spec fn lists_team(workspaces: Seq<Workspace>, id: u128) -> bool {
    exists|i: int|
        0 <= i < workspaces.len() && (#[trigger] workspaces[i]).id == id && workspaces[i].kind
            == WorkspaceKind::Team
}

/// Computes [`lists_team`].
pub fn has_team(workspaces: &Vec<Workspace>, id: u128) -> (r: bool)
    ensures
        r == lists_team(workspaces@, id),
{
    let mut i: usize = 0;
    while i < workspaces.len()
        invariant
            i <= workspaces@.len(),
            forall|k: int|
                0 <= k < i ==> !((#[trigger] workspaces@[k]).id == id && workspaces@[k].kind
                    == WorkspaceKind::Team),
        decreases workspaces@.len() - i,
    {
        if workspaces[i].id == id && workspaces[i].kind == WorkspaceKind::Team {
            assert(workspaces@[i as int].id == id);
            return true;
        }
        i = i + 1;
    }
    false
}

/// Whether a membership in this workspace is among them.
pub open spec fn is_member(
    memberships: Seq<WorkspaceAccountMembership>,
    workspace_id: u128,
) -> bool {
    exists|i: int|
        0 <= i < memberships.len() && (#[trigger] memberships[i]).workspace_id == workspace_id
}

fn belongs(memberships: &Vec<WorkspaceAccountMembership>, workspace_id: u128) -> (r: bool)
    ensures
        r == is_member(memberships@, workspace_id),
{
    let mut i: usize = 0;
    while i < memberships.len()
        invariant
            i <= memberships@.len(),
            forall|k: int|
                0 <= k < i ==> (#[trigger] memberships@[k]).workspace_id != workspace_id,
        decreases memberships@.len() - i,
    {
        if memberships[i].workspace_id == workspace_id {
            assert(memberships@[i as int].workspace_id == workspace_id);
            return true;
        }
        i = i + 1;
    }
    false
}

/// Whether this account is remembered and belongs to the workspace.
pub open spec fn account_belongs(
    accounts: Seq<WorkspaceAuthAccount>,
    user_id: Seq<char>,
    workspace_id: u128,
) -> bool {
    exists|i: int|
        0 <= i < accounts.len() && (#[trigger] accounts[i]).user.id@ == user_id && is_member(
            accounts[i].memberships@,
            workspace_id,
        )
}

/// Computes [`account_belongs`].
pub fn has_membership(
    accounts: &Vec<WorkspaceAuthAccount>,
    user_id: &str,
    workspace_id: u128,
) -> (r: bool)
    ensures
        r == account_belongs(accounts@, user_id@, workspace_id),
{
    let mut i: usize = 0;
    while i < accounts.len()
        invariant
            i <= accounts@.len(),
            forall|k: int|
                0 <= k < i ==> !((#[trigger] accounts@[k]).user.id@ == user_id@ && is_member(
                    accounts@[k].memberships@,
                    workspace_id,
                )),
        decreases accounts@.len() - i,
    {
        if same_text(accounts[i].user.id.as_str(), user_id) && belongs(
            &accounts[i].memberships,
            workspace_id,
        ) {
            assert(accounts@[i as int].user.id@ == user_id@);
            return true;
        }
        i = i + 1;
    }
    false
}

/// What is selected at present.
#[derive(PartialEq, Eq)]
pub struct Selection {
    pub account_user_id: Option<String>,
    pub workspace_id: u128,
}

/// A template that the server has created.
#[derive(PartialEq, Eq)]
pub struct CreatedTemplate {
    pub profile: ConnectionProfile,
    pub revision: i64,
}

/// Where a copy stands: what it is waiting to hear.
#[derive(PartialEq, Eq)]
pub enum ConnectionCopy {
    Source { request: WorkspaceConnectionCopyRequest },
    Workspaces { request: WorkspaceConnectionCopyRequest, source: ConnectionProfile },
    Selected { request: WorkspaceConnectionCopyRequest, source: ConnectionProfile },
    Accounts { request: WorkspaceConnectionCopyRequest, source: ConnectionProfile },
    Secret { request: WorkspaceConnectionCopyRequest, source: ConnectionProfile },
    Remote {
        request: WorkspaceConnectionCopyRequest,
        source: ConnectionProfile,
        secret: Option<String>,
    },
    Stored {
        request: WorkspaceConnectionCopyRequest,
        source: ConnectionProfile,
        remote: Vec<(ConnectionProfile, i64)>,
        credential_id: u128,
    },
    Shared {
        request: WorkspaceConnectionCopyRequest,
        source: ConnectionProfile,
        remote: Vec<(ConnectionProfile, i64)>,
        credential: Option<u128>,
    },
    Synced {
        request: WorkspaceConnectionCopyRequest,
        source: ConnectionProfile,
        credential: Option<u128>,
        created_id: u128,
    },
    Bound {
        request: WorkspaceConnectionCopyRequest,
        credential: Option<u128>,
        created_id: u128,
    },
    Undone { workspace_id: u128, created_id: u128, error: AppError },
}

/// What a copy asks of the outside world.
#[derive(PartialEq, Eq)]
pub enum ConnectionCopyRequest {
    /// Load the connection from the current scope.
    LoadConnection { connection_id: u128 },
    /// List the workspaces that are active.
    ListWorkspaces,
    /// Look up the selected account and the selected workspace.
    LoadSelection,
    /// List the remembered accounts.
    ListAccounts,
    /// Read the credential that this refers to.
    FetchSecret { secret_ref: String },
    /// Fetch the templates that the workspace shares, and draw a fresh id.
    FetchRemote { account_user_id: String, workspace_id: u128 },
    /// Put this secret into the credential store under this id.
    StoreSecret { credential_id: u128, secret: String },
    /// Have the server create this template.
    Share {
        account_user_id: String,
        workspace_id: u128,
        template: SharedConnectionRequest,
    },
    /// Bring the local cache in line with these templates.
    SyncRemote {
        account_user_id: String,
        workspace_id: u128,
        templates: Vec<(ConnectionProfile, i64)>,
    },
    /// Bind the copied credential.
    Bind {
        connection_id: u128,
        account_user_id: String,
        username: String,
        extra_params: Vec<(String, String)>,
        credential: Option<u128>,
    },
    /// Have the server delete the template that it created.
    DeleteRemote { account_user_id: String, workspace_id: u128, connection_id: u128 },
}

/// What the outside world answers.
#[derive(PartialEq, Eq)]
pub enum ConnectionCopyReply {
    Source(Result<ConnectionProfile, AppError>),
    Workspaces(Result<Vec<Workspace>, AppError>),
    Selected(Result<Selection, AppError>),
    Accounts(Result<Vec<WorkspaceAuthAccount>, AppError>),
    Secret(Result<String, AppError>),
    /// Nothing where the server does not share connections yet.
    Remote { remote: Result<Option<Vec<(ConnectionProfile, i64)>>, AppError>, fresh_id: u128 },
    Stored(Result<(), AppError>),
    Shared(Result<CreatedTemplate, AppError>),
    /// The credentials of the templates that are gone.
    Synced(Result<Vec<u128>, AppError>),
    Bound(Result<ConnectionProfile, AppError>),
    Undone(Result<(), AppError>),
}

/// How a copy ends.
pub type ConnectionCopyEnd = Result<ConnectionProfile, AppError>;

/// A step of a copy.
pub type ConnectionCopyStep = Step<ConnectionCopy, ConnectionCopyRequest, ConnectionCopyEnd>;

/// What follows an answer in a copy.
pub type ConnectionCopyTurn = Turn<ConnectionCopy, ConnectionCopyRequest, ConnectionCopyEnd>;

/// The end of a copy that failed.
pub open spec fn failed(error: AppError) -> (Seq<Effect>, ConnectionCopyTurn) {
    (Seq::empty(), Turn::Done(Err(error)))
}

/// A question without effects.
pub open spec fn asked(state: ConnectionCopy, request: ConnectionCopyRequest) -> (
    Seq<Effect>,
    ConnectionCopyTurn,
) {
    (Seq::empty(), Turn::Ask { state, request })
}

/// What follows once the connection was loaded.
pub open spec fn after_source(
    request: WorkspaceConnectionCopyRequest,
    reply: Result<ConnectionProfile, AppError>,
) -> (Seq<Effect>, ConnectionCopyTurn) {
    match reply {
        Err(error) => failed(error),
        Ok(source) => if source.workspace_access != WorkspaceConnectionAccess::Local {
            failed(
                AppError::Config(
                    Text::Plain("only a local connection can be copied into a workspace"),
                ),
            )
        } else {
            asked(
                ConnectionCopy::Workspaces { request, source },
                ConnectionCopyRequest::ListWorkspaces,
            )
        },
    }
}

fn take_source(
    request: WorkspaceConnectionCopyRequest,
    reply: Result<ConnectionProfile, AppError>,
) -> (r: ConnectionCopyStep)
    ensures
        r.says(after_source(request, reply)),
{
    match reply {
        Err(error) => done(Err(error)),
        Ok(source) => {
            if source.workspace_access != WorkspaceConnectionAccess::Local {
                done(
                    Err(
                        AppError::Config(
                            Text::Plain("only a local connection can be copied into a workspace"),
                        ),
                    ),
                )
            } else {
                ask(
                    ConnectionCopy::Workspaces { request, source },
                    ConnectionCopyRequest::ListWorkspaces,
                )
            }
        },
    }
}

/// What follows once the workspaces were listed.
pub open spec fn after_workspaces(
    request: WorkspaceConnectionCopyRequest,
    source: ConnectionProfile,
    reply: Result<Vec<Workspace>, AppError>,
) -> (Seq<Effect>, ConnectionCopyTurn) {
    match reply {
        Err(error) => failed(error),
        Ok(workspaces) => if lists_team(workspaces@, request.workspace_id) {
            asked(
                ConnectionCopy::Selected { request, source },
                ConnectionCopyRequest::LoadSelection,
            )
        } else {
            failed(AppError::NotFound(Text::WithId("team workspace ", request.workspace_id, "")))
        },
    }
}

fn take_workspaces(
    request: WorkspaceConnectionCopyRequest,
    source: ConnectionProfile,
    reply: Result<Vec<Workspace>, AppError>,
) -> (r: ConnectionCopyStep)
    ensures
        r.says(after_workspaces(request, source, reply)),
{
    match reply {
        Err(error) => done(Err(error)),
        Ok(workspaces) => {
            if has_team(&workspaces, request.workspace_id) {
                ask(
                    ConnectionCopy::Selected { request, source },
                    ConnectionCopyRequest::LoadSelection,
                )
            } else {
                done(
                    Err(
                        AppError::NotFound(
                            Text::WithId("team workspace ", request.workspace_id, ""),
                        ),
                    ),
                )
            }
        },
    }
}

/// Whether the copy would go where the selection already is.
pub open spec fn is_selected(
    request: WorkspaceConnectionCopyRequest,
    selection: Selection,
) -> bool {
    &&& selection.workspace_id == request.workspace_id
    &&& selection.account_user_id is Some
    &&& selection.account_user_id->0@ == request.account_user_id@
}

/// What follows once the selection was looked up.
pub open spec fn after_selected(
    request: WorkspaceConnectionCopyRequest,
    source: ConnectionProfile,
    reply: Result<Selection, AppError>,
) -> (Seq<Effect>, ConnectionCopyTurn) {
    match reply {
        Err(error) => failed(error),
        Ok(selection) => if is_selected(request, selection) {
            failed(AppError::Config(Text::Plain("choose a different team workspace")))
        } else {
            asked(
                ConnectionCopy::Accounts { request, source },
                ConnectionCopyRequest::ListAccounts,
            )
        },
    }
}

fn take_selected(
    request: WorkspaceConnectionCopyRequest,
    source: ConnectionProfile,
    reply: Result<Selection, AppError>,
) -> (r: ConnectionCopyStep)
    ensures
        r.says(after_selected(request, source, reply)),
{
    match reply {
        Err(error) => done(Err(error)),
        Ok(selection) => {
            let same_account = match &selection.account_user_id {
                Some(id) => same_text(id.as_str(), request.account_user_id.as_str()),
                None => false,
            };
            if selection.workspace_id == request.workspace_id && same_account {
                done(Err(AppError::Config(Text::Plain("choose a different team workspace"))))
            } else {
                ask(
                    ConnectionCopy::Accounts { request, source },
                    ConnectionCopyRequest::ListAccounts,
                )
            }
        },
    }
}

/// What follows once the accounts were listed.
pub open spec fn after_accounts(
    request: WorkspaceConnectionCopyRequest,
    source: ConnectionProfile,
    reply: Result<Vec<WorkspaceAuthAccount>, AppError>,
) -> (Seq<Effect>, ConnectionCopyTurn) {
    match reply {
        Err(error) => failed(error),
        Ok(accounts) => if !account_belongs(
            accounts@,
            request.account_user_id@,
            request.workspace_id,
        ) {
            failed(
                AppError::NotFound(
                    Text::IdThenText(
                        "workspace ",
                        request.workspace_id,
                        " for account ",
                        request.account_user_id,
                    ),
                ),
            )
        } else if source.secret_ref is Some {
            asked(
                ConnectionCopy::Secret { request, source },
                ConnectionCopyRequest::FetchSecret { secret_ref: source.secret_ref->0 },
            )
        } else {
            asked(
                ConnectionCopy::Remote { request, source, secret: None },
                ConnectionCopyRequest::FetchRemote {
                    account_user_id: request.account_user_id,
                    workspace_id: request.workspace_id,
                },
            )
        },
    }
}

fn take_accounts(
    request: WorkspaceConnectionCopyRequest,
    source: ConnectionProfile,
    reply: Result<Vec<WorkspaceAuthAccount>, AppError>,
) -> (r: ConnectionCopyStep)
    ensures
        r.says(after_accounts(request, source, reply)),
{
    match reply {
        Err(error) => done(Err(error)),
        Ok(accounts) => {
            let workspace_id = request.workspace_id;
            if !has_membership(&accounts, request.account_user_id.as_str(), workspace_id) {
                return done(
                    Err(
                        AppError::NotFound(
                            Text::IdThenText(
                                "workspace ",
                                workspace_id,
                                " for account ",
                                request.account_user_id,
                            ),
                        ),
                    ),
                );
            }
            match source.secret_ref.clone() {
                Some(secret_ref) => ask(
                    ConnectionCopy::Secret { request, source },
                    ConnectionCopyRequest::FetchSecret { secret_ref },
                ),
                None => {
                    let question = ConnectionCopyRequest::FetchRemote {
                        account_user_id: request.account_user_id.clone(),
                        workspace_id,
                    };
                    ask(ConnectionCopy::Remote { request, source, secret: None }, question)
                },
            }
        },
    }
}

/// What follows once the credential was read.
pub open spec fn after_secret(
    request: WorkspaceConnectionCopyRequest,
    source: ConnectionProfile,
    reply: Result<String, AppError>,
) -> (Seq<Effect>, ConnectionCopyTurn) {
    match reply {
        Err(error) => failed(error),
        Ok(secret) => asked(
            ConnectionCopy::Remote { request, source, secret: Some(secret) },
            ConnectionCopyRequest::FetchRemote {
                account_user_id: request.account_user_id,
                workspace_id: request.workspace_id,
            },
        ),
    }
}

fn take_secret(
    request: WorkspaceConnectionCopyRequest,
    source: ConnectionProfile,
    reply: Result<String, AppError>,
) -> (r: ConnectionCopyStep)
    ensures
        r.says(after_secret(request, source, reply)),
{
    match reply {
        Err(error) => done(Err(error)),
        Ok(secret) => {
            let question = ConnectionCopyRequest::FetchRemote {
                account_user_id: request.account_user_id.clone(),
                workspace_id: request.workspace_id,
            };
            ask(ConnectionCopy::Remote { request, source, secret: Some(secret) }, question)
        },
    }
}

/// The request to share the connection to be copied.
pub open spec fn sharing(
    request: WorkspaceConnectionCopyRequest,
    source: ConnectionProfile,
) -> ConnectionCopyRequest {
    ConnectionCopyRequest::Share {
        account_user_id: request.account_user_id,
        workspace_id: request.workspace_id,
        template: shared_part(source),
    }
}

fn ask_to_share(
    request: &WorkspaceConnectionCopyRequest,
    source: &ConnectionProfile,
) -> (r: ConnectionCopyRequest)
    ensures
        r == sharing(*request, *source),
{
    ConnectionCopyRequest::Share {
        account_user_id: request.account_user_id.clone(),
        workspace_id: request.workspace_id,
        template: share_request(source),
    }
}

/// What follows once the shared templates were fetched.
pub open spec fn after_remote(
    request: WorkspaceConnectionCopyRequest,
    source: ConnectionProfile,
    secret: Option<String>,
    remote: Result<Option<Vec<(ConnectionProfile, i64)>>, AppError>,
    fresh_id: u128,
) -> (Seq<Effect>, ConnectionCopyTurn) {
    match remote {
        Err(error) => failed(error),
        Ok(None) => failed(
            AppError::Network(
                Text::Plain("the workspace service has not deployed shared connections yet"),
            ),
        ),
        Ok(Some(remote)) => match secret {
            Some(secret) => asked(
                ConnectionCopy::Stored { request, source, remote, credential_id: fresh_id },
                ConnectionCopyRequest::StoreSecret { credential_id: fresh_id, secret },
            ),
            None => asked(
                ConnectionCopy::Shared { request, source, remote, credential: None },
                sharing(request, source),
            ),
        },
    }
}

fn take_remote(
    request: WorkspaceConnectionCopyRequest,
    source: ConnectionProfile,
    secret: Option<String>,
    remote: Result<Option<Vec<(ConnectionProfile, i64)>>, AppError>,
    fresh_id: u128,
) -> (r: ConnectionCopyStep)
    ensures
        r.says(after_remote(request, source, secret, remote, fresh_id)),
{
    match remote {
        Err(error) => done(Err(error)),
        Ok(None) => done(
            Err(
                AppError::Network(
                    Text::Plain("the workspace service has not deployed shared connections yet"),
                ),
            ),
        ),
        Ok(Some(remote)) => match secret {
            Some(secret) => ask(
                ConnectionCopy::Stored { request, source, remote, credential_id: fresh_id },
                ConnectionCopyRequest::StoreSecret { credential_id: fresh_id, secret },
            ),
            None => {
                let question = ask_to_share(&request, &source);
                ask(ConnectionCopy::Shared { request, source, remote, credential: None }, question)
            },
        },
    }
}

/// What follows once the credential was stored.
pub open spec fn after_stored(
    request: WorkspaceConnectionCopyRequest,
    source: ConnectionProfile,
    remote: Vec<(ConnectionProfile, i64)>,
    credential_id: u128,
    reply: Result<(), AppError>,
) -> (Seq<Effect>, ConnectionCopyTurn) {
    match reply {
        Err(error) => failed(error),
        Ok(_) => asked(
            ConnectionCopy::Shared { request, source, remote, credential: Some(credential_id) },
            sharing(request, source),
        ),
    }
}

fn take_stored(
    request: WorkspaceConnectionCopyRequest,
    source: ConnectionProfile,
    remote: Vec<(ConnectionProfile, i64)>,
    credential_id: u128,
    reply: Result<(), AppError>,
) -> (r: ConnectionCopyStep)
    ensures
        r.says(after_stored(request, source, remote, credential_id, reply)),
{
    match reply {
        Err(error) => done(Err(error)),
        Ok(_) => {
            let question = ask_to_share(&request, &source);
            ask(
                ConnectionCopy::Shared { request, source, remote, credential: Some(credential_id) },
                question,
            )
        },
    }
}

/// The copied credential, if there is one, is let go.
pub open spec fn forget(credential: Option<u128>, action: &'static str) -> Seq<Effect> {
    match credential {
        Some(credential_id) => seq![Effect::DeleteSecret { credential_id, action }],
        None => Seq::empty(),
    }
}

fn forget_credential(credential: Option<u128>, action: &'static str) -> (r: Vec<Effect>)
    ensures
        r@ == forget(credential, action),
{
    let mut effects: Vec<Effect> = Vec::new();
    if let Some(credential_id) = credential {
        effects.push(Effect::DeleteSecret { credential_id, action });
    }
    assert(effects@ =~= forget(credential, action));
    effects
}

/// Some list of the templates fetched and, behind them, the one created.
pub open spec fn with_created(
    fetched: Vec<(ConnectionProfile, i64)>,
    created: CreatedTemplate,
) -> Vec<(ConnectionProfile, i64)> {
    choose|templates: Vec<(ConnectionProfile, i64)>| #[trigger]
        templates@ == fetched@.push((created.profile, created.revision))
}

/// What follows once the server created the template, or did not.
pub open spec fn after_shared(
    request: WorkspaceConnectionCopyRequest,
    source: ConnectionProfile,
    remote: Vec<(ConnectionProfile, i64)>,
    credential: Option<u128>,
    reply: Result<CreatedTemplate, AppError>,
) -> (Seq<Effect>, ConnectionCopyTurn) {
    match reply {
        Err(error) => (forget(credential, "share_connection"), Turn::Done(Err(error))),
        Ok(created) => asked(
            ConnectionCopy::Synced { request, source, credential, created_id: created.profile.id },
            ConnectionCopyRequest::SyncRemote {
                account_user_id: request.account_user_id,
                workspace_id: request.workspace_id,
                templates: with_created(remote, created),
            },
        ),
    }
}

/// Whether `step` is what follows once the server created the template, or did not: of the list
/// that is handed out it matters what is in it.
pub open spec fn is_shared_step(
    request: WorkspaceConnectionCopyRequest,
    source: ConnectionProfile,
    remote: Vec<(ConnectionProfile, i64)>,
    credential: Option<u128>,
    reply: Result<CreatedTemplate, AppError>,
    step: ConnectionCopyStep,
) -> bool {
    match reply {
        Err(_) => step.says(after_shared(request, source, remote, credential, reply)),
        Ok(created) => {
            &&& step.effects@ == Seq::<Effect>::empty()
            &&& step.turn matches Turn::Ask {
                state,
                request: ConnectionCopyRequest::SyncRemote {
                    account_user_id,
                    workspace_id,
                    templates,
                },
            }
            &&& state == (ConnectionCopy::Synced {
                request,
                source,
                credential,
                created_id: created.profile.id,
            })
            &&& account_user_id == request.account_user_id
            &&& workspace_id == request.workspace_id
            &&& templates@ == remote@.push((created.profile, created.revision))
        },
    }
}

fn take_shared(
    request: WorkspaceConnectionCopyRequest,
    source: ConnectionProfile,
    remote: Vec<(ConnectionProfile, i64)>,
    credential: Option<u128>,
    reply: Result<CreatedTemplate, AppError>,
) -> (r: ConnectionCopyStep)
    ensures
        is_shared_step(request, source, remote, credential, reply, r),
{
    match reply {
        Err(error) => Step {
            effects: forget_credential(credential, "share_connection"),
            turn: Turn::Done(Err(error)),
        },
        Ok(created) => {
            let created_id = created.profile.id;
            let mut templates = remote;
            templates.push((created.profile, created.revision));
            let question = ConnectionCopyRequest::SyncRemote {
                account_user_id: request.account_user_id.clone(),
                workspace_id: request.workspace_id,
                templates,
            };
            ask(ConnectionCopy::Synced { request, source, credential, created_id }, question)
        },
    }
}

/// What follows once the template exists on the server but the copy cannot be completed:
/// the credential is let go and the server is asked to delete the template.
pub open spec fn taking_back(
    request: WorkspaceConnectionCopyRequest,
    credential: Option<u128>,
    created_id: u128,
    error: AppError,
) -> (Seq<Effect>, ConnectionCopyTurn) {
    (
        forget(credential, "persist_shared_connection"),
        Turn::Ask {
            state: ConnectionCopy::Undone {
                workspace_id: request.workspace_id,
                created_id,
                error,
            },
            request: ConnectionCopyRequest::DeleteRemote {
                account_user_id: request.account_user_id,
                workspace_id: request.workspace_id,
                connection_id: created_id,
            },
        },
    )
}

fn take_back(
    request: WorkspaceConnectionCopyRequest,
    credential: Option<u128>,
    created_id: u128,
    error: AppError,
) -> (r: ConnectionCopyStep)
    ensures
        r.says(taking_back(request, credential, created_id, error)),
{
    let workspace_id = request.workspace_id;
    Step {
        effects: forget_credential(credential, "persist_shared_connection"),
        turn: Turn::Ask {
            state: ConnectionCopy::Undone { workspace_id, created_id, error },
            request: ConnectionCopyRequest::DeleteRemote {
                account_user_id: request.account_user_id,
                workspace_id,
                connection_id: created_id,
            },
        },
    }
}

/// What follows once the local cache was brought in line.
pub open spec fn after_synced(
    request: WorkspaceConnectionCopyRequest,
    source: ConnectionProfile,
    credential: Option<u128>,
    created_id: u128,
    reply: Result<Vec<u128>, AppError>,
) -> (Seq<Effect>, ConnectionCopyTurn) {
    match reply {
        Err(error) => taking_back(request, credential, created_id, error),
        Ok(removed) => (
            forgotten(removed@),
            Turn::Ask {
                state: ConnectionCopy::Bound { request, credential, created_id },
                request: ConnectionCopyRequest::Bind {
                    connection_id: created_id,
                    account_user_id: request.account_user_id,
                    username: source.username,
                    extra_params: source.extra_params,
                    credential,
                },
            },
        ),
    }
}

/// One effect for each credential that has no template any more.
pub open spec fn forgotten(removed: Seq<u128>) -> Seq<Effect> {
    Seq::new(
        removed.len(),
        |i: int|
            Effect::DeleteSecret {
                credential_id: removed[i],
                action: "remove_remote_connection",
            },
    )
}

/// Computes [`forgotten`].
pub fn forget_removed(removed: &Vec<u128>) -> (r: Vec<Effect>)
    ensures
        r@ == forgotten(removed@),
{
    let mut effects: Vec<Effect> = Vec::new();
    let mut i: usize = 0;
    while i < removed.len()
        invariant
            i <= removed@.len(),
            effects@ == Seq::new(
                i as nat,
                |k: int|
                    Effect::DeleteSecret {
                        credential_id: removed@[k],
                        action: "remove_remote_connection",
                    },
            ),
        decreases removed@.len() - i,
    {
        effects.push(
            Effect::DeleteSecret { credential_id: removed[i], action: "remove_remote_connection" },
        );
        i = i + 1;
        assert(effects@ =~= Seq::new(
            i as nat,
            |k: int|
                Effect::DeleteSecret {
                    credential_id: removed@[k],
                    action: "remove_remote_connection",
                },
        ));
    }
    effects
}

fn take_synced(
    request: WorkspaceConnectionCopyRequest,
    source: ConnectionProfile,
    credential: Option<u128>,
    created_id: u128,
    reply: Result<Vec<u128>, AppError>,
) -> (r: ConnectionCopyStep)
    ensures
        r.says(after_synced(request, source, credential, created_id, reply)),
{
    match reply {
        Err(error) => take_back(request, credential, created_id, error),
        Ok(removed) => {
            let question = ConnectionCopyRequest::Bind {
                connection_id: created_id,
                account_user_id: request.account_user_id.clone(),
                username: source.username,
                extra_params: source.extra_params,
                credential,
            };
            Step {
                effects: forget_removed(&removed),
                turn: Turn::Ask {
                    state: ConnectionCopy::Bound { request, credential, created_id },
                    request: question,
                },
            }
        },
    }
}

/// What follows once the credential was bound.
pub open spec fn after_bound(
    request: WorkspaceConnectionCopyRequest,
    credential: Option<u128>,
    created_id: u128,
    reply: Result<ConnectionProfile, AppError>,
) -> (Seq<Effect>, ConnectionCopyTurn) {
    match reply {
        Err(error) => taking_back(request, credential, created_id, error),
        Ok(profile) => (Seq::empty(), Turn::Done(Ok(profile))),
    }
}

fn take_bound(
    request: WorkspaceConnectionCopyRequest,
    credential: Option<u128>,
    created_id: u128,
    reply: Result<ConnectionProfile, AppError>,
) -> (r: ConnectionCopyStep)
    ensures
        r.says(after_bound(request, credential, created_id, reply)),
{
    match reply {
        Err(error) => take_back(request, credential, created_id, error),
        Ok(profile) => done(Ok(profile)),
    }
}

/// What follows once the server deleted the template, or did not: the copy has failed, and
/// the cached row goes only if the template is gone.
pub open spec fn after_undone(
    workspace_id: u128,
    created_id: u128,
    error: AppError,
    reply: Result<(), AppError>,
) -> (Seq<Effect>, ConnectionCopyTurn) {
    (
        match reply {
            Ok(_) => seq![
                Effect::PurgeRemoteConnection { workspace_id, connection_id: created_id },
            ],
            Err(_) => Seq::empty(),
        },
        Turn::Done(Err(error)),
    )
}

fn take_undone(
    workspace_id: u128,
    created_id: u128,
    error: AppError,
    reply: Result<(), AppError>,
) -> (r: ConnectionCopyStep)
    ensures
        r.says(after_undone(workspace_id, created_id, error, reply)),
{
    let mut effects: Vec<Effect> = Vec::new();
    if reply.is_ok() {
        effects.push(Effect::PurgeRemoteConnection { workspace_id, connection_id: created_id });
    }
    assert(effects@ =~= after_undone(workspace_id, created_id, error, reply).0);
    Step { effects, turn: Turn::Done(Err(error)) }
}

impl ConnectionCopy {
    /// Whether `reply` answers what is awaited.
    pub open spec fn awaits(self, reply: ConnectionCopyReply) -> bool {
        match self {
            ConnectionCopy::Source { .. } => reply is Source,
            ConnectionCopy::Workspaces { .. } => reply is Workspaces,
            ConnectionCopy::Selected { .. } => reply is Selected,
            ConnectionCopy::Accounts { .. } => reply is Accounts,
            ConnectionCopy::Secret { .. } => reply is Secret,
            ConnectionCopy::Remote { .. } => reply is Remote,
            ConnectionCopy::Stored { .. } => reply is Stored,
            ConnectionCopy::Shared { .. } => reply is Shared,
            ConnectionCopy::Synced { .. } => reply is Synced,
            ConnectionCopy::Bound { .. } => reply is Bound,
            ConnectionCopy::Undone { .. } => reply is Undone,
        }
    }

    /// The effects and the turn that follow `reply`.
    pub open spec fn after(self, reply: ConnectionCopyReply) -> (Seq<Effect>, ConnectionCopyTurn) {
        match self {
            ConnectionCopy::Source { request } => after_source(request, reply->Source_0),
            ConnectionCopy::Workspaces { request, source } => after_workspaces(
                request,
                source,
                reply->Workspaces_0,
            ),
            ConnectionCopy::Selected { request, source } => after_selected(
                request,
                source,
                reply->Selected_0,
            ),
            ConnectionCopy::Accounts { request, source } => after_accounts(
                request,
                source,
                reply->Accounts_0,
            ),
            ConnectionCopy::Secret { request, source } => after_secret(
                request,
                source,
                reply->Secret_0,
            ),
            ConnectionCopy::Remote { request, source, secret } => after_remote(
                request,
                source,
                secret,
                reply->remote,
                reply->fresh_id,
            ),
            ConnectionCopy::Stored { request, source, remote, credential_id } => after_stored(
                request,
                source,
                remote,
                credential_id,
                reply->Stored_0,
            ),
            ConnectionCopy::Shared { request, source, remote, credential } => after_shared(
                request,
                source,
                remote,
                credential,
                reply->Shared_0,
            ),
            ConnectionCopy::Synced { request, source, credential, created_id } => after_synced(
                request,
                source,
                credential,
                created_id,
                reply->Synced_0,
            ),
            ConnectionCopy::Bound { request, credential, created_id } => after_bound(
                request,
                credential,
                created_id,
                reply->Bound_0,
            ),
            ConnectionCopy::Undone { workspace_id, created_id, error } => after_undone(
                workspace_id,
                created_id,
                error,
                reply->Undone_0,
            ),
        }
    }

    /// Whether `step` is what follows `reply`.
    pub open spec fn follows(self, reply: ConnectionCopyReply, step: ConnectionCopyStep) -> bool {
        match self {
            ConnectionCopy::Shared { request, source, remote, credential } => is_shared_step(
                request,
                source,
                remote,
                credential,
                reply->Shared_0,
                step,
            ),
            _ => step.says(self.after(reply)),
        }
    }

    /// Begins a copy.
    pub fn start(request: WorkspaceConnectionCopyRequest) -> (r: ConnectionCopyStep)
        ensures
            r.says(
                asked(
                    ConnectionCopy::Source { request },
                    ConnectionCopyRequest::LoadConnection {
                        connection_id: request.connection_id,
                    },
                ),
            ),
    {
        let connection_id = request.connection_id;
        ask(
            ConnectionCopy::Source { request },
            ConnectionCopyRequest::LoadConnection { connection_id },
        )
    }

    /// Takes the answer to the last question.
    pub fn advance(self, reply: ConnectionCopyReply) -> (r: ConnectionCopyStep)
        requires
            self.awaits(reply),
        ensures
            self.follows(reply, r),
    {
        match (self, reply) {
            (
                ConnectionCopy::Source { request },
                ConnectionCopyReply::Source(reply),
            ) => take_source(request, reply),
            (
                ConnectionCopy::Workspaces { request, source },
                ConnectionCopyReply::Workspaces(reply),
            ) => take_workspaces(request, source, reply),
            (
                ConnectionCopy::Selected { request, source },
                ConnectionCopyReply::Selected(reply),
            ) => take_selected(request, source, reply),
            (
                ConnectionCopy::Accounts { request, source },
                ConnectionCopyReply::Accounts(reply),
            ) => take_accounts(request, source, reply),
            (
                ConnectionCopy::Secret { request, source },
                ConnectionCopyReply::Secret(reply),
            ) => take_secret(request, source, reply),
            (
                ConnectionCopy::Remote { request, source, secret },
                ConnectionCopyReply::Remote { remote, fresh_id },
            ) => take_remote(request, source, secret, remote, fresh_id),
            (
                ConnectionCopy::Stored { request, source, remote, credential_id },
                ConnectionCopyReply::Stored(reply),
            ) => take_stored(request, source, remote, credential_id, reply),
            (
                ConnectionCopy::Shared { request, source, remote, credential },
                ConnectionCopyReply::Shared(reply),
            ) => take_shared(request, source, remote, credential, reply),
            (
                ConnectionCopy::Synced { request, source, credential, created_id },
                ConnectionCopyReply::Synced(reply),
            ) => take_synced(request, source, credential, created_id, reply),
            (
                ConnectionCopy::Bound { request, credential, created_id },
                ConnectionCopyReply::Bound(reply),
            ) => take_bound(request, credential, created_id, reply),
            (
                ConnectionCopy::Undone { workspace_id, created_id, error },
                ConnectionCopyReply::Undone(reply),
            ) => take_undone(workspace_id, created_id, error, reply),
            _ => unreached(),
        }
    }
}

/// What a step of a copy does, and where it leads, is what [`ConnectionCopy::after`] says.
pub proof fn steps_lead_where_they_say(
    state: ConnectionCopy,
    reply: ConnectionCopyReply,
    step: ConnectionCopyStep,
)
    requires
        state.awaits(reply),
        state.follows(reply, step),
    ensures
        step.effects@ == state.after(reply).0,
        match (step.turn, state.after(reply).1) {
            (Turn::Ask { state: reached, .. }, Turn::Ask { state: said, .. }) => reached == said,
            (Turn::Done(end), Turn::Done(said)) => end == said,
            _ => false,
        },
{
}

/// Where a copy stands after these answers, if it is still going on and every one of them
/// answered what was asked.
pub open spec fn state_after(
    request: WorkspaceConnectionCopyRequest,
    replies: Seq<ConnectionCopyReply>,
) -> Option<ConnectionCopy>
    decreases replies.len(),
{
    if replies.len() == 0 {
        Some(ConnectionCopy::Source { request })
    } else {
        match state_after(request, replies.drop_last()) {
            None => None,
            Some(state) => if state.awaits(replies.last()) {
                match state.after(replies.last()).1 {
                    Turn::Ask { state, .. } => Some(state),
                    Turn::Done(_) => None,
                }
            } else {
                None
            },
        }
    }
}

/// Whether the answers so far say that the connection is local, that the team is listed,
/// that it is not selected already, and that the account belongs to it.
pub open spec fn admitted(
    request: WorkspaceConnectionCopyRequest,
    replies: Seq<ConnectionCopyReply>,
    source: ConnectionProfile,
) -> bool {
    &&& replies.len() >= 4
    &&& replies[0] == ConnectionCopyReply::Source(Ok(source))
    &&& source.workspace_access == WorkspaceConnectionAccess::Local
    &&& replies[1] matches ConnectionCopyReply::Workspaces(Ok(workspaces))
    &&& lists_team(workspaces@, request.workspace_id)
    &&& replies[2] matches ConnectionCopyReply::Selected(Ok(selection))
    &&& !is_selected(request, selection)
    &&& replies[3] matches ConnectionCopyReply::Accounts(Ok(accounts))
    &&& account_belongs(accounts@, request.account_user_id@, request.workspace_id)
}

/// What the answers must have been for a copy to stand where it stands.
pub open spec fn explained(
    request: WorkspaceConnectionCopyRequest,
    replies: Seq<ConnectionCopyReply>,
    state: ConnectionCopy,
) -> bool {
    match state {
        ConnectionCopy::Source { request: asked } => asked == request && replies.len() == 0,
        ConnectionCopy::Workspaces { request: asked, source } => {
            &&& asked == request && replies.len() == 1
            &&& replies[0] == ConnectionCopyReply::Source(Ok(source))
            &&& source.workspace_access == WorkspaceConnectionAccess::Local
        },
        ConnectionCopy::Selected { request: asked, source } => {
            &&& asked == request && replies.len() == 2
            &&& replies[0] == ConnectionCopyReply::Source(Ok(source))
            &&& source.workspace_access == WorkspaceConnectionAccess::Local
            &&& replies[1] matches ConnectionCopyReply::Workspaces(Ok(workspaces))
            &&& lists_team(workspaces@, request.workspace_id)
        },
        ConnectionCopy::Accounts { request: asked, source } => {
            &&& asked == request && replies.len() == 3
            &&& replies[0] == ConnectionCopyReply::Source(Ok(source))
            &&& source.workspace_access == WorkspaceConnectionAccess::Local
            &&& replies[1] matches ConnectionCopyReply::Workspaces(Ok(workspaces))
            &&& lists_team(workspaces@, request.workspace_id)
            &&& replies[2] matches ConnectionCopyReply::Selected(Ok(selection))
            &&& !is_selected(request, selection)
        },
        ConnectionCopy::Secret { request: asked, source } => {
            asked == request && admitted(request, replies, source) && source.secret_ref is Some
        },
        ConnectionCopy::Remote { request: asked, source, secret } => {
            &&& asked == request && admitted(request, replies, source)
            &&& secret is Some == source.secret_ref is Some
        },
        ConnectionCopy::Stored { request: asked, source, .. } => {
            asked == request && admitted(request, replies, source) && source.secret_ref is Some
        },
        ConnectionCopy::Shared { request: asked, source, credential, .. } => {
            &&& asked == request && admitted(request, replies, source)
            &&& credential is Some == source.secret_ref is Some
        },
        ConnectionCopy::Synced { request: asked, source, .. } => {
            asked == request && admitted(request, replies, source)
        },
        ConnectionCopy::Bound { request: asked, .. } => {
            &&& asked == request && replies.len() >= 4
            &&& replies[0] matches ConnectionCopyReply::Source(Ok(source))
            &&& admitted(request, replies, source)
        },
        ConnectionCopy::Undone { workspace_id, .. } => workspace_id == request.workspace_id,
    }
}

/// A copy stands nowhere that its answers do not explain. In particular the server is asked
/// to create a template only for a local connection, for an account that belongs to a team
/// which is not selected already, and with the credential, if there is one, already copied.
pub proof fn every_state_is_explained(
    request: WorkspaceConnectionCopyRequest,
    replies: Seq<ConnectionCopyReply>,
)
    ensures
        state_after(request, replies) matches Some(state) ==> explained(request, replies, state),
    decreases replies.len(),
{
    if replies.len() > 0 {
        let earlier = replies.drop_last();
        every_state_is_explained(request, earlier);
        assert(forall|k: int| 0 <= k < earlier.len() ==> earlier[k] == replies[k]);
        match state_after(request, earlier) {
            None => {},
            Some(before) => {
                assert(explained(request, earlier, before));
            },
        }
    }
}

/// A copy that fails leaves no copied credential behind: once the credential was stored,
/// every turn that leads to a failure lets it go.
pub proof fn a_failed_copy_keeps_no_credential(
    state: ConnectionCopy,
    reply: ConnectionCopyReply,
    credential_id: u128,
)
    requires
        state.awaits(reply),
        match state {
            ConnectionCopy::Shared { credential, .. } => credential == Some(credential_id)
                && reply->Shared_0 is Err,
            ConnectionCopy::Synced { credential, .. } => credential == Some(credential_id)
                && reply->Synced_0 is Err,
            ConnectionCopy::Bound { credential, .. } => credential == Some(credential_id)
                && reply->Bound_0 is Err,
            _ => false,
        },
    ensures
        state.after(reply).0.len() == 1,
        state.after(reply).0[0] matches Effect::DeleteSecret { credential_id: id, .. } && id
            == credential_id,
{
}

/// A template that the server created is taken back if the copy cannot be completed.
pub proof fn a_failed_copy_is_taken_back(state: ConnectionCopy, reply: ConnectionCopyReply)
    requires
        state.awaits(reply),
        match state {
            ConnectionCopy::Synced { .. } => reply->Synced_0 is Err,
            ConnectionCopy::Bound { .. } => reply->Bound_0 is Err,
            _ => false,
        },
    ensures
        state.after(reply).1 matches Turn::Ask {
            request: ConnectionCopyRequest::DeleteRemote { connection_id, .. },
            ..
        } && connection_id == match state {
            ConnectionCopy::Synced { created_id, .. } => created_id,
            ConnectionCopy::Bound { created_id, .. } => created_id,
            _ => 0,
        },
{
}

} // verus!
