//! Keeping the local copy of memberships and shared connections up to date, and choosing
//! a workspace or an account.
use vstd::pervasive::unreached;
use vstd::prelude::*;

use crate::error::AppError;
use crate::model::{
    ConnectionProfile, Workspace, WorkspaceAuthUser, WorkspaceKind, WorkspaceRole,
};
use crate::services::effects::{ask, done, Effect, Step, Turn};
use crate::services::workspace::copy::{forget_removed, forgotten};
use crate::text::{same_text, Text};

verus! {

/// Where a synchronization of shared connections stands.
#[derive(PartialEq, Eq)]
pub enum ConnectionSync {
    Fetched { workspace_id: u128, account_user_id: String },
    Stored,
}

/// What a synchronization of shared connections asks of the outside world.
#[derive(PartialEq, Eq)]
pub enum ConnectionSyncRequest {
    /// Fetch the shared connections of the workspace as the account sees them.
    FetchRemote { workspace_id: u128, account_user_id: String },
    /// Replace the cached ones by these, and name the credentials that no longer serve.
    StoreRemote {
        workspace_id: u128,
        account_user_id: String,
        connections: Vec<(ConnectionProfile, i64)>,
    },
}

/// What the outside world answers.
#[derive(PartialEq, Eq)]
pub enum ConnectionSyncReply {
    /// Nothing, where the server does not share connections yet.
    Fetched(Result<Option<Vec<(ConnectionProfile, i64)>>, AppError>),
    Stored(Result<Vec<u128>, AppError>),
}

/// A step of synchronizing shared connections.
pub type ConnectionSyncStep = Step<ConnectionSync, ConnectionSyncRequest, Result<(), AppError>>;

/// What follows an answer while shared connections are synchronized.
pub type ConnectionSyncTurn = Turn<ConnectionSync, ConnectionSyncRequest, Result<(), AppError>>;

impl ConnectionSync {
    /// Whether `reply` answers what is awaited.
    pub open spec fn awaits(self, reply: ConnectionSyncReply) -> bool {
        match self {
            ConnectionSync::Fetched { .. } => reply is Fetched,
            ConnectionSync::Stored => reply is Stored,
        }
    }

    /// The effects and the turn that follow `reply`. Where the server cannot be asked, or
    /// does not share connections yet, the cache stays as it is and that is no error.
    pub open spec fn after(self, reply: ConnectionSyncReply) -> (Seq<Effect>, ConnectionSyncTurn) {
        match self {
            ConnectionSync::Fetched { workspace_id, account_user_id } => (
                Seq::empty(),
                match reply->Fetched_0 {
                    Ok(Some(connections)) => Turn::Ask {
                        state: ConnectionSync::Stored,
                        request: ConnectionSyncRequest::StoreRemote {
                            workspace_id,
                            account_user_id,
                            connections,
                        },
                    },
                    Ok(None) => Turn::Done(Ok(())),
                    Err(_) => Turn::Done(Ok(())),
                },
            ),
            ConnectionSync::Stored => match reply->Stored_0 {
                Err(error) => (Seq::empty(), Turn::Done(Err(error))),
                Ok(removed) => (forgotten(removed@), Turn::Done(Ok(()))),
            },
        }
    }

    /// Begins to synchronize the shared connections of a workspace.
    pub fn start(account_user_id: String, workspace_id: u128) -> (r: ConnectionSyncStep)
        ensures
            r.says(
                (
                    Seq::empty(),
                    Turn::Ask {
                        state: ConnectionSync::Fetched { workspace_id, account_user_id },
                        request: ConnectionSyncRequest::FetchRemote {
                            workspace_id,
                            account_user_id,
                        },
                    },
                ),
            ),
    {
        let asked = account_user_id.clone();
        ask(
            ConnectionSync::Fetched { workspace_id, account_user_id },
            ConnectionSyncRequest::FetchRemote { workspace_id, account_user_id: asked },
        )
    }

    /// Takes the answer to the last question.
    pub fn advance(self, reply: ConnectionSyncReply) -> (r: ConnectionSyncStep)
        requires
            self.awaits(reply),
        ensures
            r.says(self.after(reply)),
    {
        match (self, reply) {
            (
                ConnectionSync::Fetched { workspace_id, account_user_id },
                ConnectionSyncReply::Fetched(reply),
            ) => match reply {
                Ok(Some(connections)) => ask(
                    ConnectionSync::Stored,
                    ConnectionSyncRequest::StoreRemote {
                        workspace_id,
                        account_user_id,
                        connections,
                    },
                ),
                Ok(None) => done(Ok(())),
                Err(_) => done(Ok(())),
            },
            (ConnectionSync::Stored, ConnectionSyncReply::Stored(reply)) => match reply {
                Err(error) => done(Err(error)),
                Ok(removed) => Step { effects: forget_removed(&removed), turn: Turn::Done(Ok(())) },
            },
            _ => unreached(),
        }
    }
}

/// Where a synchronization of memberships stands.
#[derive(PartialEq, Eq)]
pub enum MembershipSync {
    Remembered { user: WorkspaceAuthUser },
    Fetched { user: WorkspaceAuthUser },
    Stored { user_id: String },
    ActiveWorkspace { user_id: String },
    ActiveAccount { user_id: String, workspace_id: u128 },
    Connections,
}

/// What a synchronization of memberships asks of the outside world.
#[derive(PartialEq, Eq)]
pub enum MembershipSyncRequest {
    /// Remember the account.
    RememberAccount { user: WorkspaceAuthUser },
    /// Fetch the workspaces that the account belongs to.
    FetchWorkspaces { user_id: String },
    /// Replace the account's memberships by these.
    StoreWorkspaces { user: WorkspaceAuthUser, workspaces: Vec<(u128, String, WorkspaceRole)> },
    /// Load the active workspace.
    LoadActiveWorkspace,
    /// Look up the active account.
    LoadActiveAccount,
    /// Synchronize the shared connections of the workspace.
    SyncConnections { account_user_id: String, workspace_id: u128 },
}

/// What the outside world answers.
#[derive(PartialEq, Eq)]
pub enum MembershipSyncReply {
    Remembered(Result<(), AppError>),
    Fetched(Result<Vec<(u128, String, WorkspaceRole)>, AppError>),
    Stored(Result<(), AppError>),
    ActiveWorkspace(Result<Workspace, AppError>),
    ActiveAccount(Result<Option<String>, AppError>),
    Connections(Result<(), AppError>),
}

/// A step of synchronizing memberships.
pub type MembershipSyncStep = Step<MembershipSync, MembershipSyncRequest, Result<(), AppError>>;

/// What follows an answer while memberships are synchronized.
pub type MembershipSyncTurn = Turn<MembershipSync, MembershipSyncRequest, Result<(), AppError>>;

impl MembershipSync {
    /// Whether `reply` answers what is awaited.
    pub open spec fn awaits(self, reply: MembershipSyncReply) -> bool {
        match self {
            MembershipSync::Remembered { .. } => reply is Remembered,
            MembershipSync::Fetched { .. } => reply is Fetched,
            MembershipSync::Stored { .. } => reply is Stored,
            MembershipSync::ActiveWorkspace { .. } => reply is ActiveWorkspace,
            MembershipSync::ActiveAccount { .. } => reply is ActiveAccount,
            MembershipSync::Connections => reply is Connections,
        }
    }

    /// The turn that follows `reply`. The shared connections follow only where the account
    /// is the active one and a team workspace is open.
    pub open spec fn after(self, reply: MembershipSyncReply) -> MembershipSyncTurn {
        match self {
            MembershipSync::Remembered { user } => match reply->Remembered_0 {
                Err(error) => Turn::Done(Err(error)),
                Ok(_) => Turn::Ask {
                    state: MembershipSync::Fetched { user },
                    request: MembershipSyncRequest::FetchWorkspaces { user_id: user.id },
                },
            },
            MembershipSync::Fetched { user } => match reply->Fetched_0 {
                Err(error) => Turn::Done(Err(error)),
                Ok(workspaces) => Turn::Ask {
                    state: MembershipSync::Stored { user_id: user.id },
                    request: MembershipSyncRequest::StoreWorkspaces { user, workspaces },
                },
            },
            MembershipSync::Stored { user_id } => match reply->Stored_0 {
                Err(error) => Turn::Done(Err(error)),
                Ok(_) => Turn::Ask {
                    state: MembershipSync::ActiveWorkspace { user_id },
                    request: MembershipSyncRequest::LoadActiveWorkspace,
                },
            },
            MembershipSync::ActiveWorkspace { user_id } => match reply->ActiveWorkspace_0 {
                Err(error) => Turn::Done(Err(error)),
                Ok(workspace) => if workspace.kind == WorkspaceKind::Team {
                    Turn::Ask {
                        state: MembershipSync::ActiveAccount {
                            user_id,
                            workspace_id: workspace.id,
                        },
                        request: MembershipSyncRequest::LoadActiveAccount,
                    }
                } else {
                    Turn::Done(Ok(()))
                },
            },
            MembershipSync::ActiveAccount { user_id, workspace_id } => match reply->ActiveAccount_0 {
                Err(error) => Turn::Done(Err(error)),
                Ok(active) => if active is Some && active->0@ == user_id@ {
                    Turn::Ask {
                        state: MembershipSync::Connections,
                        request: MembershipSyncRequest::SyncConnections {
                            account_user_id: user_id,
                            workspace_id,
                        },
                    }
                } else {
                    Turn::Done(Ok(()))
                },
            },
            MembershipSync::Connections => Turn::Done(reply->Connections_0),
        }
    }

    /// Begins to synchronize the memberships of a user.
    pub fn start(user: WorkspaceAuthUser) -> (r: MembershipSyncStep)
        ensures
            r.says(
                (
                    Seq::empty(),
                    Turn::Ask {
                        state: MembershipSync::Remembered { user },
                        request: MembershipSyncRequest::RememberAccount { user },
                    },
                ),
            ),
    {
        let remembered = user.duplicate();
        ask(
            MembershipSync::Remembered { user },
            MembershipSyncRequest::RememberAccount { user: remembered },
        )
    }

    /// Takes the answer to the last question.
    pub fn advance(self, reply: MembershipSyncReply) -> (r: MembershipSyncStep)
        requires
            self.awaits(reply),
        ensures
            r.says((Seq::empty(), self.after(reply))),
    {
        match (self, reply) {
            (MembershipSync::Remembered { user }, MembershipSyncReply::Remembered(reply)) =>
            match reply {
                Err(error) => done(Err(error)),
                Ok(_) => {
                    let user_id = user.id.clone();
                    ask(
                        MembershipSync::Fetched { user },
                        MembershipSyncRequest::FetchWorkspaces { user_id },
                    )
                },
            },
            (MembershipSync::Fetched { user }, MembershipSyncReply::Fetched(reply)) =>
            match reply {
                Err(error) => done(Err(error)),
                Ok(workspaces) => {
                    let user_id = user.id.clone();
                    ask(
                        MembershipSync::Stored { user_id },
                        MembershipSyncRequest::StoreWorkspaces { user, workspaces },
                    )
                },
            },
            (MembershipSync::Stored { user_id }, MembershipSyncReply::Stored(reply)) =>
            match reply {
                Err(error) => done(Err(error)),
                Ok(_) => ask(
                    MembershipSync::ActiveWorkspace { user_id },
                    MembershipSyncRequest::LoadActiveWorkspace,
                ),
            },
            (
                MembershipSync::ActiveWorkspace { user_id },
                MembershipSyncReply::ActiveWorkspace(reply),
            ) => match reply {
                Err(error) => done(Err(error)),
                Ok(workspace) => if workspace.kind == WorkspaceKind::Team {
                    ask(
                        MembershipSync::ActiveAccount { user_id, workspace_id: workspace.id },
                        MembershipSyncRequest::LoadActiveAccount,
                    )
                } else {
                    done(Ok(()))
                },
            },
            (
                MembershipSync::ActiveAccount { user_id, workspace_id },
                MembershipSyncReply::ActiveAccount(reply),
            ) => match reply {
                Err(error) => done(Err(error)),
                Ok(active) => {
                    let own = match &active {
                        Some(active) => same_text(active.as_str(), user_id.as_str()),
                        None => false,
                    };
                    if own {
                        ask(
                            MembershipSync::Connections,
                            MembershipSyncRequest::SyncConnections {
                                account_user_id: user_id,
                                workspace_id,
                            },
                        )
                    } else {
                        done(Ok(()))
                    }
                },
            },
            (MembershipSync::Connections, MembershipSyncReply::Connections(reply)) => done(reply),
            _ => unreached(),
        }
    }
}

/// The first workspace with this id.
pub open spec fn find_workspace(workspaces: Seq<Workspace>, id: u128) -> Option<Workspace>
    decreases workspaces.len(),
{
    if workspaces.len() == 0 {
        None
    } else if workspaces[0].id == id {
        Some(workspaces[0])
    } else {
        find_workspace(workspaces.drop_first(), id)
    }
}

/// Computes [`find_workspace`].
pub fn lookup_workspace(workspaces: &Vec<Workspace>, id: u128) -> (r: Option<Workspace>)
    ensures
        r == find_workspace(workspaces@, id),
{
    let mut i: usize = 0;
    assert(workspaces@.subrange(0, workspaces@.len() as int) =~= workspaces@);
    while i < workspaces.len()
        invariant
            i <= workspaces@.len(),
            find_workspace(workspaces@, id) == find_workspace(
                workspaces@.subrange(i as int, workspaces@.len() as int),
                id,
            ),
        decreases workspaces@.len() - i,
    {
        assert(workspaces@.subrange(i as int, workspaces@.len() as int).drop_first()
            =~= workspaces@.subrange(i + 1, workspaces@.len() as int));
        if workspaces[i].id == id {
            return Some(workspaces[i].duplicate());
        }
        i = i + 1;
    }
    None
}

/// Where choosing a workspace stands.
#[derive(PartialEq, Eq)]
pub enum Activation {
    Listed { id: u128, account_user_id: Option<String> },
    Validated { id: u128, user_id: String },
    Synced { id: u128, user_id: String },
    Activated { account_user_id: Option<String> },
    Connections { workspace: Workspace },
}

/// What choosing a workspace or an account asks of the outside world.
#[derive(PartialEq, Eq)]
pub enum ActivationRequest {
    /// List the workspaces.
    ListWorkspaces,
    /// Ask the server whether the account's session is valid.
    ValidateUser { user_id: String },
    /// Synchronize the memberships of this user.
    SyncMemberships { user: WorkspaceAuthUser },
    /// Make the workspace active, as this account.
    ActivateWorkspace { id: u128, account_user_id: Option<String> },
    /// Make the account active, in the workspace that it used last.
    ActivateAccount { user_id: String },
    /// Synchronize the shared connections of the workspace.
    SyncConnections { user_id: String, workspace_id: u128 },
}

/// What the outside world answers.
#[derive(PartialEq, Eq)]
pub enum ActivationReply {
    Listed(Result<Vec<Workspace>, AppError>),
    Validated(Result<WorkspaceAuthUser, AppError>),
    Synced(Result<(), AppError>),
    Activated(Result<Workspace, AppError>),
    Connections(Result<(), AppError>),
}

/// How choosing a workspace or an account ends.
pub type ActivationEnd = Result<Workspace, AppError>;

/// A step of choosing a workspace.
pub type ActivationStep = Step<Activation, ActivationRequest, ActivationEnd>;

/// What follows an answer while a workspace is chosen.
pub type ActivationTurn = Turn<Activation, ActivationRequest, ActivationEnd>;

/// A team workspace cannot be opened without an account.
pub open spec fn account_missing() -> AppError {
    AppError::Config(Text::Plain("team workspace selection requires an account"))
}

/// That a team workspace cannot be opened without an account.
fn say_account_missing() -> (r: AppError)
    ensures
        r == account_missing(),
{
    AppError::Config(Text::Plain("team workspace selection requires an account"))
}

impl Activation {
    /// Whether `reply` answers what is awaited.
    pub open spec fn awaits(self, reply: ActivationReply) -> bool {
        match self {
            Activation::Listed { .. } => reply is Listed,
            Activation::Validated { .. } => reply is Validated,
            Activation::Synced { .. } => reply is Synced,
            Activation::Activated { .. } => reply is Activated,
            Activation::Connections { .. } => reply is Connections,
        }
    }

    /// The turn in which the workspace is made active.
    pub open spec fn activating(id: u128, account_user_id: Option<String>) -> ActivationTurn {
        Turn::Ask {
            state: Activation::Activated { account_user_id },
            request: ActivationRequest::ActivateWorkspace { id, account_user_id },
        }
    }

    /// The turn that follows `reply`. A team workspace is opened only for an account whose
    /// session the server has just confirmed.
    pub open spec fn after(self, reply: ActivationReply) -> ActivationTurn {
        match self {
            Activation::Listed { id, account_user_id } => match reply->Listed_0 {
                Err(error) => Turn::Done(Err(error)),
                Ok(workspaces) => match find_workspace(workspaces@, id) {
                    None => Turn::Done(
                        Err(AppError::NotFound(Text::WithId("workspace ", id, ""))),
                    ),
                    Some(target) => if target.kind != WorkspaceKind::Team {
                        Self::activating(id, account_user_id)
                    } else {
                        match account_user_id {
                            None => Turn::Done(Err(account_missing())),
                            Some(user_id) => Turn::Ask {
                                state: Activation::Validated { id, user_id },
                                request: ActivationRequest::ValidateUser { user_id },
                            },
                        }
                    },
                },
            },
            Activation::Validated { id, user_id } => match reply->Validated_0 {
                Err(error) => Turn::Done(Err(error)),
                Ok(user) => Turn::Ask {
                    state: Activation::Synced { id, user_id },
                    request: ActivationRequest::SyncMemberships { user },
                },
            },
            Activation::Synced { id, user_id } => match reply->Synced_0 {
                Err(error) => Turn::Done(Err(error)),
                Ok(_) => Self::activating(id, Some(user_id)),
            },
            Activation::Activated { account_user_id } => match reply->Activated_0 {
                Err(error) => Turn::Done(Err(error)),
                Ok(workspace) => if workspace.kind != WorkspaceKind::Team {
                    Turn::Done(Ok(workspace))
                } else {
                    match account_user_id {
                        None => Turn::Done(Err(account_missing())),
                        Some(account_user_id) => Turn::Ask {
                            state: Activation::Connections { workspace },
                            request: ActivationRequest::SyncConnections {
                                user_id: account_user_id,
                                workspace_id: workspace.id,
                            },
                        },
                    }
                },
            },
            Activation::Connections { workspace } => Turn::Done(Ok(workspace)),
        }
    }

    /// Begins to choose a workspace, as this account.
    pub fn start(id: u128, account_user_id: Option<String>) -> (r: ActivationStep)
        ensures
            r.says(
                (
                    Seq::empty(),
                    Turn::Ask {
                        state: Activation::Listed { id, account_user_id },
                        request: ActivationRequest::ListWorkspaces,
                    },
                ),
            ),
    {
        ask(Activation::Listed { id, account_user_id }, ActivationRequest::ListWorkspaces)
    }

    fn activate(id: u128, account_user_id: Option<String>) -> (r: ActivationStep)
        ensures
            r.says((Seq::empty(), Self::activating(id, account_user_id))),
    {
        let asked = account_user_id.clone();
        ask(
            Activation::Activated { account_user_id },
            ActivationRequest::ActivateWorkspace { id, account_user_id: asked },
        )
    }

    fn take_listed(
        id: u128,
        account_user_id: Option<String>,
        reply: Result<Vec<Workspace>, AppError>,
    ) -> (r: ActivationStep)
        ensures
            r.says(
                (
                    Seq::empty(),
                    (Activation::Listed { id, account_user_id }).after(
                        ActivationReply::Listed(reply),
                    ),
                ),
            ),
    {
        match reply {
            Err(error) => done(Err(error)),
            Ok(workspaces) => match lookup_workspace(&workspaces, id) {
                None => done(Err(AppError::NotFound(Text::WithId("workspace ", id, "")))),
                Some(target) => if target.kind != WorkspaceKind::Team {
                    Self::activate(id, account_user_id)
                } else {
                    match account_user_id {
                        None => done(Err(say_account_missing())),
                        Some(user_id) => {
                            let asked = user_id.clone();
                            ask(
                                Activation::Validated { id, user_id },
                                ActivationRequest::ValidateUser { user_id: asked },
                            )
                        },
                    }
                },
            },
        }
    }

    /// Takes the answer to the last question.
    pub fn advance(self, reply: ActivationReply) -> (r: ActivationStep)
        requires
            self.awaits(reply),
        ensures
            r.says((Seq::empty(), self.after(reply))),
    {
        match (self, reply) {
            (Activation::Listed { id, account_user_id }, ActivationReply::Listed(reply)) =>
            Self::take_listed(id, account_user_id, reply),
            (Activation::Validated { id, user_id }, ActivationReply::Validated(reply)) =>
            match reply {
                Err(error) => done(Err(error)),
                Ok(user) => ask(
                    Activation::Synced { id, user_id },
                    ActivationRequest::SyncMemberships { user },
                ),
            },
            (Activation::Synced { id, user_id }, ActivationReply::Synced(reply)) =>
            match reply {
                Err(error) => done(Err(error)),
                Ok(_) => Self::activate(id, Some(user_id)),
            },
            (Activation::Activated { account_user_id }, ActivationReply::Activated(reply)) =>
            match reply {
                Err(error) => done(Err(error)),
                Ok(workspace) => if workspace.kind != WorkspaceKind::Team {
                    done(Ok(workspace))
                } else {
                    match account_user_id {
                        None => done(Err(say_account_missing())),
                        Some(account_user_id) => {
                            let workspace_id: u128 = workspace.id;
                            ask(
                                Activation::Connections { workspace },
                                ActivationRequest::SyncConnections {
                                    user_id: account_user_id,
                                    workspace_id,
                                },
                            )
                        },
                    }
                },
            },
            (Activation::Connections { workspace }, ActivationReply::Connections(_)) => done(
                Ok(workspace),
            ),
            _ => unreached(),
        }
    }
}

/// Where choosing an account stands.
#[derive(PartialEq, Eq)]
pub enum AccountActivation {
    Validated { user_id: String },
    Synced { user_id: String },
    Activated { user_id: String },
    Connections { workspace: Workspace },
}

/// A step of choosing an account.
pub type AccountActivationStep = Step<AccountActivation, ActivationRequest, ActivationEnd>;

/// What follows an answer while an account is chosen.
pub type AccountActivationTurn = Turn<AccountActivation, ActivationRequest, ActivationEnd>;

impl AccountActivation {
    /// Whether `reply` answers what is awaited.
    pub open spec fn awaits(self, reply: ActivationReply) -> bool {
        match self {
            AccountActivation::Validated { .. } => reply is Validated,
            AccountActivation::Synced { .. } => reply is Synced,
            AccountActivation::Activated { .. } => reply is Activated,
            AccountActivation::Connections { .. } => reply is Connections,
        }
    }

    /// The turn that follows `reply`.
    pub open spec fn after(self, reply: ActivationReply) -> AccountActivationTurn {
        match self {
            AccountActivation::Validated { user_id } => match reply->Validated_0 {
                Err(error) => Turn::Done(Err(error)),
                Ok(user) => Turn::Ask {
                    state: AccountActivation::Synced { user_id },
                    request: ActivationRequest::SyncMemberships { user },
                },
            },
            AccountActivation::Synced { user_id } => match reply->Synced_0 {
                Err(error) => Turn::Done(Err(error)),
                Ok(_) => Turn::Ask {
                    state: AccountActivation::Activated { user_id },
                    request: ActivationRequest::ActivateAccount { user_id },
                },
            },
            AccountActivation::Activated { user_id } => match reply->Activated_0 {
                Err(error) => Turn::Done(Err(error)),
                Ok(workspace) => if workspace.kind == WorkspaceKind::Team {
                    Turn::Ask {
                        state: AccountActivation::Connections { workspace },
                        request: ActivationRequest::SyncConnections {
                            user_id,
                            workspace_id: workspace.id,
                        },
                    }
                } else {
                    Turn::Done(Ok(workspace))
                },
            },
            AccountActivation::Connections { workspace } => Turn::Done(Ok(workspace)),
        }
    }

    /// Begins to choose an account.
    pub fn start(user_id: String) -> (r: AccountActivationStep)
        ensures
            r.says(
                (
                    Seq::empty(),
                    Turn::Ask {
                        state: AccountActivation::Validated { user_id },
                        request: ActivationRequest::ValidateUser { user_id },
                    },
                ),
            ),
    {
        let asked = user_id.clone();
        ask(
            AccountActivation::Validated { user_id },
            ActivationRequest::ValidateUser { user_id: asked },
        )
    }

    /// Takes the answer to the last question.
    pub fn advance(self, reply: ActivationReply) -> (r: AccountActivationStep)
        requires
            self.awaits(reply),
        ensures
            r.says((Seq::empty(), self.after(reply))),
    {
        match (self, reply) {
            (AccountActivation::Validated { user_id }, ActivationReply::Validated(reply)) =>
            match reply {
                Err(error) => done(Err(error)),
                Ok(user) => ask(
                    AccountActivation::Synced { user_id },
                    ActivationRequest::SyncMemberships { user },
                ),
            },
            (AccountActivation::Synced { user_id }, ActivationReply::Synced(reply)) =>
            match reply {
                Err(error) => done(Err(error)),
                Ok(_) => {
                    let asked = user_id.clone();
                    ask(
                        AccountActivation::Activated { user_id },
                        ActivationRequest::ActivateAccount { user_id: asked },
                    )
                },
            },
            (AccountActivation::Activated { user_id }, ActivationReply::Activated(reply)) =>
            match reply {
                Err(error) => done(Err(error)),
                Ok(workspace) => if workspace.kind == WorkspaceKind::Team {
                    let workspace_id: u128 = workspace.id;
                    ask(
                        AccountActivation::Connections { workspace },
                        ActivationRequest::SyncConnections {
                            user_id,
                            workspace_id,
                        },
                    )
                } else {
                    done(Ok(workspace))
                },
            },
            (AccountActivation::Connections { workspace }, ActivationReply::Connections(_)) => done(
                Ok(workspace),
            ),
            _ => unreached(),
        }
    }
}

/// A team workspace is never made active before the session of the account was confirmed:
/// the turn that activates it follows the answer to that question's synchronization, and
/// the answer that lists the workspaces leads straight to it only for the personal one.
pub proof fn teams_open_for_confirmed_accounts_only(state: Activation, reply: ActivationReply)
    requires
        state.awaits(reply),
        state.after(reply) matches Turn::Ask { request, .. } && request is ActivateWorkspace,
    ensures
        match state {
            Activation::Listed { id, .. } => {
                &&& reply matches ActivationReply::Listed(Ok(workspaces))
                &&& find_workspace(workspaces@, id) matches Some(target)
                &&& target.kind != WorkspaceKind::Team
            },
            Activation::Synced { .. } => reply matches ActivationReply::Synced(Ok(_)),
            _ => false,
        },
{
}

} // verus!
