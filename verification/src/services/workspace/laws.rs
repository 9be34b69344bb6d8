//! What signing in and out, and choosing an account or a workspace, ask for in every run.
use vstd::prelude::*;

use crate::error::{AppError, AppResult};
use crate::model::{
    ConnectionProfile, Workspace, WorkspaceAuthAccount, WorkspaceAuthUser, WorkspaceKind,
    WorkspaceRole,
};
use crate::services::effects::{Effect, Turn};
use crate::services::workspace::accounts::{
    auth_state_from_store, feature_state, find_user, repair, session_verdict, AccountRepair,
    AuthRefresh, AuthRefreshReply, AuthRefreshRequest, AuthRefreshStep, LoginCompletion,
    LoginCompletionReply, LoginCompletionRequest, LoginCompletionStep, SessionVerdict, SignOut,
    SignOutAll, SignOutReply, SignOutRequest, SignOutStep, UserValidation, UserValidationReply,
    UserValidationRequest, UserValidationStep, WorkspaceAuthState, WorkspaceFeatureState,
    WorkspaceLoginPoll, WorkspaceLoginPollStatus,
};
use crate::services::workspace::refresh::{
    MembershipRefresh, MembershipRefreshReply, MembershipRefreshRequest, MembershipRefreshStep,
};
use crate::services::workspace::selection::{
    find_workspace, AccountActivation, AccountActivationStep, Activation, ActivationReply,
    ActivationRequest, ActivationStep, ActivationTurn, ConnectionSync, ConnectionSyncReply,
    ConnectionSyncRequest, ConnectionSyncStep, MembershipSync, MembershipSyncReply,
    MembershipSyncRequest, MembershipSyncStep,
};
use crate::text::{same_ignoring_ascii_case, trimmed, Text};

verus! {

/// Workspaces are on, unless the setting says `0`, `false` or `off`, in whatever case and
/// with whatever white space around it.
pub proof fn workspaces_are_on_unless_switched_off(setting: Option<String>)
    ensures
        forall|state: WorkspaceFeatureState| #[trigger]
            call_ensures(feature_state, (&setting,), state) ==> match setting {
                None => state.enabled,
                Some(text) => {
                    let word = trimmed(text@);
                    state.enabled <==> !same_ignoring_ascii_case(word, "0"@)
                        && !same_ignoring_ascii_case(word, "false"@) && !same_ignoring_ascii_case(
                        word,
                        "off"@,
                    )
                },
            },
{
}

/// The user of an id is that of the first account with this id, and there is none only
/// where no account has it.
pub proof fn users_are_found_by_id(accounts: Seq<WorkspaceAuthAccount>, id: Seq<char>)
    ensures
        match find_user(accounts, id) {
            None => forall|k: int| 0 <= k < accounts.len() ==> (#[trigger] accounts[k]).user.id@ != id,
            Some(user) => exists|k: int|
                0 <= k < accounts.len() && (#[trigger] accounts[k]).user == user && user.id@ == id
                    && forall|j: int| 0 <= j < k ==> (#[trigger] accounts[j]).user.id@ != id,
        },
    decreases accounts.len(),
{
    if accounts.len() > 0 {
        let rest = accounts.drop_first();
        users_are_found_by_id(rest, id);
        if accounts[0].user.id@ != id {
            match find_user(rest, id) {
                None => {
                    assert forall|k: int| 0 <= k < accounts.len() implies (
                    #[trigger] accounts[k]).user.id@ != id by {
                        if k > 0 {
                            assert(rest[k - 1] == accounts[k]);
                        }
                    }
                },
                Some(user) => {
                    let k = choose|k: int|
                        0 <= k < rest.len() && (#[trigger] rest[k]).user == user && user.id@ == id
                            && forall|j: int| 0 <= j < k ==> (#[trigger] rest[j]).user.id@ != id;
                    assert(accounts[k + 1].user == user);
                    assert forall|j: int| 0 <= j < k + 1 implies (
                    #[trigger] accounts[j]).user.id@ != id by {
                        if j > 0 {
                            assert(rest[j - 1] == accounts[j]);
                        }
                    }
                },
            }
        } else {
            assert(accounts[0].user.id@ == id);
        }
    }
}

/// A workspace is found by its id, the first with it, and none only where none has it.
pub proof fn workspaces_are_found_by_id(workspaces: Seq<Workspace>, id: u128)
    ensures
        match find_workspace(workspaces, id) {
            None => forall|k: int| 0 <= k < workspaces.len() ==> (#[trigger] workspaces[k]).id != id,
            Some(found) => exists|k: int|
                0 <= k < workspaces.len() && #[trigger] workspaces[k] == found && found.id == id
                    && forall|j: int| 0 <= j < k ==> (#[trigger] workspaces[j]).id != id,
        },
    decreases workspaces.len(),
{
    if workspaces.len() > 0 {
        let rest = workspaces.drop_first();
        workspaces_are_found_by_id(rest, id);
        if workspaces[0].id != id {
            match find_workspace(rest, id) {
                None => {
                    assert forall|k: int| 0 <= k < workspaces.len() implies (
                    #[trigger] workspaces[k]).id != id by {
                        if k > 0 {
                            assert(rest[k - 1] == workspaces[k]);
                        }
                    }
                },
                Some(found) => {
                    let k = choose|k: int|
                        0 <= k < rest.len() && #[trigger] rest[k] == found && found.id == id
                            && forall|j: int| 0 <= j < k ==> (#[trigger] rest[j]).id != id;
                    assert(workspaces[k + 1] == found);
                    assert forall|j: int| 0 <= j < k + 1 implies (
                    #[trigger] workspaces[j]).id != id by {
                        if j > 0 {
                            assert(rest[j - 1] == workspaces[j]);
                        }
                    }
                },
            }
        } else {
            assert(workspaces[0].id == id);
        }
    }
}

/// Someone is signed in exactly where the active account is a remembered one, and it is
/// that account's user. Where it is not remembered it is to be removed; where none is
/// active, the first remembered one is to be activated; else nothing is to be done.
pub proof fn the_active_account_is_a_remembered_one(
    accounts: Vec<WorkspaceAuthAccount>,
    active: Option<String>,
)
    ensures
        forall|state: WorkspaceAuthState| #[trigger]
            call_ensures(auth_state_from_store, (accounts, active), state) ==> {
                &&& state.accounts == accounts
                &&& state.authenticated <==> state.user is Some
                &&& active is None ==> state.user is None
                &&& active matches Some(id) ==> state.user == find_user(accounts@, id@)
            },
        match active {
            Some(id) => if find_user(accounts@, id@) is Some {
                repair(accounts@, active) is Keep
            } else {
                repair(accounts@, active) == (AccountRepair::Remove { user_id: id })
            },
            None => if accounts@.len() > 0 {
                repair(accounts@, active) == (AccountRepair::Activate {
                    user_id: accounts@[0].user.id,
                })
            } else {
                repair(accounts@, active) is Keep
            },
        },
{
}

/// What follows from asking about a session: memberships are synchronized for the user that
/// it is of; an account whose session is over is removed; where the server could not be
/// asked, all stays as it is.
pub proof fn sessions_decide_on_their_account(reply: AppResult<Option<WorkspaceAuthUser>>)
    ensures
        forall|told: SessionVerdict| #[trigger]
            call_ensures(session_verdict, (reply,), told) ==> match told {
                SessionVerdict::Sync { user } => reply == Ok::<_, AppError>(Some(user)),
                SessionVerdict::Remove => reply == Ok::<Option<WorkspaceAuthUser>, AppError>(None),
                SessionVerdict::Defer => reply is Err,
            },
{
}

/// Signing out is of the account that was named, or of the active one: its connections are
/// let go first, and then its session is revoked.
pub proof fn signing_out_is_of_one_account(
    named: Option<String>,
    begun: SignOutStep,
    active: String,
    end: Result<(), AppError>,
    error: AppError,
)
    requires
        call_ensures(SignOut::start, (named,), begun),
    ensures
        ({
            let user = match named {
                Some(user) => user,
                None => active,
            };
            let removing = if named is Some {
                begun.turn
            } else {
                begun.turn->state.after(SignOutReply::Active(Ok(Some(active))))
            };
            let revoking = removing->state.after(SignOutReply::Removed(Ok(())));
            &&& begun.effects@.len() == 0
            &&& (named is None ==> {
                &&& begun.turn matches Turn::Ask { request: SignOutRequest::LoadActiveAccount, .. }
                &&& begun.turn->state.after(SignOutReply::Active(Ok(None))) matches Turn::Done(
                    Err(AppError::Config(text)),
                ) && text == Text::Plain("no workspace account is signed in")
                &&& begun.turn->state.after(SignOutReply::Active(Err(error))) matches Turn::Done(
                    Err(told),
                ) && told == error
            })
            &&& removing matches Turn::Ask { request: SignOutRequest::RemoveAccount { user_id }, .. }
                && user_id == user
            &&& removing->state.after(SignOutReply::Removed(Err(error))) matches Turn::Done(Err(told))
                && told == error
            &&& revoking matches Turn::Ask { request: SignOutRequest::Revoke { user_id }, .. }
                && user_id == user
            &&& revoking->state.after(SignOutReply::Revoked(end)) matches Turn::Done(told) && told
                == end
        }),
{
}

/// A login that a poll reports is completed for the user that the poll names: memberships
/// are synchronized, whether or not that succeeds the account is activated, and the user
/// is told to be signed in. Any other poll is told as it is.
pub proof fn logins_are_completed_for_their_user(
    poll: WorkspaceLoginPoll,
    begun: LoginCompletionStep,
    synced: Result<(), AppError>,
    error: AppError,
)
    requires
        call_ensures(LoginCompletion::start, (poll,), begun),
    ensures
        begun.effects@.len() == 0,
        if poll.status != WorkspaceLoginPollStatus::SignedIn {
            begun.turn matches Turn::Done(Ok(told)) && told == poll
        } else {
            match poll.user {
                None => begun.turn matches Turn::Done(Err(AppError::Network(text))) && text
                    == Text::Plain("workspace login did not return an account"),
                Some(user) => {
                    let activating = begun.turn->state.after(
                        LoginCompletionReply::Memberships(synced),
                    );
                    &&& begun.turn matches Turn::Ask {
                        request: LoginCompletionRequest::SyncMemberships { user: synced_user },
                        ..
                    } && synced_user == user
                    &&& activating matches Turn::Ask {
                        request: LoginCompletionRequest::ActivateAccount { user_id },
                        ..
                    } && user_id == user.id
                    &&& activating->state.after(
                        LoginCompletionReply::Activated(Ok(())),
                    ) matches Turn::Done(Ok(told)) && told.status
                        == WorkspaceLoginPollStatus::SignedIn && told.user == Some(user)
                    &&& activating->state.after(
                        LoginCompletionReply::Activated(Err(error)),
                    ) matches Turn::Done(Err(told)) && told == error
                },
            }
        },
{
}

/// A user is validated by the session of the account that was named. Where that is over,
/// the account is removed and the active one is seen to.
pub proof fn users_are_validated_by_their_session(
    user_id: String,
    begun: UserValidationStep,
    user: WorkspaceAuthUser,
    error: AppError,
)
    requires
        call_ensures(UserValidation::start, (user_id,), begun),
    ensures
        ({
            let over = begun.turn->state.after(UserValidationReply::Session(Ok(None)));
            let removed = over->state.after(UserValidationReply::Removed(Ok(())));
            &&& begun.effects@.len() == 0
            &&& begun.turn matches Turn::Ask {
                request: UserValidationRequest::LoadSession { user_id: asked },
                ..
            } && asked == user_id
            &&& begun.turn->state.after(
                UserValidationReply::Session(Ok(Some(user))),
            ) matches Turn::Done(Ok(told)) && told == user
            &&& begun.turn->state.after(UserValidationReply::Session(Err(error))) matches Turn::Done(
                Err(told),
            ) && told == error
            &&& over matches Turn::Ask {
                request: UserValidationRequest::RemoveAccount { user_id: gone },
                ..
            } && gone == user_id
            &&& over->state.after(UserValidationReply::Removed(Err(error))) matches Turn::Done(
                Err(told),
            ) && told == error
            &&& removed matches Turn::Ask {
                request: UserValidationRequest::EnsureActiveAccount,
                ..
            }
            &&& removed->state.after(UserValidationReply::Repaired(Err(error))) matches Turn::Done(
                Err(told),
            ) && told == error
            &&& removed->state.after(UserValidationReply::Repaired(Ok(()))) matches Turn::Done(
                Err(AppError::Network(text)),
            ) && text == Text::Plain("workspace session is no longer active")
        }),
{
}

/// The sign-in state is refreshed from what is remembered: where nothing is, a session of
/// an older installation is moved over, its user's memberships are synchronized as far as
/// they can be, and that account is activated. Then the active account is seen to, and if
/// there is one the server is asked about it: its user's memberships are synchronized, or
/// the account is removed where its session is over. A server that cannot be asked, and
/// memberships that cannot be synchronized, are no failure; whatever else goes wrong is.
pub proof fn the_sign_in_state_is_refreshed(
    begun: AuthRefreshStep,
    legacy: WorkspaceAuthUser,
    active: String,
    user: WorkspaceAuthUser,
    attempt: Result<(), AppError>,
    error: AppError,
)
    requires
        call_ensures(AuthRefresh::start, (), begun),
    ensures
        ({
            let first = begun.turn;
            let repairing = first->state.after(AuthRefreshReply::Accounts(Ok(true)));
            let migrating = first->state.after(AuthRefreshReply::Accounts(Ok(false)));
            let syncing = migrating->state.after(AuthRefreshReply::Legacy(Ok(Some(legacy))));
            let activating = syncing->state.after(AuthRefreshReply::LegacySynced(attempt));
            let looking = repairing->state.after(AuthRefreshReply::Repaired(Ok(())));
            let asking = looking->state.after(AuthRefreshReply::Active(Ok(Some(active))));
            let valid = asking->state.after(AuthRefreshReply::Session(Ok(Some(user))));
            let over = asking->state.after(AuthRefreshReply::Session(Ok(None)));
            let again = over->state.after(AuthRefreshReply::Removed(Ok(())));
            &&& begun.effects@.len() == 0
            &&& first matches Turn::Ask { request: AuthRefreshRequest::HasAccounts, .. }
            &&& first->state.after(AuthRefreshReply::Accounts(Err(error))) matches Turn::Done(
                Err(told),
            ) && told == error
            &&& repairing matches Turn::Ask { request: AuthRefreshRequest::EnsureActiveAccount, .. }
            &&& migrating matches Turn::Ask {
                request: AuthRefreshRequest::MigrateLegacySession,
                ..
            }
            &&& migrating->state.after(AuthRefreshReply::Legacy(Err(error))) matches Turn::Done(
                Err(told),
            ) && told == error
            &&& migrating->state.after(AuthRefreshReply::Legacy(Ok(None))) == repairing
            &&& syncing matches Turn::Ask {
                request: AuthRefreshRequest::SyncMemberships { user: synced },
                ..
            } && synced == legacy
            &&& activating matches Turn::Ask {
                request: AuthRefreshRequest::ActivateAccount { user_id },
                ..
            } && user_id == legacy.id
            &&& activating->state.after(
                AuthRefreshReply::LegacyActivated(Err(error)),
            ) matches Turn::Done(Err(told)) && told == error
            &&& activating->state.after(AuthRefreshReply::LegacyActivated(Ok(()))) == repairing
            &&& repairing->state.after(AuthRefreshReply::Repaired(Err(error))) matches Turn::Done(
                Err(told),
            ) && told == error
            &&& looking matches Turn::Ask { request: AuthRefreshRequest::LoadActiveAccount, .. }
            &&& looking->state.after(AuthRefreshReply::Active(Err(error))) matches Turn::Done(
                Err(told),
            ) && told == error
            &&& looking->state.after(AuthRefreshReply::Active(Ok(None))) matches Turn::Done(Ok(_))
            &&& asking matches Turn::Ask { request: AuthRefreshRequest::LoadSession { user_id }, .. }
                && user_id == active
            &&& asking->state.after(AuthRefreshReply::Session(Err(error))) matches Turn::Done(Ok(_))
            &&& valid matches Turn::Ask {
                request: AuthRefreshRequest::SyncMemberships { user: synced },
                ..
            } && synced == user
            &&& valid->state.after(AuthRefreshReply::Synced(attempt)) matches Turn::Done(Ok(_))
            &&& over matches Turn::Ask { request: AuthRefreshRequest::RemoveAccount { user_id }, .. }
                && user_id == active
            &&& over->state.after(AuthRefreshReply::Removed(Err(error))) matches Turn::Done(Err(told))
                && told == error
            &&& again matches Turn::Ask { request: AuthRefreshRequest::EnsureActiveAccount, .. }
            &&& again->state.after(AuthRefreshReply::RepairedAgain(attempt)) matches Turn::Done(told)
                && told == attempt
        }),
{
}

/// While memberships are refreshed every listed account is asked about in turn: it is
/// removed where its session is over, and its user is synchronized where it is not.
pub proof fn refreshes_ask_about_each_listed_account(
    begun: MembershipRefreshStep,
    ids: Vec<String>,
    next: usize,
    user: WorkspaceAuthUser,
    end: Result<(), AppError>,
    error: AppError,
)
    requires
        call_ensures(MembershipRefresh::start, (), begun),
        next < ids@.len(),
    ensures
        ({
            let state = MembershipRefresh::Session { ids, next };
            let listed = begun.turn->state.after(MembershipRefreshReply::Accounts(Ok(ids)));
            let valid = state.after(MembershipRefreshReply::Session(Ok(Some(user))));
            let over = state.after(MembershipRefreshReply::Session(Ok(None)));
            let unknown = state.after(MembershipRefreshReply::Session(Err(error)));
            &&& begun.effects@.len() == 0
            &&& begun.turn matches Turn::Ask { request: MembershipRefreshRequest::ListAccounts, .. }
            &&& begun.turn->state.after(
                MembershipRefreshReply::Accounts(Err(error)),
            ) matches Turn::Done(Err(told)) && told == error
            &&& listed matches Turn::Ask {
                state: MembershipRefresh::Session { ids: kept, next: at },
                request: MembershipRefreshRequest::LoadSession { user_id },
            } && kept == ids && at == 0 && user_id == ids@[0]
            &&& valid matches Turn::Ask {
                state: MembershipRefresh::Synced { ids: kept, next: at },
                request: MembershipRefreshRequest::SyncMemberships { user: synced },
            } && kept == ids && at == next && synced == user
            &&& over matches Turn::Ask {
                state: MembershipRefresh::Removed { ids: kept, next: at },
                request: MembershipRefreshRequest::RemoveAccount { user_id },
            } && kept == ids && at == next && user_id == ids@[next as int]
            &&& valid->state.after(MembershipRefreshReply::Synced(Ok(()))) == unknown
            &&& over->state.after(MembershipRefreshReply::Removed(Ok(()))) == unknown
            &&& valid->state.after(MembershipRefreshReply::Synced(Err(error))) matches Turn::Done(
                Err(told),
            ) && told == error
            &&& over->state.after(MembershipRefreshReply::Removed(Err(error))) matches Turn::Done(
                Err(told),
            ) && told == error
            &&& if next + 1 < ids@.len() {
                unknown matches Turn::Ask {
                    state: MembershipRefresh::Session { ids: kept, next: at },
                    request: MembershipRefreshRequest::LoadSession { user_id },
                } && kept == ids && at == next + 1 && user_id == ids@[next + 1]
            } else {
                &&& unknown matches Turn::Ask {
                    state: repaired,
                    request: MembershipRefreshRequest::EnsureActiveAccount,
                }
                &&& repaired.after(MembershipRefreshReply::Repaired(end)) matches Turn::Done(told)
                    && told == end
            }
        }),
{
    assert(ids.len() == ids@.len());
}

/// The shared connections of a workspace are fetched as the account sees them, and the
/// cache is replaced by exactly those; the credentials that no longer serve are let go.
/// A server that cannot be asked, or shares nothing yet, leaves the cache as it is.
pub proof fn shared_connections_are_cached_as_fetched(
    account_user_id: String,
    workspace_id: u128,
    begun: ConnectionSyncStep,
    fetched: Vec<(ConnectionProfile, i64)>,
    removed: Vec<u128>,
    error: AppError,
)
    requires
        call_ensures(ConnectionSync::start, (account_user_id, workspace_id), begun),
    ensures
        ({
            let storing = begun.turn->state.after(ConnectionSyncReply::Fetched(Ok(Some(fetched))));
            let ended = storing.1->state.after(ConnectionSyncReply::Stored(Ok(removed)));
            &&& begun.effects@.len() == 0 && storing.0.len() == 0
            &&& begun.turn matches Turn::Ask {
                request: ConnectionSyncRequest::FetchRemote {
                    workspace_id: of,
                    account_user_id: by,
                },
                ..
            } && of == workspace_id && by == account_user_id
            &&& begun.turn->state.after(
                ConnectionSyncReply::Fetched(Ok(None)),
            ).1 matches Turn::Done(Ok(_))
            &&& begun.turn->state.after(
                ConnectionSyncReply::Fetched(Err(error)),
            ).1 matches Turn::Done(Ok(_))
            &&& storing.1 matches Turn::Ask {
                request: ConnectionSyncRequest::StoreRemote {
                    workspace_id: of,
                    account_user_id: by,
                    connections,
                },
                ..
            } && of == workspace_id && by == account_user_id && connections == fetched
            &&& storing.1->state.after(
                ConnectionSyncReply::Stored(Err(error)),
            ).1 matches Turn::Done(Err(told)) && told == error
            &&& ended.1 matches Turn::Done(Ok(_))
            &&& ended.0.len() == removed@.len()
            &&& forall|i: int|
                0 <= i < removed@.len() ==> #[trigger] ended.0[i] == (Effect::DeleteSecret {
                    credential_id: removed@[i],
                    action: "remove_remote_connection",
                })
        }),
{
}

/// The memberships of a user are replaced by what the server reports for them; and where
/// they are the active account in a team workspace, its shared connections follow.
pub proof fn memberships_are_stored_as_fetched(
    user: WorkspaceAuthUser,
    begun: MembershipSyncStep,
    fetched: Vec<(u128, String, WorkspaceRole)>,
    open: Workspace,
    active: Option<String>,
    end: Result<(), AppError>,
    error: AppError,
)
    requires
        call_ensures(MembershipSync::start, (user,), begun),
    ensures
        ({
            let fetching = begun.turn->state.after(MembershipSyncReply::Remembered(Ok(())));
            let storing = fetching->state.after(MembershipSyncReply::Fetched(Ok(fetched)));
            let opening = storing->state.after(MembershipSyncReply::Stored(Ok(())));
            let looking = opening->state.after(MembershipSyncReply::ActiveWorkspace(Ok(open)));
            let sharing = looking->state.after(MembershipSyncReply::ActiveAccount(Ok(active)));
            &&& begun.effects@.len() == 0
            &&& begun.turn matches Turn::Ask {
                request: MembershipSyncRequest::RememberAccount { user: kept },
                ..
            } && kept == user
            &&& begun.turn->state.after(
                MembershipSyncReply::Remembered(Err(error)),
            ) matches Turn::Done(Err(told)) && told == error
            &&& fetching matches Turn::Ask {
                request: MembershipSyncRequest::FetchWorkspaces { user_id },
                ..
            } && user_id == user.id
            &&& fetching->state.after(MembershipSyncReply::Fetched(Err(error))) matches Turn::Done(
                Err(told),
            ) && told == error
            &&& storing matches Turn::Ask {
                request: MembershipSyncRequest::StoreWorkspaces { user: kept, workspaces },
                ..
            } && kept == user && workspaces == fetched
            &&& storing->state.after(MembershipSyncReply::Stored(Err(error))) matches Turn::Done(
                Err(told),
            ) && told == error
            &&& opening matches Turn::Ask {
                request: MembershipSyncRequest::LoadActiveWorkspace,
                ..
            }
            &&& opening->state.after(
                MembershipSyncReply::ActiveWorkspace(Err(error)),
            ) matches Turn::Done(Err(told)) && told == error
            &&& if open.kind != WorkspaceKind::Team {
                looking matches Turn::Done(Ok(_))
            } else {
                &&& looking matches Turn::Ask {
                    request: MembershipSyncRequest::LoadActiveAccount,
                    ..
                }
                &&& looking->state.after(
                    MembershipSyncReply::ActiveAccount(Err(error)),
                ) matches Turn::Done(Err(told)) && told == error
                &&& if active matches Some(id) && id@ == user.id@ {
                    &&& sharing matches Turn::Ask {
                        request: MembershipSyncRequest::SyncConnections {
                            account_user_id,
                            workspace_id,
                        },
                        ..
                    } && account_user_id == user.id && workspace_id == open.id
                    &&& sharing->state.after(
                        MembershipSyncReply::Connections(end),
                    ) matches Turn::Done(told) && told == end
                } else {
                    sharing matches Turn::Done(Ok(_))
                }
            }
        }),
{
}

/// Choosing a workspace is of the one that was named, as the account that was named. One
/// that is not listed is not found; a team's takes an account, whose session and
/// memberships are seen to first; and once a team's is open its shared connections follow,
/// whether or not they can be had.
#[verifier::spinoff_prover]
#[verifier::rlimit(40)]
pub proof fn the_named_workspace_is_opened(
    id: u128,
    account: Option<String>,
    begun: ActivationStep,
    listed: Vec<Workspace>,
    user: WorkspaceAuthUser,
    opened: Workspace,
    end: Result<(), AppError>,
    error: AppError,
)
    requires
        call_ensures(Activation::start, (id, account), begun),
    ensures
        ({
            let chosen = begun.turn->state.after(ActivationReply::Listed(Ok(listed)));
            let valid = chosen->state.after(ActivationReply::Validated(Ok(user)));
            let synced = valid->state.after(ActivationReply::Synced(Ok(())));
            &&& begun.effects@.len() == 0
            &&& begun.turn matches Turn::Ask { request: ActivationRequest::ListWorkspaces, .. }
            &&& begun.turn->state.after(ActivationReply::Listed(Err(error))) matches Turn::Done(
                Err(told),
            ) && told == error
            &&& match find_workspace(listed@, id) {
                None => chosen matches Turn::Done(Err(AppError::NotFound(text))) && text
                    == Text::WithId("workspace ", id, ""),
                Some(target) => if target.kind != WorkspaceKind::Team {
                    opens(chosen, id, account, opened, end, error)
                } else {
                    match account {
                        None => chosen matches Turn::Done(Err(AppError::Config(text))) && text
                            == Text::Plain("team workspace selection requires an account"),
                        Some(account_id) => {
                            &&& chosen matches Turn::Ask {
                                request: ActivationRequest::ValidateUser { user_id },
                                ..
                            } && user_id == account_id
                            &&& chosen->state.after(
                                ActivationReply::Validated(Err(error)),
                            ) == ActivationTurn::Done(Err(error))
                            &&& valid matches Turn::Ask {
                                request: ActivationRequest::SyncMemberships { user: synced_user },
                                ..
                            } && synced_user == user
                            &&& valid->state.after(ActivationReply::Synced(Err(error)))
                                == ActivationTurn::Done(Err(error))
                            &&& opens(synced, id, account, opened, end, error)
                        },
                    }
                },
            }
        }),
{
}

/// Whether the workspace is made active as this account and, if a team's was opened, its
/// shared connections are synchronized; either way it is what is told.
pub open spec fn opens(
    turn: ActivationTurn,
    id: u128,
    account: Option<String>,
    opened: Workspace,
    end: Result<(), AppError>,
    error: AppError,
) -> bool {
    let shared = turn->state.after(ActivationReply::Activated(Ok(opened)));
    &&& turn matches Turn::Ask {
        request: ActivationRequest::ActivateWorkspace { id: named, account_user_id },
        ..
    } && named == id && account_user_id == account
    &&& turn->state.after(ActivationReply::Activated(Err(error))) matches Turn::Done(Err(told))
        && told == error
    &&& if opened.kind != WorkspaceKind::Team {
        shared matches Turn::Done(Ok(told)) && told == opened
    } else {
        match account {
            None => shared matches Turn::Done(Err(AppError::Config(text))) && text == Text::Plain(
                "team workspace selection requires an account",
            ),
            Some(account_id) => {
                &&& shared matches Turn::Ask {
                    request: ActivationRequest::SyncConnections { user_id, workspace_id },
                    ..
                } && user_id == account_id && workspace_id == opened.id
                &&& shared->state.after(ActivationReply::Connections(end)) == ActivationTurn::Done(Ok(opened))
            },
        }
    }
}

/// Choosing an account is of the one that was named: its session and its memberships are
/// seen to first, then it is activated, and where that opens a team's workspace its shared
/// connections follow, whether or not they can be had.
pub proof fn the_named_account_is_chosen(
    user_id: String,
    begun: AccountActivationStep,
    user: WorkspaceAuthUser,
    opened: Workspace,
    end: Result<(), AppError>,
    error: AppError,
)
    requires
        call_ensures(AccountActivation::start, (user_id,), begun),
    ensures
        ({
            let valid = begun.turn->state.after(ActivationReply::Validated(Ok(user)));
            let synced = valid->state.after(ActivationReply::Synced(Ok(())));
            let shared = synced->state.after(ActivationReply::Activated(Ok(opened)));
            &&& begun.effects@.len() == 0
            &&& begun.turn matches Turn::Ask {
                request: ActivationRequest::ValidateUser { user_id: asked },
                ..
            } && asked == user_id
            &&& begun.turn->state.after(ActivationReply::Validated(Err(error))) matches Turn::Done(
                Err(told),
            ) && told == error
            &&& valid matches Turn::Ask {
                request: ActivationRequest::SyncMemberships { user: synced_user },
                ..
            } && synced_user == user
            &&& valid->state.after(ActivationReply::Synced(Err(error))) matches Turn::Done(Err(told))
                && told == error
            &&& synced matches Turn::Ask {
                request: ActivationRequest::ActivateAccount { user_id: chosen },
                ..
            } && chosen == user_id
            &&& synced->state.after(ActivationReply::Activated(Err(error))) matches Turn::Done(
                Err(told),
            ) && told == error
            &&& if opened.kind != WorkspaceKind::Team {
                shared matches Turn::Done(Ok(told)) && told == opened
            } else {
                &&& shared matches Turn::Ask {
                    request: ActivationRequest::SyncConnections { user_id: by, workspace_id },
                    ..
                } && by == user_id && workspace_id == opened.id
                &&& shared->state.after(ActivationReply::Connections(end)) matches Turn::Done(
                    Ok(told),
                ) && told == opened
            }
        }),
{
}

/// Signing every account out tells the first error that was met, and success only where
/// none was.
pub proof fn the_first_failed_sign_out_is_told(
    begun: SignOutAll,
    signing: &mut SignOutAll,
    result: AppResult<()>,
    told: AppResult<()>,
)
    requires
        call_ensures(SignOutAll::new, (), begun),
        call_ensures(SignOutAll::note, (signing, result), ()),
        call_ensures(SignOutAll::finish, (*final(signing),), told),
    ensures
        begun.first_error is None,
        old(signing).first_error matches Some(error) ==> told == Err::<(), AppError>(error),
        old(signing).first_error is None ==> (result matches Err(error) ==> told == Err::<
            (),
            AppError,
        >(error)),
        old(signing).first_error is None && result is Ok ==> told is Ok,
{
}

} // verus!
