//! Accounts and sessions: who is signed in, and what follows when that changes.
use vstd::pervasive::unreached;
use vstd::prelude::*;

use crate::error::{AppError, AppResult};
use crate::model::{WorkspaceAuthAccount, WorkspaceAuthUser};
use crate::services::effects::{ask, done, Effect, Step, Turn};
use crate::text::{eq_ignore_ascii_case, same_ignoring_ascii_case, same_text, trim, trimmed, Text};

verus! {

/// Whether workspaces are switched on.
#[derive(Debug, Clone, Copy, PartialEq, Eq, Structural)]
pub struct WorkspaceFeatureState {
    pub enabled: bool,
}

/// Whether a setting means off: `0`, `false` or `off`, in any case and with white space
/// around it.
pub open spec fn means_off(value: Seq<char>) -> bool {
    let word = trimmed(value);
    ||| same_ignoring_ascii_case(word, "0"@)
    ||| same_ignoring_ascii_case(word, "false"@)
    ||| same_ignoring_ascii_case(word, "off"@)
}

/// Workspaces are on unless the setting is there and means off.
pub fn feature_state(setting: &Option<String>) -> (r: WorkspaceFeatureState)
    ensures
        r.enabled == !(*setting is Some && means_off(setting->0@)),
{
    match setting {
        Some(value) => {
            let word = trim(value.as_str());
            WorkspaceFeatureState {
                enabled: !(eq_ignore_ascii_case(word, "0") || eq_ignore_ascii_case(word, "false")
                    || eq_ignore_ascii_case(word, "off")),
            }
        },
        None => WorkspaceFeatureState { enabled: true },
    }
}

/// The user of the first account with this id.
pub open spec fn find_user(accounts: Seq<WorkspaceAuthAccount>, id: Seq<char>) -> Option<
    WorkspaceAuthUser,
>
    decreases accounts.len(),
{
    if accounts.len() == 0 {
        None
    } else if accounts[0].user.id@ == id {
        Some(accounts[0].user)
    } else {
        find_user(accounts.drop_first(), id)
    }
}

/// Computes [`find_user`].
pub fn lookup_user(accounts: &Vec<WorkspaceAuthAccount>, id: &str) -> (r: Option<WorkspaceAuthUser>)
    ensures
        r == find_user(accounts@, id@),
{
    let mut i: usize = 0;
    assert(accounts@.subrange(0, accounts@.len() as int) =~= accounts@);
    while i < accounts.len()
        invariant
            i <= accounts@.len(),
            find_user(accounts@, id@) == find_user(
                accounts@.subrange(i as int, accounts@.len() as int),
                id@,
            ),
        decreases accounts@.len() - i,
    {
        assert(accounts@.subrange(i as int, accounts@.len() as int).drop_first()
            =~= accounts@.subrange(i + 1, accounts@.len() as int));
        if same_text(accounts[i].user.id.as_str(), id) {
            return Some(accounts[i].user.duplicate());
        }
        i = i + 1;
    }
    None
}

/// Who is signed in.
#[derive(PartialEq, Eq)]
pub struct WorkspaceAuthState {
    pub authenticated: bool,
    pub user: Option<WorkspaceAuthUser>,
    pub accounts: Vec<WorkspaceAuthAccount>,
}

/// The user of the active account, if there is one and it is remembered.
pub open spec fn active_user(
    accounts: Seq<WorkspaceAuthAccount>,
    active_account_id: Option<String>,
) -> Option<WorkspaceAuthUser> {
    match active_account_id {
        Some(id) => find_user(accounts, id@),
        None => None,
    }
}

/// Who is signed in, going by what the store remembers.
pub fn auth_state_from_store(
    accounts: Vec<WorkspaceAuthAccount>,
    active_account_id: Option<String>,
) -> (r: WorkspaceAuthState)
    ensures
        r.accounts == accounts,
        r.user == active_user(accounts@, active_account_id),
        r.authenticated == (r.user is Some),
{
    let user = match active_account_id {
        Some(id) => lookup_user(&accounts, id.as_str()),
        None => None,
    };
    WorkspaceAuthState { authenticated: user.is_some(), user, accounts }
}

/// What has to be done for the active account to be a remembered one.
#[derive(PartialEq, Eq)]
pub enum AccountRepair {
    /// Nothing.
    Keep,
    /// Remove the active account, which is not remembered.
    Remove { user_id: String },
    /// Activate the first remembered account, as none is active.
    Activate { user_id: String },
}

/// What has to be done for the active account to be a remembered one.
pub open spec fn repair(
    accounts: Seq<WorkspaceAuthAccount>,
    active_account_id: Option<String>,
) -> AccountRepair {
    match active_account_id {
        Some(id) => if find_user(accounts, id@) is Some {
            AccountRepair::Keep
        } else {
            AccountRepair::Remove { user_id: id }
        },
        None => if accounts.len() > 0 {
            AccountRepair::Activate { user_id: accounts[0].user.id }
        } else {
            AccountRepair::Keep
        },
    }
}

/// Computes [`repair`].
pub fn ensure_active_account(
    accounts: &Vec<WorkspaceAuthAccount>,
    active_account_id: Option<String>,
) -> (r: AccountRepair)
    ensures
        r == repair(accounts@, active_account_id),
{
    match active_account_id {
        Some(id) => {
            if lookup_user(accounts, id.as_str()).is_some() {
                AccountRepair::Keep
            } else {
                AccountRepair::Remove { user_id: id }
            }
        },
        None => {
            if accounts.len() > 0 {
                AccountRepair::Activate { user_id: accounts[0].user.id.clone() }
            } else {
                AccountRepair::Keep
            }
        },
    }
}

/// Signing every account out: everything is tried, and the first error is the answer.
#[derive(PartialEq, Eq)]
pub struct SignOutAll {
    pub first_error: Option<AppError>,
}

impl SignOutAll {
    /// Nothing has been tried yet.
    pub fn new() -> (r: SignOutAll)
        ensures
            r.first_error is None,
    {
        SignOutAll { first_error: None }
    }

    /// Takes how removing an account, or revoking its session, went.
    pub fn note(&mut self, result: AppResult<()>)
        ensures
            final(self).first_error == match old(self).first_error {
                Some(error) => Some(error),
                None => match result {
                    Ok(_) => None,
                    Err(error) => Some(error),
                },
            },
    {
        match result {
            Ok(_) => {},
            Err(error) => {
                if self.first_error.is_none() {
                    self.first_error = Some(error);
                }
            },
        }
    }

    /// The answer.
    pub fn finish(self) -> (r: AppResult<()>)
        ensures
            match self.first_error {
                Some(error) => r == Err::<(), AppError>(error),
                None => r is Ok,
            },
    {
        match self.first_error {
            Some(error) => Err(error),
            None => Ok(()),
        }
    }
}

/// Where signing one account out stands.
#[derive(PartialEq, Eq)]
pub enum SignOut {
    Active,
    Removed { user_id: String },
    Revoked,
}

/// What signing out asks of the outside world.
#[derive(PartialEq, Eq)]
pub enum SignOutRequest {
    /// Look up the active account.
    LoadActiveAccount,
    /// Remove the account, and let go of its open connections.
    RemoveAccount { user_id: String },
    /// Revoke the account's session and forget its token.
    Revoke { user_id: String },
}

/// What the outside world answers.
#[derive(PartialEq, Eq)]
pub enum SignOutReply {
    Active(Result<Option<String>, AppError>),
    Removed(Result<(), AppError>),
    Revoked(Result<(), AppError>),
}

/// A step of signing out.
pub type SignOutStep = Step<SignOut, SignOutRequest, Result<(), AppError>>;

/// What follows an answer while an account is signed out.
pub type SignOutTurn = Turn<SignOut, SignOutRequest, Result<(), AppError>>;

impl SignOut {
    /// Whether `reply` answers what is awaited.
    pub open spec fn awaits(self, reply: SignOutReply) -> bool {
        match self {
            SignOut::Active => reply is Active,
            SignOut::Removed { .. } => reply is Removed,
            SignOut::Revoked => reply is Revoked,
        }
    }

    /// The turn that follows `reply`. The session is revoked only after the account's
    /// connections were let go, which needs the session.
    pub open spec fn after(self, reply: SignOutReply) -> SignOutTurn {
        match self {
            SignOut::Active => match reply->Active_0 {
                Err(error) => Turn::Done(Err(error)),
                Ok(None) => Turn::Done(
                    Err(AppError::Config(Text::Plain("no workspace account is signed in"))),
                ),
                Ok(Some(user_id)) => Turn::Ask {
                    state: SignOut::Removed { user_id },
                    request: SignOutRequest::RemoveAccount { user_id },
                },
            },
            SignOut::Removed { user_id } => match reply->Removed_0 {
                Err(error) => Turn::Done(Err(error)),
                Ok(_) => Turn::Ask {
                    state: SignOut::Revoked,
                    request: SignOutRequest::Revoke { user_id },
                },
            },
            SignOut::Revoked => Turn::Done(reply->Revoked_0),
        }
    }

    /// Begins to sign out this account, or the active one.
    pub fn start(user_id: Option<String>) -> (r: SignOutStep)
        ensures
            r.effects@ == Seq::<Effect>::empty(),
            r.turn == match user_id {
                Some(user_id) => SignOutTurn::Ask {
                    state: SignOut::Removed { user_id },
                    request: SignOutRequest::RemoveAccount { user_id },
                },
                None => SignOutTurn::Ask {
                    state: SignOut::Active,
                    request: SignOutRequest::LoadActiveAccount,
                },
            },
    {
        match user_id {
            Some(user_id) => {
                let removed = user_id.clone();
                ask(
                    SignOut::Removed { user_id },
                    SignOutRequest::RemoveAccount { user_id: removed },
                )
            },
            None => ask(SignOut::Active, SignOutRequest::LoadActiveAccount),
        }
    }

    /// Takes the answer to the last question.
    pub fn advance(self, reply: SignOutReply) -> (r: SignOutStep)
        requires
            self.awaits(reply),
        ensures
            r.says((Seq::empty(), self.after(reply))),
    {
        match (self, reply) {
            (SignOut::Active, SignOutReply::Active(reply)) => match reply {
                Err(error) => done(Err(error)),
                Ok(None) => done(
                    Err(AppError::Config(Text::Plain("no workspace account is signed in"))),
                ),
                Ok(Some(user_id)) => {
                    let removed = user_id.clone();
                    ask(
                        SignOut::Removed { user_id },
                        SignOutRequest::RemoveAccount { user_id: removed },
                    )
                },
            },
            (SignOut::Removed { user_id }, SignOutReply::Removed(reply)) => match reply {
                Err(error) => done(Err(error)),
                Ok(_) => ask(SignOut::Revoked, SignOutRequest::Revoke { user_id }),
            },
            (SignOut::Revoked, SignOutReply::Revoked(reply)) => done(reply),
            _ => unreached(),
        }
    }
}

/// How far a login has come.
#[derive(Debug, Clone, Copy, PartialEq, Eq, Structural)]
pub enum WorkspaceLoginPollStatus {
    Pending,
    SlowDown,
    Denied,
    Expired,
    SignedIn,
}

/// What polling a login came to.
#[derive(PartialEq, Eq)]
pub struct WorkspaceLoginPoll {
    pub status: WorkspaceLoginPollStatus,
    pub user: Option<WorkspaceAuthUser>,
}

/// Where the completion of a login stands.
#[derive(PartialEq, Eq)]
pub enum LoginCompletion {
    Memberships { user: WorkspaceAuthUser },
    Activated { user: WorkspaceAuthUser },
}

/// What completing a login asks of the outside world.
#[derive(PartialEq, Eq)]
pub enum LoginCompletionRequest {
    /// Synchronize the memberships of this user.
    SyncMemberships { user: WorkspaceAuthUser },
    /// Activate this account.
    ActivateAccount { user_id: String },
}

/// What the outside world answers.
#[derive(PartialEq, Eq)]
pub enum LoginCompletionReply {
    Memberships(Result<(), AppError>),
    Activated(Result<(), AppError>),
}

/// How completing a login ends.
pub type LoginCompletionEnd = Result<WorkspaceLoginPoll, AppError>;

/// A step of completing a login.
pub type LoginCompletionStep = Step<LoginCompletion, LoginCompletionRequest, LoginCompletionEnd>;

/// What follows an answer while a login is completed.
pub type LoginCompletionTurn = Turn<LoginCompletion, LoginCompletionRequest, LoginCompletionEnd>;

/// A poll that says who signed in.
pub open spec fn signed_in(user: WorkspaceAuthUser) -> WorkspaceLoginPoll {
    WorkspaceLoginPoll { status: WorkspaceLoginPollStatus::SignedIn, user: Some(user) }
}

impl LoginCompletion {
    /// Whether `reply` answers what is awaited.
    pub open spec fn awaits(self, reply: LoginCompletionReply) -> bool {
        match self {
            LoginCompletion::Memberships { .. } => reply is Memberships,
            LoginCompletion::Activated { .. } => reply is Activated,
        }
    }

    /// The turn that follows `reply`. A login that succeeded is not reported as failed
    /// because the memberships could not be synchronized yet.
    pub open spec fn after(self, reply: LoginCompletionReply) -> LoginCompletionTurn {
        match self {
            LoginCompletion::Memberships { user } => Turn::Ask {
                state: LoginCompletion::Activated { user },
                request: LoginCompletionRequest::ActivateAccount { user_id: user.id },
            },
            LoginCompletion::Activated { user } => match reply->Activated_0 {
                Err(error) => Turn::Done(Err(error)),
                Ok(_) => Turn::Done(Ok(signed_in(user))),
            },
        }
    }

    /// What follows a poll: nothing, unless someone signed in.
    pub open spec fn after_poll(poll: WorkspaceLoginPoll) -> LoginCompletionTurn {
        if poll.status != WorkspaceLoginPollStatus::SignedIn {
            Turn::Done(Ok(poll))
        } else {
            match poll.user {
                None => Turn::Done(
                    Err(
                        AppError::Network(
                            Text::Plain("workspace login did not return an account"),
                        ),
                    ),
                ),
                Some(user) => Turn::Ask {
                    state: LoginCompletion::Memberships { user },
                    request: LoginCompletionRequest::SyncMemberships { user },
                },
            }
        }
    }

    /// Begins to complete the login that a poll reports.
    pub fn start(poll: WorkspaceLoginPoll) -> (r: LoginCompletionStep)
        ensures
            r.says((Seq::empty(), Self::after_poll(poll))),
    {
        if poll.status != WorkspaceLoginPollStatus::SignedIn {
            return done(Ok(poll));
        }
        match poll.user {
            None => done(
                Err(
                    AppError::Network(Text::Plain("workspace login did not return an account")),
                ),
            ),
            Some(user) => {
                let synced = user.duplicate();
                ask(
                    LoginCompletion::Memberships { user },
                    LoginCompletionRequest::SyncMemberships { user: synced },
                )
            },
        }
    }

    /// Takes the answer to the last question.
    pub fn advance(self, reply: LoginCompletionReply) -> (r: LoginCompletionStep)
        requires
            self.awaits(reply),
        ensures
            r.says((Seq::empty(), self.after(reply))),
    {
        match (self, reply) {
            (LoginCompletion::Memberships { user }, LoginCompletionReply::Memberships(_)) => {
                let user_id = user.id.clone();
                ask(
                    LoginCompletion::Activated { user },
                    LoginCompletionRequest::ActivateAccount { user_id },
                )
            },
            (LoginCompletion::Activated { user }, LoginCompletionReply::Activated(reply)) =>
            match reply {
                Err(error) => done(Err(error)),
                Ok(_) => done(
                    Ok(
                        WorkspaceLoginPoll {
                            status: WorkspaceLoginPollStatus::SignedIn,
                            user: Some(user),
                        },
                    ),
                ),
            },
            _ => unreached(),
        }
    }
}

/// What follows from asking the server about a remembered account.
#[derive(PartialEq, Eq)]
pub enum SessionVerdict {
    /// The session is valid: synchronize the memberships.
    Sync { user: WorkspaceAuthUser },
    /// The session is over: remove the account.
    Remove,
    /// The server could not be asked: leave everything as it is.
    Defer,
}

/// What follows from asking the server about a remembered account.
pub fn session_verdict(reply: AppResult<Option<WorkspaceAuthUser>>) -> (r: SessionVerdict)
    ensures
        r == match reply {
            Ok(Some(user)) => SessionVerdict::Sync { user },
            Ok(None) => SessionVerdict::Remove,
            Err(_) => SessionVerdict::Defer,
        },
{
    match reply {
        Ok(Some(user)) => SessionVerdict::Sync { user },
        Ok(None) => SessionVerdict::Remove,
        Err(_) => SessionVerdict::Defer,
    }
}

/// Where validating a user stands.
#[derive(PartialEq, Eq)]
pub enum UserValidation {
    Session { user_id: String },
    Removed,
    Repaired,
}

/// What validating a user asks of the outside world.
#[derive(PartialEq, Eq)]
pub enum UserValidationRequest {
    /// Ask the server whose session this is.
    LoadSession { user_id: String },
    /// Remove the account.
    RemoveAccount { user_id: String },
    /// See to it that the active account is a remembered one.
    EnsureActiveAccount,
}

/// What the outside world answers.
#[derive(PartialEq, Eq)]
pub enum UserValidationReply {
    /// Nobody's, where the session is over.
    Session(Result<Option<WorkspaceAuthUser>, AppError>),
    Removed(Result<(), AppError>),
    Repaired(Result<(), AppError>),
}

/// How validating a user ends.
pub type UserValidationEnd = Result<WorkspaceAuthUser, AppError>;

/// A step of validating a user.
pub type UserValidationStep = Step<UserValidation, UserValidationRequest, UserValidationEnd>;

/// What follows an answer while a user is validated.
pub type UserValidationTurn = Turn<UserValidation, UserValidationRequest, UserValidationEnd>;

impl UserValidation {
    /// Whether `reply` answers what is awaited.
    pub open spec fn awaits(self, reply: UserValidationReply) -> bool {
        match self {
            UserValidation::Session { .. } => reply is Session,
            UserValidation::Removed => reply is Removed,
            UserValidation::Repaired => reply is Repaired,
        }
    }

    /// The turn that follows `reply`. An account whose session is over is removed.
    pub open spec fn after(self, reply: UserValidationReply) -> UserValidationTurn {
        match self {
            UserValidation::Session { user_id } => match reply->Session_0 {
                Err(error) => Turn::Done(Err(error)),
                Ok(Some(user)) => Turn::Done(Ok(user)),
                Ok(None) => Turn::Ask {
                    state: UserValidation::Removed,
                    request: UserValidationRequest::RemoveAccount { user_id },
                },
            },
            UserValidation::Removed => match reply->Removed_0 {
                Err(error) => Turn::Done(Err(error)),
                Ok(_) => Turn::Ask {
                    state: UserValidation::Repaired,
                    request: UserValidationRequest::EnsureActiveAccount,
                },
            },
            UserValidation::Repaired => match reply->Repaired_0 {
                Err(error) => Turn::Done(Err(error)),
                Ok(_) => Turn::Done(
                    Err(AppError::Network(Text::Plain("workspace session is no longer active"))),
                ),
            },
        }
    }

    /// Begins to validate a user.
    pub fn start(user_id: String) -> (r: UserValidationStep)
        ensures
            r.says(
                (
                    Seq::empty(),
                    Turn::Ask {
                        state: UserValidation::Session { user_id },
                        request: UserValidationRequest::LoadSession { user_id },
                    },
                ),
            ),
    {
        let asked = user_id.clone();
        ask(
            UserValidation::Session { user_id },
            UserValidationRequest::LoadSession { user_id: asked },
        )
    }

    /// Takes the answer to the last question.
    pub fn advance(self, reply: UserValidationReply) -> (r: UserValidationStep)
        requires
            self.awaits(reply),
        ensures
            r.says((Seq::empty(), self.after(reply))),
    {
        match (self, reply) {
            (UserValidation::Session { user_id }, UserValidationReply::Session(reply)) =>
            match reply {
                Err(error) => done(Err(error)),
                Ok(Some(user)) => done(Ok(user)),
                Ok(None) => ask(
                    UserValidation::Removed,
                    UserValidationRequest::RemoveAccount { user_id },
                ),
            },
            (UserValidation::Removed, UserValidationReply::Removed(reply)) => match reply {
                Err(error) => done(Err(error)),
                Ok(_) => ask(
                    UserValidation::Repaired,
                    UserValidationRequest::EnsureActiveAccount,
                ),
            },
            (UserValidation::Repaired, UserValidationReply::Repaired(reply)) => match reply {
                Err(error) => done(Err(error)),
                Ok(_) => done(
                    Err(AppError::Network(Text::Plain("workspace session is no longer active"))),
                ),
            },
            _ => unreached(),
        }
    }
}

/// Where refreshing the sign-in state stands.
#[derive(PartialEq, Eq)]
pub enum AuthRefresh {
    Accounts,
    Legacy,
    LegacySynced { user_id: String },
    LegacyActivated,
    Repaired,
    Active,
    Session { user_id: String },
    Synced,
    Removed,
    RepairedAgain,
}

/// What refreshing the sign-in state asks of the outside world.
#[derive(PartialEq, Eq)]
pub enum AuthRefreshRequest {
    /// Whether any account is remembered.
    HasAccounts,
    /// Move a session of an older installation over, if there is one.
    MigrateLegacySession,
    /// Synchronize the memberships of this user.
    SyncMemberships { user: WorkspaceAuthUser },
    /// Activate this account.
    ActivateAccount { user_id: String },
    /// See to it that the active account is a remembered one.
    EnsureActiveAccount,
    /// Look up the active account.
    LoadActiveAccount,
    /// Ask the server whose session this is.
    LoadSession { user_id: String },
    /// Remove the account.
    RemoveAccount { user_id: String },
}

/// What the outside world answers.
#[derive(PartialEq, Eq)]
pub enum AuthRefreshReply {
    Accounts(Result<bool, AppError>),
    Legacy(Result<Option<WorkspaceAuthUser>, AppError>),
    LegacySynced(Result<(), AppError>),
    LegacyActivated(Result<(), AppError>),
    Repaired(Result<(), AppError>),
    Active(Result<Option<String>, AppError>),
    Session(Result<Option<WorkspaceAuthUser>, AppError>),
    Synced(Result<(), AppError>),
    Removed(Result<(), AppError>),
    RepairedAgain(Result<(), AppError>),
}

/// A step of refreshing the sign-in state.
pub type AuthRefreshStep = Step<AuthRefresh, AuthRefreshRequest, Result<(), AppError>>;

/// What follows an answer while the sign-in state is refreshed.
pub type AuthRefreshTurn = Turn<AuthRefresh, AuthRefreshRequest, Result<(), AppError>>;

impl AuthRefresh {
    /// Whether `reply` answers what is awaited.
    pub open spec fn awaits(self, reply: AuthRefreshReply) -> bool {
        match self {
            AuthRefresh::Accounts => reply is Accounts,
            AuthRefresh::Legacy => reply is Legacy,
            AuthRefresh::LegacySynced { .. } => reply is LegacySynced,
            AuthRefresh::LegacyActivated => reply is LegacyActivated,
            AuthRefresh::Repaired => reply is Repaired,
            AuthRefresh::Active => reply is Active,
            AuthRefresh::Session { .. } => reply is Session,
            AuthRefresh::Synced => reply is Synced,
            AuthRefresh::Removed => reply is Removed,
            AuthRefresh::RepairedAgain => reply is RepairedAgain,
        }
    }

    /// The turn in which the active account is seen to.
    pub open spec fn repairing() -> AuthRefreshTurn {
        Turn::Ask {
            state: AuthRefresh::Repaired,
            request: AuthRefreshRequest::EnsureActiveAccount,
        }
    }

    /// The turn that follows `reply`. While the server cannot be reached, and while
    /// memberships cannot be synchronized, the last known identity stays.
    pub open spec fn after(self, reply: AuthRefreshReply) -> AuthRefreshTurn {
        match self {
            AuthRefresh::Accounts => match reply->Accounts_0 {
                Err(error) => Turn::Done(Err(error)),
                Ok(true) => Self::repairing(),
                Ok(false) => Turn::Ask {
                    state: AuthRefresh::Legacy,
                    request: AuthRefreshRequest::MigrateLegacySession,
                },
            },
            AuthRefresh::Legacy => match reply->Legacy_0 {
                Err(error) => Turn::Done(Err(error)),
                Ok(None) => Self::repairing(),
                Ok(Some(user)) => Turn::Ask {
                    state: AuthRefresh::LegacySynced { user_id: user.id },
                    request: AuthRefreshRequest::SyncMemberships { user },
                },
            },
            AuthRefresh::LegacySynced { user_id } => Turn::Ask {
                state: AuthRefresh::LegacyActivated,
                request: AuthRefreshRequest::ActivateAccount { user_id },
            },
            AuthRefresh::LegacyActivated => match reply->LegacyActivated_0 {
                Err(error) => Turn::Done(Err(error)),
                Ok(_) => Self::repairing(),
            },
            AuthRefresh::Repaired => match reply->Repaired_0 {
                Err(error) => Turn::Done(Err(error)),
                Ok(_) => Turn::Ask {
                    state: AuthRefresh::Active,
                    request: AuthRefreshRequest::LoadActiveAccount,
                },
            },
            AuthRefresh::Active => match reply->Active_0 {
                Err(error) => Turn::Done(Err(error)),
                Ok(None) => Turn::Done(Ok(())),
                Ok(Some(user_id)) => Turn::Ask {
                    state: AuthRefresh::Session { user_id },
                    request: AuthRefreshRequest::LoadSession { user_id },
                },
            },
            AuthRefresh::Session { user_id } => match reply->Session_0 {
                Ok(Some(user)) => Turn::Ask {
                    state: AuthRefresh::Synced,
                    request: AuthRefreshRequest::SyncMemberships { user },
                },
                Ok(None) => Turn::Ask {
                    state: AuthRefresh::Removed,
                    request: AuthRefreshRequest::RemoveAccount { user_id },
                },
                Err(_) => Turn::Done(Ok(())),
            },
            AuthRefresh::Synced => Turn::Done(Ok(())),
            AuthRefresh::Removed => match reply->Removed_0 {
                Err(error) => Turn::Done(Err(error)),
                Ok(_) => Turn::Ask {
                    state: AuthRefresh::RepairedAgain,
                    request: AuthRefreshRequest::EnsureActiveAccount,
                },
            },
            AuthRefresh::RepairedAgain => Turn::Done(reply->RepairedAgain_0),
        }
    }

    /// Begins to refresh the sign-in state.
    pub fn start() -> (r: AuthRefreshStep)
        ensures
            r.says(
                (
                    Seq::empty(),
                    Turn::Ask {
                        state: AuthRefresh::Accounts,
                        request: AuthRefreshRequest::HasAccounts,
                    },
                ),
            ),
    {
        ask(AuthRefresh::Accounts, AuthRefreshRequest::HasAccounts)
    }

    fn repair_active() -> (r: AuthRefreshStep)
        ensures
            r.says((Seq::empty(), Self::repairing())),
    {
        ask(AuthRefresh::Repaired, AuthRefreshRequest::EnsureActiveAccount)
    }

    /// Takes the answer to the last question.
    pub fn advance(self, reply: AuthRefreshReply) -> (r: AuthRefreshStep)
        requires
            self.awaits(reply),
        ensures
            r.says((Seq::empty(), self.after(reply))),
    {
        match (self, reply) {
            (AuthRefresh::Accounts, AuthRefreshReply::Accounts(reply)) => match reply {
                Err(error) => done(Err(error)),
                Ok(true) => Self::repair_active(),
                Ok(false) => ask(AuthRefresh::Legacy, AuthRefreshRequest::MigrateLegacySession),
            },
            (AuthRefresh::Legacy, AuthRefreshReply::Legacy(reply)) => match reply {
                Err(error) => done(Err(error)),
                Ok(None) => Self::repair_active(),
                Ok(Some(user)) => {
                    let user_id = user.id.clone();
                    ask(
                        AuthRefresh::LegacySynced { user_id },
                        AuthRefreshRequest::SyncMemberships { user },
                    )
                },
            },
            (AuthRefresh::LegacySynced { user_id }, AuthRefreshReply::LegacySynced(_)) => ask(
                AuthRefresh::LegacyActivated,
                AuthRefreshRequest::ActivateAccount { user_id },
            ),
            (AuthRefresh::LegacyActivated, AuthRefreshReply::LegacyActivated(reply)) =>
            match reply {
                Err(error) => done(Err(error)),
                Ok(_) => Self::repair_active(),
            },
            (AuthRefresh::Repaired, AuthRefreshReply::Repaired(reply)) => match reply {
                Err(error) => done(Err(error)),
                Ok(_) => ask(AuthRefresh::Active, AuthRefreshRequest::LoadActiveAccount),
            },
            (AuthRefresh::Active, AuthRefreshReply::Active(reply)) => match reply {
                Err(error) => done(Err(error)),
                Ok(None) => done(Ok(())),
                Ok(Some(user_id)) => {
                    let asked = user_id.clone();
                    ask(
                        AuthRefresh::Session { user_id },
                        AuthRefreshRequest::LoadSession { user_id: asked },
                    )
                },
            },
            (AuthRefresh::Session { user_id }, AuthRefreshReply::Session(reply)) =>
            match session_verdict(reply) {
                SessionVerdict::Sync { user } => ask(
                    AuthRefresh::Synced,
                    AuthRefreshRequest::SyncMemberships { user },
                ),
                SessionVerdict::Remove => ask(
                    AuthRefresh::Removed,
                    AuthRefreshRequest::RemoveAccount { user_id },
                ),
                SessionVerdict::Defer => done(Ok(())),
            },
            (AuthRefresh::Synced, AuthRefreshReply::Synced(_)) => done(Ok(())),
            (AuthRefresh::Removed, AuthRefreshReply::Removed(reply)) => match reply {
                Err(error) => done(Err(error)),
                Ok(_) => ask(AuthRefresh::RepairedAgain, AuthRefreshRequest::EnsureActiveAccount),
            },
            (AuthRefresh::RepairedAgain, AuthRefreshReply::RepairedAgain(reply)) => done(reply),
            _ => unreached(),
        }
    }
}

/// After the repair, either the active account is a remembered one, or none is active that
/// should be: doing it twice changes nothing more.
pub proof fn repair_leaves_nothing_to_repair(
    accounts: Seq<WorkspaceAuthAccount>,
    active_account_id: Option<String>,
)
    ensures
        repair(accounts, active_account_id) matches AccountRepair::Activate { user_id } ==> repair(
            accounts,
            Some(user_id),
        ) is Keep,
        active_user(accounts, active_account_id) is Some ==> repair(
            accounts,
            active_account_id,
        ) is Keep,
{
}

} // verus!
