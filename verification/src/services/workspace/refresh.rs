//! Refreshing the memberships of every remembered account.
use vstd::pervasive::unreached;
use vstd::prelude::*;

use crate::error::AppError;
use crate::model::WorkspaceAuthUser;
use crate::services::effects::{ask, done, Step, Turn};
use crate::services::workspace::accounts::{session_verdict, SessionVerdict};

verus! {

/// Where the refresh stands. The accounts before `next` are done with.
#[derive(PartialEq, Eq)]
pub enum MembershipRefresh {
    Accounts,
    Session { ids: Vec<String>, next: usize },
    Synced { ids: Vec<String>, next: usize },
    Removed { ids: Vec<String>, next: usize },
    Repaired,
}

/// What the refresh asks of the outside world.
#[derive(PartialEq, Eq)]
pub enum MembershipRefreshRequest {
    /// The ids of the remembered accounts.
    ListAccounts,
    /// Ask the server whose session this is.
    LoadSession { user_id: String },
    /// Synchronize the memberships of this user.
    SyncMemberships { user: WorkspaceAuthUser },
    /// Remove the account.
    RemoveAccount { user_id: String },
    /// See to it that the active account is a remembered one.
    EnsureActiveAccount,
}

/// What the outside world answers.
#[derive(PartialEq, Eq)]
pub enum MembershipRefreshReply {
    Accounts(Result<Vec<String>, AppError>),
    /// Nobody's, where the session is over.
    Session(Result<Option<WorkspaceAuthUser>, AppError>),
    Synced(Result<(), AppError>),
    Removed(Result<(), AppError>),
    Repaired(Result<(), AppError>),
}

/// A step of the refresh.
pub type MembershipRefreshStep = Step<
    MembershipRefresh,
    MembershipRefreshRequest,
    Result<(), AppError>,
>;

/// What follows an answer during the refresh.
pub type MembershipRefreshTurn = Turn<
    MembershipRefresh,
    MembershipRefreshRequest,
    Result<(), AppError>,
>;

/// The turn in which account number `next` is asked about, or, after the last, the active
/// account is seen to.
pub open spec fn turning_to(ids: Vec<String>, next: usize) -> MembershipRefreshTurn {
    if next < ids@.len() {
        Turn::Ask {
            state: MembershipRefresh::Session { ids, next },
            request: MembershipRefreshRequest::LoadSession { user_id: ids@[next as int] },
        }
    } else {
        Turn::Ask {
            state: MembershipRefresh::Repaired,
            request: MembershipRefreshRequest::EnsureActiveAccount,
        }
    }
}

/// Computes [`turning_to`].
fn turn_to(ids: Vec<String>, next: usize) -> (r: MembershipRefreshStep)
    ensures
        r.says((Seq::empty(), turning_to(ids, next))),
{
    if next < ids.len() {
        let user_id = ids[next].clone();
        ask(
            MembershipRefresh::Session { ids, next },
            MembershipRefreshRequest::LoadSession { user_id },
        )
    } else {
        ask(MembershipRefresh::Repaired, MembershipRefreshRequest::EnsureActiveAccount)
    }
}

impl MembershipRefresh {
    /// Whether `reply` answers what is awaited.
    pub open spec fn awaits(self, reply: MembershipRefreshReply) -> bool {
        match self {
            MembershipRefresh::Accounts => reply is Accounts,
            MembershipRefresh::Session { ids, next } => reply is Session && next < ids@.len(),
            MembershipRefresh::Synced { ids, next } => reply is Synced && next < ids@.len(),
            MembershipRefresh::Removed { ids, next } => reply is Removed && next < ids@.len(),
            MembershipRefresh::Repaired => reply is Repaired,
        }
    }

    /// The turn that follows `reply`. An account of which the server cannot be asked stays
    /// as it is.
    pub open spec fn after(self, reply: MembershipRefreshReply) -> MembershipRefreshTurn {
        match self {
            MembershipRefresh::Accounts => match reply->Accounts_0 {
                Err(error) => Turn::Done(Err(error)),
                Ok(ids) => turning_to(ids, 0),
            },
            MembershipRefresh::Session { ids, next } => match reply->Session_0 {
                Ok(Some(user)) => Turn::Ask {
                    state: MembershipRefresh::Synced { ids, next },
                    request: MembershipRefreshRequest::SyncMemberships { user },
                },
                Ok(None) => Turn::Ask {
                    state: MembershipRefresh::Removed { ids, next },
                    request: MembershipRefreshRequest::RemoveAccount { user_id: ids@[next as int] },
                },
                Err(_) => turning_to(ids, (next + 1) as usize),
            },
            MembershipRefresh::Synced { ids, next } => match reply->Synced_0 {
                Err(error) => Turn::Done(Err(error)),
                Ok(_) => turning_to(ids, (next + 1) as usize),
            },
            MembershipRefresh::Removed { ids, next } => match reply->Removed_0 {
                Err(error) => Turn::Done(Err(error)),
                Ok(_) => turning_to(ids, (next + 1) as usize),
            },
            MembershipRefresh::Repaired => Turn::Done(reply->Repaired_0),
        }
    }

    /// Begins the refresh.
    pub fn start() -> (r: MembershipRefreshStep)
        ensures
            r.says(
                (
                    Seq::empty(),
                    Turn::Ask {
                        state: MembershipRefresh::Accounts,
                        request: MembershipRefreshRequest::ListAccounts,
                    },
                ),
            ),
    {
        ask(MembershipRefresh::Accounts, MembershipRefreshRequest::ListAccounts)
    }

    /// Takes the answer to the last question.
    pub fn advance(self, reply: MembershipRefreshReply) -> (r: MembershipRefreshStep)
        requires
            self.awaits(reply),
        ensures
            r.says((Seq::empty(), self.after(reply))),
    {
        match (self, reply) {
            (MembershipRefresh::Accounts, MembershipRefreshReply::Accounts(reply)) => match reply {
                Err(error) => done(Err(error)),
                Ok(ids) => turn_to(ids, 0),
            },
            (
                MembershipRefresh::Session { ids, next },
                MembershipRefreshReply::Session(reply),
            ) => {
                let count: usize = ids.len();
                match session_verdict(reply) {
                    SessionVerdict::Sync { user } => ask(
                        MembershipRefresh::Synced { ids, next },
                        MembershipRefreshRequest::SyncMemberships { user },
                    ),
                    SessionVerdict::Remove => {
                        let user_id = ids[next].clone();
                        ask(
                            MembershipRefresh::Removed { ids, next },
                            MembershipRefreshRequest::RemoveAccount { user_id },
                        )
                    },
                    SessionVerdict::Defer => turn_to(ids, next + 1),
                }
            },
            (MembershipRefresh::Synced { ids, next }, MembershipRefreshReply::Synced(reply)) => {
                let count: usize = ids.len();
                match reply {
                    Err(error) => done(Err(error)),
                    Ok(_) => turn_to(ids, next + 1),
                }
            },
            (MembershipRefresh::Removed { ids, next }, MembershipRefreshReply::Removed(reply)) => {
                let count: usize = ids.len();
                match reply {
                    Err(error) => done(Err(error)),
                    Ok(_) => turn_to(ids, next + 1),
                }
            },
            (MembershipRefresh::Repaired, MembershipRefreshReply::Repaired(reply)) => done(reply),
            _ => unreached(),
        }
    }
}

/// How many accounts the refresh still has to ask about, counting the one at hand.
pub open spec fn remaining(state: MembershipRefresh) -> int {
    match state {
        MembershipRefresh::Session { ids, next } => ids@.len() - next,
        MembershipRefresh::Synced { ids, next } => ids@.len() - next - 1,
        MembershipRefresh::Removed { ids, next } => ids@.len() - next - 1,
        _ => 0,
    }
}

/// No account is skipped or asked about twice: while accounts remain, every question about
/// a session is about the next one in the list, and the refresh turns to the active account
/// only when none remains.
pub proof fn every_account_is_asked_about_once(
    state: MembershipRefresh,
    reply: MembershipRefreshReply,
)
    requires
        state.awaits(reply),
        !(state is Accounts),
    ensures
        state.after(reply) matches Turn::Ask { state: next_state, .. } ==> {
            &&& next_state is Session ==> remaining(state) >= 1 && remaining(next_state)
                == remaining(state) - (if state is Session { 1int } else { 0int })
            &&& next_state is Repaired ==> remaining(state) <= 1
        },
{
    match state {
        MembershipRefresh::Session { ids, .. } => {
            assert(ids.len() == ids@.len());
        },
        MembershipRefresh::Synced { ids, .. } => {
            assert(ids.len() == ids@.len());
        },
        MembershipRefresh::Removed { ids, .. } => {
            assert(ids.len() == ids@.len());
        },
        _ => {},
    }
}

} // verus!
