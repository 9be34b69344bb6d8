//! Testing and removing connections.
use vstd::pervasive::unreached;
use vstd::prelude::*;

use crate::error::{AppError, AppResult};
use crate::ids::{parse_id, parsed_id};
use crate::model::{ConnectionProfile, WorkspaceConnectionAccess, WorkspaceCredentialMode};
use crate::services::effects::{ask, done, Effect, Step, Turn};
use crate::services::workspace::bind::MAX_CONNECTION_CREDENTIAL_BYTES;
use crate::text::{byte_count, byte_len, Text};

verus! {

/// Whether a saved connection may be dialled to test it.
pub fn check_saved_test(profile: &ConnectionProfile) -> (r: AppResult<()>)
    ensures
        profile.workspace_access.spec_can_read() ==> r is Ok,
        !profile.workspace_access.spec_can_read() ==> r == Err::<(), AppError>(
            AppError::Blocked {
                reason: Text::Plain("your workspace role cannot test this shared connection"),
            },
        ),
{
    if profile.workspace_access.can_read() {
        Ok(())
    } else {
        Err(
            AppError::Blocked {
                reason: Text::Plain("your workspace role cannot test this shared connection"),
            },
        )
    }
}

/// Whether a profile is local in every respect.
pub open spec fn is_local(profile: ConnectionProfile) -> bool {
    profile.workspace_access == WorkspaceConnectionAccess::Local && profile.credential_mode
        == WorkspaceCredentialMode::Local
}

/// The secret with which a profile that need not be saved is dialled to test it.
pub fn check_profile_test(profile: &ConnectionProfile, password: Option<String>) -> (r: AppResult<
    String,
>)
    ensures
        !is_local(*profile) ==> r == Err::<String, AppError>(
            AppError::Blocked {
                reason: Text::Plain(
                    "shared connections must be tested through workspace authorization",
                ),
            },
        ),
        is_local(*profile) ==> match password {
            Some(secret) => r == if byte_count(secret@) > MAX_CONNECTION_CREDENTIAL_BYTES {
                Err::<String, AppError>(
                    AppError::Config(Text::Plain("connection credential exceeds the size limit")),
                )
            } else {
                Ok(secret)
            },
            None => r is Ok && r->Ok_0@ == Seq::<char>::empty(),
        },
{
    if profile.workspace_access != WorkspaceConnectionAccess::Local || profile.credential_mode
        != WorkspaceCredentialMode::Local {
        return Err(
            AppError::Blocked {
                reason: Text::Plain(
                    "shared connections must be tested through workspace authorization",
                ),
            },
        );
    }
    match password {
        None => Ok(String::new()),
        Some(secret) => {
            if byte_len(secret.as_str()) > MAX_CONNECTION_CREDENTIAL_BYTES {
                Err(AppError::Config(Text::Plain("connection credential exceeds the size limit")))
            } else {
                Ok(secret)
            }
        },
    }
}

/// What a removal needs to know of the connection.
#[derive(PartialEq, Eq)]
pub struct RemovalPin {
    pub workspace_access: WorkspaceConnectionAccess,
    pub secret_ref: Option<String>,
}

/// Where removing a connection stands.
#[derive(PartialEq, Eq)]
pub enum Removal {
    Pinned { id: u128 },
    Deleted { id: u128, secret_ref: Option<String> },
}

/// What removing a connection asks of the outside world.
#[derive(PartialEq, Eq)]
pub enum RemovalRequest {
    /// Pin the connection for reading, and let nothing else change it until the end.
    Pin { connection_id: u128 },
    /// Delete the stored connection.
    Delete { connection_id: u128 },
}

/// What the outside world answers.
#[derive(PartialEq, Eq)]
pub enum RemovalReply {
    Pinned(Result<RemovalPin, AppError>),
    Deleted(Result<(), AppError>),
}

/// A step of removing a connection.
pub type RemovalStep = Step<Removal, RemovalRequest, Result<(), AppError>>;

/// What follows an answer while a connection is removed.
pub type RemovalTurn = Turn<Removal, RemovalRequest, Result<(), AppError>>;

/// What is cleared away after a connection was deleted: its credential, unless the stored
/// reference to it is unreadable, and its open pools.
pub open spec fn cleared_away(id: u128, secret_ref: Option<String>) -> Seq<Effect> {
    let retire = Effect::RetireConnection { connection_id: id };
    match secret_ref {
        Some(text) => match parsed_id(text@) {
            Ok(credential_id) => seq![
                Effect::DeleteSecret { credential_id, action: "delete_connection" },
                retire,
            ],
            Err(_) => seq![retire],
        },
        None => seq![retire],
    }
}

impl Removal {
    /// Whether `reply` answers what is awaited.
    pub open spec fn awaits(self, reply: RemovalReply) -> bool {
        match self {
            Removal::Pinned { .. } => reply is Pinned,
            Removal::Deleted { .. } => reply is Deleted,
        }
    }

    /// The effects and the turn that follow `reply`.
    pub open spec fn after(self, reply: RemovalReply) -> (Seq<Effect>, RemovalTurn) {
        match self {
            Removal::Pinned { id } => (
                Seq::empty(),
                match reply->Pinned_0 {
                    Err(error) => Turn::Done(Err(error)),
                    Ok(pin) => if pin.workspace_access != WorkspaceConnectionAccess::Local {
                        Turn::Done(
                            Err(
                                AppError::Blocked {
                                    reason: Text::Plain(
                                        "shared connections can only be removed by a workspace administrator",
                                    ),
                                },
                            ),
                        )
                    } else {
                        Turn::Ask {
                            state: Removal::Deleted { id, secret_ref: pin.secret_ref },
                            request: RemovalRequest::Delete { connection_id: id },
                        }
                    },
                },
            ),
            Removal::Deleted { id, secret_ref } => match reply->Deleted_0 {
                Err(error) => (Seq::empty(), Turn::Done(Err(error))),
                Ok(_) => (cleared_away(id, secret_ref), Turn::Done(Ok(()))),
            },
        }
    }

    /// Begins to remove a connection.
    pub fn start(id: u128) -> (r: RemovalStep)
        ensures
            r.says(
                (
                    Seq::empty(),
                    Turn::Ask {
                        state: Removal::Pinned { id },
                        request: RemovalRequest::Pin { connection_id: id },
                    },
                ),
            ),
    {
        ask(Removal::Pinned { id }, RemovalRequest::Pin { connection_id: id })
    }

    /// Takes the answer to the last question.
    pub fn advance(self, reply: RemovalReply) -> (r: RemovalStep)
        requires
            self.awaits(reply),
        ensures
            r.says(self.after(reply)),
    {
        match (self, reply) {
            (Removal::Pinned { id }, RemovalReply::Pinned(reply)) => match reply {
                Err(error) => done(Err(error)),
                Ok(pin) => if pin.workspace_access != WorkspaceConnectionAccess::Local {
                    done(
                        Err(
                            AppError::Blocked {
                                reason: Text::Plain(
                                    "shared connections can only be removed by a workspace administrator",
                                ),
                            },
                        ),
                    )
                } else {
                    ask(
                        Removal::Deleted { id, secret_ref: pin.secret_ref },
                        RemovalRequest::Delete { connection_id: id },
                    )
                },
            },
            (Removal::Deleted { id, secret_ref }, RemovalReply::Deleted(reply)) => match reply {
                Err(error) => done(Err(error)),
                Ok(_) => {
                    let mut effects: Vec<Effect> = Vec::new();
                    match &secret_ref {
                        Some(text) => match parse_id(text.as_str()) {
                            Ok(credential_id) => {
                                effects.push(
                                    Effect::DeleteSecret {
                                        credential_id,
                                        action: "delete_connection",
                                    },
                                );
                            },
                            Err(_) => {},
                        },
                        None => {},
                    }
                    effects.push(Effect::RetireConnection { connection_id: id });
                    assert(effects@ =~= cleared_away(id, secret_ref));
                    Step { effects, turn: Turn::Done(Ok(())) }
                },
            },
            _ => unreached(),
        }
    }
}

} // verus!
