//! Loading the catalog of a connection.
use vstd::prelude::*;

use crate::error::AppError;
use crate::operations::PinnedConnection;
use crate::services::effects::{ask, done, Step, Turn};
use crate::services::terminal_authority::TerminalAuthority;
use crate::text::Text;

verus! {

/// How fresh a catalog a caller wants.
#[derive(Debug, Clone, Copy, PartialEq, Eq, Structural)]
pub enum CatalogReadPolicy {
    CacheFirst,
    LiveNoCache,
    Refresh,
}

/// How the catalog reader is to read.
#[derive(Debug, Clone, Copy, PartialEq, Eq, Structural)]
pub enum CatalogReadMode {
    CacheFirst,
    LiveNoCache,
    Refresh,
}

/// The mode that carries out a policy.
pub open spec fn mode_of(policy: CatalogReadPolicy) -> CatalogReadMode {
    match policy {
        CatalogReadPolicy::CacheFirst => CatalogReadMode::CacheFirst,
        CatalogReadPolicy::LiveNoCache => CatalogReadMode::LiveNoCache,
        CatalogReadPolicy::Refresh => CatalogReadMode::Refresh,
    }
}

impl From<CatalogReadPolicy> for CatalogReadMode {
    fn from(policy: CatalogReadPolicy) -> (r: CatalogReadMode) {
        match policy {
            CatalogReadPolicy::CacheFirst => CatalogReadMode::CacheFirst,
            CatalogReadPolicy::LiveNoCache => CatalogReadMode::LiveNoCache,
            CatalogReadPolicy::Refresh => CatalogReadMode::Refresh,
        }
    }
}

impl vstd::std_specs::convert::FromSpecImpl<CatalogReadPolicy> for CatalogReadMode {
    open spec fn obeys_from_spec() -> bool {
        true
    }

    open spec fn from_spec(policy: CatalogReadPolicy) -> CatalogReadMode {
        mode_of(policy)
    }
}

/// Where a Terminal's look at the catalog stands.
#[derive(PartialEq, Eq)]
pub enum TerminalCatalog {
    Pinned { authority: TerminalAuthority, policy: CatalogReadPolicy },
}

/// What a Terminal's look at the catalog asks of the outside world.
#[derive(PartialEq, Eq)]
pub enum TerminalCatalogRequest {
    /// Pin the connection for reading.
    Pin { connection_id: u128 },
}

/// How a Terminal's look at the catalog ends: with a refusal, or with what to load.
#[derive(PartialEq, Eq)]
pub enum TerminalCatalogEnd {
    Refuse(AppError),
    Load { connection_id: u128, mode: CatalogReadMode },
}

/// A step of a Terminal's look at the catalog.
pub type TerminalCatalogStep = Step<TerminalCatalog, TerminalCatalogRequest, TerminalCatalogEnd>;

/// What follows an answer during a Terminal's look at the catalog.
pub type TerminalCatalogTurn = Turn<TerminalCatalog, TerminalCatalogRequest, TerminalCatalogEnd>;

impl TerminalCatalog {
    /// The turn that follows the pinned connection. The catalog is loaded only of the
    /// connection that the session was opened on, as it was then.
    pub open spec fn after(self, reply: Result<PinnedConnection, AppError>) -> TerminalCatalogTurn {
        match self {
            TerminalCatalog::Pinned { authority, policy } => match reply {
                Err(error) => Turn::Done(TerminalCatalogEnd::Refuse(error)),
                Ok(pin) => if authority.covers(pin) {
                    Turn::Done(
                        TerminalCatalogEnd::Load {
                            connection_id: authority.connection_id,
                            mode: mode_of(policy),
                        },
                    )
                } else {
                    Turn::Done(
                        TerminalCatalogEnd::Refuse(
                            AppError::Blocked {
                                reason: Text::Plain(
                                    "Terminal connection authority is no longer current",
                                ),
                            },
                        ),
                    )
                },
            },
        }
    }

    /// Begins a Terminal's look at the catalog.
    pub fn start(authority: TerminalAuthority, policy: CatalogReadPolicy) -> (r:
        TerminalCatalogStep)
        ensures
            r.says(
                (
                    Seq::empty(),
                    Turn::Ask {
                        state: TerminalCatalog::Pinned { authority, policy },
                        request: TerminalCatalogRequest::Pin {
                            connection_id: authority.connection_id,
                        },
                    },
                ),
            ),
    {
        let connection_id: u128 = authority.connection_id;
        ask(
            TerminalCatalog::Pinned { authority, policy },
            TerminalCatalogRequest::Pin { connection_id },
        )
    }

    /// Takes the pinned connection.
    pub fn advance(self, reply: Result<PinnedConnection, AppError>) -> (r: TerminalCatalogStep)
        ensures
            r.says((Seq::empty(), self.after(reply))),
    {
        match self {
            TerminalCatalog::Pinned { authority, policy } => match reply {
                Err(error) => done(TerminalCatalogEnd::Refuse(error)),
                Ok(pin) => match authority.ensure_pin(&pin) {
                    Err(error) => done(TerminalCatalogEnd::Refuse(error)),
                    Ok(_) => done(
                        TerminalCatalogEnd::Load {
                            connection_id: authority.connection_id,
                            mode: CatalogReadMode::from(policy),
                        },
                    ),
                },
            },
        }
    }
}

/// A Terminal's look at the catalog is of the connection that the session was opened on,
/// in the mode that was asked for, and only while that connection, its revision and its
/// scope are still the same.
pub proof fn terminals_load_their_own_catalog(
    authority: TerminalAuthority,
    policy: CatalogReadPolicy,
    begun: TerminalCatalogStep,
    pin: PinnedConnection,
    error: AppError,
)
    requires
        call_ensures(TerminalCatalog::start, (authority, policy), begun),
    ensures
        ({
            let ended = begun.turn->state.after(Ok(pin));
            &&& begun.effects@.len() == 0
            &&& begun.turn matches Turn::Ask {
                request: TerminalCatalogRequest::Pin { connection_id },
                ..
            } && connection_id == authority.connection_id
            &&& begun.turn->state.after(Err(error)) matches Turn::Done(
                TerminalCatalogEnd::Refuse(told),
            ) && told == error
            &&& if pin.scope.workspace_id == authority.workspace_id
                && pin.scope.account_scope.key()@ == authority.account_scope@ && pin.connection_id
                == authority.connection_id && pin.connection_revision
                == authority.connection_revision {
                &&& ended matches Turn::Done(TerminalCatalogEnd::Load { connection_id, mode })
                &&& connection_id == authority.connection_id
                &&& match policy {
                    CatalogReadPolicy::CacheFirst => mode == CatalogReadMode::CacheFirst,
                    CatalogReadPolicy::LiveNoCache => mode == CatalogReadMode::LiveNoCache,
                    CatalogReadPolicy::Refresh => mode == CatalogReadMode::Refresh,
                }
            } else {
                ended matches Turn::Done(TerminalCatalogEnd::Refuse(AppError::Blocked { reason }))
                    && reason == Text::Plain("Terminal connection authority is no longer current")
            }
        }),
{
}

} // verus!
