//! The monitoring status of a connection.
use vstd::pervasive::unreached;
use vstd::prelude::*;

use crate::error::AppError;
use crate::model::{ConnectionAccess, Engine};
use crate::operations::PinnedConnection;
use crate::services::effects::{ask, done, Effect, Step, Turn};
use crate::services::monitoring::shared::{
    executed, scoped, HeldAuthority, MonitoringExecutionFailure, MonitoringScopedFailure,
    MonitoringServiceError, MonitoringStatus, MonitoringStatusReceipt,
};
use crate::text::Text;

verus! {

/// How a status request ends.
pub type MonitoringStatusEnd = Result<MonitoringStatusReceipt, MonitoringServiceError>;

/// Where a status request stands: what it is waiting to hear.
#[derive(PartialEq, Eq)]
pub enum MonitoringStatusRun {
    Pin,
    Connection { engine: Engine },
    Backend { engine: Engine },
    Status,
}

/// What a status request asks of the outside world.
#[derive(PartialEq, Eq)]
pub enum MonitoringStatusRunRequest {
    /// Look the connection up in the current scope, for viewing, and hold on to the scope.
    PinForView { connection_id: u128 },
    /// Connect the pinned connection.
    Connect { access: ConnectionAccess },
    /// Take the connection's SQL backend.
    OpenBackend,
    /// Collect the status from the target.
    Collect { engine: Engine },
}

/// What the outside world answers.
#[derive(PartialEq, Eq)]
pub enum MonitoringStatusRunReply {
    Pin(Result<PinnedConnection, AppError>),
    Connection(Result<(), AppError>),
    Backend(Result<(), AppError>),
    Status(Result<MonitoringStatus, AppError>),
}

/// A step of a status request.
pub type MonitoringStatusRunStep = Step<
    MonitoringStatusRun,
    MonitoringStatusRunRequest,
    MonitoringStatusEnd,
>;

/// What follows an answer in a status request.
pub type MonitoringStatusRunTurn = Turn<
    MonitoringStatusRun,
    MonitoringStatusRunRequest,
    MonitoringStatusEnd,
>;

/// The status of a document database, which has no monitoring role.
pub open spec fn document_status(engine: Engine) -> MonitoringStatus {
    MonitoringStatus {
        engine,
        coverage: Text::Plain("basic"),
        role_available: false,
        role_granted: false,
        current_user: None,
        can_manage: false,
        note: Text::Plain("MongoDB connections use the basic, role-free collector."),
    }
}

/// What follows once the connection was looked up. A document database is not connected.
pub open spec fn after_pin(reply: Result<PinnedConnection, AppError>) -> (
    Seq<Effect>,
    MonitoringStatusRunTurn,
) {
    (
        Seq::empty(),
        match reply {
            Err(error) => Turn::Done(Err(scoped(error))),
            Ok(pin) => if pin.profile.engine.spec_is_document() {
                Turn::Done(
                    Ok(
                        MonitoringStatusReceipt {
                            status: document_status(pin.profile.engine),
                            held: HeldAuthority::Scope,
                        },
                    ),
                )
            } else {
                Turn::Ask {
                    state: MonitoringStatusRun::Connection { engine: pin.profile.engine },
                    request: MonitoringStatusRunRequest::Connect { access: ConnectionAccess::Read },
                }
            },
        },
    )
}

fn take_pin(reply: Result<PinnedConnection, AppError>) -> (r: MonitoringStatusRunStep)
    ensures
        r.says(after_pin(reply)),
{
    match reply {
        Err(error) => done(
            Err(MonitoringServiceError::Scoped(MonitoringScopedFailure { error })),
        ),
        Ok(pin) => {
            let engine = pin.profile.engine;
            if engine.is_document() {
                done(
                    Ok(
                        MonitoringStatusReceipt::scoped(
                            MonitoringStatus {
                                engine,
                                coverage: Text::Plain("basic"),
                                role_available: false,
                                role_granted: false,
                                current_user: None,
                                can_manage: false,
                                note: Text::Plain(
                                    "MongoDB connections use the basic, role-free collector.",
                                ),
                            },
                        ),
                    ),
                )
            } else {
                ask(
                    MonitoringStatusRun::Connection { engine },
                    MonitoringStatusRunRequest::Connect { access: ConnectionAccess::Read },
                )
            }
        },
    }
}

/// What follows once the target was connected.
pub open spec fn after_connection(engine: Engine, reply: Result<(), AppError>) -> (
    Seq<Effect>,
    MonitoringStatusRunTurn,
) {
    (
        Seq::empty(),
        match reply {
            Err(error) => Turn::Done(Err(MonitoringServiceError::Application(error))),
            Ok(_) => Turn::Ask {
                state: MonitoringStatusRun::Backend { engine },
                request: MonitoringStatusRunRequest::OpenBackend,
            },
        },
    )
}

fn take_connection(engine: Engine, reply: Result<(), AppError>) -> (r: MonitoringStatusRunStep)
    ensures
        r.says(after_connection(engine, reply)),
{
    match reply {
        Err(error) => done(Err(MonitoringServiceError::Application(error))),
        Ok(_) => ask(
            MonitoringStatusRun::Backend { engine },
            MonitoringStatusRunRequest::OpenBackend,
        ),
    }
}

/// What follows once the backend was opened.
pub open spec fn after_backend(engine: Engine, reply: Result<(), AppError>) -> (
    Seq<Effect>,
    MonitoringStatusRunTurn,
) {
    (
        Seq::empty(),
        match reply {
            Err(error) => Turn::Done(Err(executed(error))),
            Ok(_) => Turn::Ask {
                state: MonitoringStatusRun::Status,
                request: MonitoringStatusRunRequest::Collect { engine },
            },
        },
    )
}

fn take_backend(engine: Engine, reply: Result<(), AppError>) -> (r: MonitoringStatusRunStep)
    ensures
        r.says(after_backend(engine, reply)),
{
    match reply {
        Err(error) => done(
            Err(MonitoringServiceError::Execution(MonitoringExecutionFailure { error })),
        ),
        Ok(_) => ask(
            MonitoringStatusRun::Status,
            MonitoringStatusRunRequest::Collect { engine },
        ),
    }
}

/// What follows once the status was collected.
pub open spec fn after_status(reply: Result<MonitoringStatus, AppError>) -> (
    Seq<Effect>,
    MonitoringStatusRunTurn,
) {
    (
        Seq::empty(),
        match reply {
            Err(error) => Turn::Done(Err(executed(error))),
            Ok(status) => Turn::Done(
                Ok(MonitoringStatusReceipt { status, held: HeldAuthority::Lease }),
            ),
        },
    )
}

fn take_status(reply: Result<MonitoringStatus, AppError>) -> (r: MonitoringStatusRunStep)
    ensures
        r.says(after_status(reply)),
{
    match reply {
        Err(error) => done(
            Err(MonitoringServiceError::Execution(MonitoringExecutionFailure { error })),
        ),
        Ok(status) => done(Ok(MonitoringStatusReceipt::leased(status))),
    }
}

impl MonitoringStatusRun {
    /// Whether `reply` answers what is awaited.
    pub open spec fn awaits(self, reply: MonitoringStatusRunReply) -> bool {
        match self {
            MonitoringStatusRun::Pin => reply is Pin,
            MonitoringStatusRun::Connection { .. } => reply is Connection,
            MonitoringStatusRun::Backend { .. } => reply is Backend,
            MonitoringStatusRun::Status => reply is Status,
        }
    }

    /// The effects and the turn that follow `reply`.
    pub open spec fn after(
        self,
        reply: MonitoringStatusRunReply,
    ) -> (Seq<Effect>, MonitoringStatusRunTurn) {
        match self {
            MonitoringStatusRun::Pin => after_pin(reply->Pin_0),
            MonitoringStatusRun::Connection { engine } => after_connection(
                engine,
                reply->Connection_0,
            ),
            MonitoringStatusRun::Backend { engine } => after_backend(engine, reply->Backend_0),
            MonitoringStatusRun::Status => after_status(reply->Status_0),
        }
    }

    /// Begins a status request.
    pub fn start(connection_id: u128) -> (r: MonitoringStatusRunStep)
        ensures
            r.says(
                (
                    Seq::empty(),
                    Turn::Ask {
                        state: MonitoringStatusRun::Pin,
                        request: MonitoringStatusRunRequest::PinForView { connection_id },
                    },
                ),
            ),
    {
        ask(MonitoringStatusRun::Pin, MonitoringStatusRunRequest::PinForView { connection_id })
    }

    /// Takes the answer to the last question.
    pub fn advance(self, reply: MonitoringStatusRunReply) -> (r: MonitoringStatusRunStep)
        requires
            self.awaits(reply),
        ensures
            r.says(self.after(reply)),
    {
        match (self, reply) {
            (MonitoringStatusRun::Pin, MonitoringStatusRunReply::Pin(reply)) => take_pin(reply),
            (
                MonitoringStatusRun::Connection { engine },
                MonitoringStatusRunReply::Connection(reply),
            ) => take_connection(engine, reply),
            (
                MonitoringStatusRun::Backend { engine },
                MonitoringStatusRunReply::Backend(reply),
            ) => take_backend(engine, reply),
            (
                MonitoringStatusRun::Status,
                MonitoringStatusRunReply::Status(reply),
            ) => take_status(reply),
            _ => unreached(),
        }
    }
}

} // verus!
