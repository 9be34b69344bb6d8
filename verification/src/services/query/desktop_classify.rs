//! Classifying SQL from the desktop.
use vstd::pervasive::unreached;
use vstd::prelude::*;

use crate::error::AppError;
use crate::model::{Classification, Engine};
use crate::operations::PinnedConnection;
use crate::services::effects::{ask, done, Step, Turn};
use crate::services::query::desktop_preview::DesktopSqlInspectionError;

verus! {

/// SQL to classify for a connection.
#[derive(PartialEq, Eq)]
pub struct DesktopSqlClassificationRequest {
    pub connection_id: u128,
    pub sql: String,
}

/// Where a classification stands.
#[derive(PartialEq, Eq)]
pub enum DesktopClassify {
    Pinned { sql: String },
    Classified,
}

/// What a classification asks of the outside world.
#[derive(PartialEq, Eq)]
pub enum DesktopClassifyRequest {
    /// Pin the connection as it may be seen now.
    PinForView { connection_id: u128 },
    /// Classify the SQL in this engine's dialect.
    Classify { sql: String, engine: Engine },
}

/// What the outside world answers.
#[derive(PartialEq, Eq)]
pub enum DesktopClassifyReply {
    Pinned(Result<PinnedConnection, AppError>),
    Classified(Result<Classification, AppError>),
}

/// How a classification ends.
pub type DesktopClassifyEnd = Result<Classification, DesktopSqlInspectionError>;

/// A step of a classification.
pub type DesktopClassifyStep = Step<DesktopClassify, DesktopClassifyRequest, DesktopClassifyEnd>;

/// What follows an answer during a classification.
pub type DesktopClassifyTurn = Turn<DesktopClassify, DesktopClassifyRequest, DesktopClassifyEnd>;

impl DesktopClassify {
    /// Whether `reply` answers what is awaited.
    pub open spec fn awaits(self, reply: DesktopClassifyReply) -> bool {
        match self {
            DesktopClassify::Pinned { .. } => reply is Pinned,
            DesktopClassify::Classified => reply is Classified,
        }
    }

    /// The turn that follows `reply`.
    pub open spec fn after(self, reply: DesktopClassifyReply) -> DesktopClassifyTurn {
        match self {
            DesktopClassify::Pinned { sql } => match reply->Pinned_0 {
                Err(error) => Turn::Done(Err(DesktopSqlInspectionError::Application(error))),
                Ok(pin) => Turn::Ask {
                    state: DesktopClassify::Classified,
                    request: DesktopClassifyRequest::Classify { sql, engine: pin.profile.engine },
                },
            },
            DesktopClassify::Classified => match reply->Classified_0 {
                Err(error) => Turn::Done(Err(DesktopSqlInspectionError::Application(error))),
                Ok(classification) => Turn::Done(Ok(classification)),
            },
        }
    }

    /// Begins a classification.
    pub fn start(request: DesktopSqlClassificationRequest) -> (r: DesktopClassifyStep)
        ensures
            r.says(
                (
                    Seq::empty(),
                    Turn::Ask {
                        state: DesktopClassify::Pinned { sql: request.sql },
                        request: DesktopClassifyRequest::PinForView {
                            connection_id: request.connection_id,
                        },
                    },
                ),
            ),
    {
        let DesktopSqlClassificationRequest { connection_id, sql } = request;
        ask(
            DesktopClassify::Pinned { sql },
            DesktopClassifyRequest::PinForView { connection_id },
        )
    }

    /// Takes the answer to the last question.
    pub fn advance(self, reply: DesktopClassifyReply) -> (r: DesktopClassifyStep)
        requires
            self.awaits(reply),
        ensures
            r.says((Seq::empty(), self.after(reply))),
    {
        match (self, reply) {
            (DesktopClassify::Pinned { sql }, DesktopClassifyReply::Pinned(reply)) => match reply {
                Err(error) => done(Err(DesktopSqlInspectionError::Application(error))),
                Ok(pin) => ask(
                    DesktopClassify::Classified,
                    DesktopClassifyRequest::Classify { sql, engine: pin.profile.engine },
                ),
            },
            (DesktopClassify::Classified, DesktopClassifyReply::Classified(reply)) => match reply {
                Err(error) => done(Err(DesktopSqlInspectionError::Application(error))),
                Ok(classification) => done(Ok(classification)),
            },
            _ => unreached(),
        }
    }
}

/// A classification is of the SQL that was asked about, in the dialect of the engine of
/// the connection that was asked for, and is told as it was found.
pub proof fn classifications_are_of_what_was_asked(
    request: DesktopSqlClassificationRequest,
    begun: DesktopClassifyStep,
    pin: PinnedConnection,
    found: Result<Classification, AppError>,
    error: AppError,
)
    requires
        call_ensures(DesktopClassify::start, (request,), begun),
    ensures
        ({
            let pinned = begun.turn->state.after(DesktopClassifyReply::Pinned(Ok(pin)));
            let ended = pinned->state.after(DesktopClassifyReply::Classified(found));
            &&& begun.turn matches Turn::Ask {
                request: DesktopClassifyRequest::PinForView { connection_id },
                ..
            } && connection_id == request.connection_id
            &&& pinned matches Turn::Ask {
                request: DesktopClassifyRequest::Classify { sql, engine },
                ..
            } && sql == request.sql && engine == pin.profile.engine
            &&& match found {
                Ok(classification) => ended == DesktopClassifyTurn::Done(Ok(classification)),
                Err(error) => ended == DesktopClassifyTurn::Done(
                    Err(DesktopSqlInspectionError::Application(error)),
                ),
            }
            &&& begun.turn->state.after(DesktopClassifyReply::Pinned(Err(error)))
                == DesktopClassifyTurn::Done(Err(DesktopSqlInspectionError::Application(error)))
        }),
{
}

} // verus!
