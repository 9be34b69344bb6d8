//! The safety settings of a connection.
use vstd::pervasive::unreached;
use vstd::prelude::*;

use crate::error::AppError;
use crate::model::{ConnectionAccess, SafetySettings, WorkspaceConnectionAccess};
use crate::services::effects::{ask, done, Step, Turn};

verus! {

/// `value`, or the nearer of the two bounds where it is outside them.
pub open spec fn clamped(value: int, low: int, high: int) -> int {
    if value < low {
        low
    } else if value > high {
        high
    } else {
        value
    }
}

/// The settings as they may be stored: the row limits within their bounds, and writes only
/// where the role lets its holder write.
pub open spec fn admitted(
    settings: SafetySettings,
    access: WorkspaceConnectionAccess,
) -> SafetySettings {
    SafetySettings {
        allow_writes: settings.allow_writes && access.spec_can_write(),
        max_rows: clamped(settings.max_rows as int, 1, 100_000) as u64,
        exec_preview_row_limit: clamped(
            settings.exec_preview_row_limit as int,
            0,
            1_000_000,
        ) as i64,
        ..settings
    }
}

/// The access that changing the settings takes.
pub open spec fn access_for(settings: SafetySettings) -> ConnectionAccess {
    if settings.allow_writes {
        ConnectionAccess::Write
    } else {
        ConnectionAccess::Read
    }
}

/// Keeps the row limits within their bounds.
fn clamp_limits(settings: SafetySettings) -> (r: SafetySettings)
    ensures
        r == (SafetySettings {
            max_rows: clamped(settings.max_rows as int, 1, 100_000) as u64,
            exec_preview_row_limit: clamped(
                settings.exec_preview_row_limit as int,
                0,
                1_000_000,
            ) as i64,
            ..settings
        }),
{
    let mut settings = settings;
    if settings.max_rows < 1 {
        settings.max_rows = 1;
    } else if settings.max_rows > 100_000 {
        settings.max_rows = 100_000;
    }
    if settings.exec_preview_row_limit < 0 {
        settings.exec_preview_row_limit = 0;
    } else if settings.exec_preview_row_limit > 1_000_000 {
        settings.exec_preview_row_limit = 1_000_000;
    }
    settings
}

/// Where a change of the settings stands.
#[derive(PartialEq, Eq)]
pub enum SafetyUpdate {
    Loaded { connection_id: u128, settings: SafetySettings },
    Authorized { connection_id: u128, settings: SafetySettings },
    Stored,
}

/// What a change of the settings asks of the outside world.
#[derive(PartialEq, Eq)]
pub enum SafetyUpdateRequest {
    /// What the role of the person at hand lets them do with the connection.
    LoadAccess { connection_id: u128 },
    /// Authorize a change of the connection with this access, and let nothing else change
    /// it until the end.
    Authorize { connection_id: u128, access: ConnectionAccess },
    /// Store the settings.
    Store { connection_id: u128, settings: SafetySettings },
}

/// What the outside world answers.
#[derive(PartialEq, Eq)]
pub enum SafetyUpdateReply {
    Loaded(Result<WorkspaceConnectionAccess, AppError>),
    Authorized(Result<(), AppError>),
    Stored(Result<(), AppError>),
}

/// A step of a change of the settings.
pub type SafetyUpdateStep = Step<SafetyUpdate, SafetyUpdateRequest, Result<(), AppError>>;

/// What follows an answer while the settings are changed.
pub type SafetyUpdateTurn = Turn<SafetyUpdate, SafetyUpdateRequest, Result<(), AppError>>;

impl SafetyUpdate {
    /// Whether `reply` answers what is awaited.
    pub open spec fn awaits(self, reply: SafetyUpdateReply) -> bool {
        match self {
            SafetyUpdate::Loaded { .. } => reply is Loaded,
            SafetyUpdate::Authorized { .. } => reply is Authorized,
            SafetyUpdate::Stored => reply is Stored,
        }
    }

    /// The turn that follows `reply`.
    pub open spec fn after(self, reply: SafetyUpdateReply) -> SafetyUpdateTurn {
        match self {
            SafetyUpdate::Loaded { connection_id, settings } => match reply->Loaded_0 {
                Err(error) => Turn::Done(Err(error)),
                Ok(access) => {
                    let settings = admitted(settings, access);
                    Turn::Ask {
                        state: SafetyUpdate::Authorized { connection_id, settings },
                        request: SafetyUpdateRequest::Authorize {
                            connection_id,
                            access: access_for(settings),
                        },
                    }
                },
            },
            SafetyUpdate::Authorized { connection_id, settings } => match reply->Authorized_0 {
                Err(error) => Turn::Done(Err(error)),
                Ok(_) => Turn::Ask {
                    state: SafetyUpdate::Stored,
                    request: SafetyUpdateRequest::Store { connection_id, settings },
                },
            },
            SafetyUpdate::Stored => Turn::Done(reply->Stored_0),
        }
    }

    /// Begins to change the settings of a connection.
    pub fn start(connection_id: u128, settings: SafetySettings) -> (r: SafetyUpdateStep)
        ensures
            r.says(
                (
                    Seq::empty(),
                    Turn::Ask {
                        state: SafetyUpdate::Loaded { connection_id, settings },
                        request: SafetyUpdateRequest::LoadAccess { connection_id },
                    },
                ),
            ),
    {
        ask(
            SafetyUpdate::Loaded { connection_id, settings },
            SafetyUpdateRequest::LoadAccess { connection_id },
        )
    }

    /// Takes the answer to the last question.
    pub fn advance(self, reply: SafetyUpdateReply) -> (r: SafetyUpdateStep)
        requires
            self.awaits(reply),
        ensures
            r.says((Seq::empty(), self.after(reply))),
    {
        match (self, reply) {
            (
                SafetyUpdate::Loaded { connection_id, settings },
                SafetyUpdateReply::Loaded(reply),
            ) => match reply {
                Err(error) => done(Err(error)),
                Ok(access) => {
                    let mut settings = settings;
                    if !access.can_write() {
                        settings.allow_writes = false;
                    }
                    let settings = clamp_limits(settings);
                    let access = if settings.allow_writes {
                        ConnectionAccess::Write
                    } else {
                        ConnectionAccess::Read
                    };
                    ask(
                        SafetyUpdate::Authorized { connection_id, settings },
                        SafetyUpdateRequest::Authorize { connection_id, access },
                    )
                },
            },
            (
                SafetyUpdate::Authorized { connection_id, settings },
                SafetyUpdateReply::Authorized(reply),
            ) => match reply {
                Err(error) => done(Err(error)),
                Ok(_) => ask(
                    SafetyUpdate::Stored,
                    SafetyUpdateRequest::Store { connection_id, settings },
                ),
            },
            (SafetyUpdate::Stored, SafetyUpdateReply::Stored(reply)) => done(reply),
            _ => unreached(),
        }
    }
}

/// Whatever is asked for, what is stored keeps its limits within bounds and never lets
/// someone write whose role does not.
pub proof fn stored_settings_are_within_bounds(
    settings: SafetySettings,
    access: WorkspaceConnectionAccess,
)
    ensures
        1 <= admitted(settings, access).max_rows <= 100_000,
        0 <= admitted(settings, access).exec_preview_row_limit <= 1_000_000,
        admitted(settings, access).allow_writes ==> access.spec_can_write(),
        admitted(admitted(settings, access), access) == admitted(settings, access),
{
}

/// A change of the settings from its beginning, told by what was given and answered. What
/// is stored is what was given, for the connection that was named, but for three things:
/// the most rows are kept between one and a hundred thousand, the rows of a preview between
/// none and a million, and writes are switched on only for a role that may write. The
/// change is authorized for writing exactly where writes end up switched on.
pub proof fn the_given_settings_are_stored(
    connection_id: u128,
    settings: SafetySettings,
    begun: SafetyUpdateStep,
    access: WorkspaceConnectionAccess,
    end: Result<(), AppError>,
    error: AppError,
)
    requires
        call_ensures(SafetyUpdate::start, (connection_id, settings), begun),
    ensures
        ({
            let loaded = begun.turn->state.after(SafetyUpdateReply::Loaded(Ok(access)));
            let allowed = loaded->state.after(SafetyUpdateReply::Authorized(Ok(())));
            let writes = settings.allow_writes && access != WorkspaceConnectionAccess::View && access
                != WorkspaceConnectionAccess::Read;
            &&& begun.effects@.len() == 0
            &&& begun.turn matches Turn::Ask {
                request: SafetyUpdateRequest::LoadAccess { connection_id: id },
                ..
            } && id == connection_id
            &&& begun.turn->state.after(SafetyUpdateReply::Loaded(Err(error))) matches Turn::Done(
                Err(told),
            ) && told == error
            &&& loaded matches Turn::Ask {
                request: SafetyUpdateRequest::Authorize { connection_id: id, access: needed },
                ..
            } && id == connection_id && (writes <==> needed == ConnectionAccess::Write) && (!writes
                <==> needed == ConnectionAccess::Read)
            &&& loaded->state.after(SafetyUpdateReply::Authorized(Err(error))) matches Turn::Done(
                Err(told),
            ) && told == error
            &&& allowed matches Turn::Ask {
                request: SafetyUpdateRequest::Store { connection_id: id, settings: stored },
                ..
            } && id == connection_id && stored.allow_writes == writes && stored.auto_run_reads
                == settings.auto_run_reads && stored == (SafetySettings {
                allow_writes: stored.allow_writes,
                max_rows: stored.max_rows,
                exec_preview_row_limit: stored.exec_preview_row_limit,
                ..settings
            }) && stored.max_rows == (if settings.max_rows < 1 {
                1u64
            } else if settings.max_rows > 100_000 {
                100_000u64
            } else {
                settings.max_rows
            }) && stored.exec_preview_row_limit == (if settings.exec_preview_row_limit < 0 {
                0i64
            } else if settings.exec_preview_row_limit > 1_000_000 {
                1_000_000i64
            } else {
                settings.exec_preview_row_limit
            })
            &&& allowed->state.after(SafetyUpdateReply::Stored(end)) matches Turn::Done(told) && told
                == end
        }),
{
}

} // verus!
