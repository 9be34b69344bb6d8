//! Reading the audit chain, and recording what is not an execution.
use vstd::pervasive::unreached;
use vstd::prelude::*;

use crate::error::AppError;
use crate::model::{Engine, QueryKind};
use crate::services::effects::{ask, done, AuditRecord, Effect, Note, Step, Turn};
use crate::text::Text;

verus! {

/// Something that was done with a connection, and is no execution.
#[derive(PartialEq, Eq)]
pub struct ActivityRecordRequest {
    pub connection_id: u128,
    pub engine: Engine,
    pub subject: String,
    pub kind: QueryKind,
    pub action: String,
    pub error: Option<String>,
}

/// The audit row for an activity. Nobody approved it and it affected no rows.
pub open spec fn activity_row(request: ActivityRecordRequest) -> AuditRecord {
    AuditRecord {
        connection_id: request.connection_id,
        engine: request.engine,
        sql: request.subject,
        kind: request.kind,
        action: Text::Owned(request.action),
        approved_by: None,
        affected_estimate: None,
        error: match request.error {
            Some(error) => Some(Note::Said(Text::Owned(error))),
            None => None,
        },
    }
}

/// Records an activity, on a best-effort basis.
pub fn record_best_effort(request: ActivityRecordRequest) -> (r: Effect)
    ensures
        r == Effect::Audit(activity_row(request)),
{
    Effect::Audit(
        AuditRecord {
            connection_id: request.connection_id,
            engine: request.engine,
            sql: request.subject,
            kind: request.kind,
            action: Text::Owned(request.action),
            approved_by: None,
            affected_estimate: None,
            error: match request.error {
                Some(error) => Some(Note::Said(Text::Owned(error))),
                None => None,
            },
        },
    )
}

/// Whether the audit chain of a connection is whole, and where it first is not.
#[derive(Debug, Clone, Copy, PartialEq, Eq, Structural)]
pub struct AuditVerdict {
    pub ok: bool,
    pub first_bad_index: Option<i64>,
}

/// Where a look at the audit chain stands.
#[derive(PartialEq, Eq)]
pub enum AuditRead {
    Loaded { connection_id: u128 },
    Verified,
}

/// What a look at the audit chain asks of the outside world.
#[derive(PartialEq, Eq)]
pub enum AuditReadRequest {
    /// Make sure that the connection is one of the active workspace.
    LoadConnection { connection_id: u128 },
    /// Verify the chain.
    VerifyChain { connection_id: u128 },
}

/// What the outside world answers.
#[derive(PartialEq, Eq)]
pub enum AuditReadReply {
    Loaded(Result<(), AppError>),
    /// Whether the chain is whole, and where it first is not.
    Verified(Result<(bool, Option<i64>), AppError>),
}

/// How a look at the audit chain ends.
pub type AuditReadEnd = Result<AuditVerdict, AppError>;

/// A step of a look at the audit chain.
pub type AuditReadStep = Step<AuditRead, AuditReadRequest, AuditReadEnd>;

/// What follows an answer during a look at the audit chain.
pub type AuditReadTurn = Turn<AuditRead, AuditReadRequest, AuditReadEnd>;

impl AuditRead {
    /// Whether `reply` answers what is awaited.
    pub open spec fn awaits(self, reply: AuditReadReply) -> bool {
        match self {
            AuditRead::Loaded { .. } => reply is Loaded,
            AuditRead::Verified => reply is Verified,
        }
    }

    /// The turn that follows `reply`. The chain of a connection that is out of scope is not
    /// touched.
    pub open spec fn after(self, reply: AuditReadReply) -> AuditReadTurn {
        match self {
            AuditRead::Loaded { connection_id } => match reply->Loaded_0 {
                Err(error) => Turn::Done(Err(error)),
                Ok(_) => Turn::Ask {
                    state: AuditRead::Verified,
                    request: AuditReadRequest::VerifyChain { connection_id },
                },
            },
            AuditRead::Verified => match reply->Verified_0 {
                Err(error) => Turn::Done(Err(error)),
                Ok((ok, first_bad_index)) => Turn::Done(Ok(AuditVerdict { ok, first_bad_index })),
            },
        }
    }

    /// Begins a look at the audit chain of a connection.
    pub fn start(connection_id: u128) -> (r: AuditReadStep)
        ensures
            r.says(
                (
                    Seq::empty(),
                    Turn::Ask {
                        state: AuditRead::Loaded { connection_id },
                        request: AuditReadRequest::LoadConnection { connection_id },
                    },
                ),
            ),
    {
        ask(
            AuditRead::Loaded { connection_id },
            AuditReadRequest::LoadConnection { connection_id },
        )
    }

    /// Takes the answer to the last question.
    pub fn advance(self, reply: AuditReadReply) -> (r: AuditReadStep)
        requires
            self.awaits(reply),
        ensures
            r.says((Seq::empty(), self.after(reply))),
    {
        match (self, reply) {
            (AuditRead::Loaded { connection_id }, AuditReadReply::Loaded(reply)) => match reply {
                Err(error) => done(Err(error)),
                Ok(_) => ask(
                    AuditRead::Verified,
                    AuditReadRequest::VerifyChain { connection_id },
                ),
            },
            (AuditRead::Verified, AuditReadReply::Verified(reply)) => match reply {
                Err(error) => done(Err(error)),
                Ok((ok, first_bad_index)) => done(Ok(AuditVerdict { ok, first_bad_index })),
            },
            _ => unreached(),
        }
    }
}

/// An entry of the audit chain.
#[derive(Debug, PartialEq, Eq)]
pub struct AuditEntry {
    pub id: u128,
    pub connection_id: u128,
    pub ts: i128,
    pub engine: Engine,
    pub agent_prompt: Option<String>,
    pub sql: String,
    pub kind: QueryKind,
    pub action: String,
    pub approved_by: Option<String>,
    pub affected_estimate: Option<i64>,
    pub error: Option<String>,
    pub prev_hash: Option<String>,
    pub hash: String,
}

/// The entries of the audit chain of a connection, and whether it is whole.
#[derive(Debug, PartialEq, Eq)]
pub struct AuditSnapshotReceipt {
    pub entries: Vec<AuditEntry>,
    pub verdict: AuditVerdict,
}

/// Where a snapshot of the audit chain stands.
#[derive(PartialEq, Eq)]
pub enum AuditSnapshot {
    Loaded { connection_id: u128 },
    Taken,
}

/// What a snapshot of the audit chain asks of the outside world.
#[derive(PartialEq, Eq)]
pub enum AuditSnapshotRequest {
    /// Make sure that the connection is one of the active workspace.
    LoadConnection { connection_id: u128 },
    /// Read the chain and verify it, both at one moment.
    TakeSnapshot { connection_id: u128 },
}

/// What the outside world answers.
#[derive(PartialEq, Eq)]
pub enum AuditSnapshotReply {
    Loaded(Result<(), AppError>),
    /// The entries, whether the chain is whole, and where it first is not.
    Taken(Result<(Vec<AuditEntry>, bool, Option<i64>), AppError>),
}

/// How a snapshot of the audit chain ends.
pub type AuditSnapshotEnd = Result<AuditSnapshotReceipt, AppError>;

/// A step of a snapshot of the audit chain.
pub type AuditSnapshotStep = Step<AuditSnapshot, AuditSnapshotRequest, AuditSnapshotEnd>;

/// What follows an answer during a snapshot of the audit chain.
pub type AuditSnapshotTurn = Turn<AuditSnapshot, AuditSnapshotRequest, AuditSnapshotEnd>;

impl AuditSnapshot {
    /// Whether `reply` answers what is awaited.
    pub open spec fn awaits(self, reply: AuditSnapshotReply) -> bool {
        match self {
            AuditSnapshot::Loaded { .. } => reply is Loaded,
            AuditSnapshot::Taken => reply is Taken,
        }
    }

    /// The turn that follows `reply`. The chain of a connection that is out of scope is not
    /// touched.
    pub open spec fn after(self, reply: AuditSnapshotReply) -> AuditSnapshotTurn {
        match self {
            AuditSnapshot::Loaded { connection_id } => match reply->Loaded_0 {
                Err(error) => Turn::Done(Err(error)),
                Ok(_) => Turn::Ask {
                    state: AuditSnapshot::Taken,
                    request: AuditSnapshotRequest::TakeSnapshot { connection_id },
                },
            },
            AuditSnapshot::Taken => match reply->Taken_0 {
                Err(error) => Turn::Done(Err(error)),
                Ok((entries, ok, first_bad_index)) => Turn::Done(
                    Ok(
                        AuditSnapshotReceipt {
                            entries,
                            verdict: AuditVerdict { ok, first_bad_index },
                        },
                    ),
                ),
            },
        }
    }

    /// Begins a snapshot of the audit chain of a connection.
    pub fn start(connection_id: u128) -> (r: AuditSnapshotStep)
        ensures
            r.says(
                (
                    Seq::empty(),
                    Turn::Ask {
                        state: AuditSnapshot::Loaded { connection_id },
                        request: AuditSnapshotRequest::LoadConnection { connection_id },
                    },
                ),
            ),
    {
        ask(
            AuditSnapshot::Loaded { connection_id },
            AuditSnapshotRequest::LoadConnection { connection_id },
        )
    }

    /// Takes the answer to the last question.
    pub fn advance(self, reply: AuditSnapshotReply) -> (r: AuditSnapshotStep)
        requires
            self.awaits(reply),
        ensures
            r.says((Seq::empty(), self.after(reply))),
    {
        match (self, reply) {
            (AuditSnapshot::Loaded { connection_id }, AuditSnapshotReply::Loaded(reply)) => {
                match reply {
                    Err(error) => done(Err(error)),
                    Ok(_) => ask(
                        AuditSnapshot::Taken,
                        AuditSnapshotRequest::TakeSnapshot { connection_id },
                    ),
                }
            },
            (AuditSnapshot::Taken, AuditSnapshotReply::Taken(reply)) => match reply {
                Err(error) => done(Err(error)),
                Ok((entries, ok, first_bad_index)) => done(
                    Ok(
                        AuditSnapshotReceipt {
                            entries,
                            verdict: AuditVerdict { ok, first_bad_index },
                        },
                    ),
                ),
            },
            _ => unreached(),
        }
    }
}

/// An activity is recorded as what it was, on the connection that it was with. Nobody
/// approved it, and it affected no rows.
pub proof fn activities_are_recorded_as_given(request: ActivityRecordRequest)
    ensures
        forall|effect: Effect| #[trigger]
            call_ensures(record_best_effort, (request,), effect) ==> {
                &&& effect matches Effect::Audit(row)
                &&& row.connection_id == request.connection_id
                &&& row.engine == request.engine
                &&& row.sql == request.subject
                &&& row.kind == request.kind
                &&& row.action == Text::Owned(request.action)
                &&& row.approved_by is None && row.affected_estimate is None
                &&& request.error is None ==> row.error is None
                &&& request.error is Some ==> row.error == Some(
                    Note::Said(Text::Owned(request.error->0)),
                )
            },
{
}

/// The audit chain that is looked at is that of the connection that was named, and only
/// where the workspace has it; what is told of it is what was found.
pub proof fn the_named_chain_is_looked_at(
    connection_id: u128,
    read: AuditReadStep,
    snapshot: AuditSnapshotStep,
    entries: Vec<AuditEntry>,
    ok: bool,
    first_bad: Option<i64>,
    error: AppError,
)
    requires
        call_ensures(AuditRead::start, (connection_id,), read),
        call_ensures(AuditSnapshot::start, (connection_id,), snapshot),
    ensures
        ({
            let found = read.turn->state.after(AuditReadReply::Loaded(Ok(())));
            let known = snapshot.turn->state.after(AuditSnapshotReply::Loaded(Ok(())));
            &&& read.effects@.len() == 0 && snapshot.effects@.len() == 0
            &&& read.turn matches Turn::Ask {
                request: AuditReadRequest::LoadConnection { connection_id: id },
                ..
            } && id == connection_id
            &&& read.turn->state.after(AuditReadReply::Loaded(Err(error))) matches Turn::Done(
                Err(told),
            ) && told == error
            &&& found matches Turn::Ask {
                request: AuditReadRequest::VerifyChain { connection_id: id },
                ..
            } && id == connection_id
            &&& found->state.after(AuditReadReply::Verified(Err(error))) matches Turn::Done(Err(told))
                && told == error
            &&& found->state.after(
                AuditReadReply::Verified(Ok((ok, first_bad))),
            ) matches Turn::Done(Ok(told)) && told.ok == ok && told.first_bad_index == first_bad
            &&& snapshot.turn matches Turn::Ask {
                request: AuditSnapshotRequest::LoadConnection { connection_id: id },
                ..
            } && id == connection_id
            &&& snapshot.turn->state.after(AuditSnapshotReply::Loaded(Err(error))) matches Turn::Done(
                Err(told),
            ) && told == error
            &&& known matches Turn::Ask {
                request: AuditSnapshotRequest::TakeSnapshot { connection_id: id },
                ..
            } && id == connection_id
            &&& known->state.after(AuditSnapshotReply::Taken(Err(error))) matches Turn::Done(
                Err(told),
            ) && told == error
            &&& known->state.after(
                AuditSnapshotReply::Taken(Ok((entries, ok, first_bad))),
            ) matches Turn::Done(Ok(told)) && told.entries == entries && told.verdict.ok == ok
                && told.verdict.first_bad_index == first_bad
        }),
{
}

} // verus!
