//! What a service asks its host to do besides answering a question. Effects are
//! carried out in order and on a best-effort basis: their results never change the
//! answer to the request.
use vstd::prelude::*;

use crate::error::AppError;
use crate::model::{Engine, QueryKind};
use crate::text::Text;

verus! {

/// The error column of an audit or history row.
#[derive(Debug, PartialEq, Eq)]
pub enum Note {
    /// A wording of the library's own.
    Said(Text),
    /// An error, which the host prints.
    Error(AppError),
}

impl Note {
    /// An equal note.
    pub fn duplicate(&self) -> (r: Note)
        ensures
            r == *self,
    {
        match self {
            Note::Said(text) => Note::Said(text.duplicate()),
            Note::Error(error) => Note::Error(error.duplicate()),
        }
    }
}

/// An equal optional note.
pub fn duplicate_note(note: &Option<Note>) -> (r: Option<Note>)
    ensures
        r == *note,
{
    match note {
        Some(note) => Some(note.duplicate()),
        None => None,
    }
}

/// A row for the audit chain.
#[derive(Debug, PartialEq, Eq)]
pub struct AuditRecord {
    pub connection_id: u128,
    pub engine: Engine,
    pub sql: String,
    pub kind: QueryKind,
    pub action: Text,
    pub approved_by: Option<String>,
    pub affected_estimate: Option<i64>,
    pub error: Option<Note>,
}

/// A row for the execution history. The host adds its id and time.
#[derive(Debug, PartialEq, Eq)]
pub struct HistoryRecord {
    pub connection_id: u128,
    pub sql: String,
    pub kind: QueryKind,
    pub status: &'static str,
    pub row_count: Option<i64>,
    pub duration_ms: Option<i64>,
    pub error: Option<Note>,
    pub origin: Text,
}

/// How an operation ends other than in success.
#[derive(Debug, PartialEq, Eq)]
pub enum Settlement {
    /// It failed, for this reason and perhaps with this error.
    Failed { reason: &'static str, error: Option<AppError> },
    /// It failed, and the error's kind is the reason.
    FailedWithKind(AppError),
    /// Whether it took effect cannot be known.
    OutcomeUnknown { reason: &'static str, error: Option<AppError> },
    /// It was cancelled.
    Cancelled { reason: &'static str },
    /// It was an agent's plan that nobody had claimed, and it is taken out of use. A claim that
    /// someone holds, and an operation that is no agent's plan, stay as they are.
    Withdrawn { reason: &'static str, error: Option<AppError> },
}

/// One thing for the host to do.
#[derive(Debug, PartialEq, Eq)]
pub enum Effect {
    Audit(AuditRecord),
    History(HistoryRecord),
    Settle { operation_id: u128, settlement: Settlement },
    /// Tell the statement that runs for this operation to stop.
    CancelExecution { operation_id: u128 },
    ClearSchemaCache { connection_id: u128 },
    /// Forget this item of the credential store; `action` says what for.
    DeleteSecret { credential_id: u128, action: &'static str },
    /// Drop the cached row of a shared connection that the server no longer has.
    PurgeRemoteConnection { workspace_id: u128, connection_id: u128 },
    /// Let go of the open pools of a connection.
    RetireConnection { connection_id: u128 },
}

/// What follows an answer: a further question, or the end of the request.
#[derive(Debug, PartialEq, Eq)]
pub enum Turn<S, Q, O> {
    /// Put `request` to the outside world and hand its answer to `state`.
    Ask { state: S, request: Q },
    /// The request is over.
    Done(O),
}

/// The effects to carry out, in order, and what follows them.
#[derive(Debug, PartialEq, Eq)]
pub struct Step<S, Q, O> {
    pub effects: Vec<Effect>,
    pub turn: Turn<S, Q, O>,
}

impl<S, Q, O> Step<S, Q, O> {
    /// Whether the step has exactly these effects and this turn.
    pub open spec fn says(self, expected: (Seq<Effect>, Turn<S, Q, O>)) -> bool {
        &&& self.effects@ == expected.0
        &&& self.turn == expected.1
    }
}

/// A step without effects that asks.
pub fn ask<S, Q, O>(state: S, request: Q) -> (r: Step<S, Q, O>)
    ensures
        r.effects@ == Seq::<Effect>::empty(),
        r.turn == (Turn::<S, Q, O>::Ask { state, request }),
{
    Step { effects: Vec::new(), turn: Turn::Ask { state, request } }
}

/// A step without effects that ends.
pub fn done<S, Q, O>(outcome: O) -> (r: Step<S, Q, O>)
    ensures
        r.effects@ == Seq::<Effect>::empty(),
        r.turn == Turn::<S, Q, O>::Done(outcome),
{
    Step { effects: Vec::new(), turn: Turn::Done(outcome) }
}

} // verus!
