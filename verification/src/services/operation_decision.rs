//! Deciding on an operation, and what a Terminal may do of its own ones.
use vstd::pervasive::unreached;
use vstd::prelude::*;

use crate::error::{AppError, AppResult};
use crate::model::SafetySettings;
use crate::operations::{
    is_time, OperationApprover, OperationRecord, OperationState, PinnedConnection, PolicySnapshot,
};
use crate::services::effects::{ask, done, Effect, Step, Turn};
use crate::services::operation_service::{
    approver_for_pin, approver_of, capture_policy, confirmation_for, ensure_operation_scope,
    ensure_terminal_scope, foreign_terminal, in_operation_scope, in_terminal_scope,
    operation_summary, policy_of, required_confirmation, scope_changed, summary_of,
    OperationSummary,
};
use crate::services::terminal_authority::TerminalAuthority;
use crate::text::{holds_text, is_text, Text};

verus! {

/// A person's decision on one operation, whose payload they saw under this hash.
#[derive(PartialEq, Eq)]
pub struct OperationDecisionRequest {
    pub operation_id: u128,
    pub expected_payload_hash: String,
    pub reason: Option<String>,
}

/// What is said of an operation after a decision.
#[derive(PartialEq, Eq)]
pub struct OperationDecisionReceipt {
    pub operation_id: u128,
    pub payload_hash: String,
    pub state: OperationState,
}

/// The receipt for an operation.
pub open spec fn receipt_of(record: OperationRecord) -> OperationDecisionReceipt {
    OperationDecisionReceipt {
        operation_id: record.id,
        payload_hash: record.payload_hash,
        state: record.state,
    }
}

impl From<OperationRecord> for OperationDecisionReceipt {
    fn from(record: OperationRecord) -> (r: OperationDecisionReceipt) {
        OperationDecisionReceipt {
            operation_id: record.id,
            payload_hash: record.payload_hash,
            state: record.state,
        }
    }
}

impl vstd::std_specs::convert::FromSpecImpl<OperationRecord> for OperationDecisionReceipt {
    open spec fn obeys_from_spec() -> bool {
        true
    }

    open spec fn from_spec(record: OperationRecord) -> OperationDecisionReceipt {
        receipt_of(record)
    }
}

/// A decision bound to everything that it was made on.
#[derive(PartialEq, Eq)]
pub struct ExactApprovalRequest {
    pub operation_id: u128,
    pub expected_payload_hash: String,
    pub approver: OperationApprover,
    pub current_policy_revision: String,
    pub reason: Option<String>,
}

/// What a person decided.
#[derive(Debug, Clone, Copy, PartialEq, Eq, Structural)]
pub enum Verdict {
    Approve,
    Reject,
}

/// Where a decision stands: what it is waiting to hear.
#[derive(PartialEq, Eq)]
pub enum Decision {
    Loaded { request: OperationDecisionRequest, verdict: Verdict },
    Pinned { request: OperationDecisionRequest, verdict: Verdict, record: OperationRecord },
    Safety { request: OperationDecisionRequest, verdict: Verdict, pin: PinnedConnection },
    Hashed { request: OperationDecisionRequest, verdict: Verdict, approver: OperationApprover },
    Decided,
}

/// What a decision asks of the outside world.
#[derive(PartialEq, Eq)]
pub enum DecisionRequest {
    /// Load the operation.
    LoadOperation { operation_id: u128 },
    /// Pin the connection as it may be seen now.
    PinForView { connection_id: u128 },
    /// Load the safety settings of the connection.
    LoadSafety { connection_id: u128 },
    /// Compute the revision of the policy.
    HashPolicy { policy: PolicySnapshot },
    /// Record the decision.
    Record { verdict: Verdict, exact: ExactApprovalRequest },
}

/// What the outside world answers.
#[derive(PartialEq, Eq)]
pub enum DecisionReply {
    Loaded(Result<OperationRecord, AppError>),
    Pinned(Result<PinnedConnection, AppError>),
    Safety(Result<SafetySettings, AppError>),
    Hashed(Result<String, AppError>),
    Decided(Result<OperationRecord, AppError>),
}

/// How a decision ends.
pub type DecisionEnd = Result<OperationDecisionReceipt, AppError>;

/// A step of a decision.
pub type DecisionStep = Step<Decision, DecisionRequest, DecisionEnd>;

/// What follows an answer during a decision.
pub type DecisionTurn = Turn<Decision, DecisionRequest, DecisionEnd>;

/// Whether the decision carries the phrase that it takes: approval of a risky operation
/// takes one, rejection takes none.
pub open spec fn is_confirmed(
    request: OperationDecisionRequest,
    verdict: Verdict,
    record: OperationRecord,
) -> bool {
    verdict == Verdict::Reject || match confirmation_for(record) {
        Some(phrase) => is_text(request.reason, phrase@),
        None => true,
    }
}

/// The answer where the phrase is missing.
pub open spec fn phrase_missing(phrase: &'static str) -> AppError {
    AppError::Blocked {
        reason: Text::Around(
            "type the exact confirmation phrase `",
            phrase,
            "` before approving this operation",
        ),
    }
}

/// What follows once the operation is loaded.
pub open spec fn after_loaded(
    request: OperationDecisionRequest,
    verdict: Verdict,
    reply: Result<OperationRecord, AppError>,
) -> (Seq<Effect>, DecisionTurn) {
    (
        Seq::empty(),
        match reply {
            Err(error) => Turn::Done(Err(error)),
            Ok(record) => if !is_confirmed(request, verdict, record) {
                Turn::Done(Err(phrase_missing(confirmation_for(record)->0)))
            } else {
                Turn::Ask {
                    state: Decision::Pinned { request, verdict, record },
                    request: DecisionRequest::PinForView { connection_id: record.connection_id },
                }
            },
        },
    )
}

fn take_loaded(
    request: OperationDecisionRequest,
    verdict: Verdict,
    reply: Result<OperationRecord, AppError>,
) -> (r: DecisionStep)
    ensures
        r.says(after_loaded(request, verdict, reply)),
{
    match reply {
        Err(error) => done(Err(error)),
        Ok(record) => {
            if verdict == Verdict::Approve {
                match required_confirmation(&record) {
                    Some(phrase) => {
                        if !holds_text(&request.reason, phrase) {
                            return done(
                                Err(
                                    AppError::Blocked {
                                        reason: Text::Around(
                                            "type the exact confirmation phrase `",
                                            phrase,
                                            "` before approving this operation",
                                        ),
                                    },
                                ),
                            );
                        }
                    },
                    None => {},
                }
            }
            let connection_id: u128 = record.connection_id;
            ask(
                Decision::Pinned { request, verdict, record },
                DecisionRequest::PinForView { connection_id },
            )
        },
    }
}

/// What follows once the connection is pinned.
pub open spec fn after_pinned(
    request: OperationDecisionRequest,
    verdict: Verdict,
    record: OperationRecord,
    reply: Result<PinnedConnection, AppError>,
) -> (Seq<Effect>, DecisionTurn) {
    (
        Seq::empty(),
        match reply {
            Err(error) => Turn::Done(Err(error)),
            Ok(pin) => if !in_operation_scope(record, pin) {
                Turn::Done(Err(scope_changed()))
            } else {
                Turn::Ask {
                    state: Decision::Safety { request, verdict, pin },
                    request: DecisionRequest::LoadSafety { connection_id: pin.connection_id },
                }
            },
        },
    )
}

fn take_pinned(
    request: OperationDecisionRequest,
    verdict: Verdict,
    record: OperationRecord,
    reply: Result<PinnedConnection, AppError>,
) -> (r: DecisionStep)
    ensures
        r.says(after_pinned(request, verdict, record, reply)),
{
    match reply {
        Err(error) => done(Err(error)),
        Ok(pin) => match ensure_operation_scope(&record, &pin) {
            Err(error) => done(Err(error)),
            Ok(_) => {
                let connection_id: u128 = pin.connection_id;
                ask(
                    Decision::Safety { request, verdict, pin },
                    DecisionRequest::LoadSafety { connection_id },
                )
            },
        },
    }
}

/// What follows once the safety settings are loaded.
pub open spec fn after_safety(
    request: OperationDecisionRequest,
    verdict: Verdict,
    pin: PinnedConnection,
    reply: Result<SafetySettings, AppError>,
) -> (Seq<Effect>, DecisionTurn) {
    (
        Seq::empty(),
        match reply {
            Err(error) => Turn::Done(Err(error)),
            Ok(settings) => Turn::Ask {
                state: Decision::Hashed { request, verdict, approver: approver_of(pin) },
                request: DecisionRequest::HashPolicy { policy: policy_of(pin, Some(settings)) },
            },
        },
    )
}

fn take_safety(
    request: OperationDecisionRequest,
    verdict: Verdict,
    pin: PinnedConnection,
    reply: Result<SafetySettings, AppError>,
) -> (r: DecisionStep)
    ensures
        r.says(after_safety(request, verdict, pin, reply)),
{
    match reply {
        Err(error) => done(Err(error)),
        Ok(settings) => {
            let policy = capture_policy(&pin, &settings);
            ask(
                Decision::Hashed { request, verdict, approver: approver_for_pin(&pin) },
                DecisionRequest::HashPolicy { policy },
            )
        },
    }
}

/// What follows once the policy's revision is known.
pub open spec fn after_hashed(
    request: OperationDecisionRequest,
    verdict: Verdict,
    approver: OperationApprover,
    reply: Result<String, AppError>,
) -> (Seq<Effect>, DecisionTurn) {
    (
        Seq::empty(),
        match reply {
            Err(error) => Turn::Done(Err(error)),
            Ok(revision) => Turn::Ask {
                state: Decision::Decided,
                request: DecisionRequest::Record {
                    verdict,
                    exact: ExactApprovalRequest {
                        operation_id: request.operation_id,
                        expected_payload_hash: request.expected_payload_hash,
                        approver,
                        current_policy_revision: revision,
                        reason: request.reason,
                    },
                },
            },
        },
    )
}

fn take_hashed(
    request: OperationDecisionRequest,
    verdict: Verdict,
    approver: OperationApprover,
    reply: Result<String, AppError>,
) -> (r: DecisionStep)
    ensures
        r.says(after_hashed(request, verdict, approver, reply)),
{
    match reply {
        Err(error) => done(Err(error)),
        Ok(revision) => ask(
            Decision::Decided,
            DecisionRequest::Record {
                verdict,
                exact: ExactApprovalRequest {
                    operation_id: request.operation_id,
                    expected_payload_hash: request.expected_payload_hash,
                    approver,
                    current_policy_revision: revision,
                    reason: request.reason,
                },
            },
        ),
    }
}

/// What follows once the decision is recorded.
pub open spec fn after_decided(reply: Result<OperationRecord, AppError>) -> (
    Seq<Effect>,
    DecisionTurn,
) {
    (
        Seq::empty(),
        match reply {
            Err(error) => Turn::Done(Err(error)),
            Ok(record) => Turn::Done(Ok(receipt_of(record))),
        },
    )
}

fn take_decided(reply: Result<OperationRecord, AppError>) -> (r: DecisionStep)
    ensures
        r.says(after_decided(reply)),
{
    match reply {
        Err(error) => done(Err(error)),
        Ok(record) => done(Ok(OperationDecisionReceipt::from(record))),
    }
}

impl Decision {
    /// Whether `reply` answers what is awaited.
    pub open spec fn awaits(self, reply: DecisionReply) -> bool {
        match self {
            Decision::Loaded { .. } => reply is Loaded,
            Decision::Pinned { .. } => reply is Pinned,
            Decision::Safety { .. } => reply is Safety,
            Decision::Hashed { .. } => reply is Hashed,
            Decision::Decided => reply is Decided,
        }
    }

    /// The effects and the turn that follow `reply`.
    pub open spec fn after(self, reply: DecisionReply) -> (Seq<Effect>, DecisionTurn) {
        match self {
            Decision::Loaded { request, verdict } => after_loaded(
                request,
                verdict,
                reply->Loaded_0,
            ),
            Decision::Pinned { request, verdict, record } => after_pinned(
                request,
                verdict,
                record,
                reply->Pinned_0,
            ),
            Decision::Safety { request, verdict, pin } => after_safety(
                request,
                verdict,
                pin,
                reply->Safety_0,
            ),
            Decision::Hashed { request, verdict, approver } => after_hashed(
                request,
                verdict,
                approver,
                reply->Hashed_0,
            ),
            Decision::Decided => after_decided(reply->Decided_0),
        }
    }

    /// Begins to approve or reject an operation.
    pub fn start(request: OperationDecisionRequest, verdict: Verdict) -> (r: DecisionStep)
        ensures
            r.says(
                (
                    Seq::empty(),
                    Turn::Ask {
                        state: Decision::Loaded { request, verdict },
                        request: DecisionRequest::LoadOperation {
                            operation_id: request.operation_id,
                        },
                    },
                ),
            ),
    {
        let operation_id: u128 = request.operation_id;
        ask(Decision::Loaded { request, verdict }, DecisionRequest::LoadOperation { operation_id })
    }

    /// Takes the answer to the last question.
    pub fn advance(self, reply: DecisionReply) -> (r: DecisionStep)
        requires
            self.awaits(reply),
        ensures
            r.says(self.after(reply)),
    {
        match (self, reply) {
            (
                Decision::Loaded { request, verdict },
                DecisionReply::Loaded(reply),
            ) => take_loaded(request, verdict, reply),
            (
                Decision::Pinned { request, verdict, record },
                DecisionReply::Pinned(reply),
            ) => take_pinned(request, verdict, record, reply),
            (
                Decision::Safety { request, verdict, pin },
                DecisionReply::Safety(reply),
            ) => take_safety(request, verdict, pin, reply),
            (
                Decision::Hashed { request, verdict, approver },
                DecisionReply::Hashed(reply),
            ) => take_hashed(request, verdict, approver, reply),
            (Decision::Decided, DecisionReply::Decided(reply)) => take_decided(reply),
            _ => unreached(),
        }
    }
}

/// The state after these answers, if every one of them was awaited and none ended the
/// decision.
pub open spec fn state_after(
    request: OperationDecisionRequest,
    verdict: Verdict,
    replies: Seq<DecisionReply>,
) -> Option<Decision>
    decreases replies.len(),
{
    if replies.len() == 0 {
        Some(Decision::Loaded { request, verdict })
    } else {
        match state_after(request, verdict, replies.drop_last()) {
            None => None,
            Some(state) => if state.awaits(replies.last()) {
                match state.after(replies.last()).1 {
                    Turn::Ask { state, .. } => Some(state),
                    Turn::Done(_) => None,
                }
            } else {
                None
            },
        }
    }
}

/// What is known of the answers so far from the state that they led to.
pub open spec fn explained(
    request: OperationDecisionRequest,
    verdict: Verdict,
    replies: Seq<DecisionReply>,
    state: Decision,
) -> bool {
    match state {
        Decision::Loaded { request: kept, verdict: said } => replies.len() == 0 && kept == request
            && said == verdict,
        Decision::Pinned { request: kept, verdict: said, record } => {
            &&& replies.len() == 1 && kept == request && said == verdict
            &&& replies[0] == DecisionReply::Loaded(Ok(record))
            &&& is_confirmed(request, verdict, record)
        },
        Decision::Safety { request: kept, verdict: said, pin } => {
            &&& replies.len() == 2 && kept == request && said == verdict
            &&& replies[0] matches DecisionReply::Loaded(Ok(record))
            &&& is_confirmed(request, verdict, record)
            &&& replies[1] == DecisionReply::Pinned(Ok(pin))
            &&& in_operation_scope(record, pin)
        },
        Decision::Hashed { request: kept, verdict: said, approver } => {
            &&& replies.len() == 3 && kept == request && said == verdict
            &&& replies[0] matches DecisionReply::Loaded(Ok(record))
            &&& is_confirmed(request, verdict, record)
            &&& replies[1] matches DecisionReply::Pinned(Ok(pin))
            &&& in_operation_scope(record, pin)
            &&& approver == approver_of(pin)
            &&& replies[2] matches DecisionReply::Safety(Ok(_))
        },
        Decision::Decided => {
            &&& replies.len() == 4
            &&& replies[0] matches DecisionReply::Loaded(Ok(record))
            &&& is_confirmed(request, verdict, record)
            &&& replies[1] matches DecisionReply::Pinned(Ok(pin))
            &&& in_operation_scope(record, pin)
            &&& replies[2] matches DecisionReply::Safety(Ok(_))
            &&& replies[3] matches DecisionReply::Hashed(Ok(_))
        },
    }
}

/// Every state that a decision can reach explains the answers before it.
pub proof fn every_state_is_explained(
    request: OperationDecisionRequest,
    verdict: Verdict,
    replies: Seq<DecisionReply>,
)
    ensures
        state_after(request, verdict, replies) matches Some(state) ==> explained(
            request,
            verdict,
            replies,
            state,
        ),
    decreases replies.len(),
{
    if replies.len() > 0 {
        let earlier = replies.drop_last();
        every_state_is_explained(request, verdict, earlier);
        assert(forall|k: int| 0 <= k < earlier.len() ==> earlier[k] == replies[k]);
        match state_after(request, verdict, earlier) {
            None => {},
            Some(before) => {
                assert(explained(request, verdict, earlier, before));
            },
        }
    }
}

/// No approval is recorded unless the phrase that the operation takes was typed, and no
/// decision unless the operation still belongs to the scope and the revision at hand.
pub proof fn decisions_are_confirmed_and_current(
    request: OperationDecisionRequest,
    verdict: Verdict,
    replies: Seq<DecisionReply>,
)
    requires
        state_after(request, verdict, replies) matches Some(state) && state is Decided,
    ensures
        replies.len() == 4,
        replies[0] matches DecisionReply::Loaded(Ok(record)) && {
            &&& verdict == Verdict::Approve && confirmation_for(record) is Some ==> is_text(
                request.reason,
                confirmation_for(record)->0@,
            )
            &&& replies[1] matches DecisionReply::Pinned(Ok(pin)) && in_operation_scope(record, pin)
        },
{
    every_state_is_explained(request, verdict, replies);
}

/// What a Terminal is shown of one of its operations.
pub open spec fn shown(record: OperationRecord, scope: TerminalAuthority) -> Result<
    OperationSummary,
    AppError,
> {
    if in_terminal_scope(record, scope) {
        Ok(summary_of(record))
    } else {
        Err(foreign_terminal())
    }
}

/// Shows an operation to the Terminal that it belongs to.
pub fn show_terminal(record: &OperationRecord, scope: &TerminalAuthority) -> (r: AppResult<
    OperationSummary,
>)
    ensures
        r == shown(*record, *scope),
{
    match ensure_terminal_scope(record, scope) {
        Err(error) => Err(error),
        Ok(_) => Ok(operation_summary(record)),
    }
}

/// The pause between two looks at an operation, in nanoseconds.
pub const WAIT_PAUSE: i128 = 50_000_000;

/// What a Terminal that waits for an operation does next.
#[derive(PartialEq, Eq)]
pub enum WaitStep {
    Done(Result<OperationSummary, AppError>),
    /// Sleep this many nanoseconds and look again.
    Sleep(i128),
}

/// What follows a look at the operation.
pub open spec fn wait_turn(
    record: Result<OperationRecord, AppError>,
    scope: TerminalAuthority,
    now: i128,
    deadline: i128,
) -> WaitStep {
    match record {
        Err(error) => WaitStep::Done(Err(error)),
        Ok(record) => match shown(record, scope) {
            Err(error) => WaitStep::Done(Err(error)),
            Ok(summary) => if summary.state.spec_is_terminal() {
                WaitStep::Done(Ok(summary))
            } else if now >= deadline {
                WaitStep::Done(Err(AppError::Safety(Text::Plain("operation wait timed out"))))
            } else if deadline - now < WAIT_PAUSE {
                WaitStep::Sleep((deadline - now) as i128)
            } else {
                WaitStep::Sleep(WAIT_PAUSE)
            },
        },
    }
}

/// Computes [`wait_turn`].
pub fn wait_terminal(
    record: Result<OperationRecord, AppError>,
    scope: &TerminalAuthority,
    now: i128,
    deadline: i128,
) -> (r: WaitStep)
    requires
        is_time(now),
        is_time(deadline),
    ensures
        r == wait_turn(record, *scope, now, deadline),
{
    let record = match record {
        Err(error) => {
            return WaitStep::Done(Err(error));
        },
        Ok(record) => record,
    };
    match show_terminal(&record, scope) {
        Err(error) => WaitStep::Done(Err(error)),
        Ok(summary) => {
            if summary.state.is_terminal() {
                WaitStep::Done(Ok(summary))
            } else if now >= deadline {
                WaitStep::Done(Err(AppError::Safety(Text::Plain("operation wait timed out"))))
            } else if deadline - now < WAIT_PAUSE {
                WaitStep::Sleep(deadline - now)
            } else {
                WaitStep::Sleep(WAIT_PAUSE)
            }
        },
    }
}

/// A Terminal that waits never sleeps past its deadline, and never looks again without
/// having slept.
pub proof fn waiting_keeps_the_deadline(
    record: Result<OperationRecord, AppError>,
    scope: TerminalAuthority,
    now: i128,
    deadline: i128,
)
    requires
        is_time(now),
        is_time(deadline),
    ensures
        wait_turn(record, scope, now, deadline) matches WaitStep::Sleep(pause) ==> 0 < pause
            <= WAIT_PAUSE && now + pause <= deadline,
{
}

/// Where a cancellation from a Terminal stands.
#[derive(PartialEq, Eq)]
pub enum TerminalCancel {
    Loaded { scope: TerminalAuthority, operation_id: u128 },
    Cancelled,
}

/// What a cancellation asks of the outside world.
#[derive(PartialEq, Eq)]
pub enum TerminalCancelRequest {
    /// Load the operation.
    LoadOperation { operation_id: u128 },
    /// Cancel the operation, which has not begun, on behalf of this Terminal session.
    CancelBeforeExecution { operation_id: u128, terminal_session_id: u128 },
}

/// What the outside world answers.
#[derive(PartialEq, Eq)]
pub enum TerminalCancelReply {
    Loaded(Result<OperationRecord, AppError>),
    Cancelled(Result<OperationRecord, AppError>),
}

/// How a cancellation ends.
pub type TerminalCancelEnd = Result<OperationSummary, AppError>;

/// A step of a cancellation.
pub type TerminalCancelStep = Step<TerminalCancel, TerminalCancelRequest, TerminalCancelEnd>;

/// What follows an answer during a cancellation.
pub type TerminalCancelTurn = Turn<TerminalCancel, TerminalCancelRequest, TerminalCancelEnd>;

impl TerminalCancel {
    /// Whether `reply` answers what is awaited.
    pub open spec fn awaits(self, reply: TerminalCancelReply) -> bool {
        match self {
            TerminalCancel::Loaded { .. } => reply is Loaded,
            TerminalCancel::Cancelled => reply is Cancelled,
        }
    }

    /// The effects and the turn that follow `reply`. What is over stays as it is; what runs
    /// is told to stop; what waits is cancelled.
    pub open spec fn after(self, reply: TerminalCancelReply) -> (Seq<Effect>, TerminalCancelTurn) {
        match self {
            TerminalCancel::Loaded { scope, operation_id } => match reply->Loaded_0 {
                Err(error) => (Seq::empty(), Turn::Done(Err(error))),
                Ok(record) => if !in_terminal_scope(record, scope) {
                    (Seq::empty(), Turn::Done(Err(foreign_terminal())))
                } else if record.state.spec_is_terminal() {
                    (Seq::empty(), Turn::Done(Ok(summary_of(record))))
                } else if record.state == OperationState::Executing {
                    (
                        seq![Effect::CancelExecution { operation_id }],
                        Turn::Done(Ok(summary_of(record))),
                    )
                } else {
                    (
                        Seq::empty(),
                        Turn::Ask {
                            state: TerminalCancel::Cancelled,
                            request: TerminalCancelRequest::CancelBeforeExecution {
                                operation_id,
                                terminal_session_id: scope.terminal_session_id,
                            },
                        },
                    )
                },
            },
            TerminalCancel::Cancelled => (
                Seq::empty(),
                match reply->Cancelled_0 {
                    Err(error) => Turn::Done(Err(error)),
                    Ok(record) => Turn::Done(Ok(summary_of(record))),
                },
            ),
        }
    }

    /// Begins to cancel an operation of the Terminal.
    pub fn start(scope: TerminalAuthority, operation_id: u128) -> (r: TerminalCancelStep)
        ensures
            r.says(
                (
                    Seq::empty(),
                    Turn::Ask {
                        state: TerminalCancel::Loaded { scope, operation_id },
                        request: TerminalCancelRequest::LoadOperation { operation_id },
                    },
                ),
            ),
    {
        ask(
            TerminalCancel::Loaded { scope, operation_id },
            TerminalCancelRequest::LoadOperation { operation_id },
        )
    }

    /// Takes the answer to the last question.
    pub fn advance(self, reply: TerminalCancelReply) -> (r: TerminalCancelStep)
        requires
            self.awaits(reply),
        ensures
            r.says(self.after(reply)),
    {
        match (self, reply) {
            (
                TerminalCancel::Loaded { scope, operation_id },
                TerminalCancelReply::Loaded(reply),
            ) => {
                let record = match reply {
                    Err(error) => {
                        return done(Err(error));
                    },
                    Ok(record) => record,
                };
                match ensure_terminal_scope(&record, &scope) {
                    Err(error) => {
                        return done(Err(error));
                    },
                    Ok(_) => {},
                }
                if record.state.is_terminal() {
                    return done(Ok(operation_summary(&record)));
                }
                if record.state == OperationState::Executing {
                    let effects = vec![Effect::CancelExecution { operation_id }];
                    assert(effects@ =~= seq![Effect::CancelExecution { operation_id }]);
                    return Step { effects, turn: Turn::Done(Ok(operation_summary(&record))) };
                }
                ask(
                    TerminalCancel::Cancelled,
                    TerminalCancelRequest::CancelBeforeExecution {
                        operation_id,
                        terminal_session_id: scope.terminal_session_id,
                    },
                )
            },
            (TerminalCancel::Cancelled, TerminalCancelReply::Cancelled(reply)) => match reply {
                Err(error) => done(Err(error)),
                Ok(record) => done(Ok(operation_summary(&record))),
            },
            _ => unreached(),
        }
    }
}

/// A Terminal neither sees nor touches what is not its own.
pub proof fn terminals_keep_to_their_own(
    record: OperationRecord,
    scope: TerminalAuthority,
    operation_id: u128,
    now: i128,
    deadline: i128,
)
    requires
        !in_terminal_scope(record, scope),
    ensures
        shown(record, scope) is Err,
        wait_turn(Ok(record), scope, now, deadline) == WaitStep::Done(Err(foreign_terminal())),
        (TerminalCancel::Loaded { scope, operation_id }).after(
            TerminalCancelReply::Loaded(Ok(record)),
        ) == (Seq::<Effect>::empty(), TerminalCancelTurn::Done(Err(foreign_terminal()))),
{
}

} // verus!
