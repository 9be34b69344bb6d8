//! Exact approval of operations, and what a Terminal may see and do of its own ones.
use vstd::prelude::*;

use crate::error::{AppError, AppResult};
use crate::model::SafetySettings;
use crate::operations::{
    AccountScope, OperationActor, OperationActorKind, OperationActorProvenance, OperationApprover,
    OperationKind, OperationRecord, OperationRiskLevel, OperationState, PinnedConnection,
    PolicySnapshot,
};
use crate::services::terminal_authority::TerminalAuthority;
use crate::text::{eq_ignore_ascii_case, same_ignoring_ascii_case, same_text, text_equals, Text};

verus! {

/// What a person types to approve an operation of critical risk.
pub const CRITICAL_CONFIRMATION: &'static str = "RUN CRITICAL";

/// What a person types to approve an operation on production.
pub const PRODUCTION_CONFIRMATION: &'static str = "PROD";

/// Whether an environment label means production, in whatever case it is written.
pub open spec fn is_production(environment: Option<String>) -> bool {
    environment is Some && same_ignoring_ascii_case(environment->0@, "prod"@)
}

/// The phrase that approving `record` takes: none for an operation that leaves the
/// target as it is, else one for critical risk, else one for production.
pub open spec fn confirmation_for(record: OperationRecord) -> Option<&'static str> {
    if !record.kind.spec_may_mutate_target() {
        None
    } else if record.risk_level == OperationRiskLevel::Critical {
        Some(CRITICAL_CONFIRMATION)
    } else if is_production(record.policy_environment) {
        Some(PRODUCTION_CONFIRMATION)
    } else {
        None
    }
}

/// The phrase that approving `record` takes, if any.
pub fn required_confirmation(record: &OperationRecord) -> (r: Option<&'static str>)
    ensures
        r == confirmation_for(*record),
{
    if !record.kind.may_mutate_target() {
        return None;
    }
    if record.risk_level == OperationRiskLevel::Critical {
        return Some(CRITICAL_CONFIRMATION);
    }
    match &record.policy_environment {
        Some(environment) => {
            if eq_ignore_ascii_case(environment.as_str(), "prod") {
                Some(PRODUCTION_CONFIRMATION)
            } else {
                None
            }
        },
        None => None,
    }
}

/// Whether `record` was proposed in the scope, and on the revision, that `pin` shows.
pub open spec fn in_operation_scope(record: OperationRecord, pin: PinnedConnection) -> bool {
    &&& record.workspace_id == pin.scope.workspace_id
    &&& record.account_scope@ == pin.scope.account_scope.key()@
    &&& record.connection_id == pin.connection_id
    &&& record.connection_revision == pin.connection_revision
}

/// The refusal of an operation whose scope is no longer the current one.
pub open spec fn scope_changed() -> AppError {
    AppError::Blocked {
        reason: Text::Plain(
            "operation scope or connection revision changed after the proposal was created",
        ),
    }
}

/// Refuses an operation that was proposed in another scope or on another revision.
pub fn ensure_operation_scope(record: &OperationRecord, pin: &PinnedConnection) -> (r: AppResult<
    (),
>)
    ensures
        r == if in_operation_scope(*record, *pin) {
            Ok::<(), AppError>(())
        } else {
            Err(scope_changed())
        },
{
    let matches = record.workspace_id == pin.scope.workspace_id && text_equals(
        &pin.scope.account_scope.storage_key(),
        record.account_scope.as_str(),
    ) && record.connection_id == pin.connection_id && record.connection_revision
        == pin.connection_revision;
    if matches {
        Ok(())
    } else {
        Err(
            AppError::Blocked {
                reason: Text::Plain(
                    "operation scope or connection revision changed after the proposal was created",
                ),
            },
        )
    }
}

/// Whether `record` was proposed from the Terminal session that `scope` describes, in
/// its scope and on its connection.
pub open spec fn in_terminal_scope(record: OperationRecord, scope: TerminalAuthority) -> bool {
    &&& record.terminal_session_id == Some(scope.terminal_session_id)
    &&& record.workspace_id == scope.workspace_id
    &&& record.account_scope@ == scope.account_scope@
    &&& record.connection_id == scope.connection_id
    &&& record.connection_revision == scope.connection_revision
}

/// The refusal of an operation that belongs to another Terminal.
pub open spec fn foreign_terminal() -> AppError {
    AppError::Blocked {
        reason: Text::Plain("operation belongs to a different Terminal or connection scope"),
    }
}

/// Refuses an operation of another Terminal session, scope or connection.
pub fn ensure_terminal_scope(record: &OperationRecord, scope: &TerminalAuthority) -> (r: AppResult<
    (),
>)
    ensures
        r == if in_terminal_scope(*record, *scope) {
            Ok::<(), AppError>(())
        } else {
            Err(foreign_terminal())
        },
{
    let own = match record.terminal_session_id {
        Some(session) => session == scope.terminal_session_id,
        None => false,
    };
    let matches = own && record.workspace_id == scope.workspace_id && same_text(
        record.account_scope.as_str(),
        scope.account_scope.as_str(),
    ) && record.connection_id == scope.connection_id && record.connection_revision
        == scope.connection_revision;
    if matches {
        Ok(())
    } else {
        Err(
            AppError::Blocked {
                reason: Text::Plain("operation belongs to a different Terminal or connection scope"),
            },
        )
    }
}

/// The account ids that a scope stands for: the local one, or a workspace one.
pub open spec fn scope_accounts(scope: AccountScope) -> (Option<Text>, Option<Text>) {
    match scope {
        AccountScope::Personal => (Some(Text::Plain("local-user")), None),
        AccountScope::WorkspaceUser(id) => (None, Some(Text::Owned(id))),
    }
}

/// The kind and the id of the person that a scope stands for.
pub open spec fn scope_person(scope: AccountScope) -> (OperationActorKind, Text) {
    match scope {
        AccountScope::Personal => (OperationActorKind::LocalUser, Text::Plain("local-user")),
        AccountScope::WorkspaceUser(id) => (OperationActorKind::WorkspaceUser, Text::Owned(id)),
    }
}

/// The person of a pin's scope, acting through `origin_surface`.
pub open spec fn person_of(pin: PinnedConnection, origin_surface: Text) -> OperationActor {
    OperationActor {
        kind: scope_person(pin.scope.account_scope).0,
        id: scope_person(pin.scope.account_scope).1,
        provenance: OperationActorProvenance {
            local_account_id: scope_accounts(pin.scope.account_scope).0,
            workspace_account_id: scope_accounts(pin.scope.account_scope).1,
            origin_surface,
        },
    }
}

/// The actor for what the person of the pinned scope proposes.
pub fn actor_for_pin(pin: &PinnedConnection, origin_surface: Text) -> (r: OperationActor)
    ensures
        r == person_of(*pin, origin_surface),
{
    match &pin.scope.account_scope {
        AccountScope::Personal => OperationActor {
            kind: OperationActorKind::LocalUser,
            id: Text::Plain("local-user"),
            provenance: OperationActorProvenance {
                local_account_id: Some(Text::Plain("local-user")),
                workspace_account_id: None,
                origin_surface,
            },
        },
        AccountScope::WorkspaceUser(id) => OperationActor {
            kind: OperationActorKind::WorkspaceUser,
            id: Text::Owned(id.clone()),
            provenance: OperationActorProvenance {
                local_account_id: None,
                workspace_account_id: Some(Text::Owned(id.clone())),
                origin_surface,
            },
        },
    }
}

/// An agent acting on behalf of the person of a pin's scope.
pub open spec fn agent_of(
    pin: PinnedConnection,
    actor_id: Text,
    origin_surface: Text,
) -> OperationActor {
    OperationActor {
        kind: OperationActorKind::Agent,
        id: actor_id,
        provenance: OperationActorProvenance {
            local_account_id: scope_accounts(pin.scope.account_scope).0,
            workspace_account_id: scope_accounts(pin.scope.account_scope).1,
            origin_surface,
        },
    }
}

/// The actor for what an agent proposes on behalf of the person of the pinned scope.
pub fn agent_actor_for_pin(pin: &PinnedConnection, actor_id: Text, origin_surface: Text) -> (r:
    OperationActor)
    ensures
        r == agent_of(*pin, actor_id, origin_surface),
{
    let (local_account_id, workspace_account_id) = match &pin.scope.account_scope {
        AccountScope::Personal => (Some(Text::Plain("local-user")), None),
        AccountScope::WorkspaceUser(id) => (None, Some(Text::Owned(id.clone()))),
    };
    OperationActor {
        kind: OperationActorKind::Agent,
        id: actor_id,
        provenance: OperationActorProvenance {
            local_account_id,
            workspace_account_id,
            origin_surface,
        },
    }
}

/// The person of a pin's scope, deciding.
pub open spec fn approver_of(pin: PinnedConnection) -> OperationApprover {
    OperationApprover {
        kind: scope_person(pin.scope.account_scope).0,
        id: scope_person(pin.scope.account_scope).1,
    }
}

/// The approver that a pinned scope stands for.
pub fn approver_for_pin(pin: &PinnedConnection) -> (r: OperationApprover)
    ensures
        r == approver_of(*pin),
{
    match &pin.scope.account_scope {
        AccountScope::Personal => OperationApprover {
            kind: OperationActorKind::LocalUser,
            id: Text::Plain("local-user"),
        },
        AccountScope::WorkspaceUser(id) => OperationApprover {
            kind: OperationActorKind::WorkspaceUser,
            id: Text::Owned(id.clone()),
        },
    }
}

/// The policy that a pin stands under, with or without the safety settings.
pub open spec fn policy_of(
    pin: PinnedConnection,
    safety: Option<SafetySettings>,
) -> PolicySnapshot {
    PolicySnapshot {
        account_scope: pin.scope.account_scope.key(),
        binding_revision: pin.binding_revision,
        binding_updated_at: pin.binding_updated_at,
        connection_revision: pin.connection_revision,
        credential_mode: pin.profile.credential_mode,
        environment: pin.profile.env,
        safety,
        scope_generation: pin.scope.generation,
        workspace_access: pin.profile.workspace_access,
        workspace_id: pin.scope.workspace_id,
    }
}

fn snapshot_of(pin: &PinnedConnection, safety: Option<SafetySettings>) -> (r: PolicySnapshot)
    ensures
        r == policy_of(*pin, safety),
{
    PolicySnapshot {
        account_scope: pin.scope.account_scope.storage_key(),
        binding_revision: pin.binding_revision,
        binding_updated_at: pin.binding_updated_at.clone(),
        connection_revision: pin.connection_revision,
        credential_mode: pin.profile.credential_mode,
        environment: pin.profile.env.clone(),
        safety,
        scope_generation: pin.scope.generation,
        workspace_access: pin.profile.workspace_access,
        workspace_id: pin.scope.workspace_id,
    }
}

/// The policy that an operation of a person is bound to.
pub fn capture_policy(pin: &PinnedConnection, settings: &SafetySettings) -> (r: PolicySnapshot)
    ensures
        r == policy_of(*pin, Some(*settings)),
{
    snapshot_of(pin, Some(*settings))
}

/// The policy that an agent's read is bound to. The plan freezes its own row cap, so
/// the safety settings are left out: tuning them does not invalidate the plan.
pub fn capture_agent_read_policy(pin: &PinnedConnection) -> (r: PolicySnapshot)
    ensures
        r == policy_of(*pin, None),
{
    snapshot_of(pin, None)
}

/// The public part of an operation.
#[derive(PartialEq, Eq)]
pub struct OperationSummary {
    pub operation_id: u128,
    pub connection_id: u128,
    pub kind: OperationKind,
    pub state: OperationState,
    pub risk_level: OperationRiskLevel,
    pub payload_hash: String,
    pub expires_at: Option<i128>,
    pub started_at: Option<i128>,
    pub finished_at: Option<i128>,
    pub created_at: i128,
    pub updated_at: i128,
}

/// The public part of `record`.
pub open spec fn summary_of(record: OperationRecord) -> OperationSummary {
    OperationSummary {
        operation_id: record.id,
        connection_id: record.connection_id,
        kind: record.kind,
        state: record.state,
        risk_level: record.risk_level,
        payload_hash: record.payload_hash,
        expires_at: record.expires_at,
        started_at: record.started_at,
        finished_at: record.finished_at,
        created_at: record.created_at,
        updated_at: record.updated_at,
    }
}

/// The public part of an operation.
pub fn operation_summary(record: &OperationRecord) -> (r: OperationSummary)
    ensures
        r == summary_of(*record),
{
    OperationSummary {
        operation_id: record.id,
        connection_id: record.connection_id,
        kind: record.kind,
        state: record.state,
        risk_level: record.risk_level,
        payload_hash: record.payload_hash.clone(),
        expires_at: record.expires_at,
        started_at: record.started_at,
        finished_at: record.finished_at,
        created_at: record.created_at,
        updated_at: record.updated_at,
    }
}

/// Two pins give the same policy exactly where they agree in everything that the
/// policy is made of; in particular a later switch of workspace or account, or an
/// edit of the connection or of its binding, never goes unnoticed.
pub proof fn policy_tells_pins_apart(
    a: PinnedConnection,
    b: PinnedConnection,
    safety: Option<SafetySettings>,
)
    ensures
        policy_of(a, safety) == policy_of(b, safety) ==> {
            &&& a.scope.workspace_id == b.scope.workspace_id
            &&& a.scope.account_scope.key() == b.scope.account_scope.key()
            &&& a.scope.generation == b.scope.generation
            &&& a.connection_revision == b.connection_revision
            &&& a.binding_revision == b.binding_revision
            &&& a.binding_updated_at == b.binding_updated_at
            &&& a.profile.credential_mode == b.profile.credential_mode
            &&& a.profile.env == b.profile.env
            &&& a.profile.workspace_access == b.profile.workspace_access
        },
{
}

} // verus!
