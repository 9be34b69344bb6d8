//! Operations: what was proposed, by whom, against which scope, and where it stands.
use vstd::prelude::*;

use crate::model::{Engine, SafetySettings, WorkspaceConnectionAccess, WorkspaceCredentialMode};
use crate::text::Text;

verus! {

/// What kind of work an operation stands for.
#[derive(Debug, Clone, Copy, PartialEq, Eq, Structural)]
pub enum OperationKind {
    ReadQuery,
    DocumentRead,
    WriteSql,
    Ddl,
    Privilege,
    SqlScript,
    TableDataChange,
    SchemaChange,
    Import,
    Export,
    Migration,
    DashboardCreate,
    PluginAction,
    ProviderAction,
}

impl OperationKind {
    /// Reads, exports and dashboards leave the target as it is.
    pub open spec fn spec_may_mutate_target(self) -> bool {
        !(self == OperationKind::ReadQuery || self == OperationKind::DocumentRead || self
            == OperationKind::Export || self == OperationKind::DashboardCreate)
    }

    /// Whether carrying the operation out may change the target.
    pub fn may_mutate_target(self) -> (r: bool)
        ensures
            r == self.spec_may_mutate_target(),
    {
        !(self == OperationKind::ReadQuery || self == OperationKind::DocumentRead || self
            == OperationKind::Export || self == OperationKind::DashboardCreate)
    }
}

/// Where an operation stands.
#[derive(Debug, Clone, Copy, PartialEq, Eq, Structural)]
pub enum OperationState {
    Planned,
    PendingApproval,
    Ready,
    Approved,
    Rejected,
    Expired,
    Cancelled,
    Executing,
    Succeeded,
    Failed,
    OutcomeUnknown,
}

impl OperationState {
    /// Nothing happens to an operation in one of these states any more.
    pub open spec fn spec_is_terminal(self) -> bool {
        ||| self == OperationState::Rejected
        ||| self == OperationState::Expired
        ||| self == OperationState::Cancelled
        ||| self == OperationState::Succeeded
        ||| self == OperationState::Failed
        ||| self == OperationState::OutcomeUnknown
    }

    /// Whether the operation has come to rest.
    pub fn is_terminal(self) -> (r: bool)
        ensures
            r == self.spec_is_terminal(),
    {
        self == OperationState::Rejected || self == OperationState::Expired || self
            == OperationState::Cancelled || self == OperationState::Succeeded || self
            == OperationState::Failed || self == OperationState::OutcomeUnknown
    }
}

/// How risky an operation is.
#[derive(Debug, Clone, Copy, PartialEq, Eq, Structural)]
pub enum OperationRiskLevel {
    Low,
    Medium,
    High,
    Critical,
}

/// Whether a fresh plan may run at once or waits for a person.
#[derive(Debug, Clone, Copy, PartialEq, Eq, Structural)]
pub enum OperationPlanDisposition {
    Ready,
    ApprovalRequired,
}

/// What kind of party acts.
#[derive(Debug, Clone, Copy, PartialEq, Eq, Structural)]
pub enum OperationActorKind {
    LocalUser,
    WorkspaceUser,
    Agent,
    Plugin,
    System,
}

/// Where an actor's authority comes from.
#[derive(Debug, PartialEq, Eq)]
pub struct OperationActorProvenance {
    pub local_account_id: Option<Text>,
    pub workspace_account_id: Option<Text>,
    pub origin_surface: Text,
}

/// The party that proposed an operation.
#[derive(Debug, PartialEq, Eq)]
pub struct OperationActor {
    pub kind: OperationActorKind,
    pub id: Text,
    pub provenance: OperationActorProvenance,
}

/// The person who decides on an operation.
#[derive(Debug, PartialEq, Eq)]
pub struct OperationApprover {
    pub kind: OperationActorKind,
    pub id: Text,
}

/// Whose data a scope holds: this device's, or that of one signed-in account.
#[derive(Debug, PartialEq, Eq)]
pub enum AccountScope {
    Personal,
    WorkspaceUser(String),
}

impl AccountScope {
    /// The key under which the scope's data is stored.
    pub open spec fn key(self) -> Text {
        match self {
            AccountScope::Personal => Text::Plain("personal"),
            AccountScope::WorkspaceUser(id) => Text::Owned(id),
        }
    }

    /// The key under which the scope's data is stored.
    pub fn storage_key(&self) -> (r: Text)
        ensures
            r == self.key(),
    {
        match self {
            AccountScope::Personal => Text::Plain("personal"),
            AccountScope::WorkspaceUser(id) => Text::Owned(id.clone()),
        }
    }

    /// An equal scope.
    pub fn duplicate(&self) -> (r: AccountScope)
        ensures
            r == *self,
    {
        match self {
            AccountScope::Personal => AccountScope::Personal,
            AccountScope::WorkspaceUser(id) => AccountScope::WorkspaceUser(id.clone()),
        }
    }
}

/// The workspace and account that a connection was looked up in.
#[derive(Debug, PartialEq, Eq)]
pub struct ScopePin {
    pub workspace_id: u128,
    pub account_scope: AccountScope,
    /// Counts the switches of workspace or account.
    pub generation: i64,
}

/// The part of a profile that the services decide on.
#[derive(Debug, PartialEq, Eq)]
pub struct PinnedProfile {
    pub id: u128,
    pub name: String,
    pub engine: Engine,
    pub env: Option<String>,
    pub workspace_access: WorkspaceConnectionAccess,
    pub credential_mode: WorkspaceCredentialMode,
}

/// One connection together with the scope and the revisions it was seen under.
#[derive(Debug, PartialEq, Eq)]
pub struct PinnedConnection {
    pub scope: ScopePin,
    pub connection_id: u128,
    pub connection_revision: i64,
    pub binding_revision: Option<i64>,
    pub binding_updated_at: Option<String>,
    pub profile: PinnedProfile,
}

impl PinnedConnection {
    /// An equal pin.
    pub fn duplicate(&self) -> (r: PinnedConnection)
        ensures
            r == *self,
    {
        PinnedConnection {
            scope: ScopePin {
                workspace_id: self.scope.workspace_id,
                account_scope: self.scope.account_scope.duplicate(),
                generation: self.scope.generation,
            },
            connection_id: self.connection_id,
            connection_revision: self.connection_revision,
            binding_revision: self.binding_revision,
            binding_updated_at: self.binding_updated_at.clone(),
            profile: PinnedProfile {
                id: self.profile.id,
                name: self.profile.name.clone(),
                engine: self.profile.engine,
                env: self.profile.env.clone(),
                workspace_access: self.profile.workspace_access,
                credential_mode: self.profile.credential_mode,
            },
        }
    }
}

/// Everything that an operation's policy revision is computed from.
#[derive(Debug, PartialEq, Eq)]
pub struct PolicySnapshot {
    pub account_scope: Text,
    pub binding_revision: Option<i64>,
    pub binding_updated_at: Option<String>,
    pub connection_revision: i64,
    pub credential_mode: WorkspaceCredentialMode,
    pub environment: Option<String>,
    /// Left out of the snapshot of an agent's read.
    pub safety: Option<SafetySettings>,
    pub scope_generation: i64,
    pub workspace_access: WorkspaceConnectionAccess,
    pub workspace_id: u128,
}

/// The latest and, negated, the earliest time that the library computes with, in
/// nanoseconds from the Unix epoch: some 250,000 years away.
pub const MAX_TIME: i128 = 8_000_000_000_000_000_000_000;

/// Whether `now` is a time that a clock can show.
pub open spec fn is_time(now: i128) -> bool {
    -MAX_TIME <= now <= MAX_TIME
}

/// A stored operation. Times are nanoseconds since the Unix epoch.
#[derive(Debug, PartialEq, Eq)]
pub struct OperationRecord {
    pub id: u128,
    pub workspace_id: u128,
    pub account_scope: String,
    pub connection_id: u128,
    pub connection_revision: i64,
    pub terminal_session_id: Option<u128>,
    pub actor_kind: OperationActorKind,
    pub actor_id: String,
    pub kind: OperationKind,
    pub payload_schema_version: i64,
    pub payload_hash: String,
    pub risk_level: OperationRiskLevel,
    /// The environment label in the policy snapshot.
    pub policy_environment: Option<String>,
    pub policy_revision: String,
    pub state: OperationState,
    pub expires_at: Option<i128>,
    pub started_at: Option<i128>,
    pub finished_at: Option<i128>,
    pub created_at: i128,
    pub updated_at: i128,
}

/// A fresh operation, as it is handed to the operation runtime. Its payload and its
/// preview travel beside it.
#[derive(Debug, PartialEq, Eq)]
pub struct NewOperation {
    pub id: u128,
    pub workspace_id: u128,
    pub account_scope: Text,
    pub connection_id: u128,
    pub connection_revision: i64,
    pub terminal_session_id: Option<u128>,
    pub actor: OperationActor,
    pub kind: OperationKind,
    pub payload_schema_version: i64,
    pub risk_level: OperationRiskLevel,
    pub policy_snapshot: PolicySnapshot,
    pub policy_revision: String,
    pub single_use: bool,
    pub idempotency_key: u128,
    pub expires_at: i128,
    pub disposition: OperationPlanDisposition,
}

/// Which operations may change their target, and which states are final.
pub proof fn operations_change_what_they_say(kind: OperationKind, state: OperationState)
    ensures
        forall|r: bool| #[trigger]
            call_ensures(OperationKind::may_mutate_target, (kind,), r) ==> r == match kind {
                OperationKind::ReadQuery => false,
                OperationKind::DocumentRead => false,
                OperationKind::WriteSql => true,
                OperationKind::Ddl => true,
                OperationKind::Privilege => true,
                OperationKind::SqlScript => true,
                OperationKind::TableDataChange => true,
                OperationKind::SchemaChange => true,
                OperationKind::Import => true,
                OperationKind::Export => false,
                OperationKind::Migration => true,
                OperationKind::DashboardCreate => false,
                OperationKind::PluginAction => true,
                OperationKind::ProviderAction => true,
            },
        forall|r: bool| #[trigger]
            call_ensures(OperationState::is_terminal, (state,), r) ==> r == match state {
                OperationState::Planned => false,
                OperationState::PendingApproval => false,
                OperationState::Ready => false,
                OperationState::Approved => false,
                OperationState::Rejected => true,
                OperationState::Expired => true,
                OperationState::Cancelled => true,
                OperationState::Executing => false,
                OperationState::Succeeded => true,
                OperationState::Failed => true,
                OperationState::OutcomeUnknown => true,
            },
{
}

} // verus!
