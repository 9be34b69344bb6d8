//! The records and enumerations that every part of the library speaks of.
use vstd::prelude::*;

use crate::text::Text;

verus! {

/// A database engine.
#[derive(Debug, Clone, Copy, PartialEq, Eq, Structural)]
pub enum Engine {
    Postgres,
    Mysql,
    Sqlite,
    Mongodb,
}

impl Engine {
    /// Whether the engine stores documents rather than tables.
    pub open spec fn spec_is_document(self) -> bool {
        self == Engine::Mongodb
    }

    /// Whether the engine stores documents rather than tables.
    pub fn is_document(self) -> (r: bool)
        ensures
            r == self.spec_is_document(),
    {
        self == Engine::Mongodb
    }
}

/// The hosting provider whose control plane overlays a connection.
#[derive(Debug, Clone, Copy, PartialEq, Eq, Structural)]
pub enum Provider {
    Auto,
    Generic,
    Neon,
    PlanetScale,
}

/// What a statement does to its target.
#[derive(Debug, Clone, Copy, PartialEq, Eq, Structural)]
pub enum QueryKind {
    Read,
    Write,
    Ddl,
    Privilege,
}

/// How risky the classifier found a statement.
#[derive(Debug, Clone, Copy, PartialEq, Eq, Structural)]
pub enum RiskLevel {
    Low,
    Medium,
    High,
}

/// What the active workspace lets its member do with a connection.
#[derive(Debug, Clone, Copy, PartialEq, Eq, Structural)]
pub enum WorkspaceConnectionAccess {
    /// The connection is listed, and nothing more.
    View,
    Read,
    Write,
    Manage,
    /// The connection belongs to this device alone.
    Local,
}

impl WorkspaceConnectionAccess {
    /// Every access but `View` lets statements be executed.
    pub open spec fn spec_can_read(self) -> bool {
        self != WorkspaceConnectionAccess::View
    }

    /// `Write`, `Manage` and `Local` let a statement change its target.
    pub open spec fn spec_can_write(self) -> bool {
        self.spec_can_read() && self != WorkspaceConnectionAccess::Read
    }

    /// Whether statements may be executed.
    pub fn can_read(self) -> (r: bool)
        ensures
            r == self.spec_can_read(),
    {
        self != WorkspaceConnectionAccess::View
    }

    /// Whether statements may change their target.
    pub fn can_write(self) -> (r: bool)
        ensures
            r == self.spec_can_write(),
    {
        self != WorkspaceConnectionAccess::View && self != WorkspaceConnectionAccess::Read
    }
}

/// Where the credential of a connection lives.
#[derive(Debug, Clone, Copy, PartialEq, Eq, Structural)]
pub enum WorkspaceCredentialMode {
    Local,
    MemberLocal,
    Managed,
}

/// Whether a workspace belongs to this device or to a team.
#[derive(Debug, Clone, Copy, PartialEq, Eq, Structural)]
pub enum WorkspaceKind {
    Personal,
    Team,
}

/// The life of a workspace.
#[derive(Debug, Clone, Copy, PartialEq, Eq, Structural)]
pub enum WorkspaceLifecycleState {
    Active,
    Archived,
    Deleted,
}

/// A member's role, from the least to the most powerful.
#[derive(Debug, Clone, Copy, PartialEq, Eq, Structural)]
pub enum WorkspaceRole {
    Viewer,
    Analyst,
    Editor,
    Admin,
    Owner,
}

impl WorkspaceRole {
    /// The place of the role among the others, from the least powerful up.
    pub open spec fn rank(self) -> int {
        match self {
            WorkspaceRole::Viewer => 0,
            WorkspaceRole::Analyst => 1,
            WorkspaceRole::Editor => 2,
            WorkspaceRole::Admin => 3,
            WorkspaceRole::Owner => 4,
        }
    }

    fn place(self) -> (r: u8)
        ensures
            r == self.rank(),
    {
        match self {
            WorkspaceRole::Viewer => 0,
            WorkspaceRole::Analyst => 1,
            WorkspaceRole::Editor => 2,
            WorkspaceRole::Admin => 3,
            WorkspaceRole::Owner => 4,
        }
    }

    /// Whether this role has at least the power of the other.
    pub fn at_least(self, other: WorkspaceRole) -> (r: bool)
        ensures
            r == (self.rank() >= other.rank()),
    {
        self.place() >= other.place()
    }
}

/// The command-line agent behind a chat.
#[derive(Debug, Clone, Copy, PartialEq, Eq, Structural)]
pub enum AgentProvider {
    Claude,
    Codex,
}

/// How much of a target a request will touch.
#[derive(Debug, Clone, Copy, PartialEq, Eq, Structural)]
pub enum ConnectionAccess {
    Read,
    Write,
}

/// A connection as its owner edits it. The credential itself is elsewhere:
/// `secret_ref` names the item of the credential store that holds it.
#[derive(Debug, PartialEq, Eq)]
pub struct ConnectionProfile {
    pub id: u128,
    pub name: String,
    pub engine: Engine,
    pub provider: Provider,
    pub driver_id: Option<String>,
    pub host: String,
    pub port: u16,
    pub database: String,
    pub username: String,
    pub sslmode: String,
    pub extra_params: Vec<(String, String)>,
    pub readonly_default: bool,
    pub allow_writes: bool,
    pub secret_ref: Option<String>,
    pub env: Option<String>,
    pub schema_group: Option<String>,
    pub workspace_access: WorkspaceConnectionAccess,
    pub credential_mode: WorkspaceCredentialMode,
}

/// The key and value texts of a parameter list.
pub open spec fn params_view(params: Seq<(String, String)>) -> Seq<(Seq<char>, Seq<char>)> {
    Seq::new(params.len(), |i: int| (params[i].0@, params[i].1@))
}

/// A copy of a parameter list.
pub fn duplicate_params(params: &Vec<(String, String)>) -> (r: Vec<(String, String)>)
    ensures
        r@ == params@,
{
    let mut out: Vec<(String, String)> = Vec::new();
    let mut i: usize = 0;
    while i < params.len()
        invariant
            i <= params.len(),
            out@ == params@.subrange(0, i as int),
        decreases params.len() - i,
    {
        let pair = (params[i].0.clone(), params[i].1.clone());
        out.push(pair);
        i = i + 1;
        assert(out@ =~= params@.subrange(0, i as int));
    }
    assert(params@.subrange(0, params.len() as int) =~= params@);
    out
}

impl ConnectionProfile {
    /// Whether two profiles agree in every field.
    pub open spec fn same(self, other: ConnectionProfile) -> bool {
        &&& self.same_but_params(other)
        &&& self.extra_params@ == other.extra_params@
    }

    /// Whether two profiles agree in every field but the extra parameters.
    pub open spec fn same_but_params(self, other: ConnectionProfile) -> bool {
        &&& self.id == other.id
        &&& self.name == other.name
        &&& self.engine == other.engine
        &&& self.provider == other.provider
        &&& self.driver_id == other.driver_id
        &&& self.host == other.host
        &&& self.port == other.port
        &&& self.database == other.database
        &&& self.username == other.username
        &&& self.sslmode == other.sslmode
        &&& self.readonly_default == other.readonly_default
        &&& self.allow_writes == other.allow_writes
        &&& self.secret_ref == other.secret_ref
        &&& self.env == other.env
        &&& self.schema_group == other.schema_group
        &&& self.workspace_access == other.workspace_access
        &&& self.credential_mode == other.credential_mode
    }

    /// A copy of the profile.
    pub fn duplicate(&self) -> (r: ConnectionProfile)
        ensures
            r.same(*self),
    {
        ConnectionProfile {
            id: self.id,
            name: self.name.clone(),
            engine: self.engine,
            provider: self.provider,
            driver_id: self.driver_id.clone(),
            host: self.host.clone(),
            port: self.port,
            database: self.database.clone(),
            username: self.username.clone(),
            sslmode: self.sslmode.clone(),
            extra_params: duplicate_params(&self.extra_params),
            readonly_default: self.readonly_default,
            allow_writes: self.allow_writes,
            secret_ref: self.secret_ref.clone(),
            env: self.env.clone(),
            schema_group: self.schema_group.clone(),
            workspace_access: self.workspace_access,
            credential_mode: self.credential_mode,
        }
    }
}

/// The safety switches of one connection.
#[derive(Debug, Clone, Copy, PartialEq, Eq, Structural)]
pub struct SafetySettings {
    pub require_approval: bool,
    pub allow_writes: bool,
    pub wrap_writes_in_tx: bool,
    pub explain_preview: bool,
    pub auto_run_reads: bool,
    pub max_rows: u64,
    pub exec_preview_row_limit: i64,
}

impl Default for SafetySettings {
    /// Reads run, writes do not, and everything that can be reviewed is.
    fn default() -> (r: SafetySettings)
        ensures
            r.require_approval,
            !r.allow_writes,
            r.wrap_writes_in_tx,
            r.explain_preview,
            r.auto_run_reads,
            r.max_rows == 1000,
            r.exec_preview_row_limit == 50_000,
    {
        SafetySettings {
            require_approval: true,
            allow_writes: false,
            wrap_writes_in_tx: true,
            explain_preview: true,
            auto_run_reads: true,
            max_rows: 1000,
            exec_preview_row_limit: 50_000,
        }
    }
}

/// What the classifier says of one text of SQL.
#[derive(Debug, Clone, Copy, PartialEq, Eq, Structural)]
pub struct Classification {
    pub kind: QueryKind,
    pub risk: RiskLevel,
    /// A write without a `WHERE` clause.
    pub no_where: bool,
    pub statement_count: u64,
}

impl Classification {
    /// Whether the text is anything but a read.
    pub open spec fn spec_is_write(self) -> bool {
        self.kind != QueryKind::Read
    }

    /// Whether the text is anything but a read.
    pub fn is_write(&self) -> (r: bool)
        ensures
            r == self.spec_is_write(),
    {
        self.kind != QueryKind::Read
    }

    /// Whether the text is exactly one statement and that statement reads.
    pub open spec fn spec_is_single_read(self) -> bool {
        self.kind == QueryKind::Read && self.statement_count == 1
    }

    /// Whether the text is exactly one statement and that statement reads.
    pub fn is_single_read(&self) -> (r: bool)
        ensures
            r == self.spec_is_single_read(),
    {
        self.kind == QueryKind::Read && self.statement_count == 1
    }
}

/// How a dashboard is drawn.
#[derive(Debug, PartialEq, Eq)]
pub struct DashboardVisualization {
    pub version: u32,
    pub kind: String,
    pub x_column: Option<String>,
    pub y_columns: Vec<String>,
}

/// The version of the visualization format that is written.
pub const VISUALIZATION_VERSION: u32 = 1;

/// A dashboard that has not been saved.
#[derive(Debug, PartialEq, Eq)]
pub struct DashboardDraft {
    pub connection_id: u128,
    pub title: String,
    pub description: String,
    pub sql: String,
    pub visualization: DashboardVisualization,
}

/// A saved dashboard. Times are nanoseconds since the Unix epoch.
#[derive(Debug, PartialEq, Eq)]
pub struct Dashboard {
    pub id: u128,
    pub connection_id: u128,
    pub title: String,
    pub description: String,
    pub sql: String,
    pub visualization: DashboardVisualization,
    pub created_at: i128,
    pub updated_at: i128,
}

/// One line of the execution history.
#[derive(Debug, PartialEq, Eq)]
pub struct HistoryEntry {
    pub id: u128,
    pub connection_id: u128,
    pub sql: String,
    pub kind: QueryKind,
    pub status: String,
    pub row_count: Option<i64>,
    pub duration_ms: Option<i64>,
    pub error: Option<String>,
    pub executed_at: i128,
    pub origin: String,
}

/// A workspace. Times are nanoseconds since the Unix epoch.
#[derive(Debug, PartialEq, Eq)]
pub struct Workspace {
    pub id: u128,
    pub name: String,
    pub kind: WorkspaceKind,
    pub lifecycle_state: WorkspaceLifecycleState,
    pub created_at: i128,
    pub updated_at: i128,
}

impl Workspace {
    /// An equal workspace.
    pub fn duplicate(&self) -> (r: Workspace)
        ensures
            r == *self,
    {
        Workspace {
            id: self.id,
            name: self.name.clone(),
            kind: self.kind,
            lifecycle_state: self.lifecycle_state,
            created_at: self.created_at,
            updated_at: self.updated_at,
        }
    }
}

/// Who an account belongs to.
#[derive(Debug, PartialEq, Eq)]
pub struct WorkspaceAuthUser {
    pub id: String,
    pub email: String,
    pub display_name: String,
}

impl WorkspaceAuthUser {
    /// An equal user.
    pub fn duplicate(&self) -> (r: WorkspaceAuthUser)
        ensures
            r == *self,
    {
        WorkspaceAuthUser {
            id: self.id.clone(),
            email: self.email.clone(),
            display_name: self.display_name.clone(),
        }
    }
}

/// That an account belongs to a workspace, and in what role.
#[derive(Debug, Clone, Copy, PartialEq, Eq, Structural)]
pub struct WorkspaceAccountMembership {
    pub workspace_id: u128,
    pub role: WorkspaceRole,
}

/// A remembered account and the workspaces that it belongs to.
#[derive(Debug, PartialEq, Eq)]
pub struct WorkspaceAuthAccount {
    pub user: WorkspaceAuthUser,
    pub memberships: Vec<WorkspaceAccountMembership>,
}

/// Who acts, as a member of which workspace.
#[derive(Debug, PartialEq, Eq)]
pub struct AuthorizationActor {
    pub member_id: u128,
    pub workspace_id: u128,
    pub role: WorkspaceRole,
    pub active: bool,
}

/// What is acted on.
#[derive(Debug, PartialEq, Eq)]
pub struct AuthorizationResource {
    pub workspace_id: u128,
    pub kind: String,
    pub id: u128,
    pub parent_id: Option<u128>,
    pub environment: Option<String>,
}

/// An action that someone wants to take, with everything that bears on it.
#[derive(Debug, PartialEq, Eq)]
pub struct AuthorizationRequest {
    pub actor: AuthorizationActor,
    pub action: String,
    pub resource: AuthorizationResource,
    pub explicitly_granted: bool,
    pub explicitly_denied: bool,
    pub external_capability_available: bool,
    pub production_access: bool,
    pub approval_required: bool,
}

/// Whether the action may be taken, and why or why not.
#[derive(Debug, PartialEq, Eq)]
pub struct AuthorizationDecision {
    pub allowed: bool,
    pub reason: Text,
    pub approval_required: bool,
}

/// A chat with an agent.
#[derive(Debug, PartialEq, Eq)]
pub struct ChatThread {
    pub id: u128,
    pub provider: AgentProvider,
    /// The connection that the chat is about. Chats of older installations have none.
    pub connection_id: Option<u128>,
    pub title: String,
    /// What the agent's own program resumes the chat by.
    pub cli_session_id: Option<String>,
    pub model: Option<String>,
    pub effort: Option<String>,
    pub created_at: i128,
    pub updated_at: i128,
}

impl ChatThread {
    /// An equal chat.
    pub fn duplicate(&self) -> (r: ChatThread)
        ensures
            r == *self,
    {
        ChatThread {
            id: self.id,
            provider: self.provider,
            connection_id: self.connection_id,
            title: self.title.clone(),
            cli_session_id: self.cli_session_id.clone(),
            model: self.model.clone(),
            effort: self.effort.clone(),
            created_at: self.created_at,
            updated_at: self.updated_at,
        }
    }
}

/// One message of a chat.
#[derive(Debug, PartialEq, Eq)]
pub struct ChatMessageRecord {
    pub id: u128,
    pub thread_id: u128,
    pub role: String,
    pub text: String,
    pub error: Option<String>,
    pub created_at: i128,
}

impl ChatMessageRecord {
    /// An equal message.
    pub fn duplicate(&self) -> (r: ChatMessageRecord)
        ensures
            r == *self,
    {
        ChatMessageRecord {
            id: self.id,
            thread_id: self.thread_id,
            role: self.role.clone(),
            text: self.text.clone(),
            error: self.error.clone(),
            created_at: self.created_at,
        }
    }
}

impl HistoryEntry {
    /// An equal line.
    pub fn duplicate(&self) -> (r: HistoryEntry)
        ensures
            r == *self,
    {
        HistoryEntry {
            id: self.id,
            connection_id: self.connection_id,
            sql: self.sql.clone(),
            kind: self.kind,
            status: self.status.clone(),
            row_count: self.row_count,
            duration_ms: self.duration_ms,
            error: self.error.clone(),
            executed_at: self.executed_at,
            origin: self.origin.clone(),
        }
    }
}

/// What the kinds of access let their holder do, which engine holds documents, how the
/// roles are ranked, and which statements are writes and single reads.
pub proof fn accesses_and_kinds_mean_what_they_say(
    access: WorkspaceConnectionAccess,
    engine: Engine,
    role: WorkspaceRole,
    other: WorkspaceRole,
    classification: Classification,
)
    ensures
        forall|r: bool| #[trigger]
            call_ensures(WorkspaceConnectionAccess::can_read, (access,), r) ==> r == match access {
                WorkspaceConnectionAccess::View => false,
                WorkspaceConnectionAccess::Read => true,
                WorkspaceConnectionAccess::Write => true,
                WorkspaceConnectionAccess::Manage => true,
                WorkspaceConnectionAccess::Local => true,
            },
        forall|r: bool| #[trigger]
            call_ensures(WorkspaceConnectionAccess::can_write, (access,), r) ==> r == match access {
                WorkspaceConnectionAccess::View => false,
                WorkspaceConnectionAccess::Read => false,
                WorkspaceConnectionAccess::Write => true,
                WorkspaceConnectionAccess::Manage => true,
                WorkspaceConnectionAccess::Local => true,
            },
        forall|r: bool| #[trigger]
            call_ensures(Engine::is_document, (engine,), r) ==> r == match engine {
                Engine::Postgres => false,
                Engine::Mysql => false,
                Engine::Sqlite => false,
                Engine::Mongodb => true,
            },
        forall|r: bool| #[trigger]
            call_ensures(WorkspaceRole::at_least, (role, other), r) ==> r == match role {
                WorkspaceRole::Owner => true,
                WorkspaceRole::Admin => other != WorkspaceRole::Owner,
                WorkspaceRole::Editor => other != WorkspaceRole::Owner && other
                    != WorkspaceRole::Admin,
                WorkspaceRole::Analyst => other == WorkspaceRole::Analyst || other
                    == WorkspaceRole::Viewer,
                WorkspaceRole::Viewer => other == WorkspaceRole::Viewer,
            },
        forall|r: bool| #[trigger]
            call_ensures(Classification::is_write, (&classification,), r) ==> r == match classification.kind {
                QueryKind::Read => false,
                QueryKind::Write => true,
                QueryKind::Ddl => true,
                QueryKind::Privilege => true,
            },
        forall|r: bool| #[trigger]
            call_ensures(Classification::is_single_read, (&classification,), r) ==> (r
                <==> classification.kind == QueryKind::Read && classification.statement_count == 1),
{
}

} // verus!
