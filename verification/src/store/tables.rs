//! The tables of the local store.
use vstd::prelude::*;

use crate::model::{
    ChatMessageRecord, ChatThread, Engine, HistoryEntry, Provider, SafetySettings, Workspace,
    WorkspaceAuthUser, WorkspaceConnectionAccess, WorkspaceCredentialMode, WorkspaceRole,
};
use crate::text::Text;

verus! {

/// Whether the server has heard of a row's last change.
#[derive(Debug, Clone, Copy, PartialEq, Eq, Structural)]
pub enum SyncStatus {
    Local,
    Dirty,
    Synced,
    Conflict,
}

/// What kind of thing a change was made to.
#[derive(Debug, Clone, Copy, PartialEq, Eq, Structural)]
pub enum ResourceKind {
    Connection,
    Dashboard,
}

/// What a change was.
#[derive(Debug, Clone, Copy, PartialEq, Eq, Structural)]
pub enum OutboxOperation {
    Upsert,
    Delete,
}

/// That someone belongs to a workspace. The owner of the device has no user id.
#[derive(Debug, PartialEq, Eq)]
pub struct Member {
    pub id: u128,
    pub workspace_id: u128,
    pub user_id: Option<String>,
    pub display_name: String,
    pub role: WorkspaceRole,
    /// Whether the membership holds; one that does not is kept for its role's sake.
    pub active: bool,
    pub joined_at: i128,
}

impl Member {
    /// An equal row.
    pub fn duplicate(&self) -> (r: Member)
        ensures
            r == *self,
    {
        Member {
            id: self.id,
            workspace_id: self.workspace_id,
            user_id: self.user_id.clone(),
            display_name: self.display_name.clone(),
            role: self.role,
            active: self.active,
            joined_at: self.joined_at,
        }
    }
}

/// A remembered account.
#[derive(Debug, PartialEq, Eq)]
pub struct Account {
    pub user: WorkspaceAuthUser,
    /// The team workspace that the account used last.
    pub last_workspace_id: Option<u128>,
    pub created_at: i128,
    pub updated_at: i128,
    pub last_used_at: i128,
}

impl Account {
    /// An equal row.
    pub fn duplicate(&self) -> (r: Account)
        ensures
            r == *self,
    {
        Account {
            user: self.user.duplicate(),
            last_workspace_id: self.last_workspace_id,
            created_at: self.created_at,
            updated_at: self.updated_at,
            last_used_at: self.last_used_at,
        }
    }
}

/// A stored connection.
#[derive(Debug, PartialEq, Eq)]
pub struct ConnectionRow {
    pub id: u128,
    pub name: String,
    pub engine: Engine,
    pub provider: Provider,
    pub driver_id: Option<String>,
    pub host: String,
    pub port: u16,
    pub database: String,
    pub username: Text,
    pub sslmode: String,
    /// A JSON object of texts.
    pub extra_params: Text,
    pub secret_ref: Option<String>,
    pub readonly_default: bool,
    pub allow_writes: bool,
    pub env: Option<String>,
    pub schema_group: Option<String>,
    pub workspace_id: u128,
    /// Whose connection it is, where it is local to a member of a team.
    pub account_user_id: Option<String>,
    /// Its id on the server, where it is shared.
    pub remote_id: Option<u128>,
    pub revision: i64,
    pub sync_status: SyncStatus,
    pub workspace_access: WorkspaceConnectionAccess,
    pub credential_mode: WorkspaceCredentialMode,
    pub deleted_at: Option<i128>,
    pub created_at: i128,
    pub updated_at: i128,
}

impl ConnectionRow {
    /// An equal row.
    pub fn duplicate(&self) -> (r: ConnectionRow)
        ensures
            r == *self,
    {
        ConnectionRow {
            id: self.id,
            name: self.name.clone(),
            engine: self.engine,
            provider: self.provider,
            driver_id: self.driver_id.clone(),
            host: self.host.clone(),
            port: self.port,
            database: self.database.clone(),
            username: self.username.duplicate(),
            sslmode: self.sslmode.clone(),
            extra_params: self.extra_params.duplicate(),
            secret_ref: self.secret_ref.clone(),
            readonly_default: self.readonly_default,
            allow_writes: self.allow_writes,
            env: self.env.clone(),
            schema_group: self.schema_group.clone(),
            workspace_id: self.workspace_id,
            account_user_id: self.account_user_id.clone(),
            remote_id: self.remote_id,
            revision: self.revision,
            sync_status: self.sync_status,
            workspace_access: self.workspace_access,
            credential_mode: self.credential_mode,
            deleted_at: self.deleted_at,
            created_at: self.created_at,
            updated_at: self.updated_at,
        }
    }
}

/// What one account has of its own on a shared connection.
#[derive(Debug, PartialEq, Eq)]
pub struct Binding {
    pub connection_id: u128,
    pub account_user_id: String,
    pub username: Text,
    /// A JSON object of texts.
    pub extra_params: Text,
    pub secret_ref: Option<String>,
    pub workspace_access: WorkspaceConnectionAccess,
    pub allow_writes: bool,
    pub updated_at: i128,
}

impl Binding {
    /// An equal row.
    pub fn duplicate(&self) -> (r: Binding)
        ensures
            r == *self,
    {
        Binding {
            connection_id: self.connection_id,
            account_user_id: self.account_user_id.clone(),
            username: self.username.duplicate(),
            extra_params: self.extra_params.duplicate(),
            secret_ref: self.secret_ref.clone(),
            workspace_access: self.workspace_access,
            allow_writes: self.allow_writes,
            updated_at: self.updated_at,
        }
    }
}

/// The safety settings of a connection.
#[derive(Debug, PartialEq, Eq)]
pub struct SafetyRow {
    pub connection_id: u128,
    pub settings: SafetySettings,
}

impl SafetyRow {
    /// An equal row.
    pub fn duplicate(&self) -> (r: SafetyRow)
        ensures
            r == *self,
    {
        SafetyRow {
            connection_id: self.connection_id,
            settings: self.settings,
        }
    }
}

/// A line of the history, and whose it is.
#[derive(Debug, PartialEq, Eq)]
pub struct HistoryRow {
    pub entry: HistoryEntry,
    pub account_scope: Text,
}

impl HistoryRow {
    /// An equal row.
    pub fn duplicate(&self) -> (r: HistoryRow)
        ensures
            r == *self,
    {
        HistoryRow {
            entry: self.entry.duplicate(),
            account_scope: self.account_scope.duplicate(),
        }
    }
}

/// A stored dashboard.
#[derive(Debug, PartialEq, Eq)]
pub struct DashboardRow {
    pub id: u128,
    pub connection_id: u128,
    pub title: String,
    pub description: String,
    pub sql: String,
    pub visualization_json: String,
    pub workspace_id: u128,
    pub revision: i64,
    pub sync_status: SyncStatus,
    pub deleted_at: Option<i128>,
    pub created_at: i128,
    pub updated_at: i128,
}

impl DashboardRow {
    /// An equal row.
    pub fn duplicate(&self) -> (r: DashboardRow)
        ensures
            r == *self,
    {
        DashboardRow {
            id: self.id,
            connection_id: self.connection_id,
            title: self.title.clone(),
            description: self.description.clone(),
            sql: self.sql.clone(),
            visualization_json: self.visualization_json.clone(),
            workspace_id: self.workspace_id,
            revision: self.revision,
            sync_status: self.sync_status,
            deleted_at: self.deleted_at,
            created_at: self.created_at,
            updated_at: self.updated_at,
        }
    }
}

/// A cached catalog, and whose it is.
#[derive(Debug, PartialEq, Eq)]
pub struct CacheRow {
    pub connection_id: u128,
    pub account_scope: Text,
    pub introspected_at: i128,
    pub catalog_json: String,
}

impl CacheRow {
    /// An equal row.
    pub fn duplicate(&self) -> (r: CacheRow)
        ensures
            r == *self,
    {
        CacheRow {
            connection_id: self.connection_id,
            account_scope: self.account_scope.duplicate(),
            introspected_at: self.introspected_at,
            catalog_json: self.catalog_json.clone(),
        }
    }
}

/// A chat, and whose it is.
#[derive(Debug, PartialEq, Eq)]
pub struct ThreadRow {
    pub thread: ChatThread,
    pub workspace_id: u128,
    pub account_scope: Text,
}

impl ThreadRow {
    /// An equal row.
    pub fn duplicate(&self) -> (r: ThreadRow)
        ensures
            r == *self,
    {
        ThreadRow {
            thread: self.thread.duplicate(),
            workspace_id: self.workspace_id,
            account_scope: self.account_scope.duplicate(),
        }
    }
}

/// A change that the server has yet to hear of. Only what changed is named, not its content.
#[derive(Debug, PartialEq, Eq)]
pub struct OutboxEntry {
    pub id: u128,
    pub workspace_id: u128,
    pub resource: ResourceKind,
    pub resource_id: u128,
    pub operation: OutboxOperation,
    pub revision: i64,
    pub created_at: i128,
}

impl OutboxEntry {
    /// An equal row.
    pub fn duplicate(&self) -> (r: OutboxEntry)
        ensures
            r == *self,
    {
        OutboxEntry {
            id: self.id,
            workspace_id: self.workspace_id,
            resource: self.resource,
            resource_id: self.resource_id,
            operation: self.operation,
            revision: self.revision,
            created_at: self.created_at,
        }
    }
}

/// A row that can be copied.
pub trait Row: Sized {
    /// An equal row.
    fn copied(&self) -> (r: Self)
        ensures
            r == *self,
    ;
}

impl Row for Member {
    fn copied(&self) -> Member {
        self.duplicate()
    }
}

impl Row for Account {
    fn copied(&self) -> Account {
        self.duplicate()
    }
}

impl Row for ConnectionRow {
    fn copied(&self) -> ConnectionRow {
        self.duplicate()
    }
}

impl Row for Binding {
    fn copied(&self) -> Binding {
        self.duplicate()
    }
}

impl Row for SafetyRow {
    fn copied(&self) -> SafetyRow {
        self.duplicate()
    }
}

impl Row for HistoryRow {
    fn copied(&self) -> HistoryRow {
        self.duplicate()
    }
}

impl Row for DashboardRow {
    fn copied(&self) -> DashboardRow {
        self.duplicate()
    }
}

impl Row for CacheRow {
    fn copied(&self) -> CacheRow {
        self.duplicate()
    }
}

impl Row for ThreadRow {
    fn copied(&self) -> ThreadRow {
        self.duplicate()
    }
}

impl Row for OutboxEntry {
    fn copied(&self) -> OutboxEntry {
        self.duplicate()
    }
}

impl Row for Workspace {
    fn copied(&self) -> Workspace {
        self.duplicate()
    }
}

impl Row for ChatMessageRecord {
    fn copied(&self) -> ChatMessageRecord {
        self.duplicate()
    }
}

/// A copy of a table.
pub fn copy_rows<T: Row>(rows: &Vec<T>) -> (r: Vec<T>)
    ensures
        r@ == rows@,
{
    let mut copies: Vec<T> = Vec::new();
    let mut i: usize = 0;
    while i < rows.len()
        invariant
            i <= rows@.len(),
            copies@ == rows@.subrange(0, i as int),
        decreases rows@.len() - i,
    {
        copies.push(rows[i].copied());
        i = i + 1;
        assert(copies@ =~= rows@.subrange(0, i as int));
    }
    assert(rows@.subrange(0, rows@.len() as int) =~= rows@);
    copies
}

/// The local store. Every table is in the order in which its rows came.
pub struct Store {
    pub workspaces: Vec<Workspace>,
    pub members: Vec<Member>,
    pub accounts: Vec<Account>,
    pub active_workspace: u128,
    pub active_account: Option<String>,
    pub connections: Vec<ConnectionRow>,
    pub bindings: Vec<Binding>,
    pub safety: Vec<SafetyRow>,
    pub history: Vec<HistoryRow>,
    pub dashboards: Vec<DashboardRow>,
    pub schema_cache: Vec<CacheRow>,
    pub threads: Vec<ThreadRow>,
    pub messages: Vec<ChatMessageRecord>,
    pub outbox: Vec<OutboxEntry>,
}

/// What the local store holds.
pub struct Tables {
    pub workspaces: Seq<Workspace>,
    pub members: Seq<Member>,
    pub accounts: Seq<Account>,
    pub active_workspace: u128,
    pub active_account: Option<String>,
    pub connections: Seq<ConnectionRow>,
    pub bindings: Seq<Binding>,
    pub safety: Seq<SafetyRow>,
    pub history: Seq<HistoryRow>,
    pub dashboards: Seq<DashboardRow>,
    pub schema_cache: Seq<CacheRow>,
    pub threads: Seq<ThreadRow>,
    pub messages: Seq<ChatMessageRecord>,
    pub outbox: Seq<OutboxEntry>,
}

impl View for Store {
    type V = Tables;

    open spec fn view(&self) -> Tables {
        Tables {
            workspaces: self.workspaces@,
            members: self.members@,
            accounts: self.accounts@,
            active_workspace: self.active_workspace,
            active_account: self.active_account,
            connections: self.connections@,
            bindings: self.bindings@,
            safety: self.safety@,
            history: self.history@,
            dashboards: self.dashboards@,
            schema_cache: self.schema_cache@,
            threads: self.threads@,
            messages: self.messages@,
            outbox: self.outbox@,
        }
    }
}

} // verus!
