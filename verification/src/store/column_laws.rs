//! What stands in the columns of the store: the texts for enumerations, and the rows as
//! they are read.
use vstd::prelude::*;

use crate::error::{AppError, AppResult};
use crate::ids::parsed_id;
use crate::model::{
    AgentProvider, ChatMessageRecord, ChatThread, Engine, HistoryEntry, Provider, QueryKind,
    SafetySettings, Workspace, WorkspaceConnectionAccess, WorkspaceKind, WorkspaceLifecycleState,
    WorkspaceRole,
};
use crate::store::codec::{
    access_name_is_read_back, engine_name_is_read_back, engine_str, kind_name_is_read_back,
    kind_str, lifecycle_name_is_read_back, lifecycle_state_str, parse_engine, parse_kind,
    parse_lifecycle_state, parse_provider, parse_uuid, parse_workspace_access, parse_workspace_kind,
    parse_workspace_role, provider_name_is_read_back, provider_str, role_name_is_read_back,
    workspace_access_str, workspace_kind_name_is_read_back, workspace_kind_str, workspace_role_str,
};
use crate::store::rows::{
    read_connection, row_limits_are_read_back, row_to_chat_message, row_to_chat_thread,
    row_to_history, row_to_member, row_to_safety, row_to_workspace, safety_to_row, RawConnection,
    RawHistory, RawMember, RawMessage, RawSafety, RawThread, RawWorkspace,
};
use crate::store::startup::{audit_needs_rebuild, cascade_is_mentioned, uppercase};
use crate::store::tables::{ConnectionRow, Member, Store};

verus! {

/// The texts under which enumerations are stored.
pub proof fn enumerations_are_stored_by_name(
    engine: Engine,
    provider: Provider,
    access: WorkspaceConnectionAccess,
    workspace: WorkspaceKind,
    state: WorkspaceLifecycleState,
    role: WorkspaceRole,
    kind: QueryKind,
)
    ensures
        forall|r: &'static str| #[trigger]
            call_ensures(engine_str, (engine,), r) ==> r@ == match engine {
                Engine::Postgres => "postgres"@,
                Engine::Mysql => "mysql"@,
                Engine::Sqlite => "sqlite"@,
                Engine::Mongodb => "mongodb"@,
            },
        forall|r: &'static str| #[trigger]
            call_ensures(provider_str, (provider,), r) ==> r@ == match provider {
                Provider::Auto => "auto"@,
                Provider::Generic => "generic"@,
                Provider::Neon => "neon"@,
                Provider::PlanetScale => "planetScale"@,
            },
        forall|r: &'static str| #[trigger]
            call_ensures(workspace_access_str, (access,), r) ==> r@ == match access {
                WorkspaceConnectionAccess::View => "view"@,
                WorkspaceConnectionAccess::Read => "read"@,
                WorkspaceConnectionAccess::Write => "write"@,
                WorkspaceConnectionAccess::Manage => "manage"@,
                WorkspaceConnectionAccess::Local => "local"@,
            },
        forall|r: &'static str| #[trigger]
            call_ensures(workspace_kind_str, (workspace,), r) ==> r@ == match workspace {
                WorkspaceKind::Personal => "personal"@,
                WorkspaceKind::Team => "team"@,
            },
        forall|r: &'static str| #[trigger]
            call_ensures(lifecycle_state_str, (state,), r) ==> r@ == match state {
                WorkspaceLifecycleState::Active => "active"@,
                WorkspaceLifecycleState::Archived => "archived"@,
                WorkspaceLifecycleState::Deleted => "deleted"@,
            },
        forall|r: &'static str| #[trigger]
            call_ensures(workspace_role_str, (role,), r) ==> r@ == match role {
                WorkspaceRole::Viewer => "viewer"@,
                WorkspaceRole::Analyst => "analyst"@,
                WorkspaceRole::Editor => "editor"@,
                WorkspaceRole::Admin => "admin"@,
                WorkspaceRole::Owner => "owner"@,
            },
        forall|r: &'static str| #[trigger]
            call_ensures(kind_str, (kind,), r) ==> r@ == match kind {
                QueryKind::Read => "read"@,
                QueryKind::Write => "write"@,
                QueryKind::Ddl => "ddl"@,
                QueryKind::Privilege => "privilege"@,
            },
{
}

/// What is stored under such a text is read back as what it was stored for.
pub proof fn enumerations_are_read_back(
    text: String,
    engine: Engine,
    provider: Provider,
    access: WorkspaceConnectionAccess,
    workspace: WorkspaceKind,
    state: WorkspaceLifecycleState,
    role: WorkspaceRole,
    kind: QueryKind,
)
    ensures
        forall|written: &'static str, r: AppResult<Engine>|
            #![trigger call_ensures(engine_str, (engine,), written), call_ensures(parse_engine, (text,), r)]
            call_ensures(engine_str, (engine,), written) && call_ensures(parse_engine, (text,), r)
                && text@ == written@ ==> r == AppResult::<Engine>::Ok(engine),
        forall|written: &'static str, r: AppResult<Provider>|
            #![trigger call_ensures(provider_str, (provider,), written), call_ensures(parse_provider, (text,), r)]
            call_ensures(provider_str, (provider,), written) && call_ensures(
                parse_provider,
                (text,),
                r,
            ) && text@ == written@ ==> r == AppResult::<Provider>::Ok(provider),
        forall|written: &'static str, r: AppResult<WorkspaceConnectionAccess>|
            #![trigger call_ensures(workspace_access_str, (access,), written), call_ensures(parse_workspace_access, (text,), r)]
            call_ensures(workspace_access_str, (access,), written) && call_ensures(
                parse_workspace_access,
                (text,),
                r,
            ) && text@ == written@ ==> r == AppResult::<WorkspaceConnectionAccess>::Ok(access),
        forall|written: &'static str, r: AppResult<WorkspaceKind>|
            #![trigger call_ensures(workspace_kind_str, (workspace,), written), call_ensures(parse_workspace_kind, (text,), r)]
            call_ensures(workspace_kind_str, (workspace,), written) && call_ensures(
                parse_workspace_kind,
                (text,),
                r,
            ) && text@ == written@ ==> r == AppResult::<WorkspaceKind>::Ok(workspace),
        forall|written: &'static str, r: AppResult<WorkspaceLifecycleState>|
            #![trigger call_ensures(lifecycle_state_str, (state,), written), call_ensures(parse_lifecycle_state, (text,), r)]
            call_ensures(lifecycle_state_str, (state,), written) && call_ensures(
                parse_lifecycle_state,
                (text,),
                r,
            ) && text@ == written@ ==> r == AppResult::<WorkspaceLifecycleState>::Ok(state),
        forall|written: &'static str, r: AppResult<WorkspaceRole>|
            #![trigger call_ensures(workspace_role_str, (role,), written), call_ensures(parse_workspace_role, (text,), r)]
            call_ensures(workspace_role_str, (role,), written) && call_ensures(
                parse_workspace_role,
                (text,),
                r,
            ) && text@ == written@ ==> r == AppResult::<WorkspaceRole>::Ok(role),
        forall|written: &'static str, r: AppResult<QueryKind>|
            #![trigger call_ensures(kind_str, (kind,), written), call_ensures(parse_kind, (text,), r)]
            call_ensures(kind_str, (kind,), written) && call_ensures(parse_kind, (text,), r)
                && text@ == written@ ==> r == AppResult::<QueryKind>::Ok(kind),
{
    engine_name_is_read_back(engine);
    provider_name_is_read_back(provider);
    access_name_is_read_back(access);
    workspace_kind_name_is_read_back(workspace);
    lifecycle_name_is_read_back(state);
    role_name_is_read_back(role);
    kind_name_is_read_back(kind);
}

/// Settings that are stored are read back as they were.
pub proof fn stored_settings_are_read_back(settings: SafetySettings)
    ensures
        forall|row: RawSafety, read: SafetySettings|
            #![trigger call_ensures(safety_to_row, (&settings,), row), call_ensures(row_to_safety, (row,), read)]
            call_ensures(safety_to_row, (&settings,), row) && call_ensures(
                row_to_safety,
                (row,),
                read,
            ) ==> read == settings,
{
    row_limits_are_read_back(settings);
}

/// The stored settings are the settings, each under its own name.
pub proof fn settings_are_stored_by_name(settings: SafetySettings)
    ensures
        forall|row: RawSafety| #[trigger]
            call_ensures(safety_to_row, (&settings,), row) ==> {
                &&& row.require_approval == settings.require_approval
                &&& row.allow_writes == settings.allow_writes
                &&& row.wrap_writes_in_tx == settings.wrap_writes_in_tx
                &&& row.explain_preview == settings.explain_preview
                &&& row.auto_run_reads == settings.auto_run_reads
                &&& settings.max_rows <= i64::MAX ==> row.max_rows == settings.max_rows
                &&& row.exec_preview_row_limit == settings.exec_preview_row_limit
            },
{
}

/// A workspace and a membership are read as they are stored, column by column.
pub proof fn workspaces_and_members_are_read_as_stored(workspace: RawWorkspace, member: RawMember)
    ensures
        forall|r: AppResult<Workspace>| #[trigger]
            call_ensures(row_to_workspace, (workspace,), r) ==> (r matches Ok(read) ==> {
                &&& parsed_id(workspace.id@) == Ok::<u128, Seq<char>>(read.id)
                &&& read.name == workspace.name
                &&& read.kind == WorkspaceKind::Personal ==> workspace.kind@ == "personal"@
                &&& read.kind == WorkspaceKind::Team ==> workspace.kind@ == "team"@
                &&& read.lifecycle_state == WorkspaceLifecycleState::Active
                    ==> workspace.lifecycle_state@ == "active"@
                &&& read.lifecycle_state == WorkspaceLifecycleState::Archived
                    ==> workspace.lifecycle_state@ == "archived"@
                &&& read.lifecycle_state == WorkspaceLifecycleState::Deleted
                    ==> workspace.lifecycle_state@ == "deleted"@
                &&& read.created_at == workspace.created_at
                &&& read.updated_at == workspace.updated_at
            }),
        forall|r: AppResult<Member>| #[trigger]
            call_ensures(row_to_member, (member,), r) ==> (r matches Ok(read) ==> {
                &&& parsed_id(member.id@) == Ok::<u128, Seq<char>>(read.id)
                &&& parsed_id(member.workspace_id@) == Ok::<u128, Seq<char>>(read.workspace_id)
                &&& read.user_id == member.user_id
                &&& read.display_name == member.display_name
                &&& member.role@ == match read.role {
                    WorkspaceRole::Viewer => "viewer"@,
                    WorkspaceRole::Analyst => "analyst"@,
                    WorkspaceRole::Editor => "editor"@,
                    WorkspaceRole::Admin => "admin"@,
                    WorkspaceRole::Owner => "owner"@,
                }
                &&& read.active == member.active
                &&& read.joined_at == member.joined_at
            }),
{
}

/// A connection is read as it is stored, column by column.
pub proof fn connections_are_read_as_stored(row: RawConnection)
    ensures
        forall|r: AppResult<ConnectionRow>| #[trigger]
            call_ensures(read_connection, (row,), r) ==> (r matches Ok(read) ==> {
                &&& parsed_id(row.id@) == Ok::<u128, Seq<char>>(read.id)
                &&& read.name == row.name
                &&& row.engine@ == match read.engine {
                    Engine::Postgres => "postgres"@,
                    Engine::Mysql => "mysql"@,
                    Engine::Sqlite => "sqlite"@,
                    Engine::Mongodb => "mongodb"@,
                }
                &&& row.provider@ == match read.provider {
                    Provider::Auto => "auto"@,
                    Provider::Generic => "generic"@,
                    Provider::Neon => "neon"@,
                    Provider::PlanetScale => "planetScale"@,
                }
                &&& read.driver_id == row.driver_id
                &&& read.host == row.host
                &&& 0 <= row.port <= 65_535 ==> read.port == row.port
                &&& read.database == row.database
                &&& read.username@ == row.username@
                &&& read.sslmode == row.sslmode
                &&& read.extra_params@ == row.extra_params@
                &&& read.secret_ref == row.secret_ref
                &&& read.readonly_default == row.readonly_default
                &&& read.allow_writes == row.allow_writes
                &&& read.env == row.env
                &&& read.schema_group == row.schema_group
                &&& parsed_id(row.workspace_id@) == Ok::<u128, Seq<char>>(read.workspace_id)
                &&& read.account_user_id == row.account_user_id
                &&& row.remote_id is None ==> read.remote_id is None
                &&& row.remote_id is Some ==> read.remote_id is Some && parsed_id(
                    row.remote_id->0@,
                ) == Ok::<u128, Seq<char>>(read.remote_id->0)
                &&& read.revision == row.revision
                &&& read.sync_status == row.sync_status
                &&& row.workspace_access@ == match read.workspace_access {
                    WorkspaceConnectionAccess::View => "view"@,
                    WorkspaceConnectionAccess::Read => "read"@,
                    WorkspaceConnectionAccess::Write => "write"@,
                    WorkspaceConnectionAccess::Manage => "manage"@,
                    WorkspaceConnectionAccess::Local => "local"@,
                }
                &&& read.credential_mode == row.credential_mode
                &&& read.deleted_at == row.deleted_at
                &&& read.created_at == row.created_at
                &&& read.updated_at == row.updated_at
            }),
{
}

/// A line of the history, a chat and a message are read as they are stored, column by
/// column.
pub proof fn records_are_read_as_stored(
    line: RawHistory,
    thread: RawThread,
    provider: Option<AgentProvider>,
    message: RawMessage,
)
    ensures
        forall|r: AppResult<HistoryEntry>| #[trigger]
            call_ensures(row_to_history, (line,), r) ==> (r matches Ok(read) ==> {
                &&& parsed_id(line.id@) == Ok::<u128, Seq<char>>(read.id)
                &&& parsed_id(line.connection_id@) == Ok::<u128, Seq<char>>(read.connection_id)
                &&& read.sql == line.sql
                &&& line.kind@ == match read.kind {
                    QueryKind::Read => "read"@,
                    QueryKind::Write => "write"@,
                    QueryKind::Ddl => "ddl"@,
                    QueryKind::Privilege => "privilege"@,
                }
                &&& read.status == line.status
                &&& read.row_count == line.row_count
                &&& read.duration_ms == line.duration_ms
                &&& read.error == line.error
                &&& read.executed_at == line.executed_at
                &&& read.origin == line.origin
            }),
        forall|r: AppResult<ChatThread>| #[trigger]
            call_ensures(row_to_chat_thread, (thread, provider), r) ==> (r matches Ok(read) ==> {
                &&& parsed_id(thread.id@) == Ok::<u128, Seq<char>>(read.id)
                &&& provider == Some(read.provider)
                &&& thread.connection_id is None ==> read.connection_id is None
                &&& thread.connection_id is Some ==> read.connection_id is Some && parsed_id(
                    thread.connection_id->0@,
                ) == Ok::<u128, Seq<char>>(read.connection_id->0)
                &&& read.title == thread.title
                &&& read.cli_session_id == thread.cli_session_id
                &&& read.model == thread.model
                &&& read.effort == thread.effort
                &&& read.created_at == thread.created_at
                &&& read.updated_at == thread.updated_at
            }),
        forall|r: AppResult<ChatMessageRecord>| #[trigger]
            call_ensures(row_to_chat_message, (message,), r) ==> (r matches Ok(read) ==> {
                &&& parsed_id(message.id@) == Ok::<u128, Seq<char>>(read.id)
                &&& parsed_id(message.thread_id@) == Ok::<u128, Seq<char>>(read.thread_id)
                &&& read.role == message.role
                &&& read.text == message.text
                &&& read.error == message.error
                &&& read.created_at == message.created_at
            }),
{
}

/// A new installation has the personal workspace, active and owned by the device's owner,
/// and nothing else.
pub proof fn a_new_installation_is_personal(now: i128)
    ensures
        forall|store: Store| #[trigger]
            call_ensures(Store::fresh, (now,), store) ==> {
                let tables = store@;
                &&& tables.workspaces.len() == 1
                &&& tables.workspaces[0].id == 1
                &&& tables.workspaces[0].name@ == "Personal Workspace"@
                &&& tables.workspaces[0].kind == WorkspaceKind::Personal
                &&& tables.workspaces[0].lifecycle_state == WorkspaceLifecycleState::Active
                &&& tables.workspaces[0].created_at == now && tables.workspaces[0].updated_at == now
                &&& tables.members.len() == 1
                &&& tables.members[0].id == 2
                &&& tables.members[0].workspace_id == 1
                &&& tables.members[0].user_id is None
                &&& tables.members[0].display_name@ == "Local owner"@
                &&& tables.members[0].role == WorkspaceRole::Owner
                &&& tables.members[0].active && tables.members[0].joined_at == now
                &&& tables.active_workspace == 1 && tables.active_account is None
                &&& tables.accounts.len() == 0 && tables.connections.len() == 0
                    && tables.bindings.len() == 0 && tables.safety.len() == 0
                    && tables.history.len() == 0 && tables.dashboards.len() == 0
                    && tables.schema_cache.len() == 0 && tables.threads.len() == 0
                    && tables.messages.len() == 0 && tables.outbox.len() == 0
            },
{
}

/// The audit table is rebuilt exactly where its definition, in capitals, holds the word
/// `CASCADE`.
pub proof fn cascading_audits_are_rebuilt(definition: Option<String>, capitals: &str)
    ensures
        forall|r: bool| #[trigger]
            call_ensures(cascade_is_mentioned, (capitals,), r) ==> (r <==> exists|i: int|
                0 <= i <= capitals@.len() - 7 && #[trigger] capitals@.subrange(i, i + 7)
                    == "CASCADE"@),
        forall|r: bool| #[trigger]
            call_ensures(audit_needs_rebuild, (&definition,), r) ==> (r <==> definition is Some
                && exists|i: int|
                0 <= i <= uppercase(definition->0@).len() - 7 && #[trigger] uppercase(
                    definition->0@,
                ).subrange(i, i + 7) == "CASCADE"@),
{
    reveal_strlit("CASCADE");
    assert("CASCADE"@.len() == 7);
}

/// What is told of a text that stands for nothing: what it was to be, and the text.
pub proof fn unreadable_columns_are_told(text: String)
    ensures
        forall|r: AppResult<u128>| #[trigger]
            call_ensures(parse_uuid, (text,), r) ==> match parsed_id(text@) {
                Ok(id) => r == Ok::<u128, AppError>(id),
                Err(reason) => r matches Err(AppError::Config(told)) && told@ == "bad uuid '"@
                    + text@ + "': "@ + reason,
            },
        forall|r: AppResult<Engine>| #[trigger]
            call_ensures(parse_engine, (text,), r) ==> (r is Err ==> (r matches Err(
                AppError::Config(told),
            ) && told@ == "unknown engine '"@ + text@ + "'"@)),
        forall|r: AppResult<Provider>| #[trigger]
            call_ensures(parse_provider, (text,), r) ==> (r is Err ==> (r matches Err(
                AppError::Config(told),
            ) && told@ == "unknown provider '"@ + text@ + "'"@)),
        forall|r: AppResult<WorkspaceConnectionAccess>| #[trigger]
            call_ensures(parse_workspace_access, (text,), r) ==> (r is Err ==> (r matches Err(
                AppError::Config(told),
            ) && told@ == "unknown workspace connection access '"@ + text@ + "'"@)),
        forall|r: AppResult<WorkspaceKind>| #[trigger]
            call_ensures(parse_workspace_kind, (text,), r) ==> (r is Err ==> (r matches Err(
                AppError::Config(told),
            ) && told@ == "unknown workspace kind '"@ + text@ + "'"@)),
        forall|r: AppResult<WorkspaceLifecycleState>| #[trigger]
            call_ensures(parse_lifecycle_state, (text,), r) ==> (r is Err ==> (r matches Err(
                AppError::Config(told),
            ) && told@ == "unknown workspace lifecycle state '"@ + text@ + "'"@)),
        forall|r: AppResult<WorkspaceRole>| #[trigger]
            call_ensures(parse_workspace_role, (text,), r) ==> (r is Err ==> (r matches Err(
                AppError::Config(told),
            ) && told@ == "unknown workspace role '"@ + text@ + "'"@)),
        forall|r: AppResult<QueryKind>| #[trigger]
            call_ensures(parse_kind, (text,), r) ==> (r is Err ==> (r matches Err(
                AppError::Config(told),
            ) && told@ == "unknown query kind '"@ + text@ + "'"@)),
{
}

/// A text is read as an enumeration exactly where it is one of that enumeration's texts.
pub proof fn only_known_texts_are_read(text: String)
    ensures
        forall|r: AppResult<Engine>| #[trigger]
            call_ensures(parse_engine, (text,), r) ==> (r is Ok <==> text@ == "postgres"@ || text@
                == "mysql"@ || text@ == "sqlite"@ || text@ == "mongodb"@),
        forall|r: AppResult<Provider>| #[trigger]
            call_ensures(parse_provider, (text,), r) ==> (r is Ok <==> text@ == "auto"@ || text@
                == "generic"@ || text@ == "neon"@ || text@ == "planetScale"@),
        forall|r: AppResult<WorkspaceConnectionAccess>| #[trigger]
            call_ensures(parse_workspace_access, (text,), r) ==> (r is Ok <==> text@ == "view"@
                || text@ == "read"@ || text@ == "write"@ || text@ == "manage"@ || text@
                == "local"@),
        forall|r: AppResult<WorkspaceKind>| #[trigger]
            call_ensures(parse_workspace_kind, (text,), r) ==> (r is Ok <==> text@ == "personal"@
                || text@ == "team"@),
        forall|r: AppResult<WorkspaceLifecycleState>| #[trigger]
            call_ensures(parse_lifecycle_state, (text,), r) ==> (r is Ok <==> text@ == "active"@
                || text@ == "archived"@ || text@ == "deleted"@),
        forall|r: AppResult<WorkspaceRole>| #[trigger]
            call_ensures(parse_workspace_role, (text,), r) ==> (r is Ok <==> text@ == "viewer"@
                || text@ == "analyst"@ || text@ == "editor"@ || text@ == "admin"@ || text@
                == "owner"@),
        forall|r: AppResult<QueryKind>| #[trigger]
            call_ensures(parse_kind, (text,), r) ==> (r is Ok <==> text@ == "read"@ || text@
                == "write"@ || text@ == "ddl"@ || text@ == "privilege"@),
{
}

} // verus!
