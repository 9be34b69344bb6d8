//! Reading rows as the database gives them: texts become identifiers and enumerations, or
//! the row is refused.
use vstd::prelude::*;

use crate::error::{AppError, AppResult};
use crate::ids::{parse_id, parsed_id};
use crate::model::{
    AgentProvider, ChatMessageRecord, ChatThread, HistoryEntry, SafetySettings, Workspace,
    WorkspaceCredentialMode,
};
use crate::store::codec::{
    access_named, engine_named, kind_named, lifecycle_named,
    parse_engine, parse_kind, parse_lifecycle_state, parse_provider,
    parse_uuid, parse_uuid_opt, parse_workspace_access, parse_workspace_kind,
    parse_workspace_role, provider_named, role_named, workspace_kind_named,
};
use crate::store::tables::{ConnectionRow, Member, SyncStatus};
use crate::text::Text;

verus! {

/// A row of the workspaces.
#[derive(Debug, PartialEq, Eq)]
pub struct RawWorkspace {
    pub id: String,
    pub name: String,
    pub kind: String,
    pub lifecycle_state: String,
    pub created_at: i128,
    pub updated_at: i128,
}

/// The complaint about an identifier that cannot be read.
pub open spec fn is_bad_uuid(error: AppError, text: String) -> bool {
    &&& parsed_id(text@) is Err
    &&& error matches AppError::Config(Text::TwoTexts(before, echoed, between, said))
    &&& before == "bad uuid '"
    &&& echoed == text
    &&& between == "': "
    &&& said@ == parsed_id(text@)->Err_0
}

/// The complaint about a text that stands for nothing.
pub open spec fn unknown(what: &'static str, text: String) -> AppError {
    AppError::Config(Text::WithText(what, text, "'"))
}

/// Reads a workspace. The first column that cannot be read decides the complaint.
pub fn row_to_workspace(row: RawWorkspace) -> (r: AppResult<Workspace>)
    ensures
        match r {
            Ok(workspace) => {
                &&& parsed_id(row.id@) == Ok::<u128, Seq<char>>(workspace.id)
                &&& workspace_kind_named(row.kind@) == Some(workspace.kind)
                &&& lifecycle_named(row.lifecycle_state@) == Some(workspace.lifecycle_state)
                &&& workspace == (Workspace {
                    id: workspace.id,
                    name: row.name,
                    kind: workspace.kind,
                    lifecycle_state: workspace.lifecycle_state,
                    created_at: row.created_at,
                    updated_at: row.updated_at,
                })
            },
            Err(error) => if parsed_id(row.id@) is Err {
                is_bad_uuid(error, row.id)
            } else if workspace_kind_named(row.kind@) is None {
                error == unknown("unknown workspace kind '", row.kind)
            } else {
                lifecycle_named(row.lifecycle_state@) is None && error == unknown(
                    "unknown workspace lifecycle state '",
                    row.lifecycle_state,
                )
            },
        },
{
    let id = match parse_uuid(row.id) {
        Ok(id) => id,
        Err(error) => {
            return Err(error);
        },
    };
    let kind = match parse_workspace_kind(row.kind) {
        Ok(kind) => kind,
        Err(error) => {
            return Err(error);
        },
    };
    let lifecycle_state = match parse_lifecycle_state(row.lifecycle_state) {
        Ok(state) => state,
        Err(error) => {
            return Err(error);
        },
    };
    Ok(
        Workspace {
            id,
            name: row.name,
            kind,
            lifecycle_state,
            created_at: row.created_at,
            updated_at: row.updated_at,
        },
    )
}

/// A row of the memberships.
#[derive(Debug, PartialEq, Eq)]
pub struct RawMember {
    pub id: String,
    pub workspace_id: String,
    pub user_id: Option<String>,
    pub display_name: String,
    pub role: String,
    pub active: bool,
    pub joined_at: i128,
}

/// Reads a membership.
pub fn row_to_member(row: RawMember) -> (r: AppResult<Member>)
    ensures
        match r {
            Ok(member) => {
                &&& parsed_id(row.id@) == Ok::<u128, Seq<char>>(member.id)
                &&& parsed_id(row.workspace_id@) == Ok::<u128, Seq<char>>(member.workspace_id)
                &&& role_named(row.role@) == Some(member.role)
                &&& member == (Member {
                    id: member.id,
                    workspace_id: member.workspace_id,
                    user_id: row.user_id,
                    display_name: row.display_name,
                    role: member.role,
                    active: row.active,
                    joined_at: row.joined_at,
                })
            },
            Err(error) => if parsed_id(row.id@) is Err {
                is_bad_uuid(error, row.id)
            } else if parsed_id(row.workspace_id@) is Err {
                error matches AppError::Config(Text::Owned(said)) && said@ == parsed_id(
                    row.workspace_id@,
                )->Err_0
            } else {
                role_named(row.role@) is None && error == unknown(
                    "unknown workspace role '",
                    row.role,
                )
            },
        },
{
    let id = match parse_uuid(row.id) {
        Ok(id) => id,
        Err(error) => {
            return Err(error);
        },
    };
    let workspace_id = match parse_id(row.workspace_id.as_str()) {
        Ok(id) => id,
        Err(reason) => {
            return Err(AppError::Config(Text::Owned(reason)));
        },
    };
    let role = match parse_workspace_role(row.role) {
        Ok(role) => role,
        Err(error) => {
            return Err(error);
        },
    };
    Ok(
        Member {
            id,
            workspace_id,
            user_id: row.user_id,
            display_name: row.display_name,
            role,
            active: row.active,
            joined_at: row.joined_at,
        },
    )
}

/// A row of the connections.
#[derive(Debug, PartialEq, Eq)]
pub struct RawConnection {
    pub id: String,
    pub name: String,
    pub engine: String,
    pub provider: String,
    pub driver_id: Option<String>,
    pub host: String,
    pub port: i64,
    pub database: String,
    pub username: String,
    pub sslmode: String,
    pub extra_params: String,
    pub secret_ref: Option<String>,
    pub readonly_default: bool,
    pub allow_writes: bool,
    pub env: Option<String>,
    pub schema_group: Option<String>,
    pub workspace_id: String,
    pub account_user_id: Option<String>,
    pub remote_id: Option<String>,
    pub revision: i64,
    pub sync_status: SyncStatus,
    pub workspace_access: String,
    pub credential_mode: WorkspaceCredentialMode,
    pub deleted_at: Option<i128>,
    pub created_at: i128,
    pub updated_at: i128,
}

/// A number as a port: its low 16 bits.
#[verifier::truncate]
fn to_port(number: i64) -> (r: u16)
    ensures
        r == number as u16,
{
    number as u16
}

/// What a text of an optional identifier says.
pub open spec fn reads_as(text: Option<String>, id: Option<u128>) -> bool {
    match text {
        Some(text) => id is Some && parsed_id(text@) == Ok::<u128, Seq<char>>(id->0),
        None => id is None,
    }
}

/// Reads a connection. The first column that cannot be read decides the complaint.
pub fn read_connection(row: RawConnection) -> (r: AppResult<ConnectionRow>)
    ensures
        match r {
            Ok(read) => {
                &&& parsed_id(row.id@) == Ok::<u128, Seq<char>>(read.id)
                &&& engine_named(row.engine@) == Some(read.engine)
                &&& provider_named(row.provider@) == Some(read.provider)
                &&& access_named(row.workspace_access@) == Some(read.workspace_access)
                &&& parsed_id(row.workspace_id@) == Ok::<u128, Seq<char>>(read.workspace_id)
                &&& reads_as(row.remote_id, read.remote_id)
                &&& read == (ConnectionRow {
                    id: read.id,
                    name: row.name,
                    engine: read.engine,
                    provider: read.provider,
                    driver_id: row.driver_id,
                    host: row.host,
                    port: row.port as u16,
                    database: row.database,
                    username: Text::Owned(row.username),
                    sslmode: row.sslmode,
                    extra_params: Text::Owned(row.extra_params),
                    secret_ref: row.secret_ref,
                    readonly_default: row.readonly_default,
                    allow_writes: row.allow_writes,
                    env: row.env,
                    schema_group: row.schema_group,
                    workspace_id: read.workspace_id,
                    account_user_id: row.account_user_id,
                    remote_id: read.remote_id,
                    revision: row.revision,
                    sync_status: row.sync_status,
                    workspace_access: read.workspace_access,
                    credential_mode: row.credential_mode,
                    deleted_at: row.deleted_at,
                    created_at: row.created_at,
                    updated_at: row.updated_at,
                })
            },
            Err(error) => if parsed_id(row.id@) is Err {
                is_bad_uuid(error, row.id)
            } else if engine_named(row.engine@) is None {
                error == unknown("unknown engine '", row.engine)
            } else if provider_named(row.provider@) is None {
                error == unknown("unknown provider '", row.provider)
            } else if access_named(row.workspace_access@) is None {
                error == unknown("unknown workspace connection access '", row.workspace_access)
            } else if parsed_id(row.workspace_id@) is Err {
                is_bad_uuid(error, row.workspace_id)
            } else {
                row.remote_id is Some && is_bad_uuid(error, row.remote_id->0)
            },
        },
{
    let id = match parse_uuid(row.id) {
        Ok(id) => id,
        Err(error) => {
            return Err(error);
        },
    };
    let engine = match parse_engine(row.engine) {
        Ok(engine) => engine,
        Err(error) => {
            return Err(error);
        },
    };
    let provider = match parse_provider(row.provider) {
        Ok(provider) => provider,
        Err(error) => {
            return Err(error);
        },
    };
    let workspace_access = match parse_workspace_access(row.workspace_access) {
        Ok(access) => access,
        Err(error) => {
            return Err(error);
        },
    };
    let workspace_id = match parse_uuid(row.workspace_id) {
        Ok(id) => id,
        Err(error) => {
            return Err(error);
        },
    };
    let remote_id = match parse_uuid_opt(row.remote_id) {
        Ok(id) => id,
        Err(error) => {
            return Err(error);
        },
    };
    Ok(
        ConnectionRow {
            id,
            name: row.name,
            engine,
            provider,
            driver_id: row.driver_id,
            host: row.host,
            port: to_port(row.port),
            database: row.database,
            username: Text::Owned(row.username),
            sslmode: row.sslmode,
            extra_params: Text::Owned(row.extra_params),
            secret_ref: row.secret_ref,
            readonly_default: row.readonly_default,
            allow_writes: row.allow_writes,
            env: row.env,
            schema_group: row.schema_group,
            workspace_id,
            account_user_id: row.account_user_id,
            remote_id,
            revision: row.revision,
            sync_status: row.sync_status,
            workspace_access,
            credential_mode: row.credential_mode,
            deleted_at: row.deleted_at,
            created_at: row.created_at,
            updated_at: row.updated_at,
        },
    )
}

/// A row of the history.
#[derive(Debug, PartialEq, Eq)]
pub struct RawHistory {
    pub id: String,
    pub connection_id: String,
    pub sql: String,
    pub kind: String,
    pub status: String,
    pub row_count: Option<i64>,
    pub duration_ms: Option<i64>,
    pub error: Option<String>,
    pub executed_at: i128,
    pub origin: String,
}

/// Reads a line of the history.
pub fn row_to_history(row: RawHistory) -> (r: AppResult<HistoryEntry>)
    ensures
        match r {
            Ok(entry) => {
                &&& parsed_id(row.id@) == Ok::<u128, Seq<char>>(entry.id)
                &&& parsed_id(row.connection_id@) == Ok::<u128, Seq<char>>(entry.connection_id)
                &&& kind_named(row.kind@) == Some(entry.kind)
                &&& entry == (HistoryEntry {
                    id: entry.id,
                    connection_id: entry.connection_id,
                    sql: row.sql,
                    kind: entry.kind,
                    status: row.status,
                    row_count: row.row_count,
                    duration_ms: row.duration_ms,
                    error: row.error,
                    executed_at: row.executed_at,
                    origin: row.origin,
                })
            },
            Err(error) => if parsed_id(row.id@) is Err {
                is_bad_uuid(error, row.id)
            } else if parsed_id(row.connection_id@) is Err {
                is_bad_uuid(error, row.connection_id)
            } else {
                kind_named(row.kind@) is None && error == unknown("unknown query kind '", row.kind)
            },
        },
{
    let id = match parse_uuid(row.id) {
        Ok(id) => id,
        Err(error) => {
            return Err(error);
        },
    };
    let connection_id = match parse_uuid(row.connection_id) {
        Ok(id) => id,
        Err(error) => {
            return Err(error);
        },
    };
    let kind = match parse_kind(row.kind) {
        Ok(kind) => kind,
        Err(error) => {
            return Err(error);
        },
    };
    Ok(
        HistoryEntry {
            id,
            connection_id,
            sql: row.sql,
            kind,
            status: row.status,
            row_count: row.row_count,
            duration_ms: row.duration_ms,
            error: row.error,
            executed_at: row.executed_at,
            origin: row.origin,
        },
    )
}

/// A row of the chats.
#[derive(Debug, PartialEq, Eq)]
pub struct RawThread {
    pub id: String,
    pub provider: String,
    pub connection_id: Option<String>,
    pub title: String,
    pub cli_session_id: Option<String>,
    pub model: Option<String>,
    pub effort: Option<String>,
    pub created_at: i128,
    pub updated_at: i128,
}

/// Reads a chat. `provider` is what the text of the provider stands for, if anything.
pub fn row_to_chat_thread(row: RawThread, provider: Option<AgentProvider>) -> (r: AppResult<
    ChatThread,
>)
    ensures
        match r {
            Ok(thread) => {
                &&& parsed_id(row.id@) == Ok::<u128, Seq<char>>(thread.id)
                &&& provider == Some(thread.provider)
                &&& reads_as(row.connection_id, thread.connection_id)
                &&& thread == (ChatThread {
                    id: thread.id,
                    provider: thread.provider,
                    connection_id: thread.connection_id,
                    title: row.title,
                    cli_session_id: row.cli_session_id,
                    model: row.model,
                    effort: row.effort,
                    created_at: row.created_at,
                    updated_at: row.updated_at,
                })
            },
            Err(error) => if parsed_id(row.id@) is Err {
                is_bad_uuid(error, row.id)
            } else if provider is None {
                error == unknown("unknown agent provider '", row.provider)
            } else {
                row.connection_id is Some && is_bad_uuid(error, row.connection_id->0)
            },
        },
{
    let id = match parse_uuid(row.id) {
        Ok(id) => id,
        Err(error) => {
            return Err(error);
        },
    };
    let provider = match provider {
        Some(provider) => provider,
        None => {
            return Err(
                AppError::Config(Text::WithText("unknown agent provider '", row.provider, "'")),
            );
        },
    };
    let connection_id = match parse_uuid_opt(row.connection_id) {
        Ok(id) => id,
        Err(error) => {
            return Err(error);
        },
    };
    Ok(
        ChatThread {
            id,
            provider,
            connection_id,
            title: row.title,
            cli_session_id: row.cli_session_id,
            model: row.model,
            effort: row.effort,
            created_at: row.created_at,
            updated_at: row.updated_at,
        },
    )
}

/// A row of the chat messages.
#[derive(Debug, PartialEq, Eq)]
pub struct RawMessage {
    pub id: String,
    pub thread_id: String,
    pub role: String,
    pub text: String,
    pub error: Option<String>,
    pub created_at: i128,
}

/// Reads a message of a chat.
pub fn row_to_chat_message(row: RawMessage) -> (r: AppResult<ChatMessageRecord>)
    ensures
        match r {
            Ok(message) => {
                &&& parsed_id(row.id@) == Ok::<u128, Seq<char>>(message.id)
                &&& parsed_id(row.thread_id@) == Ok::<u128, Seq<char>>(message.thread_id)
                &&& message == (ChatMessageRecord {
                    id: message.id,
                    thread_id: message.thread_id,
                    role: row.role,
                    text: row.text,
                    error: row.error,
                    created_at: row.created_at,
                })
            },
            Err(error) => if parsed_id(row.id@) is Err {
                is_bad_uuid(error, row.id)
            } else {
                is_bad_uuid(error, row.thread_id)
            },
        },
{
    let id = match parse_uuid(row.id) {
        Ok(id) => id,
        Err(error) => {
            return Err(error);
        },
    };
    let thread_id = match parse_uuid(row.thread_id) {
        Ok(id) => id,
        Err(error) => {
            return Err(error);
        },
    };
    Ok(
        ChatMessageRecord {
            id,
            thread_id,
            role: row.role,
            text: row.text,
            error: row.error,
            created_at: row.created_at,
        },
    )
}

/// A row of the safety settings.
#[derive(Debug, Clone, Copy, PartialEq, Eq, Structural)]
pub struct RawSafety {
    pub require_approval: bool,
    pub allow_writes: bool,
    pub wrap_writes_in_tx: bool,
    pub explain_preview: bool,
    pub auto_run_reads: bool,
    pub max_rows: i64,
    pub exec_preview_row_limit: i64,
}

/// Reads safety settings. The row limit was stored as the signed number with the same bits.
#[verifier::truncate]
pub fn row_to_safety(row: RawSafety) -> (r: SafetySettings)
    ensures
        r == (SafetySettings {
            require_approval: row.require_approval,
            allow_writes: row.allow_writes,
            wrap_writes_in_tx: row.wrap_writes_in_tx,
            explain_preview: row.explain_preview,
            auto_run_reads: row.auto_run_reads,
            max_rows: row.max_rows as u64,
            exec_preview_row_limit: row.exec_preview_row_limit,
        }),
{
    SafetySettings {
        require_approval: row.require_approval,
        allow_writes: row.allow_writes,
        wrap_writes_in_tx: row.wrap_writes_in_tx,
        explain_preview: row.explain_preview,
        auto_run_reads: row.auto_run_reads,
        max_rows: row.max_rows as u64,
        exec_preview_row_limit: row.exec_preview_row_limit,
    }
}

/// Safety settings as they are stored.
pub open spec fn stored_safety(settings: SafetySettings) -> RawSafety {
    RawSafety {
        require_approval: settings.require_approval,
        allow_writes: settings.allow_writes,
        wrap_writes_in_tx: settings.wrap_writes_in_tx,
        explain_preview: settings.explain_preview,
        auto_run_reads: settings.auto_run_reads,
        max_rows: settings.max_rows as i64,
        exec_preview_row_limit: settings.exec_preview_row_limit,
    }
}

/// Computes [`stored_safety`].
#[verifier::truncate]
pub fn safety_to_row(settings: &SafetySettings) -> (r: RawSafety)
    ensures
        r == stored_safety(*settings),
{
    RawSafety {
        require_approval: settings.require_approval,
        allow_writes: settings.allow_writes,
        wrap_writes_in_tx: settings.wrap_writes_in_tx,
        explain_preview: settings.explain_preview,
        auto_run_reads: settings.auto_run_reads,
        max_rows: settings.max_rows as i64,
        exec_preview_row_limit: settings.exec_preview_row_limit,
    }
}

/// Every row limit is read back as it was stored, also those that are stored as negative
/// numbers.
pub proof fn row_limits_are_read_back(settings: SafetySettings)
    ensures
        stored_safety(settings).max_rows as u64 == settings.max_rows,
{
    let limit = settings.max_rows;
    assert((limit as i64) as u64 == limit) by (bit_vector);
}

} // verus!
