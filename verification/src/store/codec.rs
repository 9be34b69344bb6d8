//! The texts under which enumerations and identifiers are stored.
use vstd::prelude::*;

use crate::error::{AppError, AppResult};
use crate::ids::{parse_id, parsed_id};
use crate::model::{
    Engine, Provider, QueryKind, WorkspaceConnectionAccess, WorkspaceKind,
    WorkspaceLifecycleState, WorkspaceRole,
};
use crate::text::{same_text, Text};

verus! {

/// The text that stands for an engine.
pub open spec fn engine_name(engine: Engine) -> &'static str {
    match engine {
        Engine::Postgres => "postgres",
        Engine::Mysql => "mysql",
        Engine::Sqlite => "sqlite",
        Engine::Mongodb => "mongodb",
    }
}

/// The text that stands for an engine.
pub fn engine_str(engine: Engine) -> (r: &'static str)
    ensures
        r == engine_name(engine),
{
    match engine {
        Engine::Postgres => "postgres",
        Engine::Mysql => "mysql",
        Engine::Sqlite => "sqlite",
        Engine::Mongodb => "mongodb",
    }
}

/// What a text stands for, among the texts for an engine.
pub open spec fn engine_named(text: Seq<char>) -> Option<Engine> {
    if text == "postgres"@ {
        Some(Engine::Postgres)
    } else if text == "mysql"@ {
        Some(Engine::Mysql)
    } else if text == "sqlite"@ {
        Some(Engine::Sqlite)
    } else if text == "mongodb"@ {
        Some(Engine::Mongodb)
    } else {
        None
    }
}

/// Reads an engine.
pub fn parse_engine(text: String) -> (r: AppResult<Engine>)
    ensures
        match engine_named(text@) {
            Some(engine) => r == Ok::<Engine, AppError>(engine),
            None => r == Err::<Engine, AppError>(
                AppError::Config(Text::WithText("unknown engine '", text, "'")),
            ),
        },
{
    if same_text(text.as_str(), "postgres") {
        Ok(Engine::Postgres)
    } else if same_text(text.as_str(), "mysql") {
        Ok(Engine::Mysql)
    } else if same_text(text.as_str(), "sqlite") {
        Ok(Engine::Sqlite)
    } else if same_text(text.as_str(), "mongodb") {
        Ok(Engine::Mongodb)
    } else {
        Err(AppError::Config(Text::WithText("unknown engine '", text, "'")))
    }
}

/// What is written for an engine is read back as the same.
pub proof fn engine_name_is_read_back(engine: Engine)
    ensures
        engine_named(engine_name(engine)@) == Some(engine),
{
    reveal_strlit("postgres");
    reveal_strlit("mysql");
    reveal_strlit("sqlite");
    reveal_strlit("mongodb");
    assert("mysql"@.len() != "postgres"@.len());
    assert("sqlite"@.len() != "postgres"@.len());
    assert("sqlite"@.len() != "mysql"@.len());
    assert("mongodb"@.len() != "postgres"@.len());
    assert("mongodb"@.len() != "mysql"@.len());
    assert("mongodb"@.len() != "sqlite"@.len());
}

/// The text that stands for a provider.
pub open spec fn provider_name(provider: Provider) -> &'static str {
    match provider {
        Provider::Auto => "auto",
        Provider::Generic => "generic",
        Provider::Neon => "neon",
        Provider::PlanetScale => "planetScale",
    }
}

/// The text that stands for a provider.
pub fn provider_str(provider: Provider) -> (r: &'static str)
    ensures
        r == provider_name(provider),
{
    match provider {
        Provider::Auto => "auto",
        Provider::Generic => "generic",
        Provider::Neon => "neon",
        Provider::PlanetScale => "planetScale",
    }
}

/// What a text stands for, among the texts for a provider.
pub open spec fn provider_named(text: Seq<char>) -> Option<Provider> {
    if text == "auto"@ {
        Some(Provider::Auto)
    } else if text == "generic"@ {
        Some(Provider::Generic)
    } else if text == "neon"@ {
        Some(Provider::Neon)
    } else if text == "planetScale"@ {
        Some(Provider::PlanetScale)
    } else {
        None
    }
}

/// Reads a provider.
pub fn parse_provider(text: String) -> (r: AppResult<Provider>)
    ensures
        match provider_named(text@) {
            Some(provider) => r == Ok::<Provider, AppError>(provider),
            None => r == Err::<Provider, AppError>(
                AppError::Config(Text::WithText("unknown provider '", text, "'")),
            ),
        },
{
    if same_text(text.as_str(), "auto") {
        Ok(Provider::Auto)
    } else if same_text(text.as_str(), "generic") {
        Ok(Provider::Generic)
    } else if same_text(text.as_str(), "neon") {
        Ok(Provider::Neon)
    } else if same_text(text.as_str(), "planetScale") {
        Ok(Provider::PlanetScale)
    } else {
        Err(AppError::Config(Text::WithText("unknown provider '", text, "'")))
    }
}

/// What is written for a provider is read back as the same.
pub proof fn provider_name_is_read_back(provider: Provider)
    ensures
        provider_named(provider_name(provider)@) == Some(provider),
{
    reveal_strlit("auto");
    reveal_strlit("generic");
    reveal_strlit("neon");
    reveal_strlit("planetScale");
    assert("generic"@.len() != "auto"@.len());
    assert("neon"@[0] != "auto"@[0]);
    assert("neon"@.len() != "generic"@.len());
    assert("planetScale"@.len() != "auto"@.len());
    assert("planetScale"@.len() != "generic"@.len());
    assert("planetScale"@.len() != "neon"@.len());
}

/// The text that stands for an access.
pub open spec fn access_name(access: WorkspaceConnectionAccess) -> &'static str {
    match access {
        WorkspaceConnectionAccess::View => "view",
        WorkspaceConnectionAccess::Read => "read",
        WorkspaceConnectionAccess::Write => "write",
        WorkspaceConnectionAccess::Manage => "manage",
        WorkspaceConnectionAccess::Local => "local",
    }
}

/// The text that stands for an access.
pub fn workspace_access_str(access: WorkspaceConnectionAccess) -> (r: &'static str)
    ensures
        r == access_name(access),
{
    match access {
        WorkspaceConnectionAccess::View => "view",
        WorkspaceConnectionAccess::Read => "read",
        WorkspaceConnectionAccess::Write => "write",
        WorkspaceConnectionAccess::Manage => "manage",
        WorkspaceConnectionAccess::Local => "local",
    }
}

/// What a text stands for, among the texts for an access.
pub open spec fn access_named(text: Seq<char>) -> Option<WorkspaceConnectionAccess> {
    if text == "view"@ {
        Some(WorkspaceConnectionAccess::View)
    } else if text == "read"@ {
        Some(WorkspaceConnectionAccess::Read)
    } else if text == "write"@ {
        Some(WorkspaceConnectionAccess::Write)
    } else if text == "manage"@ {
        Some(WorkspaceConnectionAccess::Manage)
    } else if text == "local"@ {
        Some(WorkspaceConnectionAccess::Local)
    } else {
        None
    }
}

/// Reads an access.
pub fn parse_workspace_access(text: String) -> (r: AppResult<WorkspaceConnectionAccess>)
    ensures
        match access_named(text@) {
            Some(access) => r == Ok::<WorkspaceConnectionAccess, AppError>(access),
            None => r == Err::<WorkspaceConnectionAccess, AppError>(
                AppError::Config(Text::WithText("unknown workspace connection access '", text, "'")),
            ),
        },
{
    if same_text(text.as_str(), "view") {
        Ok(WorkspaceConnectionAccess::View)
    } else if same_text(text.as_str(), "read") {
        Ok(WorkspaceConnectionAccess::Read)
    } else if same_text(text.as_str(), "write") {
        Ok(WorkspaceConnectionAccess::Write)
    } else if same_text(text.as_str(), "manage") {
        Ok(WorkspaceConnectionAccess::Manage)
    } else if same_text(text.as_str(), "local") {
        Ok(WorkspaceConnectionAccess::Local)
    } else {
        Err(AppError::Config(Text::WithText("unknown workspace connection access '", text, "'")))
    }
}

/// What is written for an access is read back as the same.
pub proof fn access_name_is_read_back(access: WorkspaceConnectionAccess)
    ensures
        access_named(access_name(access)@) == Some(access),
{
    reveal_strlit("view");
    reveal_strlit("read");
    reveal_strlit("write");
    reveal_strlit("manage");
    reveal_strlit("local");
    assert("read"@[0] != "view"@[0]);
    assert("write"@.len() != "view"@.len());
    assert("write"@.len() != "read"@.len());
    assert("manage"@.len() != "view"@.len());
    assert("manage"@.len() != "read"@.len());
    assert("manage"@.len() != "write"@.len());
    assert("local"@.len() != "view"@.len());
    assert("local"@.len() != "read"@.len());
    assert("local"@[0] != "write"@[0]);
    assert("local"@.len() != "manage"@.len());
}

/// The text that stands for a workspace kind.
pub open spec fn workspace_kind_name(kind: WorkspaceKind) -> &'static str {
    match kind {
        WorkspaceKind::Personal => "personal",
        WorkspaceKind::Team => "team",
    }
}

/// The text that stands for a workspace kind.
pub fn workspace_kind_str(kind: WorkspaceKind) -> (r: &'static str)
    ensures
        r == workspace_kind_name(kind),
{
    match kind {
        WorkspaceKind::Personal => "personal",
        WorkspaceKind::Team => "team",
    }
}

/// What a text stands for, among the texts for a workspace kind.
pub open spec fn workspace_kind_named(text: Seq<char>) -> Option<WorkspaceKind> {
    if text == "personal"@ {
        Some(WorkspaceKind::Personal)
    } else if text == "team"@ {
        Some(WorkspaceKind::Team)
    } else {
        None
    }
}

/// Reads a workspace kind.
pub fn parse_workspace_kind(text: String) -> (r: AppResult<WorkspaceKind>)
    ensures
        match workspace_kind_named(text@) {
            Some(kind) => r == Ok::<WorkspaceKind, AppError>(kind),
            None => r == Err::<WorkspaceKind, AppError>(
                AppError::Config(Text::WithText("unknown workspace kind '", text, "'")),
            ),
        },
{
    if same_text(text.as_str(), "personal") {
        Ok(WorkspaceKind::Personal)
    } else if same_text(text.as_str(), "team") {
        Ok(WorkspaceKind::Team)
    } else {
        Err(AppError::Config(Text::WithText("unknown workspace kind '", text, "'")))
    }
}

/// What is written for a workspace kind is read back as the same.
pub proof fn workspace_kind_name_is_read_back(kind: WorkspaceKind)
    ensures
        workspace_kind_named(workspace_kind_name(kind)@) == Some(kind),
{
    reveal_strlit("personal");
    reveal_strlit("team");
    assert("team"@.len() != "personal"@.len());
}

/// The text that stands for a lifecycle state.
pub open spec fn lifecycle_name(state: WorkspaceLifecycleState) -> &'static str {
    match state {
        WorkspaceLifecycleState::Active => "active",
        WorkspaceLifecycleState::Archived => "archived",
        WorkspaceLifecycleState::Deleted => "deleted",
    }
}

/// The text that stands for a lifecycle state.
pub fn lifecycle_state_str(state: WorkspaceLifecycleState) -> (r: &'static str)
    ensures
        r == lifecycle_name(state),
{
    match state {
        WorkspaceLifecycleState::Active => "active",
        WorkspaceLifecycleState::Archived => "archived",
        WorkspaceLifecycleState::Deleted => "deleted",
    }
}

/// What a text stands for, among the texts for a lifecycle state.
pub open spec fn lifecycle_named(text: Seq<char>) -> Option<WorkspaceLifecycleState> {
    if text == "active"@ {
        Some(WorkspaceLifecycleState::Active)
    } else if text == "archived"@ {
        Some(WorkspaceLifecycleState::Archived)
    } else if text == "deleted"@ {
        Some(WorkspaceLifecycleState::Deleted)
    } else {
        None
    }
}

/// Reads a lifecycle state.
pub fn parse_lifecycle_state(text: String) -> (r: AppResult<WorkspaceLifecycleState>)
    ensures
        match lifecycle_named(text@) {
            Some(state) => r == Ok::<WorkspaceLifecycleState, AppError>(state),
            None => r == Err::<WorkspaceLifecycleState, AppError>(
                AppError::Config(Text::WithText("unknown workspace lifecycle state '", text, "'")),
            ),
        },
{
    if same_text(text.as_str(), "active") {
        Ok(WorkspaceLifecycleState::Active)
    } else if same_text(text.as_str(), "archived") {
        Ok(WorkspaceLifecycleState::Archived)
    } else if same_text(text.as_str(), "deleted") {
        Ok(WorkspaceLifecycleState::Deleted)
    } else {
        Err(AppError::Config(Text::WithText("unknown workspace lifecycle state '", text, "'")))
    }
}

/// What is written for a lifecycle state is read back as the same.
pub proof fn lifecycle_name_is_read_back(state: WorkspaceLifecycleState)
    ensures
        lifecycle_named(lifecycle_name(state)@) == Some(state),
{
    reveal_strlit("active");
    reveal_strlit("archived");
    reveal_strlit("deleted");
    assert("archived"@.len() != "active"@.len());
    assert("deleted"@.len() != "active"@.len());
    assert("deleted"@.len() != "archived"@.len());
}

/// The text that stands for a role.
pub open spec fn role_name(role: WorkspaceRole) -> &'static str {
    match role {
        WorkspaceRole::Viewer => "viewer",
        WorkspaceRole::Analyst => "analyst",
        WorkspaceRole::Editor => "editor",
        WorkspaceRole::Admin => "admin",
        WorkspaceRole::Owner => "owner",
    }
}

/// The text that stands for a role.
pub fn workspace_role_str(role: WorkspaceRole) -> (r: &'static str)
    ensures
        r == role_name(role),
{
    match role {
        WorkspaceRole::Viewer => "viewer",
        WorkspaceRole::Analyst => "analyst",
        WorkspaceRole::Editor => "editor",
        WorkspaceRole::Admin => "admin",
        WorkspaceRole::Owner => "owner",
    }
}

/// What a text stands for, among the texts for a role.
pub open spec fn role_named(text: Seq<char>) -> Option<WorkspaceRole> {
    if text == "viewer"@ {
        Some(WorkspaceRole::Viewer)
    } else if text == "analyst"@ {
        Some(WorkspaceRole::Analyst)
    } else if text == "editor"@ {
        Some(WorkspaceRole::Editor)
    } else if text == "admin"@ {
        Some(WorkspaceRole::Admin)
    } else if text == "owner"@ {
        Some(WorkspaceRole::Owner)
    } else {
        None
    }
}

/// Reads a role.
pub fn parse_workspace_role(text: String) -> (r: AppResult<WorkspaceRole>)
    ensures
        match role_named(text@) {
            Some(role) => r == Ok::<WorkspaceRole, AppError>(role),
            None => r == Err::<WorkspaceRole, AppError>(
                AppError::Config(Text::WithText("unknown workspace role '", text, "'")),
            ),
        },
{
    if same_text(text.as_str(), "viewer") {
        Ok(WorkspaceRole::Viewer)
    } else if same_text(text.as_str(), "analyst") {
        Ok(WorkspaceRole::Analyst)
    } else if same_text(text.as_str(), "editor") {
        Ok(WorkspaceRole::Editor)
    } else if same_text(text.as_str(), "admin") {
        Ok(WorkspaceRole::Admin)
    } else if same_text(text.as_str(), "owner") {
        Ok(WorkspaceRole::Owner)
    } else {
        Err(AppError::Config(Text::WithText("unknown workspace role '", text, "'")))
    }
}

/// What is written for a role is read back as the same.
pub proof fn role_name_is_read_back(role: WorkspaceRole)
    ensures
        role_named(role_name(role)@) == Some(role),
{
    reveal_strlit("viewer");
    reveal_strlit("analyst");
    reveal_strlit("editor");
    reveal_strlit("admin");
    reveal_strlit("owner");
    assert("analyst"@.len() != "viewer"@.len());
    assert("editor"@[0] != "viewer"@[0]);
    assert("editor"@.len() != "analyst"@.len());
    assert("admin"@.len() != "viewer"@.len());
    assert("admin"@.len() != "analyst"@.len());
    assert("admin"@.len() != "editor"@.len());
    assert("owner"@.len() != "viewer"@.len());
    assert("owner"@.len() != "analyst"@.len());
    assert("owner"@.len() != "editor"@.len());
    assert("owner"@[0] != "admin"@[0]);
}

/// The text that stands for a query kind.
pub open spec fn kind_name(kind: QueryKind) -> &'static str {
    match kind {
        QueryKind::Read => "read",
        QueryKind::Write => "write",
        QueryKind::Ddl => "ddl",
        QueryKind::Privilege => "privilege",
    }
}

/// The text that stands for a query kind.
pub fn kind_str(kind: QueryKind) -> (r: &'static str)
    ensures
        r == kind_name(kind),
{
    match kind {
        QueryKind::Read => "read",
        QueryKind::Write => "write",
        QueryKind::Ddl => "ddl",
        QueryKind::Privilege => "privilege",
    }
}

/// What a text stands for, among the texts for a query kind.
pub open spec fn kind_named(text: Seq<char>) -> Option<QueryKind> {
    if text == "read"@ {
        Some(QueryKind::Read)
    } else if text == "write"@ {
        Some(QueryKind::Write)
    } else if text == "ddl"@ {
        Some(QueryKind::Ddl)
    } else if text == "privilege"@ {
        Some(QueryKind::Privilege)
    } else {
        None
    }
}

/// Reads a query kind.
pub fn parse_kind(text: String) -> (r: AppResult<QueryKind>)
    ensures
        match kind_named(text@) {
            Some(kind) => r == Ok::<QueryKind, AppError>(kind),
            None => r == Err::<QueryKind, AppError>(
                AppError::Config(Text::WithText("unknown query kind '", text, "'")),
            ),
        },
{
    if same_text(text.as_str(), "read") {
        Ok(QueryKind::Read)
    } else if same_text(text.as_str(), "write") {
        Ok(QueryKind::Write)
    } else if same_text(text.as_str(), "ddl") {
        Ok(QueryKind::Ddl)
    } else if same_text(text.as_str(), "privilege") {
        Ok(QueryKind::Privilege)
    } else {
        Err(AppError::Config(Text::WithText("unknown query kind '", text, "'")))
    }
}

/// What is written for a query kind is read back as the same.
pub proof fn kind_name_is_read_back(kind: QueryKind)
    ensures
        kind_named(kind_name(kind)@) == Some(kind),
{
    reveal_strlit("read");
    reveal_strlit("write");
    reveal_strlit("ddl");
    reveal_strlit("privilege");
    assert("write"@.len() != "read"@.len());
    assert("ddl"@.len() != "read"@.len());
    assert("ddl"@.len() != "write"@.len());
    assert("privilege"@.len() != "read"@.len());
    assert("privilege"@.len() != "write"@.len());
    assert("privilege"@.len() != "ddl"@.len());
}

/// Reads an identifier.
pub fn parse_uuid(text: String) -> (r: AppResult<u128>)
    ensures
        match parsed_id(text@) {
            Ok(id) => r == Ok::<u128, AppError>(id),
            Err(reason) => r is Err && (r->Err_0 matches AppError::Config(
                Text::TwoTexts(before, echoed, between, said),
            ) && before == "bad uuid '" && echoed == text && between == "': " && said@ == reason),
        },
{
    match parse_id(text.as_str()) {
        Ok(id) => Ok(id),
        Err(reason) => Err(
            AppError::Config(Text::TwoTexts("bad uuid '", text, "': ", reason)),
        ),
    }
}

/// Reads an identifier that may be missing.
pub fn parse_uuid_opt(text: Option<String>) -> (r: AppResult<Option<u128>>)
    ensures
        match text {
            None => r == Ok::<Option<u128>, AppError>(None),
            Some(text) => match parsed_id(text@) {
                Ok(id) => r == Ok::<Option<u128>, AppError>(Some(id)),
                Err(reason) => r is Err && (r->Err_0 matches AppError::Config(
                    Text::TwoTexts(before, echoed, between, said),
                ) && before == "bad uuid '" && echoed == text && between == "': " && said@
                    == reason),
            },
        },
{
    match text {
        None => Ok(None),
        Some(text) => match parse_uuid(text) {
            Ok(id) => Ok(Some(id)),
            Err(error) => Err(error),
        },
    }
}

} // verus!
