//! Connections: who sees which, and how they are saved, grouped and deleted.
use vstd::prelude::*;

use crate::error::{AppError, AppResult};
use crate::model::{
    params_view, ConnectionProfile, Engine, Provider, SafetySettings, WorkspaceConnectionAccess,
    WorkspaceCredentialMode, WorkspaceKind,
};
use crate::store::directory::active_workspace_of;
use crate::store::memberships::binds;
use crate::store::order::{arrange, arranged, Ordered};
use crate::store::params::{is_canonical, load_params, params_json, stored_params, write_params};
use crate::store::tables::{
    Binding, ConnectionRow, OutboxEntry, OutboxOperation, ResourceKind, SafetyRow, Store,
    SyncStatus, Tables,
};
use crate::text::{comes_before, precedes, same_text, Text};

verus! {

/// What a profile says, with the texts that may come from different places taken by their
/// characters.
pub struct ProfileView {
    pub id: u128,
    pub name: String,
    pub engine: Engine,
    pub provider: Provider,
    pub driver_id: Option<String>,
    pub host: String,
    pub port: u16,
    pub database: String,
    pub username: Seq<char>,
    pub sslmode: String,
    pub extra_params: Seq<(Seq<char>, Seq<char>)>,
    pub readonly_default: bool,
    pub allow_writes: bool,
    pub secret_ref: Option<String>,
    pub env: Option<String>,
    pub schema_group: Option<String>,
    pub workspace_access: WorkspaceConnectionAccess,
    pub credential_mode: WorkspaceCredentialMode,
}

impl View for ConnectionProfile {
    type V = ProfileView;

    open spec fn view(&self) -> ProfileView {
        ProfileView {
            id: self.id,
            name: self.name,
            engine: self.engine,
            provider: self.provider,
            driver_id: self.driver_id,
            host: self.host,
            port: self.port,
            database: self.database,
            username: self.username@,
            sslmode: self.sslmode,
            extra_params: params_view(self.extra_params@),
            readonly_default: self.readonly_default,
            allow_writes: self.allow_writes,
            secret_ref: self.secret_ref,
            env: self.env,
            schema_group: self.schema_group,
            workspace_access: self.workspace_access,
            credential_mode: self.credential_mode,
        }
    }
}

/// The profile that a row stands for by itself.
pub open spec fn bare_profile(row: ConnectionRow) -> ProfileView {
    ProfileView {
        id: row.id,
        name: row.name,
        engine: row.engine,
        provider: row.provider,
        driver_id: row.driver_id,
        host: row.host,
        port: row.port,
        database: row.database,
        username: row.username@,
        sslmode: row.sslmode,
        extra_params: stored_params(row.extra_params@),
        readonly_default: row.readonly_default,
        allow_writes: row.allow_writes,
        secret_ref: row.secret_ref,
        env: row.env,
        schema_group: row.schema_group,
        workspace_access: row.workspace_access,
        credential_mode: row.credential_mode,
    }
}

/// Computes [`bare_profile`].
fn row_to_connection(row: &ConnectionRow) -> (r: ConnectionProfile)
    ensures
        r@ == bare_profile(*row),
{
    ConnectionProfile {
        id: row.id,
        name: row.name.clone(),
        engine: row.engine,
        provider: row.provider,
        driver_id: row.driver_id.clone(),
        host: row.host.clone(),
        port: row.port,
        database: row.database.clone(),
        username: row.username.render(),
        sslmode: row.sslmode.clone(),
        extra_params: load_params(row.extra_params.render().as_str()),
        readonly_default: row.readonly_default,
        allow_writes: row.allow_writes,
        secret_ref: row.secret_ref.clone(),
        env: row.env.clone(),
        schema_group: row.schema_group.clone(),
        workspace_access: row.workspace_access,
        credential_mode: row.credential_mode,
    }
}

/// The profile that an account sees. Of a shared connection, everything that is personal
/// comes from the account's own binding; without one there is nothing personal and the
/// connection may only be looked at.
pub open spec fn seen_profile(row: ConnectionRow, binding: Option<Binding>) -> ProfileView {
    let bare = bare_profile(row);
    if row.workspace_access == WorkspaceConnectionAccess::Local {
        bare
    } else {
        match binding {
            Some(own) => ProfileView {
                username: own.username@,
                extra_params: stored_params(own.extra_params@),
                secret_ref: own.secret_ref,
                workspace_access: own.workspace_access,
                allow_writes: own.allow_writes && own.workspace_access.spec_can_write(),
                ..bare
            },
            None => ProfileView {
                username: ""@,
                extra_params: Seq::empty(),
                secret_ref: None,
                workspace_access: WorkspaceConnectionAccess::View,
                allow_writes: false,
                ..bare
            },
        }
    }
}

/// Computes [`seen_profile`].
pub fn row_to_connection_with_binding(row: &ConnectionRow, binding: &Option<Binding>) -> (r:
    ConnectionProfile)
    ensures
        r@ == seen_profile(*row, *binding),
{
    let mut profile = row_to_connection(row);
    if profile.workspace_access != WorkspaceConnectionAccess::Local {
        match binding {
            Some(own) => {
                profile.username = own.username.render();
                profile.extra_params = load_params(own.extra_params.render().as_str());
                profile.secret_ref = own.secret_ref.clone();
                profile.workspace_access = own.workspace_access;
                profile.allow_writes = own.allow_writes && own.workspace_access.can_write();
            },
            None => {
                profile.username = "".to_owned();
                profile.extra_params = Vec::new();
                profile.secret_ref = None;
                profile.workspace_access = WorkspaceConnectionAccess::View;
                profile.allow_writes = false;
                assert(params_view(profile.extra_params@) =~= Seq::empty());
            },
        }
    }
    profile
}

/// What this account has of its own on this connection.
pub open spec fn binding_row(
    bindings: Seq<Binding>,
    connection_id: u128,
    user_id: Option<String>,
) -> Option<Binding>
    decreases bindings.len(),
{
    if bindings.len() == 0 || user_id is None {
        None
    } else if binds(bindings[0], connection_id, user_id->0@) {
        Some(bindings[0])
    } else {
        binding_row(bindings.drop_first(), connection_id, user_id)
    }
}

/// Computes [`binding_row`].
pub fn find_binding(bindings: &Vec<Binding>, connection_id: u128, user_id: &Option<String>) -> (r:
    Option<Binding>)
    ensures
        r == binding_row(bindings@, connection_id, *user_id),
{
    let user = match user_id {
        None => {
            return None;
        },
        Some(user) => user,
    };
    let mut i: usize = 0;
    assert(bindings@.subrange(0, bindings@.len() as int) =~= bindings@);
    while i < bindings.len()
        invariant
            i <= bindings@.len(),
            *user_id == Some(*user),
            binding_row(bindings@, connection_id, *user_id) == binding_row(
                bindings@.subrange(i as int, bindings@.len() as int),
                connection_id,
                *user_id,
            ),
        decreases bindings@.len() - i,
    {
        assert(bindings@.subrange(i as int, bindings@.len() as int).drop_first()
            =~= bindings@.subrange(i + 1, bindings@.len() as int));
        if bindings[i].connection_id == connection_id && same_text(
            bindings[i].account_user_id.as_str(),
            user.as_str(),
        ) {
            return Some(bindings[i].duplicate());
        }
        i = i + 1;
    }
    None
}

/// The place of the row with this id.
pub open spec fn row_place(connections: Seq<ConnectionRow>, id: u128) -> Option<int>
    decreases connections.len(),
{
    if connections.len() == 0 {
        None
    } else if connections[0].id == id {
        Some(0)
    } else {
        match row_place(connections.drop_first(), id) {
            Some(i) => Some(i + 1),
            None => None,
        }
    }
}

/// The row with this id.
pub open spec fn row_of(connections: Seq<ConnectionRow>, id: u128) -> Option<ConnectionRow> {
    match row_place(connections, id) {
        Some(i) => Some(connections[i]),
        None => None,
    }
}

/// A row that is found has the id and is the first that has it.
pub proof fn row_place_is_first(connections: Seq<ConnectionRow>, id: u128)
    ensures
        match row_place(connections, id) {
            Some(i) => {
                &&& 0 <= i < connections.len()
                &&& connections[i].id == id
                &&& forall|j: int| 0 <= j < i ==> (#[trigger] connections[j]).id != id
            },
            None => forall|j: int|
                0 <= j < connections.len() ==> (#[trigger] connections[j]).id != id,
        },
    decreases connections.len(),
{
    if connections.len() > 0 && connections[0].id != id {
        let rest = connections.drop_first();
        row_place_is_first(rest, id);
        match row_place(rest, id) {
            Some(i) => {
                assert forall|j: int| 0 <= j < i + 1 implies (#[trigger] connections[j]).id
                    != id by {
                    if j > 0 {
                        assert(connections[j] == rest[j - 1]);
                    }
                }
            },
            None => {
                assert forall|j: int| 0 <= j < connections.len() implies (
                #[trigger] connections[j]).id != id by {
                    if j > 0 {
                        assert(connections[j] == rest[j - 1]);
                    }
                }
            },
        }
    }
}

proof fn row_place_is(connections: Seq<ConnectionRow>, id: u128, at: int)
    requires
        0 <= at < connections.len(),
        connections[at].id == id,
        forall|j: int| 0 <= j < at ==> (#[trigger] connections[j]).id != id,
    ensures
        row_place(connections, id) == Some(at),
{
    row_place_is_first(connections, id);
    match row_place(connections, id) {
        Some(i) => {
            if i < at {
                assert(connections[i].id != id);
            }
            if at < i {
                assert(connections[at].id != id);
            }
        },
        None => {
            assert(connections[at].id != id);
        },
    }
}

/// Computes [`row_place`].
pub fn find_row(connections: &Vec<ConnectionRow>, id: u128) -> (r: Option<usize>)
    ensures
        match r {
            Some(i) => row_place(connections@, id) == Some(i as int) && i < connections@.len(),
            None => row_place(connections@, id) is None,
        },
{
    let mut i: usize = 0;
    while i < connections.len()
        invariant
            i <= connections@.len(),
            forall|j: int| 0 <= j < i ==> (#[trigger] connections@[j]).id != id,
        decreases connections@.len() - i,
    {
        if connections[i].id == id {
            proof {
                row_place_is(connections@, id, i as int);
            }
            return Some(i);
        }
        i = i + 1;
    }
    proof {
        row_place_is_first(connections@, id);
    }
    None
}

/// The active workspace and account, where connections can be listed: a team needs an
/// account.
pub open spec fn viewer(tables: Tables) -> Result<(u128, WorkspaceKind), AppError> {
    match active_workspace_of(tables) {
        Err(error) => Err(error),
        Ok(workspace) => if workspace.kind == WorkspaceKind::Team && tables.active_account is None {
            Err(
                AppError::Config(
                    Text::Plain("a team workspace has no active authenticated account"),
                ),
            )
        } else {
            Ok((workspace.id, workspace.kind))
        },
    }
}

/// Whether two optional texts are there and the same.
pub open spec fn same_owner(a: Option<String>, b: Option<String>) -> bool {
    a is Some && b is Some && a->0@ == b->0@
}

fn is_same_owner(a: &Option<String>, b: &Option<String>) -> (r: bool)
    ensures
        r == same_owner(*a, *b),
{
    match (a, b) {
        (Some(a), Some(b)) => same_text(a.as_str(), b.as_str()),
        _ => false,
    }
}

/// Whether a row is shown in a workspace to an account: in a team, shared connections and
/// one's own.
pub open spec fn is_shown(
    row: ConnectionRow,
    workspace_id: u128,
    kind: WorkspaceKind,
    account: Option<String>,
) -> bool {
    &&& row.workspace_id == workspace_id
    &&& row.deleted_at is None
    &&& kind == WorkspaceKind::Personal || row.remote_id is Some || same_owner(
        row.account_user_id,
        account,
    )
}

fn shows(row: &ConnectionRow, workspace_id: u128, kind: WorkspaceKind, account: &Option<String>) -> (r:
    bool)
    ensures
        r == is_shown(*row, workspace_id, kind, *account),
{
    row.workspace_id == workspace_id && row.deleted_at.is_none() && (kind
        == WorkspaceKind::Personal || row.remote_id.is_some() || is_same_owner(
        &row.account_user_id,
        account,
    ))
}

impl Ordered for ConnectionRow {
    /// By name.
    open spec fn goes_before(self, earlier: ConnectionRow) -> bool {
        precedes(self.name@, earlier.name@)
    }

    fn is_before(&self, earlier: &ConnectionRow) -> bool {
        comes_before(self.name.as_str(), earlier.name.as_str())
    }
}

/// The rows that are shown.
pub open spec fn shown_rows(
    connections: Seq<ConnectionRow>,
    workspace_id: u128,
    kind: WorkspaceKind,
    account: Option<String>,
) -> Seq<ConnectionRow>
    decreases connections.len(),
{
    if connections.len() == 0 {
        Seq::empty()
    } else {
        let earlier = shown_rows(connections.drop_last(), workspace_id, kind, account);
        if is_shown(connections.last(), workspace_id, kind, account) {
            earlier.push(connections.last())
        } else {
            earlier
        }
    }
}

/// What is listed of the connections.
pub open spec fn listing(tables: Tables) -> Result<Seq<ProfileView>, AppError> {
    match viewer(tables) {
        Err(error) => Err(error),
        Ok((workspace_id, kind)) => {
            let rows = arranged(
                shown_rows(tables.connections, workspace_id, kind, tables.active_account),
            );
            Ok(
                Seq::new(
                    rows.len(),
                    |i: int|
                        seen_profile(
                            rows[i],
                            binding_row(tables.bindings, rows[i].id, tables.active_account),
                        ),
                ),
            )
        },
    }
}

/// The texts of a list of profiles.
pub open spec fn profile_views(profiles: Seq<ConnectionProfile>) -> Seq<ProfileView> {
    Seq::new(profiles.len(), |i: int| profiles[i]@)
}

/// Nothing is found under this id.
pub open spec fn no_connection(id: u128) -> AppError {
    AppError::NotFound(Text::WithId("connection ", id, ""))
}

/// Makes [`no_connection`].
pub fn say_no_connection(id: u128) -> (r: AppError)
    ensures
        r == no_connection(id),
{
    AppError::NotFound(Text::WithId("connection ", id, ""))
}

/// The row that is found under an id, by whom it is shown to.
pub open spec fn visible_row(tables: Tables, id: u128) -> Result<ConnectionRow, AppError> {
    match viewer(tables) {
        Err(error) => Err(error),
        Ok((workspace_id, kind)) => match row_of(tables.connections, id) {
            Some(row) => if is_shown(row, workspace_id, kind, tables.active_account) {
                Ok(row)
            } else {
                Err(no_connection(id))
            },
            None => Err(no_connection(id)),
        },
    }
}

/// The profile that is found under an id.
pub open spec fn lookup(tables: Tables, id: u128) -> Result<ProfileView, AppError> {
    match visible_row(tables, id) {
        Ok(row) => Ok(
            seen_profile(row, binding_row(tables.bindings, row.id, tables.active_account)),
        ),
        Err(error) => Err(error),
    }
}

/// Why the active workspace may not write a connection, if it may not: the id is taken by
/// another workspace, another account, or a shared connection.
pub open spec fn write_refusal(tables: Tables, id: u128) -> Option<AppError> {
    match active_workspace_of(tables) {
        Err(error) => Some(error),
        Ok(workspace) => match row_of(tables.connections, id) {
            None => None,
            Some(row) => if row.workspace_id != workspace.id || (workspace.kind
                == WorkspaceKind::Team && text_of_id(row.account_user_id) != text_of_id(
                tables.active_account,
            )) || row.remote_id is Some {
                Some(no_connection(id))
            } else {
                None
            },
        },
    }
}

/// The text of an id that may be missing.
pub open spec fn text_of_id(id: Option<String>) -> Option<Seq<char>> {
    match id {
        Some(id) => Some(id@),
        None => None,
    }
}

fn is_same_id(a: &Option<String>, b: &Option<String>) -> (r: bool)
    ensures
        r == (text_of_id(*a) == text_of_id(*b)),
{
    match (a, b) {
        (Some(a), Some(b)) => same_text(a.as_str(), b.as_str()),
        (None, None) => true,
        _ => false,
    }
}

/// Why a profile cannot be saved, if it cannot.
pub open spec fn save_refusal(tables: Tables, profile: ConnectionProfile) -> Option<AppError> {
    if profile.workspace_access != WorkspaceConnectionAccess::Local {
        Some(
            AppError::Config(
                Text::Plain("shared connection templates cannot be edited as local connections"),
            ),
        )
    } else if profile.credential_mode != WorkspaceCredentialMode::Local {
        Some(AppError::Config(Text::Plain("local connections must use local credential mode")))
    } else {
        match active_workspace_of(tables) {
            Err(error) => Some(error),
            Ok(workspace) => if workspace.kind == WorkspaceKind::Team && tables.active_account is None {
                Some(
                    AppError::Config(
                        Text::Plain("team-local connections require an active account"),
                    ),
                )
            } else {
                write_refusal(tables, profile.id)
            },
        }
    }
}

/// The row of a profile that is saved: what the profile says over what `base` holds.
pub open spec fn saved_row(
    base: ConnectionRow,
    profile: ConnectionProfile,
    extra_params: String,
    revision: i64,
    now: i128,
) -> ConnectionRow {
    ConnectionRow {
        name: profile.name,
        engine: profile.engine,
        provider: profile.provider,
        driver_id: profile.driver_id,
        host: profile.host,
        port: profile.port,
        database: profile.database,
        username: Text::Owned(profile.username),
        sslmode: profile.sslmode,
        extra_params: Text::Owned(extra_params),
        secret_ref: profile.secret_ref,
        readonly_default: profile.readonly_default,
        allow_writes: profile.allow_writes,
        env: profile.env,
        schema_group: profile.schema_group,
        revision,
        sync_status: SyncStatus::Dirty,
        workspace_access: profile.workspace_access,
        credential_mode: profile.credential_mode,
        deleted_at: None,
        updated_at: now,
        ..base
    }
}

/// The row of a profile that is saved for the first time.
pub open spec fn first_row(
    profile: ConnectionProfile,
    extra_params: String,
    workspace_id: u128,
    account_user_id: Option<String>,
    now: i128,
) -> ConnectionRow {
    ConnectionRow {
        id: profile.id,
        name: profile.name,
        engine: profile.engine,
        provider: profile.provider,
        driver_id: profile.driver_id,
        host: profile.host,
        port: profile.port,
        database: profile.database,
        username: Text::Owned(profile.username),
        sslmode: profile.sslmode,
        extra_params: Text::Owned(extra_params),
        secret_ref: profile.secret_ref,
        readonly_default: profile.readonly_default,
        allow_writes: profile.allow_writes,
        env: profile.env,
        schema_group: profile.schema_group,
        workspace_id,
        account_user_id,
        remote_id: None,
        revision: 1,
        sync_status: SyncStatus::Dirty,
        workspace_access: profile.workspace_access,
        credential_mode: profile.credential_mode,
        deleted_at: None,
        created_at: now,
        updated_at: now,
    }
}

/// The settings of a connection that has none of its own.
pub open spec fn default_safety() -> SafetySettings {
    SafetySettings {
        require_approval: true,
        allow_writes: false,
        wrap_writes_in_tx: true,
        explain_preview: true,
        auto_run_reads: true,
        max_rows: 1000,
        exec_preview_row_limit: 50_000,
    }
}

/// The settings of this connection, if it has its own.
pub open spec fn safety_of(safety: Seq<SafetyRow>, id: u128) -> Option<SafetySettings>
    decreases safety.len(),
{
    if safety.len() == 0 {
        None
    } else if safety[0].connection_id == id {
        Some(safety[0].settings)
    } else {
        safety_of(safety.drop_first(), id)
    }
}

/// Computes [`safety_of`].
pub fn find_safety(safety: &Vec<SafetyRow>, id: u128) -> (r: Option<SafetySettings>)
    ensures
        r == safety_of(safety@, id),
{
    let mut i: usize = 0;
    assert(safety@.subrange(0, safety@.len() as int) =~= safety@);
    while i < safety.len()
        invariant
            i <= safety@.len(),
            safety_of(safety@, id) == safety_of(
                safety@.subrange(i as int, safety@.len() as int),
                id,
            ),
        decreases safety@.len() - i,
    {
        assert(safety@.subrange(i as int, safety@.len() as int).drop_first() =~= safety@.subrange(
            i + 1,
            safety@.len() as int,
        ));
        if safety[i].connection_id == id {
            return Some(safety[i].settings);
        }
        i = i + 1;
    }
    None
}

/// The settings after it was made sure that this connection has its own.
pub open spec fn with_safety(safety: Seq<SafetyRow>, id: u128) -> Seq<SafetyRow> {
    if safety_of(safety, id) is Some {
        safety
    } else {
        safety.push(SafetyRow { connection_id: id, settings: default_safety() })
    }
}

/// Computes [`with_safety`].
pub fn ensure_safety(safety: &mut Vec<SafetyRow>, id: u128)
    ensures
        final(safety)@ == with_safety(old(safety)@, id),
{
    if find_safety(safety, id).is_none() {
        safety.push(SafetyRow { connection_id: id, settings: SafetySettings::default() });
    }
}

/// A change of a connection for the server to hear of.
pub open spec fn connection_change(
    outbox_id: u128,
    workspace_id: u128,
    id: u128,
    operation: OutboxOperation,
    revision: i64,
    now: i128,
) -> OutboxEntry {
    OutboxEntry {
        id: outbox_id,
        workspace_id,
        resource: ResourceKind::Connection,
        resource_id: id,
        operation,
        revision,
        created_at: now,
    }
}

/// The tables after a profile was saved.
pub open spec fn saved(
    tables: Tables,
    profile: ConnectionProfile,
    extra_params: String,
    outbox_id: u128,
    now: i128,
) -> Tables {
    let workspace = active_workspace_of(tables)->Ok_0;
    let owner = if workspace.kind == WorkspaceKind::Team {
        tables.active_account
    } else {
        None
    };
    let revision = match row_of(tables.connections, profile.id) {
        Some(row) => (row.revision + 1) as i64,
        None => 1,
    };
    Tables {
        connections: match row_place(tables.connections, profile.id) {
            Some(at) => tables.connections.update(
                at,
                saved_row(tables.connections[at], profile, extra_params, revision, now),
            ),
            None => tables.connections.push(
                first_row(profile, extra_params, workspace.id, owner, now),
            ),
        },
        safety: with_safety(tables.safety, profile.id),
        outbox: tables.outbox.push(
            connection_change(
                outbox_id,
                workspace.id,
                profile.id,
                OutboxOperation::Upsert,
                revision,
                now,
            ),
        ),
        ..tables
    }
}

/// Whether the revision of this connection, if there is one, can be counted up so often.
pub open spec fn can_grow_by(connections: Seq<ConnectionRow>, id: u128, times: nat) -> bool {
    row_of(connections, id) matches Some(row) ==> row.revision + times <= i64::MAX
}

/// A row after it was put in a group.
pub open spec fn grouped_row(
    row: ConnectionRow,
    group: Option<String>,
    now: i128,
) -> ConnectionRow {
    ConnectionRow {
        schema_group: group,
        updated_at: now,
        revision: (row.revision + 1) as i64,
        sync_status: SyncStatus::Dirty,
        ..row
    }
}

/// A row after it was deleted: it stays, for the server to hear of.
pub open spec fn deleted_row(row: ConnectionRow, now: i128) -> ConnectionRow {
    ConnectionRow {
        deleted_at: Some(now),
        updated_at: now,
        revision: (row.revision + 1) as i64,
        sync_status: SyncStatus::Dirty,
        ..row
    }
}

/// The tables after a row was replaced by its next revision, and the server is to hear of
/// it.
pub open spec fn revised(
    tables: Tables,
    id: u128,
    row: ConnectionRow,
    operation: OutboxOperation,
    outbox_id: u128,
    now: i128,
) -> Tables {
    Tables {
        connections: tables.connections.update(row_place(tables.connections, id)->0, row),
        outbox: tables.outbox.push(
            connection_change(
                outbox_id,
                active_workspace_of(tables)->Ok_0.id,
                id,
                operation,
                row.revision,
                now,
            ),
        ),
        ..tables
    }
}

/// The first of the connections that is not found.
pub open spec fn first_missing(tables: Tables, ids: Seq<u128>) -> Option<AppError>
    decreases ids.len(),
{
    if ids.len() == 0 {
        None
    } else {
        match visible_row(tables, ids[0]) {
            Err(error) => Some(error),
            Ok(_) => first_missing(tables, ids.drop_first()),
        }
    }
}

/// The tables after these connections were put in a group, in order.
pub open spec fn all_grouped(
    tables: Tables,
    ids: Seq<u128>,
    group: Option<String>,
    outbox_ids: Seq<u128>,
    now: i128,
) -> Tables
    decreases ids.len(),
{
    if ids.len() == 0 {
        tables
    } else {
        let earlier = all_grouped(tables, ids.drop_last(), group, outbox_ids, now);
        let row = row_of(earlier.connections, ids.last())->0;
        revised(
            earlier,
            ids.last(),
            grouped_row(row, group, now),
            OutboxOperation::Upsert,
            outbox_ids[ids.len() - 1],
            now,
        )
    }
}

impl Store {
    /// Makes sure that the active workspace may write a connection with this id: that it is
    /// new, or the workspace's own.
    pub fn ensure_connection_write_scope(&self, id: u128) -> (r: AppResult<()>)
        ensures
            match write_refusal(self@, id) {
                Some(error) => r == Err::<(), AppError>(error),
                None => r is Ok,
            },
    {
        let workspace = match self.active_workspace() {
            Err(error) => {
                return Err(error);
            },
            Ok(workspace) => workspace,
        };
        match find_row(&self.connections, id) {
            None => Ok(()),
            Some(at) => {
                let row = &self.connections[at];
                let mismatch = workspace.kind == WorkspaceKind::Team && !is_same_id(
                    &row.account_user_id,
                    &self.active_account,
                );
                if row.workspace_id != workspace.id || mismatch || row.remote_id.is_some() {
                    Err(say_no_connection(id))
                } else {
                    Ok(())
                }
            },
        }
    }

    fn viewer(&self) -> (r: AppResult<(u128, WorkspaceKind)>)
        ensures
            r == viewer(self@),
    {
        match self.active_workspace() {
            Err(error) => Err(error),
            Ok(workspace) => {
                if workspace.kind == WorkspaceKind::Team && self.active_account.is_none() {
                    Err(
                        AppError::Config(
                            Text::Plain("a team workspace has no active authenticated account"),
                        ),
                    )
                } else {
                    Ok((workspace.id, workspace.kind))
                }
            },
        }
    }

    /// The connections of the active workspace, by name, as the active account sees them.
    pub fn list_connections(&self) -> (r: AppResult<Vec<ConnectionProfile>>)
        ensures
            match listing(self@) {
                Ok(listed) => r is Ok && profile_views(r->Ok_0@) == listed,
                Err(error) => r == Err::<Vec<ConnectionProfile>, AppError>(error),
            },
    {
        let (workspace_id, kind) = match self.viewer() {
            Err(error) => {
                return Err(error);
            },
            Ok(found) => found,
        };
        let mut rows: Vec<ConnectionRow> = Vec::new();
        let mut i: usize = 0;
        while i < self.connections.len()
            invariant
                i <= self.connections@.len(),
                rows@ == shown_rows(
                    self.connections@.subrange(0, i as int),
                    workspace_id,
                    kind,
                    self.active_account,
                ),
            decreases self.connections@.len() - i,
        {
            assert(self.connections@.subrange(0, i + 1).drop_last() =~= self.connections@.subrange(
                0,
                i as int,
            ));
            if shows(&self.connections[i], workspace_id, kind, &self.active_account) {
                rows.push(self.connections[i].duplicate());
            }
            i = i + 1;
        }
        assert(self.connections@.subrange(0, self.connections@.len() as int) =~= self.connections@);
        let rows = arrange(rows);
        let mut profiles: Vec<ConnectionProfile> = Vec::new();
        let mut i: usize = 0;
        while i < rows.len()
            invariant
                i <= rows@.len(),
                profile_views(profiles@) == Seq::new(
                    i as nat,
                    |k: int|
                        seen_profile(
                            rows@[k],
                            binding_row(self.bindings@, rows@[k].id, self.active_account),
                        ),
                ),
            decreases rows@.len() - i,
        {
            let binding = find_binding(&self.bindings, rows[i].id, &self.active_account);
            let profile = row_to_connection_with_binding(&rows[i], &binding);
            let ghost before = profiles@;
            profiles.push(profile);
            i = i + 1;
            assert(profile_views(profiles@) =~= profile_views(before).push(profile@));
            assert(profile_views(profiles@) =~= Seq::new(
                i as nat,
                |k: int|
                    seen_profile(
                        rows@[k],
                        binding_row(self.bindings@, rows@[k].id, self.active_account),
                    ),
            ));
        }
        Ok(profiles)
    }

    fn visible_place(&self, id: u128) -> (r: AppResult<usize>)
        ensures
            match visible_row(self@, id) {
                Ok(row) => {
                    &&& r is Ok
                    &&& r->Ok_0 < self.connections@.len()
                    &&& row_place(self.connections@, id) == Some(r->Ok_0 as int)
                    &&& self.connections@[r->Ok_0 as int] == row
                },
                Err(error) => r == Err::<usize, AppError>(error),
            },
    {
        let (workspace_id, kind) = match self.viewer() {
            Err(error) => {
                return Err(error);
            },
            Ok(found) => found,
        };
        match find_row(&self.connections, id) {
            None => Err(say_no_connection(id)),
            Some(at) => {
                if shows(&self.connections[at], workspace_id, kind, &self.active_account) {
                    Ok(at)
                } else {
                    Err(say_no_connection(id))
                }
            },
        }
    }

    /// A connection of the active workspace, as the active account sees it.
    pub fn get_connection(&self, id: u128) -> (r: AppResult<ConnectionProfile>)
        ensures
            match lookup(self@, id) {
                Ok(seen) => r is Ok && r->Ok_0@ == seen,
                Err(error) => r == Err::<ConnectionProfile, AppError>(error),
            },
    {
        match self.visible_place(id) {
            Err(error) => Err(error),
            Ok(at) => {
                let row = &self.connections[at];
                let binding = find_binding(&self.bindings, row.id, &self.active_account);
                Ok(row_to_connection_with_binding(row, &binding))
            },
        }
    }

    /// Makes sure that a connection is one of the active workspace.
    pub fn ensure_connection(&self, id: u128) -> (r: AppResult<()>)
        ensures
            match visible_row(self@, id) {
                Ok(_) => r is Ok,
                Err(error) => r == Err::<(), AppError>(error),
            },
    {
        match self.visible_place(id) {
            Err(error) => Err(error),
            Ok(_) => Ok(()),
        }
    }

    /// Saves a connection of the active workspace. The parameters are stored as
    /// `serde_json` writes them.
    pub fn upsert_connection(&mut self, profile: &ConnectionProfile, outbox_id: u128, now: i128) -> (r:
        AppResult<ConnectionProfile>)
        requires
            can_grow_by(old(self)@.connections, profile.id, 1),
        ensures
            match save_refusal(old(self)@, *profile) {
                Some(error) => r == Err::<ConnectionProfile, AppError>(error) && final(self)@
                    == old(self)@,
                None => {
                    &&& r is Ok && r->Ok_0.same(*profile)
                    &&& exists|extra_params: String|
                        extra_params@ == params_json(params_view(profile.extra_params@))
                            && final(self)@ == #[trigger] saved(
                            old(self)@,
                            *profile,
                            extra_params,
                            outbox_id,
                            now,
                        ) && (is_canonical(
                            params_view(profile.extra_params@),
                        ) ==> stored_params(extra_params@) == params_view(profile.extra_params@))
                },
            },
    {
        if profile.workspace_access != WorkspaceConnectionAccess::Local {
            return Err(
                AppError::Config(
                    Text::Plain(
                        "shared connection templates cannot be edited as local connections",
                    ),
                ),
            );
        }
        if profile.credential_mode != WorkspaceCredentialMode::Local {
            return Err(
                AppError::Config(Text::Plain("local connections must use local credential mode")),
            );
        }
        let extra_params = write_params(&profile.extra_params);
        let workspace = match self.active_workspace() {
            Err(error) => {
                return Err(error);
            },
            Ok(workspace) => workspace,
        };
        let owner = if workspace.kind == WorkspaceKind::Team {
            match &self.active_account {
                None => {
                    return Err(
                        AppError::Config(
                            Text::Plain("team-local connections require an active account"),
                        ),
                    );
                },
                Some(id) => Some(id.clone()),
            }
        } else {
            None
        };
        match self.ensure_connection_write_scope(profile.id) {
            Err(error) => {
                return Err(error);
            },
            Ok(_) => {},
        }
        let ghost stored = extra_params;
        let mut revision: i64 = 1;
        match find_row(&self.connections, profile.id) {
            Some(at) => {
                revision = self.connections[at].revision + 1;
                let row = revise_row(&self.connections[at], profile, extra_params, revision, now);
                self.connections.set(at, row);
            },
            None => {
                let row = new_row(profile, extra_params, workspace.id, owner, now);
                self.connections.push(row);
            },
        }
        ensure_safety(&mut self.safety, profile.id);
        self.outbox.push(
            OutboxEntry {
                id: outbox_id,
                workspace_id: workspace.id,
                resource: ResourceKind::Connection,
                resource_id: profile.id,
                operation: OutboxOperation::Upsert,
                revision,
                created_at: now,
            },
        );
        assert(self@ == saved(old(self)@, *profile, stored, outbox_id, now));
        Ok(profile.duplicate())
    }

    fn revise(
        &mut self,
        at: usize,
        id: u128,
        row: ConnectionRow,
        operation: OutboxOperation,
        outbox_id: u128,
        now: i128,
    ) -> (r: AppResult<()>)
        requires
            row_place(old(self)@.connections, id) == Some(at as int),
            at < old(self)@.connections.len(),
            active_workspace_of(old(self)@) is Ok,
        ensures
            r is Ok,
            final(self)@ == revised(old(self)@, id, row, operation, outbox_id, now),
    {
        let workspace_id = match self.active_workspace_id() {
            Err(error) => {
                return Err(error);
            },
            Ok(workspace_id) => workspace_id,
        };
        let revision: i64 = row.revision;
        self.connections.set(at, row);
        self.outbox.push(
            OutboxEntry {
                id: outbox_id,
                workspace_id,
                resource: ResourceKind::Connection,
                resource_id: id,
                operation,
                revision,
                created_at: now,
            },
        );
        Ok(())
    }

    /// Puts a connection in a group.
    pub fn set_connection_schema_group(
        &mut self,
        id: u128,
        schema_group: Option<String>,
        outbox_id: u128,
        now: i128,
    ) -> (r: AppResult<ConnectionProfile>)
        requires
            can_grow_by(old(self)@.connections, id, 1),
        ensures
            match visible_row(old(self)@, id) {
                Err(error) => r == Err::<ConnectionProfile, AppError>(error) && final(self)@
                    == old(self)@,
                Ok(row) => {
                    &&& final(self)@ == revised(
                        old(self)@,
                        id,
                        grouped_row(row, schema_group, now),
                        OutboxOperation::Upsert,
                        outbox_id,
                        now,
                    )
                    &&& r is Ok
                    &&& r->Ok_0@ == ProfileView {
                        schema_group,
                        ..lookup(old(self)@, id)->Ok_0
                    }
                },
            },
    {
        let at = match self.visible_place(id) {
            Err(error) => {
                return Err(error);
            },
            Ok(at) => at,
        };
        let mut row = self.connections[at].duplicate();
        row.schema_group = schema_group;
        row.updated_at = now;
        row.revision = row.revision + 1;
        row.sync_status = SyncStatus::Dirty;
        let ghost before = self@;
        match self.revise(at, id, row, OutboxOperation::Upsert, outbox_id, now) {
            Err(error) => {
                return Err(error);
            },
            Ok(_) => {},
        }
        proof {
            row_place_is_first(before.connections, id);
            replacing_keeps_places(before.connections, id, at as int, row, id);
        }
        self.get_connection(id)
    }

    /// Puts connections in a group, all of them or none.
    pub fn set_connections_schema_group(
        &mut self,
        ids: &Vec<u128>,
        schema_group: Option<String>,
        outbox_ids: &Vec<u128>,
        now: i128,
    ) -> (r: AppResult<()>)
        requires
            outbox_ids@.len() == ids@.len(),
            forall|i: int|
                0 <= i < ids@.len() ==> can_grow_by(
                    old(self)@.connections,
                    #[trigger] ids@[i],
                    ids@.len(),
                ),
        ensures
            match first_missing(old(self)@, ids@) {
                Some(error) => r == Err::<(), AppError>(error) && final(self)@ == old(self)@,
                None => r is Ok && final(self)@ == all_grouped(
                    old(self)@,
                    ids@,
                    schema_group,
                    outbox_ids@,
                    now,
                ),
            },
    {
        let ghost before = self@;
        let mut i: usize = 0;
        assert(ids@.subrange(0, ids@.len() as int) =~= ids@);
        while i < ids.len()
            invariant
                i <= ids@.len(),
                before == old(self)@,
                self@ == before,
                first_missing(before, ids@) == first_missing(
                    before,
                    ids@.subrange(i as int, ids@.len() as int),
                ),
                forall|j: int| 0 <= j < i ==> visible_row(before, #[trigger] ids@[j]) is Ok,
            decreases ids@.len() - i,
        {
            assert(ids@.subrange(i as int, ids@.len() as int).drop_first() =~= ids@.subrange(
                i + 1,
                ids@.len() as int,
            ));
            match self.visible_place(ids[i]) {
                Err(error) => {
                    return Err(error);
                },
                Ok(_) => {},
            }
            i = i + 1;
        }
        assert(ids@.subrange(ids@.len() as int, ids@.len() as int) =~= Seq::empty());
        let mut i: usize = 0;
        proof {
            all_grouped_so_far(before, ids@, schema_group, outbox_ids@, now, 0);
        }
        while i < ids.len()
            invariant
                i <= ids@.len(),
                outbox_ids@.len() == ids@.len(),
                before == old(self)@,
                first_missing(before, ids@) is None,
                forall|j: int|
                    0 <= j < ids@.len() ==> can_grow_by(
                        before.connections,
                        #[trigger] ids@[j],
                        ids@.len(),
                    ),
                forall|j: int| 0 <= j < ids@.len() ==> visible_row(before, #[trigger] ids@[j]) is Ok,
                self@ == all_grouped(
                    before,
                    ids@.subrange(0, i as int),
                    schema_group,
                    outbox_ids@,
                    now,
                ),
            decreases ids@.len() - i,
        {
            let id: u128 = ids[i];
            proof {
                assert(id == ids@[i as int]);
                all_grouped_so_far(before, ids@, schema_group, outbox_ids@, now, i as int);
                assert(ids@.subrange(0, i + 1).drop_last() =~= ids@.subrange(0, i as int));
                row_place_is_first(before.connections, id);
                places_agree(before.connections, self@.connections, id);
            }
            match find_row(&self.connections, id) {
                None => {
                    return Err(say_no_connection(id));
                },
                Some(at) => {
                    let mut row = self.connections[at].duplicate();
                    assert(before.connections[at as int].revision + ids@.len() <= i64::MAX);
                    row.schema_group = schema_group.clone();
                    row.updated_at = now;
                    row.revision = row.revision + 1;
                    row.sync_status = SyncStatus::Dirty;
                    match self.revise(at, id, row, OutboxOperation::Upsert, outbox_ids[i], now) {
                        Err(error) => {
                            return Err(error);
                        },
                        Ok(_) => {},
                    }
                },
            }
            i = i + 1;
        }
        assert(ids@.subrange(0, ids@.len() as int) =~= ids@);
        Ok(())
    }

    /// Deletes a connection. Its row stays, for the server to hear of.
    pub fn delete_connection(&mut self, id: u128, outbox_id: u128, now: i128) -> (r: AppResult<()>)
        requires
            can_grow_by(old(self)@.connections, id, 1),
        ensures
            match visible_row(old(self)@, id) {
                Err(error) => r == Err::<(), AppError>(error) && final(self)@ == old(self)@,
                Ok(row) => r is Ok && final(self)@ == revised(
                    old(self)@,
                    id,
                    deleted_row(row, now),
                    OutboxOperation::Delete,
                    outbox_id,
                    now,
                ),
            },
    {
        let at = match self.visible_place(id) {
            Err(error) => {
                return Err(error);
            },
            Ok(at) => at,
        };
        let mut row = self.connections[at].duplicate();
        row.deleted_at = Some(now);
        row.updated_at = now;
        row.revision = row.revision + 1;
        row.sync_status = SyncStatus::Dirty;
        self.revise(at, id, row, OutboxOperation::Delete, outbox_id, now)
    }
}

/// Computes [`saved_row`].
fn revise_row(
    base: &ConnectionRow,
    profile: &ConnectionProfile,
    extra_params: String,
    revision: i64,
    now: i128,
) -> (r: ConnectionRow)
    ensures
        r == saved_row(*base, *profile, extra_params, revision, now),
{
    ConnectionRow {
        id: base.id,
        name: profile.name.clone(),
        engine: profile.engine,
        provider: profile.provider,
        driver_id: profile.driver_id.clone(),
        host: profile.host.clone(),
        port: profile.port,
        database: profile.database.clone(),
        username: Text::Owned(profile.username.clone()),
        sslmode: profile.sslmode.clone(),
        extra_params: Text::Owned(extra_params),
        secret_ref: profile.secret_ref.clone(),
        readonly_default: profile.readonly_default,
        allow_writes: profile.allow_writes,
        env: profile.env.clone(),
        schema_group: profile.schema_group.clone(),
        workspace_id: base.workspace_id,
        account_user_id: base.account_user_id.clone(),
        remote_id: base.remote_id,
        revision,
        sync_status: SyncStatus::Dirty,
        workspace_access: profile.workspace_access,
        credential_mode: profile.credential_mode,
        deleted_at: None,
        created_at: base.created_at,
        updated_at: now,
    }
}

/// Computes [`first_row`].
fn new_row(
    profile: &ConnectionProfile,
    extra_params: String,
    workspace_id: u128,
    account_user_id: Option<String>,
    now: i128,
) -> (r: ConnectionRow)
    ensures
        r == first_row(*profile, extra_params, workspace_id, account_user_id, now),
{
    ConnectionRow {
        id: profile.id,
        name: profile.name.clone(),
        engine: profile.engine,
        provider: profile.provider,
        driver_id: profile.driver_id.clone(),
        host: profile.host.clone(),
        port: profile.port,
        database: profile.database.clone(),
        username: Text::Owned(profile.username.clone()),
        sslmode: profile.sslmode.clone(),
        extra_params: Text::Owned(extra_params),
        secret_ref: profile.secret_ref.clone(),
        readonly_default: profile.readonly_default,
        allow_writes: profile.allow_writes,
        env: profile.env.clone(),
        schema_group: profile.schema_group.clone(),
        workspace_id,
        account_user_id,
        remote_id: None,
        revision: 1,
        sync_status: SyncStatus::Dirty,
        workspace_access: profile.workspace_access,
        credential_mode: profile.credential_mode,
        deleted_at: None,
        created_at: now,
        updated_at: now,
    }
}

/// Replacing a row by one with the same id leaves every place as it was.
pub proof fn replacing_keeps_places(
    connections: Seq<ConnectionRow>,
    id: u128,
    at: int,
    row: ConnectionRow,
    other: u128,
)
    requires
        0 <= at < connections.len(),
        connections[at].id == id,
        row.id == id,
    ensures
        row_place(connections.update(at, row), other) == row_place(connections, other),
{
    let after = connections.update(at, row);
    assert forall|j: int| 0 <= j < connections.len() implies (#[trigger] after[j]).id
        == connections[j].id by {}
    places_agree(connections, after, other);
}

proof fn places_agree(a: Seq<ConnectionRow>, b: Seq<ConnectionRow>, id: u128)
    requires
        a.len() == b.len(),
        forall|j: int| 0 <= j < a.len() ==> (#[trigger] b[j]).id == a[j].id,
    ensures
        row_place(b, id) == row_place(a, id),
{
    row_place_is_first(a, id);
    match row_place(a, id) {
        Some(i) => {
            assert forall|j: int| 0 <= j < i implies (#[trigger] b[j]).id != id by {
                assert(a[j].id != id);
            }
            row_place_is(b, id, i);
        },
        None => {
            row_place_is_first(b, id);
            match row_place(b, id) {
                Some(i) => {
                    assert(a[i].id != id);
                },
                None => {},
            }
        },
    }
}

/// While connections are put in a group, no row moves and no revision leaps.
pub proof fn all_grouped_so_far(
    tables: Tables,
    ids: Seq<u128>,
    group: Option<String>,
    outbox_ids: Seq<u128>,
    now: i128,
    n: int,
)
    requires
        0 <= n <= ids.len(),
        forall|j: int| 0 <= j < ids.len() ==> visible_row(tables, #[trigger] ids[j]) is Ok,
        forall|j: int|
            0 <= j < ids.len() ==> can_grow_by(tables.connections, #[trigger] ids[j], ids.len()),
    ensures
        ({
            let after = all_grouped(tables, ids.subrange(0, n), group, outbox_ids, now);
            &&& after == (Tables {
                connections: after.connections,
                outbox: after.outbox,
                ..tables
            })
            &&& after.connections.len() == tables.connections.len()
            &&& forall|j: int|
                0 <= j < tables.connections.len() ==> (#[trigger] after.connections[j]).id
                    == tables.connections[j].id && after.connections[j].revision
                    <= tables.connections[j].revision + n
        }),
    decreases n,
{
    if n > 0 {
        all_grouped_so_far(tables, ids, group, outbox_ids, now, n - 1);
        assert(ids.subrange(0, n).drop_last() =~= ids.subrange(0, n - 1));
        let earlier = all_grouped(tables, ids.subrange(0, n - 1), group, outbox_ids, now);
        let id = ids[n - 1];
        assert(visible_row(tables, id) is Ok);
        row_place_is_first(tables.connections, id);
        places_agree(tables.connections, earlier.connections, id);
        let at = row_place(earlier.connections, id)->0;
        assert(can_grow_by(tables.connections, id, ids.len()));
    }
}

/// Once connections were put in a group, each of them has it, as of now and for the server
/// to hear of; the server is told of each, in order; and none is missing.
pub proof fn grouped_connections_have_the_group(
    tables: Tables,
    ids: Seq<u128>,
    group: Option<String>,
    outbox_ids: Seq<u128>,
    now: i128,
    n: int,
)
    requires
        0 <= n <= ids.len(),
        forall|j: int| 0 <= j < ids.len() ==> visible_row(tables, #[trigger] ids[j]) is Ok,
        forall|j: int|
            0 <= j < ids.len() ==> can_grow_by(tables.connections, #[trigger] ids[j], ids.len()),
    ensures
        ({
            let after = all_grouped(tables, ids.subrange(0, n), group, outbox_ids, now);
            &&& after.outbox.len() == tables.outbox.len() + n
            &&& forall|k: int|
                0 <= k < n ==> {
                    let entry = #[trigger] after.outbox[tables.outbox.len() + k];
                    &&& entry.id == outbox_ids[k]
                    &&& entry.resource == ResourceKind::Connection
                    &&& entry.resource_id == ids[k]
                    &&& entry.operation == OutboxOperation::Upsert
                    &&& entry.workspace_id == active_workspace_of(tables)->Ok_0.id
                    &&& entry.created_at == now
                }
            &&& forall|k: int|
                0 <= k < n ==> {
                    let row = after.connections[row_place(
                        tables.connections,
                        #[trigger] ids[k],
                    )->0];
                    &&& row.schema_group == group
                    &&& row.updated_at == now
                    &&& row.sync_status == SyncStatus::Dirty
                }
        }),
    decreases n,
{
    if n > 0 {
        grouped_connections_have_the_group(tables, ids, group, outbox_ids, now, n - 1);
        all_grouped_so_far(tables, ids, group, outbox_ids, now, n - 1);
        let so_far = ids.subrange(0, n);
        assert(so_far.drop_last() =~= ids.subrange(0, n - 1));
        let earlier = all_grouped(tables, ids.subrange(0, n - 1), group, outbox_ids, now);
        let after = all_grouped(tables, so_far, group, outbox_ids, now);
        let id = ids[n - 1];
        assert(so_far.last() == id);
        assert(visible_row(tables, id) is Ok);
        row_place_is_first(tables.connections, id);
        places_agree(tables.connections, earlier.connections, id);
        assert forall|k: int| 0 <= k < n implies {
            let row = after.connections[row_place(tables.connections, #[trigger] ids[k])->0];
            &&& row.schema_group == group
            &&& row.updated_at == now
            &&& row.sync_status == SyncStatus::Dirty
        } by {
            assert(visible_row(tables, ids[k]) is Ok);
            row_place_is_first(tables.connections, ids[k]);
        }
    }
}

/// No connection is missing exactly where each is shown.
pub proof fn nothing_is_missing_where_all_are_shown(tables: Tables, ids: Seq<u128>)
    ensures
        first_missing(tables, ids) is None <==> forall|k: int|
            0 <= k < ids.len() ==> visible_row(tables, #[trigger] ids[k]) is Ok,
    decreases ids.len(),
{
    if ids.len() > 0 {
        let rest = ids.drop_first();
        nothing_is_missing_where_all_are_shown(tables, rest);
        assert(forall|k: int| 0 <= k < rest.len() ==> ids[k + 1] == #[trigger] rest[k]);
        assert(forall|k: int| 0 < k < ids.len() ==> rest[k - 1] == #[trigger] ids[k]);
        assert(ids[0] == ids.first());
    }
}

} // verus!
