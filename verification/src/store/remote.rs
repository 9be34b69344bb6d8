//! Shared connections: their templates come from the server, and each account binds its own
//! credential to them.
use vstd::prelude::*;

use crate::error::{AppError, AppResult};
use crate::model::{
    params_view, ConnectionProfile, SafetySettings, WorkspaceConnectionAccess,
};
use crate::store::connections::{
    binding_row, ensure_safety, find_binding, find_row, row_of, row_place,
    row_to_connection_with_binding, seen_profile, with_safety, ProfileView,
};
use crate::store::directory::{has_member, is_member};
use crate::store::memberships::{binds, has_binding, is_bound};
use crate::store::params::{params_json, write_params};
use crate::store::tables::{
    Binding, CacheRow, ConnectionRow, DashboardRow, HistoryRow, Row, SafetyRow, Store, SyncStatus,
    Tables,
};
use crate::text::{same_text, trim, trimmed, Text};

verus! {

/// A shared connection and its revision, as the server reports it.
pub type Template = (ConnectionProfile, i64);

/// Whether a template has this id.
pub open spec fn is_reported(templates: Seq<Template>, id: u128) -> bool {
    exists|i: int| 0 <= i < templates.len() && (#[trigger] templates[i]).0.id == id
}

fn reports(templates: &Vec<Template>, id: u128) -> (r: bool)
    ensures
        r == is_reported(templates@, id),
{
    let mut i: usize = 0;
    while i < templates.len()
        invariant
            i <= templates@.len(),
            forall|j: int| 0 <= j < i ==> (#[trigger] templates@[j]).0.id != id,
        decreases templates@.len() - i,
    {
        if templates[i].0.id == id {
            return true;
        }
        i = i + 1;
    }
    false
}

/// The first template whose id another workspace has.
pub open spec fn first_conflict(
    connections: Seq<ConnectionRow>,
    workspace_id: u128,
    templates: Seq<Template>,
) -> Option<u128>
    decreases templates.len(),
{
    if templates.len() == 0 {
        None
    } else {
        let id = templates[0].0.id;
        match row_of(connections, id) {
            Some(row) => if row.workspace_id != workspace_id {
                Some(id)
            } else {
                first_conflict(connections, workspace_id, templates.drop_first())
            },
            None => first_conflict(connections, workspace_id, templates.drop_first()),
        }
    }
}

/// Why templates cannot be taken over, if they cannot.
pub open spec fn sync_refusal(
    tables: Tables,
    workspace_id: u128,
    account_user_id: String,
    templates: Seq<Template>,
) -> Option<AppError> {
    if !is_member(tables.members, workspace_id, account_user_id@) {
        Some(
            AppError::NotFound(
                Text::IdThenText("workspace ", workspace_id, " for account ", account_user_id),
            ),
        )
    } else {
        match first_conflict(tables.connections, workspace_id, templates) {
            Some(id) => Some(
                AppError::Config(
                    Text::WithId("remote connection ", id, " conflicts with another workspace"),
                ),
            ),
            None => None,
        }
    }
}

/// A shared row, deleted where the server no longer reports it.
pub open spec fn pruned_row(
    row: ConnectionRow,
    workspace_id: u128,
    templates: Seq<Template>,
    now: i128,
) -> ConnectionRow {
    if row.workspace_id == workspace_id && row.remote_id is Some && !is_reported(
        templates,
        row.id,
    ) {
        ConnectionRow { deleted_at: Some(now), updated_at: now, ..row }
    } else {
        row
    }
}

/// The connections after those were deleted that the server no longer reports.
pub open spec fn pruned(
    connections: Seq<ConnectionRow>,
    workspace_id: u128,
    templates: Seq<Template>,
    now: i128,
) -> Seq<ConnectionRow> {
    Seq::new(connections.len(), |i: int| pruned_row(connections[i], workspace_id, templates, now))
}

/// Computes [`pruned`].
fn prune(
    connections: &mut Vec<ConnectionRow>,
    workspace_id: u128,
    templates: &Vec<Template>,
    now: i128,
)
    ensures
        final(connections)@ == pruned(old(connections)@, workspace_id, templates@, now),
{
    let ghost before = connections@;
    let mut i: usize = 0;
    while i < connections.len()
        invariant
            before == old(connections)@,
            connections@.len() == before.len(),
            i <= connections@.len(),
            forall|j: int|
                0 <= j < i ==> #[trigger] connections@[j] == pruned_row(
                    before[j],
                    workspace_id,
                    templates@,
                    now,
                ),
            forall|j: int| i <= j < before.len() ==> #[trigger] connections@[j] == before[j],
        decreases connections@.len() - i,
    {
        if connections[i].workspace_id == workspace_id && connections[i].remote_id.is_some()
            && !reports(templates, connections[i].id) {
            connections[i].deleted_at = Some(now);
            connections[i].updated_at = now;
        }
        i = i + 1;
    }
    assert(connections@ =~= pruned(before, workspace_id, templates@, now));
}

/// The row of a template that is new here. It has nothing of a member's own.
pub open spec fn template_row(
    profile: ConnectionProfile,
    revision: i64,
    workspace_id: u128,
    now: i128,
) -> ConnectionRow {
    ConnectionRow {
        id: profile.id,
        name: profile.name,
        engine: profile.engine,
        provider: profile.provider,
        driver_id: profile.driver_id,
        host: profile.host,
        port: profile.port,
        database: profile.database,
        username: Text::Plain(""),
        sslmode: profile.sslmode,
        extra_params: Text::Plain("{}"),
        secret_ref: None,
        readonly_default: profile.readonly_default,
        allow_writes: profile.allow_writes,
        env: profile.env,
        schema_group: profile.schema_group,
        workspace_id,
        account_user_id: None,
        remote_id: Some(profile.id),
        revision,
        sync_status: SyncStatus::Synced,
        workspace_access: profile.workspace_access,
        credential_mode: profile.credential_mode,
        deleted_at: None,
        created_at: now,
        updated_at: now,
    }
}

/// The row of a template that is here already: what the server reports over what is here.
pub open spec fn renewed_row(
    row: ConnectionRow,
    profile: ConnectionProfile,
    revision: i64,
    now: i128,
) -> ConnectionRow {
    ConnectionRow {
        username: row.username,
        extra_params: row.extra_params,
        secret_ref: row.secret_ref,
        account_user_id: row.account_user_id,
        created_at: row.created_at,
        ..template_row(profile, revision, row.workspace_id, now)
    }
}

fn make_template_row(profile: &ConnectionProfile, revision: i64, workspace_id: u128, now: i128) -> (r:
    ConnectionRow)
    ensures
        r == template_row(*profile, revision, workspace_id, now),
{
    ConnectionRow {
        id: profile.id,
        name: profile.name.clone(),
        engine: profile.engine,
        provider: profile.provider,
        driver_id: profile.driver_id.clone(),
        host: profile.host.clone(),
        port: profile.port,
        database: profile.database.clone(),
        username: Text::Plain(""),
        sslmode: profile.sslmode.clone(),
        extra_params: Text::Plain("{}"),
        secret_ref: None,
        readonly_default: profile.readonly_default,
        allow_writes: profile.allow_writes,
        env: profile.env.clone(),
        schema_group: profile.schema_group.clone(),
        workspace_id,
        account_user_id: None,
        remote_id: Some(profile.id),
        revision,
        sync_status: SyncStatus::Synced,
        workspace_access: profile.workspace_access,
        credential_mode: profile.credential_mode,
        deleted_at: None,
        created_at: now,
        updated_at: now,
    }
}

/// Whether a template lets its members write.
pub open spec fn lets_write(profile: ConnectionProfile) -> bool {
    profile.allow_writes && profile.workspace_access.spec_can_write()
}

/// The settings after a connection's own were told whether it may be written.
pub open spec fn with_writes(safety: Seq<SafetyRow>, id: u128, allow_writes: bool) -> Seq<
    SafetyRow,
> {
    Seq::new(
        safety.len(),
        |i: int|
            if safety[i].connection_id == id {
                SafetyRow {
                    settings: SafetySettings { allow_writes, ..safety[i].settings },
                    ..safety[i]
                }
            } else {
                safety[i]
            },
    )
}

/// Computes [`with_writes`].
fn set_writes(safety: &mut Vec<SafetyRow>, id: u128, allow_writes: bool)
    ensures
        final(safety)@ == with_writes(old(safety)@, id, allow_writes),
{
    let ghost before = safety@;
    let mut i: usize = 0;
    while i < safety.len()
        invariant
            before == old(safety)@,
            safety@.len() == before.len(),
            i <= safety@.len(),
            forall|j: int|
                0 <= j < i ==> #[trigger] safety@[j] == with_writes(before, id, allow_writes)[j],
            forall|j: int| i <= j < before.len() ==> #[trigger] safety@[j] == before[j],
        decreases safety@.len() - i,
    {
        if safety[i].connection_id == id {
            let mut row = safety[i].duplicate();
            row.settings.allow_writes = allow_writes;
            safety.set(i, row);
        }
        i = i + 1;
    }
    assert(safety@ =~= with_writes(before, id, allow_writes));
}

/// The bindings after the server said what an account may do with a connection. What the
/// account has of its own stays.
pub open spec fn with_grant(
    bindings: Seq<Binding>,
    connection_id: u128,
    account_user_id: String,
    access: WorkspaceConnectionAccess,
    allow_writes: bool,
    now: i128,
) -> Seq<Binding> {
    if is_bound(bindings, connection_id, account_user_id@) {
        Seq::new(
            bindings.len(),
            |i: int|
                if binds(bindings[i], connection_id, account_user_id@) {
                    Binding {
                        workspace_access: access,
                        allow_writes,
                        updated_at: now,
                        ..bindings[i]
                    }
                } else {
                    bindings[i]
                },
        )
    } else {
        bindings.push(
            Binding {
                connection_id,
                account_user_id,
                username: Text::Plain(""),
                extra_params: Text::Plain("{}"),
                secret_ref: None,
                workspace_access: access,
                allow_writes,
                updated_at: now,
            },
        )
    }
}

/// Computes [`with_grant`].
fn grant(
    bindings: &mut Vec<Binding>,
    connection_id: u128,
    account_user_id: &String,
    access: WorkspaceConnectionAccess,
    allow_writes: bool,
    now: i128,
)
    ensures
        final(bindings)@ == with_grant(
            old(bindings)@,
            connection_id,
            *account_user_id,
            access,
            allow_writes,
            now,
        ),
{
    let ghost before = bindings@;
    if has_binding(bindings, connection_id, account_user_id.as_str()) {
        let mut i: usize = 0;
        while i < bindings.len()
            invariant
                before == old(bindings)@,
                is_bound(before, connection_id, account_user_id@),
                bindings@.len() == before.len(),
                i <= bindings@.len(),
                forall|j: int|
                    0 <= j < i ==> #[trigger] bindings@[j] == with_grant(
                        before,
                        connection_id,
                        *account_user_id,
                        access,
                        allow_writes,
                        now,
                    )[j],
                forall|j: int| i <= j < before.len() ==> #[trigger] bindings@[j] == before[j],
            decreases bindings@.len() - i,
        {
            if bindings[i].connection_id == connection_id && same_text(
                bindings[i].account_user_id.as_str(),
                account_user_id.as_str(),
            ) {
                bindings[i].workspace_access = access;
                bindings[i].allow_writes = allow_writes;
                bindings[i].updated_at = now;
            }
            i = i + 1;
        }
        assert(bindings@ =~= with_grant(
            before,
            connection_id,
            *account_user_id,
            access,
            allow_writes,
            now,
        ));
    } else {
        bindings.push(
            Binding {
                connection_id,
                account_user_id: account_user_id.clone(),
                username: Text::Plain(""),
                extra_params: Text::Plain("{}"),
                secret_ref: None,
                workspace_access: access,
                allow_writes,
                updated_at: now,
            },
        );
    }
}

/// The tables after one template was taken over.
pub open spec fn with_template(
    tables: Tables,
    workspace_id: u128,
    account_user_id: String,
    template: Template,
    now: i128,
) -> Tables {
    let (profile, revision) = template;
    Tables {
        connections: match row_place(tables.connections, profile.id) {
            Some(at) => if tables.connections[at].workspace_id == workspace_id {
                tables.connections.update(
                    at,
                    renewed_row(tables.connections[at], profile, revision, now),
                )
            } else {
                tables.connections
            },
            None => tables.connections.push(template_row(profile, revision, workspace_id, now)),
        },
        safety: with_writes(
            with_safety(tables.safety, profile.id),
            profile.id,
            lets_write(profile),
        ),
        bindings: with_grant(
            tables.bindings,
            profile.id,
            account_user_id,
            profile.workspace_access,
            lets_write(profile),
            now,
        ),
        ..tables
    }
}

/// The tables after these templates were taken over, in order.
pub open spec fn with_templates(
    tables: Tables,
    workspace_id: u128,
    account_user_id: String,
    templates: Seq<Template>,
    now: i128,
) -> Tables
    decreases templates.len(),
{
    if templates.len() == 0 {
        tables
    } else {
        with_template(
            with_templates(tables, workspace_id, account_user_id, templates.drop_last(), now),
            workspace_id,
            account_user_id,
            templates.last(),
            now,
        )
    }
}

/// The tables after the shared connections of a workspace were taken over.
pub open spec fn templates_synced(
    tables: Tables,
    workspace_id: u128,
    account_user_id: String,
    templates: Seq<Template>,
    now: i128,
) -> Tables {
    with_templates(
        Tables {
            connections: pruned(tables.connections, workspace_id, templates, now),
            ..tables
        },
        workspace_id,
        account_user_id,
        templates,
        now,
    )
}

/// Whether a row is the cached template with this id.
pub open spec fn is_template(row: ConnectionRow, workspace_id: u128, id: u128) -> bool {
    row.id == id && row.workspace_id == workspace_id && row.remote_id == Some(id)
}

/// The connections without that template.
pub open spec fn without_template(
    connections: Seq<ConnectionRow>,
    workspace_id: u128,
    id: u128,
) -> Seq<ConnectionRow>
    decreases connections.len(),
{
    if connections.len() == 0 {
        Seq::empty()
    } else {
        let earlier = without_template(connections.drop_last(), workspace_id, id);
        if is_template(connections.last(), workspace_id, id) {
            earlier
        } else {
            earlier.push(connections.last())
        }
    }
}

/// Computes [`without_template`].
fn drop_template(connections: &Vec<ConnectionRow>, workspace_id: u128, id: u128) -> (r: Vec<
    ConnectionRow,
>)
    ensures
        r@ == without_template(connections@, workspace_id, id),
{
    let mut kept: Vec<ConnectionRow> = Vec::new();
    let mut i: usize = 0;
    while i < connections.len()
        invariant
            i <= connections@.len(),
            kept@ == without_template(connections@.subrange(0, i as int), workspace_id, id),
        decreases connections@.len() - i,
    {
        assert(connections@.subrange(0, i + 1).drop_last() =~= connections@.subrange(0, i as int));
        let row = &connections[i];
        let gone = row.id == id && row.workspace_id == workspace_id && match row.remote_id {
            Some(remote) => remote == id,
            None => false,
        };
        if !gone {
            kept.push(row.duplicate());
        }
        i = i + 1;
    }
    assert(connections@.subrange(0, connections@.len() as int) =~= connections@);
    kept
}

/// A row that belongs to a connection and goes with it.
pub trait Dependent: Row {
    /// The connection that the row belongs to.
    spec fn belongs_to(self) -> u128;

    /// Computes [`Dependent::belongs_to`].
    fn owner(&self) -> (r: u128)
        ensures
            r == self.belongs_to(),
    ;
}

impl Dependent for Binding {
    open spec fn belongs_to(self) -> u128 {
        self.connection_id
    }

    fn owner(&self) -> u128 {
        self.connection_id
    }
}

impl Dependent for SafetyRow {
    open spec fn belongs_to(self) -> u128 {
        self.connection_id
    }

    fn owner(&self) -> u128 {
        self.connection_id
    }
}

impl Dependent for HistoryRow {
    open spec fn belongs_to(self) -> u128 {
        self.entry.connection_id
    }

    fn owner(&self) -> u128 {
        self.entry.connection_id
    }
}

impl Dependent for DashboardRow {
    open spec fn belongs_to(self) -> u128 {
        self.connection_id
    }

    fn owner(&self) -> u128 {
        self.connection_id
    }
}

impl Dependent for CacheRow {
    open spec fn belongs_to(self) -> u128 {
        self.connection_id
    }

    fn owner(&self) -> u128 {
        self.connection_id
    }
}

/// The rows that do not belong to this connection.
pub open spec fn without_owner<T: Dependent>(rows: Seq<T>, id: u128) -> Seq<T>
    decreases rows.len(),
{
    if rows.len() == 0 {
        Seq::empty()
    } else {
        let earlier = without_owner(rows.drop_last(), id);
        if rows.last().belongs_to() == id {
            earlier
        } else {
            earlier.push(rows.last())
        }
    }
}

/// Computes [`without_owner`].
fn drop_owned<T: Dependent>(rows: &Vec<T>, id: u128) -> (r: Vec<T>)
    ensures
        r@ == without_owner(rows@, id),
{
    let mut kept: Vec<T> = Vec::new();
    let mut i: usize = 0;
    while i < rows.len()
        invariant
            i <= rows@.len(),
            kept@ == without_owner(rows@.subrange(0, i as int), id),
        decreases rows@.len() - i,
    {
        assert(rows@.subrange(0, i + 1).drop_last() =~= rows@.subrange(0, i as int));
        if rows[i].owner() != id {
            kept.push(rows[i].copied());
        }
        i = i + 1;
    }
    assert(rows@.subrange(0, rows@.len() as int) =~= rows@);
    kept
}

/// Whether the template is cached.
pub open spec fn is_cached(connections: Seq<ConnectionRow>, workspace_id: u128, id: u128) -> bool {
    exists|i: int|
        0 <= i < connections.len() && is_template(#[trigger] connections[i], workspace_id, id)
}

/// The tables after the cached template was dropped, and everything that belongs to it.
pub open spec fn purged(tables: Tables, workspace_id: u128, id: u128) -> Tables {
    if is_cached(tables.connections, workspace_id, id) {
        Tables {
            connections: without_template(tables.connections, workspace_id, id),
            bindings: without_owner(tables.bindings, id),
            safety: without_owner(tables.safety, id),
            history: without_owner(tables.history, id),
            dashboards: without_owner(tables.dashboards, id),
            schema_cache: without_owner(tables.schema_cache, id),
            ..tables
        }
    } else {
        tables
    }
}

fn caches(connections: &Vec<ConnectionRow>, workspace_id: u128, id: u128) -> (r: bool)
    ensures
        r == is_cached(connections@, workspace_id, id),
{
    let mut i: usize = 0;
    while i < connections.len()
        invariant
            i <= connections@.len(),
            forall|j: int|
                0 <= j < i ==> !is_template(#[trigger] connections@[j], workspace_id, id),
        decreases connections@.len() - i,
    {
        let row = &connections[i];
        let found = row.id == id && row.workspace_id == workspace_id && match row.remote_id {
            Some(remote) => remote == id,
            None => false,
        };
        if found {
            assert(is_template(connections@[i as int], workspace_id, id));
            return true;
        }
        i = i + 1;
    }
    false
}

/// The shared connection that an account binds its credential to, if it may.
pub open spec fn bindable(tables: Tables, id: u128, account_user_id: String) -> Result<
    ProfileView,
    AppError,
> {
    let missing: Result<ProfileView, AppError> = Err(
        AppError::NotFound(Text::WithId("shared connection ", id, "")),
    );
    match row_of(tables.connections, id) {
        None => missing,
        Some(row) => if row.remote_id is None || row.deleted_at is Some || !is_member(
            tables.members,
            row.workspace_id,
            account_user_id@,
        ) {
            missing
        } else {
            let seen = seen_profile(row, binding_row(tables.bindings, id, Some(account_user_id)));
            if seen.workspace_access.spec_can_read() {
                Ok(seen)
            } else {
                Err(
                    AppError::Blocked {
                        reason: Text::Plain("workspace role cannot execute this connection"),
                    },
                )
            }
        },
    }
}

/// The bindings after an account bound its credential. What the server said of its access
/// stays; without that it may only look.
pub open spec fn with_credential(
    bindings: Seq<Binding>,
    connection_id: u128,
    account_user_id: String,
    username: String,
    extra_params: String,
    secret_ref: Option<String>,
    now: i128,
) -> Seq<Binding> {
    if is_bound(bindings, connection_id, account_user_id@) {
        Seq::new(
            bindings.len(),
            |i: int|
                if binds(bindings[i], connection_id, account_user_id@) {
                    Binding {
                        username: Text::Owned(username),
                        extra_params: Text::Owned(extra_params),
                        secret_ref,
                        updated_at: now,
                        ..bindings[i]
                    }
                } else {
                    bindings[i]
                },
        )
    } else {
        bindings.push(
            Binding {
                connection_id,
                account_user_id,
                username: Text::Owned(username),
                extra_params: Text::Owned(extra_params),
                secret_ref,
                workspace_access: WorkspaceConnectionAccess::View,
                allow_writes: false,
                updated_at: now,
            },
        )
    }
}

/// Computes [`with_credential`].
fn keep_credential(
    bindings: &mut Vec<Binding>,
    connection_id: u128,
    account_user_id: &String,
    username: &String,
    extra_params: &String,
    secret_ref: &Option<String>,
    now: i128,
)
    ensures
        final(bindings)@ == with_credential(
            old(bindings)@,
            connection_id,
            *account_user_id,
            *username,
            *extra_params,
            *secret_ref,
            now,
        ),
{
    let ghost before = bindings@;
    if has_binding(bindings, connection_id, account_user_id.as_str()) {
        let mut i: usize = 0;
        while i < bindings.len()
            invariant
                before == old(bindings)@,
                is_bound(before, connection_id, account_user_id@),
                bindings@.len() == before.len(),
                i <= bindings@.len(),
                forall|j: int|
                    0 <= j < i ==> #[trigger] bindings@[j] == with_credential(
                        before,
                        connection_id,
                        *account_user_id,
                        *username,
                        *extra_params,
                        *secret_ref,
                        now,
                    )[j],
                forall|j: int| i <= j < before.len() ==> #[trigger] bindings@[j] == before[j],
            decreases bindings@.len() - i,
        {
            if bindings[i].connection_id == connection_id && same_text(
                bindings[i].account_user_id.as_str(),
                account_user_id.as_str(),
            ) {
                bindings[i].username = Text::Owned(username.clone());
                bindings[i].extra_params = Text::Owned(extra_params.clone());
                bindings[i].secret_ref = secret_ref.clone();
                bindings[i].updated_at = now;
            }
            i = i + 1;
        }
        assert(bindings@ =~= with_credential(
            before,
            connection_id,
            *account_user_id,
            *username,
            *extra_params,
            *secret_ref,
            now,
        ));
    } else {
        bindings.push(
            Binding {
                connection_id,
                account_user_id: account_user_id.clone(),
                username: Text::Owned(username.clone()),
                extra_params: Text::Owned(extra_params.clone()),
                secret_ref: secret_ref.clone(),
                workspace_access: WorkspaceConnectionAccess::View,
                allow_writes: false,
                updated_at: now,
            },
        );
    }
}

impl Store {
    /// Takes over the shared connections of a workspace as the server reports them to an
    /// account. Those that it no longer reports are deleted; what accounts have of their
    /// own on the others stays.
    pub fn sync_remote_connections(
        &mut self,
        workspace_id: u128,
        account_user_id: &String,
        templates: &Vec<Template>,
        now: i128,
    ) -> (r: AppResult<()>)
        ensures
            match sync_refusal(old(self)@, workspace_id, *account_user_id, templates@) {
                Some(error) => r == Err::<(), AppError>(error) && final(self)@ == old(self)@,
                None => r is Ok && final(self)@ == templates_synced(
                    old(self)@,
                    workspace_id,
                    *account_user_id,
                    templates@,
                    now,
                ),
            },
    {
        if !has_member(&self.members, workspace_id, account_user_id.as_str()) {
            return Err(
                AppError::NotFound(
                    Text::IdThenText(
                        "workspace ",
                        workspace_id,
                        " for account ",
                        account_user_id.clone(),
                    ),
                ),
            );
        }
        let mut i: usize = 0;
        assert(templates@.subrange(0, templates@.len() as int) =~= templates@);
        while i < templates.len()
            invariant
                i <= templates@.len(),
                self@ == old(self)@,
                is_member(old(self)@.members, workspace_id, account_user_id@),
                first_conflict(self@.connections, workspace_id, templates@) == first_conflict(
                    self@.connections,
                    workspace_id,
                    templates@.subrange(i as int, templates@.len() as int),
                ),
            decreases templates@.len() - i,
        {
            assert(templates@.subrange(i as int, templates@.len() as int).drop_first()
                =~= templates@.subrange(i + 1, templates@.len() as int));
            let id: u128 = templates[i].0.id;
            match find_row(&self.connections, id) {
                Some(at) => {
                    if self.connections[at].workspace_id != workspace_id {
                        return Err(
                            AppError::Config(
                                Text::WithId(
                                    "remote connection ",
                                    id,
                                    " conflicts with another workspace",
                                ),
                            ),
                        );
                    }
                },
                None => {},
            }
            i = i + 1;
        }
        assert(templates@.subrange(templates@.len() as int, templates@.len() as int)
            =~= Seq::empty());
        prune(&mut self.connections, workspace_id, templates, now);
        let ghost base = self@;
        let mut i: usize = 0;
        while i < templates.len()
            invariant
                i <= templates@.len(),
                self@ == with_templates(
                    base,
                    workspace_id,
                    *account_user_id,
                    templates@.subrange(0, i as int),
                    now,
                ),
            decreases templates@.len() - i,
        {
            assert(templates@.subrange(0, i + 1).drop_last() =~= templates@.subrange(0, i as int));
            self.take_template(
                workspace_id,
                account_user_id,
                &templates[i].0,
                templates[i].1,
                now,
            );
            i = i + 1;
        }
        assert(templates@.subrange(0, templates@.len() as int) =~= templates@);
        Ok(())
    }

    fn take_template(
        &mut self,
        workspace_id: u128,
        account_user_id: &String,
        profile: &ConnectionProfile,
        revision: i64,
        now: i128,
    )
        ensures
            final(self)@ == with_template(
                old(self)@,
                workspace_id,
                *account_user_id,
                (*profile, revision),
                now,
            ),
    {
        match find_row(&self.connections, profile.id) {
            Some(at) => {
                if self.connections[at].workspace_id == workspace_id {
                    let mut row = make_template_row(profile, revision, workspace_id, now);
                    row.username = self.connections[at].username.duplicate();
                    row.extra_params = self.connections[at].extra_params.duplicate();
                    row.secret_ref = self.connections[at].secret_ref.clone();
                    row.account_user_id = self.connections[at].account_user_id.clone();
                    row.created_at = self.connections[at].created_at;
                    self.connections.set(at, row);
                }
            },
            None => {
                self.connections.push(make_template_row(profile, revision, workspace_id, now));
            },
        }
        let allow_writes = profile.allow_writes && profile.workspace_access.can_write();
        ensure_safety(&mut self.safety, profile.id);
        set_writes(&mut self.safety, profile.id, allow_writes);
        grant(
            &mut self.bindings,
            profile.id,
            account_user_id,
            profile.workspace_access,
            allow_writes,
            now,
        );
    }

    /// Drops a cached template that the server has taken back, and everything that belongs
    /// to it.
    pub fn purge_remote_connection_cache(&mut self, workspace_id: u128, connection_id: u128)
        ensures
            final(self)@ == purged(old(self)@, workspace_id, connection_id),
    {
        if caches(&self.connections, workspace_id, connection_id) {
            self.connections = drop_template(&self.connections, workspace_id, connection_id);
            self.bindings = drop_owned(&self.bindings, connection_id);
            self.safety = drop_owned(&self.safety, connection_id);
            self.history = drop_owned(&self.history, connection_id);
            self.dashboards = drop_owned(&self.dashboards, connection_id);
            self.schema_cache = drop_owned(&self.schema_cache, connection_id);
        }
    }

    /// Binds an account's own user name, parameters and credential to a shared connection.
    pub fn bind_connection_credentials(
        &mut self,
        id: u128,
        account_user_id: &String,
        username: &str,
        extra_params: Vec<(String, String)>,
        secret_ref: Option<String>,
        now: i128,
    ) -> (r: AppResult<ConnectionProfile>)
        ensures
            match bindable(old(self)@, id, *account_user_id) {
                Err(error) => r == Err::<ConnectionProfile, AppError>(error) && final(self)@
                    == old(self)@,
                Ok(seen) => {
                    &&& r is Ok
                    &&& r->Ok_0@ == ProfileView {
                        username: trimmed(username@),
                        extra_params: params_view(extra_params@),
                        secret_ref,
                        ..seen
                    }
                    &&& exists|name: String, json: String|
                        name@ == trimmed(username@) && json@ == params_json(
                            params_view(extra_params@),
                        ) && final(self)@ == (Tables {
                            bindings: #[trigger] with_credential(
                                old(self)@.bindings,
                                id,
                                *account_user_id,
                                name,
                                json,
                                secret_ref,
                                now,
                            ),
                            ..old(self)@
                        })
                },
            },
    {
        let at = match find_row(&self.connections, id) {
            None => {
                return Err(AppError::NotFound(Text::WithId("shared connection ", id, "")));
            },
            Some(at) => at,
        };
        if self.connections[at].remote_id.is_none() || self.connections[at].deleted_at.is_some()
            || !has_member(
            &self.members,
            self.connections[at].workspace_id,
            account_user_id.as_str(),
        ) {
            return Err(AppError::NotFound(Text::WithId("shared connection ", id, "")));
        }
        let own = find_binding(&self.bindings, id, &Some(account_user_id.clone()));
        let mut profile = row_to_connection_with_binding(&self.connections[at], &own);
        if !profile.workspace_access.can_read() {
            return Err(
                AppError::Blocked {
                    reason: Text::Plain("workspace role cannot execute this connection"),
                },
            );
        }
        let json = write_params(&extra_params);
        let name = trim(username).to_owned();
        keep_credential(
            &mut self.bindings,
            id,
            account_user_id,
            &name,
            &json,
            &secret_ref,
            now,
        );
        assert(self@ == (Tables {
            bindings: with_credential(
                old(self)@.bindings,
                id,
                *account_user_id,
                name,
                json,
                secret_ref,
                now,
            ),
            ..old(self)@
        }));
        profile.username = name;
        profile.extra_params = extra_params;
        profile.secret_ref = secret_ref;
        Ok(profile)
    }
}

} // verus!
