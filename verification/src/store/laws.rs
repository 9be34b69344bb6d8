//! What holds of the store as a whole: what is read back of what was written, and what
//! stays as it was.
use vstd::prelude::*;

use crate::error::AppError;
use crate::model::{
    params_view, ChatThread, ConnectionProfile, DashboardDraft, HistoryEntry, SafetySettings,
    Workspace, WorkspaceConnectionAccess, WorkspaceKind,
};
use crate::store::chat::{
    after_turn, chat_scope, is_thread, new_chat_scope, no_thread, thread_lookup, thread_row, without_thread,
};
use crate::store::connections::{
    binding_row, deleted_row, lookup, no_connection, replacing_keeps_places, revised, row_of,
    row_place, row_place_is_first, safety_of, save_refusal, saved, visible_row, ProfileView,
};
use crate::store::dashboards::{
    dashboard_lookup, dashboard_of, dashboard_refusal, dashboards_of, drawn, has_dashboard,
    new_dashboard, shown_dashboard, shows_dashboard, with_dashboard,
};
use crate::store::directory::{
    active_row_has_the_id, active_workspace_of, is_member, local_scope, selected, selection,
};
use crate::store::memberships::{binds, has_catalog, is_bound, is_catalog_of};
use crate::store::order::{arranged, arranging_keeps_the_rows};
use crate::store::params::stored_params;
use crate::store::records::{
    catalog_row, history_lookup, is_live, line_row, line_scope, lines_of, with_catalog,
    with_settings, without_catalog,
};
use crate::store::remote::{with_credential, with_grant};
use crate::store::tables::{
    Binding, CacheRow, ConnectionRow, DashboardRow, HistoryRow, OutboxOperation, SafetyRow, Tables,
    ThreadRow,
};
use crate::text::{is_text, Text};

verus! {

/// A connection that was saved is read back as it was, where the stored text of its
/// parameters is read back as it was.
pub proof fn saved_connections_are_read_back(
    tables: Tables,
    profile: ConnectionProfile,
    extra_params: String,
    outbox_id: u128,
    now: i128,
)
    requires
        save_refusal(tables, profile) is None,
        stored_params(extra_params@) == params_view(profile.extra_params@),
    ensures
        lookup(saved(tables, profile, extra_params, outbox_id, now), profile.id) == Ok::<
            ProfileView,
            AppError,
        >(profile@),
{
    let after = saved(tables, profile, extra_params, outbox_id, now);
    row_place_is_first(tables.connections, profile.id);
    match row_place(tables.connections, profile.id) {
        Some(at) => {
            let row = after.connections[at];
            replacing_keeps_places(tables.connections, profile.id, at, row, profile.id);
        },
        None => {
            appended_row_is_found(tables.connections, after.connections.last());
        },
    }
}

proof fn appended_row_is_found(connections: Seq<ConnectionRow>, row: ConnectionRow)
    requires
        row_place(connections, row.id) is None,
    ensures
        row_place(connections.push(row), row.id) == Some(connections.len() as int),
{
    let after = connections.push(row);
    row_place_is_first(connections, row.id);
    row_place_is_first(after, row.id);
    match row_place(after, row.id) {
        Some(at) => {
            if at < connections.len() {
                assert(after[at] == connections[at]);
            }
        },
        None => {
            assert(after[connections.len() as int].id == row.id);
        },
    }
}

proof fn appending_keeps_places(connections: Seq<ConnectionRow>, row: ConnectionRow, other: u128)
    requires
        row.id != other,
    ensures
        row_place(connections.push(row), other) == row_place(connections, other),
{
    let after = connections.push(row);
    row_place_is_first(connections, other);
    row_place_is_first(after, other);
    assert forall|j: int| 0 <= j < connections.len() implies #[trigger] after[j]
        == connections[j] by {}
    match row_place(connections, other) {
        Some(i) => {
            match row_place(after, other) {
                Some(k) => {
                    if k < i {
                        assert(connections[k].id != other);
                    }
                    if i < k {
                        assert(after[i].id != other);
                    }
                },
                None => {
                    assert(after[i].id != other);
                },
            }
        },
        None => {
            match row_place(after, other) {
                Some(k) => {
                    if k < connections.len() {
                        assert(connections[k].id != other);
                    }
                },
                None => {},
            }
        },
    }
}

/// Saving one connection leaves every other as it was.
pub proof fn saving_leaves_others_alone(
    tables: Tables,
    profile: ConnectionProfile,
    extra_params: String,
    outbox_id: u128,
    now: i128,
    other: u128,
)
    requires
        save_refusal(tables, profile) is None,
        other != profile.id,
    ensures
        lookup(saved(tables, profile, extra_params, outbox_id, now), other) == lookup(
            tables,
            other,
        ),
{
    let after = saved(tables, profile, extra_params, outbox_id, now);
    row_place_is_first(tables.connections, profile.id);
    row_place_is_first(tables.connections, other);
    match row_place(tables.connections, profile.id) {
        Some(at) => {
            replacing_keeps_places(
                tables.connections,
                profile.id,
                at,
                after.connections[at],
                other,
            );
        },
        None => {
            appending_keeps_places(tables.connections, after.connections.last(), other);
        },
    }
}

/// A connection that was deleted is not found any more, and every other is as it was.
pub proof fn deleted_connections_are_gone(
    tables: Tables,
    id: u128,
    outbox_id: u128,
    now: i128,
    other: u128,
)
    requires
        visible_row(tables, id) is Ok,
    ensures
        ({
            let row = visible_row(tables, id)->Ok_0;
            let after = revised(
                tables,
                id,
                deleted_row(row, now),
                OutboxOperation::Delete,
                outbox_id,
                now,
            );
            &&& lookup(after, id) == Err::<ProfileView, AppError>(no_connection(id))
            &&& other != id ==> lookup(after, other) == lookup(tables, other)
            &&& after.connections[row_place(tables.connections, id)->0].deleted_at == Some(now)
        }),
{
    row_place_is_first(tables.connections, id);
    row_place_is_first(tables.connections, other);
    let at = row_place(tables.connections, id)->0;
    let row = tables.connections[at];
    replacing_keeps_places(tables.connections, id, at, deleted_row(row, now), id);
    replacing_keeps_places(tables.connections, id, at, deleted_row(row, now), other);
}

/// A connection is found only in its own workspace, and one that is local to a member of a
/// team only by that member.
pub proof fn connections_keep_to_their_scope(tables: Tables, id: u128)
    requires
        lookup(tables, id) is Ok,
    ensures
        active_workspace_of(tables) is Ok,
        row_of(tables.connections, id) is Some,
        ({
            let workspace = active_workspace_of(tables)->Ok_0;
            let row = row_of(tables.connections, id)->0;
            &&& row.workspace_id == workspace.id
            &&& row.deleted_at is None
            &&& workspace.kind == WorkspaceKind::Team && row.remote_id is None ==> {
                &&& row.account_user_id is Some
                &&& is_text(tables.active_account, row.account_user_id->0@)
            }
        }),
{
}

/// What one account binds to a shared connection, it reads back, and no other account does.
pub proof fn credentials_are_isolated(
    bindings: Seq<Binding>,
    connection_id: u128,
    account: String,
    username: String,
    extra_params: String,
    secret_ref: Option<String>,
    now: i128,
    other: String,
    other_connection: u128,
)
    ensures
        ({
            let after = with_credential(
                bindings,
                connection_id,
                account,
                username,
                extra_params,
                secret_ref,
                now,
            );
            &&& binding_row(after, connection_id, Some(account)) matches Some(own)
            &&& own.username@ == username@
            &&& own.extra_params@ == extra_params@
            &&& own.secret_ref == secret_ref
            &&& (other@ != account@ || other_connection != connection_id) ==> binding_row(
                after,
                other_connection,
                Some(other),
            ) == binding_row(bindings, other_connection, Some(other))
        }),
    decreases bindings.len(),
{
    let after = with_credential(
        bindings,
        connection_id,
        account,
        username,
        extra_params,
        secret_ref,
        now,
    );
    if is_bound(bindings, connection_id, account@) {
        bound_row_is_found(bindings, connection_id, account);
        rows_are_found_alike(bindings, after, connection_id, account);
        if other@ != account@ || other_connection != connection_id {
            rows_are_found_alike(bindings, after, other_connection, other);
            found_row_binds(bindings, other_connection, other);
            found_row_binds(after, other_connection, other);
        }
        found_row_binds(after, connection_id, account);
        found_row_binds(bindings, connection_id, account);
    } else {
        appended_binding(bindings, after.last(), connection_id, account);
        if other@ != account@ || other_connection != connection_id {
            appended_binding_for_others(bindings, after.last(), other_connection, other);
        }
    }
}

/// The place of the first row that this account has of its own on this connection.
pub open spec fn binding_place(
    bindings: Seq<Binding>,
    connection_id: u128,
    user_id: Seq<char>,
) -> Option<
    int,
>
    decreases bindings.len(),
{
    if bindings.len() == 0 {
        None
    } else if binds(bindings[0], connection_id, user_id) {
        Some(0)
    } else {
        match binding_place(bindings.drop_first(), connection_id, user_id) {
            Some(i) => Some(i + 1),
            None => None,
        }
    }
}

proof fn found_row_binds(bindings: Seq<Binding>, connection_id: u128, user: String)
    ensures
        match binding_place(bindings, connection_id, user@) {
            Some(i) => {
                &&& 0 <= i < bindings.len()
                &&& binds(bindings[i], connection_id, user@)
                &&& binding_row(bindings, connection_id, Some(user)) == Some(bindings[i])
                &&& forall|j: int|
                    0 <= j < i ==> !binds(#[trigger] bindings[j], connection_id, user@)
            },
            None => {
                &&& binding_row(bindings, connection_id, Some(user)) is None
                &&& !is_bound(bindings, connection_id, user@)
            },
        },
    decreases bindings.len(),
{
    if bindings.len() > 0 && !binds(bindings[0], connection_id, user@) {
        let rest = bindings.drop_first();
        found_row_binds(rest, connection_id, user);
        assert forall|j: int| 0 < j < bindings.len() implies #[trigger] bindings[j] == rest[j
            - 1] by {}
        match binding_place(rest, connection_id, user@) {
            Some(_) => {},
            None => {
                assert forall|j: int| 0 <= j < bindings.len() implies !binds(
                    #[trigger] bindings[j],
                    connection_id,
                    user@,
                ) by {
                    if j > 0 {
                        assert(!binds(rest[j - 1], connection_id, user@));
                    }
                }
            },
        }
    }
}

proof fn bound_row_is_found(bindings: Seq<Binding>, connection_id: u128, user: String)
    requires
        is_bound(bindings, connection_id, user@),
    ensures
        binding_place(bindings, connection_id, user@) is Some,
{
    found_row_binds(bindings, connection_id, user);
}

proof fn rows_are_found_alike(
    a: Seq<Binding>,
    b: Seq<Binding>,
    connection_id: u128,
    user: String,
)
    requires
        a.len() == b.len(),
        forall|j: int|
            0 <= j < a.len() ==> binds(#[trigger] b[j], connection_id, user@) == binds(
                a[j],
                connection_id,
                user@,
            ),
    ensures
        binding_place(b, connection_id, user@) == binding_place(a, connection_id, user@),
{
    found_row_binds(a, connection_id, user);
    found_row_binds(b, connection_id, user);
    match (
        binding_place(a, connection_id, user@),
        binding_place(b, connection_id, user@),
    ) {
        (Some(i), Some(k)) => {
            if i < k {
                assert(!binds(b[i], connection_id, user@));
            }
            if k < i {
                assert(!binds(a[k], connection_id, user@));
            }
        },
        (Some(i), None) => {
            assert(binds(b[i], connection_id, user@));
        },
        (None, Some(k)) => {
            assert(binds(a[k], connection_id, user@));
        },
        (None, None) => {},
    }
}

proof fn appended_binding(bindings: Seq<Binding>, row: Binding, connection_id: u128, user: String)
    requires
        !is_bound(bindings, connection_id, user@),
        binds(row, connection_id, user@),
    ensures
        binding_row(bindings.push(row), connection_id, Some(user)) == Some(row),
{
    let after = bindings.push(row);
    found_row_binds(after, connection_id, user);
    assert(after[bindings.len() as int] == row);
    match binding_place(after, connection_id, user@) {
        Some(i) => {
            if i < bindings.len() {
                assert(binds(bindings[i], connection_id, user@));
            }
        },
        None => {
            assert(binds(after[bindings.len() as int], connection_id, user@));
        },
    }
}

proof fn appended_binding_for_others(
    bindings: Seq<Binding>,
    row: Binding,
    connection_id: u128,
    user: String,
)
    requires
        !binds(row, connection_id, user@),
    ensures
        binding_row(bindings.push(row), connection_id, Some(user)) == binding_row(
            bindings,
            connection_id,
            Some(user),
        ),
{
    let after = bindings.push(row);
    found_row_binds(after, connection_id, user);
    found_row_binds(bindings, connection_id, user);
    assert forall|j: int| 0 <= j < bindings.len() implies #[trigger] after[j] == bindings[j] by {}
    match (
        binding_place(bindings, connection_id, user@),
        binding_place(after, connection_id, user@),
    ) {
        (Some(i), Some(k)) => {
            if i < k {
                assert(!binds(after[i], connection_id, user@));
            }
            if k < i {
                assert(!binds(bindings[k], connection_id, user@));
            }
        },
        (Some(i), None) => {
            assert(binds(after[i], connection_id, user@));
        },
        (None, Some(k)) => {
            assert(k < bindings.len());
            assert(binds(bindings[k], connection_id, user@));
        },
        (None, None) => {},
    }
}

/// Taking over a template from the server changes what an account may do, and nothing that
/// the account has of its own.
pub proof fn templates_leave_credentials_alone(
    bindings: Seq<Binding>,
    connection_id: u128,
    account: String,
    access: WorkspaceConnectionAccess,
    allow_writes: bool,
    now: i128,
)
    requires
        is_bound(bindings, connection_id, account@),
    ensures
        ({
            let after = with_grant(bindings, connection_id, account, access, allow_writes, now);
            &&& binding_row(bindings, connection_id, Some(account)) matches Some(before)
            &&& binding_row(after, connection_id, Some(account)) == Some(
                Binding {
                    workspace_access: access,
                    allow_writes,
                    updated_at: now,
                    ..before
                },
            )
        }),
{
    let after = with_grant(bindings, connection_id, account, access, allow_writes, now);
    rows_are_found_alike(bindings, after, connection_id, account);
    found_row_binds(bindings, connection_id, account);
    found_row_binds(after, connection_id, account);
}

/// The settings that were stored for a connection are read back, and those of every other
/// connection are as they were.
pub proof fn settings_are_read_back(
    safety: Seq<SafetyRow>,
    connection_id: u128,
    settings: SafetySettings,
    other: u128,
)
    ensures
        safety_of(with_settings(safety, connection_id, settings), connection_id) == Some(settings),
        other != connection_id ==> safety_of(
            with_settings(safety, connection_id, settings),
            other,
        ) == safety_of(safety, other),
    decreases safety.len(),
{
    if safety_of(safety, connection_id) is Some {
        replaced_settings(safety, connection_id, settings, connection_id);
        replaced_settings(safety, connection_id, settings, other);
    } else {
        appended_settings(safety, SafetyRow { connection_id, settings }, connection_id);
        appended_settings(safety, SafetyRow { connection_id, settings }, other);
    }
}

spec fn replaced(safety: Seq<SafetyRow>, connection_id: u128, settings: SafetySettings) -> Seq<
    SafetyRow,
> {
    Seq::new(
        safety.len(),
        |i: int|
            if safety[i].connection_id == connection_id {
                SafetyRow { connection_id, settings }
            } else {
                safety[i]
            },
    )
}

proof fn replaced_settings(
    safety: Seq<SafetyRow>,
    connection_id: u128,
    settings: SafetySettings,
    id: u128,
)
    ensures
        safety_of(replaced(safety, connection_id, settings), id) == if id == connection_id
            && safety_of(safety, id) is Some {
            Some(settings)
        } else {
            safety_of(safety, id)
        },
    decreases safety.len(),
{
    let after = replaced(safety, connection_id, settings);
    if safety.len() > 0 {
        assert(after.drop_first() =~= replaced(safety.drop_first(), connection_id, settings));
        replaced_settings(safety.drop_first(), connection_id, settings, id);
    }
}

proof fn appended_settings(safety: Seq<SafetyRow>, row: SafetyRow, id: u128)
    ensures
        safety_of(safety.push(row), id) == match safety_of(safety, id) {
            Some(settings) => Some(settings),
            None => if row.connection_id == id {
                Some(row.settings)
            } else {
                None
            },
        },
    decreases safety.len(),
{
    let after = safety.push(row);
    if safety.len() > 0 {
        assert(after[0] == safety[0]);
        assert(after.drop_first() =~= safety.drop_first().push(row));
        appended_settings(safety.drop_first(), row, id);
    } else {
        assert(after.drop_first() =~= Seq::empty());
        assert(after[0] == row);
        assert(safety_of(after.drop_first(), id) is None);
    }
}

/// A catalog that was cached is read back in its scope; in every other scope, and for every
/// other connection, what was cached stays.
pub proof fn catalogs_are_read_back(
    catalogs: Seq<CacheRow>,
    connection_id: u128,
    scope: Text,
    catalog_json: String,
    now: i128,
    other: u128,
    other_scope: Seq<char>,
)
    ensures
        catalog_row(
            with_catalog(catalogs, connection_id, scope, catalog_json, now),
            connection_id,
            scope@,
        ) == Some(catalog_json),
        (other != connection_id || other_scope != scope@) ==> catalog_row(
            with_catalog(catalogs, connection_id, scope, catalog_json, now),
            other,
            other_scope,
        ) == catalog_row(catalogs, other, other_scope),
{
    if has_catalog(catalogs, connection_id, scope@) {
        renewed_catalog(catalogs, connection_id, scope, catalog_json, now, connection_id, scope@);
        renewed_catalog(catalogs, connection_id, scope, catalog_json, now, other, other_scope);
    } else {
        let row = CacheRow {
            connection_id,
            account_scope: scope,
            introspected_at: now,
            catalog_json,
        };
        appended_catalog(catalogs, row, connection_id, scope@);
        appended_catalog(catalogs, row, other, other_scope);
        no_catalog(catalogs, connection_id, scope@);
    }
}

spec fn renewed(
    catalogs: Seq<CacheRow>,
    connection_id: u128,
    scope: Text,
    catalog_json: String,
    now: i128,
) -> Seq<CacheRow> {
    Seq::new(
        catalogs.len(),
        |i: int|
            if is_catalog_of(catalogs[i], connection_id, scope@) {
                CacheRow { introspected_at: now, catalog_json, ..catalogs[i] }
            } else {
                catalogs[i]
            },
    )
}

proof fn renewed_catalog(
    catalogs: Seq<CacheRow>,
    connection_id: u128,
    scope: Text,
    catalog_json: String,
    now: i128,
    id: u128,
    looked_up: Seq<char>,
)
    ensures
        catalog_row(renewed(catalogs, connection_id, scope, catalog_json, now), id, looked_up)
            == if id == connection_id && looked_up == scope@ && has_catalog(
            catalogs,
            id,
            looked_up,
        ) {
            Some(catalog_json)
        } else {
            catalog_row(catalogs, id, looked_up)
        },
    decreases catalogs.len(),
{
    let after = renewed(catalogs, connection_id, scope, catalog_json, now);
    if catalogs.len() > 0 {
        let rest = catalogs.drop_first();
        assert(after.drop_first() =~= renewed(rest, connection_id, scope, catalog_json, now));
        renewed_catalog(rest, connection_id, scope, catalog_json, now, id, looked_up);
        assert forall|j: int| 0 < j < catalogs.len() implies #[trigger] catalogs[j] == rest[j
            - 1] by {}
        if !is_catalog_of(catalogs[0], id, looked_up) {
            if has_catalog(catalogs, id, looked_up) {
                let at = choose|i: int|
                    0 <= i < catalogs.len() && is_catalog_of(
                        #[trigger] catalogs[i],
                        id,
                        looked_up,
                    );
                assert(is_catalog_of(rest[at - 1], id, looked_up));
            }
            if has_catalog(rest, id, looked_up) {
                let at = choose|i: int|
                    0 <= i < rest.len() && is_catalog_of(#[trigger] rest[i], id, looked_up);
                assert(is_catalog_of(catalogs[at + 1], id, looked_up));
            }
        } else {
            assert(has_catalog(catalogs, id, looked_up));
        }
    }
}

proof fn appended_catalog(catalogs: Seq<CacheRow>, row: CacheRow, id: u128, scope: Seq<char>)
    ensures
        catalog_row(catalogs.push(row), id, scope) == match catalog_row(catalogs, id, scope) {
            Some(json) => Some(json),
            None => if is_catalog_of(row, id, scope) {
                Some(row.catalog_json)
            } else {
                None
            },
        },
    decreases catalogs.len(),
{
    let after = catalogs.push(row);
    if catalogs.len() > 0 {
        assert(after[0] == catalogs[0]);
        assert(after.drop_first() =~= catalogs.drop_first().push(row));
        appended_catalog(catalogs.drop_first(), row, id, scope);
    } else {
        assert(after.drop_first() =~= Seq::empty());
        assert(after[0] == row);
        assert(catalog_row(after.drop_first(), id, scope) is None);
    }
}

proof fn no_catalog(catalogs: Seq<CacheRow>, id: u128, scope: Seq<char>)
    requires
        !has_catalog(catalogs, id, scope),
    ensures
        catalog_row(catalogs, id, scope) is None,
    decreases catalogs.len(),
{
    if catalogs.len() > 0 {
        assert(!is_catalog_of(catalogs[0], id, scope));
        let rest = catalogs.drop_first();
        assert forall|i: int| 0 <= i < rest.len() implies !is_catalog_of(
            #[trigger] rest[i],
            id,
            scope,
        ) by {
            assert(rest[i] == catalogs[i + 1]);
        }
        no_catalog(rest, id, scope);
    }
}

/// A catalog that was dropped is not read back, and what is cached in every other scope, or
/// for every other connection, stays.
pub proof fn dropped_catalogs_are_gone(
    catalogs: Seq<CacheRow>,
    connection_id: u128,
    scope: Seq<char>,
    other: u128,
    other_scope: Seq<char>,
)
    ensures
        catalog_row(without_catalog(catalogs, connection_id, scope), connection_id, scope) is None,
        (other != connection_id || other_scope != scope) ==> catalog_row(
            without_catalog(catalogs, connection_id, scope),
            other,
            other_scope,
        ) == catalog_row(catalogs, other, other_scope),
    decreases catalogs.len(),
{
    if catalogs.len() > 0 {
        let rest = catalogs.drop_last();
        dropped_catalogs_are_gone(rest, connection_id, scope, other, other_scope);
        assert(catalogs =~= rest.push(catalogs.last()));
        appended_catalog(rest, catalogs.last(), other, other_scope);
        appended_catalog(
            without_catalog(rest, connection_id, scope),
            catalogs.last(),
            connection_id,
            scope,
        );
        appended_catalog(
            without_catalog(rest, connection_id, scope),
            catalogs.last(),
            other,
            other_scope,
        );
    }
}

/// A history shows only lines of its connection and its scope, and all of them.
pub proof fn histories_keep_to_their_scope(
    history: Seq<HistoryRow>,
    connection_id: u128,
    scope: Seq<char>,
    row: HistoryRow,
)
    ensures
        lines_of(history, connection_id, scope).contains(row) <==> history.contains(row)
            && row.entry.connection_id == connection_id && row.account_scope@ == scope,
    decreases history.len(),
{
    if history.len() > 0 {
        let rest = history.drop_last();
        histories_keep_to_their_scope(rest, connection_id, scope, row);
        let earlier = lines_of(rest, connection_id, scope);
        assert(history =~= rest.push(history.last()));
        push_contains(rest, history.last(), row);
        push_contains(earlier, history.last(), row);
    }
}

proof fn push_contains<T>(rows: Seq<T>, last: T, row: T)
    ensures
        rows.push(last).contains(row) <==> rows.contains(row) || row == last,
{
    let after = rows.push(last);
    if rows.contains(row) {
        let at = choose|i: int| 0 <= i < rows.len() && rows[i] == row;
        assert(after[at] == row);
    }
    assert(after[rows.len() as int] == last);
    if after.contains(row) {
        let at = choose|i: int| 0 <= i < after.len() && after[i] == row;
        if at < rows.len() {
            assert(rows[at] == row);
        }
    }
}

/// The title of a chat is set by the first turn that has one, and by no later turn.
pub proof fn titles_are_set_once(
    thread: ChatThread,
    session: Option<String>,
    model: Option<String>,
    effort: Option<String>,
    first: String,
    second: String,
    now: i128,
    later: i128,
)
    requires
        first@.len() > 0,
    ensures
        ({
            let once = after_turn(thread, session, model, effort, first, now);
            after_turn(once, session, model, effort, second, later).title == once.title
        }),
{
}

/// A chat that was begun is read back; one that was deleted is not.
pub proof fn chats_are_read_back(
    tables: Tables,
    thread: ChatThread,
    workspace_id: u128,
    account_scope: Text,
)
    requires
        thread.connection_id is Some,
        new_chat_scope(tables, thread.connection_id->0, thread.id) == Ok::<(u128, Text), AppError>(
            (workspace_id, account_scope),
        ),
    ensures
        ({
            let begun = Tables {
                threads: tables.threads.push(ThreadRow { thread, workspace_id, account_scope }),
                ..tables
            };
            let ended = Tables {
                threads: without_thread(
                    begun.threads,
                    thread.id,
                    workspace_id,
                    account_scope@,
                ),
                ..begun
            };
            &&& thread_lookup(begun, thread.id) == Ok::<ChatThread, AppError>(thread)
            &&& thread_lookup(ended, thread.id) == Err::<ChatThread, AppError>(
                no_thread(thread.id),
            )
        }),
{
    let row = ThreadRow { thread, workspace_id, account_scope };
    appended_thread(tables.threads, row, thread.id, workspace_id, account_scope@);
    deleted_thread(tables.threads.push(row), thread.id, workspace_id, account_scope@);
    let begun = Tables { threads: tables.threads.push(row), ..tables };
    let ended = Tables {
        threads: without_thread(begun.threads, thread.id, workspace_id, account_scope@),
        ..begun
    };
    assert(chat_scope(begun) == chat_scope(tables));
    assert(chat_scope(ended) == chat_scope(tables));
}

proof fn appended_thread(
    threads: Seq<ThreadRow>,
    row: ThreadRow,
    id: u128,
    workspace_id: u128,
    scope: Seq<char>,
)
    requires
        is_thread(row, id, workspace_id, scope),
        forall|i: int| 0 <= i < threads.len() ==> (#[trigger] threads[i]).thread.id != id,
    ensures
        thread_row(threads.push(row), id, workspace_id, scope) == Some(row),
    decreases threads.len(),
{
    let after = threads.push(row);
    if threads.len() > 0 {
        let rest = threads.drop_first();
        assert(after.drop_first() =~= rest.push(row));
        assert forall|i: int| 0 <= i < rest.len() implies (#[trigger] rest[i]).thread.id != id by {
            assert(rest[i] == threads[i + 1]);
        }
        assert(after[0] == threads[0]);
        appended_thread(rest, row, id, workspace_id, scope);
    } else {
        assert(after[0] == row);
    }
}

/// A chat that was deleted is not found any more.
pub proof fn deleted_thread(threads: Seq<ThreadRow>, id: u128, workspace_id: u128, scope: Seq<char>)
    ensures
        thread_row(
            without_thread(threads, id, workspace_id, scope),
            id,
            workspace_id,
            scope,
        ) is None,
    decreases threads.len(),
{
    if threads.len() > 0 {
        let rest = without_thread(threads.drop_last(), id, workspace_id, scope);
        deleted_thread(threads.drop_last(), id, workspace_id, scope);
        if !is_thread(threads.last(), id, workspace_id, scope) {
            appended_other_thread(rest, threads.last(), id, workspace_id, scope);
        }
    }
}

proof fn appended_other_thread(
    threads: Seq<ThreadRow>,
    row: ThreadRow,
    id: u128,
    workspace_id: u128,
    scope: Seq<char>,
)
    requires
        !is_thread(row, id, workspace_id, scope),
    ensures
        thread_row(threads.push(row), id, workspace_id, scope) == thread_row(
            threads,
            id,
            workspace_id,
            scope,
        ),
    decreases threads.len(),
{
    let after = threads.push(row);
    if threads.len() > 0 {
        assert(after[0] == threads[0]);
        assert(after.drop_first() =~= threads.drop_first().push(row));
        appended_other_thread(threads.drop_first(), row, id, workspace_id, scope);
    } else {
        assert(after.drop_first() =~= Seq::empty());
        assert(after[0] == row);
        assert(thread_row(after.drop_first(), id, workspace_id, scope) is None);
    }
}

/// A dashboard that was saved is read back as it was returned, and the listing of its connection
/// has it besides what was listed before, under an id that no dashboard had.
pub proof fn dashboards_are_read_back(
    tables: Tables,
    draft: DashboardDraft,
    visualization_json: String,
    id: u128,
    outbox_id: u128,
    now: i128,
)
    requires
        dashboard_refusal(tables, draft.connection_id, id) is None,
    ensures
        !has_dashboard(tables.dashboards, id),
        ({
            let after = with_dashboard(tables, draft, visualization_json, id, outbox_id, now);
            let workspace_id = active_workspace_of(tables)->Ok_0.id;
            let row = new_dashboard(draft, visualization_json, workspace_id, id, now);
            &&& dashboard_lookup(after, id) == Ok::<DashboardRow, AppError>(row)
            &&& drawn(row, draft.visualization) == dashboard_of(draft, id, now)
            &&& active_workspace_of(after) == active_workspace_of(tables)
            &&& arranged(
                dashboards_of(
                    after.dashboards,
                    after.connections,
                    draft.connection_id,
                    workspace_id,
                ),
            ).to_multiset() == arranged(
                dashboards_of(
                    tables.dashboards,
                    tables.connections,
                    draft.connection_id,
                    workspace_id,
                ),
            ).to_multiset().insert(row)
        }),
{
    let workspace_id = active_workspace_of(tables)->Ok_0.id;
    let row = new_dashboard(draft, visualization_json, workspace_id, id, now);
    let after = with_dashboard(tables, draft, visualization_json, id, outbox_id, now);
    assert(active_workspace_of(after) == active_workspace_of(tables));
    appended_dashboard(tables.dashboards, tables.connections, row, id, workspace_id);
    let listed = dashboards_of(
        tables.dashboards,
        tables.connections,
        draft.connection_id,
        workspace_id,
    );
    assert(after.dashboards.drop_last() =~= tables.dashboards);
    arranging_keeps_the_rows(listed);
    arranging_keeps_the_rows(listed.push(row));
    vstd::seq_lib::to_multiset_build(listed, row);
}

proof fn appended_dashboard(
    dashboards: Seq<DashboardRow>,
    connections: Seq<ConnectionRow>,
    row: DashboardRow,
    id: u128,
    workspace_id: u128,
)
    requires
        row.id == id,
        shows_dashboard(row, connections, workspace_id),
        forall|i: int| 0 <= i < dashboards.len() ==> (#[trigger] dashboards[i]).id != id,
    ensures
        shown_dashboard(dashboards.push(row), connections, id, workspace_id) == Some(row),
    decreases dashboards.len(),
{
    let after = dashboards.push(row);
    if dashboards.len() > 0 {
        let rest = dashboards.drop_first();
        assert(after.drop_first() =~= rest.push(row));
        assert forall|i: int| 0 <= i < rest.len() implies (#[trigger] rest[i]).id != id by {
            assert(rest[i] == dashboards[i + 1]);
        }
        assert(after[0] == dashboards[0]);
        appended_dashboard(rest, connections, row, id, workspace_id);
    } else {
        assert(after[0] == row);
    }
}

/// A line that was added to the history is read back.
pub proof fn history_is_read_back(tables: Tables, entry: HistoryEntry, account_scope: Text)
    requires
        line_scope(tables, entry) == Ok::<Text, AppError>(account_scope),
    ensures
        history_lookup(
            Tables {
                history: tables.history.push(HistoryRow { entry, account_scope }),
                ..tables
            },
            entry.id,
        ) == Ok::<HistoryEntry, AppError>(entry),
{
    let row = HistoryRow { entry, account_scope };
    let after = Tables { history: tables.history.push(row), ..tables };
    assert(active_workspace_of(after) == active_workspace_of(tables));
    assert(local_scope(after) == local_scope(tables));
    appended_line(
        tables.history,
        tables.connections,
        row,
        entry.id,
        active_workspace_of(tables)->Ok_0.id,
        account_scope@,
    );
}

proof fn appended_line(
    history: Seq<HistoryRow>,
    connections: Seq<ConnectionRow>,
    row: HistoryRow,
    id: u128,
    workspace_id: u128,
    scope: Seq<char>,
)
    requires
        row.entry.id == id,
        row.account_scope@ == scope,
        is_live(connections, row.entry.connection_id, workspace_id),
        forall|i: int| 0 <= i < history.len() ==> (#[trigger] history[i]).entry.id != id,
    ensures
        line_row(history.push(row), connections, id, workspace_id, scope) == Some(row),
    decreases history.len(),
{
    let after = history.push(row);
    if history.len() > 0 {
        let rest = history.drop_first();
        assert(after.drop_first() =~= rest.push(row));
        assert forall|i: int| 0 <= i < rest.len() implies (#[trigger] rest[i]).entry.id != id by {
            assert(rest[i] == history[i + 1]);
        }
        assert(after[0] == history[0]);
        appended_line(rest, connections, row, id, workspace_id, scope);
    } else {
        assert(after[0] == row);
    }
}

/// The workspace that was chosen is the active one, and in a team the account that chose it
/// belongs to it.
pub proof fn the_chosen_workspace_is_active(
    tables: Tables,
    id: u128,
    account: Option<String>,
    now: i128,
)
    requires
        selection(tables, id, account) is Ok,
    ensures
        ({
            let workspace = selection(tables, id, account)->Ok_0;
            let after = selected(tables, workspace, account, now);
            &&& workspace.id == id
            &&& active_workspace_of(after) == Ok::<Workspace, AppError>(workspace)
            &&& local_scope(after) is Ok
            &&& workspace.kind == WorkspaceKind::Team ==> account is Some && is_member(
                after.members,
                id,
                account->0@,
            )
        }),
{
    active_row_has_the_id(tables.workspaces, id);
}

} // verus!
