//! Which rows the listings of the store have, and which they leave out.
use vstd::prelude::*;

use crate::error::AppResult;
use crate::model::{
    ChatMessageRecord, ChatThread, ConnectionProfile, HistoryEntry, Workspace,
    WorkspaceAuthAccount, WorkspaceKind, WorkspaceLifecycleState,
};
use crate::store::chat::{
    chat_scope, messages_of, own_rows, thread_row, without_messages, without_thread,
};
use crate::store::connections::{
    binding_row, listing, profile_views, row_of, safety_of, seen_profile, shown_rows, viewer,
};
use crate::store::dashboards::{dashboards_of, shows_dashboard};
use crate::store::directory::{
    active_rows, is_member, lists_account, rows_of, without_account, without_user,
};
use crate::store::order::arranged;
use crate::store::records::{lines_of, record_scope, without_catalog};
use crate::store::remote::{
    first_conflict, is_cached, is_template, purged, sync_refusal, without_owner, without_template,
    Dependent, Template,
};
use crate::store::tables::{
    Account, Binding, CacheRow, ConnectionRow, DashboardRow, HistoryRow, Member, SafetyRow, Store,
    Tables, ThreadRow,
};

verus! {

/// The connections that are shown are those of the workspace that are not deleted and, in a
/// team, are shared or the account's own: all of them, in order.
pub proof fn shown_rows_are_all_that_are_shown(
    connections: Seq<ConnectionRow>,
    workspace_id: u128,
    kind: WorkspaceKind,
    account: Option<String>,
)
    ensures
        shown_rows(connections, workspace_id, kind, account) == connections.filter(
            |row: ConnectionRow| row.workspace_id == workspace_id && row.deleted_at is None && (kind
                == WorkspaceKind::Personal || row.remote_id is Some || (row.account_user_id is Some
                && account is Some && row.account_user_id->0@ == account->0@)),
        ),
    decreases connections.len(),
{
    reveal(Seq::filter);
    if connections.len() > 0 {
        shown_rows_are_all_that_are_shown(connections.drop_last(), workspace_id, kind, account);
    }
}

/// The chats of a scope are those of its workspace and its account: all of them, in order.
pub proof fn own_chats_are_all_of_the_scope(threads: Seq<ThreadRow>, workspace_id: u128, scope: Seq<char>)
    ensures
        own_rows(threads, workspace_id, scope) == threads.filter(
            |row: ThreadRow| row.workspace_id == workspace_id && row.account_scope@ == scope,
        ),
    decreases threads.len(),
{
    reveal(Seq::filter);
    if threads.len() > 0 {
        own_chats_are_all_of_the_scope(threads.drop_last(), workspace_id, scope);
    }
}

/// Deleting a chat leaves every other, and every one of another scope, in order.
pub proof fn a_deleted_chat_leaves_the_others(
    threads: Seq<ThreadRow>,
    id: u128,
    workspace_id: u128,
    scope: Seq<char>,
)
    ensures
        without_thread(threads, id, workspace_id, scope) == threads.filter(
            |row: ThreadRow|
                !(row.thread.id == id && row.workspace_id == workspace_id && row.account_scope@
                    == scope),
        ),
    decreases threads.len(),
{
    reveal(Seq::filter);
    if threads.len() > 0 {
        a_deleted_chat_leaves_the_others(threads.drop_last(), id, workspace_id, scope);
    }
}

/// The messages of a chat are those that name it: all of them, in order.
pub proof fn messages_are_all_of_the_chat(messages: Seq<ChatMessageRecord>, thread_id: u128)
    ensures
        messages_of(messages, thread_id) == messages.filter(
            |row: ChatMessageRecord| row.thread_id == thread_id,
        ),
    decreases messages.len(),
{
    reveal(Seq::filter);
    if messages.len() > 0 {
        messages_are_all_of_the_chat(messages.drop_last(), thread_id);
    }
}

/// Deleting the messages of a chat leaves those of every other, in order.
pub proof fn deleted_messages_are_all_of_the_chat(messages: Seq<ChatMessageRecord>, thread_id: u128)
    ensures
        without_messages(messages, thread_id) == messages.filter(
            |row: ChatMessageRecord| row.thread_id != thread_id,
        ),
    decreases messages.len(),
{
    reveal(Seq::filter);
    if messages.len() > 0 {
        deleted_messages_are_all_of_the_chat(messages.drop_last(), thread_id);
    }
}

/// The history of a connection in a scope is every line that names both, in order.
pub proof fn lines_are_all_of_the_connection(history: Seq<HistoryRow>, connection_id: u128, scope: Seq<char>)
    ensures
        lines_of(history, connection_id, scope) == history.filter(
            |row: HistoryRow|
                row.entry.connection_id == connection_id && row.account_scope@ == scope,
        ),
    decreases history.len(),
{
    reveal(Seq::filter);
    if history.len() > 0 {
        lines_are_all_of_the_connection(history.drop_last(), connection_id, scope);
    }
}

/// Dropping a catalog leaves those of every other connection and scope, in order.
pub proof fn a_dropped_catalog_leaves_the_others(catalogs: Seq<CacheRow>, connection_id: u128, scope: Seq<char>)
    ensures
        without_catalog(catalogs, connection_id, scope) == catalogs.filter(
            |row: CacheRow| !(row.connection_id == connection_id && row.account_scope@ == scope),
        ),
    decreases catalogs.len(),
{
    reveal(Seq::filter);
    if catalogs.len() > 0 {
        a_dropped_catalog_leaves_the_others(catalogs.drop_last(), connection_id, scope);
    }
}

/// The dashboards of a connection are those that name it and are shown in the workspace: all
/// of them, in order.
pub proof fn dashboards_are_all_of_the_connection(
    dashboards: Seq<DashboardRow>,
    connections: Seq<ConnectionRow>,
    connection_id: u128,
    workspace_id: u128,
)
    ensures
        dashboards_of(dashboards, connections, connection_id, workspace_id) == dashboards.filter(
            |row: DashboardRow| row.connection_id == connection_id && shows_dashboard(
                row,
                connections,
                workspace_id,
            ),
        ),
    decreases dashboards.len(),
{
    reveal(Seq::filter);
    if dashboards.len() > 0 {
        dashboards_are_all_of_the_connection(
            dashboards.drop_last(),
            connections,
            connection_id,
            workspace_id,
        );
    }
}

/// The workspaces that are listed are the active ones: all of them.
pub proof fn active_workspaces_are_all_that_are_active(workspaces: Seq<Workspace>)
    ensures
        active_rows(workspaces) == workspaces.filter(
            |row: Workspace| row.lifecycle_state == WorkspaceLifecycleState::Active,
        ),
    decreases workspaces.len(),
{
    reveal(Seq::filter);
    if workspaces.len() > 0 {
        active_workspaces_are_all_that_are_active(workspaces.drop_last());
    }
}

/// The memberships of a user are those of theirs that hold: all of them.
pub proof fn memberships_are_all_that_hold(members: Seq<Member>, user_id: Seq<char>)
    ensures
        rows_of(members, user_id) == members.filter(
            |row: Member| row.active && row.user_id is Some && row.user_id->0@ == user_id,
        ),
    decreases members.len(),
{
    reveal(Seq::filter);
    if members.len() > 0 {
        memberships_are_all_that_hold(members.drop_last(), user_id);
    }
}

/// Removing a user leaves the memberships of every other, in order.
pub proof fn a_removed_user_has_no_memberships(members: Seq<Member>, user_id: Seq<char>)
    ensures
        without_user(members, user_id) == members.filter(
            |row: Member| !(row.user_id is Some && row.user_id->0@ == user_id),
        ),
    decreases members.len(),
{
    reveal(Seq::filter);
    if members.len() > 0 {
        a_removed_user_has_no_memberships(members.drop_last(), user_id);
    }
}

/// Removing an account leaves every other, in order.
pub proof fn a_removed_account_leaves_the_others(accounts: Seq<Account>, user_id: Seq<char>)
    ensures
        without_account(accounts, user_id) == accounts.filter(
            |row: Account| row.user.id@ != user_id,
        ),
    decreases accounts.len(),
{
    reveal(Seq::filter);
    if accounts.len() > 0 {
        a_removed_account_leaves_the_others(accounts.drop_last(), user_id);
    }
}

/// Dropping a cached template leaves every other connection, in order.
pub proof fn a_purged_template_leaves_the_others(connections: Seq<ConnectionRow>, workspace_id: u128, id: u128)
    ensures
        without_template(connections, workspace_id, id) == connections.filter(
            |row: ConnectionRow|
                !(row.id == id && row.workspace_id == workspace_id && row.remote_id == Some(id)),
        ),
    decreases connections.len(),
{
    reveal(Seq::filter);
    if connections.len() > 0 {
        a_purged_template_leaves_the_others(connections.drop_last(), workspace_id, id);
    }
}

/// Dropping what belongs to a connection leaves what belongs to every other, in order.
pub proof fn purged_rows_are_all_of_the_connection<T: Dependent>(rows: Seq<T>, id: u128)
    ensures
        without_owner(rows, id) == rows.filter(
            |row: T| row.belongs_to() != id,
        ),
    decreases rows.len(),
{
    reveal(Seq::filter);
    if rows.len() > 0 {
        purged_rows_are_all_of_the_connection(rows.drop_last(), id);
    }
}

/// What belongs to a connection is what names it.
pub proof fn rows_belong_to_the_connection_they_name(
    binding: Binding,
    settings: SafetyRow,
    line: HistoryRow,
    dashboard: DashboardRow,
    catalog: CacheRow,
)
    ensures
        binding.belongs_to() == binding.connection_id,
        settings.belongs_to() == settings.connection_id,
        line.belongs_to() == line.entry.connection_id,
        dashboard.belongs_to() == dashboard.connection_id,
        catalog.belongs_to() == catalog.connection_id,
{
}

/// Dropping a cached template takes everything that belongs to it and leaves the rest; where
/// it is not cached, nothing changes.
pub proof fn purging_takes_what_belongs(tables: Tables, workspace_id: u128, id: u128)
    ensures
        ({
            let after = purged(tables, workspace_id, id);
            let cached = exists|i: int|
                0 <= i < tables.connections.len() && (#[trigger] tables.connections[i]).id == id
                    && tables.connections[i].workspace_id == workspace_id
                    && tables.connections[i].remote_id == Some(id);
            &&& !cached ==> after == tables
            &&& cached ==> after == (Tables {
                connections: without_template(tables.connections, workspace_id, id),
                bindings: without_owner(tables.bindings, id),
                safety: without_owner(tables.safety, id),
                history: without_owner(tables.history, id),
                dashboards: without_owner(tables.dashboards, id),
                schema_cache: without_owner(tables.schema_cache, id),
                ..tables
            })
        }),
{
    let cached = exists|i: int|
        0 <= i < tables.connections.len() && (#[trigger] tables.connections[i]).id == id
            && tables.connections[i].workspace_id == workspace_id
            && tables.connections[i].remote_id == Some(id);
    assert(cached == is_cached(tables.connections, workspace_id, id)) by {
        if cached {
            let i = choose|i: int|
                0 <= i < tables.connections.len() && (#[trigger] tables.connections[i]).id == id
                    && tables.connections[i].workspace_id == workspace_id
                    && tables.connections[i].remote_id == Some(id);
            assert(is_template(tables.connections[i], workspace_id, id));
        }
    }
}

/// What an account has of its own on a connection is found by both, and not found only where
/// it has nothing, or there is no account.
pub proof fn bindings_are_found(bindings: Seq<Binding>, connection_id: u128, user: Option<String>)
    ensures
        match binding_row(bindings, connection_id, user) {
            Some(found) => {
                &&& user is Some && bindings.contains(found)
                &&& found.connection_id == connection_id && found.account_user_id@ == user->0@
            },
            None => user is None || forall|k: int|
                0 <= k < bindings.len() ==> !((#[trigger] bindings[k]).connection_id == connection_id
                    && bindings[k].account_user_id@ == user->0@),
        },
    decreases bindings.len(),
{
    if bindings.len() > 0 && user is Some {
        let rest = bindings.drop_first();
        bindings_are_found(rest, connection_id, user);
        assert(bindings.contains(bindings[0]));
        match binding_row(rest, connection_id, user) {
            Some(found) => {
                let k = choose|k: int| 0 <= k < rest.len() && rest[k] == found;
                assert(bindings[k + 1] == found);
            },
            None => {
                assert forall|k: int| 0 < k < bindings.len() implies !((
                #[trigger] bindings[k]).connection_id == connection_id
                    && bindings[k].account_user_id@ == user->0@) by {
                    assert(rest[k - 1] == bindings[k]);
                }
            },
        }
    }
}

/// The settings of a connection are found by it, and not found only where it has none.
pub proof fn settings_are_found(safety: Seq<SafetyRow>, id: u128)
    ensures
        match safety_of(safety, id) {
            Some(found) => exists|k: int|
                0 <= k < safety.len() && (#[trigger] safety[k]).connection_id == id
                    && safety[k].settings == found,
            None => forall|k: int|
                0 <= k < safety.len() ==> (#[trigger] safety[k]).connection_id != id,
        },
    decreases safety.len(),
{
    if safety.len() > 0 {
        let rest = safety.drop_first();
        settings_are_found(rest, id);
        if safety[0].connection_id != id {
            match safety_of(rest, id) {
                Some(found) => {
                    let k = choose|k: int|
                        0 <= k < rest.len() && (#[trigger] rest[k]).connection_id == id
                            && rest[k].settings == found;
                    assert(safety[k + 1].connection_id == id);
                },
                None => {
                    assert forall|k: int| 0 <= k < safety.len() implies (
                    #[trigger] safety[k]).connection_id != id by {
                        if k > 0 {
                            assert(rest[k - 1] == safety[k]);
                        }
                    }
                },
            }
        } else {
            assert(safety[0].connection_id == id);
        }
    }
}

/// Templates are taken over only for a member of the workspace, and only where no other
/// workspace has one of their ids.
pub proof fn templates_are_taken_over_by_members(
    tables: Tables,
    workspace_id: u128,
    account: String,
    templates: Seq<Template>,
)
    ensures
        sync_refusal(tables, workspace_id, account, templates) is None <==> is_member(
            tables.members,
            workspace_id,
            account@,
        ) && forall|k: int|
            0 <= k < templates.len() ==> (row_of(
                tables.connections,
                (#[trigger] templates[k]).0.id,
            ) matches Some(row) ==> row.workspace_id == workspace_id),
{
    conflicts_are_of_other_workspaces(tables.connections, workspace_id, templates);
}

proof fn conflicts_are_of_other_workspaces(
    connections: Seq<ConnectionRow>,
    workspace_id: u128,
    templates: Seq<Template>,
)
    ensures
        first_conflict(connections, workspace_id, templates) is None <==> forall|k: int|
            0 <= k < templates.len() ==> (row_of(
                connections,
                (#[trigger] templates[k]).0.id,
            ) matches Some(row) ==> row.workspace_id == workspace_id),
    decreases templates.len(),
{
    if templates.len() > 0 {
        let rest = templates.drop_first();
        conflicts_are_of_other_workspaces(connections, workspace_id, rest);
        assert(forall|k: int| 0 < k < templates.len() ==> rest[k - 1] == #[trigger] templates[k]);
        assert(forall|k: int| 0 <= k < rest.len() ==> templates[k + 1] == #[trigger] rest[k]);
        assert(templates[0] == templates.first());
    }
}

/// What the listings of the store hold: of the connections, those that are shown, each as
/// the account sees it; of the workspaces the active ones; of the accounts all, with their
/// memberships; and of the history and the chats those of the scope.
pub proof fn listings_hold_what_is_shown(
    store: Store,
    connection_id: u128,
    connections: AppResult<Vec<ConnectionProfile>>,
    workspaces: Vec<Workspace>,
    accounts: Vec<WorkspaceAuthAccount>,
    lines: AppResult<Vec<HistoryEntry>>,
    chats: AppResult<Vec<ChatThread>>,
    messages: AppResult<Vec<ChatMessageRecord>>,
    thread_id: u128,
    k: int,
)
    requires
        call_ensures(Store::list_connections, (&store,), connections),
        call_ensures(Store::list_workspaces, (&store,), workspaces),
        call_ensures(Store::workspace_accounts, (&store,), accounts),
        call_ensures(Store::list_history, (&store, connection_id), lines),
        call_ensures(Store::list_chat_threads, (&store,), chats),
        call_ensures(Store::list_chat_messages, (&store, thread_id), messages),
    ensures
        connections is Ok <==> viewer(store@) is Ok,
        connections matches Ok(listed) ==> {
            let (workspace_id, kind) = viewer(store@)->Ok_0;
            let rows = arranged(
                shown_rows(store@.connections, workspace_id, kind, store@.active_account),
            );
            &&& listed@.len() == rows.len()
            &&& 0 <= k < rows.len() ==> listed@[k]@ == seen_profile(
                rows[k],
                binding_row(store@.bindings, rows[k].id, store@.active_account),
            )
        },
        workspaces@ == arranged(active_rows(store@.workspaces)),
        accounts@.len() == arranged(store@.accounts).len(),
        0 <= k < accounts@.len() ==> {
            let account = arranged(store@.accounts)[k];
            let rows = arranged(rows_of(store@.members, account.user.id@));
            &&& accounts@[k].user == account.user
            &&& accounts@[k].memberships@.len() == rows.len()
            &&& forall|j: int|
                0 <= j < rows.len() ==> (#[trigger] accounts@[k].memberships@[j]).workspace_id
                    == rows[j].workspace_id && accounts@[k].memberships@[j].role == rows[j].role
        },
        lines matches Ok(listed) ==> {
            let rows = arranged(
                lines_of(store@.history, connection_id, record_scope(store@, connection_id)->Ok_0@),
            );
            &&& listed@.len() == rows.len()
            &&& 0 <= k < rows.len() ==> listed@[k] == rows[k].entry
        },
        chats matches Ok(listed) ==> {
            let (workspace_id, scope) = chat_scope(store@)->Ok_0;
            let rows = arranged(own_rows(store@.threads, workspace_id, scope@));
            &&& listed@.len() == rows.len()
            &&& 0 <= k < rows.len() ==> listed@[k] == rows[k].thread
        },
        messages matches Ok(listed) ==> {
            let (workspace_id, scope) = chat_scope(store@)->Ok_0;
            if thread_row(store@.threads, thread_id, workspace_id, scope@) is Some {
                listed@ == arranged(messages_of(store@.messages, thread_id))
            } else {
                listed@.len() == 0
            }
        },
{
    match connections {
        Ok(listed) => {
            assert(profile_views(listed@) == listing(store@)->Ok_0);
            assert(profile_views(listed@).len() == listed@.len());
            if 0 <= k < listed@.len() {
                assert(profile_views(listed@)[k] == listed@[k]@);
            }
        },
        Err(_) => {},
    }
    if 0 <= k < accounts@.len() {
        assert(lists_account(accounts@[k], arranged(store@.accounts)[k], store@.members));
    }
}

} // verus!
