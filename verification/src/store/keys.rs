//! What tells the rows of a table apart, and that it always does.
use vstd::prelude::*;

use crate::model::{
    ChatMessageRecord, ChatThread, ConnectionProfile, DashboardDraft, HistoryEntry, SafetySettings,
    Workspace, WorkspaceAuthUser, WorkspaceConnectionAccess,
};
use crate::store::chat::{
    is_thread, message_refusal, new_chat_scope, with_turn, without_messages, without_thread,
};
use crate::store::connections::{
    all_grouped, all_grouped_so_far, can_grow_by, deleted_row, grouped_row, revised, row_place, row_place_is_first, safety_of, saved, visible_row,
    with_safety,
};
use crate::store::dashboards::{
    dashboard_refusal, deletable_place, deletable_place_is_first, with_dashboard,
    without_dashboard,
};
use crate::store::directory::{
    account_row, active_row, home_of, remembered, removed, selected, with_used, without_account,
    without_deserted, without_user,
};
use crate::store::memberships::{
    all_put_away, binds, catalogs_collide, claimed, cleared, collides_at, concerns, has_catalog,
    is_bound, is_catalog_of, knows_member, knows_workspace, reports_personal, rescoped, settled,
    synced, taken_over, tidied, with_membership, with_moved, with_reported, with_team, Reported,
};
use crate::store::records::{line_scope, with_catalog, with_settings, without_catalog};
use crate::store::remote::{
    is_template, lets_write, pruned, purged, templates_synced, with_credential, with_grant,
    with_template, with_templates, without_owner, without_template, Dependent, Template,
};
use crate::store::startup::is_fresh;
use crate::store::tables::{
    Account, Binding, CacheRow, ConnectionRow, DashboardRow, HistoryRow, Member, OutboxEntry,
    OutboxOperation, SafetyRow, Tables, ThreadRow,
};
use crate::text::{is_text, Text};

verus! {

/// Whether no two rows have the same key.
pub open spec fn keyed<T, K>(rows: Seq<T>, key: spec_fn(T) -> K) -> bool {
    forall|i: int, j: int|
        #![trigger rows[i], rows[j]]
        0 <= i < j < rows.len() ==> key(rows[i]) != key(rows[j])
}

/// What tells connections apart.
pub open spec fn connection_key() -> spec_fn(ConnectionRow) -> u128 {
    |row: ConnectionRow| row.id
}

/// What tells workspaces apart.
pub open spec fn workspace_key() -> spec_fn(Workspace) -> u128 {
    |row: Workspace| row.id
}

/// What tells accounts apart.
pub open spec fn account_key() -> spec_fn(Account) -> Seq<char> {
    |row: Account| row.user.id@
}

/// What tells bindings apart.
pub open spec fn binding_key() -> spec_fn(Binding) -> (u128, Seq<char>) {
    |row: Binding| (row.connection_id, row.account_user_id@)
}

/// What tells safety settings apart.
pub open spec fn safety_key() -> spec_fn(SafetyRow) -> u128 {
    |row: SafetyRow| row.connection_id
}

/// What tells cached catalogs apart.
pub open spec fn catalog_key() -> spec_fn(CacheRow) -> (u128, Seq<char>) {
    |row: CacheRow| (row.connection_id, row.account_scope@)
}

/// What tells memberships apart.
pub open spec fn member_key() -> spec_fn(Member) -> u128 {
    |row: Member| row.id
}

/// What also tells memberships apart: a user has one in a workspace, however many there are
/// without a user.
pub open spec fn place_key() -> spec_fn(Member) -> (u128, Option<Seq<char>>, u128) {
    |row: Member|
        match row.user_id {
            Some(user_id) => (row.workspace_id, Some(user_id@), 0),
            None => (row.workspace_id, None, row.id),
        }
}

/// What tells the lines of the history apart.
pub open spec fn line_key() -> spec_fn(HistoryRow) -> u128 {
    |row: HistoryRow| row.entry.id
}

/// What tells dashboards apart.
pub open spec fn dashboard_key() -> spec_fn(DashboardRow) -> u128 {
    |row: DashboardRow| row.id
}

/// What tells chats apart.
pub open spec fn thread_key() -> spec_fn(ThreadRow) -> u128 {
    |row: ThreadRow| row.thread.id
}

/// What tells messages apart.
pub open spec fn message_key() -> spec_fn(ChatMessageRecord) -> u128 {
    |row: ChatMessageRecord| row.id
}

/// What tells the changes that the server is to hear of apart.
pub open spec fn change_key() -> spec_fn(OutboxEntry) -> u128 {
    |row: OutboxEntry| row.id
}

/// Whether the rows of every table can be told apart.
pub open spec fn well_keyed(tables: Tables) -> bool {
    &&& keyed(tables.members, member_key())
    &&& keyed(tables.members, place_key())
    &&& keyed(tables.history, line_key())
    &&& keyed(tables.dashboards, dashboard_key())
    &&& keyed(tables.threads, thread_key())
    &&& keyed(tables.messages, message_key())
    &&& keyed(tables.outbox, change_key())
    &&& keyed(tables.connections, connection_key())
    &&& keyed(tables.workspaces, workspace_key())
    &&& keyed(tables.accounts, account_key())
    &&& keyed(tables.bindings, binding_key())
    &&& keyed(tables.safety, safety_key())
    &&& keyed(tables.schema_cache, catalog_key())
}

/// Whether none of the changes that the server is to hear of has this id.
pub open spec fn is_new_change(outbox: Seq<OutboxEntry>, id: u128) -> bool {
    forall|i: int| 0 <= i < outbox.len() ==> (#[trigger] outbox[i]).id != id
}

/// Whether these ids are different ones, and no membership has one of them.
pub open spec fn are_new_members(members: Seq<Member>, ids: Seq<u128>) -> bool {
    &&& forall|i: int, j: int|
        0 <= i < j < ids.len() ==> (#[trigger] ids[i]) != (#[trigger] ids[j])
    &&& forall|i: int, k: int|
        0 <= i < members.len() && 0 <= k < ids.len() ==> (#[trigger] members[i]).id
            != #[trigger] ids[k]
}

proof fn mapping_keeps_keys<T, K>(before: Seq<T>, after: Seq<T>, key: spec_fn(T) -> K)
    requires
        keyed(before, key),
        before.len() == after.len(),
        forall|i: int| 0 <= i < before.len() ==> key(#[trigger] after[i]) == key(before[i]),
    ensures
        keyed(after, key),
{
    assert forall|i: int, j: int|
        #![trigger after[i], after[j]]
        0 <= i < j < after.len() implies key(after[i]) != key(after[j]) by {
        assert(key(before[i]) != key(before[j]));
    }
}

proof fn adding_keeps_keys<T, K>(rows: Seq<T>, row: T, key: spec_fn(T) -> K)
    requires
        keyed(rows, key),
        forall|i: int| 0 <= i < rows.len() ==> key(#[trigger] rows[i]) != key(row),
    ensures
        keyed(rows.push(row), key),
{
    let after = rows.push(row);
    assert forall|i: int, j: int|
        #![trigger after[i], after[j]]
        0 <= i < j < after.len() implies key(after[i]) != key(after[j]) by {
        assert(after[i] == rows[i]);
        if j < rows.len() {
            assert(after[j] == rows[j]);
        }
    }
}

/// Whether every row that is kept was there.
spec fn all_from<T>(kept: Seq<T>, rows: Seq<T>) -> bool {
    forall|i: int| 0 <= i < kept.len() ==> rows.contains(#[trigger] kept[i])
}

proof fn thinning_step<T, K>(kept: Seq<T>, rows: Seq<T>, row: T, keep: bool, key: spec_fn(T) -> K)
    requires
        keyed(rows.push(row), key),
        keyed(kept, key),
        all_from(kept, rows),
    ensures
        ({
            let after = if keep {
                kept.push(row)
            } else {
                kept
            };
            keyed(after, key) && all_from(after, rows.push(row))
        }),
{
    let all = rows.push(row);
    let after = if keep {
        kept.push(row)
    } else {
        kept
    };
    assert forall|i: int| 0 <= i < kept.len() implies all.contains(#[trigger] kept[i]) && key(
        kept[i],
    ) != key(row) by {
        let at = choose|k: int| 0 <= k < rows.len() && rows[k] == kept[i];
        assert(all[at] == kept[i]);
        assert(all[rows.len() as int] == row);
    }
    if keep {
        adding_keeps_keys(kept, row, key);
        assert forall|i: int| 0 <= i < after.len() implies all.contains(#[trigger] after[i]) by {
            if i < kept.len() {
                assert(after[i] == kept[i]);
            } else {
                assert(all[rows.len() as int] == row);
            }
        }
    }
}

proof fn shorter_is_keyed<T, K>(rows: Seq<T>, key: spec_fn(T) -> K)
    requires
        keyed(rows, key),
        rows.len() > 0,
    ensures
        keyed(rows.drop_last(), key),
        rows == rows.drop_last().push(rows.last()),
{
    let rest = rows.drop_last();
    assert(rows =~= rest.push(rows.last()));
    assert forall|i: int, j: int|
        #![trigger rest[i], rest[j]]
        0 <= i < j < rest.len() implies key(rest[i]) != key(rest[j]) by {
        assert(rest[i] == rows[i] && rest[j] == rows[j]);
    }
}

proof fn accounts_stay_keyed(accounts: Seq<Account>, user: Seq<char>)
    requires
        keyed(accounts, account_key()),
    ensures
        keyed(without_account(accounts, user), account_key()),
        all_from(without_account(accounts, user), accounts),
    decreases accounts.len(),
{
    if accounts.len() > 0 {
        shorter_is_keyed(accounts, account_key());
        accounts_stay_keyed(accounts.drop_last(), user);
        thinning_step(
            without_account(accounts.drop_last(), user),
            accounts.drop_last(),
            accounts.last(),
            accounts.last().user.id@ != user,
            account_key(),
        );
    }
}

proof fn members_stay_keyed<K>(members: Seq<Member>, user: Seq<char>, key: spec_fn(Member) -> K)
    requires
        keyed(members, key),
    ensures
        keyed(without_user(members, user), key),
        all_from(without_user(members, user), members),
    decreases members.len(),
{
    if members.len() > 0 {
        shorter_is_keyed(members, key);
        members_stay_keyed(members.drop_last(), user, key);
        thinning_step(
            without_user(members.drop_last(), user),
            members.drop_last(),
            members.last(),
            !is_text(members.last().user_id, user),
            key,
        );
    }
}

proof fn threads_stay_keyed(
    threads: Seq<ThreadRow>,
    id: u128,
    workspace_id: u128,
    scope: Seq<char>,
)
    requires
        keyed(threads, thread_key()),
    ensures
        keyed(without_thread(threads, id, workspace_id, scope), thread_key()),
        all_from(without_thread(threads, id, workspace_id, scope), threads),
    decreases threads.len(),
{
    if threads.len() > 0 {
        shorter_is_keyed(threads, thread_key());
        threads_stay_keyed(threads.drop_last(), id, workspace_id, scope);
        thinning_step(
            without_thread(threads.drop_last(), id, workspace_id, scope),
            threads.drop_last(),
            threads.last(),
            !is_thread(threads.last(), id, workspace_id, scope),
            thread_key(),
        );
    }
}

proof fn messages_stay_keyed(messages: Seq<ChatMessageRecord>, thread_id: u128)
    requires
        keyed(messages, message_key()),
    ensures
        keyed(without_messages(messages, thread_id), message_key()),
        all_from(without_messages(messages, thread_id), messages),
    decreases messages.len(),
{
    if messages.len() > 0 {
        shorter_is_keyed(messages, message_key());
        messages_stay_keyed(messages.drop_last(), thread_id);
        thinning_step(
            without_messages(messages.drop_last(), thread_id),
            messages.drop_last(),
            messages.last(),
            messages.last().thread_id != thread_id,
            message_key(),
        );
    }
}

proof fn connections_stay_keyed(connections: Seq<ConnectionRow>, workspace_id: u128, id: u128)
    requires
        keyed(connections, connection_key()),
    ensures
        keyed(without_template(connections, workspace_id, id), connection_key()),
        all_from(without_template(connections, workspace_id, id), connections),
    decreases connections.len(),
{
    if connections.len() > 0 {
        shorter_is_keyed(connections, connection_key());
        connections_stay_keyed(connections.drop_last(), workspace_id, id);
        thinning_step(
            without_template(connections.drop_last(), workspace_id, id),
            connections.drop_last(),
            connections.last(),
            !is_template(connections.last(), workspace_id, id),
            connection_key(),
        );
    }
}

proof fn dependents_stay_keyed<T: Dependent, K>(rows: Seq<T>, id: u128, key: spec_fn(T) -> K)
    requires
        keyed(rows, key),
    ensures
        keyed(without_owner(rows, id), key),
        all_from(without_owner(rows, id), rows),
    decreases rows.len(),
{
    if rows.len() > 0 {
        shorter_is_keyed(rows, key);
        dependents_stay_keyed(rows.drop_last(), id, key);
        thinning_step(
            without_owner(rows.drop_last(), id),
            rows.drop_last(),
            rows.last(),
            rows.last().belongs_to() != id,
            key,
        );
    }
}

proof fn catalogs_stay_keyed(catalogs: Seq<CacheRow>, connection_id: u128, scope: Seq<char>)
    requires
        keyed(catalogs, catalog_key()),
    ensures
        keyed(without_catalog(catalogs, connection_id, scope), catalog_key()),
        all_from(without_catalog(catalogs, connection_id, scope), catalogs),
    decreases catalogs.len(),
{
    if catalogs.len() > 0 {
        shorter_is_keyed(catalogs, catalog_key());
        catalogs_stay_keyed(catalogs.drop_last(), connection_id, scope);
        thinning_step(
            without_catalog(catalogs.drop_last(), connection_id, scope),
            catalogs.drop_last(),
            catalogs.last(),
            !is_catalog_of(catalogs.last(), connection_id, scope),
            catalog_key(),
        );
    }
}

proof fn no_account_with_the_id(accounts: Seq<Account>, user: Seq<char>)
    requires
        account_row(accounts, user) is None,
    ensures
        forall|i: int| 0 <= i < accounts.len() ==> (#[trigger] accounts[i]).user.id@ != user,
    decreases accounts.len(),
{
    if accounts.len() > 0 {
        no_account_with_the_id(accounts.drop_first(), user);
        assert forall|i: int| 0 <= i < accounts.len() implies (#[trigger] accounts[i]).user.id@
            != user by {
            if i > 0 {
                assert(accounts[i] == accounts.drop_first()[i - 1]);
            }
        }
    }
}

proof fn no_safety_with_the_id(safety: Seq<SafetyRow>, id: u128)
    requires
        safety_of(safety, id) is None,
    ensures
        forall|i: int| 0 <= i < safety.len() ==> (#[trigger] safety[i]).connection_id != id,
    decreases safety.len(),
{
    if safety.len() > 0 {
        no_safety_with_the_id(safety.drop_first(), id);
        assert forall|i: int| 0 <= i < safety.len() implies (#[trigger] safety[i]).connection_id
            != id by {
            if i > 0 {
                assert(safety[i] == safety.drop_first()[i - 1]);
            }
        }
    }
}

/// A new installation is well keyed.
pub proof fn fresh_is_well_keyed(tables: Tables, now: i128)
    requires
        is_fresh(tables, now),
    ensures
        well_keyed(tables),
{
}

/// Remembering an account keeps the tables well keyed.
pub proof fn remembering_keeps_keys(tables: Tables, user: WorkspaceAuthUser, now: i128)
    requires
        well_keyed(tables),
    ensures
        well_keyed(Tables { accounts: remembered(tables.accounts, user, now), ..tables }),
{
    let after = remembered(tables.accounts, user, now);
    if account_row(tables.accounts, user.id@) is Some {
        mapping_keeps_keys(tables.accounts, after, account_key());
    } else {
        no_account_with_the_id(tables.accounts, user.id@);
        adding_keeps_keys(tables.accounts, after.last(), account_key());
    }
}

/// Choosing a workspace keeps the tables well keyed.
pub proof fn choosing_keeps_keys(
    tables: Tables,
    workspace: Workspace,
    account: Option<String>,
    now: i128,
)
    requires
        well_keyed(tables),
    ensures
        well_keyed(selected(tables, workspace, account, now)),
{
    match account {
        Some(user) => {
            mapping_keeps_keys(
                tables.accounts,
                with_used(tables.accounts, user@, workspace, now),
                account_key(),
            );
        },
        None => {},
    }
}

/// Removing an account keeps the tables well keyed.
pub proof fn removing_keeps_keys(tables: Tables, user: Seq<char>, now: i128)
    requires
        well_keyed(tables),
    ensures
        well_keyed(removed(tables, user, now)),
{
    accounts_stay_keyed(tables.accounts, user);
    members_stay_keyed(tables.members, user, member_key());
    members_stay_keyed(tables.members, user, place_key());
    mapping_keeps_keys(
        tables.workspaces,
        without_deserted(tables.workspaces, without_user(tables.members, user), now),
        workspace_key(),
    );
}

proof fn reporting_keeps_keys(
    tables: Tables,
    user: WorkspaceAuthUser,
    reported: Seq<Reported>,
    member_ids: Seq<u128>,
    now: i128,
)
    requires
        well_keyed(tables),
        reported.len() <= member_ids.len(),
        are_new_members(tables.members, member_ids),
    ensures
        well_keyed(with_reported(tables, user, reported, member_ids, now)),
        forall|i: int, k: int|
            0 <= i < with_reported(tables, user, reported, member_ids, now).members.len()
                && reported.len() <= k < member_ids.len() ==> (#[trigger] with_reported(
                tables,
                user,
                reported,
                member_ids,
                now,
            ).members[i]).id != #[trigger] member_ids[k],
    decreases reported.len(),
{
    if reported.len() > 0 {
        reporting_keeps_keys(tables, user, reported.drop_last(), member_ids, now);
        let earlier = with_reported(tables, user, reported.drop_last(), member_ids, now);
        let (id, name, role) = reported.last();
        let at = reported.len() - 1;
        let members = with_membership(earlier.members, id, user, role, member_ids[at], now);
        if knows_member(earlier.members, id, user.id@) {
            mapping_keeps_keys(earlier.members, members, member_key());
            mapping_keeps_keys(earlier.members, members, place_key());
        } else {
            assert forall|i: int| 0 <= i < earlier.members.len() implies place_key()(
                #[trigger] earlier.members[i],
            ) != place_key()(members.last()) by {
                assert(!concerns(earlier.members[i], id, user.id@));
            }
            adding_keeps_keys(earlier.members, members.last(), member_key());
            adding_keeps_keys(earlier.members, members.last(), place_key());
        }
        assert forall|i: int, k: int|
            0 <= i < members.len() && reported.len() <= k < member_ids.len() implies (
        #[trigger] members[i]).id != #[trigger] member_ids[k] by {
            if i < earlier.members.len() {
                assert(members[i].id == earlier.members[i].id);
            } else {
                assert(member_ids[at] != member_ids[k]);
            }
        }
        let after = with_team(earlier.workspaces, id, name, now);
        if knows_workspace(earlier.workspaces, id) {
            mapping_keeps_keys(earlier.workspaces, after, workspace_key());
        } else {
            adding_keeps_keys(earlier.workspaces, after.last(), workspace_key());
        }
    }
}

proof fn moving_keeps_keys(
    bindings: Seq<Binding>,
    connections: Seq<ConnectionRow>,
    members: Seq<Member>,
    user_id: String,
    now: i128,
)
    requires
        keyed(bindings, binding_key()),
    ensures
        keyed(with_moved(bindings, connections, members, user_id, now), binding_key()),
    decreases connections.len(),
{
    if connections.len() > 0 {
        moving_keeps_keys(bindings, connections.drop_last(), members, user_id, now);
        let earlier = with_moved(bindings, connections.drop_last(), members, user_id, now);
        let after = with_moved(bindings, connections, members, user_id, now);
        if after != earlier {
            unbound_key(earlier, connections.last().id, user_id@);
            adding_keeps_keys(earlier, after.last(), binding_key());
        }
    }
}

proof fn unbound_key(bindings: Seq<Binding>, connection_id: u128, user: Seq<char>)
    requires
        !is_bound(bindings, connection_id, user),
    ensures
        forall|i: int|
            0 <= i < bindings.len() ==> binding_key()(#[trigger] bindings[i]) != (
            connection_id,
            user,
        ),
{
    assert forall|i: int| 0 <= i < bindings.len() implies binding_key()(#[trigger] bindings[i])
        != (connection_id, user) by {
        assert(!binds(bindings[i], connection_id, user));
    }
}

/// Taking over the memberships of an account, with new ids for those that are new, keeps the
/// tables well keyed: a catalog that would come to stand beside another under one key is refused.
pub proof fn syncing_keeps_keys(
    tables: Tables,
    user: WorkspaceAuthUser,
    reported: Seq<Reported>,
    member_ids: Seq<u128>,
    now: i128,
)
    requires
        well_keyed(tables),
        reported.len() <= member_ids.len(),
        are_new_members(tables.members, member_ids),
    ensures
        well_keyed(synced(tables, user, reported, member_ids, now).1),
{
    if !reports_personal(reported) {
        remembering_keeps_keys(tables, user, now);
        let known = Tables { accounts: remembered(tables.accounts, user, now), ..tables };
        let away = Tables { members: all_put_away(known.members, user.id@), ..known };
        mapping_keeps_keys(known.members, away.members, member_key());
        mapping_keeps_keys(known.members, away.members, place_key());
        assert forall|i: int, k: int|
            0 <= i < away.members.len() && 0 <= k < member_ids.len() implies (
        #[trigger] away.members[i]).id != #[trigger] member_ids[k] by {
            assert(away.members[i].id == known.members[i].id);
        }
        reporting_keeps_keys(away, user, reported, member_ids, now);
        let joined = with_reported(away, user, reported, member_ids, now);
        let claimed_rows = claimed(joined.connections, joined.members, user.id);
        mapping_keeps_keys(joined.connections, claimed_rows, connection_key());
        mapping_keeps_keys(
            claimed_rows,
            cleared(claimed_rows, joined.members, user.id@),
            connection_key(),
        );
        moving_keeps_keys(joined.bindings, claimed_rows, joined.members, user.id, now);
        let taken = taken_over(known, user, reported, member_ids, now);
        if !catalogs_collide(taken, user.id@) {
            rescoping_keeps_keys(taken, user.id);
            let scoped = rescoped(taken, user.id);
            mapping_keeps_keys(taken.history, scoped.history, line_key());
            mapping_keeps_keys(taken.threads, scoped.threads, thread_key());
            mapping_keeps_keys(
                scoped.workspaces,
                without_deserted(scoped.workspaces, scoped.members, now),
                workspace_key(),
            );
            mapping_keeps_keys(
                scoped.accounts,
                settled(scoped.accounts, scoped.members, user.id@),
                account_key(),
            );
            let tidy = tidied(scoped, user.id@, now);
            let after = synced(tables, user, reported, member_ids, now).1;
            if after != tidy {
                let home = home_of(tidy, user.id@);
                choosing_keeps_keys(
                    tidy,
                    active_row(tidy.workspaces, home)->0,
                    Some(user.id),
                    now,
                );
            }
        }
    }
}

proof fn rescoping_keeps_keys(tables: Tables, user_id: String)
    requires
        keyed(tables.schema_cache, catalog_key()),
        !catalogs_collide(tables, user_id@),
    ensures
        keyed(rescoped(tables, user_id).schema_cache, catalog_key()),
{
    let before = tables.schema_cache;
    let after = rescoped(tables, user_id).schema_cache;
    assert forall|i: int, j: int|
        #![trigger after[i], after[j]]
        0 <= i < j < after.len() implies catalog_key()(after[i]) != catalog_key()(after[j]) by {
        assert(catalog_key()(before[i]) != catalog_key()(before[j]));
        assert(!collides_at(tables, i, user_id@));
        assert(!collides_at(tables, j, user_id@));
        if catalog_key()(after[i]) == catalog_key()(after[j]) {
            if is_catalog_of(before[j], before[i].connection_id, user_id@) {
                assert(has_catalog(before, before[i].connection_id, user_id@));
            }
            if is_catalog_of(before[i], before[j].connection_id, user_id@) {
                assert(has_catalog(before, before[j].connection_id, user_id@));
            }
        }
    }
}

/// Saving a connection, as a change with a new id, keeps the tables well keyed.
pub proof fn saving_keeps_keys(
    tables: Tables,
    profile: ConnectionProfile,
    extra_params: String,
    outbox_id: u128,
    now: i128,
)
    requires
        well_keyed(tables),
        is_new_change(tables.outbox, outbox_id),
    ensures
        well_keyed(saved(tables, profile, extra_params, outbox_id, now)),
{
    let after = saved(tables, profile, extra_params, outbox_id, now);
    row_place_is_first(tables.connections, profile.id);
    match row_place(tables.connections, profile.id) {
        Some(at) => {
            mapping_keeps_keys(tables.connections, after.connections, connection_key());
        },
        None => {
            adding_keeps_keys(
                tables.connections,
                after.connections.last(),
                connection_key(),
            );
        },
    }
    ensuring_safety_keeps_keys(tables.safety, profile.id);
    adding_keeps_keys(tables.outbox, after.outbox.last(), change_key());
}

proof fn ensuring_safety_keeps_keys(safety: Seq<SafetyRow>, id: u128)
    requires
        keyed(safety, safety_key()),
    ensures
        keyed(with_safety(safety, id), safety_key()),
{
    if safety_of(safety, id) is None {
        no_safety_with_the_id(safety, id);
        adding_keeps_keys(safety, with_safety(safety, id).last(), safety_key());
    }
}

/// Deleting a connection, as a change with a new id, keeps the tables well keyed, and so does
/// putting it in a group.
pub proof fn revising_keeps_keys(
    tables: Tables,
    id: u128,
    group: Option<String>,
    outbox_id: u128,
    now: i128,
)
    requires
        well_keyed(tables),
        is_new_change(tables.outbox, outbox_id),
        visible_row(tables, id) is Ok,
    ensures
        ({
            let row = visible_row(tables, id)->Ok_0;
            let deletion = OutboxOperation::Delete;
            let change = OutboxOperation::Upsert;
            &&& well_keyed(revised(tables, id, deleted_row(row, now), deletion, outbox_id, now))
            &&& well_keyed(
                revised(tables, id, grouped_row(row, group, now), change, outbox_id, now),
            )
        }),
{
    let row = visible_row(tables, id)->Ok_0;
    row_place_is_first(tables.connections, id);
    let at = row_place(tables.connections, id)->0;
    mapping_keeps_keys(
        tables.connections,
        tables.connections.update(at, deleted_row(row, now)),
        connection_key(),
    );
    mapping_keeps_keys(
        tables.connections,
        tables.connections.update(at, grouped_row(row, group, now)),
        connection_key(),
    );
    let deletion = revised(
        tables,
        id,
        deleted_row(row, now),
        OutboxOperation::Delete,
        outbox_id,
        now,
    );
    let change = revised(
        tables,
        id,
        grouped_row(row, group, now),
        OutboxOperation::Upsert,
        outbox_id,
        now,
    );
    adding_keeps_keys(tables.outbox, deletion.outbox.last(), change_key());
    adding_keeps_keys(tables.outbox, change.outbox.last(), change_key());
}

/// Putting connections in a group, as changes with new ids, keeps the tables well keyed.
pub proof fn grouping_keeps_keys(
    tables: Tables,
    ids: Seq<u128>,
    group: Option<String>,
    outbox_ids: Seq<u128>,
    now: i128,
)
    requires
        well_keyed(tables),
        outbox_ids.len() == ids.len(),
        are_new_changes(tables.outbox, outbox_ids),
        forall|j: int| 0 <= j < ids.len() ==> visible_row(tables, #[trigger] ids[j]) is Ok,
        forall|j: int|
            0 <= j < ids.len() ==> can_grow_by(tables.connections, #[trigger] ids[j], ids.len()),
    ensures
        well_keyed(all_grouped(tables, ids, group, outbox_ids, now)),
{
    grouping_some_keeps_keys(tables, ids, group, outbox_ids, now, ids.len() as int);
    assert(ids.subrange(0, ids.len() as int) =~= ids);
}

/// Whether these ids are different ones, and none of the changes has one of them.
pub open spec fn are_new_changes(outbox: Seq<OutboxEntry>, ids: Seq<u128>) -> bool {
    &&& forall|i: int, j: int|
        0 <= i < j < ids.len() ==> (#[trigger] ids[i]) != (#[trigger] ids[j])
    &&& forall|i: int, k: int|
        0 <= i < outbox.len() && 0 <= k < ids.len() ==> (#[trigger] outbox[i]).id
            != #[trigger] ids[k]
}

proof fn grouping_some_keeps_keys(
    tables: Tables,
    ids: Seq<u128>,
    group: Option<String>,
    outbox_ids: Seq<u128>,
    now: i128,
    n: int,
)
    requires
        well_keyed(tables),
        0 <= n <= ids.len(),
        outbox_ids.len() == ids.len(),
        are_new_changes(tables.outbox, outbox_ids),
        forall|j: int| 0 <= j < ids.len() ==> visible_row(tables, #[trigger] ids[j]) is Ok,
        forall|j: int|
            0 <= j < ids.len() ==> can_grow_by(tables.connections, #[trigger] ids[j], ids.len()),
    ensures
        ({
            let after = all_grouped(tables, ids.subrange(0, n), group, outbox_ids, now);
            &&& well_keyed(after)
            &&& forall|i: int, k: int|
                0 <= i < after.outbox.len() && n <= k < outbox_ids.len() ==> (
                #[trigger] after.outbox[i]).id != #[trigger] outbox_ids[k]
        }),
    decreases n,
{
    all_grouped_so_far(tables, ids, group, outbox_ids, now, n);
    if n > 0 {
        grouping_some_keeps_keys(tables, ids, group, outbox_ids, now, n - 1);
        all_grouped_so_far(tables, ids, group, outbox_ids, now, n - 1);
        assert(ids.subrange(0, n).drop_last() =~= ids.subrange(0, n - 1));
        let earlier = all_grouped(tables, ids.subrange(0, n - 1), group, outbox_ids, now);
        let after = all_grouped(tables, ids.subrange(0, n), group, outbox_ids, now);
        let id = ids[n - 1];
        assert(visible_row(tables, id) is Ok);
        row_place_is_first(tables.connections, id);
        row_place_is_first(earlier.connections, id);
        let at = row_place(tables.connections, id)->0;
        assert(earlier.connections[at].id == id);
        mapping_keeps_keys(earlier.connections, after.connections, connection_key());
        assert(after.outbox.last().id == outbox_ids[n - 1]);
        adding_keeps_keys(earlier.outbox, after.outbox.last(), change_key());
        assert forall|i: int, k: int|
            0 <= i < after.outbox.len() && n <= k < outbox_ids.len() implies (
        #[trigger] after.outbox[i]).id != #[trigger] outbox_ids[k] by {
            if i < earlier.outbox.len() {
                assert(after.outbox[i] == earlier.outbox[i]);
            } else {
                assert(outbox_ids[n - 1] != outbox_ids[k]);
            }
        }
    } else {
        assert(ids.subrange(0, 0) =~= Seq::empty());
    }
}

/// Adding a line to the history keeps the tables well keyed.
pub proof fn adding_lines_keeps_keys(tables: Tables, entry: HistoryEntry)
    requires
        well_keyed(tables),
        line_scope(tables, entry) is Ok,
    ensures
        well_keyed(
            Tables {
                history: tables.history.push(
                    HistoryRow { entry, account_scope: line_scope(tables, entry)->Ok_0 },
                ),
                ..tables
            },
        ),
{
    let row = HistoryRow { entry, account_scope: line_scope(tables, entry)->Ok_0 };
    adding_keeps_keys(tables.history, row, line_key());
}

/// Saving a dashboard, as a change with a new id, keeps the tables well keyed.
pub proof fn saving_dashboards_keeps_keys(
    tables: Tables,
    draft: DashboardDraft,
    visualization_json: String,
    id: u128,
    outbox_id: u128,
    now: i128,
)
    requires
        well_keyed(tables),
        is_new_change(tables.outbox, outbox_id),
        dashboard_refusal(tables, draft.connection_id, id) is None,
    ensures
        well_keyed(with_dashboard(tables, draft, visualization_json, id, outbox_id, now)),
{
    let after = with_dashboard(tables, draft, visualization_json, id, outbox_id, now);
    adding_keeps_keys(tables.dashboards, after.dashboards.last(), dashboard_key());
    adding_keeps_keys(tables.outbox, after.outbox.last(), change_key());
}

/// Deleting a dashboard, as a change with a new id, keeps the tables well keyed.
pub proof fn deleting_dashboards_keeps_keys(
    tables: Tables,
    id: u128,
    workspace_id: u128,
    outbox_id: u128,
    now: i128,
)
    requires
        well_keyed(tables),
        is_new_change(tables.outbox, outbox_id),
        deletable_place(tables.dashboards, id, workspace_id) is Some,
    ensures
        well_keyed(without_dashboard(tables, id, workspace_id, outbox_id, now)),
{
    let after = without_dashboard(tables, id, workspace_id, outbox_id, now);
    deletable_place_is_first(tables.dashboards, id, workspace_id);
    mapping_keeps_keys(tables.dashboards, after.dashboards, dashboard_key());
    adding_keeps_keys(tables.outbox, after.outbox.last(), change_key());
}

/// Beginning a chat keeps the tables well keyed.
pub proof fn beginning_chats_keeps_keys(
    tables: Tables,
    connection_id: u128,
    thread: ChatThread,
    workspace_id: u128,
    account_scope: Text,
)
    requires
        well_keyed(tables),
        new_chat_scope(tables, connection_id, thread.id) is Ok,
    ensures
        well_keyed(
            Tables {
                threads: tables.threads.push(ThreadRow { thread, workspace_id, account_scope }),
                ..tables
            },
        ),
{
    adding_keeps_keys(
        tables.threads,
        ThreadRow { thread, workspace_id, account_scope },
        thread_key(),
    );
}

/// Adding a message to a chat keeps the tables well keyed.
pub proof fn adding_messages_keeps_keys(tables: Tables, message: ChatMessageRecord)
    requires
        well_keyed(tables),
        message_refusal(tables, message.thread_id, message.id) is None,
    ensures
        well_keyed(Tables { messages: tables.messages.push(message), ..tables }),
{
    adding_keeps_keys(tables.messages, message, message_key());
}

/// Ending a turn of a chat keeps the tables well keyed, and so does deleting the chat.
pub proof fn changing_chats_keeps_keys(
    tables: Tables,
    id: u128,
    workspace_id: u128,
    scope: Seq<char>,
    cli_session_id: Option<String>,
    model: Option<String>,
    effort: Option<String>,
    title_if_empty: String,
    now: i128,
)
    requires
        well_keyed(tables),
    ensures
        well_keyed(
            Tables {
                threads: with_turn(
                    tables.threads,
                    id,
                    workspace_id,
                    scope,
                    cli_session_id,
                    model,
                    effort,
                    title_if_empty,
                    now,
                ),
                ..tables
            },
        ),
        well_keyed(
            Tables {
                threads: without_thread(tables.threads, id, workspace_id, scope),
                messages: without_messages(tables.messages, id),
                ..tables
            },
        ),
{
    let ended = with_turn(
        tables.threads,
        id,
        workspace_id,
        scope,
        cli_session_id,
        model,
        effort,
        title_if_empty,
        now,
    );
    mapping_keeps_keys(tables.threads, ended, thread_key());
    threads_stay_keyed(tables.threads, id, workspace_id, scope);
    messages_stay_keyed(tables.messages, id);
}

/// Storing settings keeps the tables well keyed.
pub proof fn storing_settings_keeps_keys(
    tables: Tables,
    connection_id: u128,
    settings: SafetySettings,
)
    requires
        well_keyed(tables),
    ensures
        well_keyed(
            Tables { safety: with_settings(tables.safety, connection_id, settings), ..tables },
        ),
{
    let after = with_settings(tables.safety, connection_id, settings);
    if safety_of(tables.safety, connection_id) is Some {
        mapping_keeps_keys(tables.safety, after, safety_key());
    } else {
        no_safety_with_the_id(tables.safety, connection_id);
        adding_keeps_keys(tables.safety, after.last(), safety_key());
    }
}

/// Caching a catalog keeps the tables well keyed, and so does dropping one.
pub proof fn caching_keeps_keys(
    tables: Tables,
    connection_id: u128,
    scope: Text,
    catalog_json: String,
    now: i128,
)
    requires
        well_keyed(tables),
    ensures
        well_keyed(
            Tables {
                schema_cache: with_catalog(
                    tables.schema_cache,
                    connection_id,
                    scope,
                    catalog_json,
                    now,
                ),
                ..tables
            },
        ),
        well_keyed(
            Tables {
                schema_cache: without_catalog(tables.schema_cache, connection_id, scope@),
                ..tables
            },
        ),
{
    let after = with_catalog(tables.schema_cache, connection_id, scope, catalog_json, now);
    if has_catalog(tables.schema_cache, connection_id, scope@) {
        mapping_keeps_keys(tables.schema_cache, after, catalog_key());
    } else {
        assert forall|i: int| 0 <= i < tables.schema_cache.len() implies catalog_key()(
            #[trigger] tables.schema_cache[i],
        ) != catalog_key()(after.last()) by {
            assert(!is_catalog_of(tables.schema_cache[i], connection_id, scope@));
        }
        adding_keeps_keys(tables.schema_cache, after.last(), catalog_key());
    }
    catalogs_stay_keyed(tables.schema_cache, connection_id, scope@);
}

/// Binding a credential keeps the tables well keyed.
pub proof fn binding_keeps_keys(
    tables: Tables,
    connection_id: u128,
    account: String,
    username: String,
    extra_params: String,
    secret_ref: Option<String>,
    now: i128,
)
    requires
        well_keyed(tables),
    ensures
        well_keyed(
            Tables {
                bindings: with_credential(
                    tables.bindings,
                    connection_id,
                    account,
                    username,
                    extra_params,
                    secret_ref,
                    now,
                ),
                ..tables
            },
        ),
{
    let after = with_credential(
        tables.bindings,
        connection_id,
        account,
        username,
        extra_params,
        secret_ref,
        now,
    );
    if is_bound(tables.bindings, connection_id, account@) {
        mapping_keeps_keys(tables.bindings, after, binding_key());
    } else {
        unbound_key(tables.bindings, connection_id, account@);
        adding_keeps_keys(tables.bindings, after.last(), binding_key());
    }
}

proof fn granting_keeps_keys(
    bindings: Seq<Binding>,
    connection_id: u128,
    account: String,
    access: WorkspaceConnectionAccess,
    allow_writes: bool,
    now: i128,
)
    requires
        keyed(bindings, binding_key()),
    ensures
        keyed(
            with_grant(bindings, connection_id, account, access, allow_writes, now),
            binding_key(),
        ),
{
    let after = with_grant(bindings, connection_id, account, access, allow_writes, now);
    if is_bound(bindings, connection_id, account@) {
        mapping_keeps_keys(bindings, after, binding_key());
    } else {
        unbound_key(bindings, connection_id, account@);
        adding_keeps_keys(bindings, after.last(), binding_key());
    }
}

proof fn taking_templates_keeps_keys(
    tables: Tables,
    workspace_id: u128,
    account: String,
    templates: Seq<Template>,
    now: i128,
)
    requires
        well_keyed(tables),
    ensures
        well_keyed(with_templates(tables, workspace_id, account, templates, now)),
    decreases templates.len(),
{
    if templates.len() > 0 {
        taking_templates_keeps_keys(tables, workspace_id, account, templates.drop_last(), now);
        let earlier = with_templates(tables, workspace_id, account, templates.drop_last(), now);
        let (profile, revision) = templates.last();
        let after = with_template(earlier, workspace_id, account, templates.last(), now);
        row_place_is_first(earlier.connections, profile.id);
        match row_place(earlier.connections, profile.id) {
            Some(at) => {
                mapping_keeps_keys(earlier.connections, after.connections, connection_key());
            },
            None => {
                adding_keeps_keys(
                    earlier.connections,
                    after.connections.last(),
                    connection_key(),
                );
            },
        }
        ensuring_safety_keeps_keys(earlier.safety, profile.id);
        mapping_keeps_keys(
            with_safety(earlier.safety, profile.id),
            after.safety,
            safety_key(),
        );
        granting_keeps_keys(
            earlier.bindings,
            profile.id,
            account,
            profile.workspace_access,
            lets_write(profile),
            now,
        );
    }
}

/// Taking over shared connections keeps the tables well keyed, and so does dropping one.
pub proof fn sharing_keeps_keys(
    tables: Tables,
    workspace_id: u128,
    account: String,
    templates: Seq<Template>,
    now: i128,
    dropped: u128,
)
    requires
        well_keyed(tables),
    ensures
        well_keyed(templates_synced(tables, workspace_id, account, templates, now)),
        well_keyed(purged(tables, workspace_id, dropped)),
{
    let base = Tables {
        connections: pruned(tables.connections, workspace_id, templates, now),
        ..tables
    };
    mapping_keeps_keys(tables.connections, base.connections, connection_key());
    taking_templates_keeps_keys(base, workspace_id, account, templates, now);
    connections_stay_keyed(tables.connections, workspace_id, dropped);
    dependents_stay_keyed(tables.bindings, dropped, binding_key());
    dependents_stay_keyed(tables.safety, dropped, safety_key());
    dependents_stay_keyed(tables.schema_cache, dropped, catalog_key());
    dependents_stay_keyed(tables.history, dropped, line_key());
    dependents_stay_keyed(tables.dashboards, dropped, dashboard_key());
}

} // verus!
