//! How the calls of the store relate: what one of them writes, another reads.
use vstd::prelude::*;

use crate::error::{AppError, AppResult};
use crate::model::{
    params_view, AgentProvider, ChatMessageRecord, ChatThread, ConnectionProfile, Dashboard,
    DashboardDraft, HistoryEntry, SafetySettings, Workspace,
};
use crate::store::chat::{
    chat_scope, message_refusal, messages_of, new_chat_scope, thread_lookup, without_messages,
};
use crate::store::connections::{
    grouped_row, lookup, replacing_keeps_places, row_place, row_place_is_first, saved, viewer,
    visible_row, ProfileView,
};
use crate::store::directory::{active_workspace_of, home_of, local_scope};
use crate::store::laws::{
    catalogs_are_read_back, chats_are_read_back, dashboards_are_read_back,
    deleted_connections_are_gone, deleted_thread, dropped_catalogs_are_gone, history_is_read_back,
    saved_connections_are_read_back, settings_are_read_back, the_chosen_workspace_is_active,
};
use crate::store::memberships::is_catalog_of;
use crate::store::params::{is_canonical, stored_params};
use crate::store::records::{line_scope, record_scope, with_catalog};
use crate::store::remote::bindable;
use crate::store::tables::{CacheRow, DashboardRow, Store, Tables};
use crate::text::{trimmed, Text};

verus! {

/// A line that was added to the history is what is then found under its id, and nothing
/// else about the store has changed.
pub proof fn added_lines_are_found(
    store: &mut Store,
    entry: HistoryEntry,
    after: Store,
    found: AppResult<HistoryEntry>,
)
    requires
        call_ensures(Store::insert_history, (store, entry), Ok::<(), AppError>(())),
        after@ == final(store)@,
        call_ensures(Store::get_history, (&after, entry.id), found),
    ensures
        found == Ok::<HistoryEntry, AppError>(entry),
        final(store)@.history.len() == old(store)@.history.len() + 1,
        final(store)@.history.last().entry == entry,
        final(store)@.connections == old(store)@.connections,
        final(store)@.threads == old(store)@.threads,
        final(store)@.safety == old(store)@.safety,
{
    let scope = final(store)@.history.last().account_scope;
    history_is_read_back(old(store)@, entry, scope);
}

/// The settings that a connection was given are what is then read of it.
pub proof fn given_settings_are_read(
    store: &mut Store,
    connection_id: u128,
    settings: SafetySettings,
    after: Store,
    found: AppResult<SafetySettings>,
)
    requires
        call_ensures(Store::set_safety, (store, connection_id, &settings), Ok::<(), AppError>(())),
        after@ == final(store)@,
        call_ensures(Store::get_safety, (&after, connection_id), found),
    ensures
        found == Ok::<SafetySettings, AppError>(settings),
{
    settings_are_read_back(old(store)@.safety, connection_id, settings, connection_id);
    assert(visible_row(final(store)@, connection_id) == visible_row(old(store)@, connection_id));
}

/// A catalog that was cached is what is then read, and once it is dropped none is.
pub proof fn cached_catalogs_are_read(
    store: &mut Store,
    connection_id: u128,
    catalog_json: String,
    now: i128,
    after: Store,
    found: AppResult<Option<String>>,
)
    requires
        call_ensures(
            Store::set_schema_cache,
            (store, connection_id, catalog_json, now),
            Ok::<(), AppError>(()),
        ),
        after@ == final(store)@,
        call_ensures(Store::get_schema_cache, (&after, connection_id), found),
    ensures
        found == Ok::<Option<String>, AppError>(Some(catalog_json)),
{
    let scope = record_scope(old(store)@, connection_id)->Ok_0;
    assert(record_scope(final(store)@, connection_id)
        == record_scope(old(store)@, connection_id));
    catalogs_are_read_back(
        old(store)@.schema_cache,
        connection_id,
        scope,
        catalog_json,
        now,
        connection_id,
        scope@,
    );
}

/// A catalog that was dropped is not read any more.
pub proof fn dropped_catalogs_are_not_read(
    store: &mut Store,
    connection_id: u128,
    after: Store,
    found: AppResult<Option<String>>,
)
    requires
        call_ensures(Store::clear_schema_cache, (store, connection_id), Ok::<(), AppError>(())),
        after@ == final(store)@,
        call_ensures(Store::get_schema_cache, (&after, connection_id), found),
    ensures
        found == Ok::<Option<String>, AppError>(None),
{
    let scope = record_scope(old(store)@, connection_id)->Ok_0;
    assert(record_scope(final(store)@, connection_id)
        == record_scope(old(store)@, connection_id));
    dropped_catalogs_are_gone(
        old(store)@.schema_cache,
        connection_id,
        scope@,
        connection_id,
        scope@,
    );
}

/// A chat that was begun is what was asked for: about that connection, with that provider,
/// model and effort, untitled and without a session; and it is what is then found under
/// its id.
pub proof fn begun_chats_are_found(
    store: &mut Store,
    provider: AgentProvider,
    connection_id: u128,
    model: Option<String>,
    effort: Option<String>,
    id: u128,
    now: i128,
    begun: ChatThread,
    after: Store,
    found: AppResult<ChatThread>,
)
    requires
        call_ensures(
            Store::create_chat_thread,
            (store, provider, connection_id, model, effort, id, now),
            Ok::<ChatThread, AppError>(begun),
        ),
        after@ == final(store)@,
        call_ensures(Store::get_chat_thread, (&after, id), found),
    ensures
        begun.id == id,
        begun.provider == provider,
        begun.connection_id == Some(connection_id),
        begun.title@.len() == 0,
        begun.cli_session_id is None,
        begun.model == model,
        begun.effort == effort,
        begun.created_at == now && begun.updated_at == now,
        found == Ok::<ChatThread, AppError>(begun),
{
    let (workspace_id, scope) = new_chat_scope(old(store)@, connection_id, id)->Ok_0;
    chats_are_read_back(old(store)@, begun, workspace_id, scope);
}

/// A message that was added to a chat is what was given, stands last among the messages,
/// and is one of that chat's.
pub proof fn added_messages_are_listed(
    store: &mut Store,
    thread_id: u128,
    role: String,
    text: String,
    error: Option<String>,
    id: u128,
    now: i128,
    added: ChatMessageRecord,
)
    requires
        call_ensures(
            Store::insert_chat_message,
            (store, thread_id, role, text, error, id, now),
            Ok::<ChatMessageRecord, AppError>(added),
        ),
    ensures
        added.id == id,
        added.thread_id == thread_id,
        added.role == role,
        added.text == text,
        added.error == error,
        added.created_at == now,
        final(store)@.messages == old(store)@.messages.push(added),
        messages_of(final(store)@.messages, thread_id) == messages_of(
            old(store)@.messages,
            thread_id,
        ).push(added),
        thread_lookup(old(store)@, thread_id) is Ok,
{
    assert(old(store)@.messages.push(added).drop_last() =~= old(store)@.messages);
}

/// A chat whose turn ended is found with what the turn came to.
pub proof fn ended_turns_are_found(
    store: &mut Store,
    thread_id: u128,
    session: Option<String>,
    model: Option<String>,
    effort: Option<String>,
    title: String,
    now: i128,
    k: int,
)
    requires
        call_ensures(
            Store::finish_chat_turn,
            (store, thread_id, session, model, effort, title, now),
            Ok::<(), AppError>(()),
        ),
        0 <= k < old(store)@.threads.len(),
        old(store)@.threads[k].thread.id == thread_id,
        chat_scope(old(store)@) matches Ok(own) && old(store)@.threads[k].workspace_id == own.0
            && old(store)@.threads[k].account_scope@ == own.1@,
    ensures
        ({
            let told = final(store)@.threads[k].thread;
            let before = old(store)@.threads[k].thread;
            &&& told.id == before.id && told.provider == before.provider && told.connection_id
                == before.connection_id && told.created_at == before.created_at
            &&& told.cli_session_id == session
            &&& told.model == model
            &&& told.effort == effort
            &&& told.updated_at == now
            &&& told.title == if before.title@.len() == 0 {
                title
            } else {
                before.title
            }
        }),
{
}

/// A profile that was saved is told as it was given and, where its parameters come in order
/// of their names, found as it was given.
pub proof fn saved_profiles_are_found(
    store: &mut Store,
    profile: ConnectionProfile,
    outbox_id: u128,
    now: i128,
    told: ConnectionProfile,
    after: Store,
    found: AppResult<ConnectionProfile>,
)
    requires
        call_ensures(
            Store::upsert_connection,
            (store, &profile, outbox_id, now),
            Ok::<ConnectionProfile, AppError>(told),
        ),
        after@ == final(store)@,
        call_ensures(Store::get_connection, (&after, profile.id), found),
    ensures
        told.same(profile),
        is_canonical(params_view(profile.extra_params@)) ==> found is Ok && found->Ok_0@
            == profile@,
{
    let extra_params = choose|extra_params: String|
        final(store)@ == #[trigger] saved(old(store)@, profile, extra_params, outbox_id, now) && (
        is_canonical(params_view(profile.extra_params@)) ==> stored_params(
            extra_params@,
        ) == params_view(profile.extra_params@));
    if is_canonical(params_view(profile.extra_params@)) {
        saved_connections_are_read_back(old(store)@, profile, extra_params, outbox_id, now);
    }
}

/// A connection that was deleted is not found any more.
pub proof fn deleted_profiles_are_not_found(
    store: &mut Store,
    id: u128,
    outbox_id: u128,
    now: i128,
    after: Store,
    found: AppResult<ConnectionProfile>,
)
    requires
        call_ensures(Store::delete_connection, (store, id, outbox_id, now), Ok::<(), AppError>(())),
        after@ == final(store)@,
        call_ensures(Store::get_connection, (&after, id), found),
    ensures
        found matches Err(AppError::NotFound(text)) && text == Text::WithId("connection ", id, ""),
{
    deleted_connections_are_gone(old(store)@, id, outbox_id, now, id);
}

/// A dashboard that was saved is told as the draft says, and found with just that.
pub proof fn saved_dashboards_are_found(
    store: &mut Store,
    draft: DashboardDraft,
    visualization_json: String,
    id: u128,
    outbox_id: u128,
    now: i128,
    told: Dashboard,
    after: Store,
    found: AppResult<DashboardRow>,
)
    requires
        call_ensures(
            Store::save_dashboard,
            (store, draft, visualization_json, id, outbox_id, now),
            Ok::<Dashboard, AppError>(told),
        ),
        after@ == final(store)@,
        call_ensures(Store::get_dashboard, (&after, id), found),
    ensures
        told.id == id && told.connection_id == draft.connection_id && told.title == draft.title
            && told.description == draft.description && told.sql == draft.sql && told.visualization
            == draft.visualization && told.created_at == now && told.updated_at == now,
        found matches Ok(row) && row.id == id && row.connection_id == draft.connection_id
            && row.title == draft.title && row.description == draft.description && row.sql
            == draft.sql && row.visualization_json == visualization_json && row.created_at == now
            && row.updated_at == now && row.deleted_at is None,
{
    dashboards_are_read_back(old(store)@, draft, visualization_json, id, outbox_id, now);
}

/// A workspace that was chosen is the active one, as the account that chose it.
pub proof fn the_chosen_workspace_is_found(
    store: &mut Store,
    id: u128,
    account: Option<String>,
    now: i128,
    told: Workspace,
    after: Store,
    found: AppResult<Workspace>,
    active_id: AppResult<u128>,
    active_account: Option<String>,
)
    requires
        call_ensures(
            Store::activate_workspace,
            (store, id, account, now),
            Ok::<Workspace, AppError>(told),
        ),
        after@ == final(store)@,
        call_ensures(Store::active_workspace, (&after,), found),
        call_ensures(Store::active_workspace_id, (&after,), active_id),
        call_ensures(Store::active_workspace_account_id, (&after,), active_account),
    ensures
        told.id == id,
        found == Ok::<Workspace, AppError>(told),
        active_id == Ok::<u128, AppError>(id),
        active_account == account,
{
    the_chosen_workspace_is_active(old(store)@, id, account, now);
}

/// A chat that was deleted is not found any more, and has no messages left; the messages of
/// every other chat stay.
pub proof fn deleted_chats_are_not_found(
    store: &mut Store,
    id: u128,
    after: Store,
    found: AppResult<ChatThread>,
    other: u128,
)
    requires
        call_ensures(Store::delete_chat_thread, (store, id), Ok::<(), AppError>(())),
        after@ == final(store)@,
        call_ensures(Store::get_chat_thread, (&after, id), found),
    ensures
        found matches Err(AppError::NotFound(text)) && text == Text::WithId("chat thread ", id, ""),
        messages_of(final(store)@.messages, id).len() == 0,
        other != id ==> messages_of(final(store)@.messages, other) == messages_of(
            old(store)@.messages,
            other,
        ),
        final(store)@ == (Tables {
            threads: final(store)@.threads,
            messages: final(store)@.messages,
            ..old(store)@
        }),
{
    let (workspace_id, scope) = chat_scope(old(store)@)->Ok_0;
    deleted_thread(old(store)@.threads, id, workspace_id, scope@);
    assert(chat_scope(final(store)@) == chat_scope(old(store)@));
    deleted_messages(old(store)@.messages, id, other);
}

proof fn deleted_messages(messages: Seq<ChatMessageRecord>, id: u128, other: u128)
    ensures
        messages_of(without_messages(messages, id), id).len() == 0,
        other != id ==> messages_of(without_messages(messages, id), other) == messages_of(
            messages,
            other,
        ),
    decreases messages.len(),
{
    if messages.len() > 0 {
        let rest = messages.drop_last();
        let left = without_messages(rest, id);
        deleted_messages(rest, id, other);
        if messages.last().thread_id != id {
            assert(left.push(messages.last()).drop_last() =~= left);
        }
    }
}

/// A connection that was put in a group is told, and found, in that group and otherwise as
/// it was.
pub proof fn grouped_profiles_are_found(
    store: &mut Store,
    id: u128,
    group: Option<String>,
    outbox_id: u128,
    now: i128,
    told: ConnectionProfile,
    after: Store,
    found: AppResult<ConnectionProfile>,
)
    requires
        call_ensures(
            Store::set_connection_schema_group,
            (store, id, group, outbox_id, now),
            Ok::<ConnectionProfile, AppError>(told),
        ),
        after@ == final(store)@,
        call_ensures(Store::get_connection, (&after, id), found),
    ensures
        lookup(old(store)@, id) is Ok,
        ({
            let before = lookup(old(store)@, id)->Ok_0;
            &&& told@ == (ProfileView { schema_group: group, ..before })
            &&& found is Ok && found->Ok_0@ == told@
        }),
{
    let tables = old(store)@;
    row_place_is_first(tables.connections, id);
    let at = row_place(tables.connections, id)->0;
    let row = grouped_row(tables.connections[at], group, now);
    replacing_keeps_places(tables.connections, id, at, row, id);
    assert(viewer(final(store)@) == viewer(tables));
}

/// An account's own user name, parameters and credential, once bound, are told with the
/// rest of the connection as the account saw it; what is kept is its binding alone.
pub proof fn bound_credentials_are_told(
    store: &mut Store,
    id: u128,
    account: String,
    username: &str,
    extra_params: Vec<(String, String)>,
    secret_ref: Option<String>,
    now: i128,
    told: ConnectionProfile,
)
    requires
        call_ensures(
            Store::bind_connection_credentials,
            (store, id, &account, username, extra_params, secret_ref, now),
            Ok::<ConnectionProfile, AppError>(told),
        ),
    ensures
        bindable(old(store)@, id, account) is Ok,
        ({
            let seen = bindable(old(store)@, id, account)->Ok_0;
            &&& told@.username == trimmed(username@)
            &&& told@.extra_params == params_view(extra_params@)
            &&& told@.secret_ref == secret_ref
            &&& told@.name == seen.name && told@.host == seen.host && told@.port == seen.port
                && told@.database == seen.database && told@.engine == seen.engine && told@.id
                == seen.id && told@.workspace_access == seen.workspace_access && told@.allow_writes
                == seen.allow_writes
        }),
        final(store)@ == (Tables { bindings: final(store)@.bindings, ..old(store)@ }),
{
}

/// An account that is chosen opens at home, and is then the active one.
pub proof fn the_chosen_account_opens_at_home(
    store: &mut Store,
    user_id: String,
    now: i128,
    told: Workspace,
)
    requires
        call_ensures(
            Store::activate_workspace_account,
            (store, user_id, now),
            Ok::<Workspace, AppError>(told),
        ),
    ensures
        told.id == home_of(old(store)@, user_id@),
        final(store)@.active_workspace == told.id,
        final(store)@.active_account == Some(user_id),
{
    the_chosen_workspace_is_active(
        old(store)@,
        home_of(old(store)@, user_id@),
        Some(user_id),
        now,
    );
}

/// Where the active workspace is not there, the personal one becomes active; else nothing
/// changes.
pub proof fn a_missing_workspace_is_replaced(store: &mut Store)
    requires
        call_ensures(Store::migrate_workspace_foundation, (store,), ()),
    ensures
        ({
            let known = exists|i: int|
                0 <= i < old(store)@.workspaces.len() && (#[trigger] old(store)@.workspaces[i]).id
                    == old(store)@.active_workspace;
            &&& known ==> final(store)@ == old(store)@
            &&& !known ==> final(store)@ == (Tables { active_workspace: 1, ..old(store)@ })
        }),
{
}

/// What may be added under an id: a line of the history and a chat where the connection is
/// shown, and a message where the chat is found, each in the scope at hand, and each only
/// under an id that none of its kind has.
pub proof fn ids_stand_for_one_row(tables: Tables, entry: HistoryEntry, id: u128, connection_id: u128)
    ensures
        line_scope(tables, entry) is Ok <==> visible_row(tables, entry.connection_id) is Ok
            && local_scope(tables) is Ok && forall|i: int|
            0 <= i < tables.history.len() ==> (#[trigger] tables.history[i]).entry.id != entry.id,
        line_scope(tables, entry) matches Ok(scope) ==> local_scope(tables) == Ok::<Text, AppError>(
            scope,
        ),
        new_chat_scope(tables, connection_id, id) is Ok <==> visible_row(tables, connection_id) is Ok
            && local_scope(tables) is Ok && forall|i: int|
            0 <= i < tables.threads.len() ==> (#[trigger] tables.threads[i]).thread.id != id,
        new_chat_scope(tables, connection_id, id) matches Ok(scope) ==> active_workspace_of(
            tables,
        ) is Ok && scope.0 == active_workspace_of(tables)->Ok_0.id && local_scope(tables) == Ok::<
            Text,
            AppError,
        >(scope.1),
        message_refusal(tables, connection_id, id) is None <==> thread_lookup(
            tables,
            connection_id,
        ) is Ok && forall|i: int|
            0 <= i < tables.messages.len() ==> (#[trigger] tables.messages[i]).id != id,
{
}

/// A cached catalog is the one that was given, cached now, in the scope at hand; and the
/// catalogs of other scopes and connections are those that were there.
pub proof fn catalogs_are_cached_as_of_now(
    catalogs: Seq<CacheRow>,
    connection_id: u128,
    scope: Text,
    catalog_json: String,
    now: i128,
    k: int,
)
    requires
        0 <= k < catalogs.len(),
    ensures
        ({
            let after = with_catalog(catalogs, connection_id, scope, catalog_json, now);
            let before = catalogs[k];
            let own = before.connection_id == connection_id && before.account_scope@ == scope@;
            let known = exists|i: int|
                0 <= i < catalogs.len() && (#[trigger] catalogs[i]).connection_id == connection_id
                    && catalogs[i].account_scope@ == scope@;
            &&& own ==> after[k] == (CacheRow {
                introspected_at: now,
                catalog_json,
                ..before
            })
            &&& !own ==> after[k] == before
            &&& known ==> after.len() == catalogs.len()
            &&& !known ==> after.len() == catalogs.len() + 1 && after.last() == (CacheRow {
                connection_id,
                account_scope: scope,
                introspected_at: now,
                catalog_json,
            })
        }),
{
    if exists|i: int|
        0 <= i < catalogs.len() && (#[trigger] catalogs[i]).connection_id == connection_id
            && catalogs[i].account_scope@ == scope@ {
        let i = choose|i: int|
            0 <= i < catalogs.len() && (#[trigger] catalogs[i]).connection_id == connection_id
                && catalogs[i].account_scope@ == scope@;
        assert(is_catalog_of(catalogs[i], connection_id, scope@));
    }
}

} // verus!
