//! What the rows of the store hold after each change of connections, dashboards and chats,
//! and whom they are shown to.
use vstd::prelude::*;

use crate::error::AppError;
use crate::model::{
    ChatThread, ConnectionProfile, DashboardDraft, DashboardVisualization, SafetySettings,
    WorkspaceConnectionAccess, WorkspaceCredentialMode, WorkspaceKind,
};
use crate::store::chat::with_turn;
use crate::store::connections::{
    bare_profile, binding_row, default_safety, deleted_row, grouped_row, is_shown, revised, row_of,
    row_place, row_place_is_first, safety_of, save_refusal, saved, seen_profile, viewer,
    with_safety, write_refusal,
};
use crate::store::dashboards::{
    dashboard_of, dashboard_refusal, deletable_place, deletable_place_is_first, drawn,
    shows_dashboard, with_dashboard, without_dashboard,
};
use crate::store::directory::{active_workspace_of, is_member, local_scope};
use crate::store::params::stored_params;
use crate::store::records::is_live;
use crate::store::remote::{
    bindable, lets_write, pruned, renewed_row, template_row, templates_synced, with_credential,
    with_grant, with_templates, with_writes, Template,
};
use crate::store::tables::{
    Binding, ConnectionRow, DashboardRow, OutboxOperation, ResourceKind, SafetyRow, SyncStatus,
    Tables, ThreadRow,
};
use crate::text::Text;

verus! {

/// Whether a row holds what a profile says, with these parameters, and is as yet unknown to
/// the server.
pub open spec fn holds_profile(
    row: ConnectionRow,
    profile: ConnectionProfile,
    extra_params: String,
) -> bool {
    &&& row.id == profile.id
    &&& row.name == profile.name
    &&& row.engine == profile.engine
    &&& row.provider == profile.provider
    &&& row.driver_id == profile.driver_id
    &&& row.host == profile.host
    &&& row.port == profile.port
    &&& row.database == profile.database
    &&& row.username == Text::Owned(profile.username)
    &&& row.sslmode == profile.sslmode
    &&& row.extra_params == Text::Owned(extra_params)
    &&& row.secret_ref == profile.secret_ref
    &&& row.readonly_default == profile.readonly_default
    &&& row.allow_writes == profile.allow_writes
    &&& row.env == profile.env
    &&& row.schema_group == profile.schema_group
    &&& row.workspace_access == profile.workspace_access
    &&& row.credential_mode == profile.credential_mode
    &&& row.sync_status == SyncStatus::Dirty
    &&& row.deleted_at is None
}

/// After a profile was saved its row holds what the profile says. A row that was there
/// keeps whose it is and when it was made, and counts its revision up; a new one belongs to
/// the active workspace and, in a team, to the active account. A connection without
/// settings has the default ones. The server is to hear of the change, and nothing else
/// has changed.
pub proof fn saving_writes_the_profile(
    tables: Tables,
    profile: ConnectionProfile,
    extra_params: String,
    outbox_id: u128,
    now: i128,
)
    requires
        active_workspace_of(tables) is Ok,
        row_of(tables.connections, profile.id) matches Some(row) ==> row.revision < i64::MAX,
    ensures
        ({
            let after = saved(tables, profile, extra_params, outbox_id, now);
            let workspace = active_workspace_of(tables)->Ok_0;
            let entry = after.outbox.last();
            &&& match row_place(tables.connections, profile.id) {
                Some(at) => {
                    let before = tables.connections[at];
                    let row = after.connections[at];
                    &&& after.connections.len() == tables.connections.len()
                    &&& holds_profile(row, profile, extra_params)
                    &&& row.workspace_id == before.workspace_id
                    &&& row.account_user_id == before.account_user_id
                    &&& row.remote_id == before.remote_id
                    &&& row.created_at == before.created_at
                    &&& row.revision == before.revision + 1
                    &&& row.updated_at == now
                    &&& entry.revision == before.revision + 1
                    &&& forall|i: int|
                        0 <= i < tables.connections.len() && i != at ==> #[trigger]
                        after.connections[i] == tables.connections[i]
                },
                None => {
                    let row = after.connections.last();
                    &&& after.connections.drop_last() == tables.connections
                    &&& holds_profile(row, profile, extra_params)
                    &&& row.workspace_id == workspace.id
                    &&& row.account_user_id == if workspace.kind == WorkspaceKind::Team {
                        tables.active_account
                    } else {
                        None
                    }
                    &&& row.remote_id is None
                    &&& row.created_at == now && row.updated_at == now
                    &&& row.revision == 1
                    &&& entry.revision == 1
                },
            }
            &&& after.outbox.drop_last() == tables.outbox
            &&& entry.id == outbox_id
            &&& entry.workspace_id == workspace.id
            &&& entry.resource == ResourceKind::Connection
            &&& entry.resource_id == profile.id
            &&& entry.operation == OutboxOperation::Upsert
            &&& entry.created_at == now
            &&& safety_of(tables.safety, profile.id) is Some ==> after.safety == tables.safety
            &&& safety_of(tables.safety, profile.id) is None ==> after.safety.drop_last()
                == tables.safety && after.safety.last().connection_id == profile.id && is_cautious(
                after.safety.last().settings,
            )
            &&& after == (Tables {
                connections: after.connections,
                safety: after.safety,
                outbox: after.outbox,
                ..tables
            })
        }),
{
    row_place_is_first(tables.connections, profile.id);
    let after = saved(tables, profile, extra_params, outbox_id, now);
    assert(after.outbox.drop_last() =~= tables.outbox);
    if row_place(tables.connections, profile.id) is None {
        assert(after.connections.drop_last() =~= tables.connections);
    }
    if safety_of(tables.safety, profile.id) is None {
        assert(after.safety.drop_last() =~= tables.safety);
    }
}

/// The settings that every connection begins with: approval is required, writes are off and
/// in a transaction, reads are explained and run by themselves, a thousand rows are
/// fetched, and fifty thousand are previewed.
pub open spec fn is_cautious(settings: SafetySettings) -> bool {
    &&& settings.require_approval
    &&& !settings.allow_writes
    &&& settings.wrap_writes_in_tx
    &&& settings.explain_preview
    &&& settings.auto_run_reads
    &&& settings.max_rows == 1000
    &&& settings.exec_preview_row_limit == 50_000
}

/// The default settings are the cautious ones.
pub proof fn defaults_are_cautious()
    ensures
        is_cautious(default_safety()),
{
}

/// A row that is put in a group, or deleted, changes in that and in its time, and counts its
/// revision up; the server is to hear of it.
pub proof fn revising_counts_up(
    tables: Tables,
    id: u128,
    group: Option<String>,
    outbox_id: u128,
    now: i128,
)
    requires
        active_workspace_of(tables) is Ok,
        row_of(tables.connections, id) matches Some(row) && row.revision < i64::MAX,
    ensures
        ({
            let at = row_place(tables.connections, id)->0;
            let before = tables.connections[at];
            let grouped = grouped_row(before, group, now);
            let deleted = deleted_row(before, now);
            let after = revised(tables, id, deleted, OutboxOperation::Delete, outbox_id, now);
            let entry = after.outbox.last();
            &&& grouped.schema_group == group
            &&& grouped.revision == before.revision + 1
            &&& grouped.updated_at == now
            &&& grouped.sync_status == SyncStatus::Dirty
            &&& grouped == (ConnectionRow {
                schema_group: grouped.schema_group,
                revision: grouped.revision,
                updated_at: grouped.updated_at,
                sync_status: grouped.sync_status,
                ..before
            })
            &&& deleted.deleted_at == Some(now)
            &&& deleted.revision == before.revision + 1
            &&& deleted.updated_at == now
            &&& deleted.sync_status == SyncStatus::Dirty
            &&& deleted == (ConnectionRow {
                deleted_at: deleted.deleted_at,
                revision: deleted.revision,
                updated_at: deleted.updated_at,
                sync_status: deleted.sync_status,
                ..before
            })
            &&& after.connections == tables.connections.update(at, deleted)
            &&& after.outbox.drop_last() == tables.outbox
            &&& entry.id == outbox_id
            &&& entry.workspace_id == active_workspace_of(tables)->Ok_0.id
            &&& entry.resource == ResourceKind::Connection
            &&& entry.resource_id == id
            &&& entry.operation == OutboxOperation::Delete
            &&& entry.revision == before.revision + 1
            &&& entry.created_at == now
            &&& after == (Tables {
                connections: after.connections,
                outbox: after.outbox,
                ..tables
            })
        }),
{
    let at = row_place(tables.connections, id)->0;
    let deleted = deleted_row(tables.connections[at], now);
    let after = revised(tables, id, deleted, OutboxOperation::Delete, outbox_id, now);
    assert(after.outbox.drop_last() =~= tables.outbox);
}

/// What a row is shown as. A local one is shown as it stands. Of a shared one the user, the
/// parameters, the credential and the access are the account's own; and writes are on only
/// where that access lets them be. Without a binding there is nothing personal, and the
/// connection may only be looked at.
pub proof fn rows_are_shown_as_they_stand(row: ConnectionRow, own: Binding)
    ensures
        ({
            let bare = bare_profile(row);
            let bound = seen_profile(row, Some(own));
            let unbound = seen_profile(row, None);
            &&& bare.id == row.id
            &&& bare.name == row.name
            &&& bare.engine == row.engine
            &&& bare.provider == row.provider
            &&& bare.driver_id == row.driver_id
            &&& bare.host == row.host
            &&& bare.port == row.port
            &&& bare.database == row.database
            &&& bare.username == row.username@
            &&& bare.sslmode == row.sslmode
            &&& bare.extra_params == stored_params(row.extra_params@)
            &&& bare.readonly_default == row.readonly_default
            &&& bare.allow_writes == row.allow_writes
            &&& bare.secret_ref == row.secret_ref
            &&& bare.env == row.env
            &&& bare.schema_group == row.schema_group
            &&& bare.workspace_access == row.workspace_access
            &&& bare.credential_mode == row.credential_mode
            &&& if row.workspace_access == WorkspaceConnectionAccess::Local {
                bound == bare && unbound == bare
            } else {
                &&& bound.username == own.username@
                &&& bound.extra_params == stored_params(own.extra_params@)
                &&& bound.secret_ref == own.secret_ref
                &&& bound.workspace_access == own.workspace_access
                &&& bound.allow_writes == (own.allow_writes && own.workspace_access
                    != WorkspaceConnectionAccess::View && own.workspace_access
                    != WorkspaceConnectionAccess::Read)
                &&& unbound.username == ""@
                &&& unbound.extra_params.len() == 0
                &&& unbound.secret_ref is None
                &&& unbound.workspace_access == WorkspaceConnectionAccess::View
                &&& !unbound.allow_writes
                &&& bound.name == bare.name && bound.host == bare.host && bound.port == bare.port
                    && bound.database == bare.database && bound.engine == bare.engine && bound.id
                    == bare.id
                &&& unbound.name == bare.name && unbound.host == bare.host && unbound.port
                    == bare.port && unbound.database == bare.database && unbound.engine
                    == bare.engine && unbound.id == bare.id
            }
        }),
{
}

/// A connection is shown in its own workspace while it is not deleted: in a personal one
/// always, and in a team where it is shared or the account's own. A team's are shown to
/// nobody without an account. One may be written by the workspace that has it, if it is not
/// shared and, in a team, is the account's own; and an id that nothing has may be written.
pub proof fn connections_are_shown_to_their_own(
    tables: Tables,
    id: u128,
    row: ConnectionRow,
    workspace_id: u128,
    kind: WorkspaceKind,
    account: Option<String>,
    profile: ConnectionProfile,
)
    ensures
        is_shown(row, workspace_id, kind, account) <==> row.workspace_id == workspace_id
            && row.deleted_at is None && (kind == WorkspaceKind::Personal || row.remote_id is Some
            || (row.account_user_id is Some && account is Some && row.account_user_id->0@
            == account->0@)),
        active_workspace_of(tables) matches Ok(workspace) ==> {
            &&& viewer(tables) is Err <==> workspace.kind == WorkspaceKind::Team
                && tables.active_account is None
            &&& viewer(tables) matches Ok(seen) ==> seen.0 == workspace.id && seen.1
                == workspace.kind
            &&& write_refusal(tables, id) is None <==> match row_of(tables.connections, id) {
                None => true,
                Some(held) => held.workspace_id == workspace.id && held.remote_id is None && (
                workspace.kind != WorkspaceKind::Team || (held.account_user_id is None
                    && tables.active_account is None) || (held.account_user_id is Some
                    && tables.active_account is Some && held.account_user_id->0@
                    == tables.active_account->0@)),
            }
            &&& save_refusal(tables, profile) is None <==> profile.workspace_access
                == WorkspaceConnectionAccess::Local && profile.credential_mode
                == WorkspaceCredentialMode::Local && !(workspace.kind == WorkspaceKind::Team
                && tables.active_account is None) && write_refusal(tables, profile.id) is None
        },
{
}

/// After a dashboard was saved its row holds what the draft says, in the active workspace,
/// at its first revision. The server is to hear of it, and nothing else has changed. It is
/// refused where its connection is no live one of the workspace, or its id is taken.
pub proof fn saving_writes_the_draft(
    tables: Tables,
    draft: DashboardDraft,
    visualization_json: String,
    id: u128,
    outbox_id: u128,
    now: i128,
)
    requires
        active_workspace_of(tables) is Ok,
    ensures
        ({
            let after = with_dashboard(tables, draft, visualization_json, id, outbox_id, now);
            let workspace = active_workspace_of(tables)->Ok_0;
            let row = after.dashboards.last();
            let entry = after.outbox.last();
            let told = dashboard_of(draft, id, now);
            &&& after.dashboards.drop_last() == tables.dashboards
            &&& row.id == id
            &&& row.connection_id == draft.connection_id
            &&& row.title == draft.title
            &&& row.description == draft.description
            &&& row.sql == draft.sql
            &&& row.visualization_json == visualization_json
            &&& row.workspace_id == workspace.id
            &&& row.revision == 1
            &&& row.sync_status == SyncStatus::Dirty
            &&& row.deleted_at is None
            &&& row.created_at == now && row.updated_at == now
            &&& told.id == id
            &&& told.connection_id == draft.connection_id
            &&& told.title == draft.title
            &&& told.description == draft.description
            &&& told.sql == draft.sql
            &&& told.visualization == draft.visualization
            &&& told.created_at == now && told.updated_at == now
            &&& after.outbox.drop_last() == tables.outbox
            &&& entry.id == outbox_id
            &&& entry.workspace_id == workspace.id
            &&& entry.resource == ResourceKind::Dashboard
            &&& entry.resource_id == id
            &&& entry.operation == OutboxOperation::Upsert
            &&& entry.revision == 1
            &&& entry.created_at == now
            &&& after == (Tables { dashboards: after.dashboards, outbox: after.outbox, ..tables })
            &&& dashboard_refusal(tables, draft.connection_id, id) is None <==> is_live(
                tables.connections,
                draft.connection_id,
                workspace.id,
            ) && forall|i: int|
                0 <= i < tables.dashboards.len() ==> (#[trigger] tables.dashboards[i]).id != id
        }),
{
    let after = with_dashboard(tables, draft, visualization_json, id, outbox_id, now);
    assert(after.dashboards.drop_last() =~= tables.dashboards);
    assert(after.outbox.drop_last() =~= tables.outbox);
}

/// A deleted dashboard stays as a row of which the server is to hear; only that row has
/// changed, in being deleted, its time and its revision. A dashboard is drawn from its own
/// row, and shown in its workspace while neither it nor its connection is deleted.
pub proof fn deleting_keeps_the_row(
    tables: Tables,
    id: u128,
    workspace_id: u128,
    outbox_id: u128,
    now: i128,
    visualization: DashboardVisualization,
)
    requires
        deletable_place(tables.dashboards, id, workspace_id) matches Some(at)
            && tables.dashboards[at].revision < i64::MAX,
    ensures
        ({
            let after = without_dashboard(tables, id, workspace_id, outbox_id, now);
            let at = deletable_place(tables.dashboards, id, workspace_id)->0;
            let before = tables.dashboards[at];
            let row = after.dashboards[at];
            let entry = after.outbox.last();
            let shown = drawn(before, visualization);
            &&& 0 <= at < tables.dashboards.len()
            &&& before.id == id && before.workspace_id == workspace_id && before.deleted_at is None
            &&& after.dashboards == tables.dashboards.update(at, row)
            &&& row.deleted_at == Some(now)
            &&& row.updated_at == now
            &&& row.revision == before.revision + 1
            &&& row.sync_status == SyncStatus::Dirty
            &&& row == (DashboardRow {
                deleted_at: row.deleted_at,
                updated_at: row.updated_at,
                revision: row.revision,
                sync_status: row.sync_status,
                ..before
            })
            &&& after.outbox.drop_last() == tables.outbox
            &&& entry.id == outbox_id
            &&& entry.workspace_id == workspace_id
            &&& entry.resource == ResourceKind::Dashboard
            &&& entry.resource_id == id
            &&& entry.operation == OutboxOperation::Delete
            &&& entry.revision == before.revision + 1
            &&& entry.created_at == now
            &&& after == (Tables { dashboards: after.dashboards, outbox: after.outbox, ..tables })
            &&& shown.id == before.id
            &&& shown.connection_id == before.connection_id
            &&& shown.title == before.title
            &&& shown.description == before.description
            &&& shown.sql == before.sql
            &&& shown.visualization == visualization
            &&& shown.created_at == before.created_at
            &&& shown.updated_at == before.updated_at
            &&& shows_dashboard(before, tables.connections, workspace_id) <==> (match row_of(
                tables.connections,
                before.connection_id,
            ) {
                Some(held) => held.workspace_id == workspace_id && held.deleted_at is None,
                None => false,
            })
            &&& !shows_dashboard(row, tables.connections, workspace_id)
        }),
{
    deletable_place_is_first(tables.dashboards, id, workspace_id);
    let after = without_dashboard(tables, id, workspace_id, outbox_id, now);
    let at = deletable_place(tables.dashboards, id, workspace_id)->0;
    assert(after.outbox.drop_last() =~= tables.outbox);
    assert(after.dashboards =~= tables.dashboards.update(at, after.dashboards[at]));
}

/// The end of a turn is taken down in the chat that it was of, and in no other: the session,
/// the model, the effort and the time are the turn's, and the title is given to a chat
/// that has none.
pub proof fn turns_are_taken_down_in_their_chat(
    threads: Seq<ThreadRow>,
    id: u128,
    workspace_id: u128,
    scope: Seq<char>,
    session: Option<String>,
    model: Option<String>,
    effort: Option<String>,
    title: String,
    now: i128,
    k: int,
)
    requires
        0 <= k < threads.len(),
    ensures
        ({
            let before = threads[k];
            let after = with_turn(
                threads,
                id,
                workspace_id,
                scope,
                session,
                model,
                effort,
                title,
                now,
            );
            &&& after.len() == threads.len()
            &&& if before.thread.id == id && before.workspace_id == workspace_id
                && before.account_scope@ == scope {
                let told = after[k].thread;
                &&& told.cli_session_id == session
                &&& told.model == model
                &&& told.effort == effort
                &&& told.updated_at == now
                &&& before.thread.title@.len() == 0 ==> told.title == title
                &&& before.thread.title@.len() > 0 ==> told.title == before.thread.title
                &&& told == (ChatThread {
                    cli_session_id: told.cli_session_id,
                    model: told.model,
                    effort: told.effort,
                    updated_at: told.updated_at,
                    title: told.title,
                    ..before.thread
                })
                &&& after[k].workspace_id == workspace_id
                &&& after[k].account_scope == before.account_scope
            } else {
                after[k] == before
            }
        }),
{
}

/// Whether a row holds what a template says, at this revision and as the server knows it.
pub open spec fn holds_template(
    row: ConnectionRow,
    profile: ConnectionProfile,
    revision: i64,
    now: i128,
) -> bool {
    &&& row.id == profile.id
    &&& row.name == profile.name
    &&& row.engine == profile.engine
    &&& row.provider == profile.provider
    &&& row.driver_id == profile.driver_id
    &&& row.host == profile.host
    &&& row.port == profile.port
    &&& row.database == profile.database
    &&& row.sslmode == profile.sslmode
    &&& row.readonly_default == profile.readonly_default
    &&& row.allow_writes == profile.allow_writes
    &&& row.env == profile.env
    &&& row.schema_group == profile.schema_group
    &&& row.remote_id == Some(profile.id)
    &&& row.revision == revision
    &&& row.sync_status == SyncStatus::Synced
    &&& row.workspace_access == profile.workspace_access
    &&& row.credential_mode == profile.credential_mode
    &&& row.deleted_at is None
    &&& row.updated_at == now
}

/// The row of a template holds what the server reports. A new one is of the workspace and
/// has nothing personal; one that was there keeps what it had of that, and when it was
/// made. A template lets members write where it says so and their access does.
pub proof fn templates_are_written_as_reported(
    before: ConnectionRow,
    profile: ConnectionProfile,
    revision: i64,
    workspace_id: u128,
    now: i128,
)
    ensures
        ({
            let row = template_row(profile, revision, workspace_id, now);
            let renewed = renewed_row(before, profile, revision, now);
            &&& holds_template(row, profile, revision, now)
            &&& row.workspace_id == workspace_id
            &&& row.account_user_id is None
            &&& row.username == Text::Plain("")
            &&& row.extra_params == Text::Plain("{}")
            &&& row.secret_ref is None
            &&& row.created_at == now
            &&& holds_template(renewed, profile, revision, now)
            &&& renewed.workspace_id == before.workspace_id
            &&& renewed.account_user_id == before.account_user_id
            &&& renewed.username == before.username
            &&& renewed.extra_params == before.extra_params
            &&& renewed.secret_ref == before.secret_ref
            &&& renewed.created_at == before.created_at
            &&& lets_write(profile) <==> profile.allow_writes && profile.workspace_access
                != WorkspaceConnectionAccess::View && profile.workspace_access
                != WorkspaceConnectionAccess::Read
        }),
{
}

/// Where a template is no longer reported, its row in that workspace is deleted, and no
/// other row is.
pub proof fn unreported_templates_are_deleted(
    connections: Seq<ConnectionRow>,
    workspace_id: u128,
    templates: Seq<Template>,
    now: i128,
    k: int,
)
    requires
        0 <= k < connections.len(),
    ensures
        ({
            let before = connections[k];
            let after = pruned(connections, workspace_id, templates, now)[k];
            let gone = before.workspace_id == workspace_id && before.remote_id is Some && forall|
                i: int,
            |
                0 <= i < templates.len() ==> (#[trigger] templates[i]).0.id != before.id;
            if gone {
                after == (ConnectionRow { deleted_at: Some(now), updated_at: now, ..before })
            } else {
                after == before
            }
        }),
{
}

/// What an account has of its own on a connection. The server's word on its access changes
/// the access, whether it may write, and the time; binding a credential changes the user,
/// the parameters, the credential and the time; each leaves the rest, and the bindings of
/// other accounts and connections, as they are. Before the server has said anything, an
/// account may only look.
pub proof fn bindings_keep_what_is_not_said(
    bindings: Seq<Binding>,
    connection_id: u128,
    account: String,
    access: WorkspaceConnectionAccess,
    writes: bool,
    username: String,
    extra_params: String,
    secret_ref: Option<String>,
    now: i128,
    k: int,
)
    requires
        0 <= k < bindings.len(),
    ensures
        ({
            let before = bindings[k];
            let own = before.connection_id == connection_id && before.account_user_id@ == account@;
            let granted = with_grant(bindings, connection_id, account, access, writes, now);
            let bound = with_credential(
                bindings,
                connection_id,
                account,
                username,
                extra_params,
                secret_ref,
                now,
            );
            let known = exists|i: int|
                0 <= i < bindings.len() && (#[trigger] bindings[i]).connection_id == connection_id
                    && bindings[i].account_user_id@ == account@;
            &&& !own ==> granted[k] == before && bound[k] == before
            &&& own ==> granted[k] == (Binding {
                workspace_access: access,
                allow_writes: writes,
                updated_at: now,
                ..before
            })
            &&& own ==> bound[k] == (Binding {
                username: Text::Owned(username),
                extra_params: Text::Owned(extra_params),
                secret_ref,
                updated_at: now,
                ..before
            })
            &&& known ==> granted.len() == bindings.len() && bound.len() == bindings.len()
            &&& !known ==> {
                &&& granted.len() == bindings.len() + 1 && bound.len() == bindings.len() + 1
                &&& granted.last().connection_id == connection_id
                &&& granted.last().account_user_id == account
                &&& granted.last().username == Text::Plain("")
                &&& granted.last().extra_params == Text::Plain("{}")
                &&& granted.last().secret_ref is None
                &&& granted.last().workspace_access == access
                &&& granted.last().allow_writes == writes
                &&& granted.last().updated_at == now
                &&& bound.last().connection_id == connection_id
                &&& bound.last().account_user_id == account
                &&& bound.last().username == Text::Owned(username)
                &&& bound.last().extra_params == Text::Owned(extra_params)
                &&& bound.last().secret_ref == secret_ref
                &&& bound.last().workspace_access == WorkspaceConnectionAccess::View
                &&& !bound.last().allow_writes
                &&& bound.last().updated_at == now
            }
        }),
{
}

/// The server's word on writing changes that one setting of that one connection.
pub proof fn writing_is_one_setting(safety: Seq<SafetyRow>, id: u128, writes: bool, k: int)
    requires
        0 <= k < safety.len(),
    ensures
        ({
            let before = safety[k];
            let after = with_writes(safety, id, writes)[k];
            &&& with_writes(safety, id, writes).len() == safety.len()
            &&& before.connection_id != id ==> after == before
            &&& before.connection_id == id ==> after.connection_id == id && after.settings == (
            SafetySettings { allow_writes: writes, ..before.settings })
        }),
{
}

/// An account binds its credential to a shared connection that is not deleted, in whose
/// workspace it is a member, and which its access lets it use.
pub proof fn only_members_bind(tables: Tables, id: u128, account: String)
    ensures
        bindable(tables, id, account) is Ok ==> (row_of(tables.connections, id) matches Some(row)
            && row.remote_id is Some && row.deleted_at is None
            && is_member(
            tables.members,
            row.workspace_id,
            account@,
        )),
        bindable(tables, id, account) matches Ok(seen) ==> seen.workspace_access
            != WorkspaceConnectionAccess::View,
        bindable(tables, id, account) matches Err(error) ==> error == AppError::NotFound(
            Text::WithId("shared connection ", id, ""),
        ) || error == (AppError::Blocked {
            reason: Text::Plain("workspace role cannot execute this connection"),
        }),
        row_of(tables.connections, id) matches Some(row) && row.remote_id is Some
            && row.deleted_at is None && is_member(tables.members, row.workspace_id, account@) ==> {
            let own = binding_row(tables.bindings, id, Some(account));
            let seen = seen_profile(row_of(tables.connections, id)->0, own);
            bindable(tables, id, account) is Ok <==> seen.workspace_access
                != WorkspaceConnectionAccess::View
        },
{
}

/// What is told where a team has no account at hand, and where a profile that is not local
/// in every respect is to be saved.
pub proof fn refused_savings_are_told(tables: Tables, profile: ConnectionProfile)
    requires
        active_workspace_of(tables) is Ok,
    ensures
        viewer(tables) matches Err(error) ==> error == AppError::Config(
            Text::Plain("a team workspace has no active authenticated account"),
        ),
        ({
            let workspace = active_workspace_of(tables)->Ok_0;
            let refused = save_refusal(tables, profile);
            if profile.workspace_access != WorkspaceConnectionAccess::Local {
                refused == Some(
                    AppError::Config(
                        Text::Plain(
                            "shared connection templates cannot be edited as local connections",
                        ),
                    ),
                )
            } else if profile.credential_mode != WorkspaceCredentialMode::Local {
                refused == Some(
                    AppError::Config(
                        Text::Plain("local connections must use local credential mode"),
                    ),
                )
            } else if workspace.kind == WorkspaceKind::Team && tables.active_account is None {
                refused == Some(
                    AppError::Config(
                        Text::Plain("team-local connections require an active account"),
                    ),
                )
            } else {
                refused is Some ==> refused == Some(
                    AppError::NotFound(Text::WithId("connection ", profile.id, "")),
                )
            }
        }),
        local_scope(tables) matches Err(error) ==> error == AppError::Config(
            Text::Plain("a team workspace has no active account"),
        ),
{
}

/// Templates are taken over one after the other, once those that are no longer reported were
/// deleted. Each renews the row that the workspace has of it, or adds one; its connection has
/// settings, of which writing is the server's word; and so is the account's access, with
/// what the account has of its own left as it was. A row that another workspace has stays.
pub proof fn templates_are_taken_over_in_order(
    tables: Tables,
    workspace_id: u128,
    account: String,
    templates: Seq<Template>,
    next: Template,
    now: i128,
)
    ensures
        templates_synced(tables, workspace_id, account, templates, now) == with_templates(
            Tables {
                connections: pruned(tables.connections, workspace_id, templates, now),
                ..tables
            },
            workspace_id,
            account,
            templates,
            now,
        ),
        with_templates(tables, workspace_id, account, Seq::empty(), now) == tables,
        ({
            let before = with_templates(tables, workspace_id, account, templates, now);
            let after = with_templates(tables, workspace_id, account, templates.push(next), now);
            let (profile, revision) = next;
            &&& match row_place(before.connections, profile.id) {
                Some(at) => if before.connections[at].workspace_id == workspace_id {
                    after.connections == before.connections.update(
                        at,
                        renewed_row(before.connections[at], profile, revision, now),
                    )
                } else {
                    after.connections == before.connections
                },
                None => after.connections == before.connections.push(
                    template_row(profile, revision, workspace_id, now),
                ),
            }
            &&& after.safety == with_writes(
                with_safety(before.safety, profile.id),
                profile.id,
                lets_write(profile),
            )
            &&& after.bindings == with_grant(
                before.bindings,
                profile.id,
                account,
                profile.workspace_access,
                lets_write(profile),
                now,
            )
            &&& after == (Tables {
                connections: after.connections,
                safety: after.safety,
                bindings: after.bindings,
                ..before
            })
        }),
{
    assert(templates.push(next).drop_last() =~= templates);
}

/// A connection that has settings keeps them; one that has none is given the cautious ones.
pub proof fn settings_are_made_sure_of(safety: Seq<SafetyRow>, id: u128)
    ensures
        safety_of(safety, id) is Some ==> with_safety(safety, id) == safety,
        safety_of(safety, id) is None ==> with_safety(safety, id).drop_last() == safety
            && with_safety(safety, id).last().connection_id == id && is_cautious(
            with_safety(safety, id).last().settings,
        ),
{
    if safety_of(safety, id) is None {
        assert(with_safety(safety, id).drop_last() =~= safety);
    }
}

} // verus!
