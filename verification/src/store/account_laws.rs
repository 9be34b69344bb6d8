//! What the rows of accounts, memberships and workspaces hold after each change, and in
//! what order rows are listed.
use vstd::prelude::*;

use crate::error::AppError;
use crate::model::{
    ChatMessageRecord, Workspace, WorkspaceAuthUser, WorkspaceConnectionAccess, WorkspaceKind,
    WorkspaceLifecycleState, WorkspaceRole,
};
use crate::store::directory::{
    account_row, active_row, active_workspace_of, admits, first_by_name, home_of, is_member, last_used,
    local_scope, membership_of, remembered, removed, selected, selection, without_deserted,
};
use crate::store::memberships::{
    all_put_away, claimed, cleared, concerns, rescoped, settled, synced, team_of, tidied,
    with_membership, with_moved, with_team, Reported,
};
use crate::store::order::{arranged, arranging_orders_the_rows};
use crate::store::tables::{
    Account, Binding, CacheRow, ConnectionRow, DashboardRow, HistoryRow, Member, Tables, ThreadRow,
};
use crate::text::{precedes, Text};
use crate::text_laws::the_order_of_texts_is_an_order;

verus! {

/// The active workspace is the one that the store names, while it is active; and whose data
/// it shows is the device's in a personal one, and the active account's in a team.
pub proof fn the_active_workspace_is_the_named_one(tables: Tables)
    ensures
        active_workspace_of(tables) is Ok <==> exists|k: int|
            0 <= k < tables.workspaces.len() && (#[trigger] tables.workspaces[k]).id
                == tables.active_workspace && tables.workspaces[k].lifecycle_state
                == WorkspaceLifecycleState::Active,
        active_workspace_of(tables) matches Ok(workspace) ==> workspace.id
            == tables.active_workspace && workspace.lifecycle_state
            == WorkspaceLifecycleState::Active && tables.workspaces.contains(workspace),
        active_workspace_of(tables) matches Err(error) ==> error == AppError::Config(
            Text::Plain("no active workspace is configured"),
        ),
        active_workspace_of(tables) matches Ok(workspace) ==> match workspace.kind {
            WorkspaceKind::Personal => local_scope(tables) is Ok && local_scope(tables)->Ok_0@
                == "personal"@,
            WorkspaceKind::Team => match tables.active_account {
                Some(id) => local_scope(tables) is Ok && local_scope(tables)->Ok_0@ == id@,
                None => local_scope(tables) is Err,
            },
        },
{
    active_rows_are_found(tables.workspaces, tables.active_workspace);
}

/// A workspace is found by its id among the active ones.
pub proof fn active_rows_are_found(workspaces: Seq<Workspace>, id: u128)
    ensures
        match active_row(workspaces, id) {
            Some(found) => found.id == id && found.lifecycle_state
                == WorkspaceLifecycleState::Active && workspaces.contains(found),
            None => forall|k: int|
                0 <= k < workspaces.len() ==> (#[trigger] workspaces[k]).id != id
                    || workspaces[k].lifecycle_state != WorkspaceLifecycleState::Active,
        },
    decreases workspaces.len(),
{
    if workspaces.len() > 0 {
        let rest = workspaces.drop_first();
        active_rows_are_found(rest, id);
        match active_row(rest, id) {
            Some(found) => {
                let k = choose|k: int| 0 <= k < rest.len() && rest[k] == found;
                assert(workspaces[k + 1] == found);
            },
            None => {
                assert forall|k: int| 0 < k < workspaces.len() implies (
                #[trigger] workspaces[k]).id != id || workspaces[k].lifecycle_state
                    != WorkspaceLifecycleState::Active by {
                    assert(rest[k - 1] == workspaces[k]);
                }
            },
        }
        assert(workspaces.contains(workspaces[0]));
    }
}

/// An account is found by its user's id.
pub proof fn accounts_are_found(accounts: Seq<Account>, user_id: Seq<char>)
    ensures
        match account_row(accounts, user_id) {
            Some(found) => found.user.id@ == user_id && accounts.contains(found),
            None => forall|k: int|
                0 <= k < accounts.len() ==> (#[trigger] accounts[k]).user.id@ != user_id,
        },
    decreases accounts.len(),
{
    if accounts.len() > 0 {
        let rest = accounts.drop_first();
        accounts_are_found(rest, user_id);
        match account_row(rest, user_id) {
            Some(found) => {
                let k = choose|k: int| 0 <= k < rest.len() && rest[k] == found;
                assert(accounts[k + 1] == found);
            },
            None => {
                assert forall|k: int| 0 < k < accounts.len() implies (
                #[trigger] accounts[k]).user.id@ != user_id by {
                    assert(rest[k - 1] == accounts[k]);
                }
            },
        }
        assert(accounts.contains(accounts[0]));
    }
}

/// Where an account opens: in the workspace that it used last, while that is active and the
/// account belongs to it; else in an active one that it belongs to; and in the personal one
/// only where there is none.
pub proof fn accounts_open_at_home(tables: Tables, user_id: Seq<char>)
    ensures
        ({
            let home = home_of(tables, user_id);
            let last = match account_row(tables.accounts, user_id) {
                Some(account) => account.last_workspace_id,
                None => None,
            };
            if last is Some && is_member(tables.members, last->0, user_id) && active_row(
                tables.workspaces,
                last->0,
            ) is Some {
                home == last->0
            } else {
                ||| is_member(tables.members, home, user_id) && active_row(
                    tables.workspaces,
                    home,
                ) is Some
                ||| home == 1 && forall|k: int|
                    0 <= k < tables.members.len() && (#[trigger] tables.members[k]).active && (
                    tables.members[k].user_id matches Some(id) && id@ == user_id) ==> active_row(
                        tables.workspaces,
                        tables.members[k].workspace_id,
                    ) is None
            }
        }),
{
    first_by_name_is_ones_own(tables.members, tables.workspaces, user_id);
}

proof fn first_by_name_is_ones_own(
    members: Seq<Member>,
    workspaces: Seq<Workspace>,
    user_id: Seq<char>,
)
    ensures
        match first_by_name(members, workspaces, user_id) {
            Some(found) => is_member(members, found.id, user_id) && active_row(
                workspaces,
                found.id,
            ) is Some,
            None => forall|k: int|
                0 <= k < members.len() && (#[trigger] members[k]).active && (
                members[k].user_id matches Some(id) && id@ == user_id) ==> active_row(
                    workspaces,
                    members[k].workspace_id,
                ) is None,
        },
    decreases members.len(),
{
    if members.len() > 0 {
        let rest = members.drop_last();
        first_by_name_is_ones_own(rest, workspaces, user_id);
        active_rows_are_found(workspaces, members.last().workspace_id);
        assert(forall|k: int| 0 <= k < rest.len() ==> #[trigger] rest[k] == members[k]);
        match first_by_name(members, workspaces, user_id) {
            Some(found) => {
                let last = members[members.len() - 1];
                if first_by_name(rest, workspaces, user_id) == Some(found) {
                    let k = choose|k: int|
                        0 <= k < rest.len() && admits(
                            #[trigger] rest[k],
                            found.id,
                            user_id,
                        );
                    assert(admits(members[k], found.id, user_id));
                } else {
                    assert(admits(last, found.id, user_id));
                }
            },
            None => {
                assert forall|k: int|
                    0 <= k < members.len() && (#[trigger] members[k]).active && (
                    members[k].user_id matches Some(id) && id@ == user_id) implies active_row(
                    workspaces,
                    members[k].workspace_id,
                ) is None by {
                    if k < rest.len() {
                        assert(rest[k] == members[k]);
                    }
                }
            },
        }
    }
}

/// A workspace may be chosen while it is active: a personal one by anyone, as a remembered
/// account or as none; a team's only as a remembered account that belongs to it.
pub proof fn workspaces_are_chosen_by_their_members(tables: Tables, id: u128, account: Option<String>)
    ensures
        ({
            let found = active_row(tables.workspaces, id);
            let r = selection(tables, id, account);
            &&& r is Ok <==> found is Some && (match account {
                Some(user) => account_row(tables.accounts, user@) is Some && (found->0.kind
                    == WorkspaceKind::Team ==> is_member(tables.members, id, user@)),
                None => found->0.kind == WorkspaceKind::Personal,
            })
            &&& r matches Ok(workspace) ==> Some(workspace) == found
            &&& found is None ==> r == Err::<Workspace, AppError>(
                AppError::NotFound(Text::WithId("workspace ", id, "")),
            )
        }),
{
}

/// Choosing a workspace makes it and the account the active ones, and is taken down in that
/// account: when it was used and, if it is a team's, which it was. Nothing else changes.
pub proof fn choosing_is_taken_down(
    tables: Tables,
    workspace: Workspace,
    account: Option<String>,
    now: i128,
    k: int,
)
    requires
        0 <= k < tables.accounts.len(),
    ensures
        ({
            let after = selected(tables, workspace, account, now);
            let before = tables.accounts[k];
            let own = account matches Some(user) && before.user.id@ == user@;
            &&& after.active_workspace == workspace.id
            &&& after.active_account == account
            &&& after.accounts.len() == tables.accounts.len()
            &&& !own ==> after.accounts[k] == before
            &&& own ==> {
                let told = after.accounts[k];
                &&& told.user == before.user
                &&& told.created_at == before.created_at
                &&& told.last_used_at == now && told.updated_at == now
                &&& workspace.kind == WorkspaceKind::Team ==> told.last_workspace_id == Some(
                    workspace.id,
                )
                &&& workspace.kind != WorkspaceKind::Team ==> told.last_workspace_id
                    == before.last_workspace_id
            }
            &&& after == (Tables {
                active_workspace: after.active_workspace,
                active_account: after.active_account,
                accounts: after.accounts,
                ..tables
            })
        }),
{
}

/// A remembered account takes over the name and the address that are reported, and keeps
/// the rest; one that is new is put down as used just now, and nowhere yet.
pub proof fn accounts_are_remembered_as_reported(
    accounts: Seq<Account>,
    user: WorkspaceAuthUser,
    now: i128,
    k: int,
)
    requires
        0 <= k < accounts.len(),
    ensures
        ({
            let after = remembered(accounts, user, now);
            let before = accounts[k];
            let known = account_row(accounts, user.id@) is Some;
            &&& known ==> after.len() == accounts.len()
            &&& before.user.id@ != user.id@ ==> after[k] == before
            &&& before.user.id@ == user.id@ ==> known && after[k].user.id == before.user.id
                && after[k].user.email == user.email && after[k].user.display_name
                == user.display_name && after[k].updated_at == now && after[k].last_workspace_id
                == before.last_workspace_id && after[k].created_at == before.created_at
                && after[k].last_used_at == before.last_used_at
            &&& !known ==> {
                &&& after.len() == accounts.len() + 1
                &&& after.last().user == user
                &&& after.last().last_workspace_id is None
                &&& after.last().created_at == now && after.last().updated_at == now
                    && after.last().last_used_at == now
            }
        }),
{
    accounts_are_found(accounts, user.id@);
}

/// The account that takes over is the one that was used last.
pub proof fn the_last_used_account_takes_over(accounts: Seq<Account>)
    ensures
        match last_used(accounts) {
            None => accounts.len() == 0,
            Some(found) => accounts.contains(found) && forall|k: int|
                0 <= k < accounts.len() ==> (#[trigger] accounts[k]).last_used_at
                    <= found.last_used_at,
        },
    decreases accounts.len(),
{
    if accounts.len() > 0 {
        let rest = accounts.drop_last();
        the_last_used_account_takes_over(rest);
        assert(accounts[accounts.len() - 1] == accounts.last());
        match last_used(rest) {
            None => {},
            Some(found) => {
                let k = choose|k: int| 0 <= k < rest.len() && rest[k] == found;
                assert(accounts[k] == found);
                assert forall|j: int| 0 <= j < rest.len() implies (
                #[trigger] accounts[j]).last_used_at <= found.last_used_at by {
                    assert(rest[j] == accounts[j]);
                }
            },
        }
    }
}

/// A removed account leaves whoever is active as they are, unless it was the active one
/// itself: then the account that was used last takes its place, where it opens, or nobody
/// does, in the personal workspace.
pub proof fn removing_hands_over(tables: Tables, user_id: Seq<char>, now: i128)
    ensures
        ({
            let after = removed(tables, user_id, now);
            let active = tables.active_account matches Some(id) && id@ == user_id;
            &&& !active ==> after.active_account == tables.active_account && after.active_workspace
                == tables.active_workspace
            &&& active ==> match last_used(after.accounts) {
                Some(account) => after.active_account == Some(account.user.id),
                None => after.active_account is None && after.active_workspace == 1,
            }
        }),
{
}

/// A team without members is archived, and every other workspace stays as it is.
pub proof fn deserted_teams_are_archived(
    workspaces: Seq<Workspace>,
    members: Seq<Member>,
    now: i128,
    k: int,
)
    requires
        0 <= k < workspaces.len(),
    ensures
        ({
            let before = workspaces[k];
            let after = without_deserted(workspaces, members, now);
            let deserted = before.kind == WorkspaceKind::Team && forall|i: int|
                0 <= i < members.len() ==> (#[trigger] members[i]).workspace_id != before.id
                    || !members[i].active;
            &&& after.len() == workspaces.len()
            &&& if deserted {
                after[k] == (Workspace {
                    lifecycle_state: WorkspaceLifecycleState::Archived,
                    updated_at: now,
                    ..before
                })
            } else {
                after[k] == before
            }
        }),
{
}

/// A reported team is active under the name that is reported; a new one is put down as made
/// just now; and no other workspace, nor the personal one, changes. A reported membership
/// holds in the role that is reported; a new one begins now, under the fresh id; and no
/// other membership changes. A user's memberships are put away together.
pub proof fn reported_teams_are_joined(
    workspaces: Seq<Workspace>,
    members: Seq<Member>,
    id: u128,
    name: String,
    user: WorkspaceAuthUser,
    role: WorkspaceRole,
    member_id: u128,
    now: i128,
    w: int,
    m: int,
)
    requires
        0 <= w < workspaces.len(),
        0 <= m < members.len(),
    ensures
        ({
            let after = with_team(workspaces, id, name, now);
            let team = workspaces[w];
            let known = exists|i: int| 0 <= i < workspaces.len() && (#[trigger] workspaces[i]).id == id;
            &&& team.id == id && team.kind == WorkspaceKind::Team ==> after[w] == (Workspace {
                name,
                lifecycle_state: WorkspaceLifecycleState::Active,
                updated_at: now,
                ..team
            })
            &&& team.id != id || team.kind != WorkspaceKind::Team ==> after[w] == team
            &&& known ==> after.len() == workspaces.len()
            &&& !known ==> after.len() == workspaces.len() + 1 && after.last() == (Workspace {
                id,
                name,
                kind: WorkspaceKind::Team,
                lifecycle_state: WorkspaceLifecycleState::Active,
                created_at: now,
                updated_at: now,
            })
        }),
        ({
            let after = with_membership(members, id, user, role, member_id, now);
            let before = members[m];
            let own = before.workspace_id == id && (before.user_id matches Some(text) && text@
                == user.id@);
            let known = exists|i: int|
                0 <= i < members.len() && (#[trigger] members[i]).workspace_id == id && (
                members[i].user_id matches Some(text) && text@ == user.id@);
            &&& own ==> after[m] == (Member {
                display_name: user.display_name,
                role,
                active: true,
                ..before
            })
            &&& !own ==> after[m] == before
            &&& known ==> after.len() == members.len()
            &&& !known ==> after.len() == members.len() + 1 && after.last() == (Member {
                id: member_id,
                workspace_id: id,
                user_id: Some(user.id),
                display_name: user.display_name,
                role,
                active: true,
                joined_at: now,
            })
        }),
        ({
            let before = members[m];
            let after = all_put_away(members, user.id@)[m];
            let own = before.user_id matches Some(text) && text@ == user.id@;
            &&& own ==> after == (Member { active: false, ..before })
            &&& !own ==> after == before
        }),
        membership_of(members[m]).workspace_id == members[m].workspace_id,
        membership_of(members[m]).role == members[m].role,
{
    let known = exists|i: int|
        0 <= i < members.len() && (#[trigger] members[i]).workspace_id == id && (
        members[i].user_id matches Some(text) && text@ == user.id@);
    if known {
        let i = choose|i: int|
            0 <= i < members.len() && (#[trigger] members[i]).workspace_id == id && (
            members[i].user_id matches Some(text) && text@ == user.id@);
        assert(concerns(members[i], id, user.id@));
    }
}

/// What was nobody's in a user's teams becomes theirs: a connection that is not shared and
/// has no owner. A shared one is cleared of what belongs to a member. Nothing else about a
/// connection changes.
pub proof fn ownerless_connections_are_claimed(
    connections: Seq<ConnectionRow>,
    members: Seq<Member>,
    user_id: String,
    k: int,
)
    requires
        0 <= k < connections.len(),
    ensures
        ({
            let before = connections[k];
            let after = claimed(connections, members, user_id)[k];
            let bare = cleared(connections, members, user_id@)[k];
            let member = is_member(members, before.workspace_id, user_id@);
            &&& if before.remote_id is None && before.account_user_id is None && member {
                after == (ConnectionRow { account_user_id: Some(user_id), ..before })
            } else {
                after == before
            }
            &&& if before.remote_id is Some && member && (before.username@ != ""@
                || before.extra_params@ != "{}"@ || before.secret_ref is Some) {
                bare == (ConnectionRow {
                    username: Text::Plain(""),
                    extra_params: Text::Plain("{}"),
                    secret_ref: None,
                    ..before
                })
            } else {
                bare == before
            }
        }),
{
}

/// The history, the catalogs and the chats that the device's scope has of a user's teams
/// become that user's; those of any other scope, and of no team of theirs, stay as they are.
pub proof fn records_of_teams_are_rescoped(
    tables: Tables,
    user_id: String,
    h: int,
    c: int,
    t: int,
)
    requires
        0 <= h < tables.history.len(),
        0 <= c < tables.schema_cache.len(),
        0 <= t < tables.threads.len(),
    ensures
        ({
            let after = rescoped(tables, user_id);
            let line = tables.history[h];
            let catalog = tables.schema_cache[c];
            let chat = tables.threads[t];
            &&& if line.account_scope@ == "personal"@ && team_of(
                tables,
                line.entry.connection_id,
                user_id@,
            ) is Some {
                after.history[h] == (HistoryRow { account_scope: Text::Owned(user_id), ..line })
            } else {
                after.history[h] == line
            }
            &&& if catalog.account_scope@ == "personal"@ && team_of(
                tables,
                catalog.connection_id,
                user_id@,
            ) is Some {
                after.schema_cache[c] == (CacheRow {
                    account_scope: Text::Owned(user_id),
                    ..catalog
                })
            } else {
                after.schema_cache[c] == catalog
            }
            &&& if chat.account_scope@ == "personal"@ && chat.thread.connection_id is Some
                && team_of(tables, chat.thread.connection_id->0, user_id@) is Some {
                after.threads[t] == (ThreadRow {
                    account_scope: Text::Owned(user_id),
                    workspace_id: team_of(tables, chat.thread.connection_id->0, user_id@)->0,
                    ..chat
                })
            } else {
                after.threads[t] == chat
            }
            &&& after == (Tables {
                history: after.history,
                schema_cache: after.schema_cache,
                threads: after.threads,
                ..tables
            })
        }),
{
}

/// An account forgets the workspace that it used last once it no longer belongs there, and
/// no other account forgets anything.
pub proof fn lost_workspaces_are_forgotten(
    accounts: Seq<Account>,
    members: Seq<Member>,
    user_id: Seq<char>,
    k: int,
)
    requires
        0 <= k < accounts.len(),
    ensures
        ({
            let before = accounts[k];
            let after = settled(accounts, members, user_id)[k];
            if before.user.id@ == user_id && (before.last_workspace_id matches Some(id) && !is_member(
                members,
                id,
                user_id,
            )) {
                after == (Account { last_workspace_id: None, ..before })
            } else {
                after == before
            }
        }),
{
}

/// A report that names the personal workspace is refused whole.
pub proof fn the_personal_workspace_is_not_reported(
    tables: Tables,
    user: WorkspaceAuthUser,
    reported: Seq<Reported>,
    member_ids: Seq<u128>,
    now: i128,
)
    requires
        exists|i: int| 0 <= i < reported.len() && (#[trigger] reported[i]).0 == 1,
    ensures
        synced(tables, user, reported, member_ids, now).0 == Some(
            AppError::Config(
                Text::Plain("remote workspace conflicts with the Personal Workspace"),
            ),
        ),
        synced(tables, user, reported, member_ids, now).1 == tables,
{
}

/// The order of listings: of the history the latest first; of the chats, the dashboards and
/// the accounts those that changed or were used last first; and of the messages of a chat,
/// and of memberships, the oldest first.
pub proof fn listings_go_by_time(
    lines: Seq<HistoryRow>,
    chats: Seq<ThreadRow>,
    dashboards: Seq<DashboardRow>,
    accounts: Seq<Account>,
    messages: Seq<ChatMessageRecord>,
    members: Seq<Member>,
)
    ensures
        forall|i: int, j: int|
            0 <= i < j < lines.len() ==> (#[trigger] arranged(lines)[i]).entry.executed_at >= (
            #[trigger] arranged(lines)[j]).entry.executed_at,
        forall|i: int, j: int|
            0 <= i < j < chats.len() ==> (#[trigger] arranged(chats)[i]).thread.updated_at >= (
            #[trigger] arranged(chats)[j]).thread.updated_at,
        forall|i: int, j: int|
            0 <= i < j < dashboards.len() ==> (#[trigger] arranged(dashboards)[i]).updated_at >= (
            #[trigger] arranged(dashboards)[j]).updated_at,
        forall|i: int, j: int|
            0 <= i < j < accounts.len() ==> (#[trigger] arranged(accounts)[i]).last_used_at >= (
            #[trigger] arranged(accounts)[j]).last_used_at,
        forall|i: int, j: int|
            0 <= i < j < messages.len() ==> (#[trigger] arranged(messages)[i]).created_at <= (
            #[trigger] arranged(messages)[j]).created_at,
        forall|i: int, j: int|
            0 <= i < j < members.len() ==> (#[trigger] arranged(members)[i]).joined_at <= (
            #[trigger] arranged(members)[j]).joined_at,
{
    let line_order = |a: HistoryRow, b: HistoryRow| a.entry.executed_at >= b.entry.executed_at;
    let chat_order = |a: ThreadRow, b: ThreadRow| a.thread.updated_at >= b.thread.updated_at;
    let dashboard_order = |a: DashboardRow, b: DashboardRow| a.updated_at >= b.updated_at;
    let account_order = |a: Account, b: Account| a.last_used_at >= b.last_used_at;
    let message_order = |a: ChatMessageRecord, b: ChatMessageRecord| a.created_at <= b.created_at;
    let member_order = |a: Member, b: Member| a.joined_at <= b.joined_at;
    arranging_orders_the_rows(lines, line_order);
    arranging_orders_the_rows(chats, chat_order);
    arranging_orders_the_rows(dashboards, dashboard_order);
    arranging_orders_the_rows(accounts, account_order);
    arranging_orders_the_rows(messages, message_order);
    arranging_orders_the_rows(members, member_order);
    assert forall|i: int, j: int| 0 <= i < j < lines.len() implies (
    #[trigger] arranged(lines)[i]).entry.executed_at >= (
    #[trigger] arranged(lines)[j]).entry.executed_at by {
        assert(line_order(arranged(lines)[i], arranged(lines)[j]));
    }
    assert forall|i: int, j: int| 0 <= i < j < chats.len() implies (
    #[trigger] arranged(chats)[i]).thread.updated_at >= (
    #[trigger] arranged(chats)[j]).thread.updated_at by {
        assert(chat_order(arranged(chats)[i], arranged(chats)[j]));
    }
    assert forall|i: int, j: int| 0 <= i < j < dashboards.len() implies (
    #[trigger] arranged(dashboards)[i]).updated_at >= (
    #[trigger] arranged(dashboards)[j]).updated_at by {
        assert(dashboard_order(arranged(dashboards)[i], arranged(dashboards)[j]));
    }
    assert forall|i: int, j: int| 0 <= i < j < accounts.len() implies (
    #[trigger] arranged(accounts)[i]).last_used_at >= (
    #[trigger] arranged(accounts)[j]).last_used_at by {
        assert(account_order(arranged(accounts)[i], arranged(accounts)[j]));
    }
    assert forall|i: int, j: int| 0 <= i < j < messages.len() implies (
    #[trigger] arranged(messages)[i]).created_at <= (
    #[trigger] arranged(messages)[j]).created_at by {
        assert(message_order(arranged(messages)[i], arranged(messages)[j]));
    }
    assert forall|i: int, j: int| 0 <= i < j < members.len() implies (
    #[trigger] arranged(members)[i]).joined_at <= (
    #[trigger] arranged(members)[j]).joined_at by {
        assert(member_order(arranged(members)[i], arranged(members)[j]));
    }
}

/// What shared rows carried of a member's becomes that member's own binding: those that were
/// there stay as they are, and each that is added is the member's, grants nothing until the
/// server says so, and holds what a shared row of one of their teams carried.
pub proof fn moved_bindings_grant_nothing(
    bindings: Seq<Binding>,
    connections: Seq<ConnectionRow>,
    members: Seq<Member>,
    user_id: String,
    now: i128,
)
    ensures
        ({
            let after = with_moved(bindings, connections, members, user_id, now);
            &&& after.len() >= bindings.len()
            &&& forall|k: int| 0 <= k < bindings.len() ==> #[trigger] after[k] == bindings[k]
            &&& forall|k: int|
                bindings.len() <= k < after.len() ==> {
                    let moved = #[trigger] after[k];
                    &&& moved.account_user_id == user_id
                    &&& moved.workspace_access == WorkspaceConnectionAccess::View
                    &&& !moved.allow_writes
                    &&& moved.updated_at == now
                    &&& exists|i: int|
                        0 <= i < connections.len() && (#[trigger] connections[i]).id
                            == moved.connection_id && connections[i].username == moved.username
                            && connections[i].extra_params == moved.extra_params
                            && connections[i].secret_ref == moved.secret_ref
                            && connections[i].remote_id is Some && is_member(
                            members,
                            connections[i].workspace_id,
                            user_id@,
                        )
                }
        }),
    decreases connections.len(),
{
    if connections.len() > 0 {
        let rest = connections.drop_last();
        moved_bindings_grant_nothing(bindings, rest, members, user_id, now);
        let earlier = with_moved(bindings, rest, members, user_id, now);
        let after = with_moved(bindings, connections, members, user_id, now);
        let last = connections[connections.len() - 1];
        assert forall|k: int| bindings.len() <= k < after.len() implies {
            let moved = #[trigger] after[k];
            &&& moved.account_user_id == user_id
            &&& moved.workspace_access == WorkspaceConnectionAccess::View
            &&& !moved.allow_writes
            &&& moved.updated_at == now
            &&& exists|i: int|
                0 <= i < connections.len() && (#[trigger] connections[i]).id == moved.connection_id
                    && connections[i].username == moved.username && connections[i].extra_params
                    == moved.extra_params && connections[i].secret_ref == moved.secret_ref
                    && connections[i].remote_id is Some && is_member(
                    members,
                    connections[i].workspace_id,
                    user_id@,
                )
        } by {
            if k < earlier.len() {
                let moved = earlier[k];
                assert(after[k] == moved);
                let i = choose|i: int|
                    0 <= i < rest.len() && (#[trigger] rest[i]).id == moved.connection_id
                        && rest[i].username == moved.username && rest[i].extra_params
                        == moved.extra_params && rest[i].secret_ref == moved.secret_ref
                        && rest[i].remote_id is Some && is_member(
                        members,
                        rest[i].workspace_id,
                        user_id@,
                    );
                assert(connections[i] == rest[i]);
            } else {
                assert(last.id == after[k].connection_id);
            }
        }
        assert forall|k: int| 0 <= k < bindings.len() implies #[trigger] after[k] == bindings[k] by {
            assert(earlier[k] == bindings[k]);
        }
    }
}

/// Of the active workspaces that a user belongs to, an account without a last one opens in
/// one with the least name.
pub proof fn the_least_name_comes_first(
    members: Seq<Member>,
    workspaces: Seq<Workspace>,
    user_id: Seq<char>,
)
    ensures
        first_by_name(members, workspaces, user_id) matches Some(found) ==> forall|k: int|
            0 <= k < members.len() && (#[trigger] members[k]).active && (
            members[k].user_id matches Some(id) && id@ == user_id) && active_row(
                workspaces,
                members[k].workspace_id,
            ) is Some ==> !precedes(
                active_row(workspaces, members[k].workspace_id)->0.name@,
                found.name@,
            ),
    decreases members.len(),
{
    if members.len() > 0 {
        let rest = members.drop_last();
        the_least_name_comes_first(rest, workspaces, user_id);
        first_by_name_is_ones_own(rest, workspaces, user_id);
        let before = first_by_name(rest, workspaces, user_id);
        match first_by_name(members, workspaces, user_id) {
            Some(found) => {
                assert forall|k: int|
                    0 <= k < members.len() && (#[trigger] members[k]).active && (
                    members[k].user_id matches Some(id) && id@ == user_id) && active_row(
                        workspaces,
                        members[k].workspace_id,
                    ) is Some implies !precedes(
                    active_row(workspaces, members[k].workspace_id)->0.name@,
                    found.name@,
                ) by {
                    let name = active_row(workspaces, members[k].workspace_id)->0.name@;
                    the_order_of_texts_is_an_order(name, found.name@, name);
                    if k < rest.len() {
                        assert(rest[k] == members[k]);
                        match before {
                            Some(earlier) => {
                                the_order_of_texts_is_an_order(found.name@, earlier.name@, name);
                            },
                            None => {},
                        }
                    }
                }
            },
            None => {},
        }
    }
}

/// Tidying up archives deserted teams and leaves the active workspace as it is, unless it is
/// a team that is no longer active: then the personal one takes its place.
pub proof fn closed_teams_are_left(tables: Tables, user_id: Seq<char>, now: i128)
    ensures
        ({
            let after = tidied(tables, user_id, now);
            let closed = exists|i: int|
                0 <= i < after.workspaces.len() && (#[trigger] after.workspaces[i]).id
                    == tables.active_workspace && after.workspaces[i].kind == WorkspaceKind::Team
                    && after.workspaces[i].lifecycle_state != WorkspaceLifecycleState::Active;
            &&& after.workspaces == without_deserted(tables.workspaces, tables.members, now)
            &&& after.accounts == settled(tables.accounts, tables.members, user_id)
            &&& closed ==> after.active_workspace == 1
            &&& !closed ==> after.active_workspace == tables.active_workspace
            &&& after == (Tables {
                workspaces: after.workspaces,
                accounts: after.accounts,
                active_workspace: after.active_workspace,
                ..tables
            })
        }),
{
}

} // verus!
