//! Taking over the memberships of an account from the server, and what follows from them.
use vstd::prelude::*;

use crate::error::{AppError, AppResult};
use crate::ids::PERSONAL_WORKSPACE_ID;
use crate::model::{
    Workspace, WorkspaceAuthUser, WorkspaceConnectionAccess, WorkspaceKind,
    WorkspaceLifecycleState, WorkspaceRole,
};
use crate::store::directory::{
    active_workspace_of, archive_deserted, has_member, home_of, is_member, remembered, selected,
    selection, without_deserted,
};
use crate::store::tables::{
    copy_rows, Account, Binding, CacheRow, ConnectionRow, HistoryRow, Member, Store, Tables,
    ThreadRow,
};
use crate::text::{holds_text, is_text, same_text, text_equals, Text};

verus! {

/// Whether a workspace with this id is known, in whatever state.
pub open spec fn knows_workspace(workspaces: Seq<Workspace>, id: u128) -> bool {
    exists|i: int| 0 <= i < workspaces.len() && (#[trigger] workspaces[i]).id == id
}

/// Computes [`knows_workspace`].
pub fn has_workspace(workspaces: &Vec<Workspace>, id: u128) -> (r: bool)
    ensures
        r == knows_workspace(workspaces@, id),
{
    let mut i: usize = 0;
    while i < workspaces.len()
        invariant
            i <= workspaces@.len(),
            forall|j: int| 0 <= j < i ==> (#[trigger] workspaces@[j]).id != id,
        decreases workspaces@.len() - i,
    {
        if workspaces[i].id == id {
            return true;
        }
        i = i + 1;
    }
    false
}

/// The workspaces after a team was reported.
pub open spec fn with_team(workspaces: Seq<Workspace>, id: u128, name: String, now: i128) -> Seq<
    Workspace,
> {
    if knows_workspace(workspaces, id) {
        Seq::new(
            workspaces.len(),
            |i: int|
                if workspaces[i].id == id && workspaces[i].kind == WorkspaceKind::Team {
                    Workspace {
                        name,
                        lifecycle_state: WorkspaceLifecycleState::Active,
                        updated_at: now,
                        ..workspaces[i]
                    }
                } else {
                    workspaces[i]
                },
        )
    } else {
        workspaces.push(
            Workspace {
                id,
                name,
                kind: WorkspaceKind::Team,
                lifecycle_state: WorkspaceLifecycleState::Active,
                created_at: now,
                updated_at: now,
            },
        )
    }
}

/// Computes [`with_team`].
fn report_team(workspaces: &mut Vec<Workspace>, id: u128, name: &String, now: i128)
    ensures
        final(workspaces)@ == with_team(old(workspaces)@, id, *name, now),
{
    let ghost before = workspaces@;
    if has_workspace(workspaces, id) {
        let mut i: usize = 0;
        while i < workspaces.len()
            invariant
                before == old(workspaces)@,
                knows_workspace(before, id),
                workspaces@.len() == before.len(),
                i <= workspaces@.len(),
                forall|j: int|
                    0 <= j < i ==> #[trigger] workspaces@[j] == with_team(
                        before,
                        id,
                        *name,
                        now,
                    )[j],
                forall|j: int| i <= j < before.len() ==> #[trigger] workspaces@[j] == before[j],
            decreases workspaces@.len() - i,
        {
            if workspaces[i].id == id && workspaces[i].kind == WorkspaceKind::Team {
                workspaces[i].name = name.clone();
                workspaces[i].lifecycle_state = WorkspaceLifecycleState::Active;
                workspaces[i].updated_at = now;
            }
            i = i + 1;
        }
        assert(workspaces@ =~= with_team(before, id, *name, now));
    } else {
        workspaces.push(
            Workspace {
                id,
                name: name.clone(),
                kind: WorkspaceKind::Team,
                lifecycle_state: WorkspaceLifecycleState::Active,
                created_at: now,
                updated_at: now,
            },
        );
    }
}

/// Whether a row is about this user and this workspace, whether it holds or not.
pub open spec fn concerns(member: Member, workspace_id: u128, user_id: Seq<char>) -> bool {
    member.workspace_id == workspace_id && is_text(member.user_id, user_id)
}

/// Whether there is a row about this user and this workspace.
pub open spec fn knows_member(
    members: Seq<Member>,
    workspace_id: u128,
    user_id: Seq<char>,
) -> bool {
    exists|i: int|
        0 <= i < members.len() && concerns(#[trigger] members[i], workspace_id, user_id)
}

fn has_row(members: &Vec<Member>, workspace_id: u128, user_id: &str) -> (r: bool)
    ensures
        r == knows_member(members@, workspace_id, user_id@),
{
    let mut i: usize = 0;
    while i < members.len()
        invariant
            i <= members@.len(),
            forall|j: int|
                0 <= j < i ==> !concerns(#[trigger] members@[j], workspace_id, user_id@),
        decreases members@.len() - i,
    {
        if members[i].workspace_id == workspace_id && holds_text(&members[i].user_id, user_id) {
            assert(concerns(members@[i as int], workspace_id, user_id@));
            return true;
        }
        i = i + 1;
    }
    false
}

/// The memberships after one was reported.
pub open spec fn with_membership(
    members: Seq<Member>,
    workspace_id: u128,
    user: WorkspaceAuthUser,
    role: WorkspaceRole,
    member_id: u128,
    now: i128,
) -> Seq<Member> {
    if knows_member(members, workspace_id, user.id@) {
        Seq::new(
            members.len(),
            |i: int|
                if concerns(members[i], workspace_id, user.id@) {
                    Member { display_name: user.display_name, role, active: true, ..members[i] }
                } else {
                    members[i]
                },
        )
    } else {
        members.push(
            Member {
                id: member_id,
                workspace_id,
                user_id: Some(user.id),
                display_name: user.display_name,
                role,
                active: true,
                joined_at: now,
            },
        )
    }
}

/// Computes [`with_membership`].
fn report_membership(
    members: &mut Vec<Member>,
    workspace_id: u128,
    user: &WorkspaceAuthUser,
    role: WorkspaceRole,
    member_id: u128,
    now: i128,
)
    ensures
        final(members)@ == with_membership(
            old(members)@,
            workspace_id,
            *user,
            role,
            member_id,
            now,
        ),
{
    let ghost before = members@;
    if has_row(members, workspace_id, user.id.as_str()) {
        let mut i: usize = 0;
        while i < members.len()
            invariant
                before == old(members)@,
                knows_member(before, workspace_id, user.id@),
                members@.len() == before.len(),
                i <= members@.len(),
                forall|j: int|
                    0 <= j < i ==> #[trigger] members@[j] == with_membership(
                        before,
                        workspace_id,
                        *user,
                        role,
                        member_id,
                        now,
                    )[j],
                forall|j: int| i <= j < before.len() ==> #[trigger] members@[j] == before[j],
            decreases members@.len() - i,
        {
            if members[i].workspace_id == workspace_id && holds_text(
                &members[i].user_id,
                user.id.as_str(),
            ) {
                members[i].display_name = user.display_name.clone();
                members[i].role = role;
                members[i].active = true;
            }
            i = i + 1;
        }
        assert(members@ =~= with_membership(before, workspace_id, *user, role, member_id, now));
    } else {
        members.push(
            Member {
                id: member_id,
                workspace_id,
                user_id: Some(user.id.clone()),
                display_name: user.display_name.clone(),
                role,
                active: true,
                joined_at: now,
            },
        );
    }
}

/// The memberships after all of this user's were put away.
pub open spec fn all_put_away(members: Seq<Member>, user_id: Seq<char>) -> Seq<Member> {
    Seq::new(
        members.len(),
        |i: int|
            if is_text(members[i].user_id, user_id) {
                Member { active: false, ..members[i] }
            } else {
                members[i]
            },
    )
}

/// Computes [`all_put_away`].
fn put_away(members: &mut Vec<Member>, user_id: &str)
    ensures
        final(members)@ == all_put_away(old(members)@, user_id@),
{
    let ghost before = members@;
    let mut i: usize = 0;
    while i < members.len()
        invariant
            before == old(members)@,
            members@.len() == before.len(),
            i <= members@.len(),
            forall|j: int|
                0 <= j < i ==> #[trigger] members@[j] == all_put_away(before, user_id@)[j],
            forall|j: int| i <= j < before.len() ==> #[trigger] members@[j] == before[j],
        decreases members@.len() - i,
    {
        if holds_text(&members[i].user_id, user_id) {
            members[i].active = false;
        }
        i = i + 1;
    }
    assert(members@ =~= all_put_away(before, user_id@));
}

/// A team that an account belongs to, and in what role, as the server reports it.
pub type Reported = (u128, String, WorkspaceRole);

/// The tables after these teams were reported, in order. `member_ids` are for memberships
/// that are new.
pub open spec fn with_reported(
    tables: Tables,
    user: WorkspaceAuthUser,
    reported: Seq<Reported>,
    member_ids: Seq<u128>,
    now: i128,
) -> Tables
    decreases reported.len(),
{
    if reported.len() == 0 {
        tables
    } else {
        let earlier = with_reported(tables, user, reported.drop_last(), member_ids, now);
        let (id, name, role) = reported.last();
        Tables {
            workspaces: with_team(earlier.workspaces, id, name, now),
            members: with_membership(
                earlier.members,
                id,
                user,
                role,
                member_ids[reported.len() - 1],
                now,
            ),
            ..earlier
        }
    }
}

/// A connection that belongs to nobody in a team of this user's becomes theirs.
pub open spec fn claimed_row(
    row: ConnectionRow,
    members: Seq<Member>,
    user_id: String,
) -> ConnectionRow {
    if row.remote_id is None && row.account_user_id is None && is_member(
        members,
        row.workspace_id,
        user_id@,
    ) {
        ConnectionRow { account_user_id: Some(user_id), ..row }
    } else {
        row
    }
}

/// The connections after those of nobody were claimed.
pub open spec fn claimed(
    connections: Seq<ConnectionRow>,
    members: Seq<Member>,
    user_id: String,
) -> Seq<ConnectionRow> {
    Seq::new(connections.len(), |i: int| claimed_row(connections[i], members, user_id))
}

/// Computes [`claimed`].
fn claim(connections: &mut Vec<ConnectionRow>, members: &Vec<Member>, user_id: &String)
    ensures
        final(connections)@ == claimed(old(connections)@, members@, *user_id),
{
    let ghost before = connections@;
    let mut i: usize = 0;
    while i < connections.len()
        invariant
            before == old(connections)@,
            connections@.len() == before.len(),
            i <= connections@.len(),
            forall|j: int|
                0 <= j < i ==> #[trigger] connections@[j] == claimed_row(
                    before[j],
                    members@,
                    *user_id,
                ),
            forall|j: int| i <= j < before.len() ==> #[trigger] connections@[j] == before[j],
        decreases connections@.len() - i,
    {
        if connections[i].remote_id.is_none() && connections[i].account_user_id.is_none()
            && has_member(members, connections[i].workspace_id, user_id.as_str()) {
            connections[i].account_user_id = Some(user_id.clone());
        }
        i = i + 1;
    }
    assert(connections@ =~= claimed(before, members@, *user_id));
}

/// Whether the shared row itself carries something that belongs to a member.
pub open spec fn carries_private(row: ConnectionRow) -> bool {
    row.username@ != ""@ || row.extra_params@ != "{}"@ || row.secret_ref is Some
}

fn is_private(row: &ConnectionRow) -> (r: bool)
    ensures
        r == carries_private(*row),
{
    !text_equals(&row.username, "") || !text_equals(&row.extra_params, "{}")
        || row.secret_ref.is_some()
}

/// Whether a shared connection of a team of this user's carries something of a member's.
pub open spec fn is_overlaid(row: ConnectionRow, members: Seq<Member>, user_id: Seq<char>) -> bool {
    row.remote_id is Some && is_member(members, row.workspace_id, user_id) && carries_private(row)
}

/// Whether a row is what this account has of its own on this connection.
pub open spec fn binds(binding: Binding, connection_id: u128, user_id: Seq<char>) -> bool {
    binding.connection_id == connection_id && binding.account_user_id@ == user_id
}

/// Whether this account has something of its own on this connection.
pub open spec fn is_bound(bindings: Seq<Binding>, connection_id: u128, user_id: Seq<char>) -> bool {
    exists|i: int| 0 <= i < bindings.len() && binds(#[trigger] bindings[i], connection_id, user_id)
}

/// Computes [`is_bound`].
pub fn has_binding(bindings: &Vec<Binding>, connection_id: u128, user_id: &str) -> (r: bool)
    ensures
        r == is_bound(bindings@, connection_id, user_id@),
{
    let mut i: usize = 0;
    while i < bindings.len()
        invariant
            i <= bindings@.len(),
            forall|j: int|
                0 <= j < i ==> !binds(#[trigger] bindings@[j], connection_id, user_id@),
        decreases bindings@.len() - i,
    {
        if bindings[i].connection_id == connection_id && same_text(
            bindings[i].account_user_id.as_str(),
            user_id,
        ) {
            assert(binds(bindings@[i as int], connection_id, user_id@));
            return true;
        }
        i = i + 1;
    }
    false
}

/// The bindings after what shared rows carried was moved to this user's bindings. A binding
/// that is there already stays as it is. What is moved grants nothing until the server
/// says so.
pub open spec fn with_moved(
    bindings: Seq<Binding>,
    connections: Seq<ConnectionRow>,
    members: Seq<Member>,
    user_id: String,
    now: i128,
) -> Seq<Binding>
    decreases connections.len(),
{
    if connections.len() == 0 {
        bindings
    } else {
        let earlier = with_moved(bindings, connections.drop_last(), members, user_id, now);
        let row = connections.last();
        if is_overlaid(row, members, user_id@) && !is_bound(earlier, row.id, user_id@) {
            earlier.push(
                Binding {
                    connection_id: row.id,
                    account_user_id: user_id,
                    username: row.username,
                    extra_params: row.extra_params,
                    secret_ref: row.secret_ref,
                    workspace_access: WorkspaceConnectionAccess::View,
                    allow_writes: false,
                    updated_at: now,
                },
            )
        } else {
            earlier
        }
    }
}

/// Computes [`with_moved`].
fn move_private(
    bindings: &mut Vec<Binding>,
    connections: &Vec<ConnectionRow>,
    members: &Vec<Member>,
    user_id: &String,
    now: i128,
)
    ensures
        final(bindings)@ == with_moved(old(bindings)@, connections@, members@, *user_id, now),
{
    let mut i: usize = 0;
    while i < connections.len()
        invariant
            i <= connections@.len(),
            bindings@ == with_moved(
                old(bindings)@,
                connections@.subrange(0, i as int),
                members@,
                *user_id,
                now,
            ),
        decreases connections@.len() - i,
    {
        assert(connections@.subrange(0, i + 1).drop_last() =~= connections@.subrange(0, i as int));
        let row = &connections[i];
        if row.remote_id.is_some() && has_member(members, row.workspace_id, user_id.as_str())
            && is_private(row) && !has_binding(bindings, row.id, user_id.as_str()) {
            bindings.push(
                Binding {
                    connection_id: row.id,
                    account_user_id: user_id.clone(),
                    username: row.username.duplicate(),
                    extra_params: row.extra_params.duplicate(),
                    secret_ref: row.secret_ref.clone(),
                    workspace_access: WorkspaceConnectionAccess::View,
                    allow_writes: false,
                    updated_at: now,
                },
            );
        }
        i = i + 1;
    }
    assert(connections@.subrange(0, connections@.len() as int) =~= connections@);
}

/// A shared row without what belongs to a member.
pub open spec fn cleared_row(
    row: ConnectionRow,
    members: Seq<Member>,
    user_id: Seq<char>,
) -> ConnectionRow {
    if is_overlaid(row, members, user_id) {
        ConnectionRow {
            username: Text::Plain(""),
            extra_params: Text::Plain("{}"),
            secret_ref: None,
            ..row
        }
    } else {
        row
    }
}

/// The connections after what belonged to members was cleared from shared rows.
pub open spec fn cleared(
    connections: Seq<ConnectionRow>,
    members: Seq<Member>,
    user_id: Seq<char>,
) -> Seq<ConnectionRow> {
    Seq::new(connections.len(), |i: int| cleared_row(connections[i], members, user_id))
}

/// Computes [`cleared`].
fn clear_private(connections: &mut Vec<ConnectionRow>, members: &Vec<Member>, user_id: &str)
    ensures
        final(connections)@ == cleared(old(connections)@, members@, user_id@),
{
    let ghost before = connections@;
    let mut i: usize = 0;
    while i < connections.len()
        invariant
            before == old(connections)@,
            connections@.len() == before.len(),
            i <= connections@.len(),
            forall|j: int|
                0 <= j < i ==> #[trigger] connections@[j] == cleared_row(
                    before[j],
                    members@,
                    user_id@,
                ),
            forall|j: int| i <= j < before.len() ==> #[trigger] connections@[j] == before[j],
        decreases connections@.len() - i,
    {
        if connections[i].remote_id.is_some() && has_member(
            members,
            connections[i].workspace_id,
            user_id,
        ) && is_private(&connections[i]) {
            connections[i].username = Text::Plain("");
            connections[i].extra_params = Text::Plain("{}");
            connections[i].secret_ref = None;
        }
        i = i + 1;
    }
    assert(connections@ =~= cleared(before, members@, user_id@));
}

/// Whether this workspace is a team.
pub open spec fn is_team(workspaces: Seq<Workspace>, id: u128) -> bool {
    exists|i: int|
        0 <= i < workspaces.len() && (#[trigger] workspaces[i]).id == id && workspaces[i].kind
            == WorkspaceKind::Team
}

fn has_team(workspaces: &Vec<Workspace>, id: u128) -> (r: bool)
    ensures
        r == is_team(workspaces@, id),
{
    let mut i: usize = 0;
    while i < workspaces.len()
        invariant
            i <= workspaces@.len(),
            forall|j: int|
                0 <= j < i ==> !((#[trigger] workspaces@[j]).id == id && workspaces@[j].kind
                    == WorkspaceKind::Team),
        decreases workspaces@.len() - i,
    {
        if workspaces[i].id == id && workspaces[i].kind == WorkspaceKind::Team {
            return true;
        }
        i = i + 1;
    }
    false
}

/// The workspace of a connection, where that is a team of this user's.
pub open spec fn team_of(tables: Tables, connection_id: u128, user_id: Seq<char>) -> Option<u128> {
    team_among(tables.connections, tables.members, tables.workspaces, connection_id, user_id)
}

/// The workspace of the first of these connections that has this id and is of a team of
/// this user's.
pub open spec fn team_among(
    connections: Seq<ConnectionRow>,
    members: Seq<Member>,
    workspaces: Seq<Workspace>,
    connection_id: u128,
    user_id: Seq<char>,
) -> Option<u128>
    decreases connections.len(),
{
    if connections.len() == 0 {
        None
    } else if connections[0].id == connection_id && is_member(
        members,
        connections[0].workspace_id,
        user_id,
    ) && is_team(workspaces, connections[0].workspace_id) {
        Some(connections[0].workspace_id)
    } else {
        team_among(connections.drop_first(), members, workspaces, connection_id, user_id)
    }
}

/// A line of the history, which becomes this user's where it is of a team of theirs.
pub open spec fn rescoped_line(row: HistoryRow, team: Option<u128>, user_id: String) -> HistoryRow {
    if row.account_scope@ == "personal"@ && team is Some {
        HistoryRow { account_scope: Text::Owned(user_id), ..row }
    } else {
        row
    }
}

/// A cached catalog, which becomes this user's where it is of a team of theirs.
pub open spec fn rescoped_catalog(row: CacheRow, team: Option<u128>, user_id: String) -> CacheRow {
    if row.account_scope@ == "personal"@ && team is Some {
        CacheRow { account_scope: Text::Owned(user_id), ..row }
    } else {
        row
    }
}

/// A chat, which becomes this user's where it is of a team of theirs.
pub open spec fn rescoped_thread(row: ThreadRow, team: Option<u128>, user_id: String) -> ThreadRow {
    if row.account_scope@ == "personal"@ && team is Some {
        ThreadRow { account_scope: Text::Owned(user_id), workspace_id: team->0, ..row }
    } else {
        row
    }
}

/// The team of this user's that a chat is about.
pub open spec fn team_of_thread(
    tables: Tables,
    row: ThreadRow,
    user_id: Seq<char>,
) -> Option<u128> {
    match row.thread.connection_id {
        Some(id) => team_of(tables, id, user_id),
        None => None,
    }
}

/// The tables after what was nobody's in this user's teams became theirs.
pub open spec fn rescoped(tables: Tables, user_id: String) -> Tables {
    Tables {
        history: Seq::new(
            tables.history.len(),
            |i: int|
                rescoped_line(
                    tables.history[i],
                    team_of(tables, tables.history[i].entry.connection_id, user_id@),
                    user_id,
                ),
        ),
        schema_cache: Seq::new(
            tables.schema_cache.len(),
            |i: int|
                rescoped_catalog(
                    tables.schema_cache[i],
                    team_of(tables, tables.schema_cache[i].connection_id, user_id@),
                    user_id,
                ),
        ),
        threads: Seq::new(
            tables.threads.len(),
            |i: int|
                rescoped_thread(
                    tables.threads[i],
                    team_of_thread(tables, tables.threads[i], user_id@),
                    user_id,
                ),
        ),
        ..tables
    }
}

/// Computes [`team_among`].
fn find_team(
    connections: &Vec<ConnectionRow>,
    members: &Vec<Member>,
    workspaces: &Vec<Workspace>,
    connection_id: u128,
    user_id: &str,
) -> (r: Option<u128>)
    ensures
        r == team_among(connections@, members@, workspaces@, connection_id, user_id@),
{
    let mut i: usize = 0;
    assert(connections@.subrange(0, connections@.len() as int) =~= connections@);
    while i < connections.len()
        invariant
            i <= connections@.len(),
            team_among(connections@, members@, workspaces@, connection_id, user_id@) == team_among(
                connections@.subrange(i as int, connections@.len() as int),
                members@,
                workspaces@,
                connection_id,
                user_id@,
            ),
        decreases connections@.len() - i,
    {
        assert(connections@.subrange(i as int, connections@.len() as int).drop_first()
            =~= connections@.subrange(i + 1, connections@.len() as int));
        if connections[i].id == connection_id && has_member(
            members,
            connections[i].workspace_id,
            user_id,
        ) && has_team(workspaces, connections[i].workspace_id) {
            return Some(connections[i].workspace_id);
        }
        i = i + 1;
    }
    None
}

/// Whether a catalog is nobody's and about to become this user's.
pub open spec fn changes_hands(tables: Tables, i: int, user_id: Seq<char>) -> bool {
    &&& tables.schema_cache[i].account_scope@ == "personal"@
    &&& "personal"@ != user_id
    &&& team_of(tables, tables.schema_cache[i].connection_id, user_id) is Some
}

/// Whether a catalog is this user's for this connection.
pub open spec fn is_catalog_of(row: CacheRow, connection_id: u128, user_id: Seq<char>) -> bool {
    row.connection_id == connection_id && row.account_scope@ == user_id
}

/// Whether there is a catalog of this user's for this connection.
pub open spec fn has_catalog(
    catalogs: Seq<CacheRow>,
    connection_id: u128,
    user_id: Seq<char>,
) -> bool {
    exists|i: int|
        0 <= i < catalogs.len() && is_catalog_of(#[trigger] catalogs[i], connection_id, user_id)
}

/// Computes [`has_catalog`].
pub fn holds_catalog(catalogs: &Vec<CacheRow>, connection_id: u128, user_id: &str) -> (r: bool)
    ensures
        r == has_catalog(catalogs@, connection_id, user_id@),
{
    let mut i: usize = 0;
    while i < catalogs.len()
        invariant
            i <= catalogs@.len(),
            forall|j: int|
                0 <= j < i ==> !is_catalog_of(#[trigger] catalogs@[j], connection_id, user_id@),
        decreases catalogs@.len() - i,
    {
        if catalogs[i].connection_id == connection_id && text_equals(
            &catalogs[i].account_scope,
            user_id,
        ) {
            assert(is_catalog_of(catalogs@[i as int], connection_id, user_id@));
            return true;
        }
        i = i + 1;
    }
    false
}

/// Whether a catalog would become this user's for a connection that they have one of.
pub open spec fn collides_at(tables: Tables, i: int, user_id: Seq<char>) -> bool {
    changes_hands(tables, i, user_id) && has_catalog(
        tables.schema_cache,
        tables.schema_cache[i].connection_id,
        user_id,
    )
}

/// Whether any catalog would.
pub open spec fn catalogs_collide(tables: Tables, user_id: Seq<char>) -> bool {
    exists|i: int| 0 <= i < tables.schema_cache.len() && #[trigger] collides_at(tables, i, user_id)
}

/// The account after the workspace that it used last was forgotten, where the account no
/// longer belongs to it.
pub open spec fn settled_account(
    account: Account,
    members: Seq<Member>,
    user_id: Seq<char>,
) -> Account {
    if account.user.id@ == user_id && account.last_workspace_id is Some && !is_member(
        members,
        account.last_workspace_id->0,
        user_id,
    ) {
        Account { last_workspace_id: None, ..account }
    } else {
        account
    }
}

/// The accounts after [`settled_account`].
pub open spec fn settled(accounts: Seq<Account>, members: Seq<Member>, user_id: Seq<char>) -> Seq<
    Account,
> {
    Seq::new(accounts.len(), |i: int| settled_account(accounts[i], members, user_id))
}

/// Computes [`settled`].
fn settle(accounts: &mut Vec<Account>, members: &Vec<Member>, user_id: &str)
    ensures
        final(accounts)@ == settled(old(accounts)@, members@, user_id@),
{
    let ghost before = accounts@;
    let mut i: usize = 0;
    while i < accounts.len()
        invariant
            before == old(accounts)@,
            accounts@.len() == before.len(),
            i <= accounts@.len(),
            forall|j: int|
                0 <= j < i ==> #[trigger] accounts@[j] == settled_account(
                    before[j],
                    members@,
                    user_id@,
                ),
            forall|j: int| i <= j < before.len() ==> #[trigger] accounts@[j] == before[j],
        decreases accounts@.len() - i,
    {
        if same_text(accounts[i].user.id.as_str(), user_id) {
            match accounts[i].last_workspace_id {
                Some(id) => {
                    if !has_member(members, id, user_id) {
                        accounts[i].last_workspace_id = None;
                    }
                },
                None => {},
            }
        }
        i = i + 1;
    }
    assert(accounts@ =~= settled(before, members@, user_id@));
}

/// Whether this workspace is a team that is no longer active.
pub open spec fn is_closed_team(workspaces: Seq<Workspace>, id: u128) -> bool {
    exists|i: int|
        0 <= i < workspaces.len() && (#[trigger] workspaces[i]).id == id && workspaces[i].kind
            == WorkspaceKind::Team && workspaces[i].lifecycle_state
            != WorkspaceLifecycleState::Active
}

fn has_closed_team(workspaces: &Vec<Workspace>, id: u128) -> (r: bool)
    ensures
        r == is_closed_team(workspaces@, id),
{
    let mut i: usize = 0;
    while i < workspaces.len()
        invariant
            i <= workspaces@.len(),
            forall|j: int|
                0 <= j < i ==> !((#[trigger] workspaces@[j]).id == id && workspaces@[j].kind
                    == WorkspaceKind::Team && workspaces@[j].lifecycle_state
                    != WorkspaceLifecycleState::Active),
        decreases workspaces@.len() - i,
    {
        if workspaces[i].id == id && workspaces[i].kind == WorkspaceKind::Team
            && workspaces[i].lifecycle_state != WorkspaceLifecycleState::Active {
            return true;
        }
        i = i + 1;
    }
    false
}

/// The tables after the memberships were taken over, and the connections along with them.
pub open spec fn taken_over(
    tables: Tables,
    user: WorkspaceAuthUser,
    reported: Seq<Reported>,
    member_ids: Seq<u128>,
    now: i128,
) -> Tables {
    let put_away = Tables { members: all_put_away(tables.members, user.id@), ..tables };
    let joined = with_reported(put_away, user, reported, member_ids, now);
    let connections = claimed(joined.connections, joined.members, user.id);
    Tables {
        connections: cleared(connections, joined.members, user.id@),
        bindings: with_moved(joined.bindings, connections, joined.members, user.id, now),
        ..joined
    }
}

/// The tables after teams without members were put away, and nothing points at them.
pub open spec fn tidied(tables: Tables, user_id: Seq<char>, now: i128) -> Tables {
    let workspaces = without_deserted(tables.workspaces, tables.members, now);
    Tables {
        workspaces,
        accounts: settled(tables.accounts, tables.members, user_id),
        active_workspace: if is_closed_team(workspaces, tables.active_workspace) {
            PERSONAL_WORKSPACE_ID
        } else {
            tables.active_workspace
        },
        ..tables
    }
}

/// Whether a reported team has the id of the personal workspace.
pub open spec fn reports_personal(reported: Seq<Reported>) -> bool {
    exists|i: int| 0 <= i < reported.len() && (#[trigger] reported[i]).0 == PERSONAL_WORKSPACE_ID
}

/// The result and the tables after the memberships of an account were taken over.
pub open spec fn synced(
    tables: Tables,
    user: WorkspaceAuthUser,
    reported: Seq<Reported>,
    member_ids: Seq<u128>,
    now: i128,
) -> (Option<AppError>, Tables) {
    if reports_personal(reported) {
        (
            Some(
                AppError::Config(
                    Text::Plain("remote workspace conflicts with the Personal Workspace"),
                ),
            ),
            tables,
        )
    } else {
        let known = Tables { accounts: remembered(tables.accounts, user, now), ..tables };
        let taken = taken_over(known, user, reported, member_ids, now);
        if catalogs_collide(taken, user.id@) {
            (
                Some(
                    AppError::Host(
                        Text::Plain(
                            "UNIQUE constraint failed: schema_cache.connection_id, schema_cache.account_scope",
                        ),
                    ),
                ),
                known,
            )
        } else {
            let tidy = tidied(rescoped(taken, user.id), user.id@, now);
            if !is_text(tidy.active_account, user.id@) {
                (None, tidy)
            } else {
                match active_workspace_of(tidy) {
                    Err(error) => (Some(error), tidy),
                    Ok(active) => if active.kind == WorkspaceKind::Team && !is_member(
                        tidy.members,
                        active.id,
                        user.id@,
                    ) {
                        match selection(tidy, home_of(tidy, user.id@), Some(user.id)) {
                            Err(error) => (Some(error), tidy),
                            Ok(home) => (None, selected(tidy, home, Some(user.id), now)),
                        }
                    } else {
                        (None, tidy)
                    },
                }
            }
        }
    }
}

impl Store {
    fn take_over(
        &mut self,
        user: &WorkspaceAuthUser,
        reported: &Vec<Reported>,
        member_ids: &Vec<u128>,
        now: i128,
    )
        requires
            member_ids@.len() == reported@.len(),
        ensures
            final(self)@ == taken_over(old(self)@, *user, reported@, member_ids@, now),
    {
        put_away(&mut self.members, user.id.as_str());
        let ghost away = self@;
        let mut i: usize = 0;
        while i < reported.len()
            invariant
                i <= reported@.len(),
                member_ids@.len() == reported@.len(),
                self@ == with_reported(
                    away,
                    *user,
                    reported@.subrange(0, i as int),
                    member_ids@,
                    now,
                ),
            decreases reported@.len() - i,
        {
            assert(reported@.subrange(0, i + 1).drop_last() =~= reported@.subrange(0, i as int));
            let id: u128 = reported[i].0;
            report_team(&mut self.workspaces, id, &reported[i].1, now);
            report_membership(&mut self.members, id, user, reported[i].2, member_ids[i], now);
            i = i + 1;
        }
        assert(reported@.subrange(0, reported@.len() as int) =~= reported@);
        claim(&mut self.connections, &self.members, &user.id);
        move_private(&mut self.bindings, &self.connections, &self.members, &user.id, now);
        clear_private(&mut self.connections, &self.members, user.id.as_str());
    }

    fn collides(&self, user_id: &str) -> (r: bool)
        ensures
            r == catalogs_collide(self@, user_id@),
    {
        let mut i: usize = 0;
        while i < self.schema_cache.len()
            invariant
                i <= self.schema_cache@.len(),
                forall|j: int| 0 <= j < i ==> !#[trigger] collides_at(self@, j, user_id@),
            decreases self.schema_cache@.len() - i,
        {
            let connection_id: u128 = self.schema_cache[i].connection_id;
            if text_equals(&self.schema_cache[i].account_scope, "personal") && !same_text(
                "personal",
                user_id,
            ) && find_team(
                &self.connections,
                &self.members,
                &self.workspaces,
                connection_id,
                user_id,
            ).is_some() && holds_catalog(&self.schema_cache, connection_id, user_id) {
                assert(collides_at(self@, i as int, user_id@));
                return true;
            }
            i = i + 1;
        }
        false
    }

    fn rescope_history(&mut self, user_id: &String)
        ensures
            final(self)@ == (Tables {
                history: rescoped(old(self)@, *user_id).history,
                ..old(self)@
            }),
    {
        let ghost before = self@;
        let mut i: usize = 0;
        while i < self.history.len()
            invariant
                before == old(self)@,
                self@ == (Tables { history: self.history@, ..before }),
                self.history@.len() == before.history.len(),
                i <= self.history@.len(),
                forall|j: int|
                    0 <= j < i ==> #[trigger] self.history@[j] == rescoped(
                        before,
                        *user_id,
                    ).history[j],
                forall|j: int|
                    i <= j < before.history.len() ==> #[trigger] self.history@[j]
                        == before.history[j],
            decreases self.history@.len() - i,
        {
            let team = find_team(
                &self.connections,
                &self.members,
                &self.workspaces,
                self.history[i].entry.connection_id,
                user_id.as_str(),
            );
            if text_equals(&self.history[i].account_scope, "personal") && team.is_some() {
                self.history[i].account_scope = Text::Owned(user_id.clone());
            }
            i = i + 1;
        }
        assert(self.history@ =~= rescoped(before, *user_id).history);
    }

    fn rescope_catalogs(&mut self, user_id: &String)
        ensures
            final(self)@ == (Tables {
                schema_cache: rescoped(old(self)@, *user_id).schema_cache,
                ..old(self)@
            }),
    {
        let ghost before = self@;
        let mut i: usize = 0;
        while i < self.schema_cache.len()
            invariant
                before == old(self)@,
                self@ == (Tables { schema_cache: self.schema_cache@, ..before }),
                self.schema_cache@.len() == before.schema_cache.len(),
                i <= self.schema_cache@.len(),
                forall|j: int|
                    0 <= j < i ==> #[trigger] self.schema_cache@[j] == rescoped(
                        before,
                        *user_id,
                    ).schema_cache[j],
                forall|j: int|
                    i <= j < before.schema_cache.len() ==> #[trigger] self.schema_cache@[j]
                        == before.schema_cache[j],
            decreases self.schema_cache@.len() - i,
        {
            let team = find_team(
                &self.connections,
                &self.members,
                &self.workspaces,
                self.schema_cache[i].connection_id,
                user_id.as_str(),
            );
            if text_equals(&self.schema_cache[i].account_scope, "personal")
                && team.is_some() {
                self.schema_cache[i].account_scope = Text::Owned(user_id.clone());
            }
            i = i + 1;
        }
        assert(self.schema_cache@ =~= rescoped(before, *user_id).schema_cache);
    }

    fn rescope_threads(&mut self, user_id: &String)
        ensures
            final(self)@ == (Tables {
                threads: rescoped(old(self)@, *user_id).threads,
                ..old(self)@
            }),
    {
        let ghost before = self@;
        let mut i: usize = 0;
        while i < self.threads.len()
            invariant
                before == old(self)@,
                self@ == (Tables { threads: self.threads@, ..before }),
                self.threads@.len() == before.threads.len(),
                i <= self.threads@.len(),
                forall|j: int|
                    0 <= j < i ==> #[trigger] self.threads@[j] == rescoped(
                        before,
                        *user_id,
                    ).threads[j],
                forall|j: int|
                    i <= j < before.threads.len() ==> #[trigger] self.threads@[j]
                        == before.threads[j],
            decreases self.threads@.len() - i,
        {
            let team = match self.threads[i].thread.connection_id {
                Some(id) => find_team(
                    &self.connections,
                    &self.members,
                    &self.workspaces,
                    id,
                    user_id.as_str(),
                ),
                None => None,
            };
            match team {
                Some(workspace_id) => {
                    if text_equals(&self.threads[i].account_scope, "personal") {
                        self.threads[i].account_scope = Text::Owned(user_id.clone());
                        self.threads[i].workspace_id = workspace_id;
                    }
                },
                None => {},
            }
            i = i + 1;
        }
        assert(self.threads@ =~= rescoped(before, *user_id).threads);
    }

    fn tidy(&mut self, user_id: &str, now: i128)
        ensures
            final(self)@ == tidied(old(self)@, user_id@, now),
    {
        archive_deserted(&mut self.workspaces, &self.members, now);
        settle(&mut self.accounts, &self.members, user_id);
        if has_closed_team(&self.workspaces, self.active_workspace) {
            self.active_workspace = PERSONAL_WORKSPACE_ID;
        }
    }

    /// Takes over the memberships of an account as the server reports them. Other accounts
    /// keep theirs: a team stays as long as anyone belongs to it. What nobody owned in this
    /// user's teams becomes theirs. `member_ids` has a fresh id for each reported team.
    ///
    /// Two cached catalogs that would come to stand for one connection are refused.
    pub fn sync_account_workspaces(
        &mut self,
        user: &WorkspaceAuthUser,
        reported: &Vec<Reported>,
        member_ids: &Vec<u128>,
        now: i128,
    ) -> (r: AppResult<()>)
        requires
            member_ids@.len() == reported@.len(),
        ensures
            match synced(old(self)@, *user, reported@, member_ids@, now).0 {
                Some(error) => r == Err::<(), AppError>(error),
                None => r is Ok,
            },
            final(self)@ == synced(old(self)@, *user, reported@, member_ids@, now).1,
    {
        let mut i: usize = 0;
        while i < reported.len()
            invariant
                i <= reported@.len(),
                self@ == old(self)@,
                forall|j: int|
                    0 <= j < i ==> (#[trigger] reported@[j]).0 != PERSONAL_WORKSPACE_ID,
            decreases reported@.len() - i,
        {
            if reported[i].0 == PERSONAL_WORKSPACE_ID {
                return Err(
                    AppError::Config(
                        Text::Plain("remote workspace conflicts with the Personal Workspace"),
                    ),
                );
            }
            i = i + 1;
        }
        self.remember_workspace_account(user, now);
        let ghost known = self@;
        let workspaces = copy_rows(&self.workspaces);
        let members = copy_rows(&self.members);
        let connections = copy_rows(&self.connections);
        let bindings = copy_rows(&self.bindings);
        self.take_over(user, reported, member_ids, now);
        proof {
            taking_over_touches_four_tables(known, *user, reported@, member_ids@, now);
        }
        if self.collides(user.id.as_str()) {
            self.workspaces = workspaces;
            self.members = members;
            self.connections = connections;
            self.bindings = bindings;
            return Err(
                AppError::Host(
                    Text::Plain(
                        "UNIQUE constraint failed: schema_cache.connection_id, schema_cache.account_scope",
                    ),
                ),
            );
        }
        let ghost taken = self@;
        self.rescope_history(&user.id);
        self.rescope_catalogs(&user.id);
        self.rescope_threads(&user.id);
        assert(self.schema_cache@ =~= rescoped(taken, user.id).schema_cache);
        assert(self.threads@ =~= rescoped(taken, user.id).threads);
        self.tidy(user.id.as_str(), now);
        if !holds_text(&self.active_account, user.id.as_str()) {
            return Ok(());
        }
        let active = match self.active_workspace() {
            Err(error) => {
                return Err(error);
            },
            Ok(active) => active,
        };
        if active.kind == WorkspaceKind::Team && !has_member(
            &self.members,
            active.id,
            user.id.as_str(),
        ) {
            match self.activate_workspace_account(user.id.clone(), now) {
                Err(error) => Err(error),
                Ok(_) => Ok(()),
            }
        } else {
            Ok(())
        }
    }
}

proof fn reporting_touches_two_tables(
    tables: Tables,
    user: WorkspaceAuthUser,
    reported: Seq<Reported>,
    member_ids: Seq<u128>,
    now: i128,
)
    ensures
        ({
            let after = with_reported(tables, user, reported, member_ids, now);
            after == (Tables { workspaces: after.workspaces, members: after.members, ..tables })
        }),
    decreases reported.len(),
{
    if reported.len() > 0 {
        reporting_touches_two_tables(tables, user, reported.drop_last(), member_ids, now);
    }
}

proof fn taking_over_touches_four_tables(
    tables: Tables,
    user: WorkspaceAuthUser,
    reported: Seq<Reported>,
    member_ids: Seq<u128>,
    now: i128,
)
    ensures
        ({
            let after = taken_over(tables, user, reported, member_ids, now);
            after == (Tables {
                workspaces: after.workspaces,
                members: after.members,
                connections: after.connections,
                bindings: after.bindings,
                ..tables
            })
        }),
{
    let away = Tables { members: all_put_away(tables.members, user.id@), ..tables };
    reporting_touches_two_tables(away, user, reported, member_ids, now);
}

} // verus!
