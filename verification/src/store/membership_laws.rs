//! What holds of memberships: accounts do not get in each other's way, and nobody is left in
//! a workspace that they do not belong to.
use vstd::prelude::*;

use crate::model::{
    Workspace, WorkspaceAuthUser, WorkspaceKind, WorkspaceLifecycleState, WorkspaceRole,
};
use crate::store::directory::{
    account_row, active_row, active_row_has_the_id, active_workspace_of, admits, home_of,
    is_member, is_peopled, last_used, remembered, removed, without_account, without_deserted,
    without_user,
};
use crate::store::memberships::{
    all_put_away, concerns, knows_member, rescoped, synced, taken_over, tidied, with_membership,
    with_reported, Reported,
};
use crate::store::tables::{Account, Member, Tables};
use crate::text::is_text;

verus! {

/// Whether a team was reported.
pub open spec fn was_reported(reported: Seq<Reported>, workspace_id: u128) -> bool {
    exists|i: int| 0 <= i < reported.len() && (#[trigger] reported[i]).0 == workspace_id
}

proof fn reporting_one(
    members: Seq<Member>,
    workspace_id: u128,
    user: WorkspaceAuthUser,
    role: WorkspaceRole,
    member_id: u128,
    now: i128,
    other_workspace: u128,
    other: Seq<char>,
)
    ensures
        is_member(
            with_membership(members, workspace_id, user, role, member_id, now),
            other_workspace,
            other,
        ) == (is_member(members, other_workspace, other) || (other_workspace == workspace_id
            && other == user.id@)),
{
    let after = with_membership(members, workspace_id, user, role, member_id, now);
    if knows_member(members, workspace_id, user.id@) {
        let known = choose|i: int|
            0 <= i < members.len() && concerns(#[trigger] members[i], workspace_id, user.id@);
        assert(admits(after[known], workspace_id, user.id@));
        if is_member(members, other_workspace, other) {
            let at = choose|i: int|
                0 <= i < members.len() && admits(#[trigger] members[i], other_workspace, other);
            assert(admits(after[at], other_workspace, other));
        }
        if is_member(after, other_workspace, other) && !(other_workspace == workspace_id && other
            == user.id@) {
            let at = choose|i: int|
                0 <= i < after.len() && admits(#[trigger] after[i], other_workspace, other);
            assert(admits(members[at], other_workspace, other));
        }
    } else {
        let fresh = members.len() as int;
        assert(admits(after[fresh], workspace_id, user.id@));
        if is_member(members, other_workspace, other) {
            let at = choose|i: int|
                0 <= i < members.len() && admits(#[trigger] members[i], other_workspace, other);
            assert(admits(after[at], other_workspace, other));
        }
        if is_member(after, other_workspace, other) && !(other_workspace == workspace_id && other
            == user.id@) {
            let at = choose|i: int|
                0 <= i < after.len() && admits(#[trigger] after[i], other_workspace, other);
            assert(at < fresh);
            assert(admits(members[at], other_workspace, other));
        }
    }
}

proof fn reporting_all(
    tables: Tables,
    user: WorkspaceAuthUser,
    reported: Seq<Reported>,
    member_ids: Seq<u128>,
    now: i128,
    workspace_id: u128,
    user_id: Seq<char>,
)
    ensures
        is_member(
            with_reported(tables, user, reported, member_ids, now).members,
            workspace_id,
            user_id,
        ) == (is_member(tables.members, workspace_id, user_id) || (user_id == user.id@
            && was_reported(reported, workspace_id))),
    decreases reported.len(),
{
    if reported.len() > 0 {
        let rest = reported.drop_last();
        reporting_all(tables, user, rest, member_ids, now, workspace_id, user_id);
        let earlier = with_reported(tables, user, rest, member_ids, now);
        let (id, _, role) = reported.last();
        reporting_one(
            earlier.members,
            id,
            user,
            role,
            member_ids[reported.len() - 1],
            now,
            workspace_id,
            user_id,
        );
        assert(reported[reported.len() - 1] == reported.last());
        if was_reported(rest, workspace_id) {
            let at = choose|i: int| 0 <= i < rest.len() && (#[trigger] rest[i]).0 == workspace_id;
            assert(reported[at] == rest[at]);
        }
        if was_reported(reported, workspace_id) && id != workspace_id {
            let at = choose|i: int|
                0 <= i < reported.len() && (#[trigger] reported[i]).0 == workspace_id;
            assert(rest[at] == reported[at]);
        }
    }
}

proof fn putting_away(members: Seq<Member>, user: Seq<char>, workspace_id: u128, other: Seq<char>)
    ensures
        is_member(all_put_away(members, user), workspace_id, other) == (other != user
            && is_member(members, workspace_id, other)),
{
    let after = all_put_away(members, user);
    if is_member(after, workspace_id, other) {
        let at = choose|i: int|
            0 <= i < after.len() && admits(#[trigger] after[i], workspace_id, other);
        assert(admits(members[at], workspace_id, other));
    }
    if other != user && is_member(members, workspace_id, other) {
        let at = choose|i: int|
            0 <= i < members.len() && admits(#[trigger] members[i], workspace_id, other);
        assert(admits(after[at], workspace_id, other));
    }
}

/// After an account's memberships were taken over, it belongs to exactly the teams that the
/// server reported, and every other account belongs to what it belonged to before.
pub proof fn memberships_are_those_reported(
    tables: Tables,
    user: WorkspaceAuthUser,
    reported: Seq<Reported>,
    member_ids: Seq<u128>,
    now: i128,
    workspace_id: u128,
    other: Seq<char>,
)
    ensures
        ({
            let after = synced(tables, user, reported, member_ids, now);
            &&& other != user.id@ ==> is_member(after.1.members, workspace_id, other)
                == is_member(tables.members, workspace_id, other)
            &&& after.0 is None ==> is_member(after.1.members, workspace_id, user.id@)
                == was_reported(reported, workspace_id)
        }),
{
    let away = Tables { members: all_put_away(tables.members, user.id@), ..tables };
    putting_away(tables.members, user.id@, workspace_id, other);
    putting_away(tables.members, user.id@, workspace_id, user.id@);
    members_depend_on_members(tables, away, user, reported, member_ids, now);
    reporting_all(away, user, reported, member_ids, now, workspace_id, other);
    reporting_all(away, user, reported, member_ids, now, workspace_id, user.id@);
}

/// Whether every row about this user and this workspace holds and has this role.
pub open spec fn holds_role(
    members: Seq<Member>,
    workspace_id: u128,
    user_id: Seq<char>,
    role: WorkspaceRole,
) -> bool {
    forall|i: int|
        0 <= i < members.len() && concerns(#[trigger] members[i], workspace_id, user_id)
            ==> members[i].active && members[i].role == role
}

proof fn reporting_gives_the_role(
    tables: Tables,
    user: WorkspaceAuthUser,
    reported: Seq<Reported>,
    member_ids: Seq<u128>,
    now: i128,
    k: int,
)
    requires
        0 <= k < reported.len(),
        forall|j: int| k < j < reported.len() ==> (#[trigger] reported[j]).0 != reported[k].0,
    ensures
        holds_role(
            with_reported(tables, user, reported, member_ids, now).members,
            reported[k].0,
            user.id@,
            reported[k].2,
        ),
    decreases reported.len(),
{
    let earlier = with_reported(tables, user, reported.drop_last(), member_ids, now);
    let after = with_reported(tables, user, reported, member_ids, now);
    let last = reported.last();
    if k < reported.len() - 1 {
        let rest = reported.drop_last();
        assert forall|j: int| k < j < rest.len() implies (#[trigger] rest[j]).0 != rest[k].0 by {
            assert(rest[j] == reported[j]);
        }
        reporting_gives_the_role(tables, user, rest, member_ids, now, k);
        assert(reported[reported.len() - 1].0 != reported[k].0);
        assert forall|i: int|
            0 <= i < after.members.len() && concerns(
                #[trigger] after.members[i],
                reported[k].0,
                user.id@,
            ) implies after.members[i].active && after.members[i].role == reported[k].2 by {
            assert(i < earlier.members.len());
            assert(after.members[i] == earlier.members[i]);
        }
    } else if !knows_member(earlier.members, last.0, user.id@) {
        assert forall|i: int|
            0 <= i < after.members.len() && concerns(
                #[trigger] after.members[i],
                last.0,
                user.id@,
            ) implies after.members[i].active && after.members[i].role == last.2 by {
            if i < earlier.members.len() {
                assert(after.members[i] == earlier.members[i]);
            }
        }
    }
}

/// After an account's memberships were taken over, it has in each team the role that the server
/// reported for it, the last one where it reported several.
pub proof fn roles_are_those_reported(
    tables: Tables,
    user: WorkspaceAuthUser,
    reported: Seq<Reported>,
    member_ids: Seq<u128>,
    now: i128,
    k: int,
)
    requires
        0 <= k < reported.len(),
        forall|j: int| k < j < reported.len() ==> (#[trigger] reported[j]).0 != reported[k].0,
    ensures
        ({
            let after = synced(tables, user, reported, member_ids, now);
            after.0 is None ==> is_member(after.1.members, reported[k].0, user.id@) && holds_role(
                after.1.members,
                reported[k].0,
                user.id@,
                reported[k].2,
            )
        }),
{
    let away = Tables { members: all_put_away(tables.members, user.id@), ..tables };
    memberships_are_those_reported(
        tables,
        user,
        reported,
        member_ids,
        now,
        reported[k].0,
        user.id@,
    );
    members_depend_on_members(tables, away, user, reported, member_ids, now);
    reporting_gives_the_role(away, user, reported, member_ids, now, k);
}

proof fn members_depend_on_members(
    tables: Tables,
    away: Tables,
    user: WorkspaceAuthUser,
    reported: Seq<Reported>,
    member_ids: Seq<u128>,
    now: i128,
)
    requires
        away == (Tables { members: all_put_away(tables.members, user.id@), ..tables }),
    ensures
        ({
            let known = Tables {
                accounts: remembered(tables.accounts, user, now),
                ..tables
            };
            taken_over(known, user, reported, member_ids, now).members == with_reported(
                away,
                user,
                reported,
                member_ids,
                now,
            ).members
        }),
{
    let known = Tables {
        accounts: remembered(tables.accounts, user, now),
        ..tables
    };
    let known_away = Tables { members: all_put_away(known.members, user.id@), ..known };
    members_ignore_accounts(away, known_away, user, reported, member_ids, now);
}

proof fn members_ignore_accounts(
    a: Tables,
    b: Tables,
    user: WorkspaceAuthUser,
    reported: Seq<Reported>,
    member_ids: Seq<u128>,
    now: i128,
)
    requires
        a.members == b.members,
    ensures
        with_reported(a, user, reported, member_ids, now).members == with_reported(
            b,
            user,
            reported,
            member_ids,
            now,
        ).members,
    decreases reported.len(),
{
    if reported.len() > 0 {
        members_ignore_accounts(a, b, user, reported.drop_last(), member_ids, now);
    }
}

/// Whether each workspace is still at its place, and still active where it was active and
/// someone belongs to it.
spec fn carries_over(before: Seq<Workspace>, after: Seq<Workspace>) -> bool {
    &&& before.len() <= after.len()
    &&& forall|i: int|
        #![trigger after[i]]
        0 <= i < before.len() ==> {
            &&& after[i].id == before[i].id
            &&& after[i].kind == before[i].kind
            &&& before[i].lifecycle_state == WorkspaceLifecycleState::Active
                ==> after[i].lifecycle_state == WorkspaceLifecycleState::Active
        }
}

proof fn teams_carry_over(
    tables: Tables,
    user: WorkspaceAuthUser,
    reported: Seq<Reported>,
    member_ids: Seq<u128>,
    now: i128,
)
    ensures
        carries_over(
            tables.workspaces,
            with_reported(tables, user, reported, member_ids, now).workspaces,
        ),
    decreases reported.len(),
{
    if reported.len() > 0 {
        teams_carry_over(tables, user, reported.drop_last(), member_ids, now);
        let earlier = with_reported(tables, user, reported.drop_last(), member_ids, now);
        let after = with_reported(tables, user, reported, member_ids, now);
        assert forall|i: int|
            #![trigger after.workspaces[i]]
            0 <= i < tables.workspaces.len() implies {
            &&& after.workspaces[i].id == tables.workspaces[i].id
            &&& after.workspaces[i].kind == tables.workspaces[i].kind
            &&& tables.workspaces[i].lifecycle_state == WorkspaceLifecycleState::Active
                ==> after.workspaces[i].lifecycle_state == WorkspaceLifecycleState::Active
        } by {
            assert(earlier.workspaces[i].id == tables.workspaces[i].id);
        }
    }
}

proof fn active_at(workspaces: Seq<Workspace>, id: u128, at: int)
    requires
        0 <= at < workspaces.len(),
        workspaces[at].id == id,
        workspaces[at].lifecycle_state == WorkspaceLifecycleState::Active,
    ensures
        active_row(workspaces, id) is Some,
    decreases workspaces.len(),
{
    if !(workspaces[0].id == id && workspaces[0].lifecycle_state
        == WorkspaceLifecycleState::Active) {
        active_at(workspaces.drop_first(), id, at - 1);
    }
}

proof fn place_of_active(workspaces: Seq<Workspace>, id: u128) -> (at: int)
    requires
        active_row(workspaces, id) is Some,
    ensures
        0 <= at < workspaces.len(),
        workspaces[at].id == id,
        workspaces[at].lifecycle_state == WorkspaceLifecycleState::Active,
    decreases workspaces.len(),
{
    if workspaces[0].id == id && workspaces[0].lifecycle_state == WorkspaceLifecycleState::Active {
        0
    } else {
        place_of_active(workspaces.drop_first(), id) + 1
    }
}

/// Taking over one account's memberships never hides a workspace that another account
/// belongs to.
pub proof fn other_accounts_keep_their_workspaces(
    tables: Tables,
    user: WorkspaceAuthUser,
    reported: Seq<Reported>,
    member_ids: Seq<u128>,
    now: i128,
    workspace_id: u128,
    other: Seq<char>,
)
    requires
        active_row(tables.workspaces, workspace_id) is Some,
        is_member(tables.members, workspace_id, other),
        other != user.id@,
    ensures
        active_row(
            synced(tables, user, reported, member_ids, now).1.workspaces,
            workspace_id,
        ) is Some,
{
    let after = synced(tables, user, reported, member_ids, now).1;
    let at = place_of_active(tables.workspaces, workspace_id);
    memberships_are_those_reported(
        tables,
        user,
        reported,
        member_ids,
        now,
        workspace_id,
        other,
    );
    if after.workspaces != tables.workspaces {
        let known = Tables {
            accounts: remembered(tables.accounts, user, now),
            ..tables
        };
        let away = Tables { members: all_put_away(known.members, user.id@), ..known };
        let joined = with_reported(away, user, reported, member_ids, now);
        teams_carry_over(away, user, reported, member_ids, now);
        assert(joined.workspaces[at].id == workspace_id);
        assert(after.members == joined.members);
        let witness = choose|i: int|
            0 <= i < after.members.len() && admits(
                #[trigger] after.members[i],
                workspace_id,
                other,
            );
        assert(after.members[witness].workspace_id == workspace_id);
        assert(is_peopled(after.members, workspace_id));
        assert(after.workspaces == without_deserted(joined.workspaces, joined.members, now));
        assert(after.workspaces[at].lifecycle_state == WorkspaceLifecycleState::Active);
        active_at(after.workspaces, workspace_id, at);
    } else {
        active_at(after.workspaces, workspace_id, at);
    }
}

/// After an account's memberships were taken over, the active account is never left in a
/// team that it does not belong to.
pub proof fn the_active_account_belongs(
    tables: Tables,
    user: WorkspaceAuthUser,
    reported: Seq<Reported>,
    member_ids: Seq<u128>,
    now: i128,
)
    requires
        synced(tables, user, reported, member_ids, now).0 is None,
        is_text(synced(tables, user, reported, member_ids, now).1.active_account, user.id@),
    ensures
        ({
            let after = synced(tables, user, reported, member_ids, now).1;
            &&& active_workspace_of(after) matches Ok(active)
            &&& active.kind == WorkspaceKind::Team ==> is_member(
                after.members,
                active.id,
                user.id@,
            )
        }),
{
    let after = synced(tables, user, reported, member_ids, now).1;
    active_row_has_the_id(after.workspaces, after.active_workspace);
    let known = Tables {
        accounts: remembered(tables.accounts, user, now),
        ..tables
    };
    let taken = taken_over(known, user, reported, member_ids, now);
    let tidy = tidied(
        rescoped(taken, user.id),
        user.id@,
        now,
    );
    let home = home_of(tidy, user.id@);
    active_row_has_the_id(tidy.workspaces, home);
}

proof fn dropping_a_user(
    members: Seq<Member>,
    user: Seq<char>,
    workspace_id: u128,
    other: Seq<char>,
)
    ensures
        is_member(without_user(members, user), workspace_id, other) == (other != user
            && is_member(members, workspace_id, other)),
    decreases members.len(),
{
    if members.len() > 0 {
        let rest = members.drop_last();
        dropping_a_user(rest, user, workspace_id, other);
        let kept = without_user(rest, user);
        adding_a_member(rest, members.last(), workspace_id, other);
        adding_a_member(kept, members.last(), workspace_id, other);
        assert(members =~= rest.push(members.last()));
    } else {
        assert(!is_member(without_user(members, user), workspace_id, other));
    }
}

proof fn adding_a_member(members: Seq<Member>, member: Member, workspace_id: u128, user: Seq<char>)
    ensures
        is_member(members.push(member), workspace_id, user) == (is_member(
            members,
            workspace_id,
            user,
        ) || admits(member, workspace_id, user)),
{
    let after = members.push(member);
    if is_member(members, workspace_id, user) {
        let at = choose|i: int|
            0 <= i < members.len() && admits(#[trigger] members[i], workspace_id, user);
        assert(admits(after[at], workspace_id, user));
    }
    assert(after[members.len() as int] == member);
    if is_member(after, workspace_id, user) && !admits(member, workspace_id, user) {
        let at = choose|i: int|
            0 <= i < after.len() && admits(#[trigger] after[i], workspace_id, user);
        assert(admits(members[at], workspace_id, user));
    }
}

proof fn dropping_an_account(accounts: Seq<Account>, user: Seq<char>)
    ensures
        account_row(without_account(accounts, user), user) is None,
        last_used(without_account(accounts, user)) matches Some(account) ==> account.user.id@
            != user,
    decreases accounts.len(),
{
    if accounts.len() > 0 {
        dropping_an_account(accounts.drop_last(), user);
        let kept = without_account(accounts.drop_last(), user);
        if accounts.last().user.id@ != user {
            adding_an_account(kept, accounts.last(), user);
            assert(kept.push(accounts.last()).drop_last() =~= kept);
        }
    }
}

proof fn adding_an_account(accounts: Seq<Account>, account: Account, user: Seq<char>)
    requires
        account.user.id@ != user,
        account_row(accounts, user) is None,
    ensures
        account_row(accounts.push(account), user) is None,
    decreases accounts.len(),
{
    let after = accounts.push(account);
    if accounts.len() > 0 {
        assert(after[0] == accounts[0]);
        assert(after.drop_first() =~= accounts.drop_first().push(account));
        adding_an_account(accounts.drop_first(), account, user);
    } else {
        assert(after[0] == account);
        assert(after.drop_first() =~= Seq::empty());
        assert(account_row(after.drop_first(), user) is None);
    }
}

/// An account that was removed is not remembered, belongs to nothing and is not active.
/// Every other account belongs to what it belonged to before.
pub proof fn removed_accounts_leave_nothing(
    tables: Tables,
    user: Seq<char>,
    now: i128,
    workspace_id: u128,
    other: Seq<char>,
)
    ensures
        ({
            let after = removed(tables, user, now);
            &&& account_row(after.accounts, user) is None
            &&& !is_member(after.members, workspace_id, user)
            &&& !is_text(after.active_account, user)
            &&& other != user ==> is_member(after.members, workspace_id, other) == is_member(
                tables.members,
                workspace_id,
                other,
            )
        }),
{
    dropping_an_account(tables.accounts, user);
    dropping_a_user(tables.members, user, workspace_id, user);
    dropping_a_user(tables.members, user, workspace_id, other);
}

} // verus!
