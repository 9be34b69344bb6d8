//! Workspaces and accounts: which there are, and which is active.
use vstd::prelude::*;

use crate::error::{AppError, AppResult};
use crate::ids::PERSONAL_WORKSPACE_ID;
use crate::model::{
    Workspace, WorkspaceAccountMembership, WorkspaceAuthAccount, WorkspaceAuthUser, WorkspaceKind,
    WorkspaceLifecycleState,
};
use crate::store::order::{arrange, arranged, Ordered};
use crate::store::tables::{Account, Member, Store, Tables};
use crate::text::{comes_before, holds_text, is_text, precedes, same_text, Text};

verus! {

/// The workspace with this id, if it is active.
pub open spec fn active_row(workspaces: Seq<Workspace>, id: u128) -> Option<Workspace>
    decreases workspaces.len(),
{
    if workspaces.len() == 0 {
        None
    } else if workspaces[0].id == id && workspaces[0].lifecycle_state
        == WorkspaceLifecycleState::Active {
        Some(workspaces[0])
    } else {
        active_row(workspaces.drop_first(), id)
    }
}

/// Computes [`active_row`].
pub fn find_active(workspaces: &Vec<Workspace>, id: u128) -> (r: Option<Workspace>)
    ensures
        r == active_row(workspaces@, id),
{
    let mut i: usize = 0;
    assert(workspaces@.subrange(0, workspaces@.len() as int) =~= workspaces@);
    while i < workspaces.len()
        invariant
            i <= workspaces@.len(),
            active_row(workspaces@, id) == active_row(
                workspaces@.subrange(i as int, workspaces@.len() as int),
                id,
            ),
        decreases workspaces@.len() - i,
    {
        assert(workspaces@.subrange(i as int, workspaces@.len() as int).drop_first()
            =~= workspaces@.subrange(i + 1, workspaces@.len() as int));
        if workspaces[i].id == id && workspaces[i].lifecycle_state
            == WorkspaceLifecycleState::Active {
            return Some(workspaces[i].duplicate());
        }
        i = i + 1;
    }
    None
}

/// Whether a row says that this user belongs to this workspace.
pub open spec fn admits(member: Member, workspace_id: u128, user_id: Seq<char>) -> bool {
    member.workspace_id == workspace_id && is_text(member.user_id, user_id) && member.active
}

/// Whether this user belongs to this workspace.
pub open spec fn is_member(members: Seq<Member>, workspace_id: u128, user_id: Seq<char>) -> bool {
    exists|i: int| 0 <= i < members.len() && admits(#[trigger] members[i], workspace_id, user_id)
}

/// Computes [`is_member`].
pub fn has_member(members: &Vec<Member>, workspace_id: u128, user_id: &str) -> (r: bool)
    ensures
        r == is_member(members@, workspace_id, user_id@),
{
    let mut i: usize = 0;
    while i < members.len()
        invariant
            i <= members@.len(),
            forall|j: int|
                0 <= j < i ==> !admits(#[trigger] members@[j], workspace_id, user_id@),
        decreases members@.len() - i,
    {
        if members[i].workspace_id == workspace_id && holds_text(&members[i].user_id, user_id)
            && members[i].active {
            assert(admits(members@[i as int], workspace_id, user_id@));
            return true;
        }
        i = i + 1;
    }
    false
}

/// Whether this workspace has any member left.
pub open spec fn is_peopled(members: Seq<Member>, workspace_id: u128) -> bool {
    exists|i: int|
        0 <= i < members.len() && (#[trigger] members[i]).workspace_id == workspace_id
            && members[i].active
}

/// Computes [`is_peopled`].
fn has_people(members: &Vec<Member>, workspace_id: u128) -> (r: bool)
    ensures
        r == is_peopled(members@, workspace_id),
{
    let mut i: usize = 0;
    while i < members.len()
        invariant
            i <= members@.len(),
            forall|j: int|
                0 <= j < i ==> !((#[trigger] members@[j]).workspace_id == workspace_id
                    && members@[j].active),
        decreases members@.len() - i,
    {
        if members[i].workspace_id == workspace_id && members[i].active {
            return true;
        }
        i = i + 1;
    }
    false
}

/// The account of this user, if it is remembered.
pub open spec fn account_row(accounts: Seq<Account>, user_id: Seq<char>) -> Option<Account>
    decreases accounts.len(),
{
    if accounts.len() == 0 {
        None
    } else if accounts[0].user.id@ == user_id {
        Some(accounts[0])
    } else {
        account_row(accounts.drop_first(), user_id)
    }
}

/// Computes [`account_row`].
pub fn find_account(accounts: &Vec<Account>, user_id: &str) -> (r: Option<Account>)
    ensures
        r == account_row(accounts@, user_id@),
{
    let mut i: usize = 0;
    assert(accounts@.subrange(0, accounts@.len() as int) =~= accounts@);
    while i < accounts.len()
        invariant
            i <= accounts@.len(),
            account_row(accounts@, user_id@) == account_row(
                accounts@.subrange(i as int, accounts@.len() as int),
                user_id@,
            ),
        decreases accounts@.len() - i,
    {
        assert(accounts@.subrange(i as int, accounts@.len() as int).drop_first()
            =~= accounts@.subrange(i + 1, accounts@.len() as int));
        if same_text(accounts[i].user.id.as_str(), user_id) {
            return Some(accounts[i].duplicate());
        }
        i = i + 1;
    }
    None
}

/// The active workspace.
pub open spec fn active_workspace_of(tables: Tables) -> Result<Workspace, AppError> {
    match active_row(tables.workspaces, tables.active_workspace) {
        Some(workspace) => Ok(workspace),
        None => Err(AppError::Config(Text::Plain("no active workspace is configured"))),
    }
}

/// Whose data the active workspace shows: the device's in the personal workspace, that of
/// the active account in a team.
pub open spec fn local_scope(tables: Tables) -> Result<Text, AppError> {
    match active_workspace_of(tables) {
        Err(error) => Err(error),
        Ok(workspace) => if workspace.kind == WorkspaceKind::Personal {
            Ok(Text::Plain("personal"))
        } else {
            match tables.active_account {
                Some(id) => Ok(Text::Owned(id)),
                None => Err(
                    AppError::Config(Text::Plain("a team workspace has no active account")),
                ),
            }
        },
    }
}

impl Ordered for Workspace {
    /// The personal workspace first, then by name.
    open spec fn goes_before(self, earlier: Workspace) -> bool {
        if self.kind != earlier.kind {
            self.kind == WorkspaceKind::Personal
        } else {
            precedes(self.name@, earlier.name@)
        }
    }

    fn is_before(&self, earlier: &Workspace) -> bool {
        if self.kind != earlier.kind {
            self.kind == WorkspaceKind::Personal
        } else {
            comes_before(self.name.as_str(), earlier.name.as_str())
        }
    }
}

impl Ordered for Account {
    /// The account that was used last first, and the older of two that were used at once.
    open spec fn goes_before(self, earlier: Account) -> bool {
        self.last_used_at > earlier.last_used_at || (self.last_used_at == earlier.last_used_at
            && self.created_at < earlier.created_at)
    }

    fn is_before(&self, earlier: &Account) -> bool {
        self.last_used_at > earlier.last_used_at || (self.last_used_at == earlier.last_used_at
            && self.created_at < earlier.created_at)
    }
}

impl Ordered for Member {
    /// The membership that began first first.
    open spec fn goes_before(self, earlier: Member) -> bool {
        self.joined_at < earlier.joined_at
    }

    fn is_before(&self, earlier: &Member) -> bool {
        self.joined_at < earlier.joined_at
    }
}

/// The workspaces that are active.
pub open spec fn active_rows(workspaces: Seq<Workspace>) -> Seq<Workspace>
    decreases workspaces.len(),
{
    if workspaces.len() == 0 {
        Seq::empty()
    } else if workspaces.last().lifecycle_state == WorkspaceLifecycleState::Active {
        active_rows(workspaces.drop_last()).push(workspaces.last())
    } else {
        active_rows(workspaces.drop_last())
    }
}

/// The memberships of this user.
pub open spec fn rows_of(members: Seq<Member>, user_id: Seq<char>) -> Seq<Member>
    decreases members.len(),
{
    if members.len() == 0 {
        Seq::empty()
    } else if is_text(members.last().user_id, user_id) && members.last().active {
        rows_of(members.drop_last(), user_id).push(members.last())
    } else {
        rows_of(members.drop_last(), user_id)
    }
}

/// What is said of a membership.
pub open spec fn membership_of(member: Member) -> WorkspaceAccountMembership {
    WorkspaceAccountMembership { workspace_id: member.workspace_id, role: member.role }
}

/// The memberships of this user, in the order in which they began.
pub open spec fn memberships_of(members: Seq<Member>, user_id: Seq<char>) -> Seq<
    WorkspaceAccountMembership,
> {
    let rows = arranged(rows_of(members, user_id));
    Seq::new(rows.len(), |i: int| membership_of(rows[i]))
}

/// Computes [`memberships_of`].
fn list_memberships(members: &Vec<Member>, user_id: &str) -> (r: Vec<WorkspaceAccountMembership>)
    ensures
        r@ == memberships_of(members@, user_id@),
{
    let mut rows: Vec<Member> = Vec::new();
    let mut i: usize = 0;
    while i < members.len()
        invariant
            i <= members@.len(),
            rows@ == rows_of(members@.subrange(0, i as int), user_id@),
        decreases members@.len() - i,
    {
        assert(members@.subrange(0, i + 1).drop_last() =~= members@.subrange(0, i as int));
        if holds_text(&members[i].user_id, user_id) && members[i].active {
            rows.push(members[i].duplicate());
        }
        i = i + 1;
    }
    assert(members@.subrange(0, members@.len() as int) =~= members@);
    let rows = arrange(rows);
    let mut memberships: Vec<WorkspaceAccountMembership> = Vec::new();
    let mut i: usize = 0;
    while i < rows.len()
        invariant
            i <= rows@.len(),
            memberships@ == Seq::new(i as nat, |k: int| membership_of(rows@[k])),
        decreases rows@.len() - i,
    {
        memberships.push(
            WorkspaceAccountMembership { workspace_id: rows[i].workspace_id, role: rows[i].role },
        );
        i = i + 1;
        assert(memberships@ =~= Seq::new(i as nat, |k: int| membership_of(rows@[k])));
    }
    memberships
}

/// Whether a listed account is a remembered one with its memberships.
pub open spec fn lists_account(
    listed: WorkspaceAuthAccount,
    account: Account,
    members: Seq<Member>,
) -> bool {
    listed.user == account.user && listed.memberships@ == memberships_of(
        members,
        account.user.id@,
    )
}

/// The least by name of the active workspaces that this user belongs to, the first of them
/// where names are equal.
pub open spec fn first_by_name(
    members: Seq<Member>,
    workspaces: Seq<Workspace>,
    user_id: Seq<char>,
) -> Option<Workspace>
    decreases members.len(),
{
    if members.len() == 0 {
        None
    } else {
        let found = first_by_name(members.drop_last(), workspaces, user_id);
        let member = members.last();
        match active_row(workspaces, member.workspace_id) {
            Some(workspace) => if is_text(member.user_id, user_id) && member.active && (
            found is None || precedes(workspace.name@, found->0.name@)) {
                Some(workspace)
            } else {
                found
            },
            None => found,
        }
    }
}

/// Computes [`first_by_name`].
fn find_first_by_name(
    members: &Vec<Member>,
    workspaces: &Vec<Workspace>,
    user_id: &str,
) -> (r: Option<Workspace>)
    ensures
        r == first_by_name(members@, workspaces@, user_id@),
{
    let mut found: Option<Workspace> = None;
    let mut i: usize = 0;
    while i < members.len()
        invariant
            i <= members@.len(),
            found == first_by_name(members@.subrange(0, i as int), workspaces@, user_id@),
        decreases members@.len() - i,
    {
        assert(members@.subrange(0, i + 1).drop_last() =~= members@.subrange(0, i as int));
        match find_active(workspaces, members[i].workspace_id) {
            Some(workspace) => {
                let better = match &found {
                    None => true,
                    Some(best) => comes_before(workspace.name.as_str(), best.name.as_str()),
                };
                if holds_text(&members[i].user_id, user_id) && members[i].active && better {
                    found = Some(workspace);
                }
            },
            None => {},
        }
        i = i + 1;
    }
    assert(members@.subrange(0, members@.len() as int) =~= members@);
    found
}

/// The workspace that an account opens in: the one that it used last, if it still belongs
/// there, else the first by name of those it belongs to, else the personal one.
pub open spec fn home_of(tables: Tables, user_id: Seq<char>) -> u128 {
    let last = match account_row(tables.accounts, user_id) {
        Some(account) => account.last_workspace_id,
        None => None,
    };
    if last is Some && is_member(tables.members, last->0, user_id) && active_row(
        tables.workspaces,
        last->0,
    ) is Some {
        last->0
    } else {
        match first_by_name(tables.members, tables.workspaces, user_id) {
            Some(workspace) => workspace.id,
            None => PERSONAL_WORKSPACE_ID,
        }
    }
}

/// What choosing a workspace, as this account, comes to.
pub open spec fn selection(tables: Tables, id: u128, account_user_id: Option<String>) -> Result<
    Workspace,
    AppError,
> {
    match active_row(tables.workspaces, id) {
        None => Err(AppError::NotFound(Text::WithId("workspace ", id, ""))),
        Some(workspace) => match account_user_id {
            Some(user_id) => if account_row(tables.accounts, user_id@) is None {
                Err(AppError::NotFound(Text::WithText("workspace account ", user_id, "")))
            } else if workspace.kind == WorkspaceKind::Team && !is_member(
                tables.members,
                id,
                user_id@,
            ) {
                Err(
                    AppError::NotFound(
                        Text::IdThenText("workspace ", id, " for account ", user_id),
                    ),
                )
            } else {
                Ok(workspace)
            },
            None => if workspace.kind == WorkspaceKind::Team {
                Err(
                    AppError::Config(
                        Text::Plain(
                            "a team workspace must be selected with an authenticated account",
                        ),
                    ),
                )
            } else {
                Ok(workspace)
            },
        },
    }
}

/// An account after it was used in a workspace.
pub open spec fn used(account: Account, workspace: Workspace, now: i128) -> Account {
    Account {
        last_workspace_id: if workspace.kind == WorkspaceKind::Team {
            Some(workspace.id)
        } else {
            account.last_workspace_id
        },
        last_used_at: now,
        updated_at: now,
        ..account
    }
}

/// The accounts after one of them was used in a workspace.
pub open spec fn with_used(
    accounts: Seq<Account>,
    user_id: Seq<char>,
    workspace: Workspace,
    now: i128,
) -> Seq<Account> {
    Seq::new(
        accounts.len(),
        |i: int|
            if accounts[i].user.id@ == user_id {
                used(accounts[i], workspace, now)
            } else {
                accounts[i]
            },
    )
}

/// The tables after a workspace was chosen.
pub open spec fn selected(
    tables: Tables,
    workspace: Workspace,
    account_user_id: Option<String>,
    now: i128,
) -> Tables {
    Tables {
        active_workspace: workspace.id,
        active_account: account_user_id,
        accounts: match account_user_id {
            Some(user_id) => with_used(tables.accounts, user_id@, workspace, now),
            None => tables.accounts,
        },
        ..tables
    }
}

/// An account that is remembered for the first time.
pub open spec fn new_account(user: WorkspaceAuthUser, now: i128) -> Account {
    Account { user, last_workspace_id: None, created_at: now, updated_at: now, last_used_at: now }
}

/// The accounts after one was remembered.
pub open spec fn remembered(accounts: Seq<Account>, user: WorkspaceAuthUser, now: i128) -> Seq<
    Account,
> {
    if account_row(accounts, user.id@) is Some {
        Seq::new(
            accounts.len(),
            |i: int|
                if accounts[i].user.id@ == user.id@ {
                    Account {
                        user: WorkspaceAuthUser {
                            email: user.email,
                            display_name: user.display_name,
                            ..accounts[i].user
                        },
                        updated_at: now,
                        ..accounts[i]
                    }
                } else {
                    accounts[i]
                },
        )
    } else {
        accounts.push(new_account(user, now))
    }
}

/// The workspaces after those teams were put away that nobody belongs to any more.
pub open spec fn without_deserted(
    workspaces: Seq<Workspace>,
    members: Seq<Member>,
    now: i128,
) -> Seq<Workspace> {
    Seq::new(
        workspaces.len(),
        |i: int|
            if workspaces[i].kind == WorkspaceKind::Team && !is_peopled(
                members,
                workspaces[i].id,
            ) {
                Workspace {
                    lifecycle_state: WorkspaceLifecycleState::Archived,
                    updated_at: now,
                    ..workspaces[i]
                }
            } else {
                workspaces[i]
            },
    )
}

/// Computes [`without_deserted`].
pub fn archive_deserted(workspaces: &mut Vec<Workspace>, members: &Vec<Member>, now: i128)
    ensures
        final(workspaces)@ == without_deserted(old(workspaces)@, members@, now),
{
    let ghost before = workspaces@;
    let mut i: usize = 0;
    while i < workspaces.len()
        invariant
            before == old(workspaces)@,
            workspaces@.len() == before.len(),
            i <= workspaces@.len(),
            forall|j: int|
                0 <= j < i ==> #[trigger] workspaces@[j] == without_deserted(
                    before,
                    members@,
                    now,
                )[j],
            forall|j: int| i <= j < before.len() ==> #[trigger] workspaces@[j] == before[j],
        decreases workspaces@.len() - i,
    {
        if workspaces[i].kind == WorkspaceKind::Team && !has_people(members, workspaces[i].id) {
            workspaces[i].lifecycle_state = WorkspaceLifecycleState::Archived;
            workspaces[i].updated_at = now;
        }
        i = i + 1;
    }
    assert(workspaces@ =~= without_deserted(before, members@, now));
}

/// The memberships without those of this user.
pub open spec fn without_user(members: Seq<Member>, user_id: Seq<char>) -> Seq<Member>
    decreases members.len(),
{
    if members.len() == 0 {
        Seq::empty()
    } else if is_text(members.last().user_id, user_id) {
        without_user(members.drop_last(), user_id)
    } else {
        without_user(members.drop_last(), user_id).push(members.last())
    }
}

/// Computes [`without_user`].
fn drop_user(members: &Vec<Member>, user_id: &str) -> (r: Vec<Member>)
    ensures
        r@ == without_user(members@, user_id@),
{
    let mut kept: Vec<Member> = Vec::new();
    let mut i: usize = 0;
    while i < members.len()
        invariant
            i <= members@.len(),
            kept@ == without_user(members@.subrange(0, i as int), user_id@),
        decreases members@.len() - i,
    {
        assert(members@.subrange(0, i + 1).drop_last() =~= members@.subrange(0, i as int));
        if !holds_text(&members[i].user_id, user_id) {
            kept.push(members[i].duplicate());
        }
        i = i + 1;
    }
    assert(members@.subrange(0, members@.len() as int) =~= members@);
    kept
}

/// The accounts without this one.
pub open spec fn without_account(accounts: Seq<Account>, user_id: Seq<char>) -> Seq<Account>
    decreases accounts.len(),
{
    if accounts.len() == 0 {
        Seq::empty()
    } else if accounts.last().user.id@ == user_id {
        without_account(accounts.drop_last(), user_id)
    } else {
        without_account(accounts.drop_last(), user_id).push(accounts.last())
    }
}

/// Computes [`without_account`].
fn drop_account(accounts: &Vec<Account>, user_id: &str) -> (r: Vec<Account>)
    ensures
        r@ == without_account(accounts@, user_id@),
{
    let mut kept: Vec<Account> = Vec::new();
    let mut i: usize = 0;
    while i < accounts.len()
        invariant
            i <= accounts@.len(),
            kept@ == without_account(accounts@.subrange(0, i as int), user_id@),
        decreases accounts@.len() - i,
    {
        assert(accounts@.subrange(0, i + 1).drop_last() =~= accounts@.subrange(0, i as int));
        if !same_text(accounts[i].user.id.as_str(), user_id) {
            kept.push(accounts[i].duplicate());
        }
        i = i + 1;
    }
    assert(accounts@.subrange(0, accounts@.len() as int) =~= accounts@);
    kept
}

/// The account that was used last, the first of them where several were.
pub open spec fn last_used(accounts: Seq<Account>) -> Option<Account>
    decreases accounts.len(),
{
    if accounts.len() == 0 {
        None
    } else {
        match last_used(accounts.drop_last()) {
            None => Some(accounts.last()),
            Some(found) => if accounts.last().last_used_at > found.last_used_at {
                Some(accounts.last())
            } else {
                Some(found)
            },
        }
    }
}

/// Computes [`last_used`].
fn find_last_used(accounts: &Vec<Account>) -> (r: Option<Account>)
    ensures
        r == last_used(accounts@),
{
    let mut found: Option<Account> = None;
    let mut i: usize = 0;
    while i < accounts.len()
        invariant
            i <= accounts@.len(),
            found == last_used(accounts@.subrange(0, i as int)),
        decreases accounts@.len() - i,
    {
        assert(accounts@.subrange(0, i + 1).drop_last() =~= accounts@.subrange(0, i as int));
        let later = match &found {
            None => true,
            Some(account) => accounts[i].last_used_at > account.last_used_at,
        };
        if later {
            found = Some(accounts[i].duplicate());
        }
        i = i + 1;
    }
    assert(accounts@.subrange(0, accounts@.len() as int) =~= accounts@);
    found
}

/// The tables after an account and its memberships were dropped.
pub open spec fn dropped(tables: Tables, user_id: Seq<char>, now: i128) -> Tables {
    let members = without_user(tables.members, user_id);
    Tables {
        members,
        accounts: without_account(tables.accounts, user_id),
        workspaces: without_deserted(tables.workspaces, members, now),
        ..tables
    }
}

/// The tables after an account was removed. Where it was the active one, the account that
/// was used last takes its place, or nobody does.
pub open spec fn removed(tables: Tables, user_id: Seq<char>, now: i128) -> Tables {
    let left = dropped(tables, user_id, now);
    if is_text(tables.active_account, user_id) {
        match last_used(left.accounts) {
            Some(account) => Tables {
                active_account: Some(account.user.id),
                active_workspace: home_of(left, account.user.id@),
                ..left
            },
            None => Tables {
                active_account: None,
                active_workspace: PERSONAL_WORKSPACE_ID,
                ..left
            },
        }
    } else {
        left
    }
}

impl Store {
    /// The active workspaces: the personal one, then the teams by name.
    pub fn list_workspaces(&self) -> (r: Vec<Workspace>)
        ensures
            r@ == arranged(active_rows(self@.workspaces)),
    {
        let mut rows: Vec<Workspace> = Vec::new();
        let mut i: usize = 0;
        while i < self.workspaces.len()
            invariant
                i <= self.workspaces@.len(),
                rows@ == active_rows(self.workspaces@.subrange(0, i as int)),
            decreases self.workspaces@.len() - i,
        {
            assert(self.workspaces@.subrange(0, i + 1).drop_last() =~= self.workspaces@.subrange(
                0,
                i as int,
            ));
            if self.workspaces[i].lifecycle_state == WorkspaceLifecycleState::Active {
                rows.push(self.workspaces[i].duplicate());
            }
            i = i + 1;
        }
        assert(self.workspaces@.subrange(0, self.workspaces@.len() as int) =~= self.workspaces@);
        arrange(rows)
    }

    /// The remembered accounts, the one that was used last first, each with its
    /// memberships in the order in which they began.
    pub fn workspace_accounts(&self) -> (r: Vec<WorkspaceAuthAccount>)
        ensures
            r@.len() == arranged(self@.accounts).len(),
            forall|i: int|
                0 <= i < r@.len() ==> lists_account(
                    #[trigger] r@[i],
                    arranged(self@.accounts)[i],
                    self@.members,
                ),
    {
        let mut rows: Vec<Account> = Vec::new();
        let mut i: usize = 0;
        while i < self.accounts.len()
            invariant
                i <= self.accounts@.len(),
                rows@ == self.accounts@.subrange(0, i as int),
            decreases self.accounts@.len() - i,
        {
            rows.push(self.accounts[i].duplicate());
            i = i + 1;
            assert(rows@ =~= self.accounts@.subrange(0, i as int));
        }
        assert(self.accounts@.subrange(0, self.accounts@.len() as int) =~= self.accounts@);
        let rows = arrange(rows);
        let mut accounts: Vec<WorkspaceAuthAccount> = Vec::new();
        let mut i: usize = 0;
        while i < rows.len()
            invariant
                i <= rows@.len(),
                accounts@.len() == i,
                forall|j: int|
                    0 <= j < i ==> lists_account(
                        #[trigger] accounts@[j],
                        rows@[j],
                        self.members@,
                    ),
            decreases rows@.len() - i,
        {
            let memberships = list_memberships(&self.members, rows[i].user.id.as_str());
            accounts.push(WorkspaceAuthAccount { user: rows[i].user.duplicate(), memberships });
            i = i + 1;
        }
        accounts
    }

    /// The id of the active account, if one is active.
    pub fn active_workspace_account_id(&self) -> (r: Option<String>)
        ensures
            r == self@.active_account,
    {
        self.active_account.clone()
    }

    /// The active workspace.
    pub fn active_workspace(&self) -> (r: AppResult<Workspace>)
        ensures
            r == active_workspace_of(self@),
    {
        match find_active(&self.workspaces, self.active_workspace) {
            Some(workspace) => Ok(workspace),
            None => Err(AppError::Config(Text::Plain("no active workspace is configured"))),
        }
    }

    /// The id of the active workspace.
    pub fn active_workspace_id(&self) -> (r: AppResult<u128>)
        ensures
            match active_workspace_of(self@) {
                Ok(workspace) => r == Ok::<u128, AppError>(workspace.id),
                Err(error) => r == Err::<u128, AppError>(error),
            },
    {
        match self.active_workspace() {
            Ok(workspace) => Ok(workspace.id),
            Err(error) => Err(error),
        }
    }

    /// Whose data the active workspace shows.
    pub fn active_local_scope(&self) -> (r: AppResult<Text>)
        ensures
            r == local_scope(self@),
    {
        match self.active_workspace() {
            Err(error) => Err(error),
            Ok(workspace) => {
                if workspace.kind == WorkspaceKind::Personal {
                    Ok(Text::Plain("personal"))
                } else {
                    match &self.active_account {
                        Some(id) => Ok(Text::Owned(id.clone())),
                        None => Err(
                            AppError::Config(
                                Text::Plain("a team workspace has no active account"),
                            ),
                        ),
                    }
                }
            },
        }
    }

    /// Remembers an account, or what is new of one.
    pub fn remember_workspace_account(&mut self, user: &WorkspaceAuthUser, now: i128)
        ensures
            final(self)@ == (Tables {
                accounts: remembered(old(self)@.accounts, *user, now),
                ..old(self)@
            }),
    {
        let known = find_account(&self.accounts, user.id.as_str()).is_some();
        let ghost before = self.accounts@;
        if known {
            let mut i: usize = 0;
            while i < self.accounts.len()
                invariant
                    before == old(self)@.accounts,
                    account_row(before, user.id@) is Some,
                    self.accounts@.len() == before.len(),
                    i <= self.accounts@.len(),
                    self@ == (Tables { accounts: self.accounts@, ..old(self)@ }),
                    forall|j: int|
                        0 <= j < i ==> #[trigger] self.accounts@[j] == remembered(
                            before,
                            *user,
                            now,
                        )[j],
                    forall|j: int|
                        i <= j < before.len() ==> #[trigger] self.accounts@[j] == before[j],
                decreases self.accounts@.len() - i,
            {
                if same_text(self.accounts[i].user.id.as_str(), user.id.as_str()) {
                    let account = Account {
                        user: WorkspaceAuthUser {
                            id: self.accounts[i].user.id.clone(),
                            email: user.email.clone(),
                            display_name: user.display_name.clone(),
                        },
                        last_workspace_id: self.accounts[i].last_workspace_id,
                        created_at: self.accounts[i].created_at,
                        updated_at: now,
                        last_used_at: self.accounts[i].last_used_at,
                    };
                    self.accounts.set(i, account);
                }
                i = i + 1;
            }
            assert(self.accounts@ =~= remembered(before, *user, now));
        } else {
            self.accounts.push(
                Account {
                    user: user.duplicate(),
                    last_workspace_id: None,
                    created_at: now,
                    updated_at: now,
                    last_used_at: now,
                },
            );
        }
    }

    /// Chooses a workspace, as this account. A team is chosen by an account that belongs to
    /// it; the personal workspace needs none.
    pub fn activate_workspace(
        &mut self,
        id: u128,
        account_user_id: Option<String>,
        now: i128,
    ) -> (r: AppResult<Workspace>)
        ensures
            r == selection(old(self)@, id, account_user_id),
            final(self)@ == match selection(old(self)@, id, account_user_id) {
                Ok(workspace) => selected(old(self)@, workspace, account_user_id, now),
                Err(_) => old(self)@,
            },
    {
        let workspace = match find_active(&self.workspaces, id) {
            None => {
                return Err(AppError::NotFound(Text::WithId("workspace ", id, "")));
            },
            Some(workspace) => workspace,
        };
        proof {
            active_row_has_the_id(self@.workspaces, id);
        }
        match &account_user_id {
            Some(user_id) => {
                if find_account(&self.accounts, user_id.as_str()).is_none() {
                    return Err(
                        AppError::NotFound(
                            Text::WithText("workspace account ", user_id.clone(), ""),
                        ),
                    );
                }
                if workspace.kind == WorkspaceKind::Team && !has_member(
                    &self.members,
                    id,
                    user_id.as_str(),
                ) {
                    return Err(
                        AppError::NotFound(
                            Text::IdThenText("workspace ", id, " for account ", user_id.clone()),
                        ),
                    );
                }
            },
            None => {
                if workspace.kind == WorkspaceKind::Team {
                    return Err(
                        AppError::Config(
                            Text::Plain(
                                "a team workspace must be selected with an authenticated account",
                            ),
                        ),
                    );
                }
            },
        }
        match &account_user_id {
            Some(user_id) => {
                self.use_account(user_id.as_str(), &workspace, now);
            },
            None => {},
        }
        self.active_workspace = id;
        self.active_account = account_user_id;
        Ok(workspace)
    }

    fn use_account(&mut self, user_id: &str, workspace: &Workspace, now: i128)
        ensures
            final(self)@ == (Tables {
                accounts: with_used(old(self)@.accounts, user_id@, *workspace, now),
                ..old(self)@
            }),
    {
        let ghost before = self.accounts@;
        let mut i: usize = 0;
        while i < self.accounts.len()
            invariant
                before == old(self)@.accounts,
                self.accounts@.len() == before.len(),
                i <= self.accounts@.len(),
                self@ == (Tables { accounts: self.accounts@, ..old(self)@ }),
                forall|j: int|
                    0 <= j < i ==> #[trigger] self.accounts@[j] == with_used(
                        before,
                        user_id@,
                        *workspace,
                        now,
                    )[j],
                forall|j: int|
                    i <= j < before.len() ==> #[trigger] self.accounts@[j] == before[j],
            decreases self.accounts@.len() - i,
        {
            if same_text(self.accounts[i].user.id.as_str(), user_id) {
                if workspace.kind == WorkspaceKind::Team {
                    self.accounts[i].last_workspace_id = Some(workspace.id);
                }
                self.accounts[i].last_used_at = now;
                self.accounts[i].updated_at = now;
            }
            i = i + 1;
        }
        assert(self.accounts@ =~= with_used(before, user_id@, *workspace, now));
    }

    /// The workspace that an account opens in.
    pub fn home_workspace(&self, user_id: &str) -> (r: u128)
        ensures
            r == home_of(self@, user_id@),
    {
        let last = match find_account(&self.accounts, user_id) {
            Some(account) => account.last_workspace_id,
            None => None,
        };
        match last {
            Some(id) => {
                if has_member(&self.members, id, user_id) && find_active(
                    &self.workspaces,
                    id,
                ).is_some() {
                    return id;
                }
            },
            None => {},
        }
        match find_first_by_name(&self.members, &self.workspaces, user_id) {
            Some(workspace) => workspace.id,
            None => PERSONAL_WORKSPACE_ID,
        }
    }

    /// Switches to an account, in the workspace that it opens in.
    pub fn activate_workspace_account(&mut self, user_id: String, now: i128) -> (r: AppResult<
        Workspace,
    >)
        ensures
            ({
                let home = home_of(old(self)@, user_id@);
                let chosen = selection(old(self)@, home, Some(user_id));
                &&& r == chosen
                &&& final(self)@ == match chosen {
                    Ok(workspace) => selected(old(self)@, workspace, Some(user_id), now),
                    Err(_) => old(self)@,
                }
            }),
    {
        let id: u128 = self.home_workspace(user_id.as_str());
        self.activate_workspace(id, Some(user_id), now)
    }

    /// Removes an account and its memberships.
    pub fn remove_workspace_account(&mut self, user_id: &str, now: i128)
        ensures
            final(self)@ == removed(old(self)@, user_id@, now),
    {
        let members = drop_user(&self.members, user_id);
        let accounts = drop_account(&self.accounts, user_id);
        self.members = members;
        self.accounts = accounts;
        archive_deserted(&mut self.workspaces, &self.members, now);
        assert(self@ == dropped(old(self)@, user_id@, now));
        if holds_text(&self.active_account, user_id) {
            match find_last_used(&self.accounts) {
                Some(account) => {
                    let home: u128 = self.home_workspace(account.user.id.as_str());
                    self.active_account = Some(account.user.id);
                    self.active_workspace = home;
                },
                None => {
                    self.active_account = None;
                    self.active_workspace = PERSONAL_WORKSPACE_ID;
                },
            }
        }
    }
}

/// What is found under an id has that id, and is active.
pub proof fn active_row_has_the_id(workspaces: Seq<Workspace>, id: u128)
    ensures
        active_row(workspaces, id) matches Some(workspace) ==> workspace.id == id
            && workspace.lifecycle_state == WorkspaceLifecycleState::Active,
    decreases workspaces.len(),
{
    if workspaces.len() > 0 {
        active_row_has_the_id(workspaces.drop_first(), id);
    }
}

} // verus!
