//! What a new installation starts with, and what an older one is brought up to.
use vstd::prelude::*;

use crate::ids::PERSONAL_WORKSPACE_ID;
use crate::model::{Workspace, WorkspaceKind, WorkspaceLifecycleState, WorkspaceRole};
use crate::store::memberships::{has_workspace, knows_workspace};
use crate::store::tables::{Member, Store, Tables};
use crate::text::stands_at;

verus! {

/// The identifier of the membership of the owner of the device.
pub const LOCAL_OWNER_ID: u128 = 2;

/// Whether a store holds the personal workspace and its owner, and nothing else.
pub open spec fn is_fresh(tables: Tables, now: i128) -> bool {
    &&& tables.workspaces.len() == 1
    &&& tables.workspaces[0] == (Workspace {
        id: PERSONAL_WORKSPACE_ID,
        name: tables.workspaces[0].name,
        kind: WorkspaceKind::Personal,
        lifecycle_state: WorkspaceLifecycleState::Active,
        created_at: now,
        updated_at: now,
    })
    &&& tables.workspaces[0].name@ == "Personal Workspace"@
    &&& tables.members.len() == 1
    &&& tables.members[0] == (Member {
        id: LOCAL_OWNER_ID,
        workspace_id: PERSONAL_WORKSPACE_ID,
        user_id: None,
        display_name: tables.members[0].display_name,
        role: WorkspaceRole::Owner,
        active: true,
        joined_at: now,
    })
    &&& tables.members[0].display_name@ == "Local owner"@
    &&& tables == (Tables {
        workspaces: tables.workspaces,
        members: tables.members,
        accounts: Seq::empty(),
        active_workspace: PERSONAL_WORKSPACE_ID,
        active_account: None,
        connections: Seq::empty(),
        bindings: Seq::empty(),
        safety: Seq::empty(),
        history: Seq::empty(),
        dashboards: Seq::empty(),
        schema_cache: Seq::empty(),
        threads: Seq::empty(),
        messages: Seq::empty(),
        outbox: Seq::empty(),
    })
}

impl Store {
    /// The store of a new installation.
    pub fn fresh(now: i128) -> (r: Store)
        ensures
            is_fresh(r@, now),
    {
        let mut workspaces: Vec<Workspace> = Vec::new();
        workspaces.push(
            Workspace {
                id: PERSONAL_WORKSPACE_ID,
                name: "Personal Workspace".to_owned(),
                kind: WorkspaceKind::Personal,
                lifecycle_state: WorkspaceLifecycleState::Active,
                created_at: now,
                updated_at: now,
            },
        );
        let mut members: Vec<Member> = Vec::new();
        members.push(
            Member {
                id: LOCAL_OWNER_ID,
                workspace_id: PERSONAL_WORKSPACE_ID,
                user_id: None,
                display_name: "Local owner".to_owned(),
                role: WorkspaceRole::Owner,
                active: true,
                joined_at: now,
            },
        );
        Store {
            workspaces,
            members,
            accounts: Vec::new(),
            active_workspace: PERSONAL_WORKSPACE_ID,
            active_account: None,
            connections: Vec::new(),
            bindings: Vec::new(),
            safety: Vec::new(),
            history: Vec::new(),
            dashboards: Vec::new(),
            schema_cache: Vec::new(),
            threads: Vec::new(),
            messages: Vec::new(),
            outbox: Vec::new(),
        }
    }

    /// Makes the personal workspace active where the active one is not there.
    pub fn migrate_workspace_foundation(&mut self)
        ensures
            final(self)@ == (Tables {
                active_workspace: if knows_workspace(
                    old(self)@.workspaces,
                    old(self)@.active_workspace,
                ) {
                    old(self)@.active_workspace
                } else {
                    PERSONAL_WORKSPACE_ID
                },
                ..old(self)@
            }),
    {
        if !has_workspace(&self.workspaces, self.active_workspace) {
            self.active_workspace = PERSONAL_WORKSPACE_ID;
        }
    }
}

/// What `str::to_uppercase` makes of a text.
pub uninterp spec fn uppercase(text: Seq<char>) -> Seq<char>;

/// Calls `str::to_uppercase`. Nothing is said of what it makes of each character.
#[verifier::external_body]
fn to_uppercase(text: &str) -> (r: String)
    ensures
        r@ == uppercase(text@),
{
    text.to_uppercase()
}

/// Whether `part` occurs in `text`.
pub open spec fn occurs_in(part: Seq<char>, text: Seq<char>) -> bool {
    exists|i: int|
        0 <= i <= text.len() - part.len() && #[trigger] text.subrange(i, i + part.len()) == part
}

/// Computes [`occurs_in`].
fn contains(text: &str, part: &str) -> (r: bool)
    ensures
        r == occurs_in(part@, text@),
{
    let n: usize = text.unicode_len();
    let m: usize = part.unicode_len();
    let mut i: usize = 0;
    while i <= n && m <= n - i
        invariant
            n == text@.len(),
            m == part@.len(),
            i <= n + 1,
            forall|k: int|
                0 <= k < i && k <= n - m ==> #[trigger] text@.subrange(k, k + m) != part@,
        decreases n + 1 - i,
    {
        if stands_at(text, part, i) {
            return true;
        }
        if i == n {
            return false;
        }
        i = i + 1;
    }
    false
}

/// Whether the audit table has to be rebuilt: its definition, in capitals, says that rows go
/// with their connection. Audit rows have to outlive it.
pub fn audit_needs_rebuild(definition: &Option<String>) -> (r: bool)
    ensures
        r == (*definition is Some && cascades(uppercase(definition->0@))),
{
    match definition {
        Some(text) => cascade_is_mentioned(to_uppercase(text.as_str()).as_str()),
        None => false,
    }
}

/// Whether a definition in capitals mentions that rows go with their connection.
pub open spec fn cascades(capitals: Seq<char>) -> bool {
    occurs_in("CASCADE"@, capitals)
}

/// Computes [`cascades`].
pub fn cascade_is_mentioned(capitals: &str) -> (r: bool)
    ensures
        r == cascades(capitals@),
{
    contains(capitals, "CASCADE")
}

} // verus!
