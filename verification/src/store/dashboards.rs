//! Saved dashboards. How one is drawn is kept as JSON, which the host reads and writes.
use vstd::prelude::*;

use crate::error::{AppError, AppResult};
use crate::model::{Dashboard, DashboardDraft, DashboardVisualization};
use crate::store::connections::{no_connection, say_no_connection};
use crate::store::directory::active_workspace_of;
use crate::store::order::{arrange, arranged, Ordered};
use crate::store::records::{is_live, lives};
use crate::store::tables::{
    ConnectionRow, DashboardRow, OutboxEntry, OutboxOperation, ResourceKind, Store, SyncStatus,
    Tables,
};
use crate::text::Text;

verus! {

/// A change of a dashboard for the server to hear of.
pub open spec fn dashboard_change(
    outbox_id: u128,
    workspace_id: u128,
    id: u128,
    operation: OutboxOperation,
    revision: i64,
    now: i128,
) -> OutboxEntry {
    OutboxEntry {
        id: outbox_id,
        workspace_id,
        resource: ResourceKind::Dashboard,
        resource_id: id,
        operation,
        revision,
        created_at: now,
    }
}

/// The row of a new dashboard.
pub open spec fn new_dashboard(
    draft: DashboardDraft,
    visualization_json: String,
    workspace_id: u128,
    id: u128,
    now: i128,
) -> DashboardRow {
    DashboardRow {
        id,
        connection_id: draft.connection_id,
        title: draft.title,
        description: draft.description,
        sql: draft.sql,
        visualization_json,
        workspace_id,
        revision: 1,
        sync_status: SyncStatus::Dirty,
        deleted_at: None,
        created_at: now,
        updated_at: now,
    }
}

/// The dashboard that a draft becomes.
pub open spec fn dashboard_of(draft: DashboardDraft, id: u128, now: i128) -> Dashboard {
    Dashboard {
        id,
        connection_id: draft.connection_id,
        title: draft.title,
        description: draft.description,
        sql: draft.sql,
        visualization: draft.visualization,
        created_at: now,
        updated_at: now,
    }
}

/// Whether a dashboard, of whatever workspace, has this id.
pub open spec fn has_dashboard(dashboards: Seq<DashboardRow>, id: u128) -> bool {
    exists|i: int| 0 <= i < dashboards.len() && (#[trigger] dashboards[i]).id == id
}

/// Computes [`has_dashboard`].
fn holds_dashboard(dashboards: &Vec<DashboardRow>, id: u128) -> (r: bool)
    ensures
        r == has_dashboard(dashboards@, id),
{
    let mut i: usize = 0;
    while i < dashboards.len()
        invariant
            i <= dashboards@.len(),
            forall|j: int| 0 <= j < i ==> (#[trigger] dashboards@[j]).id != id,
        decreases dashboards@.len() - i,
    {
        if dashboards[i].id == id {
            return true;
        }
        i = i + 1;
    }
    false
}

/// Why a dashboard cannot be saved under an id, if it cannot: its connection has to be one of
/// the active workspace, and an id stands for one dashboard.
pub open spec fn dashboard_refusal(tables: Tables, connection_id: u128, id: u128) -> Option<
    AppError,
> {
    match active_workspace_of(tables) {
        Err(error) => Some(error),
        Ok(workspace) => if !is_live(tables.connections, connection_id, workspace.id) {
            Some(no_connection(connection_id))
        } else if has_dashboard(tables.dashboards, id) {
            Some(AppError::Host(Text::Plain("UNIQUE constraint failed: dashboards.id")))
        } else {
            None
        },
    }
}

/// The tables after a dashboard was saved.
pub open spec fn with_dashboard(
    tables: Tables,
    draft: DashboardDraft,
    visualization_json: String,
    id: u128,
    outbox_id: u128,
    now: i128,
) -> Tables {
    let workspace_id = active_workspace_of(tables)->Ok_0.id;
    Tables {
        dashboards: tables.dashboards.push(
            new_dashboard(draft, visualization_json, workspace_id, id, now),
        ),
        outbox: tables.outbox.push(
            dashboard_change(outbox_id, workspace_id, id, OutboxOperation::Upsert, 1, now),
        ),
        ..tables
    }
}

impl Ordered for DashboardRow {
    /// The one that changed last first, and the newer of two that changed at once.
    open spec fn goes_before(self, earlier: DashboardRow) -> bool {
        self.updated_at >= earlier.updated_at
    }

    fn is_before(&self, earlier: &DashboardRow) -> bool {
        self.updated_at >= earlier.updated_at
    }
}

/// Whether a dashboard is shown in a workspace.
pub open spec fn shows_dashboard(
    row: DashboardRow,
    connections: Seq<ConnectionRow>,
    workspace_id: u128,
) -> bool {
    row.workspace_id == workspace_id && row.deleted_at is None && is_live(
        connections,
        row.connection_id,
        workspace_id,
    )
}

fn is_shown(row: &DashboardRow, connections: &Vec<ConnectionRow>, workspace_id: u128) -> (r: bool)
    ensures
        r == shows_dashboard(*row, connections@, workspace_id),
{
    row.workspace_id == workspace_id && row.deleted_at.is_none() && lives(
        connections,
        row.connection_id,
        workspace_id,
    )
}

/// The dashboards of a connection.
pub open spec fn dashboards_of(
    dashboards: Seq<DashboardRow>,
    connections: Seq<ConnectionRow>,
    connection_id: u128,
    workspace_id: u128,
) -> Seq<DashboardRow>
    decreases dashboards.len(),
{
    if dashboards.len() == 0 {
        Seq::empty()
    } else {
        let earlier = dashboards_of(
            dashboards.drop_last(),
            connections,
            connection_id,
            workspace_id,
        );
        let row = dashboards.last();
        if row.connection_id == connection_id && shows_dashboard(row, connections, workspace_id) {
            earlier.push(row)
        } else {
            earlier
        }
    }
}

/// The dashboard with this id, if it is shown.
pub open spec fn shown_dashboard(
    dashboards: Seq<DashboardRow>,
    connections: Seq<ConnectionRow>,
    id: u128,
    workspace_id: u128,
) -> Option<DashboardRow>
    decreases dashboards.len(),
{
    if dashboards.len() == 0 {
        None
    } else if dashboards[0].id == id && shows_dashboard(
        dashboards[0],
        connections,
        workspace_id,
    ) {
        Some(dashboards[0])
    } else {
        shown_dashboard(dashboards.drop_first(), connections, id, workspace_id)
    }
}

/// No dashboard is found under this id.
pub open spec fn no_dashboard(id: u128) -> AppError {
    AppError::NotFound(Text::WithId("dashboard ", id, ""))
}

/// What is found under an id.
pub open spec fn dashboard_lookup(tables: Tables, id: u128) -> Result<DashboardRow, AppError> {
    match active_workspace_of(tables) {
        Err(error) => Err(error),
        Ok(workspace) => match shown_dashboard(
            tables.dashboards,
            tables.connections,
            id,
            workspace.id,
        ) {
            Some(row) => Ok(row),
            None => Err(no_dashboard(id)),
        },
    }
}

/// Whether a row is a dashboard of this workspace that can be deleted.
pub open spec fn is_deletable(row: DashboardRow, id: u128, workspace_id: u128) -> bool {
    row.id == id && row.workspace_id == workspace_id && row.deleted_at is None
}

/// The place of the dashboard of this workspace that can be deleted under this id.
pub open spec fn deletable_place(
    dashboards: Seq<DashboardRow>,
    id: u128,
    workspace_id: u128,
) -> Option<
    int,
>
    decreases dashboards.len(),
{
    if dashboards.len() == 0 {
        None
    } else if is_deletable(dashboards[0], id, workspace_id) {
        Some(0)
    } else {
        match deletable_place(dashboards.drop_first(), id, workspace_id) {
            Some(i) => Some(i + 1),
            None => None,
        }
    }
}

/// The place is that of the first dashboard that can be deleted under this id.
pub proof fn deletable_place_is_first(dashboards: Seq<DashboardRow>, id: u128, workspace_id: u128)
    ensures
        match deletable_place(dashboards, id, workspace_id) {
            Some(i) => {
                &&& 0 <= i < dashboards.len()
                &&& is_deletable(dashboards[i], id, workspace_id)
                &&& forall|j: int|
                    0 <= j < i ==> !is_deletable(#[trigger] dashboards[j], id, workspace_id)
            },
            None => forall|j: int|
                0 <= j < dashboards.len() ==> !is_deletable(
                    #[trigger] dashboards[j],
                    id,
                    workspace_id,
                ),
        },
    decreases dashboards.len(),
{
    if dashboards.len() > 0 && !is_deletable(dashboards[0], id, workspace_id) {
        let rest = dashboards.drop_first();
        deletable_place_is_first(rest, id, workspace_id);
        assert forall|j: int| 0 < j < dashboards.len() implies #[trigger] dashboards[j] == rest[j
            - 1] by {}
    }
}

fn find_deletable(
    dashboards: &Vec<DashboardRow>,
    id: u128,
    workspace_id: u128,
) -> (r: Option<usize>)
    ensures
        match r {
            Some(i) => i < dashboards@.len() && deletable_place(dashboards@, id, workspace_id)
                == Some(i as int),
            None => deletable_place(dashboards@, id, workspace_id) is None,
        },
{
    proof {
        deletable_place_is_first(dashboards@, id, workspace_id);
    }
    let mut i: usize = 0;
    while i < dashboards.len()
        invariant
            i <= dashboards@.len(),
            forall|j: int|
                0 <= j < i ==> !is_deletable(#[trigger] dashboards@[j], id, workspace_id),
            match deletable_place(dashboards@, id, workspace_id) {
                Some(k) => {
                    &&& 0 <= k < dashboards@.len()
                    &&& is_deletable(dashboards@[k], id, workspace_id)
                    &&& forall|j: int|
                        0 <= j < k ==> !is_deletable(#[trigger] dashboards@[j], id, workspace_id)
                },
                None => forall|j: int|
                    0 <= j < dashboards@.len() ==> !is_deletable(
                        #[trigger] dashboards@[j],
                        id,
                        workspace_id,
                    ),
            },
        decreases dashboards@.len() - i,
    {
        let row = &dashboards[i];
        if row.id == id && row.workspace_id == workspace_id && row.deleted_at.is_none() {
            assert(is_deletable(dashboards@[i as int], id, workspace_id));
            return Some(i);
        }
        i = i + 1;
    }
    None
}

/// The tables after a dashboard was deleted. Its row stays, for the server to hear of.
pub open spec fn without_dashboard(
    tables: Tables,
    id: u128,
    workspace_id: u128,
    outbox_id: u128,
    now: i128,
) -> Tables {
    let at = deletable_place(tables.dashboards, id, workspace_id)->0;
    let row = tables.dashboards[at];
    let revision = (row.revision + 1) as i64;
    Tables {
        dashboards: tables.dashboards.update(
            at,
            DashboardRow {
                deleted_at: Some(now),
                updated_at: now,
                revision,
                sync_status: SyncStatus::Dirty,
                ..row
            },
        ),
        outbox: tables.outbox.push(
            dashboard_change(outbox_id, workspace_id, id, OutboxOperation::Delete, revision, now),
        ),
        ..tables
    }
}

/// A stored dashboard that is drawn like this.
pub open spec fn drawn(row: DashboardRow, visualization: DashboardVisualization) -> Dashboard {
    Dashboard {
        id: row.id,
        connection_id: row.connection_id,
        title: row.title,
        description: row.description,
        sql: row.sql,
        visualization,
        created_at: row.created_at,
        updated_at: row.updated_at,
    }
}

/// A stored dashboard, once it is known how it is drawn.
pub fn row_to_dashboard(row: &DashboardRow, visualization: AppResult<DashboardVisualization>) -> (r:
    AppResult<Dashboard>)
    ensures
        match visualization {
            Err(error) => r == Err::<Dashboard, AppError>(error),
            Ok(visualization) => r == Ok::<Dashboard, AppError>(drawn(*row, visualization)),
        },
{
    match visualization {
        Err(error) => Err(error),
        Ok(visualization) => Ok(
            Dashboard {
                id: row.id,
                connection_id: row.connection_id,
                title: row.title.clone(),
                description: row.description.clone(),
                sql: row.sql.clone(),
                visualization,
                created_at: row.created_at,
                updated_at: row.updated_at,
            },
        ),
    }
}

impl Store {
    /// Saves a new dashboard, for a connection of the active workspace, under this id.
    pub fn save_dashboard(
        &mut self,
        draft: DashboardDraft,
        visualization_json: String,
        id: u128,
        outbox_id: u128,
        now: i128,
    ) -> (r: AppResult<Dashboard>)
        ensures
            match dashboard_refusal(old(self)@, draft.connection_id, id) {
                Some(error) => r == Err::<Dashboard, AppError>(error) && final(self)@ == old(self)@,
                None => {
                    &&& r == Ok::<Dashboard, AppError>(dashboard_of(draft, id, now))
                    &&& final(self)@ == with_dashboard(
                        old(self)@,
                        draft,
                        visualization_json,
                        id,
                        outbox_id,
                        now,
                    )
                },
            },
    {
        let workspace_id = match self.active_workspace_id() {
            Err(error) => {
                return Err(error);
            },
            Ok(workspace_id) => workspace_id,
        };
        if !lives(&self.connections, draft.connection_id, workspace_id) {
            return Err(say_no_connection(draft.connection_id));
        }
        if holds_dashboard(&self.dashboards, id) {
            return Err(AppError::Host(Text::Plain("UNIQUE constraint failed: dashboards.id")));
        }
        self.dashboards.push(
            DashboardRow {
                id,
                connection_id: draft.connection_id,
                title: draft.title.clone(),
                description: draft.description.clone(),
                sql: draft.sql.clone(),
                visualization_json,
                workspace_id,
                revision: 1,
                sync_status: SyncStatus::Dirty,
                deleted_at: None,
                created_at: now,
                updated_at: now,
            },
        );
        self.outbox.push(
            OutboxEntry {
                id: outbox_id,
                workspace_id,
                resource: ResourceKind::Dashboard,
                resource_id: id,
                operation: OutboxOperation::Upsert,
                revision: 1,
                created_at: now,
            },
        );
        Ok(
            Dashboard {
                id,
                connection_id: draft.connection_id,
                title: draft.title,
                description: draft.description,
                sql: draft.sql,
                visualization: draft.visualization,
                created_at: now,
                updated_at: now,
            },
        )
    }

    /// The dashboards of a connection, the one that changed last first.
    pub fn list_dashboards(&self, connection_id: u128) -> (r: AppResult<Vec<DashboardRow>>)
        ensures
            match active_workspace_of(self@) {
                Err(error) => r == Err::<Vec<DashboardRow>, AppError>(error),
                Ok(workspace) => r is Ok && r->Ok_0@ == arranged(
                    dashboards_of(
                        self@.dashboards,
                        self@.connections,
                        connection_id,
                        workspace.id,
                    ),
                ),
            },
    {
        let workspace_id = match self.active_workspace_id() {
            Err(error) => {
                return Err(error);
            },
            Ok(workspace_id) => workspace_id,
        };
        let mut rows: Vec<DashboardRow> = Vec::new();
        let mut i: usize = 0;
        while i < self.dashboards.len()
            invariant
                i <= self.dashboards@.len(),
                rows@ == dashboards_of(
                    self.dashboards@.subrange(0, i as int),
                    self.connections@,
                    connection_id,
                    workspace_id,
                ),
            decreases self.dashboards@.len() - i,
        {
            assert(self.dashboards@.subrange(0, i + 1).drop_last() =~= self.dashboards@.subrange(
                0,
                i as int,
            ));
            if self.dashboards[i].connection_id == connection_id && is_shown(
                &self.dashboards[i],
                &self.connections,
                workspace_id,
            ) {
                rows.push(self.dashboards[i].duplicate());
            }
            i = i + 1;
        }
        assert(self.dashboards@.subrange(0, self.dashboards@.len() as int) =~= self.dashboards@);
        Ok(arrange(rows))
    }

    /// A dashboard of the active workspace.
    pub fn get_dashboard(&self, id: u128) -> (r: AppResult<DashboardRow>)
        ensures
            r == dashboard_lookup(self@, id),
    {
        let workspace_id = match self.active_workspace_id() {
            Err(error) => {
                return Err(error);
            },
            Ok(workspace_id) => workspace_id,
        };
        let mut i: usize = 0;
        assert(self.dashboards@.subrange(0, self.dashboards@.len() as int) =~= self.dashboards@);
        while i < self.dashboards.len()
            invariant
                i <= self.dashboards@.len(),
                active_workspace_of(self@) is Ok,
                workspace_id == active_workspace_of(self@)->Ok_0.id,
                shown_dashboard(self.dashboards@, self.connections@, id, workspace_id)
                    == shown_dashboard(
                    self.dashboards@.subrange(i as int, self.dashboards@.len() as int),
                    self.connections@,
                    id,
                    workspace_id,
                ),
            decreases self.dashboards@.len() - i,
        {
            assert(self.dashboards@.subrange(i as int, self.dashboards@.len() as int).drop_first()
                =~= self.dashboards@.subrange(i + 1, self.dashboards@.len() as int));
            if self.dashboards[i].id == id && is_shown(
                &self.dashboards[i],
                &self.connections,
                workspace_id,
            ) {
                return Ok(self.dashboards[i].duplicate());
            }
            i = i + 1;
        }
        Err(AppError::NotFound(Text::WithId("dashboard ", id, "")))
    }

    /// Deletes a dashboard. Its row stays, for the server to hear of.
    pub fn delete_dashboard(&mut self, id: u128, outbox_id: u128, now: i128) -> (r: AppResult<()>)
        requires
            active_workspace_of(old(self)@) matches Ok(workspace) ==> (deletable_place(
                old(self)@.dashboards,
                id,
                workspace.id,
            ) matches Some(at) ==> old(self)@.dashboards[at].revision < i64::MAX),
        ensures
            match active_workspace_of(old(self)@) {
                Err(error) => r == Err::<(), AppError>(error) && final(self)@ == old(self)@,
                Ok(workspace) => if deletable_place(
                    old(self)@.dashboards,
                    id,
                    workspace.id,
                ) is None {
                    r == Err::<(), AppError>(no_dashboard(id)) && final(self)@ == old(self)@
                } else {
                    r is Ok && final(self)@ == without_dashboard(
                        old(self)@,
                        id,
                        workspace.id,
                        outbox_id,
                        now,
                    )
                },
            },
    {
        let workspace_id = match self.active_workspace_id() {
            Err(error) => {
                return Err(error);
            },
            Ok(workspace_id) => workspace_id,
        };
        match find_deletable(&self.dashboards, id, workspace_id) {
            None => Err(AppError::NotFound(Text::WithId("dashboard ", id, ""))),
            Some(at) => {
                let mut row = self.dashboards[at].duplicate();
                row.deleted_at = Some(now);
                row.updated_at = now;
                row.revision = row.revision + 1;
                row.sync_status = SyncStatus::Dirty;
                let revision: i64 = row.revision;
                self.dashboards.set(at, row);
                self.outbox.push(
                    OutboxEntry {
                        id: outbox_id,
                        workspace_id,
                        resource: ResourceKind::Dashboard,
                        resource_id: id,
                        operation: OutboxOperation::Delete,
                        revision,
                        created_at: now,
                    },
                );
                Ok(())
            },
        }
    }
}

} // verus!
