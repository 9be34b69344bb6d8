//! What is kept beside a connection: its safety settings, its history, and its catalog.
use vstd::prelude::*;

use crate::error::{AppError, AppResult};
use crate::model::{HistoryEntry, SafetySettings};
use crate::store::connections::{
    default_safety, find_row, find_safety, row_of, safety_of, visible_row,
};
use crate::store::directory::{active_workspace_of, local_scope};
use crate::store::memberships::{has_catalog, holds_catalog, is_catalog_of};
use crate::store::order::{arrange, arranged, Ordered};
use crate::store::tables::{CacheRow, ConnectionRow, HistoryRow, SafetyRow, Store, Tables};
use crate::text::{text_equals, Text};

verus! {

/// The settings after a connection was given its own.
pub open spec fn with_settings(
    safety: Seq<SafetyRow>,
    connection_id: u128,
    settings: SafetySettings,
) -> Seq<SafetyRow> {
    if safety_of(safety, connection_id) is Some {
        Seq::new(
            safety.len(),
            |i: int|
                if safety[i].connection_id == connection_id {
                    SafetyRow { connection_id, settings }
                } else {
                    safety[i]
                },
        )
    } else {
        safety.push(SafetyRow { connection_id, settings })
    }
}

/// Whether two messages read the same.
pub fn same_scope(a: &Text, b: &Text) -> (r: bool)
    ensures
        r == (a@ == b@),
{
    text_equals(a, b.render().as_str())
}

impl Ordered for HistoryRow {
    /// The latest first.
    open spec fn goes_before(self, earlier: HistoryRow) -> bool {
        self.entry.executed_at > earlier.entry.executed_at
    }

    fn is_before(&self, earlier: &HistoryRow) -> bool {
        self.entry.executed_at > earlier.entry.executed_at
    }
}

/// The lines of a connection's history in a scope.
pub open spec fn lines_of(history: Seq<HistoryRow>, connection_id: u128, scope: Seq<char>) -> Seq<
    HistoryRow,
>
    decreases history.len(),
{
    if history.len() == 0 {
        Seq::empty()
    } else {
        let earlier = lines_of(history.drop_last(), connection_id, scope);
        let row = history.last();
        if row.entry.connection_id == connection_id && row.account_scope@ == scope {
            earlier.push(row)
        } else {
            earlier
        }
    }
}

/// The scope that a connection's records are looked up in, if the connection is shown.
pub open spec fn record_scope(tables: Tables, connection_id: u128) -> Result<Text, AppError> {
    match visible_row(tables, connection_id) {
        Err(error) => Err(error),
        Ok(_) => local_scope(tables),
    }
}

/// Whether a connection is one of this workspace and not deleted.
pub open spec fn is_live(connections: Seq<ConnectionRow>, id: u128, workspace_id: u128) -> bool {
    match row_of(connections, id) {
        Some(row) => row.workspace_id == workspace_id && row.deleted_at is None,
        None => false,
    }
}

/// Computes [`is_live`].
pub fn lives(connections: &Vec<ConnectionRow>, id: u128, workspace_id: u128) -> (r: bool)
    ensures
        r == is_live(connections@, id, workspace_id),
{
    match find_row(connections, id) {
        Some(at) => connections[at].workspace_id == workspace_id
            && connections[at].deleted_at.is_none(),
        None => false,
    }
}

/// The line of the history with this id, in this workspace and scope.
pub open spec fn line_row(
    history: Seq<HistoryRow>,
    connections: Seq<ConnectionRow>,
    id: u128,
    workspace_id: u128,
    scope: Seq<char>,
) -> Option<HistoryRow>
    decreases history.len(),
{
    if history.len() == 0 {
        None
    } else if history[0].entry.id == id && history[0].account_scope@ == scope && is_live(
        connections,
        history[0].entry.connection_id,
        workspace_id,
    ) {
        Some(history[0])
    } else {
        line_row(history.drop_first(), connections, id, workspace_id, scope)
    }
}

/// What is found in the history under an id.
pub open spec fn history_lookup(tables: Tables, id: u128) -> Result<HistoryEntry, AppError> {
    match active_workspace_of(tables) {
        Err(error) => Err(error),
        Ok(workspace) => match local_scope(tables) {
            Err(error) => Err(error),
            Ok(scope) => match line_row(
                tables.history,
                tables.connections,
                id,
                workspace.id,
                scope@,
            ) {
                Some(row) => Ok(row.entry),
                None => Err(AppError::NotFound(Text::WithId("query history ", id, ""))),
            },
        },
    }
}

/// The catalog of this connection in this scope.
pub open spec fn catalog_row(
    catalogs: Seq<CacheRow>,
    connection_id: u128,
    scope: Seq<char>,
) -> Option<String>
    decreases catalogs.len(),
{
    if catalogs.len() == 0 {
        None
    } else if is_catalog_of(catalogs[0], connection_id, scope) {
        Some(catalogs[0].catalog_json)
    } else {
        catalog_row(catalogs.drop_first(), connection_id, scope)
    }
}

/// The catalogs after one was cached.
pub open spec fn with_catalog(
    catalogs: Seq<CacheRow>,
    connection_id: u128,
    scope: Text,
    catalog_json: String,
    now: i128,
) -> Seq<CacheRow> {
    if has_catalog(catalogs, connection_id, scope@) {
        Seq::new(
            catalogs.len(),
            |i: int|
                if is_catalog_of(catalogs[i], connection_id, scope@) {
                    CacheRow { introspected_at: now, catalog_json, ..catalogs[i] }
                } else {
                    catalogs[i]
                },
        )
    } else {
        catalogs.push(
            CacheRow { connection_id, account_scope: scope, introspected_at: now, catalog_json },
        )
    }
}

/// The catalogs without the one of this connection in this scope.
pub open spec fn without_catalog(
    catalogs: Seq<CacheRow>,
    connection_id: u128,
    scope: Seq<char>,
) -> Seq<CacheRow>
    decreases catalogs.len(),
{
    if catalogs.len() == 0 {
        Seq::empty()
    } else {
        let earlier = without_catalog(catalogs.drop_last(), connection_id, scope);
        if is_catalog_of(catalogs.last(), connection_id, scope) {
            earlier
        } else {
            earlier.push(catalogs.last())
        }
    }
}

/// Whether a line of the history, in whatever scope, has this id.
pub open spec fn has_line(history: Seq<HistoryRow>, id: u128) -> bool {
    exists|i: int| 0 <= i < history.len() && (#[trigger] history[i]).entry.id == id
}

/// Computes [`has_line`].
fn holds_line(history: &Vec<HistoryRow>, id: u128) -> (r: bool)
    ensures
        r == has_line(history@, id),
{
    let mut i: usize = 0;
    while i < history.len()
        invariant
            i <= history@.len(),
            forall|j: int| 0 <= j < i ==> (#[trigger] history@[j]).entry.id != id,
        decreases history@.len() - i,
    {
        if history[i].entry.id == id {
            return true;
        }
        i = i + 1;
    }
    false
}

/// The scope in which a line is added to the history, or why it cannot be added: an id stands
/// for one line.
pub open spec fn line_scope(tables: Tables, entry: HistoryEntry) -> Result<Text, AppError> {
    match record_scope(tables, entry.connection_id) {
        Err(error) => Err(error),
        Ok(scope) => if has_line(tables.history, entry.id) {
            Err(AppError::Host(Text::Plain("UNIQUE constraint failed: query_history.id")))
        } else {
            Ok(scope)
        },
    }
}

impl Store {
    /// The safety settings of a connection: its own, or the default ones.
    pub fn get_safety(&self, connection_id: u128) -> (r: AppResult<SafetySettings>)
        ensures
            r == match visible_row(self@, connection_id) {
                Err(error) => Err::<SafetySettings, AppError>(error),
                Ok(_) => Ok(
                    match safety_of(self@.safety, connection_id) {
                        Some(settings) => settings,
                        None => default_safety(),
                    },
                ),
            },
    {
        match self.ensure_connection(connection_id) {
            Err(error) => Err(error),
            Ok(_) => match find_safety(&self.safety, connection_id) {
                Some(settings) => Ok(settings),
                None => Ok(SafetySettings::default()),
            },
        }
    }

    /// Gives a connection its own safety settings.
    pub fn set_safety(&mut self, connection_id: u128, settings: &SafetySettings) -> (r: AppResult<
        (),
    >)
        ensures
            match visible_row(old(self)@, connection_id) {
                Err(error) => r == Err::<(), AppError>(error) && final(self)@ == old(self)@,
                Ok(_) => r is Ok && final(self)@ == (Tables {
                    safety: with_settings(old(self)@.safety, connection_id, *settings),
                    ..old(self)@
                }),
            },
    {
        match self.ensure_connection(connection_id) {
            Err(error) => {
                return Err(error);
            },
            Ok(_) => {},
        }
        let ghost before = self.safety@;
        if find_safety(&self.safety, connection_id).is_some() {
            let mut i: usize = 0;
            while i < self.safety.len()
                invariant
                    before == old(self)@.safety,
                    safety_of(before, connection_id) is Some,
                    visible_row(old(self)@, connection_id) is Ok,
                    self@ == (Tables { safety: self.safety@, ..old(self)@ }),
                    self.safety@.len() == before.len(),
                    i <= self.safety@.len(),
                    forall|j: int|
                        0 <= j < i ==> #[trigger] self.safety@[j] == with_settings(
                            before,
                            connection_id,
                            *settings,
                        )[j],
                    forall|j: int|
                        i <= j < before.len() ==> #[trigger] self.safety@[j] == before[j],
                decreases self.safety@.len() - i,
            {
                if self.safety[i].connection_id == connection_id {
                    self.safety.set(i, SafetyRow { connection_id, settings: *settings });
                }
                i = i + 1;
            }
            assert(self.safety@ =~= with_settings(before, connection_id, *settings));
        } else {
            self.safety.push(SafetyRow { connection_id, settings: *settings });
        }
        Ok(())
    }

    fn scope_for(&self, connection_id: u128) -> (r: AppResult<Text>)
        ensures
            r == record_scope(self@, connection_id),
    {
        match self.ensure_connection(connection_id) {
            Err(error) => Err(error),
            Ok(_) => self.active_local_scope(),
        }
    }

    /// Adds a line to the history of a connection.
    pub fn insert_history(&mut self, entry: HistoryEntry) -> (r: AppResult<()>)
        ensures
            match line_scope(old(self)@, entry) {
                Err(error) => r == Err::<(), AppError>(error) && final(self)@ == old(self)@,
                Ok(account_scope) => r is Ok && final(self)@ == (Tables {
                    history: old(self)@.history.push(HistoryRow { entry, account_scope }),
                    ..old(self)@
                }),
            },
    {
        match self.scope_for(entry.connection_id) {
            Err(error) => Err(error),
            Ok(account_scope) => {
                if holds_line(&self.history, entry.id) {
                    return Err(
                        AppError::Host(
                            Text::Plain("UNIQUE constraint failed: query_history.id"),
                        ),
                    );
                }
                self.history.push(HistoryRow { entry, account_scope });
                Ok(())
            },
        }
    }

    /// The history of a connection, the latest line first.
    pub fn list_history(&self, connection_id: u128) -> (r: AppResult<Vec<HistoryEntry>>)
        ensures
            match record_scope(self@, connection_id) {
                Err(error) => r == Err::<Vec<HistoryEntry>, AppError>(error),
                Ok(scope) => {
                    let rows = arranged(lines_of(self@.history, connection_id, scope@));
                    r is Ok && r->Ok_0@ == Seq::new(rows.len(), |i: int| rows[i].entry)
                },
            },
    {
        let scope = match self.scope_for(connection_id) {
            Err(error) => {
                return Err(error);
            },
            Ok(scope) => scope,
        };
        let mut rows: Vec<HistoryRow> = Vec::new();
        let mut i: usize = 0;
        while i < self.history.len()
            invariant
                i <= self.history@.len(),
                rows@ == lines_of(self.history@.subrange(0, i as int), connection_id, scope@),
            decreases self.history@.len() - i,
        {
            assert(self.history@.subrange(0, i + 1).drop_last() =~= self.history@.subrange(
                0,
                i as int,
            ));
            if self.history[i].entry.connection_id == connection_id && same_scope(
                &self.history[i].account_scope,
                &scope,
            ) {
                rows.push(self.history[i].duplicate());
            }
            i = i + 1;
        }
        assert(self.history@.subrange(0, self.history@.len() as int) =~= self.history@);
        let rows = arrange(rows);
        let mut entries: Vec<HistoryEntry> = Vec::new();
        let mut i: usize = 0;
        while i < rows.len()
            invariant
                i <= rows@.len(),
                entries@ == Seq::new(i as nat, |k: int| rows@[k].entry),
            decreases rows@.len() - i,
        {
            entries.push(rows[i].entry.duplicate());
            i = i + 1;
            assert(entries@ =~= Seq::new(i as nat, |k: int| rows@[k].entry));
        }
        Ok(entries)
    }

    /// A line of the history.
    pub fn get_history(&self, id: u128) -> (r: AppResult<HistoryEntry>)
        ensures
            r == history_lookup(self@, id),
    {
        let workspace_id = match self.active_workspace_id() {
            Err(error) => {
                return Err(error);
            },
            Ok(workspace_id) => workspace_id,
        };
        let scope = match self.active_local_scope() {
            Err(error) => {
                return Err(error);
            },
            Ok(scope) => scope,
        };
        let mut i: usize = 0;
        assert(self.history@.subrange(0, self.history@.len() as int) =~= self.history@);
        while i < self.history.len()
            invariant
                i <= self.history@.len(),
                active_workspace_of(self@) is Ok,
                workspace_id == active_workspace_of(self@)->Ok_0.id,
                local_scope(self@) == Ok::<Text, AppError>(scope),
                line_row(self.history@, self.connections@, id, workspace_id, scope@) == line_row(
                    self.history@.subrange(i as int, self.history@.len() as int),
                    self.connections@,
                    id,
                    workspace_id,
                    scope@,
                ),
            decreases self.history@.len() - i,
        {
            assert(self.history@.subrange(i as int, self.history@.len() as int).drop_first()
                =~= self.history@.subrange(i + 1, self.history@.len() as int));
            let row = &self.history[i];
            if row.entry.id == id && same_scope(&row.account_scope, &scope) && lives(
                &self.connections,
                row.entry.connection_id,
                workspace_id,
            ) {
                return Ok(row.entry.duplicate());
            }
            i = i + 1;
        }
        Err(AppError::NotFound(Text::WithId("query history ", id, "")))
    }

    /// The cached catalog of a connection, if there is one.
    pub fn get_schema_cache(&self, connection_id: u128) -> (r: AppResult<Option<String>>)
        ensures
            r == match record_scope(self@, connection_id) {
                Err(error) => Err::<Option<String>, AppError>(error),
                Ok(scope) => Ok(catalog_row(self@.schema_cache, connection_id, scope@)),
            },
    {
        let scope = match self.scope_for(connection_id) {
            Err(error) => {
                return Err(error);
            },
            Ok(scope) => scope,
        };
        let mut i: usize = 0;
        assert(self.schema_cache@.subrange(0, self.schema_cache@.len() as int)
            =~= self.schema_cache@);
        while i < self.schema_cache.len()
            invariant
                i <= self.schema_cache@.len(),
                record_scope(self@, connection_id) == Ok::<Text, AppError>(scope),
                catalog_row(self.schema_cache@, connection_id, scope@) == catalog_row(
                    self.schema_cache@.subrange(i as int, self.schema_cache@.len() as int),
                    connection_id,
                    scope@,
                ),
            decreases self.schema_cache@.len() - i,
        {
            assert(self.schema_cache@.subrange(
                i as int,
                self.schema_cache@.len() as int,
            ).drop_first() =~= self.schema_cache@.subrange(
                i + 1,
                self.schema_cache@.len() as int,
            ));
            let row = &self.schema_cache[i];
            if row.connection_id == connection_id && same_scope(&row.account_scope, &scope) {
                return Ok(Some(row.catalog_json.clone()));
            }
            i = i + 1;
        }
        Ok(None)
    }

    /// Caches the catalog of a connection.
    pub fn set_schema_cache(&mut self, connection_id: u128, catalog_json: String, now: i128) -> (r:
        AppResult<()>)
        ensures
            match record_scope(old(self)@, connection_id) {
                Err(error) => r == Err::<(), AppError>(error) && final(self)@ == old(self)@,
                Ok(scope) => r is Ok && final(self)@ == (Tables {
                    schema_cache: with_catalog(
                        old(self)@.schema_cache,
                        connection_id,
                        scope,
                        catalog_json,
                        now,
                    ),
                    ..old(self)@
                }),
            },
    {
        let scope = match self.scope_for(connection_id) {
            Err(error) => {
                return Err(error);
            },
            Ok(scope) => scope,
        };
        let ghost before = self.schema_cache@;
        let key = scope.render();
        if holds_catalog(&self.schema_cache, connection_id, key.as_str()) {
            let mut i: usize = 0;
            while i < self.schema_cache.len()
                invariant
                    before == old(self)@.schema_cache,
                    record_scope(old(self)@, connection_id) == Ok::<Text, AppError>(scope),
                    has_catalog(before, connection_id, scope@),
                    self@ == (Tables { schema_cache: self.schema_cache@, ..old(self)@ }),
                    self.schema_cache@.len() == before.len(),
                    i <= self.schema_cache@.len(),
                    forall|j: int|
                        0 <= j < i ==> #[trigger] self.schema_cache@[j] == with_catalog(
                            before,
                            connection_id,
                            scope,
                            catalog_json,
                            now,
                        )[j],
                    forall|j: int|
                        i <= j < before.len() ==> #[trigger] self.schema_cache@[j] == before[j],
                decreases self.schema_cache@.len() - i,
            {
                if self.schema_cache[i].connection_id == connection_id && same_scope(
                    &self.schema_cache[i].account_scope,
                    &scope,
                ) {
                    self.schema_cache[i].introspected_at = now;
                    self.schema_cache[i].catalog_json = catalog_json.clone();
                }
                i = i + 1;
            }
            assert(self.schema_cache@ =~= with_catalog(
                before,
                connection_id,
                scope,
                catalog_json,
                now,
            ));
        } else {
            self.schema_cache.push(
                CacheRow {
                    connection_id,
                    account_scope: scope,
                    introspected_at: now,
                    catalog_json,
                },
            );
        }
        Ok(())
    }

    /// Drops the cached catalog of a connection.
    pub fn clear_schema_cache(&mut self, connection_id: u128) -> (r: AppResult<()>)
        ensures
            match record_scope(old(self)@, connection_id) {
                Err(error) => r == Err::<(), AppError>(error) && final(self)@ == old(self)@,
                Ok(scope) => r is Ok && final(self)@ == (Tables {
                    schema_cache: without_catalog(
                        old(self)@.schema_cache,
                        connection_id,
                        scope@,
                    ),
                    ..old(self)@
                }),
            },
    {
        let scope = match self.scope_for(connection_id) {
            Err(error) => {
                return Err(error);
            },
            Ok(scope) => scope,
        };
        let mut kept: Vec<CacheRow> = Vec::new();
        let mut i: usize = 0;
        while i < self.schema_cache.len()
            invariant
                i <= self.schema_cache@.len(),
                self@ == old(self)@,
                kept@ == without_catalog(
                    self.schema_cache@.subrange(0, i as int),
                    connection_id,
                    scope@,
                ),
            decreases self.schema_cache@.len() - i,
        {
            assert(self.schema_cache@.subrange(0, i + 1).drop_last()
                =~= self.schema_cache@.subrange(0, i as int));
            let row = &self.schema_cache[i];
            if !(row.connection_id == connection_id && same_scope(&row.account_scope, &scope)) {
                kept.push(row.duplicate());
            }
            i = i + 1;
        }
        assert(self.schema_cache@.subrange(0, self.schema_cache@.len() as int)
            =~= self.schema_cache@);
        self.schema_cache = kept;
        Ok(())
    }
}

} // verus!
