//! What the parts of a script run share.
use vstd::prelude::*;

use crate::error::AppError;
use crate::model::QueryKind;
use crate::services::query::desktop_run::ResultSize;
use crate::text::Text;

verus! {

/// What became of one statement.
#[derive(PartialEq, Eq)]
pub struct ScriptStatement {
    pub sql: String,
    pub result: Option<ResultSize>,
    pub affected: Option<i64>,
    pub error: Option<Text>,
}

/// A statement that changed so many rows.
pub open spec fn succeeded(sql: String, affected: u64) -> ScriptStatement {
    ScriptStatement { sql, result: None, affected: Some(affected as i64), error: None }
}

/// A statement that failed.
pub open spec fn failed(sql: String, message: Text) -> ScriptStatement {
    ScriptStatement { sql, result: None, affected: None, error: Some(message) }
}

/// A statement that was not run because an earlier one failed.
pub open spec fn skipped(sql: String) -> ScriptStatement {
    failed(sql, Text::Plain("skipped — transaction rolled back"))
}

/// A statement that changed so many rows.
pub fn statement_ok(sql: &String, affected: u64) -> (r: ScriptStatement)
    ensures
        r == succeeded(*sql, affected),
{
    ScriptStatement { sql: sql.clone(), result: None, affected: Some(affected as i64), error: None }
}

/// A statement that failed.
pub fn statement_error(sql: &String, message: Text) -> (r: ScriptStatement)
    ensures
        r == failed(*sql, message),
{
    ScriptStatement { sql: sql.clone(), result: None, affected: None, error: Some(message) }
}

/// A statement that was not run because an earlier one failed.
pub fn statement_skipped(sql: &String) -> (r: ScriptStatement)
    ensures
        r == skipped(*sql),
{
    statement_error(sql, Text::Plain("skipped — transaction rolled back"))
}

/// Whether any of the statements is more than a read.
pub open spec fn has_write(kinds: Seq<QueryKind>) -> bool {
    exists|i: int| 0 <= i < kinds.len() && #[trigger] kinds[i] != QueryKind::Read
}

/// Whether any of the statements is more than a read.
pub fn script_has_write(kinds: &[QueryKind]) -> (r: bool)
    ensures
        r == has_write(kinds@),
{
    let mut i: usize = 0;
    while i < kinds.len()
        invariant
            i <= kinds@.len(),
            forall|k: int| 0 <= k < i ==> #[trigger] kinds@[k] == QueryKind::Read,
        decreases kinds@.len() - i,
    {
        if kinds[i] != QueryKind::Read {
            assert(kinds@[i as int] != QueryKind::Read);
            return true;
        }
        i = i + 1;
    }
    false
}

/// Whether a statement of this kind is among them.
pub open spec fn has_kind(kinds: Seq<QueryKind>, kind: QueryKind) -> bool {
    exists|i: int| 0 <= i < kinds.len() && #[trigger] kinds[i] == kind
}

/// Computes [`has_kind`].
pub fn contains_kind(kinds: &[QueryKind], kind: QueryKind) -> (r: bool)
    ensures
        r == has_kind(kinds@, kind),
{
    let mut i: usize = 0;
    while i < kinds.len()
        invariant
            i <= kinds@.len(),
            forall|k: int| 0 <= k < i ==> #[trigger] kinds@[k] != kind,
        decreases kinds@.len() - i,
    {
        if kinds[i] == kind {
            assert(kinds@[i as int] == kind);
            return true;
        }
        i = i + 1;
    }
    false
}

/// What a script that writes is recorded as: as a schema change if it holds one, else as a
/// privilege change if it holds one, else as a write.
pub open spec fn script_kind(kinds: Seq<QueryKind>) -> QueryKind {
    if has_kind(kinds, QueryKind::Ddl) {
        QueryKind::Ddl
    } else if has_kind(kinds, QueryKind::Privilege) {
        QueryKind::Privilege
    } else {
        QueryKind::Write
    }
}

/// Computes [`script_kind`].
pub fn kind_of_script(kinds: &[QueryKind]) -> (r: QueryKind)
    ensures
        r == script_kind(kinds@),
{
    if contains_kind(kinds, QueryKind::Ddl) {
        QueryKind::Ddl
    } else if contains_kind(kinds, QueryKind::Privilege) {
        QueryKind::Privilege
    } else {
        QueryKind::Write
    }
}

/// The first error among what became of the statements.
pub open spec fn first_error(outcomes: Seq<ScriptStatement>) -> Option<Text>
    decreases outcomes.len(),
{
    if outcomes.len() == 0 {
        None
    } else if outcomes[0].error is Some {
        outcomes[0].error
    } else {
        first_error(outcomes.drop_first())
    }
}

/// Computes [`first_error`].
pub fn find_error(outcomes: &Vec<ScriptStatement>) -> (r: Option<Text>)
    ensures
        r == first_error(outcomes@),
{
    let mut i: usize = 0;
    assert(outcomes@.subrange(0, outcomes@.len() as int) =~= outcomes@);
    while i < outcomes.len()
        invariant
            i <= outcomes@.len(),
            first_error(outcomes@) == first_error(
                outcomes@.subrange(i as int, outcomes@.len() as int),
            ),
        decreases outcomes@.len() - i,
    {
        assert(outcomes@.subrange(i as int, outcomes@.len() as int).drop_first()
            =~= outcomes@.subrange(i + 1, outcomes@.len() as int));
        match &outcomes[i].error {
            Some(error) => {
                return Some(error.duplicate());
            },
            None => {},
        }
        i = i + 1;
    }
    None
}

/// A failure before the target was connected.
#[derive(PartialEq, Eq)]
pub struct DesktopScriptScopedFailure {
    pub error: AppError,
}

impl DesktopScriptScopedFailure {
    /// The failure as an application error.
    pub fn into_error(self) -> (r: AppError)
        ensures
            r == self.error,
    {
        self.error
    }
}

/// A failure after the target was connected.
#[derive(PartialEq, Eq)]
pub struct DesktopScriptExecutionFailure {
    pub error: AppError,
}

impl DesktopScriptExecutionFailure {
    /// The failure as an application error.
    pub fn into_error(self) -> (r: AppError)
        ensures
            r == self.error,
    {
        self.error
    }
}

/// Why a script was not run to its end.
#[derive(PartialEq, Eq)]
pub enum DesktopScriptRunError {
    Application(AppError),
    Scoped(DesktopScriptScopedFailure),
    Execution(DesktopScriptExecutionFailure),
}

impl DesktopScriptRunError {
    /// The error that the failure stands for.
    pub open spec fn error(self) -> AppError {
        match self {
            DesktopScriptRunError::Application(error) => error,
            DesktopScriptRunError::Scoped(failure) => failure.error,
            DesktopScriptRunError::Execution(failure) => failure.error,
        }
    }

    /// The failure as an application error.
    pub fn into_error(self) -> (r: AppError)
        ensures
            r == self.error(),
    {
        match self {
            DesktopScriptRunError::Application(error) => error,
            DesktopScriptRunError::Scoped(failure) => failure.into_error(),
            DesktopScriptRunError::Execution(failure) => failure.into_error(),
        }
    }
}

} // verus!
