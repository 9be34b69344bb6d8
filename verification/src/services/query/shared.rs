//! What the query services share.
use vstd::prelude::*;

use crate::model::{Classification, QueryKind, RiskLevel};
use crate::operations::{OperationKind, OperationRiskLevel};

verus! {

/// What the safety gate says of one statement.
#[derive(PartialEq, Eq)]
pub enum GateDecision {
    /// It may run at once.
    AutoRun,
    /// It may run once a person has approved it.
    RequireApproval,
    /// It may not run.
    Block { reason: String },
}

/// The operation kind that stands for a statement kind.
pub open spec fn kind_of(kind: QueryKind) -> OperationKind {
    match kind {
        QueryKind::Read => OperationKind::ReadQuery,
        QueryKind::Write => OperationKind::WriteSql,
        QueryKind::Ddl => OperationKind::Ddl,
        QueryKind::Privilege => OperationKind::Privilege,
    }
}

/// The operation kind that stands for a statement kind.
pub fn operation_kind(kind: QueryKind) -> (r: OperationKind)
    ensures
        r == kind_of(kind),
{
    match kind {
        QueryKind::Read => OperationKind::ReadQuery,
        QueryKind::Write => OperationKind::WriteSql,
        QueryKind::Ddl => OperationKind::Ddl,
        QueryKind::Privilege => OperationKind::Privilege,
    }
}

/// A write that names no rows is critical; everything else has the risk that the
/// classifier found.
pub open spec fn risk_of(classification: Classification) -> OperationRiskLevel {
    if classification.no_where && classification.spec_is_write() {
        OperationRiskLevel::Critical
    } else {
        match classification.risk {
            RiskLevel::Low => OperationRiskLevel::Low,
            RiskLevel::Medium => OperationRiskLevel::Medium,
            RiskLevel::High => OperationRiskLevel::High,
        }
    }
}

/// The risk of the operation that stands for a statement.
pub fn operation_risk(classification: &Classification) -> (r: OperationRiskLevel)
    ensures
        r == risk_of(*classification),
{
    if classification.no_where && classification.is_write() {
        return OperationRiskLevel::Critical;
    }
    match classification.risk {
        RiskLevel::Low => OperationRiskLevel::Low,
        RiskLevel::Medium => OperationRiskLevel::Medium,
        RiskLevel::High => OperationRiskLevel::High,
    }
}

/// A statement changes its target exactly where the operation that stands for it may,
/// and no two statement kinds share an operation kind.
pub proof fn operation_kinds_are_faithful(a: QueryKind, b: QueryKind)
    ensures
        kind_of(a).spec_may_mutate_target() == (a != QueryKind::Read),
        kind_of(a) == kind_of(b) ==> a == b,
{
}

} // verus!
