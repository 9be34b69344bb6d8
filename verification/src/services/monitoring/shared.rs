//! What the monitoring services share.
use vstd::prelude::*;

use crate::error::AppError;
use crate::model::Engine;
use crate::text::Text;

verus! {

/// What is known of a database's monitoring.
#[derive(PartialEq, Eq)]
pub struct MonitoringStatus {
    pub engine: Engine,
    pub coverage: Text,
    pub role_available: bool,
    pub role_granted: bool,
    pub current_user: Option<String>,
    pub can_manage: bool,
    pub note: Text,
}

/// What is held on to until a status has been handed over.
#[derive(Debug, Clone, Copy, PartialEq, Eq, Structural)]
pub enum HeldAuthority {
    /// The scope in which the connection was looked up.
    Scope,
    /// The connection itself.
    Lease,
}

/// A status, and what is held on to until it has been handed over.
#[derive(PartialEq, Eq)]
pub struct MonitoringStatusReceipt {
    pub status: MonitoringStatus,
    pub held: HeldAuthority,
}

impl MonitoringStatusReceipt {
    /// A status that was known without connecting.
    pub fn scoped(status: MonitoringStatus) -> (r: MonitoringStatusReceipt)
        ensures
            r == (MonitoringStatusReceipt { status, held: HeldAuthority::Scope }),
    {
        MonitoringStatusReceipt { status, held: HeldAuthority::Scope }
    }

    /// A status that the target gave.
    pub fn leased(status: MonitoringStatus) -> (r: MonitoringStatusReceipt)
        ensures
            r == (MonitoringStatusReceipt { status, held: HeldAuthority::Lease }),
    {
        MonitoringStatusReceipt { status, held: HeldAuthority::Lease }
    }
}

/// A failure before the target was connected.
#[derive(PartialEq, Eq)]
pub struct MonitoringScopedFailure {
    pub error: AppError,
}

impl MonitoringScopedFailure {
    /// The failure as an application error.
    pub fn into_error(self) -> (r: AppError)
        ensures
            r == self.error,
    {
        self.error
    }
}

/// A failure after the target was connected.
#[derive(PartialEq, Eq)]
pub struct MonitoringExecutionFailure {
    pub error: AppError,
}

impl MonitoringExecutionFailure {
    /// The failure as an application error.
    pub fn into_error(self) -> (r: AppError)
        ensures
            r == self.error,
    {
        self.error
    }
}

/// Why a monitoring request failed.
#[derive(PartialEq, Eq)]
pub enum MonitoringServiceError {
    Application(AppError),
    Scoped(MonitoringScopedFailure),
    Execution(MonitoringExecutionFailure),
}

impl MonitoringServiceError {
    /// The error that the failure stands for.
    pub open spec fn error(self) -> AppError {
        match self {
            MonitoringServiceError::Application(error) => error,
            MonitoringServiceError::Scoped(failure) => failure.error,
            MonitoringServiceError::Execution(failure) => failure.error,
        }
    }

    /// The failure as an application error.
    pub fn into_error(self) -> (r: AppError)
        ensures
            r == self.error(),
    {
        match self {
            MonitoringServiceError::Application(error) => error,
            MonitoringServiceError::Scoped(failure) => failure.into_error(),
            MonitoringServiceError::Execution(failure) => failure.into_error(),
        }
    }
}

/// A refusal in the scope of the request.
pub open spec fn scoped(error: AppError) -> MonitoringServiceError {
    MonitoringServiceError::Scoped(MonitoringScopedFailure { error })
}

/// A failure on the target.
pub open spec fn executed(error: AppError) -> MonitoringServiceError {
    MonitoringServiceError::Execution(MonitoringExecutionFailure { error })
}

/// A rule's refusal with a fixed wording.
pub open spec fn blocked(reason: &'static str) -> AppError {
    AppError::Blocked { reason: Text::Plain(reason) }
}

/// The statement that grants or revokes the monitoring role. There is no other.
pub open spec fn role_sql(enabled: bool) -> &'static str {
    if enabled {
        "GRANT pg_monitor TO CURRENT_USER"
    } else {
        "REVOKE pg_monitor FROM CURRENT_USER"
    }
}

/// The statement that grants or revokes the monitoring role.
pub fn monitoring_role_sql(enabled: bool) -> (r: &'static str)
    ensures
        r == role_sql(enabled),
{
    if enabled {
        "GRANT pg_monitor TO CURRENT_USER"
    } else {
        "REVOKE pg_monitor FROM CURRENT_USER"
    }
}

} // verus!
