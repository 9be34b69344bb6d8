//! How runs begin, how failures are told as errors, and what is there by default.
use vstd::prelude::*;

use crate::error::AppError;
use crate::model::{Classification, ConnectionAccess, ConnectionProfile, SafetySettings};
use crate::operations::OperationRecord;
use crate::services::catalog_service::{CatalogReadMode, CatalogReadPolicy};
use crate::services::connection::select::{summary_of, AgentConnectionSummary};
use crate::services::dashboard::run::{
    self as dashboard, DashboardRun, DashboardRunError, DashboardRunQuestion, DashboardRunRequest,
    DashboardRunStep,
};
use crate::services::document::desktop::DesktopDocumentReadError;
use crate::services::effects::{Effect, Note, Turn};
use crate::services::monitoring::run::{
    self as monitoring, MonitoringRun, MonitoringRunRequest, MonitoringRunStep,
};
use crate::services::monitoring::shared::MonitoringServiceError;
use crate::services::operation_decision::OperationDecisionReceipt;
use crate::services::query::agent::AgentQueryInvocationOrigin;
use crate::services::query::agent_execute::{
    self as execute, AgentExecute, AgentExecuteRequest, AgentExecuteStep,
};
use crate::services::query::agent_plan::{
    self as plan, AgentPlan, AgentPlanRequest, AgentPlanStep, AgentQueryPlanRequest,
    RejectedAgentQueryPlan,
};
use crate::services::query::agent_prepare::{
    self as prepare, AgentPrepare, AgentPrepareRequest, AgentPrepareStep, PreparedAgentQueryRun,
};
use crate::services::query::desktop_preview::{
    desktop_preview_connection_access, DesktopSqlInspectionError,
};
use crate::services::query::desktop_run::{
    DesktopSqlRun, DesktopSqlRunError, DesktopSqlRunRequest, DesktopSqlRunStep,
};
use crate::services::query::desktop_run_laws as desktop;
use crate::services::script::shared::DesktopScriptRunError;
use crate::state::McpRuntime;
use crate::text::Text;

verus! {

/// A run begins by looking up what it was asked for, without effects, and stands where a run
/// without answers stands.
pub proof fn runs_begin_with_what_was_asked(
    operation_id: u128,
    dashboard_request: DashboardRunRequest,
    plan_request: AgentQueryPlanRequest,
    prepared: PreparedAgentQueryRun,
    desktop_step: DesktopSqlRunStep,
    monitoring_step: MonitoringRunStep,
    dashboard_step: DashboardRunStep,
    plan_step: AgentPlanStep,
    prepare_step: AgentPrepareStep,
    execute_step: AgentExecuteStep,
)
    requires
        call_ensures(DesktopSqlRun::start, (operation_id,), desktop_step),
        call_ensures(MonitoringRun::start, (operation_id,), monitoring_step),
        call_ensures(DashboardRun::start, (dashboard_request,), dashboard_step),
        call_ensures(AgentPlan::start, (plan_request,), plan_step),
        call_ensures(AgentPrepare::start, (operation_id,), prepare_step),
        call_ensures(AgentExecute::start, (prepared,), execute_step),
    ensures
        desktop_step.effects@.len() == 0 && monitoring_step.effects@.len() == 0
            && dashboard_step.effects@.len() == 0 && plan_step.effects@.len() == 0
            && prepare_step.effects@.len() == 0 && execute_step.effects@.len() == 0,
        desktop_step.turn matches Turn::Ask {
            state,
            request: DesktopSqlRunRequest::LoadOperation { operation_id: id },
        } && id == operation_id && Some(state) == desktop::state_after(operation_id, Seq::empty()),
        monitoring_step.turn matches Turn::Ask {
            state,
            request: MonitoringRunRequest::LoadOperation { operation_id: id },
        } && id == operation_id && Some(state) == monitoring::state_after(
            operation_id,
            Seq::empty(),
        ),
        dashboard_step.turn matches Turn::Ask {
            state,
            request: DashboardRunQuestion::LoadDashboard { dashboard_id },
        } && dashboard_id == dashboard_request.dashboard_id && Some(state)
            == dashboard::state_after(dashboard_request, Seq::empty()),
        plan_step.turn matches Turn::Ask {
            state,
            request: AgentPlanRequest::PinConnection { connection_id, access },
        } && connection_id == plan_request.connection_id && access == ConnectionAccess::Read
            && Some(state) == plan::state_after(plan_request, Seq::empty()),
        prepare_step.turn matches Turn::Ask {
            state,
            request: AgentPrepareRequest::LoadOperation { plan_id },
        } && plan_id == operation_id && Some(state) == prepare::state_after(
            operation_id,
            Seq::empty(),
        ),
        execute_step.turn matches Turn::Ask { state, request: AgentExecuteRequest::Connect }
            && Some(state) == execute::state_after(prepared, Seq::empty()),
{
}

/// A failure is told as the error that it carries; a refusal as a blocked request, with its
/// reason; and a query of documents on another database as a mistake in the setup.
pub proof fn failures_are_told_as_their_errors(
    script: DesktopScriptRunError,
    monitoring: MonitoringServiceError,
    sql: DesktopSqlRunError,
    document: DesktopDocumentReadError,
)
    ensures
        forall|r: AppError| #[trigger]
            call_ensures(DesktopScriptRunError::into_error, (script,), r) ==> r == match script {
                DesktopScriptRunError::Application(error) => error,
                DesktopScriptRunError::Scoped(failure) => failure.error,
                DesktopScriptRunError::Execution(failure) => failure.error,
            },
        forall|r: AppError| #[trigger]
            call_ensures(MonitoringServiceError::into_error, (monitoring,), r) ==> r
                == match monitoring {
                MonitoringServiceError::Application(error) => error,
                MonitoringServiceError::Scoped(failure) => failure.error,
                MonitoringServiceError::Execution(failure) => failure.error,
            },
        forall|r: AppError| #[trigger]
            call_ensures(DesktopSqlRunError::into_error, (sql,), r) ==> r == match sql {
                DesktopSqlRunError::Application(error) => error,
                DesktopSqlRunError::Blocked(blocked) => AppError::Blocked {
                    reason: blocked.reason,
                },
                DesktopSqlRunError::Execution(failure) => failure.error,
            },
        forall|r: AppError| #[trigger]
            call_ensures(DesktopDocumentReadError::into_error, (document,), r) ==> r
                == match document {
                DesktopDocumentReadError::NonDocumentConnection => AppError::Config(
                    Text::Plain("document queries are only available on MongoDB connections"),
                ),
                DesktopDocumentReadError::Blocked(blocked) => AppError::Blocked {
                    reason: blocked.reason,
                },
                DesktopDocumentReadError::Application(error) => error,
                DesktopDocumentReadError::Execution(failure) => failure.error,
            },
{
}

/// A text that is not one single read leaves a row in the audit chain, under the name of the
/// adapter that asked, which says what is accepted.
pub proof fn rejected_plans_are_recorded(rejected: RejectedAgentQueryPlan)
    ensures
        forall|effect: Effect| #[trigger]
            call_ensures(RejectedAgentQueryPlan::audit_after_result, (&rejected,), effect) ==> {
                &&& effect matches Effect::Audit(row)
                &&& row.connection_id == rejected.connection_id
                &&& row.engine == rejected.engine
                &&& row.sql == rejected.sql
                &&& row.kind == rejected.kind
                &&& row.action == Text::Plain(
                    match rejected.origin {
                        AgentQueryInvocationOrigin::Mcp => "mcp:plan_query",
                        AgentQueryInvocationOrigin::Cli => "cli:plan_query",
                    },
                )
                &&& row.approved_by is None && row.affected_estimate is None
                &&& row.error == Some(
                    Note::Said(
                        Text::Plain("plan_query accepts exactly one read-only SELECT statement"),
                    ),
                )
            },
{
}

/// What is there by default: cautious settings, and no listener that is up. A preview
/// connects to read, whatever it is of.
pub proof fn defaults_are_harmless(classification: Classification, settings: SafetySettings)
    ensures
        forall|r: SafetySettings| #[trigger]
            call_ensures(SafetySettings::default, (), r) ==> r.require_approval && !r.allow_writes
                && r.wrap_writes_in_tx && r.explain_preview && r.auto_run_reads && r.max_rows == 1000
                && r.exec_preview_row_limit == 50_000,
        forall|r: McpRuntime| #[trigger]
            call_ensures(McpRuntime::default, (), r) ==> !r.http_running && !r.bridge_running
                && r.http_port is None && r.http_url is None && !r.http_fallback && r.last_error
                is None,
        forall|r: ConnectionAccess| #[trigger]
            call_ensures(desktop_preview_connection_access, (&classification, &settings), r) ==> r
                == ConnectionAccess::Read,
{
}

/// What is made of a record, of a profile and of a policy: the receipt of the record, the
/// summary of the profile, and the mode of the same name.
pub proof fn conversions_keep_what_they_are_of(
    record: OperationRecord,
    profile: ConnectionProfile,
    policy: CatalogReadPolicy,
)
    ensures
        forall|r: OperationDecisionReceipt| #[trigger]
            call_ensures(
                <OperationDecisionReceipt as From<OperationRecord>>::from,
                (record,),
                r,
            ) ==> r.operation_id == record.id && r.payload_hash == record.payload_hash && r.state
                == record.state,
        forall|r: AgentConnectionSummary| #[trigger]
            call_ensures(
                <AgentConnectionSummary as From<&ConnectionProfile>>::from,
                (&profile,),
                r,
            ) ==> r == summary_of(profile),
        forall|r: CatalogReadMode| #[trigger]
            call_ensures(
                <CatalogReadMode as From<CatalogReadPolicy>>::from,
                (policy,),
                r,
            ) ==> (policy == CatalogReadPolicy::CacheFirst <==> r == CatalogReadMode::CacheFirst)
                && (policy == CatalogReadPolicy::LiveNoCache <==> r == CatalogReadMode::LiveNoCache)
                && (policy == CatalogReadPolicy::Refresh <==> r == CatalogReadMode::Refresh),
{
}

/// A failure of a dashboard or of an inspection is told as the error that it carries.
pub proof fn further_failures_are_told_as_their_errors(
    run: DashboardRunError,
    inspection: DesktopSqlInspectionError,
)
    ensures
        forall|r: AppError| #[trigger]
            call_ensures(DashboardRunError::into_error, (run,), r) ==> r == match run {
                DashboardRunError::Application(error) => error,
                DashboardRunError::Scoped(failure) => failure.error,
                DashboardRunError::Execution(failure) => failure.error,
            },
        forall|r: AppError| #[trigger]
            call_ensures(DesktopSqlInspectionError::into_error, (inspection,), r) ==> r
                == match inspection {
                DesktopSqlInspectionError::Application(error) => error,
            },
{
}

} // verus!
