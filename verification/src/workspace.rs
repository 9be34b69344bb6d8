//! Authorization within a workspace. Membership, grants, the environment and what the
//! outside capability allows are layers, and each of them can only narrow.
use vstd::prelude::*;

use crate::model::{AuthorizationActor, AuthorizationDecision, AuthorizationRequest, WorkspaceRole};
use crate::text::{begins_with, holds_text, is_text, same_text, starts_with, Text};

verus! {

/// The least role that an action takes.
pub open spec fn required_role(action: Seq<char>) -> WorkspaceRole {
    if action == "workspace.delete"@ || action == "workspace.transfer"@ {
        WorkspaceRole::Owner
    } else if begins_with(action, "workspace.member."@) || begins_with(action, "connection.manage"@)
        || begins_with(action, "provider.integration.manage"@) {
        WorkspaceRole::Admin
    } else if begins_with(action, "resource.edit"@) || begins_with(action, "dashboard.edit"@)
        || begins_with(action, "report.publish"@) {
        WorkspaceRole::Editor
    } else if begins_with(action, "connection.execute"@) || begins_with(action, "report.create"@) {
        WorkspaceRole::Analyst
    } else {
        WorkspaceRole::Viewer
    }
}

/// Whether a role is at least the one that the action takes.
pub open spec fn role_suffices(role: WorkspaceRole, action: Seq<char>) -> bool {
    role.rank() >= required_role(action).rank()
}

fn role_allows(role: WorkspaceRole, action: &str) -> (r: bool)
    ensures
        r == role_suffices(role, action@),
{
    let required = if same_text(action, "workspace.delete") || same_text(
        action,
        "workspace.transfer",
    ) {
        WorkspaceRole::Owner
    } else if starts_with(action, "workspace.member.") || starts_with(action, "connection.manage")
        || starts_with(action, "provider.integration.manage") {
        WorkspaceRole::Admin
    } else if starts_with(action, "resource.edit") || starts_with(action, "dashboard.edit")
        || starts_with(action, "report.publish") {
        WorkspaceRole::Editor
    } else if starts_with(action, "connection.execute") || starts_with(action, "report.create") {
        WorkspaceRole::Analyst
    } else {
        WorkspaceRole::Viewer
    };
    role.at_least(required)
}

/// Why a request is refused, by the first layer that refuses it.
pub open spec fn refusal(request: AuthorizationRequest) -> Option<&'static str> {
    if !request.actor.active {
        Some("workspace membership is not active")
    } else if request.actor.workspace_id != request.resource.workspace_id {
        Some("resource belongs to another workspace")
    } else if request.explicitly_denied {
        Some("an explicit resource deny applies")
    } else if !request.external_capability_available {
        Some("the external provider or database did not grant this capability")
    } else if is_text(request.resource.environment, "prod"@) && !request.production_access {
        Some("production access is required")
    } else if !request.explicitly_granted && !role_suffices(
        request.actor.role,
        request.action@,
    ) {
        Some("workspace role does not grant this action")
    } else {
        None
    }
}

/// What is decided on a request.
pub open spec fn decision(request: AuthorizationRequest) -> AuthorizationDecision {
    match refusal(request) {
        Some(reason) => AuthorizationDecision {
            allowed: false,
            reason: Text::Plain(reason),
            approval_required: false,
        },
        None => AuthorizationDecision {
            allowed: true,
            reason: Text::Plain(
                if request.approval_required {
                    "authorized after approval"
                } else {
                    "authorized"
                },
            ),
            approval_required: request.approval_required,
        },
    }
}

fn deny(reason: &'static str) -> (r: AuthorizationDecision)
    ensures
        r == (AuthorizationDecision {
            allowed: false,
            reason: Text::Plain(reason),
            approval_required: false,
        }),
{
    AuthorizationDecision { allowed: false, reason: Text::Plain(reason), approval_required: false }
}

/// Decides on an action within a workspace. A denial always wins, and neither the highest
/// role nor a grant gets past the environment or the outside capability.
pub fn authorize(request: &AuthorizationRequest) -> (r: AuthorizationDecision)
    ensures
        r == decision(*request),
{
    if !request.actor.active {
        return deny("workspace membership is not active");
    }
    if request.actor.workspace_id != request.resource.workspace_id {
        return deny("resource belongs to another workspace");
    }
    if request.explicitly_denied {
        return deny("an explicit resource deny applies");
    }
    if !request.external_capability_available {
        return deny("the external provider or database did not grant this capability");
    }
    if holds_text(&request.resource.environment, "prod") && !request.production_access {
        return deny("production access is required");
    }
    if !request.explicitly_granted && !role_allows(request.actor.role, request.action.as_str()) {
        return deny("workspace role does not grant this action");
    }
    AuthorizationDecision {
        allowed: true,
        reason: Text::Plain(
            if request.approval_required {
                "authorized after approval"
            } else {
                "authorized"
            },
        ),
        approval_required: request.approval_required,
    }
}

/// What is denied stays denied, whatever the role and whatever was granted.
pub proof fn denial_wins(request: AuthorizationRequest)
    requires
        request.explicitly_denied,
    ensures
        !decision(request).allowed,
{
}

/// Production, the outside capability, another workspace and an inactive membership
/// narrow: no role and no grant makes up for them.
pub proof fn narrowing_layers_hold(request: AuthorizationRequest)
    ensures
        decision(request).allowed ==> {
            &&& request.actor.active
            &&& request.actor.workspace_id == request.resource.workspace_id
            &&& request.external_capability_available
            &&& is_text(request.resource.environment, "prod"@) ==> request.production_access
            &&& request.explicitly_granted || role_suffices(request.actor.role, request.action@)
        },
{
}

/// A higher role is never refused what a lower one is allowed.
pub proof fn higher_roles_may_more(request: AuthorizationRequest, role: WorkspaceRole)
    requires
        decision(request).allowed,
        role.rank() >= request.actor.role.rank(),
    ensures
        decision(
            AuthorizationRequest {
                actor: AuthorizationActor { role, ..request.actor },
                ..request
            },
        ).allowed,
{
}

/// Which role an action takes: deleting and transferring the workspace is the owner's;
/// members, connections and integrations are the administrators'; editing and publishing is
/// the editors'; executing and creating reports is the analysts'; and anything else is
/// every member's.
pub proof fn roles_are_ranked(role: WorkspaceRole, action: Seq<char>)
    ensures
        ({
            let owners = action == "workspace.delete"@ || action == "workspace.transfer"@;
            let admins = "workspace.member."@.is_prefix_of(action)
                || "connection.manage"@.is_prefix_of(action)
                || "provider.integration.manage"@.is_prefix_of(action);
            let editors = "resource.edit"@.is_prefix_of(action)
                || "dashboard.edit"@.is_prefix_of(action) || "report.publish"@.is_prefix_of(
                action,
            );
            let analysts = "connection.execute"@.is_prefix_of(action)
                || "report.create"@.is_prefix_of(action);
            role_suffices(role, action) <==> match role {
                WorkspaceRole::Owner => true,
                WorkspaceRole::Admin => !owners,
                WorkspaceRole::Editor => !owners && !admins,
                WorkspaceRole::Analyst => !owners && !admins && !editors,
                WorkspaceRole::Viewer => !owners && !admins && !editors && !analysts,
            }
        }),
{
    assert forall|word: Seq<char>| #[trigger]
        begins_with(action, word) == word.is_prefix_of(action) by {
        if word.len() <= action.len() {
            assert(action.subrange(0, word.len() as int) =~= word <==> word.is_prefix_of(action));
        }
    }
}

/// What is decided on a request, and why: the first layer that refuses it gives the reason,
/// and what no layer refuses is allowed, after approval where that is required.
pub proof fn the_first_refusing_layer_decides(request: AuthorizationRequest)
    ensures
        forall|r: AuthorizationDecision| #[trigger]
            call_ensures(authorize, (&request,), r) ==> {
                let production = request.resource.environment is Some
                    && request.resource.environment->0@ == "prod"@;
                let suffices = request.explicitly_granted || role_suffices(
                    request.actor.role,
                    request.action@,
                );
                &&& r.allowed <==> request.actor.active && request.actor.workspace_id
                    == request.resource.workspace_id && !request.explicitly_denied
                    && request.external_capability_available && (production
                    ==> request.production_access) && suffices
                &&& r.approval_required <==> r.allowed && request.approval_required
                &&& r.reason == Text::Plain(
                    if !request.actor.active {
                        "workspace membership is not active"
                    } else if request.actor.workspace_id != request.resource.workspace_id {
                        "resource belongs to another workspace"
                    } else if request.explicitly_denied {
                        "an explicit resource deny applies"
                    } else if !request.external_capability_available {
                        "the external provider or database did not grant this capability"
                    } else if production && !request.production_access {
                        "production access is required"
                    } else if !suffices {
                        "workspace role does not grant this action"
                    } else if request.approval_required {
                        "authorized after approval"
                    } else {
                        "authorized"
                    },
                )
            },
{
}

} // verus!
