use dopedb::model::{
    AuthorizationActor, AuthorizationRequest, AuthorizationResource, WorkspaceRole,
};
use dopedb::text::Text;
use dopedb::workspace::authorize;

fn request(role: WorkspaceRole) -> AuthorizationRequest {
    let workspace_id = 77;
    AuthorizationRequest {
        actor: AuthorizationActor {
            member_id: 5,
            workspace_id,
            role,
            active: true,
        },
        action: "connection.execute_read".into(),
        resource: AuthorizationResource {
            workspace_id,
            kind: "connection".into(),
            id: 9,
            parent_id: None,
            environment: Some("dev".into()),
        },
        explicitly_granted: false,
        explicitly_denied: false,
        external_capability_available: true,
        production_access: false,
        approval_required: false,
    }
}

#[test]
fn explicit_deny_wins_over_owner_and_grant() {
    let mut input = request(WorkspaceRole::Owner);
    input.explicitly_granted = true;
    input.explicitly_denied = true;
    assert!(!authorize(&input).allowed);
}

#[test]
fn production_and_external_authority_remain_narrowing_layers() {
    let mut input = request(WorkspaceRole::Owner);
    input.resource.environment = Some("prod".into());
    assert!(!authorize(&input).allowed);

    input.production_access = true;
    input.external_capability_available = false;
    assert!(!authorize(&input).allowed);
}

#[test]
fn analyst_can_read_but_viewer_needs_an_explicit_grant() {
    assert!(authorize(&request(WorkspaceRole::Analyst)).allowed);
    let mut viewer = request(WorkspaceRole::Viewer);
    assert!(!authorize(&viewer).allowed);
    viewer.explicitly_granted = true;
    assert!(authorize(&viewer).allowed);
}

#[test]
fn each_refusal_names_its_layer() {
    let mut inactive = request(WorkspaceRole::Owner);
    inactive.actor.active = false;
    assert_eq!(
        authorize(&inactive).reason,
        Text::Plain("workspace membership is not active")
    );
    let mut foreign = request(WorkspaceRole::Owner);
    foreign.resource.workspace_id = 78;
    assert_eq!(
        authorize(&foreign).reason,
        Text::Plain("resource belongs to another workspace")
    );
    let viewer = authorize(&request(WorkspaceRole::Viewer));
    assert_eq!(viewer.reason, Text::Plain("workspace role does not grant this action"));
    assert!(!viewer.approval_required);
    let mut approval = request(WorkspaceRole::Owner);
    approval.approval_required = true;
    let decision = authorize(&approval);
    assert!(decision.allowed && decision.approval_required);
    assert_eq!(decision.reason, Text::Plain("authorized after approval"));
}

#[test]
fn actions_take_their_least_role() {
    for (action, enough, short) in [
        ("workspace.delete", WorkspaceRole::Owner, WorkspaceRole::Admin),
        ("workspace.transfer", WorkspaceRole::Owner, WorkspaceRole::Admin),
        ("workspace.member.remove", WorkspaceRole::Admin, WorkspaceRole::Editor),
        ("connection.manage_grants", WorkspaceRole::Admin, WorkspaceRole::Editor),
        ("report.publish", WorkspaceRole::Editor, WorkspaceRole::Analyst),
        ("report.create", WorkspaceRole::Analyst, WorkspaceRole::Viewer),
    ] {
        let mut input = request(enough);
        input.action = action.into();
        assert!(authorize(&input).allowed, "{action}");
        let mut input = request(short);
        input.action = action.into();
        assert!(!authorize(&input).allowed, "{action}");
    }
    let mut anything = request(WorkspaceRole::Viewer);
    anything.action = "dashboard.view".into();
    assert!(authorize(&anything).allowed);
}
