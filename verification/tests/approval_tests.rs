use headwind::approval::{
    approval_status, approver_label, check_chart_name, check_pending, container_history, helm_update_target,
    phase_label, plan_deployment_update, rejection_label, rejection_status, request_deployment_info,
    rollback_after_monitoring, rollback_index, rollback_info, update_route, Decision, RollbackAction,
    UpdateRoute, AUTO_ROLLBACK_APPROVER,
};
use headwind::clock::Instant;
use headwind::controller::deployment::ContainerInfo;
use headwind::models::crd::{
    TargetRef, UpdatePhase, UpdatePolicyType, UpdateRequestSpec, UpdateRequestStatus, UpdateType,
};
use headwind::rollback::{HealthStatus, UpdateHistory, UpdateHistoryEntry};
use std::collections::BTreeMap;

fn spec(container: Option<&str>) -> UpdateRequestSpec {
    UpdateRequestSpec {
        target_ref: TargetRef {
            api_version: "apps/v1".to_string(),
            kind: "Deployment".to_string(),
            name: "web".to_string(),
            namespace: "prod".to_string(),
        },
        update_type: UpdateType::Image,
        container_name: container.map(|c| c.to_string()),
        current_image: "nginx:1.25.0".to_string(),
        new_image: "nginx:1.26.0".to_string(),
        policy: UpdatePolicyType::Minor,
        reason: None,
        require_approval: true,
        expires_at: None,
    }
}

#[test]
fn only_pending_requests_are_decided() {
    assert!(check_pending(&None, Decision::Approve).is_ok());
    let pending = Some(UpdateRequestStatus::default());
    assert!(check_pending(&pending, Decision::Reject).is_ok());
    let mut done = UpdateRequestStatus::default();
    done.phase = UpdatePhase::Completed;
    let c = check_pending(&Some(done.clone()), Decision::Approve).unwrap_err();
    assert_eq!(c.message, "UpdateRequest is in Completed state, cannot approve");
    assert_eq!(c.phase, UpdatePhase::Completed);
    let c = check_pending(&Some(done), Decision::Reject).unwrap_err();
    assert_eq!(c.message, "UpdateRequest is in Completed state, cannot reject");
    assert_eq!(phase_label(UpdatePhase::Expired), "Expired");
}

#[test]
fn statuses_after_a_decision() {
    let t = Instant { seconds: 10, nanos: 0 };
    let who = Some("alice".to_string());
    let ok = approval_status(&who, &Ok(()), t);
    assert_eq!(ok.phase, UpdatePhase::Completed);
    assert_eq!(ok.message.as_deref(), Some("Update applied successfully"));
    assert_eq!(ok.approved_at, Some(t));
    let failed = approval_status(&who, &Err("boom".to_string()), t);
    assert_eq!(failed.phase, UpdatePhase::Failed);
    assert_eq!(failed.message.as_deref(), Some("Update failed: boom"));
    let rejected = rejection_status(&who, &None, t);
    assert_eq!(rejected.phase, UpdatePhase::Rejected);
    assert_eq!(rejected.rejected_by, who);
    assert_eq!(rejected.message.as_deref(), Some("Rejected by user"));
    assert_eq!(approver_label(&None), "unknown");
    assert_eq!(rejection_label(&None), "No reason provided");
    assert_eq!(rejection_label(&Some("later".to_string())), "later");
}

#[test]
fn routes_by_resource_kind() {
    assert_eq!(update_route("Deployment").unwrap(), UpdateRoute::Deployment);
    assert_eq!(update_route("HelmRelease").unwrap(), UpdateRoute::HelmRelease);
    assert_eq!(
        update_route("StatefulSet").unwrap_err(),
        "Unsupported resource kind: StatefulSet. Only Deployment and HelmRelease are supported."
    );
}

#[test]
fn deployment_update_plans() {
    let cs = vec![
        ContainerInfo { name: "sidecar".to_string(), image: Some("envoy:1".to_string()) },
        ContainerInfo { name: "web".to_string(), image: Some("nginx:1.25.0".to_string()) },
    ];
    let mut a = BTreeMap::new();
    a.insert("headwind.sh/auto-rollback".to_string(), "true".to_string());
    let p = plan_deployment_update(&spec(Some("web")), Some(&cs), Some(&a)).unwrap();
    assert_eq!(p.container, "web");
    assert_eq!(p.new_image, "nginx:1.26.0");
    assert_eq!(p.previous_image.as_deref(), Some("nginx:1.25.0"));
    assert!(p.rollback.enabled);
    assert_eq!(
        plan_deployment_update(&spec(None), Some(&cs), None).unwrap_err(),
        "Container name not specified in UpdateRequest"
    );
    assert_eq!(plan_deployment_update(&spec(Some("web")), None, None).unwrap_err(), "Deployment has no pod spec");
    assert_eq!(
        plan_deployment_update(&spec(Some("db")), Some(&cs), None).unwrap_err(),
        "Container 'db' not found in deployment web"
    );
    let d = plan_deployment_update(&spec(Some("web")), Some(&cs), None).unwrap();
    assert!(!d.rollback.enabled);
    assert_eq!(d.rollback.retries, 3);
}

#[test]
fn rollback_decisions() {
    assert!(matches!(rollback_after_monitoring(&HealthStatus::Healthy), RollbackAction::Keep));
    assert!(matches!(rollback_after_monitoring(&HealthStatus::Progressing), RollbackAction::Keep));
    match rollback_after_monitoring(&HealthStatus::Timeout) {
        RollbackAction::Rollback(m) => assert_eq!(m, "Health check timeout"),
        RollbackAction::Keep => panic!("expected a rollback"),
    }
    match rollback_after_monitoring(&HealthStatus::Failed("crash".to_string())) {
        RollbackAction::Rollback(m) => assert_eq!(m, "crash"),
        RollbackAction::Keep => panic!("expected a rollback"),
    }
    assert_eq!(AUTO_ROLLBACK_APPROVER, "headwind-auto-rollback");
    let info = rollback_info("web", "prod", "app", "nginx:2", &Some("nginx:1".to_string()));
    assert_eq!(info.current_image, "nginx:2");
    assert_eq!(info.new_image, "nginx:1");
    assert_eq!(info.container.as_deref(), Some("app"));
    assert_eq!(rollback_index(None), 1);
    assert_eq!(rollback_index(Some(3)), 3);
}

#[test]
fn helm_targets_and_chart_names() {
    assert_eq!(helm_update_target("mychart:1.2.3").unwrap(), ("mychart".to_string(), "1.2.3".to_string()));
    assert_eq!(helm_update_target("mychart").unwrap_err(), "Invalid chart version format in new_image");
    assert!(check_chart_name("app", "app").is_ok());
    assert_eq!(check_chart_name("app", "other").unwrap_err(), "Chart name mismatch: expected app, found other");
}

#[test]
fn request_info_names_the_target() {
    let info = request_deployment_info(&spec(Some("web")));
    assert_eq!(info.name, "web");
    assert_eq!(info.namespace, "prod");
    assert_eq!(info.resource_kind.as_deref(), Some("Deployment"));
    assert_eq!(info.container.as_deref(), Some("web"));
}

#[test]
fn container_history_keeps_one_container_in_order() {
    let mut h = UpdateHistory::new();
    for (c, i) in [("app", "a1"), ("db", "d1"), ("app", "a2")] {
        h.add_entry(UpdateHistoryEntry {
            container: c.to_string(),
            image: i.to_string(),
            timestamp: Instant { seconds: 0, nanos: 0 },
            update_request_name: None,
            approved_by: None,
        });
    }
    let only = container_history(&h, "app");
    let images: Vec<&str> = only.entries().iter().map(|e| e.image.as_str()).collect();
    assert_eq!(images, vec!["a1", "a2"]);
}
