use headwind::models::crd::{
    default_require_approval, TargetRef, UpdatePhase, UpdatePolicyType, UpdateRequestSpec,
    UpdateRequestStatus, UpdateType,
};

#[test]
fn test_update_request_creation() {
    let spec = UpdateRequestSpec {
        target_ref: TargetRef {
            api_version: "apps/v1".to_string(),
            kind: "Deployment".to_string(),
            name: "nginx".to_string(),
            namespace: "default".to_string(),
        },
        update_type: UpdateType::Image,
        container_name: Some("nginx".to_string()),
        current_image: "nginx:1.25.0".to_string(),
        new_image: "nginx:1.26.0".to_string(),
        policy: UpdatePolicyType::Minor,
        reason: Some("New minor version available".to_string()),
        require_approval: true,
        expires_at: None,
    };

    assert_eq!(spec.target_ref.name, "nginx");
    assert_eq!(spec.update_type, UpdateType::Image);
    assert_eq!(spec.policy, UpdatePolicyType::Minor);
}

#[test]
fn test_update_phase_default() {
    let status = UpdateRequestStatus::default();
    assert_eq!(status.phase, UpdatePhase::Pending);
}

#[test]
fn test_require_approval_default() {
    assert!(default_require_approval());
}

#[test]
fn default_status_records_nothing() {
    let status = UpdateRequestStatus::default();
    assert!(status.approved_by.is_none());
    assert!(status.rejected_by.is_none());
    assert!(status.message.is_none());
    assert!(status.last_updated.is_none());
    assert_eq!(UpdatePhase::default(), UpdatePhase::Pending);
}
