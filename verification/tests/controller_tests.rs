use chrono::{DateTime, Duration, Utc};
use headwind::clock::Instant;
use headwind::controller::deployment::{
    create_error, create_update_request, decide_image_update, glob_match, map_policy_to_crd, parse_image,
    parse_policy_from_annotations, plan_image_update, reconcile, tracks_container, update_request_name,
    ContainerInfo, DeploymentView, UpdateDecision,
};
use headwind::controller::next_restart_backoff;
use headwind::models::crd::{UpdatePolicyType, UpdateType};
use headwind::models::policy::{annotations, ResourcePolicy, UpdatePolicy};
use std::collections::BTreeMap;

#[test]
fn deployment_test_parse_policy_from_annotations() {
    let mut annotations = BTreeMap::new();
    annotations.insert(annotations::POLICY.to_string(), "minor".to_string());
    annotations.insert(annotations::REQUIRE_APPROVAL.to_string(), "false".to_string());
    annotations.insert(annotations::IMAGES.to_string(), "nginx, redis".to_string());

    let policy = parse_policy_from_annotations(&annotations).unwrap();

    assert_eq!(policy.policy, UpdatePolicy::Minor);
    assert!(!policy.require_approval);
    assert_eq!(policy.images, vec!["nginx", "redis"]);
}

#[test]
fn test_parse_policy_defaults() {
    let annotations = BTreeMap::new();
    let policy = parse_policy_from_annotations(&annotations).unwrap();

    assert_eq!(policy.policy, UpdatePolicy::Never);
    assert!(policy.require_approval);
    assert_eq!(policy.min_update_interval, Some(300));
}

#[test]
fn test_parse_image() {
    let (name, tag) = parse_image("nginx:1.25.0").unwrap();
    assert_eq!(name, "nginx");
    assert_eq!(tag, "1.25.0");

    let (name, tag) = parse_image("gcr.io/project/image:v1.0").unwrap();
    assert_eq!(name, "gcr.io/project/image");
    assert_eq!(tag, "v1.0");

    let (name, tag) = parse_image("nginx").unwrap();
    assert_eq!(name, "nginx");
    assert_eq!(tag, "latest");

    let (name, tag) = parse_image("localhost:5000/myimage").unwrap();
    assert_eq!(name, "localhost:5000/myimage");
    assert_eq!(tag, "latest");

    let (name, tag) = parse_image("registry.example.com:5000/image:v2.0").unwrap();
    assert_eq!(name, "registry.example.com:5000/image");
    assert_eq!(tag, "v2.0");
}

#[test]
fn test_glob_match() {
    assert!(glob_match("v1.0", "v1.0"));
    assert!(!glob_match("v1.0", "v1.1"));

    assert!(glob_match("*", "anything"));
    assert!(glob_match("*", "v1.0.0"));

    assert!(glob_match("v1.*", "v1.0"));
    assert!(glob_match("v1.*", "v1.2.3"));
    assert!(!glob_match("v1.*", "v2.0"));

    assert!(glob_match("*-beta", "v1.0-beta"));
    assert!(glob_match("*-beta", "anything-beta"));
    assert!(!glob_match("*-beta", "v1.0"));
}

#[test]
fn test_map_policy_to_crd() {
    assert_eq!(map_policy_to_crd(&UpdatePolicy::Major), UpdatePolicyType::Major);
    assert_eq!(map_policy_to_crd(&UpdatePolicy::Minor), UpdatePolicyType::Minor);
    assert_eq!(map_policy_to_crd(&UpdatePolicy::Patch), UpdatePolicyType::Patch);
    assert_eq!(map_policy_to_crd(&UpdatePolicy::Glob), UpdatePolicyType::Glob);
    assert_eq!(map_policy_to_crd(&UpdatePolicy::Never), UpdatePolicyType::Never);
    assert_eq!(map_policy_to_crd(&UpdatePolicy::All), UpdatePolicyType::Never);
    assert_eq!(map_policy_to_crd(&UpdatePolicy::Force), UpdatePolicyType::Never);
}

#[test]
fn test_min_update_interval_parsing() {
    let last_update_str = "2025-01-06T12:00:00Z";
    let last_update = DateTime::parse_from_rfc3339(last_update_str);
    assert!(last_update.is_ok());

    let last_update = last_update.unwrap().with_timezone(&Utc);
    let now = Utc::now();
    let elapsed = now.signed_duration_since(last_update);
    assert!(elapsed.num_seconds() >= 0);

}

#[test]
fn test_min_update_interval_enforcement() {
    let min_interval = Duration::seconds(300);

    let last_update = Utc::now() - Duration::seconds(60);
    let now = Utc::now();
    let elapsed = now.signed_duration_since(last_update);
    assert!(elapsed < min_interval);

    let last_update = Utc::now() - Duration::seconds(600);
    let now = Utc::now();
    let elapsed = now.signed_duration_since(last_update);
    assert!(elapsed >= min_interval);
}

#[test]
fn test_min_update_interval_different_values() {
    let min_interval = Duration::seconds(60);
    let last_update = Utc::now() - Duration::seconds(30);
    let elapsed = Utc::now().signed_duration_since(last_update);
    assert!(elapsed < min_interval);

    let min_interval = Duration::seconds(3600);
    let last_update = Utc::now() - Duration::seconds(1800);
    let elapsed = Utc::now().signed_duration_since(last_update);
    assert!(elapsed < min_interval);
}

#[test]
fn test_min_update_interval_with_annotations() {
    let mut annotations = BTreeMap::new();
    annotations.insert(annotations::MIN_UPDATE_INTERVAL.to_string(), "600".to_string());

    let policy = parse_policy_from_annotations(&annotations).unwrap();
    assert_eq!(policy.min_update_interval, Some(600));
}

#[test]
fn test_min_update_interval_default() {
    let annotations = BTreeMap::new();
    let policy = parse_policy_from_annotations(&annotations).unwrap();
    assert_eq!(policy.min_update_interval, Some(300));
}

fn minor_policy(require_approval: bool) -> ResourcePolicy {
    let mut p = ResourcePolicy::default();
    p.policy = UpdatePolicy::Minor;
    p.require_approval = require_approval;
    p.min_update_interval = Some(300);
    p
}

#[test]
fn plan_waits_for_the_minimum_interval() {
    let p = minor_policy(false);
    let now = Instant { seconds: 1_000_000, nanos: 0 };
    let recent = Some(Instant { seconds: 1_000_000 - 60, nanos: 0 });
    let long_ago = Some(Instant { seconds: 1_000_000 - 600, nanos: 0 });
    let exactly = Some(Instant { seconds: 1_000_000 - 300, nanos: 0 });
    assert_eq!(plan_image_update(&p, "nginx:1.25.0", "nginx:1.26.0", recent, now).unwrap(), UpdateDecision::IntervalNotReached);
    assert_eq!(plan_image_update(&p, "nginx:1.25.0", "nginx:1.26.0", long_ago, now).unwrap(), UpdateDecision::AutoUpdate);
    assert_eq!(plan_image_update(&p, "nginx:1.25.0", "nginx:1.26.0", exactly, now).unwrap(), UpdateDecision::AutoUpdate);
    assert_eq!(plan_image_update(&p, "nginx:1.25.0", "nginx:1.26.0", None, now).unwrap(), UpdateDecision::AutoUpdate);
    assert_eq!(plan_image_update(&p, "nginx:1.25.0", "nginx:2.0.0", None, now).unwrap(), UpdateDecision::NotAllowed);
    let q = minor_policy(true);
    assert_eq!(plan_image_update(&q, "nginx:1.25.0", "nginx:1.26.0", long_ago, now).unwrap(), UpdateDecision::RequestApproval);
}

#[test]
fn plan_reports_unparsable_versions() {
    let p = minor_policy(false);
    let now = Instant { seconds: 0, nanos: 0 };
    let e = plan_image_update(&p, "nginx:latest", "nginx:1.26.0", None, now).unwrap_err();
    assert_eq!(e.reason, "ProcessingError");
    assert_eq!(e.code, 400);
    assert!(e.message.starts_with("Failed to evaluate policy: "));
}

#[test]
fn decision_reads_the_last_update_annotation() {
    let p = minor_policy(false);
    let mut a = BTreeMap::new();
    a.insert(annotations::LAST_UPDATE.to_string(), Utc::now().to_rfc3339());
    let (_, d) = decide_image_update(&p, "nginx:1.25.0", "nginx:1.26.0", Some(&a)).unwrap();
    assert_eq!(d.unwrap(), UpdateDecision::IntervalNotReached);
    let (_, d) = decide_image_update(&p, "nginx:1.25.0", "nginx:1.26.0", None).unwrap();
    assert_eq!(d.unwrap(), UpdateDecision::AutoUpdate);
    let mut huge = minor_policy(false);
    huge.min_update_interval = Some(u64::MAX / 2);
    assert!(decide_image_update(&huge, "nginx:1.25.0", "nginx:1.26.0", Some(&a)).is_none());
}

#[test]
fn request_names_replace_separators() {
    assert_eq!(update_request_name("web", "app", "v1.2:3", 1700000000), "web-app-v1-2-3-1700000000");
    assert_eq!(update_request_name("web", "app", "1.0", -5), "web-app-1-0--5");
}

#[test]
fn update_request_targets_the_deployment() {
    let now = Instant { seconds: 1_000, nanos: 7 };
    let (name, spec) = create_update_request(
        "prod", "web", "app", "nginx", "nginx:1.25.0", "nginx:1.26.0", &UpdatePolicy::Minor, now,
    )
    .unwrap();
    assert_eq!(name, "web-app-1-26-0-1000");
    assert_eq!(spec.target_ref.api_version, "apps/v1");
    assert_eq!(spec.target_ref.kind, "Deployment");
    assert_eq!(spec.target_ref.namespace, "prod");
    assert_eq!(spec.update_type, UpdateType::Image);
    assert_eq!(spec.policy, UpdatePolicyType::Minor);
    assert_eq!(spec.reason.as_deref(), Some("New version available for nginx: 1.25.0 -> 1.26.0"));
    assert!(spec.require_approval);
    assert_eq!(spec.expires_at, Some(Instant { seconds: 87_400, nanos: 7 }));
}

#[test]
fn tracked_containers_follow_the_images_list() {
    let mut p = ResourcePolicy::default();
    assert!(tracks_container(&p, "anything"));
    p.images = vec!["web".to_string()];
    assert!(tracks_container(&p, "web"));
    assert!(!tracks_container(&p, "sidecar"));
}

#[test]
fn errors_carry_the_processing_reason() {
    let e = create_error("boom");
    assert_eq!(e.status, "Error");
    assert_eq!(e.message, "boom");
    assert_eq!(e.reason, "ProcessingError");
    assert_eq!(e.code, 400);
}

#[test]
fn reconcile_requeues_watched_deployments() {
    let mut a = BTreeMap::new();
    a.insert(annotations::POLICY.to_string(), "minor".to_string());
    let d = DeploymentView {
        name: "web".to_string(),
        namespace: Some("default".to_string()),
        annotations: Some(a),
        has_spec: true,
        containers: Some(vec![ContainerInfo { name: "web".to_string(), image: Some("nginx:1.25".to_string()) }]),
    };
    let out = reconcile(&d).unwrap();
    assert!(out.watched);
    assert_eq!(out.requeue_seconds, 60);
}

#[test]
fn restart_backoff_doubles_up_to_a_minute() {
    assert_eq!(next_restart_backoff(1), 2);
    assert_eq!(next_restart_backoff(30), 60);
    assert_eq!(next_restart_backoff(31), 60);
    assert_eq!(next_restart_backoff(60), 60);
    assert_eq!(next_restart_backoff(u64::MAX), 60);
}
