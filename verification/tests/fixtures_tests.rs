use headwind::controller::deployment::{parse_policy_from_annotations, reconcile, ContainerInfo, DeploymentView};
use headwind::models::policy::UpdatePolicy;
use k8s_openapi::api::apps::v1::Deployment;
use std::collections::BTreeMap;

fn create_test_deployment(
    name: &str,
    namespace: &str,
    image: &str,
    annotations: Option<BTreeMap<String, String>>,
) -> Deployment {
    let text = format!(
        r#"{{
            "metadata": {{ "name": "{name}", "namespace": "{namespace}" }},
            "spec": {{
                "replicas": 1,
                "selector": {{ "matchLabels": {{ "app": "{name}" }} }},
                "template": {{
                    "metadata": {{ "labels": {{ "app": "{name}" }} }},
                    "spec": {{ "containers": [ {{ "name": "app", "image": "{image}" }} ] }}
                }}
            }}
        }}"#
    );
    let mut deployment: Deployment = serde_json::from_str(&text).unwrap();
    deployment.metadata.annotations = annotations;
    deployment
}

fn headwind_annotations(policy: &str, require_approval: bool, pattern: Option<&str>) -> BTreeMap<String, String> {
    let mut annotations = BTreeMap::new();
    annotations.insert("headwind.sh/policy".to_string(), policy.to_string());
    annotations.insert("headwind.sh/require-approval".to_string(), require_approval.to_string());
    if let Some(p) = pattern {
        annotations.insert("headwind.sh/pattern".to_string(), p.to_string());
    }
    annotations
}

fn view_of(d: &Deployment) -> DeploymentView {
    DeploymentView {
        name: d.metadata.name.clone().unwrap_or_default(),
        namespace: d.metadata.namespace.clone(),
        annotations: d.metadata.annotations.clone(),
        has_spec: true,
        containers: d.spec.template.spec.as_ref().map(|p| {
            p.containers.iter().map(|c| ContainerInfo { name: c.name.clone(), image: c.image.clone() }).collect()
        }),
    }
}

#[test]
fn test_create_test_deployment() {
    let deploy = create_test_deployment("test-app", "default", "nginx:1.0.0", Some(headwind_annotations("minor", true, None)));

    assert_eq!(deploy.metadata.name, Some("test-app".to_string()));
    assert_eq!(deploy.metadata.namespace, Some("default".to_string()));

    let annotations = deploy.metadata.annotations.clone().unwrap();
    assert_eq!(annotations.get("headwind.sh/policy"), Some(&"minor".to_string()));
    assert_eq!(annotations.get("headwind.sh/require-approval"), Some(&"true".to_string()));

    let outcome = reconcile(&view_of(&deploy)).unwrap();
    assert!(outcome.watched);
    assert_eq!(outcome.requeue_seconds, 60);
}

#[test]
fn test_headwind_annotations() {
    let annotations = headwind_annotations("patch", false, Some("v1.*"));

    assert_eq!(annotations.get("headwind.sh/policy"), Some(&"patch".to_string()));
    assert_eq!(annotations.get("headwind.sh/require-approval"), Some(&"false".to_string()));
    assert_eq!(annotations.get("headwind.sh/pattern"), Some(&"v1.*".to_string()));

    let policy = parse_policy_from_annotations(&annotations).unwrap();
    assert_eq!(policy.policy, UpdatePolicy::Patch);
    assert!(!policy.require_approval);
    assert_eq!(policy.pattern.as_deref(), Some("v1.*"));
}

#[test]
fn unwatched_and_broken_deployments() {
    let plain = create_test_deployment("a", "default", "nginx:1", None);
    let out = reconcile(&view_of(&plain)).unwrap();
    assert!(!out.watched);
    assert_eq!(out.requeue_seconds, 300);

    let mut nons = create_test_deployment("b", "default", "nginx:1", Some(headwind_annotations("minor", true, None)));
    nons.metadata.namespace = None;
    let e = reconcile(&view_of(&nons)).unwrap_err();
    assert_eq!(e.reason, "MissingNamespace");

    let bad = create_test_deployment("c", "default", "nginx:1", Some(headwind_annotations("sometimes", true, None)));
    let e = reconcile(&view_of(&bad)).unwrap_err();
    assert_eq!(e.reason, "InvalidPolicy");

    let mut noimage = create_test_deployment("d", "default", "nginx:1", Some(headwind_annotations("minor", true, None)));
    noimage.spec.template.spec.as_mut().unwrap().containers[0].image = None;
    let e = reconcile(&view_of(&noimage)).unwrap_err();
    assert_eq!(e.message, "Container app has no image");
}
