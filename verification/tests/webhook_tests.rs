use headwind::controller::deployment::ContainerInfo;
use headwind::models::policy::{annotations, UpdatePolicy};
use headwind::models::webhook::{ChartPushEvent, ImagePushEvent, RegistryEvent, RegistryWebhook, Request, Target};
use headwind::webhook::{
    chart_matches_event, extract_registry, format_image, images_match, parse_image_full,
    parse_policy_from_annotations, plan_push_updates, registry_push_events, webhook_policy, PushEvent,
    WorkloadView,
};
use std::collections::BTreeMap;

#[test]
fn mod_test_extract_registry() {
    assert_eq!(extract_registry("nginx"), "docker.io");
    assert_eq!(extract_registry("library/nginx"), "docker.io");
    assert_eq!(extract_registry("gcr.io/project/image"), "gcr.io");
    assert_eq!(extract_registry("registry.example.com:5000/image"), "registry.example.com:5000");
}

#[test]
fn test_full_image() {
    let event = ImagePushEvent {
        registry: "docker.io".to_string(),
        repository: "nginx".to_string(),
        tag: "latest".to_string(),
        digest: None,
    };
    assert_eq!(event.full_image(), "nginx:latest");
    let event2 = ImagePushEvent {
        registry: "gcr.io".to_string(),
        repository: "project/image".to_string(),
        tag: "v1.0.0".to_string(),
        digest: None,
    };
    assert_eq!(event2.full_image(), "gcr.io/project/image:v1.0.0");
}

#[test]
fn test_parse_image_full() {
    let (name, tag) = parse_image_full("nginx:1.25.0").unwrap();
    assert_eq!(name, "nginx");
    assert_eq!(tag, "1.25.0");
    let (name, tag) = parse_image_full("gcr.io/project/image:v1.0").unwrap();
    assert_eq!(name, "gcr.io/project/image");
    assert_eq!(tag, "v1.0");
    let (name, tag) = parse_image_full("nginx").unwrap();
    assert_eq!(name, "nginx");
    assert_eq!(tag, "latest");
    let (name, tag) = parse_image_full("localhost:5000/myimage").unwrap();
    assert_eq!(name, "localhost:5000/myimage");
    assert_eq!(tag, "latest");
}

#[test]
fn test_images_match() {
    assert!(images_match("docker.io", "nginx", "nginx"));
    assert!(images_match("docker.io", "nginx", "docker.io/nginx"));
    assert!(images_match("docker.io", "library/nginx", "library/nginx"));
    assert!(images_match("docker.io", "library/nginx", "docker.io/library/nginx"));
    assert!(images_match("gcr.io", "project/image", "gcr.io/project/image"));
    assert!(images_match("registry.example.com:5000", "myimage", "registry.example.com:5000/myimage"));
    assert!(images_match("library", "nginx", "nginx:1.27.0"));
    assert!(images_match("library", "nginx", "nginx"));
    assert!(images_match("library", "nginx", "library/nginx"));
    assert!(!images_match("docker.io", "nginx", "redis"));
    assert!(!images_match("gcr.io", "project/image", "gcr.io/other/image"));
    assert!(images_match("docker.io", "library/nginx", "nginx"));
}

#[test]
fn test_format_image() {
    assert_eq!(format_image("docker.io", "nginx", "1.25.0"), "nginx:1.25.0");
    assert_eq!(format_image("docker.io", "library/nginx", "latest"), "library/nginx:latest");
    assert_eq!(format_image("gcr.io", "project/image", "v1.0"), "gcr.io/project/image:v1.0");
    assert_eq!(
        format_image("registry.example.com:5000", "myimage", "dev"),
        "registry.example.com:5000/myimage:dev"
    );
}

#[test]
fn mod_test_parse_policy_from_annotations() {
    let mut annotations = BTreeMap::new();
    annotations.insert(annotations::POLICY.to_string(), "minor".to_string());
    annotations.insert(annotations::REQUIRE_APPROVAL.to_string(), "false".to_string());
    annotations.insert(annotations::IMAGES.to_string(), "nginx, redis".to_string());
    let policy = parse_policy_from_annotations(&annotations).unwrap();
    assert_eq!(policy.policy, UpdatePolicy::Minor);
    assert!(!policy.require_approval);
    assert_eq!(policy.images, vec!["nginx", "redis"]);
}

#[test]
fn test_image_push_event_full_image_name() {
    let event = ImagePushEvent {
        repository: "myorg/myapp".to_string(),
        tag: "v1.2.3".to_string(),
        digest: Some("sha256:abc123".to_string()),
        registry: "docker.io".to_string(),
    };
    assert_eq!(event.full_image(), "myorg/myapp:v1.2.3");
    let event2 = ImagePushEvent {
        repository: "myorg/myapp".to_string(),
        tag: "v1.2.3".to_string(),
        digest: Some("sha256:abc123".to_string()),
        registry: "gcr.io".to_string(),
    };
    assert_eq!(event2.full_image(), "gcr.io/myorg/myapp:v1.2.3");
    let event3 = ImagePushEvent {
        repository: "library/nginx".to_string(),
        tag: "latest".to_string(),
        digest: None,
        registry: "".to_string(),
    };
    assert_eq!(event3.full_image(), "library/nginx:latest");
}

fn registry_event(action: &str, repository: &str, tag: Option<&str>, media: Option<&str>) -> RegistryEvent {
    RegistryEvent {
        action: action.to_string(),
        target: Target {
            media_type: media.map(|m| m.to_string()),
            digest: "sha256:abc".to_string(),
            repository: repository.to_string(),
            url: None,
            tag: tag.map(|t| t.to_string()),
        },
        request: None,
    }
}

#[test]
fn registry_webhook_keeps_tagged_pushes_and_marks_charts() {
    let payload = RegistryWebhook {
        events: vec![
            registry_event("push", "gcr.io/project/app", Some("v2"), None),
            registry_event("pull", "nginx", Some("1.0"), None),
            registry_event("push", "nginx", None, None),
            registry_event("push", "charts.example.com/charts/app", Some("1.2.0"), Some("application/vnd.cncf.helm.config.v1+json")),
        ],
    };
    let pushes = registry_push_events(&payload);
    assert_eq!(pushes.len(), 2);
    match &pushes[0] {
        PushEvent::Image(e) => {
            assert_eq!(e.registry, "gcr.io");
            assert_eq!(e.repository, "gcr.io/project/app");
            assert_eq!(e.tag, "v2");
            assert_eq!(e.digest.as_deref(), Some("sha256:abc"));
        },
        PushEvent::Chart(_) => panic!("expected an image push"),
    }
    match &pushes[1] {
        PushEvent::Chart(e) => {
            assert_eq!(e.registry, "charts.example.com");
            assert_eq!(e.version, "1.2.0");
        },
        PushEvent::Image(_) => panic!("expected a chart push"),
    }
    let _unused: Option<Request> = None;
}

fn workload(annotations: Option<BTreeMap<String, String>>, containers: Vec<(&str, Option<&str>)>) -> WorkloadView {
    WorkloadView {
        name: "web".to_string(),
        namespace: Some("default".to_string()),
        annotations,
        containers: Some(
            containers
                .into_iter()
                .map(|(n, i)| ContainerInfo { name: n.to_string(), image: i.map(|s| s.to_string()) })
                .collect(),
        ),
    }
}

#[test]
fn push_plans_updates_for_matching_tracked_containers() {
    let event = ImagePushEvent {
        registry: "docker.io".to_string(),
        repository: "nginx".to_string(),
        tag: "1.27.0".to_string(),
        digest: None,
    };
    let mut with_policy = BTreeMap::new();
    with_policy.insert(annotations::POLICY.to_string(), "minor".to_string());
    with_policy.insert(annotations::IMAGES.to_string(), "web".to_string());
    let mut polling_only = BTreeMap::new();
    polling_only.insert(annotations::POLICY.to_string(), "minor".to_string());
    polling_only.insert(annotations::EVENT_SOURCE.to_string(), "polling".to_string());
    let workloads = vec![
        workload(Some(with_policy.clone()), vec![("web", Some("nginx:1.26.0")), ("sidecar", Some("nginx:1.26.0"))]),
        workload(None, vec![("web", Some("nginx:1.26.0"))]),
        workload(Some(polling_only), vec![("web", Some("nginx:1.26.0"))]),
        workload(Some(with_policy), vec![("web", Some("nginx:1.27.0")), ("web", Some("redis:7"))]),
    ];
    let planned = plan_push_updates(&event, &workloads, true);
    assert_eq!(planned.len(), 1);
    assert_eq!(planned[0].resource, 0);
    assert_eq!(planned[0].container, "web");
    assert_eq!(planned[0].current_image, "nginx:1.26.0");
    assert_eq!(planned[0].image_name, "nginx");
    assert_eq!(planned[0].new_image, "nginx:1.27.0");
    let all = plan_push_updates(&event, &workloads, false);
    assert_eq!(all.len(), 2);
    assert_eq!(all[1].container, "sidecar");
}

#[test]
fn webhook_policy_needs_a_known_policy_and_webhook_source() {
    let mut a = BTreeMap::new();
    assert!(webhook_policy(&a).is_none());
    a.insert(annotations::POLICY.to_string(), "bogus".to_string());
    assert!(webhook_policy(&a).is_none());
    a.insert(annotations::POLICY.to_string(), "patch".to_string());
    assert!(webhook_policy(&a).is_some());
    a.insert(annotations::EVENT_SOURCE.to_string(), "both".to_string());
    assert!(webhook_policy(&a).is_some());
    a.insert(annotations::EVENT_SOURCE.to_string(), "none".to_string());
    assert!(webhook_policy(&a).is_none());
}

#[test]
fn chart_push_matches_release_repository() {
    let event = ChartPushEvent {
        registry: "registry.example.com".to_string(),
        repository: "charts/mychart".to_string(),
        version: "1.0.0".to_string(),
        digest: None,
    };
    assert_eq!(event.base_oci_url(), "oci://registry.example.com/charts/mychart");
    assert!(chart_matches_event("oci://registry.example.com/charts/", "mychart", &event));
    assert!(chart_matches_event("oci://registry.example.com/charts", "mychart", &event));
    assert!(!chart_matches_event("oci://registry.example.com", "mychart", &event));
}

#[test]
fn images_match_ignores_tags_and_digests() {
    for img in ["ghcr.io/org/app", "registry.example.com:5000/team/svc", "library/nginx"] {
        for (r, repo) in [("ghcr.io", "org/app"), ("registry.example.com:5000", "team/svc"), ("docker.io", "nginx")] {
            let bare = images_match(r, repo, img);
            assert_eq!(images_match(r, repo, &format!("{}:1.2.3", img)), bare);
            assert_eq!(images_match(r, repo, &format!("{}@sha256:abc", img)), bare);
        }
    }
    assert!(images_match("ghcr.io", "org/app", "ghcr.io/org/app:1.2.3"));
    assert!(images_match("docker.io", "nginx", "library/nginx@sha256:abc"));
}
