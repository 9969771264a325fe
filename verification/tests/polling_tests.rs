use headwind::models::policy::{annotations, UpdatePolicy};
use headwind::polling::auth::{
    extract_registry_from_image, find_config_entry, parse_auth_entry, registry_matches, AuthEntryError,
    DockerAuthEntry,
};
use headwind::polling::{
    chart_poll_key, chart_repository, chart_update_event, chart_version_to_announce, extract_registry,
    find_best_candidate, http_chart_cache_key, image_poll_key, image_poll_step, image_update_event,
    oci_chart_cache_key, first_sighting, track_key, tracks_chart_source, chart_to_track, poll_interval, poll_settings, should_poll, tag_reference, CachedChartInfo,
    CachedImageInfo, HelmRepositoryType, ImagePollStep, PollingConfig, TagScreen,
};
use headwind::helm::oci::chart_reference;
use headwind::polling::reference::{oci_chart_target, poll_target, tag_target, ChartTargetError};
use std::collections::BTreeMap;

#[test]
fn test_polling_config_default() {
    let config = PollingConfig::default();
    assert_eq!(config.interval, 300);
    assert!(!config.enabled);
}

#[test]
fn test_extract_registry() {
    assert_eq!(extract_registry(""), "docker.io");
    assert_eq!(extract_registry("gcr.io"), "gcr.io");
    assert_eq!(extract_registry("registry.example.com"), "registry.example.com");
}

#[test]
fn test_extract_registry_from_image() {
    assert_eq!(extract_registry_from_image("nginx:1.21"), "docker.io");
    assert_eq!(extract_registry_from_image("nginx"), "docker.io");
    assert_eq!(extract_registry_from_image("library/nginx:1.21"), "docker.io");
    assert_eq!(extract_registry_from_image("gcr.io/project/image:tag"), "gcr.io");
    assert_eq!(extract_registry_from_image("registry.example.com/repo/image"), "registry.example.com");
    assert_eq!(extract_registry_from_image("localhost:5000/image"), "localhost:5000");
}

#[test]
fn test_registry_matches() {
    assert!(registry_matches("docker.io", "docker.io"));
    assert!(registry_matches("https://docker.io", "docker.io"));
    assert!(registry_matches("index.docker.io", "docker.io"));
    assert!(registry_matches("registry-1.docker.io", "docker.io"));
    assert!(registry_matches("https://index.docker.io/v1/", "docker.io"));
    assert!(registry_matches("https://registry-1.docker.io/v1/", "docker.io"));
    assert!(registry_matches("gcr.io", "gcr.io"));
    assert!(registry_matches("https://gcr.io", "gcr.io"));

    assert!(!registry_matches("gcr.io", "docker.io"));
    assert!(!registry_matches("other.io", "docker.io"));
}

fn auth(token: &str, user: &str, pass: &str) -> DockerAuthEntry {
    DockerAuthEntry { auth: token.to_string(), username: user.to_string(), password: pass.to_string() }
}

#[test]
fn test_parse_auth_entry() {
    let c = parse_auth_entry(&auth("", "alice", "secret"), "gcr.io").unwrap().unwrap();
    assert_eq!((c.registry.as_str(), c.username.as_str(), c.password.as_str()), ("gcr.io", "alice", "secret"));

    let c = parse_auth_entry(&auth("dXNlcjpwYXNz", "", ""), "docker.io").unwrap().unwrap();
    assert_eq!((c.username.as_str(), c.password.as_str()), ("user", "pass"));

    let c = parse_auth_entry(&auth("YTpiOmM=", "", ""), "docker.io").unwrap().unwrap();
    assert_eq!((c.username.as_str(), c.password.as_str()), ("a", "b:c"));

    assert!(parse_auth_entry(&auth("bm9jb2xvbg==", "", ""), "docker.io").unwrap().is_none());
    assert!(parse_auth_entry(&auth("", "", ""), "docker.io").unwrap().is_none());
    assert_eq!(parse_auth_entry(&auth("!!!", "", ""), "docker.io").unwrap_err(), AuthEntryError::InvalidToken);
    assert_eq!(parse_auth_entry(&auth("//4=", "", ""), "docker.io").unwrap_err(), AuthEntryError::InvalidUtf8);
}

#[test]
fn config_entries_prefer_exact_keys() {
    let auths = vec![
        ("https://index.docker.io/v1/".to_string(), auth("", "a", "b")),
        ("https://gcr.io".to_string(), auth("", "c", "d")),
        ("gcr.io".to_string(), auth("", "e", "f")),
    ];
    assert_eq!(find_config_entry(&auths, "gcr.io"), Some(2));
    assert_eq!(find_config_entry(&auths, "docker.io"), Some(0));
    assert_eq!(find_config_entry(&auths, "quay.io"), None);
    let only_https = vec![("https://quay.io".to_string(), auth("", "x", "y"))];
    assert_eq!(find_config_entry(&only_https, "quay.io"), Some(0));
}

#[test]
fn intervals_and_due_polls() {
    assert_eq!(poll_interval(Some(60), 300), 60);
    assert_eq!(poll_interval(None, 300), 300);
    assert!(should_poll(None, 300));
    assert!(should_poll(Some(300), 300));
    assert!(!should_poll(Some(299), 300));
    assert_eq!(image_poll_key("nginx:1"), "image::nginx:1");
    assert_eq!(chart_poll_key("oci://r/c"), "chart::oci://r/c");
}

#[test]
fn poll_settings_need_a_policy_and_polling() {
    let mut a = BTreeMap::new();
    assert!(poll_settings(&a).is_none());
    a.insert(annotations::POLICY.to_string(), "minor".to_string());
    a.insert(annotations::EVENT_SOURCE.to_string(), "polling".to_string());
    a.insert(annotations::POLLING_INTERVAL.to_string(), "120".to_string());
    let s = poll_settings(&a).unwrap();
    assert_eq!(s.policy, UpdatePolicy::Minor);
    assert_eq!(s.polling_interval, Some(120));
    a.insert(annotations::EVENT_SOURCE.to_string(), "webhook".to_string());
    assert!(poll_settings(&a).is_none());
    a.insert(annotations::EVENT_SOURCE.to_string(), "both".to_string());
    a.insert(annotations::POLICY.to_string(), "none".to_string());
    assert!(poll_settings(&a).is_none());
}

fn tags(ts: &[&str]) -> Vec<String> {
    ts.iter().map(|t| t.to_string()).collect()
}

#[test]
fn best_candidate_is_the_newest_allowed_tag() {
    let ts = tags(&["latest", "1.25.1", "1.26.0", "1.25.3", "2.0.0", "beta"]);
    assert_eq!(
        find_best_candidate(TagScreen::DigitOrV, UpdatePolicy::Patch, &None, "1.25.0", &ts),
        Some("1.25.3".to_string())
    );
    assert_eq!(
        find_best_candidate(TagScreen::DigitOrV, UpdatePolicy::Minor, &None, "1.25.0", &ts),
        Some("1.26.0".to_string())
    );
    assert_eq!(
        find_best_candidate(TagScreen::DigitOrV, UpdatePolicy::Major, &None, "1.25.0", &ts),
        Some("2.0.0".to_string())
    );
    assert_eq!(find_best_candidate(TagScreen::DigitOrV, UpdatePolicy::Never, &None, "1.25.0", &ts), None);
    assert_eq!(
        find_best_candidate(TagScreen::VOrSemver, UpdatePolicy::Glob, &Some("1.25.*".to_string()), "1.25.0", &ts),
        Some("1.25.3".to_string())
    );
}

#[test]
fn image_poll_steps() {
    let seen = Some(CachedImageInfo { tag: "1.0".to_string(), digest: "sha256:a".to_string() });
    match image_poll_step(UpdatePolicy::Minor, &seen, "1.0", "sha256:b") {
        ImagePollStep::DigestChanged(n) => assert_eq!(n.digest, "sha256:b"),
        other => panic!("unexpected {:?}", other),
    }
    match image_poll_step(UpdatePolicy::Minor, &seen, "1.0", "sha256:a") {
        ImagePollStep::CheckTags(None) => {},
        other => panic!("unexpected {:?}", other),
    }
    match image_poll_step(UpdatePolicy::Force, &None, "1.0", "sha256:a") {
        ImagePollStep::Done(Some(n)) => assert_eq!(n.tag, "1.0"),
        other => panic!("unexpected {:?}", other),
    }
    assert_eq!(tag_reference("nginx", "1.27"), "nginx:1.27");
    let e = image_update_event("", "nginx", "1.27", "sha256:c");
    assert_eq!(e.registry, "docker.io");
    assert_eq!(e.digest.as_deref(), Some("sha256:c"));
}

#[test]
fn chart_versions_are_announced_once() {
    let best = Some("1.2.0".to_string());
    assert_eq!(chart_version_to_announce(&best, "1.1.0", &None), Some("1.2.0".to_string()));
    assert_eq!(chart_version_to_announce(&best, "1.2.0", &None), None);
    let cached = Some(CachedChartInfo { version: "1.2.0".to_string() });
    assert_eq!(chart_version_to_announce(&best, "1.1.0", &cached), None);
    assert_eq!(chart_version_to_announce(&None, "1.1.0", &None), None);
    assert_eq!(oci_chart_cache_key("oci://r/c"), "oci://r/c");
    assert_eq!(http_chart_cache_key("https://charts", "app"), "https://charts::app");
}

#[test]
fn chart_repositories_by_scheme() {
    assert_eq!(
        chart_repository("oci://registry.example.com/charts/", "app"),
        Some(("oci://registry.example.com/charts/app".to_string(), HelmRepositoryType::Oci))
    );
    assert_eq!(
        chart_repository("https://charts.example.com", "app"),
        Some(("https://charts.example.com".to_string(), HelmRepositoryType::Http))
    );
    assert_eq!(chart_repository("ftp://x", "app"), None);
}

#[test]
fn chart_events_name_registry_and_repository() {
    let e = chart_update_event("oci://registry.example.com/charts/app", "app", "1.2.0").unwrap();
    assert_eq!(e.registry, "registry.example.com");
    assert_eq!(e.repository, "charts/app");
    assert_eq!(e.version, "1.2.0");
    assert!(chart_update_event("oci://registry.example.com", "app", "1.2.0").is_err());
    let h = chart_update_event("https://charts.example.com:8443/stable", "app", "2.0.0").unwrap();
    assert_eq!(h.registry, "charts.example.com");
    assert_eq!(h.repository, "app");
    assert!(chart_update_event("not a url", "app", "2.0.0").is_err());
}

#[test]
fn poll_targets_come_from_the_image_reference() {
    let (x, tag) = poll_target("nginx:1.25").unwrap();
    assert_eq!((x.registry.as_str(), x.repository.as_str()), ("docker.io", "library/nginx"));
    assert_eq!(tag, "1.25");
    let (x, tag) = poll_target("ghcr.io/org/app").unwrap();
    assert_eq!((x.registry.as_str(), x.repository.as_str()), ("ghcr.io", "org/app"));
    assert_eq!(tag, "latest");
    let digest = format!("sha256:{}", "a".repeat(64));
    let (x, tag) = poll_target(&format!("ghcr.io/org/app@{}", digest)).unwrap();
    assert_eq!(x.digest, Some(digest));
    assert_eq!(x.tag, None);
    assert_eq!(tag, "latest");
    assert!(poll_target("").is_none());
    assert!(poll_target("Not A Reference").is_none());
    let event = image_update_event(&x.registry, &x.repository, "2.0", "sha256:b");
    assert_eq!(event.full_image(), "ghcr.io/org/app:2.0");
}

#[test]
fn newer_tags_and_oci_charts_are_references_too() {
    let x = tag_target("library/nginx", "1.26").unwrap();
    assert_eq!((x.registry.as_str(), x.repository.as_str()), ("docker.io", "library/nginx"));
    assert_eq!(x.tag.as_deref(), Some("1.26"));
    assert!(tag_target("library/nginx", "bad tag").is_none());
    let x = oci_chart_target("oci://ghcr.io/org/charts/app", "1.2.3").unwrap();
    assert_eq!((x.registry.as_str(), x.repository.as_str()), ("ghcr.io", "org/charts/app"));
    assert_eq!(x.tag.as_deref(), Some("1.2.3"));
    assert_eq!(oci_chart_target("https://charts.example.com", "1.0").unwrap_err(), ChartTargetError::NotOci);
    assert_eq!(oci_chart_target("oci://", "1.0").unwrap_err(), ChartTargetError::InvalidReference);
    let x = chart_reference("oci://registry.example.com/charts/app").unwrap();
    assert_eq!((x.registry.as_str(), x.repository.as_str()), ("registry.example.com", "charts/app"));
    assert_eq!(chart_reference("https://x").unwrap_err(), "OCI URL must start with oci://");
}

#[test]
fn tracked_resources_are_recorded_once_per_policy() {
    let mut seen = Vec::new();
    assert_eq!(track_key("nginx:1.25", UpdatePolicy::Never), "nginx:1.25::None");
    assert!(first_sighting(&mut seen, track_key("nginx:1.25", UpdatePolicy::Minor)));
    assert!(!first_sighting(&mut seen, track_key("nginx:1.25", UpdatePolicy::Minor)));
    assert!(first_sighting(&mut seen, track_key("nginx:1.25", UpdatePolicy::Major)));
    assert_eq!(seen, vec!["nginx:1.25::Minor", "nginx:1.25::Major"]);
}

#[test]
fn charts_to_track_come_from_helm_repositories() {
    assert!(tracks_chart_source("HelmRepository"));
    assert!(!tracks_chart_source("GitRepository"));
    let mut seen = Vec::new();
    let c = chart_to_track("oci://ghcr.io/org/charts/", "app", Some("1.0.0"), UpdatePolicy::Minor, &mut seen).unwrap();
    assert_eq!(c.0, "oci://ghcr.io/org/charts/app");
    assert_eq!(c.1, HelmRepositoryType::Oci);
    assert_eq!(c.2, "1.0.0");
    assert!(chart_to_track("oci://ghcr.io/org/charts", "app", Some("1.0.0"), UpdatePolicy::Minor, &mut seen).is_none());
    assert!(chart_to_track("https://charts.example.com", "app", None, UpdatePolicy::Minor, &mut seen).is_none());
    assert!(chart_to_track("git://x", "app", Some("1.0.0"), UpdatePolicy::Minor, &mut seen).is_none());
    let c = chart_to_track("https://charts.example.com", "app", Some("2.0.0"), UpdatePolicy::Minor, &mut seen).unwrap();
    assert_eq!((c.0.as_str(), c.1, c.2.as_str()), ("https://charts.example.com", HelmRepositoryType::Http, "2.0.0"));
    assert_eq!(seen.len(), 2);
}
