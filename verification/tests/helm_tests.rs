use headwind::helm::newest_allowed_version;
use headwind::helm::oci::{chart_credentials, find_best_version, oci_reference};
use headwind::helm::repository::{self, get_chart_versions, ChartEntry, IndexYaml};
use headwind::models::policy::UpdatePolicy;
use std::collections::BTreeMap;

#[test]
fn test_oci_url_parsing() {
    let url = "oci://registry.example.com/helm/my-chart";
    let stripped = oci_reference(url).unwrap();
    assert_eq!(stripped, "registry.example.com/helm/my-chart");
    assert_eq!(
        oci_reference("https://charts.example.com").unwrap_err(),
        "OCI URL must start with oci://"
    );
}

#[test]
fn test_find_best_version() {
    let versions = vec![
        "1.0.0".to_string(),
        "1.1.0".to_string(),
        "1.2.0".to_string(),
        "2.0.0".to_string(),
    ];

    let best = find_best_version(&versions, "1.0.0", &UpdatePolicy::Minor);

    assert_eq!(best, Some("1.2.0".to_string()));
}

fn entry(name: &str, version: &str) -> ChartEntry {
    ChartEntry {
        name: name.to_string(),
        version: version.to_string(),
        description: None,
        home: None,
        sources: None,
        urls: vec![format!("https://example.com/{}-{}.tgz", name, version)],
        created: None,
        digest: None,
        app_version: None,
    }
}

fn nginx_index() -> IndexYaml {
    let mut entries = BTreeMap::new();
    entries.insert(
        "nginx".to_string(),
        vec![entry("nginx", "1.2.0"), entry("nginx", "1.1.0"), entry("nginx", "1.0.0")],
    );
    IndexYaml { api_version: "v1".to_string(), entries, generated: None }
}

#[test]
fn test_get_chart_versions() {
    let index = nginx_index();
    let versions = get_chart_versions(&index, "nginx");
    assert_eq!(versions.len(), 3);
    assert!(versions.contains(&"1.2.0".to_string()));
    assert!(versions.contains(&"1.1.0".to_string()));
    assert!(versions.contains(&"1.0.0".to_string()));
    assert!(get_chart_versions(&index, "redis").is_empty());
}

#[test]
fn repository_best_version_follows_the_policy() {
    let index = nginx_index();
    assert_eq!(
        repository::find_best_version(&index, "nginx", "1.0.0", &UpdatePolicy::Patch),
        None
    );
    assert_eq!(
        repository::find_best_version(&index, "nginx", "1.0.0", &UpdatePolicy::Minor),
        Some("1.2.0".to_string())
    );
    assert_eq!(repository::find_best_version(&index, "redis", "1.0.0", &UpdatePolicy::All), None);
}

#[test]
fn newest_version_skips_disallowed_and_unparsable() {
    let versions = vec![
        "1.0.1".to_string(),
        "garbage".to_string(),
        "1.0.3".to_string(),
        "1.1.0".to_string(),
        "0.9.0".to_string(),
    ];
    assert_eq!(newest_allowed_version(&versions, "1.0.0", UpdatePolicy::Patch), Some("1.0.3".to_string()));
    assert_eq!(newest_allowed_version(&versions, "1.0.0", UpdatePolicy::Never), None);
    assert_eq!(newest_allowed_version(&Vec::new(), "1.0.0", UpdatePolicy::All), None);
}

#[test]
fn credentials_need_both_parts() {
    assert_eq!(chart_credentials(Some("u"), Some("p")), Some(("u".to_string(), "p".to_string())));
    assert_eq!(chart_credentials(Some("u"), None), None);
    assert_eq!(chart_credentials(None, Some("p")), None);
}
