use headwind::models::policy::UpdatePolicy;
use headwind::policy::{glob_match, PolicyEngine};
use headwind::test_should_update as should_update;
use headwind::ResourcePolicy;

fn policy_of(p: UpdatePolicy) -> ResourcePolicy {
    ResourcePolicy { policy: p, ..Default::default() }
}

#[test]
fn test_patch_policy() {
    let engine = PolicyEngine;
    let policy = policy_of(UpdatePolicy::Patch);
    assert!(engine.should_update(&policy, "1.2.3", "1.2.4").unwrap());
    assert!(!engine.should_update(&policy, "1.2.3", "1.3.0").unwrap());
    assert!(!engine.should_update(&policy, "1.2.3", "2.0.0").unwrap());
}

#[test]
fn test_minor_policy() {
    let engine = PolicyEngine;
    let policy = policy_of(UpdatePolicy::Minor);
    assert!(engine.should_update(&policy, "1.2.3", "1.2.4").unwrap());
    assert!(engine.should_update(&policy, "1.2.3", "1.3.0").unwrap());
    assert!(!engine.should_update(&policy, "1.2.3", "2.0.0").unwrap());
}

#[test]
fn test_major_policy() {
    let engine = PolicyEngine;
    let policy = policy_of(UpdatePolicy::Major);
    assert!(engine.should_update(&policy, "1.2.3", "1.2.4").unwrap());
    assert!(engine.should_update(&policy, "1.2.3", "1.3.0").unwrap());
    assert!(engine.should_update(&policy, "1.2.3", "2.0.0").unwrap());
}

#[test]
fn test_version_parsing_with_prefix() {
    let engine = PolicyEngine;
    let policy = policy_of(UpdatePolicy::Patch);
    assert!(engine.should_update(&policy, "v1.2.3", "v1.2.4").unwrap());
}

#[test]
fn test_glob_matching() {
    assert!(glob_match("*", "anything"));
    assert!(glob_match("v1.*", "v1.2.3"));
    assert!(glob_match("*-beta", "v1.0.0-beta"));
    assert!(!glob_match("v1.*", "v2.0.0"));
    // The parts before and after the `*` may not overlap.
    assert!(!glob_match("ab*ba", "aba"));
    assert!(glob_match("ab*ba", "abba"));
    assert!(glob_match("ab*ba", "abxba"));
}

#[test]
fn test_patch_policy_integration() {
    assert!(should_update("1.2.3", "1.2.4", UpdatePolicy::Patch, None));
    assert!(should_update("v1.2.3", "v1.2.4", UpdatePolicy::Patch, None));
    assert!(!should_update("1.2.3", "1.3.0", UpdatePolicy::Patch, None));
    assert!(!should_update("1.2.3", "2.0.0", UpdatePolicy::Patch, None));
    assert!(!should_update("1.2.3", "1.2.3", UpdatePolicy::Patch, None));
    assert!(!should_update("1.2.4", "1.2.3", UpdatePolicy::Patch, None));
}

#[test]
fn test_minor_policy_integration() {
    assert!(should_update("1.2.3", "1.3.0", UpdatePolicy::Minor, None));
    assert!(should_update("1.2.3", "1.3.5", UpdatePolicy::Minor, None));
    assert!(should_update("1.2.3", "1.2.4", UpdatePolicy::Minor, None));
    assert!(!should_update("1.2.3", "2.0.0", UpdatePolicy::Minor, None));
    assert!(!should_update("1.3.0", "1.3.0", UpdatePolicy::Minor, None));
}

#[test]
fn test_major_policy_integration() {
    assert!(should_update("1.2.3", "2.0.0", UpdatePolicy::Major, None));
    assert!(should_update("1.9.9", "2.0.0", UpdatePolicy::Major, None));
    assert!(should_update("1.2.3", "1.3.0", UpdatePolicy::Major, None));
    assert!(should_update("1.2.3", "1.2.4", UpdatePolicy::Major, None));
    assert!(!should_update("2.0.0", "2.0.0", UpdatePolicy::Major, None));
}

#[test]
fn test_all_policy_integration() {
    assert!(should_update("1.0.0", "2.0.0", UpdatePolicy::All, None));
    assert!(should_update("1.0.0", "1.1.0", UpdatePolicy::All, None));
    assert!(should_update("1.0.0", "1.0.1", UpdatePolicy::All, None));
    assert!(!should_update("1.0.0", "1.0.0", UpdatePolicy::All, None));
}

#[test]
fn test_glob_policy_integration() {
    assert!(should_update("v1.0.0", "v1.1.0", UpdatePolicy::Glob, Some("v1.*")));
    assert!(should_update("v1.0.0", "v1.9.9", UpdatePolicy::Glob, Some("v1.*")));
    assert!(!should_update("v1.0.0", "v2.0.0", UpdatePolicy::Glob, Some("v1.*")));
    assert!(should_update("1.0.0-stable", "1.1.0-stable", UpdatePolicy::Glob, Some("*-stable")));
    assert!(!should_update("1.0.0-stable", "1.1.0-beta", UpdatePolicy::Glob, Some("*-stable")));
    assert!(should_update("prod-v1", "prod-v2", UpdatePolicy::Glob, Some("prod-*")));
    assert!(!should_update("prod-v1", "dev-v2", UpdatePolicy::Glob, Some("prod-*")));
}

#[test]
fn test_force_policy_integration() {
    assert!(should_update("1.0.0", "1.0.0", UpdatePolicy::Force, None));
    assert!(should_update("1.0.0", "2.0.0", UpdatePolicy::Force, None));
    assert!(should_update("2.0.0", "1.0.0", UpdatePolicy::Force, None));
}

#[test]
fn test_none_policy_integration() {
    assert!(!should_update("1.0.0", "2.0.0", UpdatePolicy::Never, None));
    assert!(!should_update("1.0.0", "1.1.0", UpdatePolicy::Never, None));
    assert!(!should_update("1.0.0", "1.0.1", UpdatePolicy::Never, None));
}

#[test]
fn test_version_prefix_handling() {
    assert!(should_update("v1.0.0", "v1.0.1", UpdatePolicy::Patch, None));
    assert!(should_update("v1.0.0", "v1.1.0", UpdatePolicy::Minor, None));
    assert!(should_update("v1.0.0", "v2.0.0", UpdatePolicy::Major, None));
    assert!(should_update("v1.0.0", "1.0.1", UpdatePolicy::Patch, None));
    assert!(should_update("1.0.0", "v1.0.1", UpdatePolicy::Patch, None));
}

#[test]
fn test_prerelease_versions() {
    assert!(should_update("1.0.0-alpha", "1.0.0-beta", UpdatePolicy::All, None));
    assert!(should_update("1.0.0-beta", "1.0.0", UpdatePolicy::All, None));
    assert!(should_update("1.0.0-rc1", "1.0.0", UpdatePolicy::Patch, None));
}

#[test]
fn test_build_metadata() {
    assert!(should_update("1.0.0+build1", "1.0.0+build2", UpdatePolicy::All, None));
    assert!(should_update("1.0.0+build1", "1.0.1+build1", UpdatePolicy::Patch, None));
}

#[test]
fn test_complex_real_world_scenarios() {
    assert!(should_update("v1.28.0", "v1.28.1", UpdatePolicy::Patch, None));
    assert!(should_update("v1.28.0", "v1.29.0", UpdatePolicy::Minor, None));
    assert!(should_update("app-v1.0.0-prod", "app-v1.1.0-prod", UpdatePolicy::Glob, Some("app-*-prod")));
    assert!(should_update("2024-01-01", "2024-01-02", UpdatePolicy::All, None));
}

#[test]
fn test_invalid_versions() {
    assert!(!should_update("invalid", "also-invalid", UpdatePolicy::Patch, None));
    assert!(!should_update("1.0.0", "invalid", UpdatePolicy::Patch, None));
    assert!(should_update("invalid", "1.0.0", UpdatePolicy::All, None));
}

#[test]
fn policy_check_errors_name_the_unreadable_version() {
    let engine = PolicyEngine;
    let policy = policy_of(UpdatePolicy::Minor);
    let e = engine.should_update(&policy, "nope", "1.0.0").unwrap_err();
    assert_eq!(e.message(), "Failed to parse current version: nope");
    let e = engine.should_update(&policy, "1.0.0", "nope").unwrap_err();
    assert_eq!(e.message(), "Failed to parse new version: nope");
}

#[test]
fn policy_parse_ignores_case_and_refuses_unknown_names() {
    assert_eq!(UpdatePolicy::parse("MINOR").unwrap(), UpdatePolicy::Minor);
    assert_eq!(UpdatePolicy::parse("none").unwrap(), UpdatePolicy::Never);
    assert!(UpdatePolicy::parse("sometimes").is_err());
    assert_eq!(UpdatePolicy::Never.debug_name(), "None");
}

#[test]
fn policies_nest_on_examples() {
    let pairs = [("1.2.3", "1.2.4"), ("1.2.3", "1.3.0"), ("1.2.3", "2.0.0"), ("1.2.3", "1.2.3"), ("2.0.0", "1.0.0")];
    for (c, n) in pairs {
        let patch = should_update(c, n, UpdatePolicy::Patch, None);
        let minor = should_update(c, n, UpdatePolicy::Minor, None);
        let major = should_update(c, n, UpdatePolicy::Major, None);
        let all = should_update(c, n, UpdatePolicy::All, None);
        assert!(!patch || minor);
        assert!(!minor || major);
        assert!(!major || all);
    }
    assert!(!should_update("1.2.3", "1.2.3", UpdatePolicy::Major, None));
    assert!(!should_update("v1.2.3", "1.2.3", UpdatePolicy::Major, None));
}
