use chrono::Utc;
use headwind::clock::Instant;
use headwind::rollback::{
    monitor_step, pod_health, status_verdict, AutoRollbackConfig, ContainerStatusInfo, DeploymentCondition,
    DeploymentStatusInfo, HealthStatus, MonitorStep, PodStatusInfo, StatusVerdict, UpdateHistory,
    UpdateHistoryEntry, MAX_HISTORY_ENTRIES,
};
use std::collections::BTreeMap;

fn now() -> Instant {
    let t = Utc::now();
    Instant { seconds: t.timestamp(), nanos: t.timestamp_subsec_nanos() }
}

fn entry(container: &str, image: &str) -> UpdateHistoryEntry {
    UpdateHistoryEntry {
        container: container.to_string(),
        image: image.to_string(),
        timestamp: now(),
        update_request_name: None,
        approved_by: None,
    }
}

#[test]
fn mod_test_update_history_new() {
    let history = UpdateHistory::new();
    assert_eq!(history.entries().len(), 0);
}

#[test]
fn test_add_entry() {
    let mut history = UpdateHistory::new();
    let entry = UpdateHistoryEntry {
        container: "nginx".to_string(),
        image: "nginx:1.26.0".to_string(),
        timestamp: now(),
        update_request_name: Some("nginx-update".to_string()),
        approved_by: Some("admin".to_string()),
    };
    history.add_entry(entry.clone());
    assert_eq!(history.entries().len(), 1);
    assert_eq!(history.entries()[0], entry);
}

#[test]
fn test_get_container_history() {
    let mut history = UpdateHistory::new();
    history.add_entry(entry("nginx", "nginx:1.26.0"));
    history.add_entry(entry("nginx", "nginx:1.25.0"));
    let nginx_history = history.get_container_history("nginx");
    assert_eq!(nginx_history.len(), 2);
}

#[test]
fn test_get_previous_image() {
    let mut history = UpdateHistory::new();
    history.add_entry(entry("nginx", "nginx:1.26.0"));
    history.add_entry(entry("nginx", "nginx:1.25.0"));
    let previous = history.get_previous_image("nginx");
    assert!(previous.is_some());
    assert_eq!(previous.unwrap().image, "nginx:1.26.0");
}

#[test]
fn test_trim_history() {
    let mut history = UpdateHistory::new();
    for i in 0..15 {
        history.add_entry(entry("nginx", &format!("nginx:1.{}.0", i)));
    }
    let nginx_history = history.get_container_history("nginx");
    assert_eq!(nginx_history.len(), MAX_HISTORY_ENTRIES);
}

#[test]
fn rollback_integration_test_test_update_history_new() {
    let history = UpdateHistory::new();
    assert_eq!(history.entries().len(), 0);
}

#[test]
fn test_update_history_add_entry() {
    let mut history = UpdateHistory::new();
    history.add_entry(entry("app", "nginx:1.0.0"));
    assert_eq!(history.entries().len(), 1);
    assert_eq!(history.entries()[0].image, "nginx:1.0.0");
    history.add_entry(entry("app", "nginx:1.1.0"));
    assert_eq!(history.entries().len(), 2);
    assert_eq!(history.entries()[0].image, "nginx:1.1.0");
    assert_eq!(history.entries()[1].image, "nginx:1.0.0");
}

#[test]
fn test_update_history_get_previous_image() {
    let mut history = UpdateHistory::new();
    history.add_entry(entry("app", "nginx:1.0.0"));
    history.add_entry(entry("app", "nginx:1.1.0"));
    let previous = history.get_previous_image("app");
    assert!(previous.is_some());
    assert_eq!(previous.unwrap().image, "nginx:1.0.0");
}

#[test]
fn test_update_history_max_entries() {
    let mut history = UpdateHistory::new();
    for i in 0..15 {
        history.add_entry(entry("app", &format!("nginx:1.{}.0", i)));
    }
    let app_history = history.get_container_history("app");
    assert_eq!(app_history.len(), 10);
    assert_eq!(app_history[0].image, "nginx:1.14.0");
}

#[test]
fn test_update_history_multiple_containers() {
    let mut history = UpdateHistory::new();
    history.add_entry(entry("app", "nginx:1.0.0"));
    history.add_entry(entry("sidecar", "envoy:1.0.0"));
    let app_history = history.get_container_history("app");
    let sidecar_history = history.get_container_history("sidecar");
    assert_eq!(app_history.len(), 1);
    assert_eq!(sidecar_history.len(), 1);
    assert_eq!(app_history[0].image, "nginx:1.0.0");
    assert_eq!(sidecar_history[0].image, "envoy:1.0.0");
}

#[test]
fn trimming_keeps_other_containers() {
    let mut history = UpdateHistory::new();
    history.add_entry(entry("sidecar", "envoy:1.0.0"));
    for i in 0..12 {
        history.add_entry(entry("app", &format!("nginx:1.{}.0", i)));
    }
    assert_eq!(history.get_container_history("app").len(), 10);
    assert_eq!(history.get_container_history("sidecar").len(), 1);
    assert_eq!(history.entries().len(), 11);
    assert_eq!(history.get_container_history("app")[9].image, "nginx:1.2.0");
}

#[test]
fn test_auto_rollback_config_from_annotations() {
    let mut annotations = BTreeMap::new();
    annotations.insert("headwind.sh/auto-rollback".to_string(), "true".to_string());
    annotations.insert("headwind.sh/rollback-timeout".to_string(), "600".to_string());
    annotations.insert("headwind.sh/health-check-retries".to_string(), "5".to_string());
    let config = AutoRollbackConfig::from_annotations(&annotations);
    assert!(config.enabled);
    assert_eq!(config.timeout, 600);
    assert_eq!(config.retries, 5);
}

#[test]
fn test_auto_rollback_config_defaults() {
    let annotations = BTreeMap::new();
    let config = AutoRollbackConfig::from_annotations(&annotations);
    assert!(!config.enabled);
    assert_eq!(config.timeout, 300);
    assert_eq!(config.retries, 3);
}

#[test]
fn test_auto_rollback_config_partial_annotations() {
    let mut annotations = BTreeMap::new();
    annotations.insert("headwind.sh/auto-rollback".to_string(), "true".to_string());
    annotations.insert("headwind.sh/rollback-timeout".to_string(), "900".to_string());
    let config = AutoRollbackConfig::from_annotations(&annotations);
    assert!(config.enabled);
    assert_eq!(config.timeout, 900);
    assert_eq!(config.retries, 3);
}

#[test]
fn test_auto_rollback_config_invalid_values() {
    let mut annotations = BTreeMap::new();
    annotations.insert("headwind.sh/auto-rollback".to_string(), "not-a-bool".to_string());
    annotations.insert("headwind.sh/rollback-timeout".to_string(), "not-a-number".to_string());
    annotations.insert("headwind.sh/health-check-retries".to_string(), "invalid".to_string());
    let config = AutoRollbackConfig::from_annotations(&annotations);
    assert!(!config.enabled);
    assert_eq!(config.timeout, 300);
    assert_eq!(config.retries, 3);
}

#[test]
fn test_health_status_equality() {
    assert_eq!(HealthStatus::Healthy, HealthStatus::Healthy);
    assert_eq!(HealthStatus::Progressing, HealthStatus::Progressing);
    assert_eq!(HealthStatus::Timeout, HealthStatus::Timeout);
    assert_eq!(HealthStatus::Failed("reason1".to_string()), HealthStatus::Failed("reason1".to_string()));
    assert_ne!(HealthStatus::Failed("reason1".to_string()), HealthStatus::Failed("reason2".to_string()));
    assert_ne!(HealthStatus::Healthy, HealthStatus::Progressing);
    assert_ne!(HealthStatus::Healthy, HealthStatus::Timeout);
    assert_ne!(HealthStatus::Healthy, HealthStatus::Failed("test".to_string()));
}

#[test]
fn test_auto_rollback_disabled_by_default() {
    let config = AutoRollbackConfig::default();
    assert!(!config.enabled);
    assert_eq!(config.timeout, 300);
    assert_eq!(config.retries, 3);
}

#[test]
fn test_get_entry_by_index() {
    let mut history = UpdateHistory::new();
    for i in 0..5 {
        history.add_entry(entry("app", &format!("nginx:1.{}.0", i)));
    }
    let current = history.get_entry_by_index("app", 0);
    assert!(current.is_some());
    assert_eq!(current.unwrap().image, "nginx:1.4.0");
    let previous = history.get_entry_by_index("app", 1);
    assert!(previous.is_some());
    assert_eq!(previous.unwrap().image, "nginx:1.3.0");
    let oldest = history.get_entry_by_index("app", 4);
    assert!(oldest.is_some());
    assert_eq!(oldest.unwrap().image, "nginx:1.0.0");
    let beyond = history.get_entry_by_index("app", 10);
    assert!(beyond.is_none());
}

#[test]
fn history_restores_from_entries() {
    let e = UpdateHistoryEntry {
        container: "app".to_string(),
        image: "nginx:1.0.0".to_string(),
        timestamp: Instant { seconds: 5, nanos: 0 },
        update_request_name: None,
        approved_by: None,
    };
    let h = UpdateHistory::from_entries(vec![e.clone()]);
    assert_eq!(h.entries(), &[e][..]);
}

fn status(replicas: i32, ready: i32, updated: i32, conditions: Option<Vec<DeploymentCondition>>) -> DeploymentStatusInfo {
    DeploymentStatusInfo {
        replicas: Some(replicas),
        ready_replicas: Some(ready),
        updated_replicas: Some(updated),
        conditions,
    }
}

#[test]
fn status_verdicts() {
    let deadline = vec![DeploymentCondition {
        type_: "Progressing".to_string(),
        status: "False".to_string(),
        reason: Some("ProgressDeadlineExceeded".to_string()),
    }];
    match status_verdict(&status(3, 3, 3, Some(deadline))) {
        StatusVerdict::Decided(h) => {
            assert_eq!(h, HealthStatus::Failed("Deployment progress deadline exceeded".to_string()))
        },
        StatusVerdict::CheckPods => panic!("expected a failure"),
    }
    assert!(matches!(status_verdict(&status(3, 3, 3, None)), StatusVerdict::CheckPods));
    match status_verdict(&status(3, 1, 1, None)) {
        StatusVerdict::Decided(h) => assert_eq!(h, HealthStatus::Progressing),
        StatusVerdict::CheckPods => panic!("expected progressing"),
    }
}

fn container(name: &str, waiting: Option<&str>, restarts: i32, ready: bool) -> ContainerStatusInfo {
    ContainerStatusInfo {
        name: name.to_string(),
        waiting_reason: waiting.map(|w| w.to_string()),
        restart_count: restarts,
        ready,
    }
}

#[test]
fn pod_health_reports_the_first_problem() {
    assert_eq!(pod_health(&Vec::new()), HealthStatus::Progressing);
    let healthy = PodStatusInfo { container_statuses: Some(vec![container("web", None, 0, true)]) };
    assert_eq!(pod_health(&vec![healthy.clone()]), HealthStatus::Healthy);
    let crash = PodStatusInfo { container_statuses: Some(vec![container("web", Some("CrashLoopBackOff"), 0, false)]) };
    assert_eq!(
        pod_health(&vec![healthy.clone(), crash]),
        HealthStatus::Failed("Container web is in CrashLoopBackOff".to_string())
    );
    let pull = PodStatusInfo { container_statuses: Some(vec![container("api", Some("ErrImagePull"), 0, false)]) };
    assert_eq!(pod_health(&vec![pull]), HealthStatus::Failed("Container api failed to pull image".to_string()));
    let restarts = PodStatusInfo { container_statuses: Some(vec![container("db", None, 7, true)]) };
    assert_eq!(
        pod_health(&vec![restarts]),
        HealthStatus::Failed("Container db has high restart count (7)".to_string())
    );
    let starting = PodStatusInfo { container_statuses: Some(vec![container("db", None, 0, false)]) };
    assert_eq!(pod_health(&vec![starting]), HealthStatus::Progressing);
}

#[test]
fn monitoring_ends_after_repeated_failures() {
    let config = AutoRollbackConfig { enabled: true, timeout: 300, retries: 2 };
    assert!(matches!(monitor_step(&config, 0, true, None), MonitorStep::Finish(HealthStatus::Timeout)));
    assert!(matches!(monitor_step(&config, 1, false, None), MonitorStep::Wait(1)));
    assert!(matches!(monitor_step(&config, 1, false, Some(HealthStatus::Progressing)), MonitorStep::Wait(0)));
    assert!(matches!(monitor_step(&config, 0, false, Some(HealthStatus::Healthy)), MonitorStep::Finish(HealthStatus::Healthy)));
    assert!(matches!(
        monitor_step(&config, 0, false, Some(HealthStatus::Failed("x".to_string()))),
        MonitorStep::Wait(1)
    ));
    match monitor_step(&config, 1, false, Some(HealthStatus::Failed("x".to_string()))) {
        MonitorStep::Finish(h) => assert_eq!(h, HealthStatus::Failed("x".to_string())),
        MonitorStep::Wait(_) => panic!("expected the end"),
    }
}

#[test]
fn tracking_an_update_records_it_first() {
    let mut h = UpdateHistory::new();
    headwind::rollback::track_update(&mut h, "app", "nginx:1.0.0", None, None);
    let t = headwind::rollback::track_update(&mut h, "app", "nginx:1.1.0", Some("req".to_string()), Some("bob".to_string()));
    assert_eq!(h.entries().len(), 2);
    assert_eq!(h.entries()[0].image, "nginx:1.1.0");
    assert_eq!(h.entries()[0].timestamp, t);
    assert_eq!(h.entries()[0].approved_by.as_deref(), Some("bob"));
    assert_eq!(h.get_previous_image("app").unwrap().image, "nginx:1.0.0");
}
