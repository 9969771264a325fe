use headwind::ui::templates::{decided_by, status_badge_class};
use headwind::clock::Instant;
use headwind::config::HeadwindConfig;
use headwind::metrics::{metrics_backend_plan, BackendPlan, BackendSettings, BackendTarget, LIVE_METRICS_URL};
use headwind::models::crd::{TargetRef, UpdatePhase, UpdatePolicyType, UpdateRequestSpec, UpdateRequestStatus, UpdateType};
use headwind::notifications::{NotificationEvent, NotifierChannel};
use headwind::ui::auth::{
    identify_request, token_identity, token_review_username, AuditLogEntry, AuthMode, IdentityStep,
    RequestHeaders, TokenReviewOutcome,
};
use headwind::ui::routes::{
    convert_to_view, extract_versions, split_by_status, test_channel, test_payload, time_range_window,
};
use headwind::ui::templates::{get_unique_kinds, get_unique_namespaces, get_unique_policies, sorted_unique, UpdateRequestView};

fn spec() -> UpdateRequestSpec {
    UpdateRequestSpec {
        target_ref: TargetRef {
            api_version: "apps/v1".to_string(),
            kind: "Deployment".to_string(),
            name: "web".to_string(),
            namespace: "prod".to_string(),
        },
        update_type: UpdateType::Image,
        container_name: Some("web".to_string()),
        current_image: "registry:5000/nginx:1.25.0".to_string(),
        new_image: "nginx:1.26.0".to_string(),
        policy: UpdatePolicyType::Never,
        reason: None,
        require_approval: true,
        expires_at: None,
    }
}

#[test]
fn versions_follow_the_last_colon() {
    assert_eq!(extract_versions("nginx:1.25.0", "nginx"), ("1.25.0".to_string(), "nginx".to_string()));
    assert_eq!(extract_versions("registry:5000/app:v2", "a:b:c"), ("v2".to_string(), "c".to_string()));
}

#[test]
fn rows_show_the_request() {
    let mut status = UpdateRequestStatus::default();
    status.phase = UpdatePhase::Rejected;
    status.rejected_by = Some("bob".to_string());
    status.message = Some("not now".to_string());
    let row = convert_to_view(
        Some("req"),
        None,
        Some(Instant { seconds: 0, nanos: 0 }),
        &spec(),
        &Some(status),
    );
    assert_eq!(row.name, "req");
    assert_eq!(row.namespace, "");
    assert_eq!(row.current_version, "1.25.0");
    assert_eq!(row.policy, "None");
    assert_eq!(row.status, "Rejected");
    assert_eq!(row.created_at, "1970-01-01 00:00:00 UTC");
    assert_eq!(row.rejection_reason.as_deref(), Some("not now"));
    let fresh = convert_to_view(None, Some("ns"), None, &spec(), &None);
    assert_eq!(fresh.status, "Pending");
    assert_eq!(fresh.created_at, "");
}

fn row(ns: &str, kind: &str, policy: &str, status: &str) -> UpdateRequestView {
    UpdateRequestView {
        name: format!("{}-{}", ns, status),
        namespace: ns.to_string(),
        resource_kind: kind.to_string(),
        resource_name: "x".to_string(),
        current_image: "a:1".to_string(),
        new_image: "a:2".to_string(),
        current_version: "1".to_string(),
        new_version: "2".to_string(),
        policy: policy.to_string(),
        status: status.to_string(),
        created_at: String::new(),
        approved_by: None,
        rejected_by: None,
        rejection_reason: None,
    }
}

#[test]
fn rows_split_into_pending_and_processed() {
    let rows = vec![
        row("a", "Deployment", "Minor", "Pending"),
        row("b", "HelmRelease", "Major", "Completed"),
        row("c", "Deployment", "Minor", "Approved"),
        row("d", "Deployment", "Patch", "Failed"),
        row("e", "Deployment", "Patch", "Rejected"),
    ];
    let (pending, done) = split_by_status(rows);
    let p: Vec<&str> = pending.iter().map(|r| r.namespace.as_str()).collect();
    let d: Vec<&str> = done.iter().map(|r| r.namespace.as_str()).collect();
    assert_eq!(p, vec!["a", "c"]);
    assert_eq!(d, vec!["b", "d", "e"]);
}

#[test]
fn filter_values_are_sorted_and_unique() {
    let rows = vec![
        row("prod", "Deployment", "Minor", "Pending"),
        row("dev", "HelmRelease", "Major", "Pending"),
        row("prod", "Deployment", "Minor", "Pending"),
    ];
    assert_eq!(get_unique_namespaces(&rows), vec!["dev", "prod"]);
    assert_eq!(get_unique_kinds(&rows), vec!["Deployment", "HelmRelease"]);
    assert_eq!(get_unique_policies(&rows), vec!["Major", "Minor"]);
    let v: Vec<String> = ["b", "a", "b", "", "a"].iter().map(|s| s.to_string()).collect();
    assert_eq!(sorted_unique(&v), vec!["", "a", "b"]);
}

#[test]
fn chart_windows() {
    assert_eq!(time_range_window(Some("1h")), (3_600, "1m"));
    assert_eq!(time_range_window(Some("7d")), (604_800, "1h"));
    assert_eq!(time_range_window(Some("30d")), (2_592_000, "6h"));
    assert_eq!(time_range_window(Some("bogus")), (21_600, "5m"));
    assert_eq!(time_range_window(None), (21_600, "5m"));
}

#[test]
fn test_notifications_use_the_stored_channel() {
    let mut config = HeadwindConfig::default();
    config.notifications.webhook.enabled = true;
    config.notifications.webhook.url = Some("https://example.com/hook".to_string());
    match test_channel("webhook", &config).unwrap() {
        NotifierChannel::Webhook(w) => {
            assert!(w.enabled);
            assert_eq!(w.url.as_deref(), Some("https://example.com/hook"));
            assert!(w.secret.is_none());
            assert_eq!(w.timeout_seconds, 10);
            assert_eq!(w.max_retries, 3);
        },
        other => panic!("unexpected {:?}", other),
    }
    assert!(matches!(test_channel("slack", &config).unwrap(), NotifierChannel::Slack(_)));
    assert_eq!(
        test_channel("pager", &config).unwrap_err(),
        "Invalid notification type. Must be 'slack', 'teams', or 'webhook'"
    );
    let p = test_payload();
    assert_eq!(p.event, NotificationEvent::UpdateRequestCreated);
    assert_eq!(p.deployment.name, "test-deployment");
    assert_eq!(p.policy.as_deref(), Some("minor"));
}

#[test]
fn auth_modes_from_settings() {
    assert_eq!(AuthMode::from_env(None), AuthMode::NoAuth);
    assert_eq!(AuthMode::from_env(Some("Simple")), AuthMode::Simple);
    assert_eq!(AuthMode::from_env(Some("TOKEN")), AuthMode::Token);
    assert_eq!(AuthMode::from_env(Some("proxy")), AuthMode::Proxy);
    assert_eq!(AuthMode::from_env(Some("ldap")), AuthMode::NoAuth);
    assert_eq!(AuthMode::proxy_header(None), "X-Forwarded-User");
    assert_eq!(AuthMode::proxy_header(Some("X-Auth")), "X-Auth");
}

fn headers(x_user: Option<&str>, authorization: Option<&str>, proxy_user: Option<&str>) -> RequestHeaders {
    RequestHeaders {
        x_user: x_user.map(|s| s.to_string()),
        authorization: authorization.map(|s| s.to_string()),
        proxy_user: proxy_user.map(|s| s.to_string()),
        proxy_header: "X-Forwarded-User".to_string(),
    }
}

#[test]
fn requests_are_identified_by_mode() {
    match identify_request(AuthMode::NoAuth, &headers(None, None, None)).unwrap() {
        IdentityStep::Known(u) => assert_eq!(u.username, "web-ui-user"),
        other => panic!("unexpected {:?}", other),
    }
    match identify_request(AuthMode::Simple, &headers(None, None, None)).unwrap() {
        IdentityStep::Known(u) => assert_eq!(u.username, "anonymous"),
        other => panic!("unexpected {:?}", other),
    }
    match identify_request(AuthMode::Token, &headers(None, Some("Bearer abc"), None)).unwrap() {
        IdentityStep::ReviewToken(t) => assert_eq!(t, "abc"),
        other => panic!("unexpected {:?}", other),
    }
    assert_eq!(
        identify_request(AuthMode::Token, &headers(None, Some("Basic abc"), None)).unwrap_err().error,
        "Invalid Authorization header format. Expected: Bearer <token>"
    );
    assert_eq!(
        identify_request(AuthMode::Token, &headers(None, None, None)).unwrap_err().error,
        "Missing Authorization header"
    );
    assert_eq!(
        identify_request(AuthMode::Proxy, &headers(None, None, None)).unwrap_err().error,
        "Missing X-Forwarded-User header"
    );
    match identify_request(AuthMode::Proxy, &headers(None, None, Some("carol"))).unwrap() {
        IdentityStep::Known(u) => assert_eq!(u.username, "carol"),
        other => panic!("unexpected {:?}", other),
    }
}

#[test]
fn token_reviews() {
    assert_eq!(token_review_username(&None).unwrap_err(), "TokenReview returned no status");
    let no = TokenReviewOutcome { authenticated: Some(false), user: Some(Some("x".to_string())) };
    assert_eq!(token_review_username(&Some(no)).unwrap_err(), "Token is not authenticated");
    let nouser = TokenReviewOutcome { authenticated: Some(true), user: None };
    assert_eq!(token_review_username(&Some(nouser)).unwrap_err(), "TokenReview returned no user info");
    let noname = TokenReviewOutcome { authenticated: Some(true), user: Some(None) };
    assert_eq!(token_review_username(&Some(noname)).unwrap_err(), "Username not found in token");
    let ok = TokenReviewOutcome { authenticated: Some(true), user: Some(Some("dave".to_string())) };
    assert_eq!(token_review_username(&Some(ok)).unwrap(), "dave");
    assert_eq!(token_identity(Ok("dave".to_string())).unwrap().auth_mode, AuthMode::Token);
    assert_eq!(token_identity(Err("denied".to_string())).unwrap_err().error, "Token validation failed: denied");
}

#[test]
fn audit_entries_are_stamped() {
    let e = AuditLogEntry::new(
        "alice".to_string(),
        "approve".to_string(),
        "UpdateRequest".to_string(),
        "prod".to_string(),
        "req".to_string(),
        "success".to_string(),
        None,
    );
    assert_eq!(e.username, "alice");
    assert!(chrono::DateTime::parse_from_rfc3339(&e.timestamp).is_ok());
}

fn settings() -> BackendSettings {
    BackendSettings {
        prometheus_url: Some("http://prom".to_string()),
        prometheus_enabled: true,
        victoriametrics_url: None,
        victoriametrics_enabled: true,
        influxdb_url: Some("http://influx".to_string()),
        influxdb_enabled: true,
        influxdb_org: Some("o".to_string()),
        influxdb_bucket: Some("b".to_string()),
        influxdb_token: None,
    }
}

#[test]
fn metrics_backends() {
    match metrics_backend_plan("auto", &settings()) {
        BackendPlan::Probe(v) => {
            assert_eq!(v.len(), 1);
            assert!(matches!(&v[0], BackendTarget::Prometheus(u) if u == "http://prom"));
        },
        other => panic!("unexpected {:?}", other),
    }
    match metrics_backend_plan("influxdb", &settings()) {
        BackendPlan::Use(BackendTarget::InfluxDb(u, o, b, t)) => {
            assert_eq!((u.as_str(), o.as_str(), b.as_str()), ("http://influx", "o", "b"));
            assert_eq!(t, "headwind-test-token");
        },
        other => panic!("unexpected {:?}", other),
    }
    match metrics_backend_plan("victoriametrics", &settings()) {
        BackendPlan::Use(BackendTarget::VictoriaMetrics(u)) => assert!(u.starts_with("http")),
        other => panic!("unexpected {:?}", other),
    }
    match metrics_backend_plan("something", &settings()) {
        BackendPlan::Use(BackendTarget::Live(u)) => assert_eq!(u, LIVE_METRICS_URL),
        other => panic!("unexpected {:?}", other),
    }
}

#[test]
fn test_notifications_report_why_a_channel_cannot_send() {
    let mut config = HeadwindConfig::default();
    let slack = test_channel("slack", &config).unwrap();
    assert_eq!(slack.test_setup_error().as_deref(), Some("Slack not configured: Slack notifier is disabled"));
    config.notifications.slack.enabled = true;
    let slack = test_channel("slack", &config).unwrap();
    assert_eq!(slack.test_setup_error().as_deref(), Some("Slack not configured: Slack webhook URL is required"));
    config.notifications.slack.webhook_url = Some("https://hooks.slack.com/x".to_string());
    let slack = test_channel("slack", &config).unwrap();
    assert_eq!(slack.test_setup_error(), None);
    assert_eq!(slack.test_label(), "Slack");
    let teams = test_channel("teams", &config).unwrap();
    assert_eq!(teams.test_setup_error().as_deref(), Some("Teams not configured: Teams notifier is disabled"));
    assert_eq!(teams.test_label(), "Teams");
    config.notifications.webhook.enabled = true;
    let hook = test_channel("webhook", &config).unwrap();
    assert_eq!(hook.test_setup_error().as_deref(), Some("Webhook not configured: Webhook URL is required"));
    assert_eq!(hook.test_label(), "webhook");
}

#[test]
fn dashboard_badges_and_deciders() {
    assert_eq!(status_badge_class("Completed"), "badge badge-success");
    assert_eq!(status_badge_class("Rejected"), "badge badge-error");
    assert_eq!(status_badge_class("Failed"), "badge badge-warning");
    let mut u = row("default", "Deployment", "minor", "Completed");
    u.approved_by = None;
    u.rejected_by = None;
    assert_eq!(decided_by(&u), "-");
    u.rejected_by = Some("bob".to_string());
    assert_eq!(decided_by(&u), "\u{274c} bob");
    u.approved_by = Some("alice".to_string());
    assert_eq!(decided_by(&u), "\u{2705} alice");
}
