use headwind::notifications::slack::{build_message, NotifierSetupError, SlackBlock, SlackMessage};
use headwind::notifications::teams::{build_adaptive_card, TeamsCard};
use headwind::notifications::webhook::{delivery_step, generate_signature, DeliveryStep};
use headwind::notifications::{
    approval_url, notify_update_request_created, notify_update_rejected, DeploymentInfo, NotificationConfig,
    NotificationEvent, NotificationManager, NotificationPayload, NotifierChannel, SlackConfig, TeamsConfig,
    WebhookConfig,
};
use std::collections::BTreeMap;

fn nginx(container: Option<&str>) -> DeploymentInfo {
    DeploymentInfo {
        name: "nginx".to_string(),
        namespace: "production".to_string(),
        current_image: "nginx:1.25.0".to_string(),
        new_image: "nginx:1.26.0".to_string(),
        container: container.map(|c| c.to_string()),
        resource_kind: None,
    }
}

fn message_text(m: &SlackMessage) -> String {
    let mut out = String::new();
    for b in &m.blocks {
        match b {
            SlackBlock::Header(t) | SlackBlock::Context(t) => out.push_str(t),
            SlackBlock::Section(fields) => {
                for f in fields {
                    out.push_str(f);
                }
            },
            SlackBlock::Actions(a, b) => {
                out.push_str(a);
                out.push_str(b);
            },
        }
        out.push('\n');
    }
    out
}

fn card_text(c: &TeamsCard) -> String {
    let mut out = c.summary.clone();
    for (k, v) in c.facts.iter().chain(c.actions.iter()) {
        out.push_str(k);
        out.push_str(v);
    }
    out
}

#[test]
fn test_notification_event_string() {
    assert_eq!(NotificationEvent::UpdateDetected.as_str(), "update.detected");
    assert_eq!(NotificationEvent::UpdateApproved.as_str(), "update.approved");
}

#[test]
fn test_notification_payload_builder() {
    let deployment = DeploymentInfo {
        name: "test-deploy".to_string(),
        namespace: "default".to_string(),
        current_image: "nginx:1.25.0".to_string(),
        new_image: "nginx:1.26.0".to_string(),
        container: Some("nginx".to_string()),
        resource_kind: None,
    };

    let payload = NotificationPayload::new(NotificationEvent::UpdateDetected, deployment)
        .with_policy("minor")
        .with_requires_approval(true);

    assert_eq!(payload.event, NotificationEvent::UpdateDetected);
    assert_eq!(payload.policy, Some("minor".to_string()));
    assert_eq!(payload.requires_approval, Some(true));
}

#[test]
fn test_payload_title() {
    let payload = NotificationPayload::new(NotificationEvent::UpdateApproved, nginx(None));
    assert_eq!(payload.title(), "Update approved: production/nginx");
}

#[test]
fn test_payload_description() {
    let payload = NotificationPayload::new(NotificationEvent::UpdateApproved, nginx(None))
        .with_policy("minor")
        .with_approved_by("admin@example.com");

    let desc = payload.description();
    assert!(desc.contains("nginx:1.25.0"));
    assert!(desc.contains("nginx:1.26.0"));
    assert!(desc.contains("Policy: minor"));
    assert!(desc.contains("Approved by: admin@example.com"));
}

#[test]
fn description_lists_present_fields_in_order() {
    let payload = NotificationPayload::new(NotificationEvent::UpdateFailed, nginx(None))
        .with_policy("patch")
        .with_error("boom");
    assert_eq!(
        payload.description(),
        "Image update: `nginx:1.25.0` → `nginx:1.26.0`\nPolicy: patch\nError: boom"
    );
}

#[test]
fn test_slack_notifier_creation() {
    let config = SlackConfig {
        enabled: true,
        webhook_url: Some("https://hooks.slack.com/services/TEST".to_string()),
        channel: Some("#deployments".to_string()),
        username: Some("Headwind Bot".to_string()),
        icon_emoji: Some(":rocket:".to_string()),
    };

    let notifier = config.validate();
    assert!(notifier.is_ok());
    assert!(config.is_enabled());
}

#[test]
fn test_slack_notifier_disabled() {
    let config = SlackConfig {
        enabled: false,
        webhook_url: Some("https://hooks.slack.com/services/TEST".to_string()),
        channel: None,
        username: None,
        icon_emoji: None,
    };

    let notifier = config.validate();
    assert!(notifier.is_err());
    assert_eq!(notifier.unwrap_err(), NotifierSetupError::Disabled);
}

#[test]
fn test_slack_notifier_missing_webhook() {
    let config = SlackConfig { enabled: true, webhook_url: None, channel: None, username: None, icon_emoji: None };

    let notifier = config.validate();
    assert!(notifier.is_err());
    assert_eq!(notifier.unwrap_err(), NotifierSetupError::MissingUrl);
}

#[test]
fn test_build_message() {
    let config = SlackConfig {
        enabled: true,
        webhook_url: Some("https://hooks.slack.com/services/TEST".to_string()),
        channel: Some("#deployments".to_string()),
        username: Some("Headwind".to_string()),
        icon_emoji: Some(":rocket:".to_string()),
    };
    assert!(config.validate().is_ok());

    let payload = NotificationPayload::new(NotificationEvent::UpdateRequestCreated, nginx(None))
        .with_policy("minor")
        .with_requires_approval(true)
        .with_approval_url("https://headwind.example.com/approve");

    let message = build_message(&config, &payload);

    assert_eq!(message.username, "Headwind");
    assert_eq!(message.icon_emoji, ":rocket:");
    assert!(!message.blocks.is_empty());
    assert_eq!(message.color, "#9C27B0");
    match &message.blocks[3] {
        SlackBlock::Actions(approve, details) => {
            assert_eq!(approve, "https://headwind.example.com/approve");
            assert_eq!(details, "https://headwind.example.com");
        },
        _ => panic!("expected the approval buttons"),
    }
}

#[test]
fn test_build_message_with_error() {
    let config = SlackConfig {
        enabled: true,
        webhook_url: Some("https://hooks.slack.com/services/TEST".to_string()),
        channel: None,
        username: None,
        icon_emoji: None,
    };
    assert!(config.validate().is_ok());

    let payload = NotificationPayload::new(NotificationEvent::UpdateFailed, nginx(None)).with_error("Failed to pull image");

    let message = build_message(&config, &payload);

    assert!(message_text(&message).contains("Failed to pull image"));
    assert_eq!(message.username, "Headwind");
    assert_eq!(message.icon_emoji, ":robot_face:");
}

#[test]
fn slack_context_shows_the_time() {
    let config = SlackConfig::default();
    let mut payload = NotificationPayload::new(NotificationEvent::UpdateCompleted, nginx(None));
    payload.timestamp = headwind::clock::Instant { seconds: 0, nanos: 0 };
    let message = build_message(&config, &payload);
    match message.blocks.last().unwrap() {
        SlackBlock::Context(t) => {
            assert_eq!(t, "<!date^0^{date_short_pretty} at {time}|1970-01-01 00:00:00 UTC>")
        },
        _ => panic!("expected the context block last"),
    }
}

#[test]
fn test_teams_notifier_creation() {
    let config = TeamsConfig { enabled: true, webhook_url: Some("https://outlook.office.com/webhook/test".to_string()) };

    assert!(config.validate().is_ok());
    assert!(config.is_enabled());
}

#[test]
fn test_teams_notifier_disabled() {
    let config = TeamsConfig { enabled: false, webhook_url: Some("https://outlook.office.com/webhook/test".to_string()) };

    assert!(config.validate().is_err());
}

#[test]
fn test_teams_notifier_missing_webhook() {
    let config = TeamsConfig { enabled: true, webhook_url: None };

    assert!(config.validate().is_err());
}

#[test]
fn test_build_adaptive_card() {
    let config = TeamsConfig { enabled: true, webhook_url: Some("https://outlook.office.com/webhook/test".to_string()) };
    assert!(config.validate().is_ok());

    let payload = NotificationPayload::new(NotificationEvent::UpdateRequestCreated, nginx(None))
        .with_policy("minor")
        .with_requires_approval(true)
        .with_approval_url("https://headwind.example.com/approve");

    let card = build_adaptive_card(&payload);

    assert_eq!(card.theme_color, "9C27B0");
    assert_eq!(card.facts.len(), 5);
    assert_eq!(
        card.actions,
        vec![("Approve Update".to_string(), "https://headwind.example.com/approve".to_string())]
    );
    assert_eq!(card.activity_subtitle, "Event: update.request.created");
}

#[test]
fn test_build_adaptive_card_with_error() {
    let payload =
        NotificationPayload::new(NotificationEvent::UpdateFailed, nginx(None)).with_error("Failed to pull image: timeout");

    let card = build_adaptive_card(&payload);

    assert!(card_text(&card).contains("Failed to pull image"));
}

#[test]
fn test_build_card_approved() {
    let payload =
        NotificationPayload::new(NotificationEvent::UpdateApproved, nginx(None)).with_approved_by("admin@example.com");

    let card = build_adaptive_card(&payload);

    let text = card_text(&card);
    assert!(text.contains("admin@example.com"));
    assert!(text.contains("Approved By"));
}

fn webhook(enabled: bool, url: Option<&str>, secret: Option<&str>) -> WebhookConfig {
    WebhookConfig {
        enabled,
        url: url.map(|u| u.to_string()),
        secret: secret.map(|s| s.to_string()),
        timeout_seconds: 10,
        max_retries: 3,
    }
}

#[test]
fn test_webhook_notifier_creation() {
    let config = webhook(true, Some("https://example.com/webhook"), Some("test-secret"));
    assert!(config.validate().is_ok());
    assert!(config.is_enabled());
}

#[test]
fn test_webhook_notifier_disabled() {
    let config = webhook(false, Some("https://example.com/webhook"), None);
    assert!(config.validate().is_err());
}

#[test]
fn test_webhook_notifier_missing_url() {
    let config = webhook(true, None, None);
    assert!(config.validate().is_err());
}

#[test]
fn test_signature_generation() {
    let config = webhook(true, Some("https://example.com/webhook"), Some("test-secret"));
    assert!(config.validate().is_ok());
    let signature = generate_signature(&config, "test payload");
    assert!(signature.is_some());
    let signature = signature.unwrap();
    assert!(signature.starts_with("sha256="));
    // HMAC-SHA256, as a receiver recomputes it with the shared secret.
    assert_eq!(signature, "sha256=2f94a757d2246073e26781d117ce0183ebd87b4d66c460494376d5c37d71985b");
}

#[test]
fn signature_keys_of_any_length() {
    let long = "k".repeat(100);
    let config = webhook(true, Some("https://example.com/webhook"), Some(&long));
    assert_eq!(
        generate_signature(&config, "abc").unwrap(),
        "sha256=b58b2b694fdba0dd76da3ebe99174f728d327560f36ece224e90867972479922"
    );
    let block = "k".repeat(64);
    let config = webhook(true, Some("https://example.com/webhook"), Some(&block));
    assert_eq!(
        generate_signature(&config, "abc").unwrap(),
        "sha256=ae0c0e4a2340cf50185eb46aaa8723f4769153661612e212fb0d1fa3170c6202"
    );
}

#[test]
fn test_signature_without_secret() {
    let config = webhook(true, Some("https://example.com/webhook"), None);
    assert!(config.validate().is_ok());
    let signature = generate_signature(&config, "test payload");
    assert!(signature.is_none());
}

#[test]
fn configuration_comes_from_the_environment() {
    let mut env = BTreeMap::new();
    env.insert("SLACK_ENABLED".to_string(), "true".to_string());
    env.insert("SLACK_WEBHOOK_URL".to_string(), "https://hooks.slack.com/x".to_string());
    env.insert("WEBHOOK_TIMEOUT".to_string(), "30".to_string());
    env.insert("WEBHOOK_MAX_RETRIES".to_string(), "many".to_string());
    env.insert("TEAMS_ENABLED".to_string(), "yes".to_string());
    let c = NotificationConfig::from_env(&env);
    assert!(c.slack.enabled);
    assert_eq!(c.slack.webhook_url.as_deref(), Some("https://hooks.slack.com/x"));
    assert!(!c.teams.enabled);
    assert_eq!(c.webhook.timeout_seconds, 30);
    assert_eq!(c.webhook.max_retries, 3);
    assert!(c.has_enabled_channels());
    assert!(!NotificationConfig::default().has_enabled_channels());
}

#[test]
fn request_created_carries_the_approval_address() {
    let p = notify_update_request_created(nginx(Some("web")), "minor", true, "req-1", None);
    assert_eq!(p.event, NotificationEvent::UpdateRequestCreated);
    assert_eq!(
        p.approval_url.as_deref(),
        Some("http://localhost:8081/api/v1/updates/production/req-1/approve")
    );
    assert_eq!(p.update_request_name.as_deref(), Some("req-1"));
    let q = notify_update_request_created(nginx(None), "minor", false, "req-2", Some("https://api"));
    assert!(q.approval_url.is_none());
    assert_eq!(approval_url(Some("https://api"), "ns", "r"), "https://api/api/v1/updates/ns/r/approve");
}

#[test]
fn rejection_carries_the_reason() {
    let p = notify_update_rejected(nginx(None), "bob", "not now", "req-3");
    assert_eq!(p.event, NotificationEvent::UpdateRejected);
    assert_eq!(p.rejection_reason.as_deref(), Some("not now"));
    assert_eq!(p.title(), "Update rejected: production/nginx");
}

#[test]
fn deliveries_retry_with_doubling_pauses() {
    assert_eq!(delivery_step(0, 3, true), DeliveryStep::Delivered);
    assert_eq!(delivery_step(0, 3, false), DeliveryStep::RetryAfter(1000));
    assert_eq!(delivery_step(1, 3, false), DeliveryStep::RetryAfter(2000));
    assert_eq!(delivery_step(2, 3, false), DeliveryStep::RetryAfter(4000));
    assert_eq!(delivery_step(3, 3, false), DeliveryStep::GiveUp);
    assert_eq!(delivery_step(0, 0, false), DeliveryStep::GiveUp);
    assert_eq!(delivery_step(54, 60, false), DeliveryStep::RetryAfter(1000 * (1u64 << 54)));
}

#[test]
fn manager_keeps_the_usable_channels_in_order() {
    let mut config = NotificationConfig::default();
    let empty = NotificationManager::new(config.clone());
    assert!(!empty.has_enabled_notifiers());
    assert_eq!(empty.enabled_count(), 0);

    config.slack.enabled = true;
    config.teams.enabled = true;
    config.teams.webhook_url = Some("https://outlook.office.com/webhook/x".to_string());
    config.webhook.enabled = true;
    config.webhook.url = Some("https://example.com/hook".to_string());
    let m = NotificationManager::new(config);
    let names: Vec<&str> = m.notifiers().iter().map(|c| c.name()).collect();
    assert_eq!(names, vec!["Microsoft Teams", "Webhook"]);
    assert!(m.notifiers().iter().all(|c| c.is_enabled()));
    assert!(m.has_enabled_notifiers());
    assert_eq!(m.enabled_count(), 2);
    assert!(matches!(&m.notifiers()[1], NotifierChannel::Webhook(w) if w.max_retries == 3));
}
