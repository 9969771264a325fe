use headwind::config::{
    get_secret_value, parse_bool, parse_optional_string, parse_u64, secret_text, HeadwindConfig,
    POLLING_ENABLED, POLLING_INTERVAL, SLACK_CHANNEL, SLACK_USERNAME, SLACK_WEBHOOK_URL,
};
use std::collections::BTreeMap;

#[test]
fn test_default_config() {
    let config = HeadwindConfig::default();
    assert!(!config.polling.enabled);
    assert_eq!(config.polling.interval, 300);
    assert!(config.helm.auto_discovery);
    assert!(config.controllers.enabled);
    assert!(!config.notifications.slack.enabled);
}

#[test]
fn test_parse_bool() {
    let mut data = BTreeMap::new();
    data.insert("test.key".to_string(), "true".to_string());
    assert!(parse_bool(&data, "test.key", false));

    data.insert("test.key".to_string(), "false".to_string());
    assert!(!parse_bool(&data, "test.key", true));

    assert!(parse_bool(&data, "missing.key", true));
}

#[test]
fn test_parse_u64() {
    let mut data = BTreeMap::new();
    data.insert("test.key".to_string(), "500".to_string());
    assert_eq!(parse_u64(&data, "test.key", 100), 500);

    assert_eq!(parse_u64(&data, "missing.key", 100), 100);
}

#[test]
fn unparsable_settings_keep_their_defaults() {
    let mut data = BTreeMap::new();
    data.insert("flag".to_string(), "yes".to_string());
    data.insert("count".to_string(), "12x".to_string());
    data.insert("neg".to_string(), "-4".to_string());
    assert!(parse_bool(&data, "flag", true));
    assert!(!parse_bool(&data, "flag", false));
    assert_eq!(parse_u64(&data, "count", 7), 7);
    assert_eq!(parse_u64(&data, "neg", 9), 9);
}

#[test]
fn empty_strings_read_as_absent() {
    let mut data = BTreeMap::new();
    data.insert("a".to_string(), "".to_string());
    data.insert("b".to_string(), "#alerts".to_string());
    assert_eq!(parse_optional_string(&data, "a"), None);
    assert_eq!(parse_optional_string(&data, "b"), Some("#alerts".to_string()));
    assert_eq!(parse_optional_string(&data, "c"), None);
    assert_eq!(get_secret_value(&data, "a"), None);
    assert_eq!(get_secret_value(&data, "b"), Some("#alerts".to_string()));
}

#[test]
fn secret_bytes_are_decoded_and_trimmed() {
    assert_eq!(secret_text(b"  https://hooks.example.com/x \n"), "https://hooks.example.com/x");
    assert_eq!(secret_text(&[0xff, 0xfe, 0x41]), "");
    assert_eq!(secret_text(b""), "");
}

#[test]
fn loading_nothing_gives_the_defaults() {
    let empty = BTreeMap::new();
    let loaded = HeadwindConfig::from_data(&empty, &empty);
    let d = HeadwindConfig::default();
    assert_eq!(loaded.polling.enabled, d.polling.enabled);
    assert_eq!(loaded.polling.interval, d.polling.interval);
    assert_eq!(loaded.helm.auto_discovery, d.helm.auto_discovery);
    assert_eq!(loaded.controllers.enabled, d.controllers.enabled);
    assert_eq!(loaded.notifications.slack.username, d.notifications.slack.username);
    assert_eq!(loaded.observability.metrics_backend, d.observability.metrics_backend);
    assert_eq!(loaded.observability.influxdb.token, d.observability.influxdb.token);
}

#[test]
fn settings_read_back_after_saving() {
    let mut c = HeadwindConfig::default();
    c.polling.enabled = true;
    c.polling.interval = 45;
    c.notifications.slack.enabled = true;
    c.notifications.slack.channel = Some("#deploys".to_string());
    c.notifications.slack.webhook_url = Some("https://hooks.slack.com/services/T/B/X".to_string());
    let config_data = c.config_data();
    let secret_data = c.secret_data();
    assert_eq!(config_data.get(POLLING_ENABLED).map(|s| s.as_str()), Some("true"));
    assert_eq!(config_data.get(POLLING_INTERVAL).map(|s| s.as_str()), Some("45"));
    assert_eq!(config_data.get(SLACK_CHANNEL).map(|s| s.as_str()), Some("#deploys"));
    assert_eq!(config_data.get(SLACK_USERNAME).map(|s| s.as_str()), Some("Headwind"));
    assert_eq!(
        secret_data.get(SLACK_WEBHOOK_URL).map(|s| s.as_str()),
        Some("https://hooks.slack.com/services/T/B/X")
    );
    let back = HeadwindConfig::from_data(&config_data, &secret_data);
    assert!(back.polling.enabled);
    assert_eq!(back.polling.interval, 45);
    assert!(back.notifications.slack.enabled);
    assert_eq!(back.notifications.slack.channel, Some("#deploys".to_string()));
    assert_eq!(back.notifications.slack.webhook_url, c.notifications.slack.webhook_url);
    assert_eq!(back.notifications.teams.webhook_url, None);
}
