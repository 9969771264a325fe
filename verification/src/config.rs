//! Operator settings, kept in a ConfigMap (plain values) and a Secret
//! (webhook addresses). This module reads the settings from the two string
//! maps and writes them back; fetching and storing the maps is the caller's.

use crate::models::policy::bool_or;
use crate::parse::{bool_value, decimal, lookup, map_get, map_insert, unsigned_value};
use crate::text::{owned, trim, trim_ws};
use std::collections::BTreeMap;
use vstd::prelude::*;

verus! {

/// Name of the ConfigMap holding the settings.
pub const CONFIGMAP_NAME: &'static str = "headwind-config";

/// Name of the Secret holding the webhook addresses.
pub const SECRET_NAME: &'static str = "headwind-secrets";

/// Namespace of both.
pub const NAMESPACE: &'static str = "headwind-system";

/// ConfigMap keys.
pub const POLLING_ENABLED: &'static str = "polling.enabled";
pub const POLLING_INTERVAL: &'static str = "polling.interval";
pub const HELM_AUTO_DISCOVERY: &'static str = "helm.autoDiscovery";
pub const CONTROLLERS_ENABLED: &'static str = "controllers.enabled";
pub const SLACK_ENABLED: &'static str = "slack.enabled";
pub const SLACK_CHANNEL: &'static str = "slack.channel";
pub const SLACK_USERNAME: &'static str = "slack.username";
pub const SLACK_ICON_EMOJI: &'static str = "slack.iconEmoji";
pub const TEAMS_ENABLED: &'static str = "teams.enabled";
pub const WEBHOOK_ENABLED: &'static str = "webhook.enabled";
pub const METRICS_BACKEND: &'static str = "observability.metricsBackend";
pub const PROMETHEUS_ENABLED: &'static str = "observability.prometheus.enabled";
pub const PROMETHEUS_URL: &'static str = "observability.prometheus.url";
pub const VICTORIAMETRICS_ENABLED: &'static str = "observability.victoriametrics.enabled";
pub const VICTORIAMETRICS_URL: &'static str = "observability.victoriametrics.url";
pub const INFLUXDB_ENABLED: &'static str = "observability.influxdb.enabled";
pub const INFLUXDB_URL: &'static str = "observability.influxdb.url";
pub const INFLUXDB_ORG: &'static str = "observability.influxdb.org";
pub const INFLUXDB_BUCKET: &'static str = "observability.influxdb.bucket";
pub const INFLUXDB_TOKEN: &'static str = "observability.influxdb.token";

/// Secret keys.
pub const SLACK_WEBHOOK_URL: &'static str = "slack-webhook-url";
pub const TEAMS_WEBHOOK_URL: &'static str = "teams-webhook-url";
pub const GENERIC_WEBHOOK_URL: &'static str = "webhook-url";

/// Values used where a setting is absent.
pub const DEFAULT_SLACK_USERNAME: &'static str = "Headwind";
pub const DEFAULT_SLACK_ICON: &'static str = ":sailboat:";
pub const DEFAULT_METRICS_BACKEND: &'static str = "auto";
pub const DEFAULT_PROMETHEUS_URL: &'static str = "http://prometheus-server.monitoring.svc.cluster.local:80";
pub const DEFAULT_VICTORIAMETRICS_URL: &'static str =
    "http://victoria-metrics.monitoring.svc.cluster.local:8428";
pub const DEFAULT_INFLUXDB_URL: &'static str = "http://influxdb.monitoring.svc.cluster.local:8086";
pub const DEFAULT_INFLUXDB_ORG: &'static str = "headwind";
pub const DEFAULT_INFLUXDB_BUCKET: &'static str = "metrics";
pub const DEFAULT_INFLUXDB_TOKEN: &'static str = "headwind-test-token";

/// Headwind configuration loaded from ConfigMap and Secret
#[derive(Debug, Clone)]
pub struct HeadwindConfig {
    pub polling: PollingConfig,
    pub helm: HelmConfig,
    pub controllers: ControllersConfig,
    pub notifications: NotificationsConfig,
    pub observability: ObservabilityConfig,
}

#[derive(Debug, Clone)]
pub struct PollingConfig {
    pub enabled: bool,
    pub interval: u64,
}

#[derive(Debug, Clone)]
pub struct HelmConfig {
    pub auto_discovery: bool,
}

#[derive(Debug, Clone)]
pub struct ControllersConfig {
    pub enabled: bool,
}

#[derive(Debug, Clone)]
pub struct NotificationsConfig {
    pub slack: SlackConfig,
    pub teams: TeamsConfig,
    pub webhook: WebhookConfig,
}

#[derive(Debug, Clone)]
pub struct SlackConfig {
    pub enabled: bool,
    pub webhook_url: Option<String>,
    pub channel: Option<String>,
    pub username: Option<String>,
    pub icon_emoji: Option<String>,
}

#[derive(Debug, Clone)]
pub struct TeamsConfig {
    pub enabled: bool,
    pub webhook_url: Option<String>,
}

#[derive(Debug, Clone)]
pub struct WebhookConfig {
    pub enabled: bool,
    pub url: Option<String>,
}

/// Where the dashboard reads metrics from (`metrics_backend` is one of
/// auto, prometheus, victoriametrics, influxdb, live).
#[derive(Debug, Clone)]
pub struct ObservabilityConfig {
    pub metrics_backend: String,
    pub prometheus: PrometheusConfig,
    pub victoriametrics: VictoriaMetricsConfig,
    pub influxdb: InfluxDBConfig,
}

#[derive(Debug, Clone)]
pub struct PrometheusConfig {
    pub enabled: bool,
    pub url: Option<String>,
}

#[derive(Debug, Clone)]
pub struct VictoriaMetricsConfig {
    pub enabled: bool,
    pub url: Option<String>,
}

#[derive(Debug, Clone)]
pub struct InfluxDBConfig {
    pub enabled: bool,
    pub url: Option<String>,
    pub org: Option<String>,
    pub bucket: Option<String>,
    pub token: Option<String>,
}

/// An optional string, as characters.
pub open spec fn opt_text(o: Option<String>) -> Option<Seq<char>> {
    match o {
        Some(s) => Some(s@),
        None => None,
    }
}

/// The text of `o`, or `d` when there is none.
pub open spec fn text_or(o: Option<Seq<char>>, d: Seq<char>) -> Seq<char> {
    match o {
        Some(s) => s,
        None => d,
    }
}

/// A boolean setting: `true`/`false` when the key holds one of them, else
/// `default`.
pub open spec fn bool_setting(m: Map<Seq<char>, Seq<char>>, key: Seq<char>, default: bool) -> bool {
    bool_or(lookup(m, key), default)
}

/// A number setting: the key's value when it reads as a `u64`, else
/// `default`.
pub open spec fn u64_setting(m: Map<Seq<char>, Seq<char>>, key: Seq<char>, default: u64) -> u64 {
    match lookup(m, key) {
        Some(v) => match unsigned_value(v, u64::MAX as nat) {
            Some(n) => n as u64,
            None => default,
        },
        None => default,
    }
}

/// A text setting: the key's value unless it is absent or empty.
pub open spec fn text_setting(m: Map<Seq<char>, Seq<char>>, key: Seq<char>) -> Option<Seq<char>> {
    match lookup(m, key) {
        Some(v) => if v.len() > 0 {
            Some(v)
        } else {
            None
        },
        None => None,
    }
}

/// `c` holds the settings that the ConfigMap data `cm` and the Secret data
/// `sm` describe, with a default for each setting that is absent.
pub open spec fn loaded_config(
    c: HeadwindConfig,
    cm: Map<Seq<char>, Seq<char>>,
    sm: Map<Seq<char>, Seq<char>>,
) -> bool {
    &&& c.polling.enabled == bool_setting(cm, POLLING_ENABLED@, false)
    &&& c.polling.interval == u64_setting(cm, POLLING_INTERVAL@, 300)
    &&& c.helm.auto_discovery == bool_setting(cm, HELM_AUTO_DISCOVERY@, true)
    &&& c.controllers.enabled == bool_setting(cm, CONTROLLERS_ENABLED@, true)
    &&& c.notifications.slack.enabled == bool_setting(cm, SLACK_ENABLED@, false)
    &&& opt_text(c.notifications.slack.webhook_url) == text_setting(sm, SLACK_WEBHOOK_URL@)
    &&& opt_text(c.notifications.slack.channel) == text_setting(cm, SLACK_CHANNEL@)
    &&& opt_text(c.notifications.slack.username) == Some(
        text_or(text_setting(cm, SLACK_USERNAME@), DEFAULT_SLACK_USERNAME@),
    )
    &&& opt_text(c.notifications.slack.icon_emoji) == Some(
        text_or(text_setting(cm, SLACK_ICON_EMOJI@), DEFAULT_SLACK_ICON@),
    )
    &&& c.notifications.teams.enabled == bool_setting(cm, TEAMS_ENABLED@, false)
    &&& opt_text(c.notifications.teams.webhook_url) == text_setting(sm, TEAMS_WEBHOOK_URL@)
    &&& c.notifications.webhook.enabled == bool_setting(cm, WEBHOOK_ENABLED@, false)
    &&& opt_text(c.notifications.webhook.url) == text_setting(sm, GENERIC_WEBHOOK_URL@)
    &&& c.observability.metrics_backend@ == text_or(
        text_setting(cm, METRICS_BACKEND@),
        DEFAULT_METRICS_BACKEND@,
    )
    &&& c.observability.prometheus.enabled == bool_setting(cm, PROMETHEUS_ENABLED@, true)
    &&& opt_text(c.observability.prometheus.url) == Some(
        text_or(text_setting(cm, PROMETHEUS_URL@), DEFAULT_PROMETHEUS_URL@),
    )
    &&& c.observability.victoriametrics.enabled == bool_setting(cm, VICTORIAMETRICS_ENABLED@, true)
    &&& opt_text(c.observability.victoriametrics.url) == Some(
        text_or(text_setting(cm, VICTORIAMETRICS_URL@), DEFAULT_VICTORIAMETRICS_URL@),
    )
    &&& c.observability.influxdb.enabled == bool_setting(cm, INFLUXDB_ENABLED@, false)
    &&& opt_text(c.observability.influxdb.url) == Some(
        text_or(text_setting(cm, INFLUXDB_URL@), DEFAULT_INFLUXDB_URL@),
    )
    &&& opt_text(c.observability.influxdb.org) == Some(
        text_or(text_setting(cm, INFLUXDB_ORG@), DEFAULT_INFLUXDB_ORG@),
    )
    &&& opt_text(c.observability.influxdb.bucket) == Some(
        text_or(text_setting(cm, INFLUXDB_BUCKET@), DEFAULT_INFLUXDB_BUCKET@),
    )
    &&& opt_text(c.observability.influxdb.token) == Some(
        text_or(text_setting(cm, INFLUXDB_TOKEN@), DEFAULT_INFLUXDB_TOKEN@),
    )
}

/// The text `bool::to_string` writes.
pub open spec fn bool_text(b: bool) -> Seq<char> {
    if b {
        "true"@
    } else {
        "false"@
    }
}

/// The ConfigMap data that saving `c` writes: every setting, with an empty
/// text for an absent optional one (the display name and icon fall back to
/// their defaults).
pub open spec fn config_data_of(c: HeadwindConfig) -> Map<Seq<char>, Seq<char>> {
    Map::<Seq<char>, Seq<char>>::empty().insert(
        POLLING_ENABLED@,
        bool_text(c.polling.enabled),
    ).insert(POLLING_INTERVAL@, decimal(c.polling.interval as nat)).insert(
        HELM_AUTO_DISCOVERY@,
        bool_text(c.helm.auto_discovery),
    ).insert(CONTROLLERS_ENABLED@, bool_text(c.controllers.enabled)).insert(
        SLACK_ENABLED@,
        bool_text(c.notifications.slack.enabled),
    ).insert(SLACK_CHANNEL@, text_or(opt_text(c.notifications.slack.channel), Seq::empty())).insert(
        SLACK_USERNAME@,
        text_or(opt_text(c.notifications.slack.username), DEFAULT_SLACK_USERNAME@),
    ).insert(
        SLACK_ICON_EMOJI@,
        text_or(opt_text(c.notifications.slack.icon_emoji), DEFAULT_SLACK_ICON@),
    ).insert(TEAMS_ENABLED@, bool_text(c.notifications.teams.enabled)).insert(
        WEBHOOK_ENABLED@,
        bool_text(c.notifications.webhook.enabled),
    ).insert(METRICS_BACKEND@, c.observability.metrics_backend@).insert(
        PROMETHEUS_ENABLED@,
        bool_text(c.observability.prometheus.enabled),
    ).insert(PROMETHEUS_URL@, text_or(opt_text(c.observability.prometheus.url), Seq::empty())).insert(
        VICTORIAMETRICS_ENABLED@,
        bool_text(c.observability.victoriametrics.enabled),
    ).insert(
        VICTORIAMETRICS_URL@,
        text_or(opt_text(c.observability.victoriametrics.url), Seq::empty()),
    ).insert(INFLUXDB_ENABLED@, bool_text(c.observability.influxdb.enabled)).insert(
        INFLUXDB_URL@,
        text_or(opt_text(c.observability.influxdb.url), Seq::empty()),
    ).insert(INFLUXDB_ORG@, text_or(opt_text(c.observability.influxdb.org), Seq::empty())).insert(
        INFLUXDB_BUCKET@,
        text_or(opt_text(c.observability.influxdb.bucket), Seq::empty()),
    ).insert(INFLUXDB_TOKEN@, text_or(opt_text(c.observability.influxdb.token), Seq::empty()))
}

/// `m` with `value` under `key` when there is a value.
pub open spec fn insert_some(
    m: Map<Seq<char>, Seq<char>>,
    key: Seq<char>,
    value: Option<Seq<char>>,
) -> Map<Seq<char>, Seq<char>> {
    match value {
        Some(v) => m.insert(key, v),
        None => m,
    }
}

/// The Secret data that saving `c` writes: each webhook address that is set.
pub open spec fn secret_data_of(c: HeadwindConfig) -> Map<Seq<char>, Seq<char>> {
    insert_some(
        insert_some(
            insert_some(
                Map::empty(),
                SLACK_WEBHOOK_URL@,
                opt_text(c.notifications.slack.webhook_url),
            ),
            TEAMS_WEBHOOK_URL@,
            opt_text(c.notifications.teams.webhook_url),
        ),
        GENERIC_WEBHOOK_URL@,
        opt_text(c.notifications.webhook.url),
    )
}

/// `c` is the configuration that applies when nothing is stored.
pub open spec fn is_default_config(c: HeadwindConfig) -> bool {
    &&& !c.polling.enabled
    &&& c.polling.interval == 300
    &&& c.helm.auto_discovery
    &&& c.controllers.enabled
    &&& !c.notifications.slack.enabled
    &&& c.notifications.slack.webhook_url is None
    &&& c.notifications.slack.channel is None
    &&& opt_text(c.notifications.slack.username) == Some(DEFAULT_SLACK_USERNAME@)
    &&& opt_text(c.notifications.slack.icon_emoji) == Some(DEFAULT_SLACK_ICON@)
    &&& !c.notifications.teams.enabled
    &&& c.notifications.teams.webhook_url is None
    &&& !c.notifications.webhook.enabled
    &&& c.notifications.webhook.url is None
    &&& c.observability.metrics_backend@ == DEFAULT_METRICS_BACKEND@
    &&& c.observability.prometheus.enabled
    &&& opt_text(c.observability.prometheus.url) == Some(DEFAULT_PROMETHEUS_URL@)
    &&& c.observability.victoriametrics.enabled
    &&& opt_text(c.observability.victoriametrics.url) == Some(DEFAULT_VICTORIAMETRICS_URL@)
    &&& !c.observability.influxdb.enabled
    &&& opt_text(c.observability.influxdb.url) == Some(DEFAULT_INFLUXDB_URL@)
    &&& opt_text(c.observability.influxdb.org) == Some(DEFAULT_INFLUXDB_ORG@)
    &&& opt_text(c.observability.influxdb.bucket) == Some(DEFAULT_INFLUXDB_BUCKET@)
    &&& opt_text(c.observability.influxdb.token) == Some(DEFAULT_INFLUXDB_TOKEN@)
}

impl Default for HeadwindConfig {
    fn default() -> (r: Self)
        ensures
            is_default_config(r),
    {
        HeadwindConfig {
            polling: PollingConfig { enabled: false, interval: 300 },
            helm: HelmConfig { auto_discovery: true },
            controllers: ControllersConfig { enabled: true },
            notifications: NotificationsConfig {
                slack: SlackConfig {
                    enabled: false,
                    webhook_url: None,
                    channel: None,
                    username: Some(owned(DEFAULT_SLACK_USERNAME)),
                    icon_emoji: Some(owned(DEFAULT_SLACK_ICON)),
                },
                teams: TeamsConfig { enabled: false, webhook_url: None },
                webhook: WebhookConfig { enabled: false, url: None },
            },
            observability: ObservabilityConfig {
                metrics_backend: owned(DEFAULT_METRICS_BACKEND),
                prometheus: PrometheusConfig {
                    enabled: true,
                    url: Some(owned(DEFAULT_PROMETHEUS_URL)),
                },
                victoriametrics: VictoriaMetricsConfig {
                    enabled: true,
                    url: Some(owned(DEFAULT_VICTORIAMETRICS_URL)),
                },
                influxdb: InfluxDBConfig {
                    enabled: false,
                    url: Some(owned(DEFAULT_INFLUXDB_URL)),
                    org: Some(owned(DEFAULT_INFLUXDB_ORG)),
                    bucket: Some(owned(DEFAULT_INFLUXDB_BUCKET)),
                    token: Some(owned(DEFAULT_INFLUXDB_TOKEN)),
                },
            },
        }
    }
}

/// A boolean setting of `data`, `default` when absent or unreadable.
pub fn parse_bool(data: &BTreeMap<String, String>, key: &str, default: bool) -> (r: bool)
    ensures
        r == bool_setting(data.deep_view(), key@, default),
{
    match map_get(data, key) {
        Some(v) => match crate::parse::parse_bool(v.as_str()) {
            Some(b) => b,
            None => default,
        },
        None => default,
    }
}

/// A number setting of `data`, `default` when absent or unreadable.
pub fn parse_u64(data: &BTreeMap<String, String>, key: &str, default: u64) -> (r: u64)
    ensures
        r == u64_setting(data.deep_view(), key@, default),
{
    match map_get(data, key) {
        Some(v) => match crate::parse::parse_u64(v.as_str()) {
            Some(n) => n,
            None => default,
        },
        None => default,
    }
}

/// A text setting of `data`, `None` when absent or empty.
pub fn parse_optional_string(data: &BTreeMap<String, String>, key: &str) -> (r: Option<String>)
    ensures
        opt_text(r) == text_setting(data.deep_view(), key@),
{
    match map_get(data, key) {
        Some(v) => {
            if v.as_str().unicode_len() > 0 {
                Some(owned(v.as_str()))
            } else {
                None
            }
        },
        None => None,
    }
}

/// A value of the Secret data, `None` when absent or empty.
pub fn get_secret_value(data: &BTreeMap<String, String>, key: &str) -> (r: Option<String>)
    ensures
        opt_text(r) == text_setting(data.deep_view(), key@),
{
    parse_optional_string(data, key)
}

/// The text that `bytes` encode in UTF-8, `None` where they are not valid
/// UTF-8 (as `std::str::from_utf8` decodes them).
pub open spec fn utf8_decoding(bytes: Seq<u8>) -> Option<Seq<char>> {
    if vstd::utf8::valid_utf8(bytes) {
        Some(vstd::utf8::decode_utf8(bytes))
    } else {
        None
    }
}

/// Calls `std::str::from_utf8`: the text that `bytes` encode, if they are
/// valid UTF-8, and `None` if they are not, as its documentation says.
#[verifier::external_body]
pub(crate) fn utf8_text(bytes: &[u8]) -> (r: Option<String>)
    ensures
        opt_text(r) == utf8_decoding(bytes@),
{
    match std::str::from_utf8(bytes) {
        Ok(s) => Some(s.to_string()),
        Err(_) => None,
    }
}

/// The text of a raw Secret value: its UTF-8 decoding without surrounding
/// whitespace, empty when the bytes are not UTF-8.
pub fn secret_text(raw: &[u8]) -> (r: String)
    ensures
        r@ == match utf8_decoding(raw@) {
            Some(s) => trim_ws(s),
            None => Seq::empty(),
        },
{
    match utf8_text(raw) {
        Some(s) => owned(trim(s.as_str())),
        None => String::new(),
    }
}

fn text_or_default(o: &Option<String>, d: &str) -> (r: String)
    ensures
        r@ == text_or(opt_text(*o), d@),
{
    match o {
        Some(s) => s.clone(),
        None => owned(d),
    }
}

impl HeadwindConfig {
    /// The settings that the ConfigMap data `config_data` and the Secret
    /// data `secret_data` hold, with defaults for the absent ones.
    pub fn from_data(config_data: &BTreeMap<String, String>, secret_data: &BTreeMap<String, String>) -> (c:
        Self)
        ensures
            loaded_config(c, config_data.deep_view(), secret_data.deep_view()),
    {
        let username = parse_optional_string(config_data, SLACK_USERNAME);
        let icon_emoji = parse_optional_string(config_data, SLACK_ICON_EMOJI);
        let backend = parse_optional_string(config_data, METRICS_BACKEND);
        let prometheus_url = parse_optional_string(config_data, PROMETHEUS_URL);
        let vm_url = parse_optional_string(config_data, VICTORIAMETRICS_URL);
        let influx_url = parse_optional_string(config_data, INFLUXDB_URL);
        let influx_org = parse_optional_string(config_data, INFLUXDB_ORG);
        let influx_bucket = parse_optional_string(config_data, INFLUXDB_BUCKET);
        let influx_token = parse_optional_string(config_data, INFLUXDB_TOKEN);
        HeadwindConfig {
            polling: PollingConfig {
                enabled: parse_bool(config_data, POLLING_ENABLED, false),
                interval: parse_u64(config_data, POLLING_INTERVAL, 300),
            },
            helm: HelmConfig { auto_discovery: parse_bool(config_data, HELM_AUTO_DISCOVERY, true) },
            controllers: ControllersConfig {
                enabled: parse_bool(config_data, CONTROLLERS_ENABLED, true),
            },
            notifications: NotificationsConfig {
                slack: SlackConfig {
                    enabled: parse_bool(config_data, SLACK_ENABLED, false),
                    webhook_url: get_secret_value(secret_data, SLACK_WEBHOOK_URL),
                    channel: parse_optional_string(config_data, SLACK_CHANNEL),
                    username: Some(text_or_default(&username, DEFAULT_SLACK_USERNAME)),
                    icon_emoji: Some(text_or_default(&icon_emoji, DEFAULT_SLACK_ICON)),
                },
                teams: TeamsConfig {
                    enabled: parse_bool(config_data, TEAMS_ENABLED, false),
                    webhook_url: get_secret_value(secret_data, TEAMS_WEBHOOK_URL),
                },
                webhook: WebhookConfig {
                    enabled: parse_bool(config_data, WEBHOOK_ENABLED, false),
                    url: get_secret_value(secret_data, GENERIC_WEBHOOK_URL),
                },
            },
            observability: ObservabilityConfig {
                metrics_backend: text_or_default(&backend, DEFAULT_METRICS_BACKEND),
                prometheus: PrometheusConfig {
                    enabled: parse_bool(config_data, PROMETHEUS_ENABLED, true),
                    url: Some(text_or_default(&prometheus_url, DEFAULT_PROMETHEUS_URL)),
                },
                victoriametrics: VictoriaMetricsConfig {
                    enabled: parse_bool(config_data, VICTORIAMETRICS_ENABLED, true),
                    url: Some(text_or_default(&vm_url, DEFAULT_VICTORIAMETRICS_URL)),
                },
                influxdb: InfluxDBConfig {
                    enabled: parse_bool(config_data, INFLUXDB_ENABLED, false),
                    url: Some(text_or_default(&influx_url, DEFAULT_INFLUXDB_URL)),
                    org: Some(text_or_default(&influx_org, DEFAULT_INFLUXDB_ORG)),
                    bucket: Some(text_or_default(&influx_bucket, DEFAULT_INFLUXDB_BUCKET)),
                    token: Some(text_or_default(&influx_token, DEFAULT_INFLUXDB_TOKEN)),
                },
            },
        }
    }
}

fn empty_data() -> (m: BTreeMap<String, String>)
    ensures
        m.deep_view() == Map::<Seq<char>, Seq<char>>::empty(),
{
    let m: BTreeMap<String, String> = BTreeMap::new();
    proof {
        vstd::std_specs::btree::lemma_btree_map_deepview_dom(m);
        assert(m.deep_view().dom() =~= Set::<Seq<char>>::empty());
        assert(m.deep_view() =~= Map::<Seq<char>, Seq<char>>::empty());
    }
    m
}

fn set_entry(m: &mut BTreeMap<String, String>, key: &str, value: String)
    ensures
        final(m).deep_view() == old(m).deep_view().insert(key@, value@),
{
    map_insert(m, owned(key), value);
}

fn bool_entry(b: bool) -> (r: String)
    ensures
        r@ == bool_text(b),
{
    crate::parse::bool_to_string(b)
}

impl HeadwindConfig {
    /// The ConfigMap data that stores these settings.
    pub fn config_data(&self) -> (m: BTreeMap<String, String>)
        ensures
            m.deep_view() == config_data_of(*self),
    {
        let n = &self.notifications;
        let o = &self.observability;
        proof {
            reveal_strlit("");
            assert(""@ =~= Seq::<char>::empty());
        }
        let mut m = empty_data();
        set_entry(&mut m, POLLING_ENABLED, bool_entry(self.polling.enabled));
        set_entry(&mut m, POLLING_INTERVAL, crate::parse::u64_to_string(self.polling.interval));
        set_entry(&mut m, HELM_AUTO_DISCOVERY, bool_entry(self.helm.auto_discovery));
        set_entry(&mut m, CONTROLLERS_ENABLED, bool_entry(self.controllers.enabled));
        set_entry(&mut m, SLACK_ENABLED, bool_entry(n.slack.enabled));
        set_entry(&mut m, SLACK_CHANNEL, text_or_default(&n.slack.channel, ""));
        set_entry(&mut m, SLACK_USERNAME, text_or_default(&n.slack.username, DEFAULT_SLACK_USERNAME));
        set_entry(&mut m, SLACK_ICON_EMOJI, text_or_default(&n.slack.icon_emoji, DEFAULT_SLACK_ICON));
        set_entry(&mut m, TEAMS_ENABLED, bool_entry(n.teams.enabled));
        set_entry(&mut m, WEBHOOK_ENABLED, bool_entry(n.webhook.enabled));
        set_entry(&mut m, METRICS_BACKEND, o.metrics_backend.clone());
        set_entry(&mut m, PROMETHEUS_ENABLED, bool_entry(o.prometheus.enabled));
        set_entry(&mut m, PROMETHEUS_URL, text_or_default(&o.prometheus.url, ""));
        set_entry(&mut m, VICTORIAMETRICS_ENABLED, bool_entry(o.victoriametrics.enabled));
        set_entry(&mut m, VICTORIAMETRICS_URL, text_or_default(&o.victoriametrics.url, ""));
        set_entry(&mut m, INFLUXDB_ENABLED, bool_entry(o.influxdb.enabled));
        set_entry(&mut m, INFLUXDB_URL, text_or_default(&o.influxdb.url, ""));
        set_entry(&mut m, INFLUXDB_ORG, text_or_default(&o.influxdb.org, ""));
        set_entry(&mut m, INFLUXDB_BUCKET, text_or_default(&o.influxdb.bucket, ""));
        set_entry(&mut m, INFLUXDB_TOKEN, text_or_default(&o.influxdb.token, ""));
        m
    }

    /// The Secret data that stores the webhook addresses that are set.
    pub fn secret_data(&self) -> (m: BTreeMap<String, String>)
        ensures
            m.deep_view() == secret_data_of(*self),
    {
        let mut m = empty_data();
        match &self.notifications.slack.webhook_url {
            Some(url) => set_entry(&mut m, SLACK_WEBHOOK_URL, url.clone()),
            None => {},
        }
        match &self.notifications.teams.webhook_url {
            Some(url) => set_entry(&mut m, TEAMS_WEBHOOK_URL, url.clone()),
            None => {},
        }
        match &self.notifications.webhook.url {
            Some(url) => set_entry(&mut m, GENERIC_WEBHOOK_URL, url.clone()),
            None => {},
        }
        m
    }
}

/// A text with at least one character.
pub open spec fn non_empty(o: Option<String>) -> bool {
    match o {
        Some(s) => s@.len() > 0,
        None => false,
    }
}

/// An optional text that is not the empty text (saving writes an absent
/// one as empty, and loading reads an empty one as absent).
pub open spec fn not_empty_text(o: Option<String>) -> bool {
    match o {
        Some(s) => s@.len() > 0,
        None => true,
    }
}

/// `c` survives a save and a load: no optional text is empty, and each
/// text that loading fills with a default when absent is set.
pub open spec fn keeps_settings(c: HeadwindConfig) -> bool {
    &&& not_empty_text(c.notifications.slack.webhook_url)
    &&& not_empty_text(c.notifications.slack.channel)
    &&& non_empty(c.notifications.slack.username)
    &&& non_empty(c.notifications.slack.icon_emoji)
    &&& not_empty_text(c.notifications.teams.webhook_url)
    &&& not_empty_text(c.notifications.webhook.url)
    &&& c.observability.metrics_backend@.len() > 0
    &&& non_empty(c.observability.prometheus.url)
    &&& non_empty(c.observability.victoriametrics.url)
    &&& non_empty(c.observability.influxdb.url)
    &&& non_empty(c.observability.influxdb.org)
    &&& non_empty(c.observability.influxdb.bucket)
    &&& non_empty(c.observability.influxdb.token)
}

/// `a` and `b` hold the same settings.
pub open spec fn same_settings(a: HeadwindConfig, b: HeadwindConfig) -> bool {
    &&& a.polling.enabled == b.polling.enabled
    &&& a.polling.interval == b.polling.interval
    &&& a.helm.auto_discovery == b.helm.auto_discovery
    &&& a.controllers.enabled == b.controllers.enabled
    &&& a.notifications.slack.enabled == b.notifications.slack.enabled
    &&& opt_text(a.notifications.slack.webhook_url) == opt_text(b.notifications.slack.webhook_url)
    &&& opt_text(a.notifications.slack.channel) == opt_text(b.notifications.slack.channel)
    &&& opt_text(a.notifications.slack.username) == opt_text(b.notifications.slack.username)
    &&& opt_text(a.notifications.slack.icon_emoji) == opt_text(b.notifications.slack.icon_emoji)
    &&& a.notifications.teams.enabled == b.notifications.teams.enabled
    &&& opt_text(a.notifications.teams.webhook_url) == opt_text(b.notifications.teams.webhook_url)
    &&& a.notifications.webhook.enabled == b.notifications.webhook.enabled
    &&& opt_text(a.notifications.webhook.url) == opt_text(b.notifications.webhook.url)
    &&& a.observability.metrics_backend@ == b.observability.metrics_backend@
    &&& a.observability.prometheus.enabled == b.observability.prometheus.enabled
    &&& opt_text(a.observability.prometheus.url) == opt_text(b.observability.prometheus.url)
    &&& a.observability.victoriametrics.enabled == b.observability.victoriametrics.enabled
    &&& opt_text(a.observability.victoriametrics.url) == opt_text(b.observability.victoriametrics.url)
    &&& a.observability.influxdb.enabled == b.observability.influxdb.enabled
    &&& opt_text(a.observability.influxdb.url) == opt_text(b.observability.influxdb.url)
    &&& opt_text(a.observability.influxdb.org) == opt_text(b.observability.influxdb.org)
    &&& opt_text(a.observability.influxdb.bucket) == opt_text(b.observability.influxdb.bucket)
    &&& opt_text(a.observability.influxdb.token) == opt_text(b.observability.influxdb.token)
}

proof fn lemma_bool_text_reads_back(b: bool)
    ensures
        bool_value(bool_text(b)) == Some(b),
{
    reveal_strlit("true");
    reveal_strlit("false");
    assert("true"@ != "false"@) by {
        assert("true"@.len() != "false"@.len());
    }
}


/// Saving a configuration and loading it back gives the same settings,
/// for every configuration whose texts survive the trip (see
/// `keeps_settings`).
pub proof fn lemma_save_then_load(c: HeadwindConfig, d: HeadwindConfig)
    requires
        keeps_settings(c),
        loaded_config(d, config_data_of(c), secret_data_of(c)),
    ensures
        same_settings(d, c),
{
    reveal_strlit("polling.enabled");
    reveal_strlit("polling.interval");
    reveal_strlit("helm.autoDiscovery");
    reveal_strlit("controllers.enabled");
    reveal_strlit("slack.enabled");
    reveal_strlit("slack.channel");
    reveal_strlit("slack.username");
    reveal_strlit("slack.iconEmoji");
    reveal_strlit("teams.enabled");
    reveal_strlit("webhook.enabled");
    reveal_strlit("observability.metricsBackend");
    reveal_strlit("observability.prometheus.enabled");
    reveal_strlit("observability.prometheus.url");
    reveal_strlit("observability.victoriametrics.enabled");
    reveal_strlit("observability.victoriametrics.url");
    reveal_strlit("observability.influxdb.enabled");
    reveal_strlit("observability.influxdb.url");
    reveal_strlit("observability.influxdb.org");
    reveal_strlit("observability.influxdb.bucket");
    reveal_strlit("observability.influxdb.token");
    reveal_strlit("slack-webhook-url");
    reveal_strlit("teams-webhook-url");
    reveal_strlit("webhook-url");
    assert("polling.enabled"@.len() == 15);
    assert("polling.interval"@.len() == 16);
    assert("helm.autoDiscovery"@.len() == 18);
    assert("controllers.enabled"@.len() == 19);
    assert("slack.enabled"@.len() == 13);
    assert("slack.channel"@.len() == 13);
    assert("slack.username"@.len() == 14);
    assert("slack.iconEmoji"@.len() == 15);
    assert("teams.enabled"@.len() == 13);
    assert("webhook.enabled"@.len() == 15);
    assert("observability.metricsBackend"@.len() == 28);
    assert("observability.prometheus.enabled"@.len() == 32);
    assert("observability.prometheus.url"@.len() == 28);
    assert("observability.victoriametrics.enabled"@.len() == 37);
    assert("observability.victoriametrics.url"@.len() == 33);
    assert("observability.influxdb.enabled"@.len() == 30);
    assert("observability.influxdb.url"@.len() == 26);
    assert("observability.influxdb.org"@.len() == 26);
    assert("observability.influxdb.bucket"@.len() == 29);
    assert("observability.influxdb.token"@.len() == 28);
    assert("slack-webhook-url"@.len() == 17);
    assert("teams-webhook-url"@.len() == 17);
    assert("webhook-url"@.len() == 11);
    assert("polling.enabled"@[0] != "slack.iconEmoji"@[0]);
    assert("polling.enabled"@[0] != "webhook.enabled"@[0]);
    assert("slack.iconEmoji"@[0] != "webhook.enabled"@[0]);
    assert("slack.enabled"@[6] != "slack.channel"@[6]);
    assert("slack.enabled"@[0] != "teams.enabled"@[0]);
    assert("slack.channel"@[0] != "teams.enabled"@[0]);
    assert("observability.metricsBackend"@[14] != "observability.prometheus.url"@[14]);
    assert("observability.metricsBackend"@[14] != "observability.influxdb.token"@[14]);
    assert("observability.prometheus.url"@[14] != "observability.influxdb.token"@[14]);
    assert("observability.influxdb.url"@[23] != "observability.influxdb.org"@[23]);
    assert("slack-webhook-url"@[0] != "teams-webhook-url"@[0]);
    lemma_bool_text_reads_back(c.polling.enabled);
    lemma_bool_text_reads_back(c.helm.auto_discovery);
    lemma_bool_text_reads_back(c.controllers.enabled);
    lemma_bool_text_reads_back(c.notifications.slack.enabled);
    lemma_bool_text_reads_back(c.notifications.teams.enabled);
    lemma_bool_text_reads_back(c.notifications.webhook.enabled);
    lemma_bool_text_reads_back(c.observability.prometheus.enabled);
    lemma_bool_text_reads_back(c.observability.victoriametrics.enabled);
    lemma_bool_text_reads_back(c.observability.influxdb.enabled);
    crate::parse::lemma_decimal_reads_back(c.polling.interval);
}

/// With nothing stored, loading gives the default configuration.
pub proof fn lemma_load_nothing_is_default(d: HeadwindConfig)
    requires
        loaded_config(d, Map::empty(), Map::empty()),
    ensures
        is_default_config(d),
{
}

} // verus!
