//! Notifications about updates: the events, their payloads and texts, the
//! settings of the Slack, Teams and webhook channels, and the messages each
//! channel is sent. Delivering them over the network is the caller's.

pub mod slack;
pub mod teams;
pub mod webhook;

use crate::clock::{now, Instant};
use crate::config::{opt_text, u64_setting};
use crate::models::policy::bool_or;
use crate::parse::{lookup, map_get, parse_bool, parse_u32, parse_u64};
use crate::rollback::u32_setting;
use crate::text::owned;
use std::collections::BTreeMap;
use std::collections::HashMap;
use vstd::prelude::*;

verus! {

/// Notification event types
#[derive(Debug, Clone, Copy, PartialEq, Eq, Structural)]
pub enum NotificationEvent {
    /// New version detected but not yet created as UpdateRequest
    UpdateDetected,
    /// UpdateRequest CRD created
    UpdateRequestCreated,
    /// Update approved by user
    UpdateApproved,
    /// Update rejected by user
    UpdateRejected,
    /// Update successfully applied
    UpdateCompleted,
    /// Update failed to apply
    UpdateFailed,
    /// Automatic rollback triggered
    RollbackTriggered,
    /// Rollback completed successfully
    RollbackCompleted,
    /// Rollback failed
    RollbackFailed,
}

/// The dotted name of an event.
pub open spec fn event_name(e: NotificationEvent) -> Seq<char> {
    match e {
        NotificationEvent::UpdateDetected => "update.detected"@,
        NotificationEvent::UpdateRequestCreated => "update.request.created"@,
        NotificationEvent::UpdateApproved => "update.approved"@,
        NotificationEvent::UpdateRejected => "update.rejected"@,
        NotificationEvent::UpdateCompleted => "update.completed"@,
        NotificationEvent::UpdateFailed => "update.failed"@,
        NotificationEvent::RollbackTriggered => "rollback.triggered"@,
        NotificationEvent::RollbackCompleted => "rollback.completed"@,
        NotificationEvent::RollbackFailed => "rollback.failed"@,
    }
}

/// The emoji shown with an event.
pub open spec fn event_emoji(e: NotificationEvent) -> Seq<char> {
    match e {
        NotificationEvent::UpdateDetected => "🔔"@,
        NotificationEvent::UpdateRequestCreated => "📦"@,
        NotificationEvent::UpdateApproved => "✅"@,
        NotificationEvent::UpdateRejected => "❌"@,
        NotificationEvent::UpdateCompleted => "🎉"@,
        NotificationEvent::UpdateFailed => "⚠️"@,
        NotificationEvent::RollbackTriggered => "🔄"@,
        NotificationEvent::RollbackCompleted => "✅"@,
        NotificationEvent::RollbackFailed => "💥"@,
    }
}

/// The colour (as `#rrggbb`) shown with an event: blue for a detection,
/// purple for a request, green for success, red for rejection and failed
/// rollback, orange for failure and rollback.
pub open spec fn event_color(e: NotificationEvent) -> Seq<char> {
    match e {
        NotificationEvent::UpdateDetected => "#2196F3"@,
        NotificationEvent::UpdateRequestCreated => "#9C27B0"@,
        NotificationEvent::UpdateApproved => "#4CAF50"@,
        NotificationEvent::UpdateRejected => "#F44336"@,
        NotificationEvent::UpdateCompleted => "#4CAF50"@,
        NotificationEvent::UpdateFailed => "#FF9800"@,
        NotificationEvent::RollbackTriggered => "#FF9800"@,
        NotificationEvent::RollbackCompleted => "#4CAF50"@,
        NotificationEvent::RollbackFailed => "#F44336"@,
    }
}

/// How the title of an event begins.
pub open spec fn title_prefix(e: NotificationEvent) -> Seq<char> {
    match e {
        NotificationEvent::UpdateDetected => "New version detected: "@,
        NotificationEvent::UpdateRequestCreated => "Update request created: "@,
        NotificationEvent::UpdateApproved => "Update approved: "@,
        NotificationEvent::UpdateRejected => "Update rejected: "@,
        NotificationEvent::UpdateCompleted => "Update completed: "@,
        NotificationEvent::UpdateFailed => "Update failed: "@,
        NotificationEvent::RollbackTriggered => "Rollback triggered: "@,
        NotificationEvent::RollbackCompleted => "Rollback completed: "@,
        NotificationEvent::RollbackFailed => "Rollback failed: "@,
    }
}

impl NotificationEvent {
    pub fn as_str(&self) -> (r: &'static str)
        ensures
            r@ == event_name(*self),
    {
        match self {
            NotificationEvent::UpdateDetected => "update.detected",
            NotificationEvent::UpdateRequestCreated => "update.request.created",
            NotificationEvent::UpdateApproved => "update.approved",
            NotificationEvent::UpdateRejected => "update.rejected",
            NotificationEvent::UpdateCompleted => "update.completed",
            NotificationEvent::UpdateFailed => "update.failed",
            NotificationEvent::RollbackTriggered => "rollback.triggered",
            NotificationEvent::RollbackCompleted => "rollback.completed",
            NotificationEvent::RollbackFailed => "rollback.failed",
        }
    }

    pub fn emoji(&self) -> (r: &'static str)
        ensures
            r@ == event_emoji(*self),
    {
        match self {
            NotificationEvent::UpdateDetected => "🔔",
            NotificationEvent::UpdateRequestCreated => "📦",
            NotificationEvent::UpdateApproved => "✅",
            NotificationEvent::UpdateRejected => "❌",
            NotificationEvent::UpdateCompleted => "🎉",
            NotificationEvent::UpdateFailed => "⚠️",
            NotificationEvent::RollbackTriggered => "🔄",
            NotificationEvent::RollbackCompleted => "✅",
            NotificationEvent::RollbackFailed => "💥",
        }
    }

    pub fn color(&self) -> (r: &'static str)
        ensures
            r@ == event_color(*self),
    {
        match self {
            NotificationEvent::UpdateDetected => "#2196F3",
            NotificationEvent::UpdateRequestCreated => "#9C27B0",
            NotificationEvent::UpdateApproved => "#4CAF50",
            NotificationEvent::UpdateRejected => "#F44336",
            NotificationEvent::UpdateCompleted => "#4CAF50",
            NotificationEvent::UpdateFailed => "#FF9800",
            NotificationEvent::RollbackTriggered => "#FF9800",
            NotificationEvent::RollbackCompleted => "#4CAF50",
            NotificationEvent::RollbackFailed => "#F44336",
        }
    }

    fn title_start(&self) -> (r: &'static str)
        ensures
            r@ == title_prefix(*self),
    {
        match self {
            NotificationEvent::UpdateDetected => "New version detected: ",
            NotificationEvent::UpdateRequestCreated => "Update request created: ",
            NotificationEvent::UpdateApproved => "Update approved: ",
            NotificationEvent::UpdateRejected => "Update rejected: ",
            NotificationEvent::UpdateCompleted => "Update completed: ",
            NotificationEvent::UpdateFailed => "Update failed: ",
            NotificationEvent::RollbackTriggered => "Rollback triggered: ",
            NotificationEvent::RollbackCompleted => "Rollback completed: ",
            NotificationEvent::RollbackFailed => "Rollback failed: ",
        }
    }
}

/// The resource an update is about.
#[derive(Debug, Clone)]
pub struct DeploymentInfo {
    pub name: String,
    pub namespace: String,
    pub current_image: String,
    pub new_image: String,
    pub container: Option<String>,
    /// Kind of the resource (`Deployment` when absent, or `HelmRelease`)
    pub resource_kind: Option<String>,
}

/// Notification payload containing event details
#[derive(Debug, Clone)]
pub struct NotificationPayload {
    pub event: NotificationEvent,
    pub timestamp: Instant,
    pub deployment: DeploymentInfo,
    pub policy: Option<String>,
    pub requires_approval: Option<bool>,
    pub approval_url: Option<String>,
    pub approved_by: Option<String>,
    pub rejection_reason: Option<String>,
    pub error_message: Option<String>,
    pub update_request_name: Option<String>,
    /// Address of the update in the web dashboard
    pub ui_url: Option<String>,
    pub metadata: Option<HashMap<String, String>>,
}

/// The payload carries `event` and `deployment` and nothing else yet.
pub open spec fn is_bare_payload(p: NotificationPayload, event: NotificationEvent, deployment: DeploymentInfo) -> bool {
    &&& p.event == event
    &&& p.deployment == deployment
    &&& p.policy is None
    &&& p.requires_approval is None
    &&& p.approval_url is None
    &&& p.approved_by is None
    &&& p.rejection_reason is None
    &&& p.error_message is None
    &&& p.update_request_name is None
    &&& p.ui_url is None
    &&& p.metadata is None
}

/// The title of a notification: what happened, then `namespace/name`.
pub open spec fn title_of(p: NotificationPayload) -> Seq<char> {
    title_prefix(p.event) + p.deployment.namespace@ + "/"@ + p.deployment.name@
}

/// `label` and the text, when there is one; nothing otherwise.
pub open spec fn optional_line(label: Seq<char>, o: Option<String>) -> Seq<char> {
    match o {
        Some(s) => label + s@,
        None => Seq::empty(),
    }
}

/// The description of a notification: the image change, then a line each
/// for the policy, the approver, the rejection reason and the error that
/// are present.
pub open spec fn description_of(p: NotificationPayload) -> Seq<char> {
    "Image update: `"@ + p.deployment.current_image@ + "` → `"@ + p.deployment.new_image@ + "`"@
        + optional_line("\nPolicy: "@, p.policy) + optional_line("\nApproved by: "@, p.approved_by)
        + optional_line("\nReason: "@, p.rejection_reason) + optional_line(
        "\nError: "@,
        p.error_message,
    )
}

fn push_optional_line(desc: &mut String, label: &str, o: &Option<String>)
    ensures
        final(desc)@ == old(desc)@ + optional_line(label@, *o),
{
    match o {
        Some(s) => {
            desc.append(label);
            desc.append(s.as_str());
        },
        None => {
            assert(old(desc)@ + Seq::<char>::empty() =~= old(desc)@);
        },
    }
}

impl NotificationPayload {
    /// A payload for `event` about `deployment`, stamped with the current
    /// time.
    pub fn new(event: NotificationEvent, deployment: DeploymentInfo) -> (r: Self)
        ensures
            is_bare_payload(r, event, deployment),
    {
        NotificationPayload {
            event,
            timestamp: now(),
            deployment,
            policy: None,
            requires_approval: None,
            approval_url: None,
            approved_by: None,
            rejection_reason: None,
            error_message: None,
            update_request_name: None,
            ui_url: None,
            metadata: None,
        }
    }

    pub fn with_policy(self, policy: &str) -> (r: Self)
        ensures
            r == (NotificationPayload { policy: r.policy, ..self }),
            opt_text(r.policy) == Some(policy@),
    {
        NotificationPayload { policy: Some(owned(policy)), ..self }
    }

    pub fn with_requires_approval(self, needed: bool) -> (r: Self)
        ensures
            r == (NotificationPayload { requires_approval: Some(needed), ..self }),
    {
        NotificationPayload { requires_approval: Some(needed), ..self }
    }

    pub fn with_approval_url(self, url: &str) -> (r: Self)
        ensures
            r == (NotificationPayload { approval_url: r.approval_url, ..self }),
            opt_text(r.approval_url) == Some(url@),
    {
        NotificationPayload { approval_url: Some(owned(url)), ..self }
    }

    pub fn with_approved_by(self, approver: &str) -> (r: Self)
        ensures
            r == (NotificationPayload { approved_by: r.approved_by, ..self }),
            opt_text(r.approved_by) == Some(approver@),
    {
        NotificationPayload { approved_by: Some(owned(approver)), ..self }
    }

    pub fn with_rejection_reason(self, reason: &str) -> (r: Self)
        ensures
            r == (NotificationPayload { rejection_reason: r.rejection_reason, ..self }),
            opt_text(r.rejection_reason) == Some(reason@),
    {
        NotificationPayload { rejection_reason: Some(owned(reason)), ..self }
    }

    pub fn with_error(self, error: &str) -> (r: Self)
        ensures
            r == (NotificationPayload { error_message: r.error_message, ..self }),
            opt_text(r.error_message) == Some(error@),
    {
        NotificationPayload { error_message: Some(owned(error)), ..self }
    }

    pub fn with_update_request(self, name: &str) -> (r: Self)
        ensures
            r == (NotificationPayload { update_request_name: r.update_request_name, ..self }),
            opt_text(r.update_request_name) == Some(name@),
    {
        NotificationPayload { update_request_name: Some(owned(name)), ..self }
    }

    pub fn with_metadata(self, metadata: HashMap<String, String>) -> (r: Self)
        ensures
            r == (NotificationPayload { metadata: Some(metadata), ..self }),
    {
        NotificationPayload { metadata: Some(metadata), ..self }
    }

    /// Generate a human-readable title for the notification
    pub fn title(&self) -> (r: String)
        ensures
            r@ == title_of(*self),
    {
        let mut t = owned(self.event.title_start());
        t.append(self.deployment.namespace.as_str());
        t.append("/");
        t.append(self.deployment.name.as_str());
        t
    }

    /// Generate a human-readable description for the notification
    pub fn description(&self) -> (r: String)
        ensures
            r@ == description_of(*self),
    {
        let mut desc = owned("Image update: `");
        desc.append(self.deployment.current_image.as_str());
        desc.append("` → `");
        desc.append(self.deployment.new_image.as_str());
        desc.append("`");
        push_optional_line(&mut desc, "\nPolicy: ", &self.policy);
        push_optional_line(&mut desc, "\nApproved by: ", &self.approved_by);
        push_optional_line(&mut desc, "\nReason: ", &self.rejection_reason);
        push_optional_line(&mut desc, "\nError: ", &self.error_message);
        desc
    }
}

/// Notification configuration loaded from ConfigMap/Secrets
#[derive(Debug, Clone)]
pub struct NotificationConfig {
    pub slack: SlackConfig,
    pub teams: TeamsConfig,
    pub webhook: WebhookConfig,
}

#[derive(Debug, Clone)]
pub struct SlackConfig {
    pub enabled: bool,
    pub webhook_url: Option<String>,
    pub channel: Option<String>,
    pub username: Option<String>,
    pub icon_emoji: Option<String>,
}

#[derive(Debug, Clone)]
pub struct TeamsConfig {
    pub enabled: bool,
    pub webhook_url: Option<String>,
}

#[derive(Debug, Clone)]
pub struct WebhookConfig {
    pub enabled: bool,
    pub url: Option<String>,
    pub secret: Option<String>,
    pub timeout_seconds: u64,
    pub max_retries: u32,
}

impl Default for SlackConfig {
    fn default() -> (r: Self)
        ensures
            !r.enabled,
            r.webhook_url is None,
            r.channel is None,
            r.username is None,
            r.icon_emoji is None,
    {
        SlackConfig { enabled: false, webhook_url: None, channel: None, username: None, icon_emoji: None }
    }
}

impl Default for TeamsConfig {
    fn default() -> (r: Self)
        ensures
            !r.enabled,
            r.webhook_url is None,
    {
        TeamsConfig { enabled: false, webhook_url: None }
    }
}

impl Default for WebhookConfig {
    fn default() -> (r: Self)
        ensures
            !r.enabled,
            r.url is None,
            r.secret is None,
            r.timeout_seconds == 0,
            r.max_retries == 0,
    {
        WebhookConfig { enabled: false, url: None, secret: None, timeout_seconds: 0, max_retries: 0 }
    }
}

impl Default for NotificationConfig {
    fn default() -> (r: Self)
        ensures
            !r.slack.enabled && r.slack.webhook_url is None && r.slack.channel is None
                && r.slack.username is None && r.slack.icon_emoji is None,
            !r.teams.enabled && r.teams.webhook_url is None,
            !r.webhook.enabled && r.webhook.url is None && r.webhook.secret is None,
            r.webhook.timeout_seconds == 10,
            r.webhook.max_retries == 3,
    {
        NotificationConfig {
            slack: SlackConfig::default(),
            teams: TeamsConfig::default(),
            webhook: WebhookConfig {
                enabled: false,
                url: None,
                secret: None,
                timeout_seconds: 10,
                max_retries: 3,
            },
        }
    }
}

/// Environment variable names.
pub const SLACK_ENABLED_VAR: &'static str = "SLACK_ENABLED";
pub const SLACK_WEBHOOK_URL_VAR: &'static str = "SLACK_WEBHOOK_URL";
pub const SLACK_CHANNEL_VAR: &'static str = "SLACK_CHANNEL";
pub const SLACK_USERNAME_VAR: &'static str = "SLACK_USERNAME";
pub const SLACK_ICON_EMOJI_VAR: &'static str = "SLACK_ICON_EMOJI";
pub const TEAMS_ENABLED_VAR: &'static str = "TEAMS_ENABLED";
pub const TEAMS_WEBHOOK_URL_VAR: &'static str = "TEAMS_WEBHOOK_URL";
pub const WEBHOOK_ENABLED_VAR: &'static str = "WEBHOOK_ENABLED";
pub const WEBHOOK_URL_VAR: &'static str = "WEBHOOK_URL";
pub const WEBHOOK_SECRET_VAR: &'static str = "WEBHOOK_SECRET";
pub const WEBHOOK_TIMEOUT_VAR: &'static str = "WEBHOOK_TIMEOUT";
pub const WEBHOOK_MAX_RETRIES_VAR: &'static str = "WEBHOOK_MAX_RETRIES";
pub const API_URL_VAR: &'static str = "HEADWIND_API_URL";

/// The Slack settings that the environment `env` gives.
pub open spec fn slack_from_env(c: SlackConfig, env: Map<Seq<char>, Seq<char>>) -> bool {
    &&& c.enabled == bool_or(lookup(env, SLACK_ENABLED_VAR@), false)
    &&& opt_text(c.webhook_url) == lookup(env, SLACK_WEBHOOK_URL_VAR@)
    &&& opt_text(c.channel) == lookup(env, SLACK_CHANNEL_VAR@)
    &&& opt_text(c.username) == lookup(env, SLACK_USERNAME_VAR@)
    &&& opt_text(c.icon_emoji) == lookup(env, SLACK_ICON_EMOJI_VAR@)
}

/// The Teams settings that the environment `env` gives.
pub open spec fn teams_from_env(c: TeamsConfig, env: Map<Seq<char>, Seq<char>>) -> bool {
    &&& c.enabled == bool_or(lookup(env, TEAMS_ENABLED_VAR@), false)
    &&& opt_text(c.webhook_url) == lookup(env, TEAMS_WEBHOOK_URL_VAR@)
}

/// The webhook settings that the environment `env` gives (timeout 10
/// seconds and 3 retries unless set).
pub open spec fn webhook_from_env(c: WebhookConfig, env: Map<Seq<char>, Seq<char>>) -> bool {
    &&& c.enabled == bool_or(lookup(env, WEBHOOK_ENABLED_VAR@), false)
    &&& opt_text(c.url) == lookup(env, WEBHOOK_URL_VAR@)
    &&& opt_text(c.secret) == lookup(env, WEBHOOK_SECRET_VAR@)
    &&& c.timeout_seconds == u64_setting(env, WEBHOOK_TIMEOUT_VAR@, 10)
    &&& c.max_retries == u32_setting(env, WEBHOOK_MAX_RETRIES_VAR@, 3)
}

fn env_var(env: &BTreeMap<String, String>, name: &str) -> (r: Option<String>)
    ensures
        opt_text(r) == lookup(env.deep_view(), name@),
{
    match map_get(env, name) {
        Some(v) => Some(v.clone()),
        None => None,
    }
}

fn env_flag(env: &BTreeMap<String, String>, name: &str) -> (r: bool)
    ensures
        r == bool_or(lookup(env.deep_view(), name@), false),
{
    match map_get(env, name) {
        Some(v) => match parse_bool(v.as_str()) {
            Some(b) => b,
            None => false,
        },
        None => false,
    }
}

impl SlackConfig {
    /// Load Slack configuration from the environment variables `env`
    pub fn from_env(env: &BTreeMap<String, String>) -> (r: Self)
        ensures
            slack_from_env(r, env.deep_view()),
    {
        SlackConfig {
            enabled: env_flag(env, SLACK_ENABLED_VAR),
            webhook_url: env_var(env, SLACK_WEBHOOK_URL_VAR),
            channel: env_var(env, SLACK_CHANNEL_VAR),
            username: env_var(env, SLACK_USERNAME_VAR),
            icon_emoji: env_var(env, SLACK_ICON_EMOJI_VAR),
        }
    }
}

impl TeamsConfig {
    /// Load Teams configuration from the environment variables `env`
    pub fn from_env(env: &BTreeMap<String, String>) -> (r: Self)
        ensures
            teams_from_env(r, env.deep_view()),
    {
        TeamsConfig {
            enabled: env_flag(env, TEAMS_ENABLED_VAR),
            webhook_url: env_var(env, TEAMS_WEBHOOK_URL_VAR),
        }
    }
}

impl WebhookConfig {
    /// Load webhook configuration from the environment variables `env`
    pub fn from_env(env: &BTreeMap<String, String>) -> (r: Self)
        ensures
            webhook_from_env(r, env.deep_view()),
    {
        let timeout_seconds = match map_get(env, WEBHOOK_TIMEOUT_VAR) {
            Some(v) => match parse_u64(v.as_str()) {
                Some(n) => n,
                None => 10,
            },
            None => 10,
        };
        let max_retries = match map_get(env, WEBHOOK_MAX_RETRIES_VAR) {
            Some(v) => match parse_u32(v.as_str()) {
                Some(n) => n,
                None => 3,
            },
            None => 3,
        };
        WebhookConfig {
            enabled: env_flag(env, WEBHOOK_ENABLED_VAR),
            url: env_var(env, WEBHOOK_URL_VAR),
            secret: env_var(env, WEBHOOK_SECRET_VAR),
            timeout_seconds,
            max_retries,
        }
    }
}

/// The notification settings of a ConfigMap's `notifications.yaml`.
#[derive(Debug, Clone)]
pub struct ConfigMapNotificationConfig {
    pub slack: Option<ConfigMapSlackConfig>,
    pub teams: Option<ConfigMapTeamsConfig>,
    pub webhook: Option<ConfigMapWebhookConfig>,
}

#[derive(Debug, Clone)]
pub struct ConfigMapSlackConfig {
    pub enabled: Option<bool>,
    pub webhook_url: Option<String>,
    pub channel: Option<String>,
    pub username: Option<String>,
    pub icon_emoji: Option<String>,
}

#[derive(Debug, Clone)]
pub struct ConfigMapTeamsConfig {
    pub enabled: Option<bool>,
    pub webhook_url: Option<String>,
}

#[derive(Debug, Clone)]
pub struct ConfigMapWebhookConfig {
    pub enabled: Option<bool>,
    pub url: Option<String>,
    pub secret: Option<String>,
    pub timeout_seconds: Option<u64>,
    pub max_retries: Option<u32>,
}

/// `a` when present, else `b`.
pub open spec fn either(a: Option<Seq<char>>, b: Option<Seq<char>>) -> Option<Seq<char>> {
    match a {
        Some(v) => Some(v),
        None => b,
    }
}

/// The Slack settings of a ConfigMap section, each absent value (or the
/// whole section) taken from the environment `env`.
pub open spec fn slack_from_section(
    r: SlackConfig,
    section: Option<ConfigMapSlackConfig>,
    env: Map<Seq<char>, Seq<char>>,
) -> bool {
    match section {
        Some(cm) => {
            &&& r.enabled == match cm.enabled {
                Some(b) => b,
                None => bool_or(lookup(env, SLACK_ENABLED_VAR@), false),
            }
            &&& opt_text(r.webhook_url) == either(
                opt_text(cm.webhook_url),
                lookup(env, SLACK_WEBHOOK_URL_VAR@),
            )
            &&& opt_text(r.channel) == either(opt_text(cm.channel), lookup(env, SLACK_CHANNEL_VAR@))
            &&& opt_text(r.username) == either(opt_text(cm.username), lookup(env, SLACK_USERNAME_VAR@))
            &&& opt_text(r.icon_emoji) == either(
                opt_text(cm.icon_emoji),
                lookup(env, SLACK_ICON_EMOJI_VAR@),
            )
        },
        None => slack_from_env(r, env),
    }
}

/// The Teams settings of a ConfigMap section, each absent value (or the
/// whole section) taken from the environment `env`.
pub open spec fn teams_from_section(
    r: TeamsConfig,
    section: Option<ConfigMapTeamsConfig>,
    env: Map<Seq<char>, Seq<char>>,
) -> bool {
    match section {
        Some(cm) => {
            &&& r.enabled == match cm.enabled {
                Some(b) => b,
                None => bool_or(lookup(env, TEAMS_ENABLED_VAR@), false),
            }
            &&& opt_text(r.webhook_url) == either(
                opt_text(cm.webhook_url),
                lookup(env, TEAMS_WEBHOOK_URL_VAR@),
            )
        },
        None => teams_from_env(r, env),
    }
}

/// The webhook settings of a ConfigMap section, each absent value (or the
/// whole section) taken from the environment `env`.
pub open spec fn webhook_from_section(
    r: WebhookConfig,
    section: Option<ConfigMapWebhookConfig>,
    env: Map<Seq<char>, Seq<char>>,
) -> bool {
    match section {
        Some(cm) => {
            &&& r.enabled == match cm.enabled {
                Some(b) => b,
                None => bool_or(lookup(env, WEBHOOK_ENABLED_VAR@), false),
            }
            &&& opt_text(r.url) == either(opt_text(cm.url), lookup(env, WEBHOOK_URL_VAR@))
            &&& opt_text(r.secret) == either(opt_text(cm.secret), lookup(env, WEBHOOK_SECRET_VAR@))
            &&& r.timeout_seconds == match cm.timeout_seconds {
                Some(n) => n,
                None => u64_setting(env, WEBHOOK_TIMEOUT_VAR@, 10),
            }
            &&& r.max_retries == match cm.max_retries {
                Some(n) => n,
                None => u32_setting(env, WEBHOOK_MAX_RETRIES_VAR@, 3),
            }
        },
        None => webhook_from_env(r, env),
    }
}

fn or_env(value: &Option<String>, env: &BTreeMap<String, String>, name: &str) -> (r: Option<String>)
    ensures
        opt_text(r) == either(opt_text(*value), lookup(env.deep_view(), name@)),
{
    match value {
        Some(v) => Some(v.clone()),
        None => env_var(env, name),
    }
}

impl SlackConfig {
    /// Slack settings from a ConfigMap section; each absent value (or the
    /// whole section) falls back to the environment.
    pub fn from_configmap_config(cm_config: &Option<ConfigMapSlackConfig>, env: &BTreeMap<String, String>) -> (r:
        Self)
        ensures
            slack_from_section(r, *cm_config, env.deep_view()),
    {
        match cm_config {
            Some(cm) => SlackConfig {
                enabled: match cm.enabled {
                    Some(b) => b,
                    None => env_flag(env, SLACK_ENABLED_VAR),
                },
                webhook_url: or_env(&cm.webhook_url, env, SLACK_WEBHOOK_URL_VAR),
                channel: or_env(&cm.channel, env, SLACK_CHANNEL_VAR),
                username: or_env(&cm.username, env, SLACK_USERNAME_VAR),
                icon_emoji: or_env(&cm.icon_emoji, env, SLACK_ICON_EMOJI_VAR),
            },
            None => SlackConfig::from_env(env),
        }
    }
}

impl TeamsConfig {
    /// Teams settings from a ConfigMap section; each absent value (or the
    /// whole section) falls back to the environment.
    pub fn from_configmap_config(cm_config: &Option<ConfigMapTeamsConfig>, env: &BTreeMap<String, String>) -> (r:
        Self)
        ensures
            teams_from_section(r, *cm_config, env.deep_view()),
    {
        match cm_config {
            Some(cm) => TeamsConfig {
                enabled: match cm.enabled {
                    Some(b) => b,
                    None => env_flag(env, TEAMS_ENABLED_VAR),
                },
                webhook_url: or_env(&cm.webhook_url, env, TEAMS_WEBHOOK_URL_VAR),
            },
            None => TeamsConfig::from_env(env),
        }
    }
}

impl WebhookConfig {
    /// Webhook settings from a ConfigMap section; each absent value (or the
    /// whole section) falls back to the environment.
    pub fn from_configmap_config(cm_config: &Option<ConfigMapWebhookConfig>, env: &BTreeMap<String, String>) -> (r:
        Self)
        ensures
            webhook_from_section(r, *cm_config, env.deep_view()),
    {
        match cm_config {
            Some(cm) => {
                let from_env = WebhookConfig::from_env(env);
                WebhookConfig {
                    enabled: match cm.enabled {
                        Some(b) => b,
                        None => from_env.enabled,
                    },
                    url: or_env(&cm.url, env, WEBHOOK_URL_VAR),
                    secret: or_env(&cm.secret, env, WEBHOOK_SECRET_VAR),
                    timeout_seconds: match cm.timeout_seconds {
                        Some(n) => n,
                        None => from_env.timeout_seconds,
                    },
                    max_retries: match cm.max_retries {
                        Some(n) => n,
                        None => from_env.max_retries,
                    },
                }
            },
            None => WebhookConfig::from_env(env),
        }
    }
}

impl NotificationConfig {
    /// Load configuration from the environment variables `env`
    pub fn from_env(env: &BTreeMap<String, String>) -> (r: Self)
        ensures
            slack_from_env(r.slack, env.deep_view()),
            teams_from_env(r.teams, env.deep_view()),
            webhook_from_env(r.webhook, env.deep_view()),
    {
        NotificationConfig {
            slack: SlackConfig::from_env(env),
            teams: TeamsConfig::from_env(env),
            webhook: WebhookConfig::from_env(env),
        }
    }

    /// The settings of a ConfigMap's `notifications.yaml`, with the
    /// environment `env` filling in what it leaves out.
    pub fn from_configmap_config(cm_config: &ConfigMapNotificationConfig, env: &BTreeMap<String, String>) -> (r:
        Self)
        ensures
            slack_from_section(r.slack, cm_config.slack, env.deep_view()),
            teams_from_section(r.teams, cm_config.teams, env.deep_view()),
            webhook_from_section(r.webhook, cm_config.webhook, env.deep_view()),
    {
        NotificationConfig {
            slack: SlackConfig::from_configmap_config(&cm_config.slack, env),
            teams: TeamsConfig::from_configmap_config(&cm_config.teams, env),
            webhook: WebhookConfig::from_configmap_config(&cm_config.webhook, env),
        }
    }

    /// Check if any notification channels are enabled
    pub fn has_enabled_channels(&self) -> (r: bool)
        ensures
            r == (self.slack.enabled || self.teams.enabled || self.webhook.enabled),
    {
        self.slack.enabled || self.teams.enabled || self.webhook.enabled
    }
}

/// A channel that notifications go out through, with its settings.
#[derive(Debug, Clone)]
pub enum NotifierChannel {
    Slack(SlackConfig),
    Teams(TeamsConfig),
    Webhook(WebhookConfig),
}

/// A channel sends only when it is enabled and has an address.
pub open spec fn channel_enabled(c: NotifierChannel) -> bool {
    match c {
        NotifierChannel::Slack(s) => s.enabled && s.webhook_url is Some,
        NotifierChannel::Teams(t) => t.enabled && t.webhook_url is Some,
        NotifierChannel::Webhook(w) => w.enabled && w.url is Some,
    }
}

/// The name of a channel, as logged and counted.
pub open spec fn channel_name(c: NotifierChannel) -> Seq<char> {
    match c {
        NotifierChannel::Slack(_) => "Slack"@,
        NotifierChannel::Teams(_) => "Microsoft Teams"@,
        NotifierChannel::Webhook(_) => "Webhook"@,
    }
}

/// Why a test notification cannot go out on a channel, as the settings
/// page reports it: the channel is off, or it has no address; `None` when
/// it can be sent.
pub open spec fn test_setup_error(c: NotifierChannel) -> Option<Seq<char>> {
    match c {
        NotifierChannel::Slack(s) => if !s.enabled {
            Some("Slack not configured: Slack notifier is disabled"@)
        } else if s.webhook_url is None {
            Some("Slack not configured: Slack webhook URL is required"@)
        } else {
            None
        },
        NotifierChannel::Teams(t) => if !t.enabled {
            Some("Teams not configured: Teams notifier is disabled"@)
        } else if t.webhook_url is None {
            Some("Teams not configured: Teams webhook URL is required"@)
        } else {
            None
        },
        NotifierChannel::Webhook(w) => if !w.enabled {
            Some("Webhook not configured: Webhook notifier is disabled"@)
        } else if w.url is None {
            Some("Webhook not configured: Webhook URL is required"@)
        } else {
            None
        },
    }
}

/// The word for a channel in the replies to a test notification.
pub open spec fn test_label_of(c: NotifierChannel) -> Seq<char> {
    match c {
        NotifierChannel::Slack(_) => "Slack"@,
        NotifierChannel::Teams(_) => "Teams"@,
        NotifierChannel::Webhook(_) => "webhook"@,
    }
}

impl NotifierChannel {
    /// Why a test notification cannot be sent on this channel, if it
    /// cannot.
    pub fn test_setup_error(&self) -> (r: Option<String>)
        ensures
            opt_text(r) == test_setup_error(*self),
            r is None <==> channel_enabled(*self),
    {
        match self {
            NotifierChannel::Slack(s) => if !s.enabled {
                Some(owned("Slack not configured: Slack notifier is disabled"))
            } else if s.webhook_url.is_none() {
                Some(owned("Slack not configured: Slack webhook URL is required"))
            } else {
                None
            },
            NotifierChannel::Teams(t) => if !t.enabled {
                Some(owned("Teams not configured: Teams notifier is disabled"))
            } else if t.webhook_url.is_none() {
                Some(owned("Teams not configured: Teams webhook URL is required"))
            } else {
                None
            },
            NotifierChannel::Webhook(w) => if !w.enabled {
                Some(owned("Webhook not configured: Webhook notifier is disabled"))
            } else if w.url.is_none() {
                Some(owned("Webhook not configured: Webhook URL is required"))
            } else {
                None
            },
        }
    }

    /// The word for this channel in the replies to a test notification.
    pub fn test_label(&self) -> (r: &'static str)
        ensures
            r@ == test_label_of(*self),
    {
        match self {
            NotifierChannel::Slack(_) => "Slack",
            NotifierChannel::Teams(_) => "Teams",
            NotifierChannel::Webhook(_) => "webhook",
        }
    }

    pub fn is_enabled(&self) -> (r: bool)
        ensures
            r == channel_enabled(*self),
    {
        match self {
            NotifierChannel::Slack(s) => s.is_enabled(),
            NotifierChannel::Teams(t) => t.is_enabled(),
            NotifierChannel::Webhook(w) => w.is_enabled(),
        }
    }

    pub fn name(&self) -> (r: &'static str)
        ensures
            r@ == channel_name(*self),
    {
        match self {
            NotifierChannel::Slack(_) => "Slack",
            NotifierChannel::Teams(_) => "Microsoft Teams",
            NotifierChannel::Webhook(_) => "Webhook",
        }
    }
}

/// The channels made from `config`: Slack, Teams and the webhook, in that
/// order, each when it is enabled and has its address.
pub open spec fn channels_of(config: NotificationConfig) -> Seq<NotifierChannel> {
    let s = if config.slack.enabled && config.slack.webhook_url is Some {
        seq![NotifierChannel::Slack(config.slack)]
    } else {
        Seq::empty()
    };
    let t = if config.teams.enabled && config.teams.webhook_url is Some {
        seq![NotifierChannel::Teams(config.teams)]
    } else {
        Seq::empty()
    };
    let w = if config.webhook.enabled && config.webhook.url is Some {
        seq![NotifierChannel::Webhook(config.webhook)]
    } else {
        Seq::empty()
    };
    s + t + w
}

/// How many of the channels `cs` are enabled.
pub open spec fn enabled_in(cs: Seq<NotifierChannel>) -> nat
    decreases cs.len(),
{
    if cs.len() == 0 {
        0
    } else {
        enabled_in(cs.drop_last()) + if channel_enabled(cs.last()) {
            1nat
        } else {
            0nat
        }
    }
}

/// The channels that notifications are sent through.
pub struct NotificationManager {
    notifiers: Vec<NotifierChannel>,
}

impl NotificationManager {
    /// The channels, in the order they are sent to.
    pub closed spec fn channels(&self) -> Seq<NotifierChannel> {
        self.notifiers@
    }

    /// A manager with a channel for each of Slack, Teams and the webhook
    /// that `config` enables and gives an address.
    pub fn new(config: NotificationConfig) -> (r: Self)
        ensures
            r.channels() == channels_of(config),
    {
        let ghost c = config;
        let NotificationConfig { slack, teams, webhook } = config;
        let mut notifiers: Vec<NotifierChannel> = Vec::new();
        if slack.validate().is_ok() {
            notifiers.push(NotifierChannel::Slack(slack));
        }
        let ghost after_slack = notifiers@;
        if teams.validate().is_ok() {
            notifiers.push(NotifierChannel::Teams(teams));
        }
        let ghost after_teams = notifiers@;
        if webhook.validate().is_ok() {
            notifiers.push(NotifierChannel::Webhook(webhook));
        }
        proof {
            let s = if c.slack.enabled && c.slack.webhook_url is Some {
                seq![NotifierChannel::Slack(c.slack)]
            } else {
                Seq::empty()
            };
            let t = if c.teams.enabled && c.teams.webhook_url is Some {
                seq![NotifierChannel::Teams(c.teams)]
            } else {
                Seq::empty()
            };
            assert(after_slack =~= s);
            assert(after_teams =~= s + t);
            assert(notifiers@ =~= channels_of(c));
        }
        NotificationManager { notifiers }
    }

    /// The channels, in the order they are sent to.
    pub fn notifiers(&self) -> (r: &[NotifierChannel])
        ensures
            r@ == self.channels(),
    {
        self.notifiers.as_slice()
    }

    /// Check if any notifiers are enabled
    pub fn has_enabled_notifiers(&self) -> (r: bool)
        ensures
            r == (enabled_in(self.channels()) > 0),
    {
        self.enabled_count() > 0
    }

    /// Get count of enabled notifiers
    pub fn enabled_count(&self) -> (r: usize)
        ensures
            r == enabled_in(self.channels()),
    {
        let mut n: usize = 0;
        let mut i: usize = 0;
        assert(self.notifiers@.take(0) =~= Seq::<NotifierChannel>::empty());
        while i < self.notifiers.len()
            invariant
                i <= self.notifiers@.len(),
                n == enabled_in(self.notifiers@.take(i as int)),
                n <= i,
            decreases self.notifiers@.len() - i,
        {
            assert(self.notifiers@.take(i + 1).drop_last() =~= self.notifiers@.take(i as int));
            if self.notifiers[i].is_enabled() {
                n = n + 1;
            }
            i = i + 1;
        }
        assert(self.notifiers@.take(i as int) =~= self.notifiers@);
        n
    }
}

/// Every channel a manager makes is enabled, so it counts them all.
pub proof fn lemma_made_channels_are_enabled(config: NotificationConfig)
    ensures
        forall|i: int| 0 <= i < channels_of(config).len() ==> channel_enabled(#[trigger] channels_of(config)[i]),
        enabled_in(channels_of(config)) == channels_of(config).len(),
        channels_of(config).len() > 0 <==> (config.slack.enabled && config.slack.webhook_url is Some)
            || (config.teams.enabled && config.teams.webhook_url is Some)
            || (config.webhook.enabled && config.webhook.url is Some),
{
    let cs = channels_of(config);
    assert forall|i: int| 0 <= i < cs.len() implies channel_enabled(#[trigger] cs[i]) by {}
    lemma_enabled_in_all(cs);
}

proof fn lemma_enabled_in_all(cs: Seq<NotifierChannel>)
    requires
        forall|i: int| 0 <= i < cs.len() ==> channel_enabled(#[trigger] cs[i]),
    ensures
        enabled_in(cs) == cs.len(),
    decreases cs.len(),
{
    if cs.len() > 0 {
        assert forall|i: int| 0 <= i < cs.drop_last().len() implies channel_enabled(#[trigger] cs.drop_last()[i]) by {
            assert(cs.drop_last()[i] == cs[i]);
        }
        lemma_enabled_in_all(cs.drop_last());
        assert(channel_enabled(cs[cs.len() - 1]));
    }
}

/// `p` is the notification of `event` about `deployment` with exactly the
/// given optional fields set (no dashboard address, no metadata).
pub open spec fn payload_has(
    p: NotificationPayload,
    event: NotificationEvent,
    deployment: DeploymentInfo,
    policy: Option<Seq<char>>,
    requires_approval: Option<bool>,
    approval_url: Option<Seq<char>>,
    approved_by: Option<Seq<char>>,
    rejection_reason: Option<Seq<char>>,
    error_message: Option<Seq<char>>,
    update_request_name: Option<Seq<char>>,
) -> bool {
    &&& p.event == event
    &&& p.deployment == deployment
    &&& opt_text(p.policy) == policy
    &&& p.requires_approval == requires_approval
    &&& opt_text(p.approval_url) == approval_url
    &&& opt_text(p.approved_by) == approved_by
    &&& opt_text(p.rejection_reason) == rejection_reason
    &&& opt_text(p.error_message) == error_message
    &&& opt_text(p.update_request_name) == update_request_name
    &&& p.ui_url is None
    &&& p.metadata is None
}

/// Where the API listens when `HEADWIND_API_URL` is not set.
pub const DEFAULT_API_URL: &'static str = "http://localhost:8081";

/// The address at which an update request is approved.
pub open spec fn approval_url_of(base: Seq<char>, namespace: Seq<char>, name: Seq<char>) -> Seq<char> {
    base + "/api/v1/updates/"@ + namespace + "/"@ + name + "/approve"@
}

/// The approval address of the update request `name` in `namespace`,
/// under the API address `api_url` (the local default when unset).
pub fn approval_url(api_url: Option<&str>, namespace: &str, name: &str) -> (r: String)
    ensures
        r@ == approval_url_of(
            match api_url {
                Some(u) => u@,
                None => DEFAULT_API_URL@,
            },
            namespace@,
            name@,
        ),
{
    let mut u = match api_url {
        Some(b) => owned(b),
        None => owned(DEFAULT_API_URL),
    };
    u.append("/api/v1/updates/");
    u.append(namespace);
    u.append("/");
    u.append(name);
    u.append("/approve");
    u
}

/// The notification that a new version was detected.
pub fn notify_update_detected(deployment: DeploymentInfo) -> (r: NotificationPayload)
    ensures
        payload_has(r, NotificationEvent::UpdateDetected, deployment, None, None, None, None, None, None, None),
{
    NotificationPayload::new(NotificationEvent::UpdateDetected, deployment)
}

/// The notification that an update request was created; when it needs
/// approval it carries the approval address under `api_url` (the value of
/// `HEADWIND_API_URL`, if set).
pub fn notify_update_request_created(
    deployment: DeploymentInfo,
    policy: &str,
    requires_approval: bool,
    update_request_name: &str,
    api_url: Option<&str>,
) -> (r: NotificationPayload)
    ensures
        payload_has(
            r,
            NotificationEvent::UpdateRequestCreated,
            deployment,
            Some(policy@),
            Some(requires_approval),
            if requires_approval {
                Some(
                    approval_url_of(
                        match api_url {
                            Some(u) => u@,
                            None => DEFAULT_API_URL@,
                        },
                        deployment.namespace@,
                        update_request_name@,
                    ),
                )
            } else {
                None
            },
            None,
            None,
            None,
            Some(update_request_name@),
        ),
{
    let ns = deployment.namespace.clone();
    let payload = NotificationPayload::new(NotificationEvent::UpdateRequestCreated, deployment)
        .with_policy(policy).with_requires_approval(requires_approval).with_update_request(
        update_request_name,
    );
    if requires_approval {
        let url = approval_url(api_url, ns.as_str(), update_request_name);
        payload.with_approval_url(url.as_str())
    } else {
        payload
    }
}

/// The notification that an update was approved by `approved_by`.
pub fn notify_update_approved(deployment: DeploymentInfo, approved_by: &str, update_request_name: &str) -> (r:
    NotificationPayload)
    ensures
        payload_has(
            r,
            NotificationEvent::UpdateApproved,
            deployment,
            None,
            None,
            None,
            Some(approved_by@),
            None,
            None,
            Some(update_request_name@),
        ),
{
    NotificationPayload::new(NotificationEvent::UpdateApproved, deployment).with_approved_by(
        approved_by,
    ).with_update_request(update_request_name)
}

/// The notification that an update was rejected by `rejected_by` for
/// `reason`.
pub fn notify_update_rejected(
    deployment: DeploymentInfo,
    rejected_by: &str,
    reason: &str,
    update_request_name: &str,
) -> (r: NotificationPayload)
    ensures
        payload_has(
            r,
            NotificationEvent::UpdateRejected,
            deployment,
            None,
            None,
            None,
            Some(rejected_by@),
            Some(reason@),
            None,
            Some(update_request_name@),
        ),
{
    NotificationPayload::new(NotificationEvent::UpdateRejected, deployment).with_approved_by(
        rejected_by,
    ).with_rejection_reason(reason).with_update_request(update_request_name)
}

/// The notification that an update was applied.
pub fn notify_update_completed(deployment: DeploymentInfo) -> (r: NotificationPayload)
    ensures
        payload_has(r, NotificationEvent::UpdateCompleted, deployment, None, None, None, None, None, None, None),
{
    NotificationPayload::new(NotificationEvent::UpdateCompleted, deployment)
}

/// The notification that an update failed with `error`.
pub fn notify_update_failed(deployment: DeploymentInfo, error: &str) -> (r: NotificationPayload)
    ensures
        payload_has(
            r,
            NotificationEvent::UpdateFailed,
            deployment,
            None,
            None,
            None,
            None,
            None,
            Some(error@),
            None,
        ),
{
    NotificationPayload::new(NotificationEvent::UpdateFailed, deployment).with_error(error)
}

/// The notification that a rollback started, for `reason`.
pub fn notify_rollback_triggered(deployment: DeploymentInfo, reason: &str) -> (r: NotificationPayload)
    ensures
        payload_has(
            r,
            NotificationEvent::RollbackTriggered,
            deployment,
            None,
            None,
            None,
            None,
            None,
            Some(reason@),
            None,
        ),
{
    NotificationPayload::new(NotificationEvent::RollbackTriggered, deployment).with_error(reason)
}

/// The notification that a rollback was applied.
pub fn notify_rollback_completed(deployment: DeploymentInfo) -> (r: NotificationPayload)
    ensures
        payload_has(r, NotificationEvent::RollbackCompleted, deployment, None, None, None, None, None, None, None),
{
    NotificationPayload::new(NotificationEvent::RollbackCompleted, deployment)
}

/// The notification that a rollback failed with `error`.
pub fn notify_rollback_failed(deployment: DeploymentInfo, error: &str) -> (r: NotificationPayload)
    ensures
        payload_has(
            r,
            NotificationEvent::RollbackFailed,
            deployment,
            None,
            None,
            None,
            None,
            None,
            Some(error@),
            None,
        ),
{
    NotificationPayload::new(NotificationEvent::RollbackFailed, deployment).with_error(error)
}

} // verus!
