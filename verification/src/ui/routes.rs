//! The data behind the dashboard routes: rows built from update requests,
//! their grouping, the time windows of the metric charts, and the settings
//! a test notification is sent with.

use super::templates::UpdateRequestView;
use crate::clock::{format_utc, utc_text, Instant};
use crate::config::{opt_text, HeadwindConfig};
use crate::models::crd::{UpdatePhase, UpdatePolicyType, UpdateRequestSpec, UpdateRequestStatus};
use crate::notifications::{
    is_bare_payload, DeploymentInfo, NotificationEvent, NotificationPayload, NotifierChannel, SlackConfig,
    TeamsConfig, WebhookConfig,
};
use crate::approval::{phase_label, phase_name};
use crate::text::{last_index_of, owned, rfind_char, slice, str_eq};
use vstd::prelude::*;

verus! {

/// The text after the last `:` of an image (all of it without a `:`).
pub open spec fn version_part(image: Seq<char>) -> Seq<char> {
    let i = last_index_of(image, ':');
    if i < 0 {
        image
    } else {
        image.skip(i + 1)
    }
}

fn after_last_colon(image: &str) -> (r: String)
    ensures
        r@ == version_part(image@),
{
    match rfind_char(image, ':') {
        Some(i) => {
            proof {
                crate::text::lemma_last_index_bounds(image@, ':');
            }
            let n = image.unicode_len();
            let v = slice(image, i + 1, n);
            assert(v@ =~= image@.skip(i + 1));
            owned(v)
        },
        None => owned(image),
    }
}

/// Extract version tags from image strings
pub fn extract_versions(current_image: &str, new_image: &str) -> (r: (String, String))
    ensures
        r.0@ == version_part(current_image@),
        r.1@ == version_part(new_image@),
{
    (after_last_colon(current_image), after_last_colon(new_image))
}

/// The name of a recorded policy, as `{:?}` writes it.
pub open spec fn policy_type_name(p: UpdatePolicyType) -> Seq<char> {
    match p {
        UpdatePolicyType::Major => "Major"@,
        UpdatePolicyType::Minor => "Minor"@,
        UpdatePolicyType::Patch => "Patch"@,
        UpdatePolicyType::Glob => "Glob"@,
        UpdatePolicyType::Never => "None"@,
    }
}

fn policy_type_label(p: UpdatePolicyType) -> (r: &'static str)
    ensures
        r@ == policy_type_name(p),
{
    match p {
        UpdatePolicyType::Major => "Major",
        UpdatePolicyType::Minor => "Minor",
        UpdatePolicyType::Patch => "Patch",
        UpdatePolicyType::Glob => "Glob",
        UpdatePolicyType::Never => "None",
    }
}

fn copy_text(o: &Option<String>) -> (r: Option<String>)
    ensures
        r == *o,
{
    match o {
        Some(s) => Some(s.clone()),
        None => None,
    }
}

/// The dashboard row of an update request named `name` in `namespace`
/// (empty when unset), created at `created`: its target, images and
/// versions, recorded policy, phase (pending without a status), creation
/// time in UTC, and who approved or rejected it and why.
pub fn convert_to_view(
    name: Option<&str>,
    namespace: Option<&str>,
    created: Option<Instant>,
    spec: &UpdateRequestSpec,
    status: &Option<UpdateRequestStatus>,
) -> (r: UpdateRequestView)
    ensures
        r.name@ == match name {
            Some(n) => n@,
            None => Seq::<char>::empty(),
        },
        r.namespace@ == match namespace {
            Some(n) => n@,
            None => Seq::<char>::empty(),
        },
        r.resource_kind@ == spec.target_ref.kind@,
        r.resource_name@ == spec.target_ref.name@,
        r.current_image@ == spec.current_image@,
        r.new_image@ == spec.new_image@,
        r.current_version@ == version_part(spec.current_image@),
        r.new_version@ == version_part(spec.new_image@),
        r.policy@ == policy_type_name(spec.policy),
        r.status@ == match status {
            Some(s) => phase_name(s.phase),
            None => "Pending"@,
        },
        r.created_at@ == match created {
            Some(t) => utc_text(t),
            None => Seq::<char>::empty(),
        },
        r.approved_by == match status {
            Some(s) => s.approved_by,
            None => None,
        },
        r.rejected_by == match status {
            Some(s) => s.rejected_by,
            None => None,
        },
        r.rejection_reason == match status {
            Some(s) => s.message,
            None => None,
        },
{
    let (current_version, new_version) = extract_versions(
        spec.current_image.as_str(),
        spec.new_image.as_str(),
    );
    UpdateRequestView {
        name: match name {
            Some(n) => owned(n),
            None => String::new(),
        },
        namespace: match namespace {
            Some(n) => owned(n),
            None => String::new(),
        },
        resource_kind: spec.target_ref.kind.clone(),
        resource_name: spec.target_ref.name.clone(),
        current_image: spec.current_image.clone(),
        new_image: spec.new_image.clone(),
        current_version,
        new_version,
        policy: owned(policy_type_label(spec.policy)),
        status: match status {
            Some(s) => owned(phase_label(s.phase)),
            None => owned("Pending"),
        },
        created_at: match created {
            Some(t) => format_utc(t),
            None => String::new(),
        },
        approved_by: match status {
            Some(s) => copy_text(&s.approved_by),
            None => None,
        },
        rejected_by: match status {
            Some(s) => copy_text(&s.rejected_by),
            None => None,
        },
        rejection_reason: match status {
            Some(s) => copy_text(&s.message),
            None => None,
        },
    }
}

/// A row counts as processed when its status is completed, rejected or
/// failed; every other row is pending.
pub open spec fn is_processed(status: Seq<char>) -> bool {
    status == "Completed"@ || status == "Rejected"@ || status == "Failed"@
}

/// The rows of `rows` that are (or are not) processed, in order.
pub open spec fn rows_where(rows: Seq<UpdateRequestView>, processed: bool) -> Seq<UpdateRequestView>
    decreases rows.len(),
{
    if rows.len() == 0 {
        Seq::empty()
    } else {
        let p = rows_where(rows.drop_last(), processed);
        if is_processed(rows.last().status@) == processed {
            p.push(rows.last())
        } else {
            p
        }
    }
}

/// Splits the dashboard rows into pending and processed ones, each in the
/// order given.
pub fn split_by_status(rows: Vec<UpdateRequestView>) -> (r: (Vec<UpdateRequestView>, Vec<UpdateRequestView>))
    ensures
        r.0@ == rows_where(rows@, false),
        r.1@ == rows_where(rows@, true),
{
    let mut pending: Vec<UpdateRequestView> = Vec::new();
    let mut completed: Vec<UpdateRequestView> = Vec::new();
    let ghost all = rows@;
    let mut rest = rows;
    assert(rest@ =~= all.skip(0));
    let mut i: usize = 0;
    let n = rest.len();
    while rest.len() > 0
        invariant
            n == all.len(),
            rest@.len() + i == n,
            rest@ =~= all.skip(i as int),
            pending@ == rows_where(all.take(i as int), false),
            completed@ == rows_where(all.take(i as int), true),
        decreases rest@.len(),
    {
        let row = rest.remove(0);
        assert(row == all[i as int]);
        assert(all.take(i + 1).drop_last() =~= all.take(i as int));
        assert(all.take(i + 1).last() == row);
        assert(rest@ =~= all.skip(i + 1));
        let s = row.status.as_str();
        let processed = str_eq(s, "Completed") || str_eq(s, "Rejected") || str_eq(s, "Failed");
        if processed {
            completed.push(row);
        } else {
            pending.push(row);
        }
        i = i + 1;
    }
    assert(all.take(n as int) =~= all);
    (pending, completed)
}

/// The window of a metric chart for the range `range` (six hours when
/// absent or unknown): its length in seconds and the step between points.
pub open spec fn window_of(range: Seq<char>) -> (int, Seq<char>) {
    if range == "1h"@ {
        (3_600, "1m"@)
    } else if range == "6h"@ {
        (21_600, "5m"@)
    } else if range == "24h"@ {
        (86_400, "10m"@)
    } else if range == "7d"@ {
        (604_800, "1h"@)
    } else if range == "30d"@ {
        (2_592_000, "6h"@)
    } else {
        (21_600, "5m"@)
    }
}

/// Chooses the window of a metric chart (see `window_of`; the range is
/// `6h` when none is asked for).
pub fn time_range_window(range: Option<&str>) -> (r: (i64, &'static str))
    ensures
        (r.0 as int, r.1@) == window_of(
            match range {
                Some(s) => s@,
                None => "6h"@,
            },
        ),
{
    let range = match range {
        Some(s) => s,
        None => "6h",
    };
    if str_eq(range, "1h") {
        (3_600, "1m")
    } else if str_eq(range, "6h") {
        (21_600, "5m")
    } else if str_eq(range, "24h") {
        (86_400, "10m")
    } else if str_eq(range, "7d") {
        (604_800, "1h")
    } else if str_eq(range, "30d") {
        (2_592_000, "6h")
    } else {
        (21_600, "5m")
    }
}

/// Chooses the channel of a test notification of kind `kind` from the
/// stored settings: Slack and Teams as configured, the webhook without a
/// secret, with a ten-second timeout and three retries.
pub fn test_channel(kind: &str, config: &HeadwindConfig) -> (r: Result<NotifierChannel, String>)
    ensures
        kind@ == "slack"@ ==> (r matches Ok(NotifierChannel::Slack(c)) && {
            let s = config.notifications.slack;
            c.enabled == s.enabled && c.webhook_url == s.webhook_url && c.channel == s.channel
                && c.username == s.username && c.icon_emoji == s.icon_emoji
        }),
        kind@ == "teams"@ ==> (r matches Ok(NotifierChannel::Teams(c)) && c.enabled
            == config.notifications.teams.enabled && c.webhook_url
            == config.notifications.teams.webhook_url),
        kind@ == "webhook"@ ==> (r matches Ok(NotifierChannel::Webhook(c)) && c.enabled
            == config.notifications.webhook.enabled && c.url == config.notifications.webhook.url
            && c.secret is None && c.timeout_seconds == 10 && c.max_retries == 3),
        kind@ != "slack"@ && kind@ != "teams"@ && kind@ != "webhook"@ ==> (r matches Err(m) && m@
            == "Invalid notification type. Must be 'slack', 'teams', or 'webhook'"@),
{
    proof {
        reveal_strlit("slack");
        reveal_strlit("teams");
        reveal_strlit("webhook");
        assert("slack"@[0] != "teams"@[0]);
        assert("slack"@.len() != "webhook"@.len());
        assert("teams"@.len() != "webhook"@.len());
    }
    let n = &config.notifications;
    if str_eq(kind, "slack") {
        Ok(
            NotifierChannel::Slack(
                SlackConfig {
                    enabled: n.slack.enabled,
                    webhook_url: copy_text(&n.slack.webhook_url),
                    channel: copy_text(&n.slack.channel),
                    username: copy_text(&n.slack.username),
                    icon_emoji: copy_text(&n.slack.icon_emoji),
                },
            ),
        )
    } else if str_eq(kind, "teams") {
        Ok(
            NotifierChannel::Teams(
                TeamsConfig { enabled: n.teams.enabled, webhook_url: copy_text(&n.teams.webhook_url) },
            ),
        )
    } else if str_eq(kind, "webhook") {
        Ok(
            NotifierChannel::Webhook(
                WebhookConfig {
                    enabled: n.webhook.enabled,
                    url: copy_text(&n.webhook.url),
                    secret: None,
                    timeout_seconds: 10,
                    max_retries: 3,
                },
            ),
        )
    } else {
        Err(owned("Invalid notification type. Must be 'slack', 'teams', or 'webhook'"))
    }
}

/// The notification sent as a test: an update request created for an
/// example deployment, under the minor policy and needing approval.
pub fn test_payload() -> (r: NotificationPayload)
    ensures
        r.event == NotificationEvent::UpdateRequestCreated,
        r.deployment.name@ == "test-deployment"@,
        r.deployment.namespace@ == "default"@,
        r.deployment.current_image@ == "nginx:1.25.0"@,
        r.deployment.new_image@ == "nginx:1.26.0"@,
        opt_text(r.deployment.container) == Some("nginx"@),
        opt_text(r.deployment.resource_kind) == Some("Deployment"@),
        opt_text(r.policy) == Some("minor"@),
        r.requires_approval == Some(true),
        r.approval_url is None,
        r.approved_by is None,
        r.rejection_reason is None,
        r.error_message is None,
        r.update_request_name is None,
{
    let deployment = DeploymentInfo {
        name: owned("test-deployment"),
        namespace: owned("default"),
        current_image: owned("nginx:1.25.0"),
        new_image: owned("nginx:1.26.0"),
        container: Some(owned("nginx")),
        resource_kind: Some(owned("Deployment")),
    };
    NotificationPayload::new(NotificationEvent::UpdateRequestCreated, deployment).with_policy(
        "minor",
    ).with_requires_approval(true)
}

} // verus!
