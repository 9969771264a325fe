//! Slack messages in Block Kit layout.

use super::{event_color, event_emoji, title_of, NotificationPayload, SlackConfig};
use crate::clock::{format_utc, utc_text, Instant};
use crate::config::opt_text;
use crate::parse::{i64_to_string, int_text};
use crate::text::{owned, remove_all, removed_all, str_eq};
use vstd::prelude::*;

verus! {

/// Why a notifier cannot be set up.
#[derive(Debug, Clone, Copy, PartialEq, Eq, Structural)]
pub enum NotifierSetupError {
    /// The channel is switched off
    Disabled,
    /// No address to send to
    MissingUrl,
}

impl NotifierSetupError {
    /// The message of the error, for the Slack channel.
    pub fn slack_message(&self) -> (r: &'static str)
        ensures
            *self == NotifierSetupError::Disabled ==> r@ == "Slack notifier is disabled"@,
            *self == NotifierSetupError::MissingUrl ==> r@ == "Slack webhook URL is required"@,
    {
        match self {
            NotifierSetupError::Disabled => "Slack notifier is disabled",
            NotifierSetupError::MissingUrl => "Slack webhook URL is required",
        }
    }
}

impl SlackConfig {
    /// Whether a Slack notifier can be made from these settings: it must
    /// be enabled and have a webhook address.
    pub fn validate(&self) -> (r: Result<(), NotifierSetupError>)
        ensures
            !self.enabled ==> r == Err::<(), NotifierSetupError>(NotifierSetupError::Disabled),
            self.enabled && self.webhook_url is None ==> r == Err::<(), NotifierSetupError>(
                NotifierSetupError::MissingUrl,
            ),
            self.enabled && self.webhook_url is Some ==> r is Ok,
    {
        if !self.enabled {
            return Err(NotifierSetupError::Disabled);
        }
        if self.webhook_url.is_none() {
            return Err(NotifierSetupError::MissingUrl);
        }
        Ok(())
    }

    /// A Slack notifier sends only when enabled and given an address.
    pub fn is_enabled(&self) -> (r: bool)
        ensures
            r == (self.enabled && self.webhook_url is Some),
    {
        self.enabled && self.webhook_url.is_some()
    }
}

/// One block of a Slack message.
#[derive(Debug, Clone)]
pub enum SlackBlock {
    /// A header in plain text (emoji allowed)
    Header(String),
    /// A section of markdown fields
    Section(Vec<String>),
    /// Two buttons: approve (at the first address) and view details (at the
    /// second)
    Actions(String, String),
    /// A markdown context line
    Context(String),
}

/// A Slack block with its texts as characters.
pub enum SlackBlockView {
    Header(Seq<char>),
    Section(Seq<Seq<char>>),
    Actions(Seq<char>, Seq<char>),
    Context(Seq<char>),
}

impl SlackBlock {
    pub open spec fn view(&self) -> SlackBlockView {
        match self {
            SlackBlock::Header(t) => SlackBlockView::Header(t@),
            SlackBlock::Section(fs) => SlackBlockView::Section(fs.deep_view()),
            SlackBlock::Actions(a, d) => SlackBlockView::Actions(a@, d@),
            SlackBlock::Context(t) => SlackBlockView::Context(t@),
        }
    }
}

/// A Slack message: its blocks, and one attachment with a colour and a
/// fallback text.
#[derive(Debug, Clone)]
pub struct SlackMessage {
    pub blocks: Vec<SlackBlock>,
    pub color: String,
    pub fallback: String,
    pub username: String,
    pub icon_emoji: String,
}

/// A field `label` + text when the text is present.
pub open spec fn optional_field(label: Seq<char>, o: Option<String>) -> Seq<Seq<char>> {
    match o {
        Some(s) => seq![label + s@],
        None => Seq::empty(),
    }
}

/// The fields for the policy, the approver, the rejection reason and the
/// error, for those present.
pub open spec fn extra_fields(p: NotificationPayload) -> Seq<Seq<char>> {
    optional_field("*Policy:*\n"@, p.policy) + optional_field("*Approved by:*\n"@, p.approved_by)
        + optional_field("*Rejection reason:*\n"@, p.rejection_reason) + match p.error_message {
        Some(e) => seq!["*Error:*\n```"@ + e@ + "```"@],
        None => Seq::empty(),
    }
}

/// How the kind of resource is named: `Deployment` when unknown, `Helm
/// Release` for a HelmRelease.
pub open spec fn kind_label(kind: Option<String>) -> Seq<char> {
    match kind {
        Some(k) => if k@ == "HelmRelease"@ {
            "Helm Release"@
        } else {
            k@
        },
        None => "Deployment"@,
    }
}

/// The context line: Slack's date markup for the time of the event, with
/// the UTC text as fallback.
pub open spec fn context_text(t: Instant) -> Seq<char> {
    "<!date^"@ + int_text(t.seconds as int) + "^{date_short_pretty} at {time}|"@ + utc_text(t) + ">"@
}

/// The blocks of the Slack message for `p`: a header, the resource
/// fields, the extra fields when any, the buttons when there is an
/// approval address, and the time.
pub open spec fn slack_blocks(p: NotificationPayload) -> Seq<SlackBlockView> {
    let d = p.deployment;
    let base = seq![
        SlackBlockView::Header(event_emoji(p.event) + " "@ + title_of(p)),
        SlackBlockView::Section(
            seq![
                "*Namespace:*\n"@ + d.namespace@,
                "*"@ + kind_label(d.resource_kind) + ":*\n"@ + d.name@,
                "*Current Image:*\n`"@ + d.current_image@ + "`"@,
                "*New Image:*\n`"@ + d.new_image@ + "`"@,
            ],
        ),
    ];
    let with_fields = if extra_fields(p).len() > 0 {
        base.push(SlackBlockView::Section(extra_fields(p)))
    } else {
        base
    };
    let with_actions = match p.approval_url {
        Some(u) => with_fields.push(SlackBlockView::Actions(u@, removed_all(u@, "/approve"@))),
        None => with_fields,
    };
    with_actions.push(SlackBlockView::Context(context_text(p.timestamp)))
}

fn labelled(label: &str, text: &str) -> (r: String)
    ensures
        r@ == label@ + text@,
{
    let mut r = owned(label);
    r.append(text);
    r
}

fn push_optional_field(fields: &mut Vec<String>, label: &str, o: &Option<String>)
    ensures
        final(fields).deep_view() == old(fields).deep_view() + optional_field(label@, *o),
{
    match o {
        Some(s) => {
            fields.push(labelled(label, s.as_str()));
            assert(final(fields).deep_view() =~= old(fields).deep_view() + seq![label@ + s@]);
        },
        None => {
            assert(old(fields).deep_view() + Seq::<Seq<char>>::empty() =~= old(fields).deep_view());
        },
    }
}

fn kind_text(kind: &Option<String>) -> (r: String)
    ensures
        r@ == kind_label(*kind),
{
    match kind {
        Some(k) => {
            if str_eq(k.as_str(), "HelmRelease") {
                owned("Helm Release")
            } else {
                k.clone()
            }
        },
        None => owned("Deployment"),
    }
}

fn text_or(o: &Option<String>, d: &str) -> (r: String)
    ensures
        r@ == match o {
            Some(s) => s@,
            None => d@,
        },
{
    match o {
        Some(s) => s.clone(),
        None => owned(d),
    }
}

/// Build Slack message in Block Kit format for `payload`, under the
/// display name and icon of `config` (`Headwind` and `:robot_face:` when
/// unset).
pub fn build_message(config: &SlackConfig, payload: &NotificationPayload) -> (r: SlackMessage)
    ensures
        r.blocks@.map_values(|b: SlackBlock| b@) == slack_blocks(*payload),
        r.color@ == event_color(payload.event),
        r.fallback@ == title_of(*payload),
        r.username@ == match config.username {
            Some(u) => u@,
            None => "Headwind"@,
        },
        r.icon_emoji@ == match config.icon_emoji {
            Some(i) => i@,
            None => ":robot_face:"@,
        },
{
    let d = &payload.deployment;
    let title = payload.title();
    let mut fields: Vec<String> = Vec::new();
    assert(fields.deep_view() =~= Seq::<Seq<char>>::empty());
    push_optional_field(&mut fields, "*Policy:*\n", &payload.policy);
    push_optional_field(&mut fields, "*Approved by:*\n", &payload.approved_by);
    push_optional_field(&mut fields, "*Rejection reason:*\n", &payload.rejection_reason);
    match &payload.error_message {
        Some(e) => {
            let mut t = owned("*Error:*\n```");
            t.append(e.as_str());
            t.append("```");
            let ghost before = fields.deep_view();
            fields.push(t);
            assert(fields.deep_view() =~= before + seq![t@]);
        },
        None => {
            assert(fields.deep_view() + Seq::<Seq<char>>::empty() =~= fields.deep_view());
        },
    }
    assert(fields.deep_view() =~= extra_fields(*payload));
    let mut header = owned(payload.event.emoji());
    header.append(" ");
    header.append(title.as_str());
    let mut kind_line = owned("*");
    let kind = kind_text(&d.resource_kind);
    kind_line.append(kind.as_str());
    kind_line.append(":*\n");
    kind_line.append(d.name.as_str());
    let mut current = labelled("*Current Image:*\n`", d.current_image.as_str());
    current.append("`");
    let mut new_image = labelled("*New Image:*\n`", d.new_image.as_str());
    new_image.append("`");
    let resource_fields = vec![
        labelled("*Namespace:*\n", d.namespace.as_str()),
        kind_line,
        current,
        new_image,
    ];
    let mut blocks: Vec<SlackBlock> = vec![SlackBlock::Header(header), SlackBlock::Section(resource_fields)];
    let ghost expected_base = seq![
        SlackBlockView::Header(event_emoji(payload.event) + " "@ + title_of(*payload)),
        SlackBlockView::Section(
            seq![
                "*Namespace:*\n"@ + d.namespace@,
                "*"@ + kind_label(d.resource_kind) + ":*\n"@ + d.name@,
                "*Current Image:*\n`"@ + d.current_image@ + "`"@,
                "*New Image:*\n`"@ + d.new_image@ + "`"@,
            ],
        ),
    ];
    assert(blocks@[1]@ == expected_base[1]) by {
        assert(resource_fields.deep_view() =~= seq![
            "*Namespace:*\n"@ + d.namespace@,
            "*"@ + kind_label(d.resource_kind) + ":*\n"@ + d.name@,
            "*Current Image:*\n`"@ + d.current_image@ + "`"@,
            "*New Image:*\n`"@ + d.new_image@ + "`"@,
        ]);
    }
    assert(blocks@.map_values(|b: SlackBlock| b@) =~= expected_base);
    let has_fields = fields.len() > 0;
    let ghost extra = fields.deep_view();
    if has_fields {
        blocks.push(SlackBlock::Section(fields));
    }
    let ghost with_fields = if extra.len() > 0 {
        expected_base.push(SlackBlockView::Section(extra))
    } else {
        expected_base
    };
    assert(blocks@.map_values(|b: SlackBlock| b@) =~= with_fields);
    match &payload.approval_url {
        Some(url) => {
            proof {
                reveal_strlit("/approve");
            }
            let details = remove_all(url.as_str(), "/approve");
            blocks.push(SlackBlock::Actions(url.clone(), details));
        },
        None => {},
    }
    let ghost with_actions = match &payload.approval_url {
        Some(u) => with_fields.push(SlackBlockView::Actions(u@, removed_all(u@, "/approve"@))),
        None => with_fields,
    };
    assert(blocks@.map_values(|b: SlackBlock| b@) =~= with_actions);
    let mut context = owned("<!date^");
    let secs = i64_to_string(payload.timestamp.seconds);
    context.append(secs.as_str());
    context.append("^{date_short_pretty} at {time}|");
    let when = format_utc(payload.timestamp);
    context.append(when.as_str());
    context.append(">");
    blocks.push(SlackBlock::Context(context));
    assert(blocks@.map_values(|b: SlackBlock| b@) =~= slack_blocks(*payload));
    SlackMessage {
        blocks,
        color: owned(payload.event.color()),
        fallback: title,
        username: text_or(&config.username, "Headwind"),
        icon_emoji: text_or(&config.icon_emoji, ":robot_face:"),
    }
}

} // verus!
