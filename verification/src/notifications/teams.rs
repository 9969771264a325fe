//! Microsoft Teams message cards.

use super::slack::NotifierSetupError;
use super::{event_color, event_emoji, event_name, title_of, NotificationPayload, TeamsConfig};
use crate::text::{owned, strip_all_prefix, strip_all_prefix_str};
use vstd::prelude::*;

verus! {

/// The logo shown on every card.
pub const ACTIVITY_IMAGE: &'static str =
    "https://raw.githubusercontent.com/kubernetes/kubernetes/master/logo/logo.png";

impl TeamsConfig {
    /// Whether a Teams notifier can be made from these settings: it must
    /// be enabled and have a webhook address.
    pub fn validate(&self) -> (r: Result<(), NotifierSetupError>)
        ensures
            !self.enabled ==> r == Err::<(), NotifierSetupError>(NotifierSetupError::Disabled),
            self.enabled && self.webhook_url is None ==> r == Err::<(), NotifierSetupError>(
                NotifierSetupError::MissingUrl,
            ),
            self.enabled && self.webhook_url is Some ==> r is Ok,
    {
        if !self.enabled {
            return Err(NotifierSetupError::Disabled);
        }
        if self.webhook_url.is_none() {
            return Err(NotifierSetupError::MissingUrl);
        }
        Ok(())
    }

    /// A Teams notifier sends only when enabled and given an address.
    pub fn is_enabled(&self) -> (r: bool)
        ensures
            r == (self.enabled && self.webhook_url is Some),
    {
        self.enabled && self.webhook_url.is_some()
    }
}

/// A Teams message card with one section of facts and its buttons.
#[derive(Debug, Clone)]
pub struct TeamsCard {
    pub summary: String,
    /// Colour as `rrggbb`
    pub theme_color: String,
    pub activity_title: String,
    pub activity_subtitle: String,
    pub activity_image: String,
    /// Title and value of each fact
    pub facts: Vec<(String, String)>,
    /// Name and address of each button
    pub actions: Vec<(String, String)>,
}

/// A fact `title` with the text, when the text is present.
pub open spec fn optional_fact(title: Seq<char>, o: Option<String>) -> Seq<(Seq<char>, Seq<char>)> {
    match o {
        Some(s) => seq![(title, s@)],
        None => Seq::empty(),
    }
}

/// The facts of the card for `p`: the resource, then the policy, approver,
/// rejection reason and error that are present.
pub open spec fn card_facts(p: NotificationPayload) -> Seq<(Seq<char>, Seq<char>)> {
    seq![
        ("Namespace"@, p.deployment.namespace@),
        ("Deployment"@, p.deployment.name@),
        ("Current Image"@, p.deployment.current_image@),
        ("New Image"@, p.deployment.new_image@),
    ] + optional_fact("Policy"@, p.policy) + optional_fact("Approved By"@, p.approved_by)
        + optional_fact("Rejection Reason"@, p.rejection_reason) + optional_fact("Error"@, p.error_message)
}

/// The buttons of the card for `p`: the dashboard link and the approval
/// link, for those present.
pub open spec fn card_actions(p: NotificationPayload) -> Seq<(Seq<char>, Seq<char>)> {
    optional_fact("View in Dashboard"@, p.ui_url) + optional_fact("Approve Update"@, p.approval_url)
}

fn push_optional(v: &mut Vec<(String, String)>, title: &str, o: &Option<String>)
    ensures
        final(v).deep_view() == old(v).deep_view() + optional_fact(title@, *o),
{
    match o {
        Some(s) => {
            v.push((owned(title), s.clone()));
            assert(final(v).deep_view() =~= old(v).deep_view() + seq![(title@, s@)]);
        },
        None => {
            assert(old(v).deep_view() + Seq::<(Seq<char>, Seq<char>)>::empty() =~= old(v).deep_view());
        },
    }
}

/// Build the Teams card for `payload`.
pub fn build_adaptive_card(payload: &NotificationPayload) -> (r: TeamsCard)
    ensures
        r.summary@ == title_of(*payload),
        r.theme_color@ == strip_all_prefix(event_color(payload.event), seq!['#']),
        r.activity_title@ == event_emoji(payload.event) + " "@ + title_of(*payload),
        r.activity_subtitle@ == "Event: "@ + event_name(payload.event),
        r.activity_image@ == ACTIVITY_IMAGE@,
        r.facts.deep_view() == card_facts(*payload),
        r.actions.deep_view() == card_actions(*payload),
{
    let d = &payload.deployment;
    let title = payload.title();
    let mut facts: Vec<(String, String)> = Vec::new();
    facts.push((owned("Namespace"), d.namespace.clone()));
    facts.push((owned("Deployment"), d.name.clone()));
    facts.push((owned("Current Image"), d.current_image.clone()));
    facts.push((owned("New Image"), d.new_image.clone()));
    assert(facts.deep_view() =~= seq![
        ("Namespace"@, d.namespace@),
        ("Deployment"@, d.name@),
        ("Current Image"@, d.current_image@),
        ("New Image"@, d.new_image@),
    ]);
    push_optional(&mut facts, "Policy", &payload.policy);
    push_optional(&mut facts, "Approved By", &payload.approved_by);
    push_optional(&mut facts, "Rejection Reason", &payload.rejection_reason);
    push_optional(&mut facts, "Error", &payload.error_message);
    let mut actions: Vec<(String, String)> = Vec::new();
    assert(actions.deep_view() =~= Seq::<(Seq<char>, Seq<char>)>::empty());
    push_optional(&mut actions, "View in Dashboard", &payload.ui_url);
    push_optional(&mut actions, "Approve Update", &payload.approval_url);
    assert(Seq::<(Seq<char>, Seq<char>)>::empty() + optional_fact("View in Dashboard"@, payload.ui_url)
        =~= optional_fact("View in Dashboard"@, payload.ui_url));
    let mut activity_title = owned(payload.event.emoji());
    activity_title.append(" ");
    activity_title.append(title.as_str());
    let mut subtitle = owned("Event: ");
    subtitle.append(payload.event.as_str());
    proof {
        reveal_strlit("#");
        assert("#"@ =~= seq!['#']);
    }
    TeamsCard {
        summary: title,
        theme_color: owned(strip_all_prefix_str(payload.event.color(), "#")),
        activity_title,
        activity_subtitle: subtitle,
        activity_image: owned(ACTIVITY_IMAGE),
        facts,
        actions,
    }
}

} // verus!
