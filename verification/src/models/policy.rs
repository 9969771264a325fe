//! Update policies and the per-resource policy read from annotations.

pub mod annotations;

use crate::parse::{bool_value, comma_list, lookup, map_get, parse_bool, parse_comma_list, parse_u64, unsigned_value};
use crate::text::{lowercases_to, lowercase_equals, owned};
use std::collections::BTreeMap;
use vstd::prelude::*;

verus! {

/// How far a resource may be updated automatically.
#[derive(Debug, Clone, Copy, PartialEq, Eq, Structural)]
pub enum UpdatePolicy {
    /// Only update patch versions (1.2.3 -> 1.2.4)
    Patch,
    /// Update minor versions (1.2.3 -> 1.3.0)
    Minor,
    /// Update major versions (1.2.3 -> 2.0.0)
    Major,
    /// Update to any new version
    All,
    /// Match glob pattern
    Glob,
    /// Force update regardless of version
    Force,
    /// Never update automatically (the policy written `none`)
    Never,
}

/// A policy name that is not one of the known ones.
#[derive(Debug, Clone)]
pub enum PolicyError {
    InvalidPolicy(String),
}

/// The policy that `s` names, ignoring letter case (as `str::to_lowercase` lowers it), if any.
pub open spec fn policy_named(s: Seq<char>) -> Option<UpdatePolicy> {
    if lowercases_to(s, "patch"@) {
        Some(UpdatePolicy::Patch)
    } else if lowercases_to(s, "minor"@) {
        Some(UpdatePolicy::Minor)
    } else if lowercases_to(s, "major"@) {
        Some(UpdatePolicy::Major)
    } else if lowercases_to(s, "all"@) {
        Some(UpdatePolicy::All)
    } else if lowercases_to(s, "glob"@) {
        Some(UpdatePolicy::Glob)
    } else if lowercases_to(s, "force"@) {
        Some(UpdatePolicy::Force)
    } else if lowercases_to(s, "none"@) {
        Some(UpdatePolicy::Never)
    } else {
        None
    }
}

/// The lower-case name of a policy.
pub open spec fn policy_name(p: UpdatePolicy) -> Seq<char> {
    match p {
        UpdatePolicy::Patch => "patch"@,
        UpdatePolicy::Minor => "minor"@,
        UpdatePolicy::Major => "major"@,
        UpdatePolicy::All => "all"@,
        UpdatePolicy::Glob => "glob"@,
        UpdatePolicy::Force => "force"@,
        UpdatePolicy::Never => "none"@,
    }
}

impl UpdatePolicy {
    /// Parses a policy name; letter case is ignored.
    pub fn parse(s: &str) -> (r: Result<UpdatePolicy, PolicyError>)
        ensures
            match r {
                Ok(p) => policy_named(s@) == Some(p),
                Err(PolicyError::InvalidPolicy(t)) => policy_named(s@) is None && t@ == s@,
            },
    {
        if lowercase_equals(s, "patch") {
            Ok(UpdatePolicy::Patch)
        } else if lowercase_equals(s, "minor") {
            Ok(UpdatePolicy::Minor)
        } else if lowercase_equals(s, "major") {
            Ok(UpdatePolicy::Major)
        } else if lowercase_equals(s, "all") {
            Ok(UpdatePolicy::All)
        } else if lowercase_equals(s, "glob") {
            Ok(UpdatePolicy::Glob)
        } else if lowercase_equals(s, "force") {
            Ok(UpdatePolicy::Force)
        } else if lowercase_equals(s, "none") {
            Ok(UpdatePolicy::Never)
        } else {
            Err(PolicyError::InvalidPolicy(owned(s)))
        }
    }

    /// The lower-case name of this policy.
    pub fn name(&self) -> (r: &'static str)
        ensures
            r@ == policy_name(*self),
    {
        match self {
            UpdatePolicy::Patch => "patch",
            UpdatePolicy::Minor => "minor",
            UpdatePolicy::Major => "major",
            UpdatePolicy::All => "all",
            UpdatePolicy::Glob => "glob",
            UpdatePolicy::Force => "force",
            UpdatePolicy::Never => "none",
        }
    }
}

/// The variant name of a policy, as `{:?}` writes it (`None` for the
/// policy that never updates).
pub open spec fn policy_debug_name(p: UpdatePolicy) -> Seq<char> {
    match p {
        UpdatePolicy::Patch => "Patch"@,
        UpdatePolicy::Minor => "Minor"@,
        UpdatePolicy::Major => "Major"@,
        UpdatePolicy::All => "All"@,
        UpdatePolicy::Glob => "Glob"@,
        UpdatePolicy::Force => "Force"@,
        UpdatePolicy::Never => "None"@,
    }
}

impl UpdatePolicy {
    /// The variant name of the policy, as written in notifications.
    pub fn debug_name(&self) -> (r: &'static str)
        ensures
            r@ == policy_debug_name(*self),
    {
        match self {
            UpdatePolicy::Patch => "Patch",
            UpdatePolicy::Minor => "Minor",
            UpdatePolicy::Major => "Major",
            UpdatePolicy::All => "All",
            UpdatePolicy::Glob => "Glob",
            UpdatePolicy::Force => "Force",
            UpdatePolicy::Never => "None",
        }
    }
}

impl std::str::FromStr for UpdatePolicy {
    type Err = PolicyError;

    fn from_str(s: &str) -> (r: Result<Self, Self::Err>)
        ensures
            match r {
                Ok(p) => policy_named(s@) == Some(p),
                Err(PolicyError::InvalidPolicy(t)) => policy_named(s@) is None && t@ == s@,
            },
    {
        UpdatePolicy::parse(s)
    }
}

/// Which triggers a resource responds to.
#[derive(Debug, Clone, Copy, PartialEq, Eq, Structural)]
pub enum EventSource {
    /// Only webhook events (the default)
    Webhook,
    /// Only registry polling
    Polling,
    /// Both webhooks and polling
    Both,
    /// No trigger at all (the source written `none`)
    Disabled,
}

/// The event source that `s` names, ignoring letter case (as `str::to_lowercase` lowers it), if any.
pub open spec fn event_source_named(s: Seq<char>) -> Option<EventSource> {
    if lowercases_to(s, "webhook"@) {
        Some(EventSource::Webhook)
    } else if lowercases_to(s, "polling"@) {
        Some(EventSource::Polling)
    } else if lowercases_to(s, "both"@) {
        Some(EventSource::Both)
    } else if lowercases_to(s, "none"@) {
        Some(EventSource::Disabled)
    } else {
        None
    }
}

impl EventSource {
    /// Parses an event source name; letter case is ignored.
    pub fn parse(s: &str) -> (r: Option<EventSource>)
        ensures
            r == event_source_named(s@),
    {
        if lowercase_equals(s, "webhook") {
            Some(EventSource::Webhook)
        } else if lowercase_equals(s, "polling") {
            Some(EventSource::Polling)
        } else if lowercase_equals(s, "both") {
            Some(EventSource::Both)
        } else if lowercase_equals(s, "none") {
            Some(EventSource::Disabled)
        } else {
            None
        }
    }

    /// Whether webhook events reach a resource with this source.
    pub fn accepts_webhooks(&self) -> (r: bool)
        ensures
            r == (*self == EventSource::Webhook || *self == EventSource::Both),
    {
        match self {
            EventSource::Webhook | EventSource::Both => true,
            _ => false,
        }
    }

    /// Whether registry polling covers a resource with this source.
    pub fn accepts_polling(&self) -> (r: bool)
        ensures
            r == (*self == EventSource::Polling || *self == EventSource::Both),
    {
        match self {
            EventSource::Polling | EventSource::Both => true,
            _ => false,
        }
    }
}

impl Default for EventSource {
    fn default() -> (r: Self)
        ensures
            r == EventSource::Webhook,
    {
        EventSource::Webhook
    }
}

/// The update policy of one resource.
#[derive(Debug, Clone)]
pub struct ResourcePolicy {
    /// Update policy to apply
    pub policy: UpdatePolicy,
    /// Optional glob pattern for matching versions (when policy is Glob)
    pub pattern: Option<String>,
    /// Whether approval is required before updating
    pub require_approval: bool,
    /// Minimum time between updates (in seconds)
    pub min_update_interval: Option<u64>,
    /// Names of the containers to track (if empty, track all)
    pub images: Vec<String>,
    /// Which triggers the resource responds to
    pub event_source: EventSource,
    /// Per-resource polling interval in seconds
    pub polling_interval: Option<u64>,
}

/// The pattern of a policy, as characters.
pub open spec fn pattern_of(p: &ResourcePolicy) -> Option<Seq<char>> {
    match p.pattern {
        Some(s) => Some(s@),
        None => None,
    }
}

/// The policy that applies when no annotation says otherwise.
pub open spec fn is_default_policy(p: ResourcePolicy) -> bool {
    &&& p.policy == UpdatePolicy::Never
    &&& p.pattern is None
    &&& p.require_approval
    &&& p.min_update_interval == Some(300u64)
    &&& p.images@.len() == 0
    &&& p.event_source == EventSource::Webhook
    &&& p.polling_interval is None
}

impl Default for ResourcePolicy {
    fn default() -> (r: Self)
        ensures
            is_default_policy(r),
    {
        ResourcePolicy {
            policy: UpdatePolicy::Never,
            pattern: None,
            require_approval: true,
            min_update_interval: Some(300),
            images: Vec::new(),
            event_source: EventSource::Webhook,
            polling_interval: None,
        }
    }
}

/// An optional `u64` annotation value, read as `u64::from_str(..).ok()`.
pub open spec fn u64_opt(v: Seq<char>) -> Option<u64> {
    match unsigned_value(v, u64::MAX as nat) {
        Some(n) => Some(n as u64),
        None => None,
    }
}

/// The value that a boolean annotation sets, `default` when it is absent or
/// not `true`/`false`.
pub open spec fn bool_or(v: Option<Seq<char>>, default: bool) -> bool {
    match v {
        Some(s) => match bool_value(s) {
            Some(b) => b,
            None => default,
        },
        None => default,
    }
}

/// `p` is the policy that the annotations `m` describe: every annotation
/// that is present and readable overrides the default.
pub open spec fn policy_matches_annotations(p: ResourcePolicy, m: Map<Seq<char>, Seq<char>>) -> bool {
    &&& match lookup(m, annotations::POLICY@) {
        Some(v) => policy_named(v) == Some(p.policy),
        None => p.policy == UpdatePolicy::Never,
    }
    &&& pattern_of(&p) == lookup(m, annotations::PATTERN@)
    &&& p.require_approval == bool_or(lookup(m, annotations::REQUIRE_APPROVAL@), true)
    &&& p.min_update_interval == match lookup(m, annotations::MIN_UPDATE_INTERVAL@) {
        Some(v) => u64_opt(v),
        None => Some(300u64),
    }
    &&& p.images.deep_view() == match lookup(m, annotations::IMAGES@) {
        Some(v) => comma_list(v),
        None => Seq::<Seq<char>>::empty(),
    }
    &&& p.event_source == match lookup(m, annotations::EVENT_SOURCE@) {
        Some(v) => match event_source_named(v) {
            Some(e) => e,
            None => EventSource::Webhook,
        },
        None => EventSource::Webhook,
    }
    &&& p.polling_interval == match lookup(m, annotations::POLLING_INTERVAL@) {
        Some(v) => u64_opt(v),
        None => None,
    }
}

/// Reads the update policy of a resource from its annotations. Fails only
/// when the policy annotation names no known policy.
pub fn policy_from_annotations(annotations: &BTreeMap<String, String>) -> (r: Result<
    ResourcePolicy,
    PolicyError,
>)
    ensures
        match r {
            Ok(p) => policy_matches_annotations(p, annotations.deep_view()),
            Err(PolicyError::InvalidPolicy(t)) => {
                &&& lookup(annotations.deep_view(), annotations::POLICY@) == Some(t@)
                &&& policy_named(t@) is None
            },
        },
{
    let mut policy = ResourcePolicy::default();
    assert(policy.images.deep_view() =~= Seq::<Seq<char>>::empty());
    match map_get(annotations, annotations::POLICY) {
        Some(v) => {
            match UpdatePolicy::parse(v.as_str()) {
                Ok(p) => policy.policy = p,
                Err(e) => return Err(e),
            }
        },
        None => {},
    }
    match map_get(annotations, annotations::PATTERN) {
        Some(v) => policy.pattern = Some(owned(v.as_str())),
        None => {},
    }
    match map_get(annotations, annotations::REQUIRE_APPROVAL) {
        Some(v) => {
            policy.require_approval = match parse_bool(v.as_str()) {
                Some(b) => b,
                None => true,
            };
        },
        None => {},
    }
    match map_get(annotations, annotations::MIN_UPDATE_INTERVAL) {
        Some(v) => policy.min_update_interval = parse_u64(v.as_str()),
        None => {},
    }
    match map_get(annotations, annotations::IMAGES) {
        Some(v) => policy.images = parse_comma_list(v.as_str()),
        None => {},
    }
    match map_get(annotations, annotations::EVENT_SOURCE) {
        Some(v) => {
            policy.event_source = match EventSource::parse(v.as_str()) {
                Some(e) => e,
                None => EventSource::Webhook,
            };
        },
        None => {},
    }
    match map_get(annotations, annotations::POLLING_INTERVAL) {
        Some(v) => policy.polling_interval = parse_u64(v.as_str()),
        None => {},
    }
    Ok(policy)
}

} // verus!
