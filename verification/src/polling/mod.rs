//! Registry polling: which resources are polled and how often, which tag
//! or chart version is the best candidate, and when a poll turns into an
//! update event. Talking to registries and the cluster is the caller's.

pub mod auth;
pub mod reference;

use crate::models::policy::{
    annotations, event_source_named, pattern_of, policy_debug_name, policy_named, u64_opt, EventSource,
    ResourcePolicy, UpdatePolicy,
};
use crate::models::webhook::{ChartPushEvent, ImagePushEvent};
use crate::parse::{lookup, map_get, parse_u64};
use crate::policy::{policy_decision, PolicyEngine};
use crate::text::{
    find_char, first_index_of, owned, seq_starts_with, slice, starts_with, str_eq, strip_prefix,
    trim_end_char, trim_end_matches_char,
};
use crate::version::{parse_semver, semver_numbers};
use std::collections::BTreeMap;
use vstd::prelude::*;

verus! {

/// Configuration for registry polling
#[derive(Clone, Debug)]
pub struct PollingConfig {
    /// How often to poll registries (in seconds)
    pub interval: u64,
    /// Enable/disable polling
    pub enabled: bool,
}

impl Default for PollingConfig {
    fn default() -> (r: Self)
        ensures
            r.interval == 300,
            !r.enabled,
    {
        PollingConfig { interval: 300, enabled: false }
    }
}

/// The interval of a resource: its own when set, else the global one.
pub fn poll_interval(resource_interval: Option<u64>, global_interval: u64) -> (r: u64)
    ensures
        r == match resource_interval {
            Some(i) => i,
            None => global_interval,
        },
{
    match resource_interval {
        Some(i) => i,
        None => global_interval,
    }
}

/// Whether a resource is due: never polled, or polled at least `interval`
/// seconds ago (`elapsed_since_last` in whole seconds).
pub fn should_poll(elapsed_since_last: Option<u64>, interval: u64) -> (r: bool)
    ensures
        r == match elapsed_since_last {
            Some(e) => e >= interval,
            None => true,
        },
{
    match elapsed_since_last {
        Some(e) => e >= interval,
        None => true,
    }
}

/// The key under which the last poll of an image is remembered.
pub fn image_poll_key(image: &str) -> (r: String)
    ensures
        r@ == "image::"@ + image@,
{
    let mut r = owned("image::");
    r.append(image);
    r
}

/// The key under which the last poll of a chart is remembered.
pub fn chart_poll_key(repository_url: &str) -> (r: String)
    ensures
        r@ == "chart::"@ + repository_url@,
{
    let mut r = owned("chart::");
    r.append(repository_url);
    r
}

/// The registry of an image reference, `docker.io` when the reference
/// names none.
pub fn extract_registry(registry: &str) -> (r: String)
    ensures
        r@ == if registry@.len() == 0 {
            "docker.io"@
        } else {
            registry@
        },
{
    if registry.unicode_len() == 0 {
        owned("docker.io")
    } else {
        owned(registry)
    }
}

/// What polling needs of a resource's annotations.
#[derive(Debug, Clone)]
pub struct PollSettings {
    pub policy: UpdatePolicy,
    pub pattern: Option<String>,
    pub polling_interval: Option<u64>,
}

/// The polling settings of a resource with annotations `m`: `None` unless
/// its policy annotation is present, is not exactly `none`, names a policy,
/// and its event source (webhook when absent or unknown) includes polling.
pub open spec fn poll_settings_of(m: Map<Seq<char>, Seq<char>>) -> Option<
    (UpdatePolicy, Option<Seq<char>>, Option<u64>),
> {
    match lookup(m, annotations::POLICY@) {
        Some(p) => {
            if p == "none"@ {
                None
            } else {
                match policy_named(p) {
                    Some(policy) => {
                        let source = match lookup(m, annotations::EVENT_SOURCE@) {
                            Some(v) => match event_source_named(v) {
                                Some(e) => e,
                                None => EventSource::Webhook,
                            },
                            None => EventSource::Webhook,
                        };
                        if source == EventSource::Polling || source == EventSource::Both {
                            Some(
                                (
                                    policy,
                                    lookup(m, annotations::PATTERN@),
                                    match lookup(m, annotations::POLLING_INTERVAL@) {
                                        Some(v) => u64_opt(v),
                                        None => None,
                                    },
                                ),
                            )
                        } else {
                            None
                        }
                    },
                    None => None,
                }
            }
        },
        None => None,
    }
}

/// `s` holds the settings `v`.
pub open spec fn settings_are(s: PollSettings, v: (UpdatePolicy, Option<Seq<char>>, Option<u64>)) -> bool {
    &&& s.policy == v.0
    &&& crate::config::opt_text(s.pattern) == v.1
    &&& s.polling_interval == v.2
}

/// Reads the polling settings of a resource (see `poll_settings_of`).
pub fn poll_settings(annotations: &BTreeMap<String, String>) -> (r: Option<PollSettings>)
    ensures
        match r {
            Some(s) => poll_settings_of(annotations.deep_view()) matches Some(v) && settings_are(s, v),
            None => poll_settings_of(annotations.deep_view()) is None,
        },
{
    let policy_str = match map_get(annotations, annotations::POLICY) {
        Some(p) => p,
        None => return None,
    };
    if str_eq(policy_str.as_str(), "none") {
        return None;
    }
    let policy = match UpdatePolicy::parse(policy_str.as_str()) {
        Ok(p) => p,
        Err(_) => return None,
    };
    let source = match map_get(annotations, annotations::EVENT_SOURCE) {
        Some(v) => match EventSource::parse(v.as_str()) {
            Some(e) => e,
            None => EventSource::Webhook,
        },
        None => EventSource::Webhook,
    };
    if !source.accepts_polling() {
        return None;
    }
    let pattern = match map_get(annotations, annotations::PATTERN) {
        Some(p) => Some(p.clone()),
        None => None,
    };
    let polling_interval = match map_get(annotations, annotations::POLLING_INTERVAL) {
        Some(v) => parse_u64(v.as_str()),
        None => None,
    };
    Some(PollSettings { policy, pattern, polling_interval })
}

/// The resource policy used to judge candidate versions: the given policy
/// and pattern, nothing else.
pub open spec fn candidate_policy(r: ResourcePolicy, policy: UpdatePolicy, pattern: Option<Seq<char>>) -> bool {
    &&& r.policy == policy
    &&& pattern_of(&r) == pattern
    &&& r.require_approval
    &&& r.min_update_interval is None
    &&& r.images@.len() == 0
    &&& r.event_source == EventSource::Webhook
    &&& r.polling_interval is None
}

fn candidate_resource_policy(policy: UpdatePolicy, pattern: &Option<String>) -> (r: ResourcePolicy)
    ensures
        candidate_policy(r, policy, crate::config::opt_text(*pattern)),
{
    ResourcePolicy {
        policy,
        pattern: match pattern {
            Some(p) => Some(p.clone()),
            None => None,
        },
        require_approval: true,
        min_update_interval: None,
        images: Vec::new(),
        event_source: EventSource::Webhook,
        polling_interval: None,
    }
}

/// How the candidate versions are screened before the policy judges them.
#[derive(Debug, Clone, Copy, PartialEq, Eq, Structural)]
pub enum TagScreen {
    /// For semver policies: tags must begin with a digit or `v` (image tags)
    DigitOrV,
    /// For semver policies: tags must begin with `v` or parse as semver
    /// (chart versions)
    VOrSemver,
}

/// A semver-based policy.
pub open spec fn is_semver_policy(p: UpdatePolicy) -> bool {
    p == UpdatePolicy::Patch || p == UpdatePolicy::Minor || p == UpdatePolicy::Major
}

/// Whether `tag` passes the screen under `policy`.
pub open spec fn passes_screen(screen: TagScreen, policy: UpdatePolicy, tag: Seq<char>) -> bool {
    if !is_semver_policy(policy) {
        true
    } else {
        match screen {
            TagScreen::DigitOrV => tag.len() > 0 && (('0' <= tag[0] && tag[0] <= '9') || tag[0] == 'v'),
            TagScreen::VOrSemver => (tag.len() > 0 && tag[0] == 'v') || semver_numbers(tag) is Some,
        }
    }
}

/// The best candidate among `tags`, going through them in order: a tag
/// that the policy allows from `current` becomes the best when there is
/// none yet, or when the policy also allows moving to it from the best so
/// far.
pub open spec fn best_candidate(
    screen: TagScreen,
    policy: UpdatePolicy,
    pattern: Option<Seq<char>>,
    current: Seq<char>,
    tags: Seq<Seq<char>>,
) -> Option<Seq<char>>
    decreases tags.len(),
{
    if tags.len() == 0 {
        None
    } else {
        let best = best_candidate(screen, policy, pattern, current, tags.drop_last());
        let t = tags.last();
        if passes_screen(screen, policy, t) && policy_decision(policy, pattern, current, t) == Some(
            true,
        ) {
            match best {
                None => Some(t),
                Some(b) => if policy_decision(policy, pattern, b, t) == Some(true) {
                    Some(t)
                } else {
                    best
                },
            }
        } else {
            best
        }
    }
}

fn screen_passes(screen: TagScreen, policy: UpdatePolicy, tag: &str) -> (r: bool)
    ensures
        r == passes_screen(screen, policy, tag@),
{
    let semver_policy = match policy {
        UpdatePolicy::Patch | UpdatePolicy::Minor | UpdatePolicy::Major => true,
        _ => false,
    };
    if !semver_policy {
        return true;
    }
    let n = tag.unicode_len();
    match screen {
        TagScreen::DigitOrV => {
            if n == 0 {
                return false;
            }
            let c = tag.get_char(0);
            ('0' <= c && c <= '9') || c == 'v'
        },
        TagScreen::VOrSemver => {
            if n > 0 && tag.get_char(0) == 'v' {
                return true;
            }
            parse_semver(tag).is_some()
        },
    }
}

/// Finds the best candidate version among `tags` for a resource at
/// `current` (see `best_candidate`).
pub fn find_best_candidate(
    screen: TagScreen,
    policy: UpdatePolicy,
    pattern: &Option<String>,
    current: &str,
    tags: &Vec<String>,
) -> (r: Option<String>)
    ensures
        crate::config::opt_text(r) == best_candidate(
            screen,
            policy,
            crate::config::opt_text(*pattern),
            current@,
            tags.deep_view(),
        ),
{
    let rp = candidate_resource_policy(policy, pattern);
    let engine = PolicyEngine;
    let ghost pat = crate::config::opt_text(*pattern);
    let mut best: Option<String> = None;
    let n = tags.len();
    let mut i: usize = 0;
    assert(tags.deep_view().take(0) =~= Seq::<Seq<char>>::empty());
    while i < n
        invariant
            n == tags@.len(),
            i <= n,
            candidate_policy(rp, policy, pat),
            crate::config::opt_text(best) == best_candidate(
                screen,
                policy,
                pat,
                current@,
                tags.deep_view().take(i as int),
            ),
        decreases n - i,
    {
        let tag = &tags[i];
        let ghost prefix = tags.deep_view().take(i + 1);
        assert(prefix.drop_last() =~= tags.deep_view().take(i as int));
        assert(prefix.last() == tag@);
        if screen_passes(screen, policy, tag.as_str()) {
            match engine.should_update(&rp, current, tag.as_str()) {
                Ok(true) => {
                    let better = match &best {
                        None => true,
                        Some(b) => match engine.should_update(&rp, b.as_str(), tag.as_str()) {
                            Ok(x) => x,
                            Err(_) => false,
                        },
                    };
                    if better {
                        best = Some(tag.clone());
                    }
                },
                _ => {},
            }
        }
        i = i + 1;
    }
    assert(tags.deep_view().take(n as int) =~= tags.deep_view());
    best
}

/// The best candidate, when there is one, is among the tags and the policy
/// allows moving to it from the current version.
pub proof fn lemma_best_candidate_allowed(
    screen: TagScreen,
    policy: UpdatePolicy,
    pattern: Option<Seq<char>>,
    current: Seq<char>,
    tags: Seq<Seq<char>>,
)
    ensures
        best_candidate(screen, policy, pattern, current, tags) matches Some(b) ==> {
            &&& tags.contains(b)
            &&& passes_screen(screen, policy, b)
            &&& policy_decision(policy, pattern, current, b) == Some(true)
        },
    decreases tags.len(),
{
    if tags.len() > 0 {
        lemma_best_candidate_allowed(screen, policy, pattern, current, tags.drop_last());
        let best = best_candidate(screen, policy, pattern, current, tags.drop_last());
        if let Some(b) = best {
            assert(tags.drop_last().contains(b));
            let k = choose|k: int| 0 <= k < tags.drop_last().len() && tags.drop_last()[k] == b;
            assert(tags[k] == b);
        }
        assert(tags[tags.len() - 1] == tags.last());
    }
}

proof fn lemma_candidate_found(
    screen: TagScreen,
    policy: UpdatePolicy,
    pattern: Option<Seq<char>>,
    current: Seq<char>,
    tags: Seq<Seq<char>>,
    k: int,
)
    requires
        0 <= k < tags.len(),
        passes_screen(screen, policy, tags[k]),
        policy_decision(policy, pattern, current, tags[k]) == Some(true),
    ensures
        best_candidate(screen, policy, pattern, current, tags) is Some,
    decreases tags.len(),
{
    if k < tags.len() - 1 {
        assert(tags.drop_last()[k] == tags[k]);
        lemma_candidate_found(screen, policy, pattern, current, tags.drop_last(), k);
    } else {
        assert(tags.last() == tags[k]);
    }
}

/// Polling an image finds a newer tag whenever one is there: under the
/// image-tag screen, a listed tag that starts with a digit or with `v` and
/// that the policy allows from the current tag makes the search return a
/// candidate.
pub proof fn lemma_image_tag_is_found(
    policy: UpdatePolicy,
    pattern: Option<Seq<char>>,
    current: Seq<char>,
    tags: Seq<Seq<char>>,
    k: int,
)
    requires
        0 <= k < tags.len(),
        tags[k].len() > 0,
        ('0' <= tags[k][0] && tags[k][0] <= '9') || tags[k][0] == 'v',
        policy_decision(policy, pattern, current, tags[k]) == Some(true),
    ensures
        best_candidate(TagScreen::DigitOrV, policy, pattern, current, tags) is Some,
{
    lemma_candidate_found(TagScreen::DigitOrV, policy, pattern, current, tags, k);
}

/// Likewise for chart versions: a listed version that starts with `v` or
/// reads as a semantic version, and that the policy allows, makes the
/// search return a candidate.
pub proof fn lemma_chart_version_is_found(
    policy: UpdatePolicy,
    pattern: Option<Seq<char>>,
    current: Seq<char>,
    tags: Seq<Seq<char>>,
    k: int,
)
    requires
        0 <= k < tags.len(),
        (tags[k].len() > 0 && tags[k][0] == 'v') || semver_numbers(tags[k]) is Some,
        policy_decision(policy, pattern, current, tags[k]) == Some(true),
    ensures
        best_candidate(TagScreen::VOrSemver, policy, pattern, current, tags) is Some,
{
    lemma_candidate_found(TagScreen::VOrSemver, policy, pattern, current, tags, k);
}

/// What the poller remembers of an image.
#[derive(Clone, Debug, PartialEq, Eq)]
pub struct CachedImageInfo {
    pub tag: String,
    pub digest: String,
}

/// What a poll of an image does after reading the digest of its current
/// tag.
#[derive(Clone, Debug)]
pub enum ImagePollStep {
    /// The digest changed under the same tag: remember the new state and
    /// send an event for it
    DigestChanged(CachedImageInfo),
    /// Go on to look for newer tags (first remembering the current state,
    /// when the image was never seen)
    CheckTags(Option<CachedImageInfo>),
    /// Nothing more to do (first remembering the current state, when the
    /// image was never seen)
    Done(Option<CachedImageInfo>),
}

/// Decides the first step of polling an image at `current_tag` whose
/// digest is now `current_digest`, given what was remembered: a changed
/// digest is an update; otherwise newer tags are looked for unless the
/// policy never updates or always forces.
pub fn image_poll_step(
    policy: UpdatePolicy,
    cached: &Option<CachedImageInfo>,
    current_tag: &str,
    current_digest: &str,
) -> (r: ImagePollStep)
    ensures
        match cached {
            Some(c) if c.digest@ != current_digest@ => r matches ImagePollStep::DigestChanged(n) && n.tag@
                == current_tag@ && n.digest@ == current_digest@,
            _ => {
                let remember = match cached {
                    None => true,
                    Some(_) => false,
                };
                let checks = policy != UpdatePolicy::Never && policy != UpdatePolicy::Force;
                match r {
                    ImagePollStep::CheckTags(u) => checks && (u is Some <==> remember) && (u
                        matches Some(n) ==> n.tag@ == current_tag@ && n.digest@ == current_digest@),
                    ImagePollStep::Done(u) => !checks && (u is Some <==> remember) && (u matches Some(
                        n,
                    ) ==> n.tag@ == current_tag@ && n.digest@ == current_digest@),
                    ImagePollStep::DigestChanged(_) => false,
                }
            },
        },
{
    let fresh = CachedImageInfo { tag: owned(current_tag), digest: owned(current_digest) };
    let remember = match cached {
        Some(c) => {
            if !str_eq(c.digest.as_str(), current_digest) {
                return ImagePollStep::DigestChanged(fresh);
            }
            None
        },
        None => Some(fresh),
    };
    if policy != UpdatePolicy::Never && policy != UpdatePolicy::Force {
        ImagePollStep::CheckTags(remember)
    } else {
        ImagePollStep::Done(remember)
    }
}

/// The reference of a newer tag of the same repository.
pub fn tag_reference(repository: &str, tag: &str) -> (r: String)
    ensures
        r@ == repository@ + ":"@ + tag@,
{
    let mut r = owned(repository);
    r.append(":");
    r.append(tag);
    r
}

/// The event that a poll sends for an image: the registry (`docker.io`
/// when the reference names none), the repository, the tag and its digest.
pub fn image_update_event(registry: &str, repository: &str, tag: &str, digest: &str) -> (r: ImagePushEvent)
    ensures
        r.registry@ == if registry@.len() == 0 {
            "docker.io"@
        } else {
            registry@
        },
        r.repository@ == repository@,
        r.tag@ == tag@,
        crate::config::opt_text(r.digest) == Some(digest@),
{
    ImagePushEvent {
        registry: extract_registry(registry),
        repository: owned(repository),
        tag: owned(tag),
        digest: Some(owned(digest)),
    }
}

/// What the poller remembers of a chart.
#[derive(Clone, Debug, PartialEq, Eq)]
pub struct CachedChartInfo {
    pub version: String,
}

/// The version to announce after a chart poll: the best candidate, when it
/// differs from the current version and from the version last announced.
pub fn chart_version_to_announce(
    best: &Option<String>,
    current_version: &str,
    cached: &Option<CachedChartInfo>,
) -> (r: Option<String>)
    ensures
        match best {
            Some(v) => {
                let fresh = v@ != current_version@ && match cached {
                    Some(c) => c.version@ != v@,
                    None => true,
                };
                if fresh {
                    r matches Some(x) && x@ == v@
                } else {
                    r is None
                }
            },
            None => r is None,
        },
{
    match best {
        Some(v) => {
            if str_eq(v.as_str(), current_version) {
                return None;
            }
            let fresh = match cached {
                Some(c) => !str_eq(c.version.as_str(), v.as_str()),
                None => true,
            };
            if fresh {
                Some(v.clone())
            } else {
                None
            }
        },
        None => None,
    }
}

/// The key under which the last announced version of an OCI chart is
/// remembered: its address.
pub fn oci_chart_cache_key(repository_url: &str) -> (r: String)
    ensures
        r@ == repository_url@,
{
    owned(repository_url)
}

/// The key under which the last announced version of a chart of an index
/// repository is remembered: the address, `::` and the chart.
pub fn http_chart_cache_key(repository_url: &str, chart_name: &str) -> (r: String)
    ensures
        r@ == repository_url@ + "::"@ + chart_name@,
{
    let mut r = owned(repository_url);
    r.append("::");
    r.append(chart_name);
    r
}

/// Type of Helm repository
#[derive(Clone, Copy, Debug, PartialEq, Eq, Structural)]
pub enum HelmRepositoryType {
    Oci,
    Http,
}

/// Where a chart of a repository at `repo_url` is polled: for `oci://`
/// the address of the chart under it, for `http://` and `https://` the
/// repository itself; `None` for any other scheme.
pub open spec fn chart_location(repo_url: Seq<char>, chart_name: Seq<char>) -> Option<
    (Seq<char>, HelmRepositoryType),
> {
    if seq_starts_with(repo_url, "oci://"@) {
        Some((trim_end_char(repo_url, '/') + "/"@ + chart_name, HelmRepositoryType::Oci))
    } else if seq_starts_with(repo_url, "http://"@) || seq_starts_with(repo_url, "https://"@) {
        Some((repo_url, HelmRepositoryType::Http))
    } else {
        None
    }
}

/// Decides where a chart is polled (see `chart_location`).
pub fn chart_repository(repo_url: &str, chart_name: &str) -> (r: Option<(String, HelmRepositoryType)>)
    ensures
        match r {
            Some((u, t)) => chart_location(repo_url@, chart_name@) == Some((u@, t)),
            None => chart_location(repo_url@, chart_name@) is None,
        },
{
    if starts_with(repo_url, "oci://") {
        let mut u = owned(trim_end_matches_char(repo_url, '/'));
        u.append("/");
        u.append(chart_name);
        Some((u, HelmRepositoryType::Oci))
    } else if starts_with(repo_url, "http://") || starts_with(repo_url, "https://") {
        Some((owned(repo_url), HelmRepositoryType::Http))
    } else {
        None
    }
}

/// The key under which a tracked image or chart is recorded once: its
/// reference or address, `::` and the policy's variant name.
pub fn track_key(target: &str, policy: UpdatePolicy) -> (r: String)
    ensures
        r@ == target@ + "::"@ + policy_debug_name(policy),
{
    let mut r = owned(target);
    r.append("::");
    r.append(policy.debug_name());
    r
}

/// Records `key` among the keys seen so far; `true` when it is new.
pub fn first_sighting(seen: &mut Vec<String>, key: String) -> (r: bool)
    ensures
        r == !old(seen).deep_view().contains(key@),
        final(seen).deep_view() == if r {
            old(seen).deep_view().push(key@)
        } else {
            old(seen).deep_view()
        },
{
    let ghost s = seen.deep_view();
    let mut i: usize = 0;
    while i < seen.len()
        invariant
            i <= s.len(),
            s == seen.deep_view(),
            forall|j: int| 0 <= j < i ==> s[j] != key@,
        decreases s.len() - i,
    {
        if str_eq(seen[i].as_str(), key.as_str()) {
            assert(s[i as int] == key@);
            return false;
        }
        i = i + 1;
    }
    let ghost k = key@;
    seen.push(key);
    assert(seen.deep_view() =~= s.push(k));
    true
}

/// Whether a HelmRelease's chart source is one that is polled: only a
/// `HelmRepository` (not a Git repository, a bucket and so on).
pub fn tracks_chart_source(kind: &str) -> (r: bool)
    ensures
        r == (kind@ == "HelmRepository"@),
{
    str_eq(kind, "HelmRepository")
}

/// The chart of a release to poll, given its repository's address, the
/// chart, the version the release asks for and its policy: where and how it
/// is polled and from which version; `None` for an unsupported address, a
/// release without a version, or a chart already tracked under the same
/// policy (each address is tracked once per policy).
pub fn chart_to_track(
    repo_url: &str,
    chart_name: &str,
    spec_version: Option<&str>,
    policy: UpdatePolicy,
    seen: &mut Vec<String>,
) -> (r: Option<(String, HelmRepositoryType, String)>)
    ensures
        match (chart_location(repo_url@, chart_name@), spec_version) {
            (Some((u, t)), Some(v)) => {
                let key = u + "::"@ + policy_debug_name(policy);
                if old(seen).deep_view().contains(key) {
                    r is None && final(seen).deep_view() == old(seen).deep_view()
                } else {
                    r matches Some(c) && c.0@ == u && c.1 == t && c.2@ == v@
                        && final(seen).deep_view() == old(seen).deep_view().push(key)
                }
            },
            _ => r is None && final(seen).deep_view() == old(seen).deep_view(),
        },
{
    let (url, kind) = match chart_repository(repo_url, chart_name) {
        Some(c) => c,
        None => return None,
    };
    let version = match spec_version {
        Some(v) => owned(v),
        None => return None,
    };
    let key = track_key(url.as_str(), policy);
    if first_sighting(seen, key) {
        Some((url, kind, version))
    } else {
        None
    }
}

/// Why a chart event cannot be made.
#[derive(Clone, Debug)]
pub enum ChartEventError {
    /// An `oci://` address without a repository path
    InvalidOciUrl(String),
    /// An index address that does not parse or has no host
    InvalidHttpUrl(String),
}

/// The host of a URL as `url::Url::parse` reads it (via reqwest), `None`
/// when it does not parse or has no host.
pub uninterp spec fn url_host_of(url: Seq<char>) -> Option<Seq<char>>;

/// Calls `reqwest::Url::parse` and `host_str`: the host of the URL, none
/// when it does not parse or names no host. Only its being a function of
/// the text is stated.
#[verifier::external_body]
fn url_host(url: &str) -> (r: Option<String>)
    ensures
        crate::config::opt_text(r) == url_host_of(url@),
{
    match reqwest::Url::parse(url) {
        Ok(u) => match u.host_str() {
            Some(h) => Some(h.to_string()),
            None => None,
        },
        Err(_) => None,
    }
}

/// The event for a new chart version: for an `oci://` address, the
/// registry and repository path it names; for an index repository, its
/// host and the chart name.
pub fn chart_update_event(repository_url: &str, chart_name: &str, version: &str) -> (r: Result<
    ChartPushEvent,
    ChartEventError,
>)
    ensures
        seq_starts_with(repository_url@, "oci://"@) ==> {
            let rest = repository_url@.skip(6);
            let i = first_index_of(rest, '/');
            if i < 0 {
                r is Err
            } else {
                r matches Ok(e) && e.registry@ == rest.take(i) && e.repository@ == rest.skip(i + 1)
                    && e.version@ == version@ && e.digest is None
            }
        },
        !seq_starts_with(repository_url@, "oci://"@) ==> match url_host_of(repository_url@) {
            Some(h) => r matches Ok(e) && e.registry@ == h && e.repository@ == chart_name@
                && e.version@ == version@ && e.digest is None,
            None => r is Err,
        },
{
    proof {
        reveal_strlit("oci://");
    }
    match strip_prefix(repository_url, "oci://") {
        Some(rest) => {
            assert(rest@ =~= repository_url@.skip(6));
            match find_char(rest, '/') {
                Some(i) => {
                    proof {
                        crate::text::lemma_first_index_bounds(rest@, '/');
                    }
                    let n = rest.unicode_len();
                    let registry = slice(rest, 0, i);
                    let repository = slice(rest, i + 1, n);
                    assert(registry@ =~= rest@.take(i as int));
                    assert(repository@ =~= rest@.skip(i + 1));
                    Ok(
                        ChartPushEvent {
                            registry: owned(registry),
                            repository: owned(repository),
                            version: owned(version),
                            digest: None,
                        },
                    )
                },
                None => Err(ChartEventError::InvalidOciUrl(owned(repository_url))),
            }
        },
        None => match url_host(repository_url) {
            Some(h) => Ok(
                ChartPushEvent {
                    registry: h,
                    repository: owned(chart_name),
                    version: owned(version),
                    digest: None,
                },
            ),
            None => Err(ChartEventError::InvalidHttpUrl(owned(repository_url))),
        },
    }
}

} // verus!
