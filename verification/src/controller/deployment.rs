//! Decisions of the Deployment controller: reading a deployment's policy,
//! judging a reconcile, deciding what to do with an available image, and
//! the UpdateRequest it files when approval is needed.

use crate::clock::{now, parse_rfc3339, rfc3339_instant, total_nanos, Instant};
use crate::models::crd::{TargetRef, UpdatePolicyType, UpdateRequestSpec, UpdateType};
use crate::models::policy::{
    annotations, pattern_of, policy_from_annotations, policy_matches_annotations, policy_named,
    PolicyError, ResourcePolicy, UpdatePolicy,
};
use crate::parse::{decimal, int_text, i64_to_string, lookup, map_get};
use crate::policy::{check_error_text, clean_version, policy_decision, PolicyEngine, PolicyCheckError};
use crate::text::{
    owned, seq_ends_with, seq_starts_with, slice, str_eq, strip_prefix, ends_with, starts_with,
};
use crate::version::semver_numbers;
use crate::webhook::{image_parts, split_image};
use std::collections::BTreeMap;
use vstd::prelude::*;

verus! {

/// An error of the controller, in the shape of a Kubernetes API error
/// response.
#[derive(Debug, Clone)]
pub struct ControllerError {
    pub status: String,
    pub message: String,
    pub reason: String,
    pub code: u16,
}

/// `e` is an error response with `message` and `reason`.
pub open spec fn is_error(e: ControllerError, message: Seq<char>, reason: Seq<char>) -> bool {
    &&& e.status@ == "Error"@
    &&& e.message@ == message
    &&& e.reason@ == reason
    &&& e.code == 400
}

/// `r` is the error response with `message` and `reason`.
pub open spec fn fails_with<T>(r: Result<T, ControllerError>, message: Seq<char>, reason: Seq<char>) -> bool {
    match r {
        Ok(_) => false,
        Err(e) => is_error(e, message, reason),
    }
}

fn error_with(message: String, reason: &str) -> (r: ControllerError)
    ensures
        is_error(r, message@, reason@),
{
    ControllerError { status: owned("Error"), message, reason: owned(reason), code: 400 }
}

/// Helper to create an error from a string message
pub fn create_error(msg: &str) -> (r: ControllerError)
    ensures
        is_error(r, msg@, "ProcessingError"@),
{
    error_with(owned(msg), "ProcessingError")
}

/// Parse an image string into (name, tag): the tag follows the last `:`
/// unless a `/` comes after it (a registry port); without a tag it is
/// `latest`. Never fails.
pub fn parse_image(image: &str) -> (r: Result<(String, String), ControllerError>)
    ensures
        r matches Ok(p) && p.0@ == image_parts(image@).0 && p.1@ == image_parts(image@).1,
{
    Ok(split_image(image))
}

/// The record of a policy on an update request: the semver and glob
/// policies keep their name, the others are recorded as none.
pub open spec fn crd_policy(policy: UpdatePolicy) -> UpdatePolicyType {
    match policy {
        UpdatePolicy::Major => UpdatePolicyType::Major,
        UpdatePolicy::Minor => UpdatePolicyType::Minor,
        UpdatePolicy::Patch => UpdatePolicyType::Patch,
        UpdatePolicy::Glob => UpdatePolicyType::Glob,
        _ => UpdatePolicyType::Never,
    }
}

/// Map UpdatePolicy to UpdatePolicyType for CRD
pub fn map_policy_to_crd(policy: &UpdatePolicy) -> (r: UpdatePolicyType)
    ensures
        r == crd_policy(*policy),
{
    match policy {
        UpdatePolicy::Major => UpdatePolicyType::Major,
        UpdatePolicy::Minor => UpdatePolicyType::Minor,
        UpdatePolicy::Patch => UpdatePolicyType::Patch,
        UpdatePolicy::Glob => UpdatePolicyType::Glob,
        _ => UpdatePolicyType::Never,
    }
}

/// Simple glob matching: `*` matches everything, a trailing `*` matches the
/// texts with that prefix, a leading `*` those with that suffix, and any
/// other pattern only itself.
pub open spec fn simple_glob(pattern: Seq<char>, text: Seq<char>) -> bool {
    if pattern == "*"@ {
        true
    } else if pattern.len() > 0 && pattern.last() == '*' {
        seq_starts_with(text, pattern.drop_last())
    } else if pattern.len() > 0 && pattern[0] == '*' {
        seq_ends_with(text, pattern.drop_first())
    } else {
        pattern == text
    }
}

/// Simple glob matching (supports * wildcard)
pub fn glob_match(pattern: &str, text: &str) -> (r: bool)
    ensures
        r == simple_glob(pattern@, text@),
{
    proof {
        reveal_strlit("*");
    }
    if str_eq(pattern, "*") {
        return true;
    }
    let n = pattern.unicode_len();
    if n > 0 && pattern.get_char(n - 1) == '*' {
        let prefix = slice(pattern, 0, n - 1);
        assert(prefix@ =~= pattern@.drop_last());
        return starts_with(text, prefix);
    }
    if n > 0 && pattern.get_char(0) == '*' {
        let suffix = slice(pattern, 1, n);
        assert(suffix@ =~= pattern@.drop_first());
        return ends_with(text, suffix);
    }
    str_eq(pattern, text)
}

/// The error for a policy annotation that names no policy.
pub open spec fn policy_error_message(text: Seq<char>) -> Seq<char> {
    "Failed to parse policy: Invalid policy: "@ + text
}

/// Reads a deployment's update policy from its annotations; an unknown
/// policy name is an `InvalidPolicy` error.
pub fn parse_policy_from_annotations(annotations: &BTreeMap<String, String>) -> (r: Result<
    ResourcePolicy,
    ControllerError,
>)
    ensures
        match r {
            Ok(p) => policy_matches_annotations(p, annotations.deep_view()),
            Err(e) => exists|t: Seq<char>|
                {
                    &&& lookup(annotations.deep_view(), annotations::POLICY@) == Some(t)
                    &&& policy_named(t) is None
                    &&& is_error(e, policy_error_message(t), "InvalidPolicy"@)
                },
        },
{
    match policy_from_annotations(annotations) {
        Ok(p) => Ok(p),
        Err(PolicyError::InvalidPolicy(t)) => {
            let mut m = owned("Failed to parse policy: Invalid policy: ");
            m.append(t.as_str());
            Err(error_with(m, "InvalidPolicy"))
        },
    }
}

/// Whether `images` (the names of the tracked containers) lets container
/// `name` be processed: all are when the list is empty.
pub open spec fn tracks(images: Seq<Seq<char>>, name: Seq<char>) -> bool {
    images.len() == 0 || images.contains(name)
}

/// Whether the policy tracks the container `name`.
pub fn tracks_container(policy: &ResourcePolicy, name: &str) -> (r: bool)
    ensures
        r == tracks(policy.images.deep_view(), name@),
{
    let n = policy.images.len();
    if n == 0 {
        return true;
    }
    let mut i: usize = 0;
    while i < n
        invariant
            n == policy.images@.len(),
            i <= n,
            forall|k: int| 0 <= k < i ==> policy.images.deep_view()[k] != name@,
        decreases n - i,
    {
        if str_eq(policy.images[i].as_str(), name) {
            assert(policy.images.deep_view()[i as int] == name@);
            return true;
        }
        i = i + 1;
    }
    assert(!policy.images.deep_view().contains(name@));
    false
}

/// A container of a deployment's pod template.
#[derive(Debug, Clone)]
pub struct ContainerInfo {
    pub name: String,
    pub image: Option<String>,
}

/// What reconciling reads of a deployment.
#[derive(Debug, Clone)]
pub struct DeploymentView {
    pub name: String,
    pub namespace: Option<String>,
    pub annotations: Option<BTreeMap<String, String>>,
    /// Whether the deployment has a spec
    pub has_spec: bool,
    /// The containers of the pod template, `None` when the template has no
    /// spec
    pub containers: Option<Vec<ContainerInfo>>,
}

/// What a reconcile asks for: to be run again after some seconds, and
/// whether the deployment counts as watched.
#[derive(Debug, Clone, Copy, PartialEq, Eq, Structural)]
pub struct ReconcileOutcome {
    pub requeue_seconds: u64,
    pub watched: bool,
}

/// The first tracked container without an image, if any.
pub open spec fn first_imageless(images: Seq<Seq<char>>, cs: Seq<ContainerInfo>) -> Option<Seq<char>>
    decreases cs.len(),
{
    if cs.len() == 0 {
        None
    } else if tracks(images, cs[0].name@) && cs[0].image is None {
        Some(cs[0].name@)
    } else {
        first_imageless(images, cs.drop_first())
    }
}

/// Reconciles a deployment. Fails without a namespace, with an unknown
/// policy, without a (template) spec, or when a tracked container has no
/// image. A deployment without annotations, or whose policy never
/// updates, is looked at again in five minutes; a tracked one in a minute.
#[verifier::loop_isolation(false)]
pub fn reconcile(d: &DeploymentView) -> (r: Result<ReconcileOutcome, ControllerError>)
    ensures
        d.namespace is None ==> fails_with(r,
            "Deployment has no namespace"@,
            "MissingNamespace"@,
        ),
        d.namespace is Some && d.annotations is None ==> r == Ok::<ReconcileOutcome, ControllerError>(
            ReconcileOutcome { requeue_seconds: 300, watched: false },
        ),
        d.namespace is Some && d.annotations is Some ==> {
            let m = d.annotations->0.deep_view();
            match lookup(m, annotations::POLICY@) {
                Some(t) if policy_named(t) is None => fails_with(r,
                    policy_error_message(t),
                    "InvalidPolicy"@,
                ),
                _ => {
                    let never = match lookup(m, annotations::POLICY@) {
                        Some(t) => policy_named(t) == Some(UpdatePolicy::Never),
                        None => true,
                    };
                    if never {
                        r == Ok::<ReconcileOutcome, ControllerError>(
                            ReconcileOutcome { requeue_seconds: 300, watched: false },
                        )
                    } else if !d.has_spec {
                        fails_with(r, "Deployment has no spec"@, "ProcessingError"@)
                    } else if d.containers is None {
                        fails_with(r,
                            "Deployment template has no spec"@,
                            "ProcessingError"@,
                        )
                    } else {
                        let images = match lookup(m, annotations::IMAGES@) {
                            Some(v) => crate::parse::comma_list(v),
                            None => Seq::<Seq<char>>::empty(),
                        };
                        match first_imageless(images, d.containers->0@) {
                            Some(name) => fails_with(r,
                                "Container "@ + name + " has no image"@,
                                "ProcessingError"@,
                            ),
                            None => r == Ok::<ReconcileOutcome, ControllerError>(
                                ReconcileOutcome { requeue_seconds: 60, watched: true },
                            ),
                        }
                    }
                },
            }
        },
{
    if d.namespace.is_none() {
        return Err(error_with(owned("Deployment has no namespace"), "MissingNamespace"));
    }
    let annotations = match &d.annotations {
        Some(a) => a,
        None => return Ok(ReconcileOutcome { requeue_seconds: 300, watched: false }),
    };
    let policy = match parse_policy_from_annotations(annotations) {
        Ok(p) => p,
        Err(e) => return Err(e),
    };
    if policy.policy == UpdatePolicy::Never {
        return Ok(ReconcileOutcome { requeue_seconds: 300, watched: false });
    }
    if !d.has_spec {
        return Err(create_error("Deployment has no spec"));
    }
    let containers = match &d.containers {
        Some(cs) => cs,
        None => return Err(create_error("Deployment template has no spec")),
    };
    let ghost images = policy.images.deep_view();
    let mut i: usize = 0;
    assert(containers@.skip(0) =~= containers@);
    while i < containers.len()
        invariant
            i <= containers@.len(),
            images == policy.images.deep_view(),
            first_imageless(images, containers@) == first_imageless(images, containers@.skip(i as int)),
        decreases containers@.len() - i,
    {
        let c = &containers[i];
        assert(containers@.skip(i as int)[0] == containers@[i as int]);
        assert(containers@.skip(i as int).drop_first() =~= containers@.skip(i + 1));
        if tracks_container(&policy, c.name.as_str()) {
            match &c.image {
                None => {
                    let mut m = owned("Container ");
                    m.append(c.name.as_str());
                    m.append(" has no image");
                    return Err(create_error(m.as_str()));
                },
                Some(image) => {
                    let _parts = parse_image(image.as_str());
                },
            }
        }
        i = i + 1;
    }
    assert(containers@.skip(i as int) =~= Seq::<ContainerInfo>::empty());
    Ok(ReconcileOutcome { requeue_seconds: 60, watched: true })
}

/// What to do about an available image.
#[derive(Debug, Clone, Copy, PartialEq, Eq, Structural)]
pub enum UpdateDecision {
    /// The policy does not allow the new version
    NotAllowed,
    /// The last update is too recent
    IntervalNotReached,
    /// File an UpdateRequest and wait for approval
    RequestApproval,
    /// Update the deployment right away
    AutoUpdate,
}

/// Largest number of seconds that chrono takes as a duration
/// (`i64::MAX / 1000`).
pub const MAX_INTERVAL_SECONDS: i64 = 9_223_372_036_854_775;

/// The minimum interval of a policy in seconds, five minutes when unset.
pub open spec fn min_interval_of(p: ResourcePolicy) -> u64 {
    match p.min_update_interval {
        Some(m) => m,
        None => 300,
    }
}

/// The interval as a signed count of seconds (the `u64` read as an `i64`,
/// wrapping, as the duration is built from it).
pub open spec fn interval_as_i64(m: u64) -> int {
    if m <= i64::MAX {
        m as int
    } else {
        m - 18_446_744_073_709_551_616
    }
}

/// The interval can be built as a duration.
pub open spec fn interval_in_range(m: u64) -> bool {
    -MAX_INTERVAL_SECONDS <= interval_as_i64(m) <= MAX_INTERVAL_SECONDS
}

/// The message of a failed policy evaluation on the tags `current` and
/// `new`: the current tag is reported when it does not parse, else the new.
pub open spec fn evaluation_error(current: Seq<char>, new: Seq<char>) -> Seq<char> {
    "Failed to evaluate policy: "@ + if semver_numbers(clean_version(current)) is None {
        "Failed to parse current version: "@ + current
    } else {
        "Failed to parse new version: "@ + new
    }
}

/// What to do when `new_image` is available for a container running
/// `current_image`, at time `now`, the last update having been at
/// `last_update`: not allowed by the policy (on the tags); skipped while
/// less than the minimum interval has passed; otherwise an approval request
/// or an immediate update, as the policy says. `Err` holds the message of a
/// failed policy evaluation.
pub open spec fn update_decision(
    policy: ResourcePolicy,
    current_image: Seq<char>,
    new_image: Seq<char>,
    last_update: Option<Instant>,
    now: Instant,
) -> Result<UpdateDecision, Seq<char>> {
    let current_tag = image_parts(current_image).1;
    let new_tag = image_parts(new_image).1;
    match policy_decision(policy.policy, pattern_of(&policy), current_tag, new_tag) {
        None => Err(evaluation_error(current_tag, new_tag)),
        Some(false) => Ok(UpdateDecision::NotAllowed),
        Some(true) => {
            let too_soon = match last_update {
                Some(t) => total_nanos(now) - total_nanos(t) < interval_as_i64(min_interval_of(policy))
                    * 1_000_000_000,
                None => false,
            };
            if too_soon {
                Ok(UpdateDecision::IntervalNotReached)
            } else if policy.require_approval {
                Ok(UpdateDecision::RequestApproval)
            } else {
                Ok(UpdateDecision::AutoUpdate)
            }
        },
    }
}

/// `r` is the decision `d`, its error turned into a processing error.
pub open spec fn decided_as(r: Result<UpdateDecision, ControllerError>, d: Result<UpdateDecision, Seq<char>>) -> bool {
    match d {
        Ok(x) => r == Ok::<UpdateDecision, ControllerError>(x),
        Err(m) => fails_with(r, m, "ProcessingError"@),
    }
}

fn interval_nanos(m: u64) -> (r: i128)
    ensures
        r == interval_as_i64(m) * 1_000_000_000,
{
    let s: i128 = if m <= 9_223_372_036_854_775_807u64 {
        m as i128
    } else {
        (m as i128) - 18_446_744_073_709_551_616i128
    };
    s * 1_000_000_000i128
}

/// Decides what to do when `new_image` is available for a container running
/// `current_image` (see `update_decision`).
pub fn plan_image_update(
    policy: &ResourcePolicy,
    current_image: &str,
    new_image: &str,
    last_update: Option<Instant>,
    now: Instant,
) -> (r: Result<UpdateDecision, ControllerError>)
    requires
        last_update is Some ==> interval_in_range(min_interval_of(*policy)),
    ensures
        decided_as(r, update_decision(*policy, current_image@, new_image@, last_update, now)),
{
    let (_, current_tag) = split_image(current_image);
    let (_, new_tag) = split_image(new_image);
    let engine = PolicyEngine;
    let allowed = match engine.should_update(policy, current_tag.as_str(), new_tag.as_str()) {
        Ok(b) => b,
        Err(e) => {
            let mut m = owned("Failed to evaluate policy: ");
            let detail = e.message();
            m.append(detail.as_str());
            return Err(create_error(m.as_str()));
        },
    };
    if !allowed {
        return Ok(UpdateDecision::NotAllowed);
    }
    let min = match policy.min_update_interval {
        Some(m) => m,
        None => 300,
    };
    match last_update {
        Some(t) => {
            let elapsed: i128 = ((now.seconds as i128) - (t.seconds as i128)) * 1_000_000_000i128
                + ((now.nanos as i128) - (t.nanos as i128));
            if elapsed < interval_nanos(min) {
                return Ok(UpdateDecision::IntervalNotReached);
            }
        },
        None => {},
    }
    if policy.require_approval {
        Ok(UpdateDecision::RequestApproval)
    } else {
        Ok(UpdateDecision::AutoUpdate)
    }
}

/// The time of the last update, read from the `headwind.sh/last-update`
/// annotation when it holds an RFC 3339 timestamp.
pub open spec fn last_update_of(annotations: Option<Map<Seq<char>, Seq<char>>>) -> Option<Instant> {
    match annotations {
        Some(m) => match lookup(m, annotations::LAST_UPDATE@) {
            Some(v) => rfc3339_instant(v),
            None => None,
        },
        None => None,
    }
}

fn annotation_time(annotations: Option<&BTreeMap<String, String>>) -> (r: Option<Instant>)
    ensures
        r == last_update_of(
            match annotations {
                Some(a) => Some(a.deep_view()),
                None => None,
            },
        ),
{
    match annotations {
        Some(a) => match map_get(a, annotations::LAST_UPDATE) {
            Some(v) => parse_rfc3339(v.as_str()),
            None => None,
        },
        None => None,
    }
}

fn in_range(m: u64) -> (r: bool)
    ensures
        r == interval_in_range(m),
{
    let s: i128 = if m <= 9_223_372_036_854_775_807u64 {
        m as i128
    } else {
        (m as i128) - 18_446_744_073_709_551_616i128
    };
    -9_223_372_036_854_775i128 <= s && s <= 9_223_372_036_854_775i128
}

/// Decides, at the current time, what to do when `new_image` is available
/// for a container running `current_image` of a deployment with
/// `annotations`; gives the time it judged at with the decision. `None`
/// when the last update is recorded and the minimum interval is too large
/// to be built as a duration.
pub fn decide_image_update(
    policy: &ResourcePolicy,
    current_image: &str,
    new_image: &str,
    annotations: Option<&BTreeMap<String, String>>,
) -> (r: Option<(Instant, Result<UpdateDecision, ControllerError>)>)
    ensures
        match r {
            Some((at, d)) => decided_as(
                d,
                update_decision(
                    *policy,
                    current_image@,
                    new_image@,
                    last_update_of(
                        match annotations {
                            Some(a) => Some(a.deep_view()),
                            None => None,
                        },
                    ),
                    at,
                ),
            ),
            None => {
                &&& last_update_of(
                    match annotations {
                        Some(a) => Some(a.deep_view()),
                        None => None,
                    },
                ) is Some
                &&& !interval_in_range(min_interval_of(*policy))
            },
        },
{
    let last = annotation_time(annotations);
    let min = match policy.min_update_interval {
        Some(m) => m,
        None => 300,
    };
    if last.is_some() && !in_range(min) {
        return None;
    }
    let at = now();
    Some((at, plan_image_update(policy, current_image, new_image, last, at)))
}

/// `s` with every `.` and `:` replaced by `-`.
pub open spec fn dashed(s: Seq<char>) -> Seq<char> {
    s.map_values(|c: char| if c == '.' || c == ':' { '-' } else { c })
}

fn dash_separators(s: &str) -> (r: String)
    ensures
        r@ == dashed(s@),
{
    let n = s.unicode_len();
    let mut out = String::new();
    let mut i: usize = 0;
    while i < n
        invariant
            n == s@.len(),
            i <= n,
            out@ == dashed(s@.take(i as int)),
        decreases n - i,
    {
        let c = s.get_char(i);
        let ghost before = out@;
        if c == '.' || c == ':' {
            out.append("-");
            proof {
                reveal_strlit("-");
            }
        } else {
            let piece = s.substring_char(i, i + 1);
            assert(piece@ =~= seq![c]);
            out.append(piece);
        }
        assert(dashed(s@.take(i + 1)) =~= dashed(s@.take(i as int)).push(
            if c == '.' || c == ':' {
                '-'
            } else {
                c
            },
        ));
        i = i + 1;
    }
    assert(s@.take(n as int) =~= s@);
    out
}

/// The name of the UpdateRequest for an image update: the deployment, the
/// container, the new tag with `.` and `:` made `-`, and the timestamp.
pub open spec fn request_name_of(
    deployment_name: Seq<char>,
    container_name: Seq<char>,
    new_tag: Seq<char>,
    timestamp: int,
) -> Seq<char> {
    deployment_name + "-"@ + container_name + "-"@ + dashed(new_tag) + "-"@ + int_text(timestamp)
}

/// Generate a unique name for the update request.
pub fn update_request_name(deployment_name: &str, container_name: &str, new_tag: &str, timestamp: i64) -> (r:
    String)
    ensures
        r@ == request_name_of(deployment_name@, container_name@, new_tag@, timestamp as int),
{
    let mut r = owned(deployment_name);
    r.append("-");
    r.append(container_name);
    r.append("-");
    let tag = dash_separators(new_tag);
    r.append(tag.as_str());
    r.append("-");
    let ts = i64_to_string(timestamp);
    r.append(ts.as_str());
    r
}

/// The reason written on an image UpdateRequest.
pub open spec fn update_reason(image_name: Seq<char>, current_tag: Seq<char>, new_tag: Seq<char>) -> Seq<char> {
    "New version available for "@ + image_name + ": "@ + current_tag + " -> "@ + new_tag
}

/// One day, in seconds: how long an UpdateRequest stays valid.
pub const REQUEST_LIFETIME_SECONDS: i64 = 86_400;

/// The UpdateRequest filed for an image update that needs approval, made
/// at `now`: its name, and its spec (target the deployment, approval
/// required, expiring a day later).
pub fn create_update_request(
    namespace: &str,
    deployment_name: &str,
    container_name: &str,
    image_name: &str,
    current_image: &str,
    new_image: &str,
    policy: &UpdatePolicy,
    now: Instant,
) -> (r: Result<(String, UpdateRequestSpec), ControllerError>)
    requires
        now.seconds < i64::MAX - REQUEST_LIFETIME_SECONDS,
    ensures
        r matches Ok(x) && {
            let (name, spec) = x;
            &&& name@ == request_name_of(
                deployment_name@,
                container_name@,
                image_parts(new_image@).1,
                now.seconds as int,
            )
            &&& spec.target_ref.api_version@ == "apps/v1"@
            &&& spec.target_ref.kind@ == "Deployment"@
            &&& spec.target_ref.name@ == deployment_name@
            &&& spec.target_ref.namespace@ == namespace@
            &&& spec.update_type == UpdateType::Image
            &&& crate::config::opt_text(spec.container_name) == Some(container_name@)
            &&& spec.current_image@ == current_image@
            &&& spec.new_image@ == new_image@
            &&& spec.policy == crd_policy(*policy)
            &&& crate::config::opt_text(spec.reason) == Some(
                update_reason(image_name@, image_parts(current_image@).1, image_parts(new_image@).1),
            )
            &&& spec.require_approval
            &&& spec.expires_at == Some(
                Instant { seconds: (now.seconds + REQUEST_LIFETIME_SECONDS) as i64, nanos: now.nanos },
            )
        },
{
    let (_, current_tag) = match parse_image(current_image) {
        Ok(p) => p,
        Err(e) => return Err(e),
    };
    let (_, new_tag) = match parse_image(new_image) {
        Ok(p) => p,
        Err(e) => return Err(e),
    };
    let name = update_request_name(deployment_name, container_name, new_tag.as_str(), now.seconds);
    let mut reason = owned("New version available for ");
    reason.append(image_name);
    reason.append(": ");
    reason.append(current_tag.as_str());
    reason.append(" -> ");
    reason.append(new_tag.as_str());
    let spec = UpdateRequestSpec {
        target_ref: TargetRef {
            api_version: owned("apps/v1"),
            kind: owned("Deployment"),
            name: owned(deployment_name),
            namespace: owned(namespace),
        },
        update_type: UpdateType::Image,
        container_name: Some(owned(container_name)),
        current_image: owned(current_image),
        new_image: owned(new_image),
        policy: map_policy_to_crd(policy),
        reason: Some(reason),
        require_approval: true,
        expires_at: Some(Instant { seconds: now.seconds + REQUEST_LIFETIME_SECONDS, nanos: now.nanos }),
    };
    Ok((name, spec))
}

} // verus!
