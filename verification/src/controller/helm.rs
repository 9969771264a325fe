//! Decisions of the HelmRelease controller: the policy of a release, when
//! to look for new chart versions and where, and the UpdateRequest filed
//! for a new version.

use super::deployment::{crd_policy, fails_with, is_error, ControllerError, REQUEST_LIFETIME_SECONDS};
use crate::clock::Instant;
use crate::config::opt_text;
use crate::models::crd::{TargetRef, UpdatePhase, UpdateRequestSpec, UpdateType};
use crate::models::policy::{
    annotations, bool_or, policy_named, u64_opt, EventSource, ResourcePolicy, UpdatePolicy,
};
use crate::notifications::DeploymentInfo;
use crate::policy::{clean_version, policy_decision, PolicyCheckError, PolicyEngine};
use crate::version::semver_numbers;
use crate::parse::{int_text, i64_to_string, lookup, map_get, parse_bool, parse_u64};
use crate::text::{owned, seq_starts_with, starts_with, str_eq, trim_end_char, trim_end_matches_char};
use std::collections::BTreeMap;
use vstd::prelude::*;

verus! {

/// The annotations of a resource as characters, when it has any.
pub open spec fn annotation_map(annotations: Option<&BTreeMap<String, String>>) -> Option<
    Map<Seq<char>, Seq<char>>,
> {
    match annotations {
        Some(a) => Some(a.deep_view()),
        None => None,
    }
}

/// The value of annotation `key`, when there are annotations holding it.
pub open spec fn annotation(m: Option<Map<Seq<char>, Seq<char>>>, key: Seq<char>) -> Option<Seq<char>> {
    match m {
        Some(m) => lookup(m, key),
        None => None,
    }
}

/// The policy of a HelmRelease: the one its annotation names, and the
/// policy that never updates when the annotation is absent or unknown.
pub open spec fn release_policy(m: Option<Map<Seq<char>, Seq<char>>>) -> UpdatePolicy {
    match annotation(m, annotations::POLICY@) {
        Some(v) => match policy_named(v) {
            Some(p) => p,
            None => UpdatePolicy::Never,
        },
        None => UpdatePolicy::Never,
    }
}

fn annotation_value<'a>(annotations: Option<&'a BTreeMap<String, String>>, key: &str) -> (r: Option<
    &'a String,
>)
    ensures
        match r {
            Some(v) => annotation(annotation_map(annotations), key@) == Some(v@),
            None => annotation(annotation_map(annotations), key@) is None,
        },
{
    match annotations {
        Some(a) => map_get(a, key),
        None => None,
    }
}

/// Reads the policy of a HelmRelease from its annotations.
pub fn parse_policy_from_annotations(annotations: Option<&BTreeMap<String, String>>) -> (r: UpdatePolicy)
    ensures
        r == release_policy(annotation_map(annotations)),
{
    match annotation_value(annotations, annotations::POLICY) {
        Some(v) => match UpdatePolicy::parse(v.as_str()) {
            Ok(p) => p,
            Err(_) => UpdatePolicy::Never,
        },
        None => UpdatePolicy::Never,
    }
}

/// The resource policy of a HelmRelease: `policy`, with the pattern,
/// approval and minimum interval that the annotations set (approval is
/// required unless an annotation says `false`), tracking no particular
/// container and reacting to webhooks.
pub open spec fn release_resource_policy(
    r: ResourcePolicy,
    m: Option<Map<Seq<char>, Seq<char>>>,
    policy: UpdatePolicy,
) -> bool {
    &&& r.policy == policy
    &&& opt_text(r.pattern) == annotation(m, annotations::PATTERN@)
    &&& r.require_approval == bool_or(annotation(m, annotations::REQUIRE_APPROVAL@), true)
    &&& r.min_update_interval == match annotation(m, annotations::MIN_UPDATE_INTERVAL@) {
        Some(v) => u64_opt(v),
        None => None,
    }
    &&& r.images@.len() == 0
    &&& r.event_source == EventSource::Webhook
    &&& r.polling_interval is None
}

/// Builds the resource policy of a HelmRelease.
pub fn build_resource_policy(annotations: Option<&BTreeMap<String, String>>, policy: UpdatePolicy) -> (r:
    ResourcePolicy)
    ensures
        release_resource_policy(r, annotation_map(annotations), policy),
{
    let pattern = match annotation_value(annotations, annotations::PATTERN) {
        Some(v) => Some(v.clone()),
        None => None,
    };
    let require_approval = match annotation_value(annotations, annotations::REQUIRE_APPROVAL) {
        Some(v) => match parse_bool(v.as_str()) {
            Some(b) => b,
            None => true,
        },
        None => true,
    };
    let min_update_interval = match annotation_value(annotations, annotations::MIN_UPDATE_INTERVAL) {
        Some(v) => parse_u64(v.as_str()),
        None => None,
    };
    ResourcePolicy {
        policy,
        pattern,
        require_approval,
        min_update_interval,
        images: Vec::new(),
        event_source: EventSource::Webhook,
        polling_interval: None,
    }
}

/// What becomes of a chart version found for a HelmRelease.
#[derive(Debug)]
pub enum DiscoveredUpdate {
    /// The policy allows it: file an UpdateRequest under this policy
    File(ResourcePolicy),
    /// The policy refuses it
    Rejected,
    /// A version could not be read as the policy needs
    PolicyError(PolicyCheckError),
}

/// Judges `new_version`, found for a release at `base_version` whose
/// policy is `policy`, under the resource policy its annotations give:
/// filed when the policy allows it, rejected when it refuses it, an error
/// when a semver-based policy cannot read a version.
pub fn judge_discovered_version(
    annotations: Option<&BTreeMap<String, String>>,
    policy: UpdatePolicy,
    base_version: &str,
    new_version: &str,
) -> (r: DiscoveredUpdate)
    ensures
        match policy_decision(
            policy,
            annotation(annotation_map(annotations), annotations::PATTERN@),
            base_version@,
            new_version@,
        ) {
            Some(true) => r matches DiscoveredUpdate::File(p) && release_resource_policy(
                p,
                annotation_map(annotations),
                policy,
            ),
            Some(false) => r is Rejected,
            None => r matches DiscoveredUpdate::PolicyError(e) && match e {
                PolicyCheckError::InvalidCurrentVersion(v) => v@ == base_version@ && semver_numbers(
                    clean_version(base_version@),
                ) is None,
                PolicyCheckError::InvalidNewVersion(v) => v@ == new_version@ && semver_numbers(
                    clean_version(base_version@),
                ) is Some && semver_numbers(clean_version(new_version@)) is None,
            },
        },
{
    let rp = build_resource_policy(annotations, policy);
    match PolicyEngine.should_update(&rp, base_version, new_version) {
        Ok(true) => DiscoveredUpdate::File(rp),
        Ok(false) => DiscoveredUpdate::Rejected,
        Err(e) => DiscoveredUpdate::PolicyError(e),
    }
}

/// What reconciling a HelmRelease leads to.
#[derive(Debug, Clone)]
pub enum HelmReconcilePlan {
    /// Nothing to do; look again after this many seconds
    Requeue(u64),
    /// Look for chart versions newer than this one, then look again in five
    /// minutes
    Discover(String),
}

/// The version a release is compared from: the revision last attempted
/// when the status has one, else the version of the spec (`*` when
/// unset).
pub open spec fn base_version_of(spec_version: Option<Seq<char>>, attempted: Option<Seq<char>>) -> Seq<char> {
    match attempted {
        Some(a) => a,
        None => match spec_version {
            Some(v) => v,
            None => "*"@,
        },
    }
}

/// Reconciles a HelmRelease: fails when it has no namespace; looks again
/// in an hour when its policy never updates or auto-discovery is off;
/// otherwise looks for versions newer than the base version.
pub fn reconcile_helm_release(
    namespace: Option<&str>,
    annotations: Option<&BTreeMap<String, String>>,
    spec_version: Option<&str>,
    last_attempted_revision: Option<&str>,
    auto_discovery_enabled: bool,
) -> (r: Result<HelmReconcilePlan, ControllerError>)
    ensures
        namespace is None ==> match r {
            Err(e) => {
                &&& e.status@ == "Failure"@
                &&& e.message@ == "HelmRelease must be namespaced"@
                &&& e.reason@ == "BadRequest"@
                &&& e.code == 400
            },
            Ok(_) => false,
        },
        namespace is Some ==> match r {
            Ok(HelmReconcilePlan::Requeue(s)) => s == 3600 && (release_policy(
                annotation_map(annotations),
            ) == UpdatePolicy::Never || !auto_discovery_enabled),
            Ok(HelmReconcilePlan::Discover(v)) => {
                &&& release_policy(annotation_map(annotations)) != UpdatePolicy::Never
                &&& auto_discovery_enabled
                &&& v@ == base_version_of(
                    match spec_version {
                        Some(s) => Some(s@),
                        None => None,
                    },
                    match last_attempted_revision {
                        Some(s) => Some(s@),
                        None => None,
                    },
                )
            },
            Err(_) => false,
        },
{
    if namespace.is_none() {
        return Err(
            ControllerError {
                status: owned("Failure"),
                message: owned("HelmRelease must be namespaced"),
                reason: owned("BadRequest"),
                code: 400,
            },
        );
    }
    let policy = parse_policy_from_annotations(annotations);
    if policy == UpdatePolicy::Never {
        return Ok(HelmReconcilePlan::Requeue(3600));
    }
    let base = match last_attempted_revision {
        Some(a) => owned(a),
        None => match spec_version {
            Some(v) => owned(v),
            None => owned("*"),
        },
    };
    if !auto_discovery_enabled {
        return Ok(HelmReconcilePlan::Requeue(3600));
    }
    Ok(HelmReconcilePlan::Discover(base))
}

/// Where the versions of a chart are looked up.
#[derive(Debug, Clone, Copy, PartialEq, Eq, Structural)]
pub enum ChartSource {
    /// The source is not a HelmRepository: no lookup
    Unsupported,
    /// An OCI registry (`oci://` address)
    Oci,
    /// A classic repository with an index file
    Http,
}

/// The kind of lookup for a source of kind `kind` at address `url`.
pub open spec fn chart_source_of(kind: Seq<char>, url: Seq<char>) -> ChartSource {
    if kind != "HelmRepository"@ {
        ChartSource::Unsupported
    } else if seq_starts_with(url, "oci://"@) {
        ChartSource::Oci
    } else {
        ChartSource::Http
    }
}

/// Decides how the versions of a chart are looked up.
pub fn chart_source(source_kind: &str, repo_url: &str) -> (r: ChartSource)
    ensures
        r == chart_source_of(source_kind@, repo_url@),
{
    if !str_eq(source_kind, "HelmRepository") {
        ChartSource::Unsupported
    } else if starts_with(repo_url, "oci://") {
        ChartSource::Oci
    } else {
        ChartSource::Http
    }
}

/// The namespace of the repository: the one the source names, else the
/// release's own.
pub fn repository_namespace<'a>(source_namespace: Option<&'a str>, release_namespace: &'a str) -> (r: &'a str)
    ensures
        r@ == match source_namespace {
            Some(n) => n@,
            None => release_namespace@,
        },
{
    match source_namespace {
        Some(n) => n,
        None => release_namespace,
    }
}

/// The address of a chart in an OCI registry: the repository address
/// without trailing `/`, a `/`, and the chart.
pub fn oci_chart_url(repo_url: &str, chart_name: &str) -> (r: String)
    ensures
        r@ == trim_end_char(repo_url@, '/') + "/"@ + chart_name@,
{
    let mut r = owned(trim_end_matches_char(repo_url, '/'));
    r.append("/");
    r.append(chart_name);
    r
}

/// A chart at a version, as written on update requests: `chart:version`.
pub open spec fn chart_ref(chart: Seq<char>, version: Seq<char>) -> Seq<char> {
    chart + ":"@ + version
}

fn chart_at(chart: &str, version: &str) -> (r: String)
    ensures
        r@ == chart_ref(chart@, version@),
{
    let mut r = owned(chart);
    r.append(":");
    r.append(version);
    r
}

/// The UpdateRequest filed when a new chart version is allowed, made at
/// `now`: its name (the release and the timestamp), its spec (targeting the
/// HelmRelease, expiring a day later), and its first phase (pending when
/// approval is required, else approved).
pub fn create_update_request(
    namespace: &str,
    name: &str,
    chart_name: &str,
    current_version: &str,
    new_version: &str,
    policy: &ResourcePolicy,
    now: Instant,
) -> (r: (String, UpdateRequestSpec, UpdatePhase))
    requires
        now.seconds < i64::MAX - REQUEST_LIFETIME_SECONDS,
    ensures
        r.0@ == name@ + "-"@ + int_text(now.seconds as int),
        r.1.target_ref.api_version@ == "helm.toolkit.fluxcd.io/v2"@,
        r.1.target_ref.kind@ == "HelmRelease"@,
        r.1.target_ref.name@ == name@,
        r.1.target_ref.namespace@ == namespace@,
        r.1.update_type == UpdateType::HelmChart,
        r.1.container_name is None,
        r.1.current_image@ == chart_ref(chart_name@, current_version@),
        r.1.new_image@ == chart_ref(chart_name@, new_version@),
        r.1.policy == crd_policy(policy.policy),
        opt_text(r.1.reason) == Some("New chart version "@ + new_version@ + " available"@),
        r.1.require_approval == policy.require_approval,
        r.1.expires_at == Some(
            Instant { seconds: (now.seconds + REQUEST_LIFETIME_SECONDS) as i64, nanos: now.nanos },
        ),
        r.2 == if policy.require_approval {
            UpdatePhase::Pending
        } else {
            UpdatePhase::Approved
        },
{
    let mut ur_name = owned(name);
    ur_name.append("-");
    let ts = i64_to_string(now.seconds);
    ur_name.append(ts.as_str());
    let mut reason = owned("New chart version ");
    reason.append(new_version);
    reason.append(" available");
    let spec = UpdateRequestSpec {
        target_ref: TargetRef {
            api_version: owned("helm.toolkit.fluxcd.io/v2"),
            kind: owned("HelmRelease"),
            name: owned(name),
            namespace: owned(namespace),
        },
        update_type: UpdateType::HelmChart,
        container_name: None,
        current_image: chart_at(chart_name, current_version),
        new_image: chart_at(chart_name, new_version),
        policy: super::deployment::map_policy_to_crd(&policy.policy),
        reason: Some(reason),
        require_approval: policy.require_approval,
        expires_at: Some(Instant { seconds: now.seconds + REQUEST_LIFETIME_SECONDS, nanos: now.nanos }),
    };
    let phase = if policy.require_approval {
        UpdatePhase::Pending
    } else {
        UpdatePhase::Approved
    };
    (ur_name, spec, phase)
}

/// The resource a chart update notification is about.
pub fn release_info(name: &str, namespace: &str, chart_name: &str, current_version: &str, new_version: &str) -> (r:
    DeploymentInfo)
    ensures
        r.name@ == name@,
        r.namespace@ == namespace@,
        r.current_image@ == chart_ref(chart_name@, current_version@),
        r.new_image@ == chart_ref(chart_name@, new_version@),
        r.container is None,
        opt_text(r.resource_kind) == Some("HelmRelease"@),
{
    DeploymentInfo {
        name: owned(name),
        namespace: owned(namespace),
        current_image: chart_at(chart_name, current_version),
        new_image: chart_at(chart_name, new_version),
        container: None,
        resource_kind: Some(owned("HelmRelease")),
    }
}

} // verus!
