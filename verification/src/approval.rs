//! The approval API's rules: which update requests can still be decided,
//! the status an approval or rejection leaves, how an approved update is
//! carried out, what automatic rollback does after it, and which history a
//! rollback goes back to.

use crate::clock::Instant;
use crate::config::opt_text;
use crate::controller::deployment::ContainerInfo;
use crate::models::crd::{UpdatePhase, UpdateRequestSpec, UpdateRequestStatus};
use crate::notifications::DeploymentInfo;
use crate::rollback::{
    entries_of, trimmed, AutoRollbackConfig, HealthStatus, UpdateHistory, UpdateHistoryEntry,
};
use crate::text::{find_char, first_index_of, owned, slice, str_eq};
use std::collections::BTreeMap;
use vstd::prelude::*;

verus! {

/// The name of a phase, as `{:?}` writes it.
pub open spec fn phase_name(p: UpdatePhase) -> Seq<char> {
    match p {
        UpdatePhase::Pending => "Pending"@,
        UpdatePhase::Approved => "Approved"@,
        UpdatePhase::Rejected => "Rejected"@,
        UpdatePhase::Completed => "Completed"@,
        UpdatePhase::Failed => "Failed"@,
        UpdatePhase::Expired => "Expired"@,
    }
}

/// The name of a phase, as written in API answers.
pub fn phase_label(p: UpdatePhase) -> (r: &'static str)
    ensures
        r@ == phase_name(p),
{
    match p {
        UpdatePhase::Pending => "Pending",
        UpdatePhase::Approved => "Approved",
        UpdatePhase::Rejected => "Rejected",
        UpdatePhase::Completed => "Completed",
        UpdatePhase::Failed => "Failed",
        UpdatePhase::Expired => "Expired",
    }
}

/// A decision on an update request.
#[derive(Debug, Clone, Copy, PartialEq, Eq, Structural)]
pub enum Decision {
    Approve,
    Reject,
}

/// An update request that is no longer pending: the message and its phase.
#[derive(Debug, Clone)]
pub struct Conflict {
    pub message: String,
    pub phase: UpdatePhase,
}

/// Checks that an update request can still be decided: it has no status
/// yet or is pending. Otherwise the conflict names its phase.
pub fn check_pending(status: &Option<UpdateRequestStatus>, decision: Decision) -> (r: Result<(), Conflict>)
    ensures
        match status {
            Some(s) if s.phase != UpdatePhase::Pending => r matches Err(c) && c.phase == s.phase
                && c.message@ == "UpdateRequest is in "@ + phase_name(s.phase) + match decision {
                Decision::Approve => " state, cannot approve"@,
                Decision::Reject => " state, cannot reject"@,
            },
            _ => r is Ok,
        },
{
    match status {
        Some(s) => {
            if s.phase != UpdatePhase::Pending {
                let mut m = owned("UpdateRequest is in ");
                m.append(phase_label(s.phase));
                match decision {
                    Decision::Approve => m.append(" state, cannot approve"),
                    Decision::Reject => m.append(" state, cannot reject"),
                }
                return Err(Conflict { message: m, phase: s.phase });
            }
            Ok(())
        },
        None => Ok(()),
    }
}

fn copy_text(o: &Option<String>) -> (r: Option<String>)
    ensures
        r == *o,
{
    match o {
        Some(s) => Some(s.clone()),
        None => None,
    }
}

/// The resource an update request is about, for notifications.
pub fn request_deployment_info(spec: &UpdateRequestSpec) -> (r: DeploymentInfo)
    ensures
        r.name@ == spec.target_ref.name@,
        r.namespace@ == spec.target_ref.namespace@,
        r.current_image@ == spec.current_image@,
        r.new_image@ == spec.new_image@,
        r.container == spec.container_name,
        opt_text(r.resource_kind) == Some(spec.target_ref.kind@),
{
    DeploymentInfo {
        name: spec.target_ref.name.clone(),
        namespace: spec.target_ref.namespace.clone(),
        current_image: spec.current_image.clone(),
        new_image: spec.new_image.clone(),
        container: copy_text(&spec.container_name),
        resource_kind: Some(spec.target_ref.kind.clone()),
    }
}

/// The name given for a missing approver.
pub fn approver_label(approver: &Option<String>) -> (r: String)
    ensures
        r@ == match approver {
            Some(a) => a@,
            None => "unknown"@,
        },
{
    match approver {
        Some(a) => a.clone(),
        None => owned("unknown"),
    }
}

/// The reason given for a rejection without one.
pub fn rejection_label(reason: &Option<String>) -> (r: String)
    ensures
        r@ == match reason {
            Some(a) => a@,
            None => "No reason provided"@,
        },
{
    match reason {
        Some(a) => a.clone(),
        None => owned("No reason provided"),
    }
}

/// The status an approved update request gets at `now`: completed when
/// the update was applied, failed (with the error) when not.
pub fn approval_status(approver: &Option<String>, outcome: &Result<(), String>, now: Instant) -> (r:
    UpdateRequestStatus)
    ensures
        r.approved_by == *approver,
        r.approved_at == Some(now),
        r.last_updated == Some(now),
        r.rejected_by is None,
        r.rejected_at is None,
        match outcome {
            Ok(()) => r.phase == UpdatePhase::Completed && opt_text(r.message) == Some(
                "Update applied successfully"@,
            ),
            Err(e) => r.phase == UpdatePhase::Failed && opt_text(r.message) == Some(
                "Update failed: "@ + e@,
            ),
        },
{
    let (phase, message) = match outcome {
        Ok(()) => (UpdatePhase::Completed, owned("Update applied successfully")),
        Err(e) => {
            let mut m = owned("Update failed: ");
            m.append(e.as_str());
            (UpdatePhase::Failed, m)
        },
    };
    UpdateRequestStatus {
        phase,
        approved_by: copy_text(approver),
        approved_at: Some(now),
        rejected_by: None,
        rejected_at: None,
        message: Some(message),
        last_updated: Some(now),
    }
}

/// The status a rejected update request gets at `now`.
pub fn rejection_status(approver: &Option<String>, reason: &Option<String>, now: Instant) -> (r:
    UpdateRequestStatus)
    ensures
        r.phase == UpdatePhase::Rejected,
        r.rejected_by == *approver,
        r.rejected_at == Some(now),
        r.last_updated == Some(now),
        r.approved_by is None,
        r.approved_at is None,
        opt_text(r.message) == Some(
            match reason {
                Some(s) => s@,
                None => "Rejected by user"@,
            },
        ),
{
    let message = match reason {
        Some(s) => s.clone(),
        None => owned("Rejected by user"),
    };
    UpdateRequestStatus {
        phase: UpdatePhase::Rejected,
        approved_by: None,
        approved_at: None,
        rejected_by: copy_text(approver),
        rejected_at: Some(now),
        message: Some(message),
        last_updated: Some(now),
    }
}

/// How an approved update is carried out.
#[derive(Debug, Clone, Copy, PartialEq, Eq, Structural)]
pub enum UpdateRoute {
    Deployment,
    HelmRelease,
}

/// Chooses how to carry out an update of a resource of `kind`; only
/// Deployments and HelmReleases are supported.
pub fn update_route(kind: &str) -> (r: Result<UpdateRoute, String>)
    ensures
        kind@ == "Deployment"@ ==> r == Ok::<UpdateRoute, String>(UpdateRoute::Deployment),
        kind@ == "HelmRelease"@ ==> r == Ok::<UpdateRoute, String>(UpdateRoute::HelmRelease),
        kind@ != "Deployment"@ && kind@ != "HelmRelease"@ ==> (r matches Err(m) && m@
            == "Unsupported resource kind: "@ + kind@
            + ". Only Deployment and HelmRelease are supported."@),
{
    proof {
        reveal_strlit("Deployment");
        reveal_strlit("HelmRelease");
        assert("Deployment"@.len() != "HelmRelease"@.len());
    }
    if str_eq(kind, "Deployment") {
        Ok(UpdateRoute::Deployment)
    } else if str_eq(kind, "HelmRelease") {
        Ok(UpdateRoute::HelmRelease)
    } else {
        let mut m = owned("Unsupported resource kind: ");
        m.append(kind);
        m.append(". Only Deployment and HelmRelease are supported.");
        Err(m)
    }
}

/// How an approved image update of a Deployment is applied.
#[derive(Debug, Clone)]
pub struct DeploymentUpdatePlan {
    pub container: String,
    pub new_image: String,
    /// The image the container runs now, to roll back to
    pub previous_image: Option<String>,
    pub rollback: AutoRollbackConfig,
}

/// The index of the first container named `name`, if any.
pub open spec fn container_index(cs: Seq<ContainerInfo>, name: Seq<char>) -> Option<int> {
    if exists|i: int| 0 <= i < cs.len() && cs[i].name@ == name {
        Some(choose|i: int| 0 <= i < cs.len() && cs[i].name@ == name && forall|j: int| 0 <= j < i ==> (#[trigger] cs[j]).name@ != name)
    } else {
        None
    }
}

fn find_container(cs: &Vec<ContainerInfo>, name: &str) -> (r: Option<usize>)
    ensures
        match r {
            Some(i) => i < cs@.len() && container_index(cs@, name@) == Some(i as int),
            None => container_index(cs@, name@) is None,
        },
{
    let mut i: usize = 0;
    while i < cs.len()
        invariant
            i <= cs@.len(),
            forall|j: int| 0 <= j < i ==> (#[trigger] cs@[j]).name@ != name@,
        decreases cs@.len() - i,
    {
        if str_eq(cs[i].name.as_str(), name) {
            proof {
                let k = choose|k: int|
                    0 <= k < cs@.len() && cs@[k].name@ == name@ && forall|j: int|
                        0 <= j < k ==> (#[trigger] cs@[j]).name@ != name@;
                if k < i {
                } else if k > i {
                    assert(cs@[i as int].name@ != name@);
                }
            }
            return Some(i);
        }
        i = i + 1;
    }
    None
}

/// Plans an approved image update of a Deployment whose pod template has
/// `containers` (`None` without a pod spec) and whose annotations are
/// `annotations`: the request must name a container that the template
/// has; the plan keeps that container's image for a rollback and reads
/// the automatic-rollback settings (the defaults without annotations).
pub fn plan_deployment_update(
    spec: &UpdateRequestSpec,
    containers: Option<&Vec<ContainerInfo>>,
    annotations: Option<&BTreeMap<String, String>>,
) -> (r: Result<DeploymentUpdatePlan, String>)
    ensures
        match spec.container_name {
            None => r matches Err(m) && m@ == "Container name not specified in UpdateRequest"@,
            Some(c) => match containers {
                None => r matches Err(m) && m@ == "Deployment has no pod spec"@,
                Some(cs) => match container_index(cs@, c@) {
                    None => r matches Err(m) && m@ == "Container '"@ + c@ + "' not found in deployment "@
                        + spec.target_ref.name@,
                    Some(i) => r matches Ok(p) && p.container@ == c@ && p.new_image@ == spec.new_image@
                        && p.previous_image == cs@[i].image && match annotations {
                        None => !p.rollback.enabled && p.rollback.timeout == 300 && p.rollback.retries
                            == 3,
                        Some(a) => p.rollback.enabled == crate::models::policy::bool_or(
                            crate::parse::lookup(
                                a.deep_view(),
                                crate::models::policy::annotations::AUTO_ROLLBACK@,
                            ),
                            false,
                        ) && p.rollback.timeout == crate::config::u64_setting(
                            a.deep_view(),
                            crate::models::policy::annotations::ROLLBACK_TIMEOUT@,
                            300,
                        ) && p.rollback.retries == crate::rollback::u32_setting(
                            a.deep_view(),
                            crate::models::policy::annotations::HEALTH_CHECK_RETRIES@,
                            3,
                        ),
                    },
                },
            },
        },
{
    let container = match &spec.container_name {
        Some(c) => c,
        None => return Err(owned("Container name not specified in UpdateRequest")),
    };
    let cs = match containers {
        Some(cs) => cs,
        None => return Err(owned("Deployment has no pod spec")),
    };
    let i = match find_container(cs, container.as_str()) {
        Some(i) => i,
        None => {
            let mut m = owned("Container '");
            m.append(container.as_str());
            m.append("' not found in deployment ");
            m.append(spec.target_ref.name.as_str());
            return Err(m);
        },
    };
    let rollback = match annotations {
        Some(a) => AutoRollbackConfig::from_annotations(a),
        None => AutoRollbackConfig::default(),
    };
    Ok(
        DeploymentUpdatePlan {
            container: container.clone(),
            new_image: spec.new_image.clone(),
            previous_image: copy_text(&cs[i].image),
            rollback,
        },
    )
}

/// What automatic rollback does once monitoring ends.
#[derive(Debug, Clone)]
pub enum RollbackAction {
    /// Keep the update
    Keep,
    /// Roll back, for this reason
    Rollback(String),
}

/// The approver recorded on an automatic rollback.
pub const AUTO_ROLLBACK_APPROVER: &'static str = "headwind-auto-rollback";

/// Decides what to do when health monitoring ends: a failure or a timeout
/// triggers a rollback (the reason is the failure's, or that the check
/// timed out); health and continued progress keep the update.
pub fn rollback_after_monitoring(status: &HealthStatus) -> (r: RollbackAction)
    ensures
        match status {
            HealthStatus::Failed(reason) => r matches RollbackAction::Rollback(m) && m@ == reason@,
            HealthStatus::Timeout => r matches RollbackAction::Rollback(m) && m@ == "Health check timeout"@,
            _ => r is Keep,
        },
{
    match status {
        HealthStatus::Failed(reason) => RollbackAction::Rollback(reason.clone()),
        HealthStatus::Timeout => RollbackAction::Rollback(owned("Health check timeout")),
        _ => RollbackAction::Keep,
    }
}

/// The resource a rollback notification is about: from the new image back
/// to the previous one (empty when unknown).
pub fn rollback_info(deployment_name: &str, namespace: &str, container: &str, new_image: &str, previous_image: &Option<String>) -> (r:
    DeploymentInfo)
    ensures
        r.name@ == deployment_name@,
        r.namespace@ == namespace@,
        r.current_image@ == new_image@,
        r.new_image@ == match previous_image {
            Some(p) => p@,
            None => Seq::<char>::empty(),
        },
        opt_text(r.container) == Some(container@),
        r.resource_kind is None,
{
    DeploymentInfo {
        name: owned(deployment_name),
        namespace: owned(namespace),
        current_image: owned(new_image),
        new_image: match previous_image {
            Some(p) => p.clone(),
            None => String::new(),
        },
        container: Some(owned(container)),
        resource_kind: None,
    }
}

/// The chart and version of a chart update, written `chart:version` in the
/// request's new image: split at the first `:`.
pub fn helm_update_target(new_image: &str) -> (r: Result<(String, String), String>)
    ensures
        first_index_of(new_image@, ':') < 0 ==> (r matches Err(m) && m@
            == "Invalid chart version format in new_image"@),
        first_index_of(new_image@, ':') >= 0 ==> (r matches Ok(p) && p.0@ == new_image@.take(
            first_index_of(new_image@, ':'),
        ) && p.1@ == new_image@.skip(first_index_of(new_image@, ':') + 1)),
{
    match find_char(new_image, ':') {
        Some(i) => {
            proof {
                crate::text::lemma_first_index_bounds(new_image@, ':');
            }
            let n = new_image.unicode_len();
            let chart = slice(new_image, 0, i);
            let version = slice(new_image, i + 1, n);
            assert(chart@ =~= new_image@.take(i as int));
            assert(version@ =~= new_image@.skip(i + 1));
            Ok((owned(chart), owned(version)))
        },
        None => Err(owned("Invalid chart version format in new_image")),
    }
}

/// Checks that the release still uses the chart the request is about.
pub fn check_chart_name(expected: &str, found: &str) -> (r: Result<(), String>)
    ensures
        expected@ == found@ ==> r is Ok,
        expected@ != found@ ==> (r matches Err(m) && m@ == "Chart name mismatch: expected "@ + expected@
            + ", found "@ + found@),
{
    if str_eq(found, expected) {
        Ok(())
    } else {
        let mut m = owned("Chart name mismatch: expected ");
        m.append(expected);
        m.append(", found ");
        m.append(found);
        Err(m)
    }
}

/// A history rebuilt by recording `es` one after the other.
pub open spec fn recorded(start: Seq<UpdateHistoryEntry>, es: Seq<UpdateHistoryEntry>) -> Seq<
    UpdateHistoryEntry,
>
    decreases es.len(),
{
    if es.len() == 0 {
        start
    } else {
        recorded(trimmed(seq![es[0]] + start), es.drop_first())
    }
}

fn copy_entry(e: &UpdateHistoryEntry) -> (r: UpdateHistoryEntry)
    ensures
        r == *e,
{
    UpdateHistoryEntry {
        container: e.container.clone(),
        image: e.image.clone(),
        timestamp: e.timestamp,
        update_request_name: copy_text(&e.update_request_name),
        approved_by: copy_text(&e.approved_by),
    }
}

/// The history of one container, as the history API answers it: its
/// entries recorded, one after the other, into a new history.
pub fn container_history(history: &UpdateHistory, container: &str) -> (r: UpdateHistory)
    ensures
        r.view_entries() == recorded(Seq::empty(), entries_of(history.view_entries(), container@)),
{
    let entries = history.get_container_history(container);
    let ghost es = entries_of(history.view_entries(), container@);
    let mut result = UpdateHistory::new();
    let mut i: usize = 0;
    assert(es.skip(0) =~= es);
    while i < entries.len()
        invariant
            i <= entries@.len(),
            entries@.len() == es.len(),
            forall|k: int| 0 <= k < entries@.len() ==> *entries@[k] == es[k],
            recorded(Seq::empty(), es) == recorded(result.view_entries(), es.skip(i as int)),
        decreases entries@.len() - i,
    {
        let e = copy_entry(entries[i]);
        proof {
            assert(es.skip(i as int)[0] == es[i as int]);
            assert(es.skip(i as int).drop_first() =~= es.skip(i + 1));
        }
        result.add_entry(e);
        i = i + 1;
    }
    assert(es.skip(i as int) =~= Seq::<UpdateHistoryEntry>::empty());
    result
}

/// The history index a rollback goes to when none is given: the previous
/// version.
pub fn rollback_index(index: Option<usize>) -> (r: usize)
    ensures
        r == match index {
            Some(i) => i,
            None => 1,
        },
{
    match index {
        Some(i) => i,
        None => 1,
    }
}

} // verus!
