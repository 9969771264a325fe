//! Update history of a deployment (newest first, at most ten entries per
//! container) and the rules of automatic rollback: reading its settings,
//! judging deployment health, and deciding when monitoring ends.

use crate::clock::{now, Instant};
use crate::models::policy::annotations;
use crate::models::policy::bool_or;
use crate::parse::{decimal, lookup, map_get, parse_bool, parse_u32, parse_u64, unsigned_value};
use crate::text::{owned, str_eq};
use std::collections::BTreeMap;
use vstd::prelude::*;

verus! {

/// Annotation key for storing update history
pub const HISTORY_ANNOTATION: &'static str = "headwind.sh/update-history";

/// Maximum number of history entries to keep per container
pub const MAX_HISTORY_ENTRIES: usize = 10;

/// Represents a single update in the history
#[derive(Debug, Clone, PartialEq, Eq)]
pub struct UpdateHistoryEntry {
    /// Container name that was updated
    pub container: String,
    /// Image that was deployed
    pub image: String,
    /// Timestamp of the update
    pub timestamp: Instant,
    /// Name of the UpdateRequest that performed this update
    pub update_request_name: Option<String>,
    /// User or system that approved the update
    pub approved_by: Option<String>,
}

/// The entries of `s` for container `c`, in order.
pub open spec fn entries_of(s: Seq<UpdateHistoryEntry>, c: Seq<char>) -> Seq<UpdateHistoryEntry>
    decreases s.len(),
{
    if s.len() == 0 {
        Seq::empty()
    } else {
        let p = entries_of(s.drop_last(), c);
        if s.last().container@ == c {
            p.push(s.last())
        } else {
            p
        }
    }
}

/// How many entries of `s` belong to container `c`.
pub open spec fn count_of(s: Seq<UpdateHistoryEntry>, c: Seq<char>) -> nat {
    entries_of(s, c).len()
}

/// `s` without the entries beyond the first `MAX_HISTORY_ENTRIES` of each
/// container.
pub open spec fn trimmed(s: Seq<UpdateHistoryEntry>) -> Seq<UpdateHistoryEntry>
    decreases s.len(),
{
    if s.len() == 0 {
        Seq::empty()
    } else {
        let p = trimmed(s.drop_last());
        if count_of(s.drop_last(), s.last().container@) < MAX_HISTORY_ENTRIES {
            p.push(s.last())
        } else {
            p
        }
    }
}

/// The first `n` elements of `s` (all of them when there are fewer).
pub open spec fn first_n<A>(s: Seq<A>, n: nat) -> Seq<A> {
    if s.len() <= n {
        s
    } else {
        s.take(n as int)
    }
}

/// The history of one container after trimming is its first
/// `MAX_HISTORY_ENTRIES` entries.
pub proof fn lemma_trimmed_entries(s: Seq<UpdateHistoryEntry>, c: Seq<char>)
    ensures
        entries_of(trimmed(s), c) == first_n(entries_of(s, c), MAX_HISTORY_ENTRIES as nat),
    decreases s.len(),
{
    if s.len() > 0 {
        let p = s.drop_last();
        let e = s.last();
        lemma_trimmed_entries(p, c);
        let tp = trimmed(p);
        if count_of(p, e.container@) < MAX_HISTORY_ENTRIES {
            assert(tp.push(e).drop_last() =~= tp);
            if e.container@ == c {
                assert(first_n(entries_of(p, c), MAX_HISTORY_ENTRIES as nat) == entries_of(p, c));
            }
        } else {
            if e.container@ == c {
                let ep = entries_of(p, c);
                assert(ep.push(e).take(MAX_HISTORY_ENTRIES as int) =~= ep.take(
                    MAX_HISTORY_ENTRIES as int,
                ));
            }
        }
    }
}

/// Putting `e` in front of `s` puts it in front of its container's entries.
pub proof fn lemma_entries_of_prepend(e: UpdateHistoryEntry, s: Seq<UpdateHistoryEntry>, c: Seq<char>)
    ensures
        entries_of(seq![e] + s, c) == if e.container@ == c {
            seq![e] + entries_of(s, c)
        } else {
            entries_of(s, c)
        },
    decreases s.len(),
{
    if s.len() == 0 {
        let t = seq![e] + s;
        assert(t =~= seq![e]);
        assert(t.drop_last() =~= Seq::<UpdateHistoryEntry>::empty());
        assert(t.last() == e);
        assert(entries_of(t.drop_last(), c) == Seq::<UpdateHistoryEntry>::empty());
        assert(entries_of(s, c) == Seq::<UpdateHistoryEntry>::empty());
        assert(Seq::<UpdateHistoryEntry>::empty().push(e) =~= seq![e] + Seq::<UpdateHistoryEntry>::empty());
    } else {
        let t = seq![e] + s;
        assert(t.drop_last() =~= seq![e] + s.drop_last());
        assert(t.last() == s.last());
        lemma_entries_of_prepend(e, s.drop_last(), c);
        if e.container@ == c {
            let q = entries_of(s.drop_last(), c);
            assert((seq![e] + q).push(s.last()) =~= seq![e] + q.push(s.last()));
        }
    }
}

proof fn lemma_count_trimmed(s: Seq<UpdateHistoryEntry>, c: Seq<char>)
    ensures
        count_of(trimmed(s), c) <= MAX_HISTORY_ENTRIES,
{
    lemma_trimmed_entries(s, c);
}

/// Update history for a deployment
#[derive(Debug, Clone)]
pub struct UpdateHistory {
    /// List of updates, newest first
    entries: Vec<UpdateHistoryEntry>,
}

fn copy_text(o: &Option<String>) -> (r: Option<String>)
    ensures
        r == *o,
{
    match o {
        Some(s) => Some(s.clone()),
        None => None,
    }
}

fn copy_entry(e: &UpdateHistoryEntry) -> (r: UpdateHistoryEntry)
    ensures
        r == *e,
{
    UpdateHistoryEntry {
        container: e.container.clone(),
        image: e.image.clone(),
        timestamp: e.timestamp,
        update_request_name: copy_text(&e.update_request_name),
        approved_by: copy_text(&e.approved_by),
    }
}

/// How many of the first `end` entries belong to `container`.
fn count_before(entries: &Vec<UpdateHistoryEntry>, end: usize, container: &str) -> (r: usize)
    requires
        end <= entries@.len(),
    ensures
        r == count_of(entries@.take(end as int), container@),
{
    let mut n: usize = 0;
    let mut i: usize = 0;
    assert(entries@.take(0) =~= Seq::<UpdateHistoryEntry>::empty());
    while i < end
        invariant
            end <= entries@.len(),
            i <= end,
            n == count_of(entries@.take(i as int), container@),
            n <= i,
        decreases end - i,
    {
        assert(entries@.take(i + 1).drop_last() =~= entries@.take(i as int));
        if str_eq(entries[i].container.as_str(), container) {
            n = n + 1;
        }
        i = i + 1;
    }
    n
}

impl UpdateHistory {
    /// The entries, newest first.
    pub closed spec fn view_entries(&self) -> Seq<UpdateHistoryEntry> {
        self.entries@
    }

    /// Create a new empty update history
    pub fn new() -> (r: Self)
        ensures
            r.view_entries() == Seq::<UpdateHistoryEntry>::empty(),
    {
        UpdateHistory { entries: Vec::new() }
    }

    /// A history holding `entries`, newest first (as read back from the
    /// deployment annotation).
    pub fn from_entries(entries: Vec<UpdateHistoryEntry>) -> (r: Self)
        ensures
            r.view_entries() == entries@,
    {
        UpdateHistory { entries }
    }

    /// Add a new update entry to the history, as the newest, then drop
    /// what lies beyond the per-container limit.
    pub fn add_entry(&mut self, entry: UpdateHistoryEntry)
        ensures
            final(self).view_entries() == trimmed(seq![entry] + old(self).view_entries()),
    {
        self.entries.insert(0, entry);
        assert(self.entries@ =~= seq![entry] + old(self).entries@);
        self.trim_history();
    }

    /// Trim history to keep only MAX_HISTORY_ENTRIES per container
    fn trim_history(&mut self)
        ensures
            final(self).view_entries() == trimmed(old(self).view_entries()),
    {
        let mut kept: Vec<UpdateHistoryEntry> = Vec::new();
        let n = self.entries.len();
        let mut i: usize = 0;
        assert(self.entries@.take(0) =~= Seq::<UpdateHistoryEntry>::empty());
        while i < n
            invariant
                n == self.entries@.len(),
                i <= n,
                kept@ == trimmed(self.entries@.take(i as int)),
            decreases n - i,
        {
            let e = &self.entries[i];
            let before = count_before(&self.entries, i, e.container.as_str());
            assert(self.entries@.take(i + 1).drop_last() =~= self.entries@.take(i as int));
            assert(self.entries@.take(i + 1).last() == self.entries@[i as int]);
            if before < MAX_HISTORY_ENTRIES {
                kept.push(copy_entry(e));
            }
            i = i + 1;
        }
        assert(self.entries@.take(n as int) =~= self.entries@);
        self.entries = kept;
    }

    /// Get all entries for a specific container
    pub fn get_container_history(&self, container: &str) -> (r: Vec<&UpdateHistoryEntry>)
        ensures
            r@.len() == entries_of(self.view_entries(), container@).len(),
            forall|i: int|
                0 <= i < r@.len() ==> *r@[i] == entries_of(self.view_entries(), container@)[i],
    {
        let mut r: Vec<&UpdateHistoryEntry> = Vec::new();
        let n = self.entries.len();
        let mut i: usize = 0;
        assert(self.entries@.take(0) =~= Seq::<UpdateHistoryEntry>::empty());
        while i < n
            invariant
                n == self.entries@.len(),
                i <= n,
                r@.len() == entries_of(self.entries@.take(i as int), container@).len(),
                forall|k: int|
                    0 <= k < r@.len() ==> *r@[k] == entries_of(
                        self.entries@.take(i as int),
                        container@,
                    )[k],
            decreases n - i,
        {
            assert(self.entries@.take(i + 1).drop_last() =~= self.entries@.take(i as int));
            let e = &self.entries[i];
            if str_eq(e.container.as_str(), container) {
                r.push(e);
            }
            i = i + 1;
        }
        assert(self.entries@.take(n as int) =~= self.entries@);
        r
    }

    /// Get a specific historical entry by index (0 = current, 1 = previous, etc.)
    pub fn get_entry_by_index(&self, container: &str, index: usize) -> (r: Option<&UpdateHistoryEntry>)
        ensures
            match r {
                Some(e) => index < entries_of(self.view_entries(), container@).len() && *e
                    == entries_of(self.view_entries(), container@)[index as int],
                None => index >= entries_of(self.view_entries(), container@).len(),
            },
    {
        let h = self.get_container_history(container);
        if index < h.len() {
            Some(h[index])
        } else {
            None
        }
    }

    /// Get the previous image for a container (the one before current)
    pub fn get_previous_image(&self, container: &str) -> (r: Option<&UpdateHistoryEntry>)
        ensures
            match r {
                Some(e) => 1 < entries_of(self.view_entries(), container@).len() && *e
                    == entries_of(self.view_entries(), container@)[1],
                None => entries_of(self.view_entries(), container@).len() <= 1,
            },
    {
        self.get_entry_by_index(container, 1)
    }

    /// Get all entries
    pub fn entries(&self) -> (r: &[UpdateHistoryEntry])
        ensures
            r@ == self.view_entries(),
    {
        self.entries.as_slice()
    }
}

/// After an update is recorded, the history of its container starts with
/// it and goes on with what the history held before, up to the limit; the
/// other containers keep their entries.
pub proof fn lemma_add_entry_history(old_entries: Seq<UpdateHistoryEntry>, e: UpdateHistoryEntry, c: Seq<char>)
    ensures
        entries_of(trimmed(seq![e] + old_entries), c) == first_n(
            if e.container@ == c {
                seq![e] + entries_of(old_entries, c)
            } else {
                entries_of(old_entries, c)
            },
            MAX_HISTORY_ENTRIES as nat,
        ),
{
    lemma_trimmed_entries(seq![e] + old_entries, c);
    lemma_entries_of_prepend(e, old_entries, c);
}

/// After an update is recorded, the container's current entry is the new
/// one, and its previous entry is the one that was current before.
pub proof fn lemma_previous_after_add(old_entries: Seq<UpdateHistoryEntry>, e: UpdateHistoryEntry)
    ensures
        entries_of(trimmed(seq![e] + old_entries), e.container@)[0] == e,
        entries_of(trimmed(seq![e] + old_entries), e.container@).len() >= 1,
        entries_of(old_entries, e.container@).len() > 0 ==> {
            &&& entries_of(trimmed(seq![e] + old_entries), e.container@).len() >= 2
            &&& entries_of(trimmed(seq![e] + old_entries), e.container@)[1] == entries_of(
                old_entries,
                e.container@,
            )[0]
        },
{
    let c = e.container@;
    lemma_add_entry_history(old_entries, e, c);
    let full = seq![e] + entries_of(old_entries, c);
    assert(full[0] == e);
    if entries_of(old_entries, c).len() > 0 {
        assert(full[1] == entries_of(old_entries, c)[0]);
    }
}

/// No container ever has more than `MAX_HISTORY_ENTRIES` entries after an
/// update is recorded.
pub proof fn lemma_add_entry_bounded(old_entries: Seq<UpdateHistoryEntry>, e: UpdateHistoryEntry, c: Seq<char>)
    ensures
        count_of(trimmed(seq![e] + old_entries), c) <= MAX_HISTORY_ENTRIES,
{
    lemma_count_trimmed(seq![e] + old_entries, c);
}

/// Records an update of `container` to `new_image` in `history`, stamped
/// with the current time, which it gives back.
pub fn track_update(
    history: &mut UpdateHistory,
    container: &str,
    new_image: &str,
    update_request_name: Option<String>,
    approved_by: Option<String>,
) -> (t: Instant)
    ensures
        exists|e: UpdateHistoryEntry|
            #![trigger e.timestamp]
            {
                &&& e.container@ == container@
                &&& e.image@ == new_image@
                &&& e.timestamp == t
                &&& e.update_request_name == update_request_name
                &&& e.approved_by == approved_by
                &&& final(history).view_entries() == trimmed(seq![e] + old(history).view_entries())
            },
{
    let t = now();
    let e = UpdateHistoryEntry {
        container: owned(container),
        image: owned(new_image),
        timestamp: t,
        update_request_name,
        approved_by,
    };
    let ghost entry = e;
    history.add_entry(e);
    assert(final(history).view_entries() == trimmed(seq![entry] + old(history).view_entries()));
    assert(entry.timestamp == t);
    t
}

/// Health status of a deployment
#[derive(Debug, Clone, PartialEq, Eq)]
pub enum HealthStatus {
    /// Deployment is healthy - all pods are ready
    Healthy,
    /// Deployment is progressing - pods are starting/updating
    Progressing,
    /// Deployment has failed - pods are crash looping or not becoming ready
    Failed(String),
    /// Health check timed out
    Timeout,
}

/// A health status with its reason as characters.
pub enum HealthView {
    Healthy,
    Progressing,
    Failed(Seq<char>),
    Timeout,
}

impl HealthStatus {
    pub open spec fn view(&self) -> HealthView {
        match self {
            HealthStatus::Healthy => HealthView::Healthy,
            HealthStatus::Progressing => HealthView::Progressing,
            HealthStatus::Failed(r) => HealthView::Failed(r@),
            HealthStatus::Timeout => HealthView::Timeout,
        }
    }
}

/// Configuration for automatic rollback
#[derive(Debug, Clone)]
pub struct AutoRollbackConfig {
    /// Enable automatic rollback
    pub enabled: bool,
    /// Timeout for health checks (seconds)
    pub timeout: u64,
    /// Number of health check retries before rolling back
    pub retries: u32,
}

impl Default for AutoRollbackConfig {
    fn default() -> (r: Self)
        ensures
            !r.enabled,
            r.timeout == 300,
            r.retries == 3,
    {
        AutoRollbackConfig { enabled: false, timeout: 300, retries: 3 }
    }
}

/// A `u32` annotation: its value when it reads as a `u32`, else `default`.
pub open spec fn u32_setting(m: Map<Seq<char>, Seq<char>>, key: Seq<char>, default: u32) -> u32 {
    match lookup(m, key) {
        Some(v) => match unsigned_value(v, u32::MAX as nat) {
            Some(n) => n as u32,
            None => default,
        },
        None => default,
    }
}

impl AutoRollbackConfig {
    /// Parse config from deployment annotations: rollback is off, the
    /// timeout 300 seconds and the retries 3 unless an annotation readable
    /// as such says otherwise.
    pub fn from_annotations(annotations: &BTreeMap<String, String>) -> (r: Self)
        ensures
            r.enabled == bool_or(lookup(annotations.deep_view(), annotations::AUTO_ROLLBACK@), false),
            r.timeout == crate::config::u64_setting(
                annotations.deep_view(),
                annotations::ROLLBACK_TIMEOUT@,
                300,
            ),
            r.retries == u32_setting(annotations.deep_view(), annotations::HEALTH_CHECK_RETRIES@, 3),
    {
        let enabled = match map_get(annotations, annotations::AUTO_ROLLBACK) {
            Some(v) => match parse_bool(v.as_str()) {
                Some(b) => b,
                None => false,
            },
            None => false,
        };
        let timeout = match map_get(annotations, annotations::ROLLBACK_TIMEOUT) {
            Some(v) => match parse_u64(v.as_str()) {
                Some(n) => n,
                None => 300,
            },
            None => 300,
        };
        let retries = match map_get(annotations, annotations::HEALTH_CHECK_RETRIES) {
            Some(v) => match parse_u32(v.as_str()) {
                Some(n) => n,
                None => 3,
            },
            None => 3,
        };
        AutoRollbackConfig { enabled, timeout, retries }
    }
}

/// A condition of a deployment's status.
#[derive(Debug, Clone)]
pub struct DeploymentCondition {
    pub type_: String,
    pub status: String,
    pub reason: Option<String>,
}

/// What health checking reads of a deployment's status.
#[derive(Debug, Clone)]
pub struct DeploymentStatusInfo {
    pub replicas: Option<i32>,
    pub ready_replicas: Option<i32>,
    pub updated_replicas: Option<i32>,
    pub conditions: Option<Vec<DeploymentCondition>>,
}

/// What health checking reads of a container's status in a pod.
#[derive(Debug, Clone)]
pub struct ContainerStatusInfo {
    pub name: String,
    /// Reason of the waiting state, when the container waits
    pub waiting_reason: Option<String>,
    pub restart_count: i32,
    pub ready: bool,
}

/// What health checking reads of a pod's status (`None` when the pod
/// reports no container statuses).
#[derive(Debug, Clone)]
pub struct PodStatusInfo {
    pub container_statuses: Option<Vec<ContainerStatusInfo>>,
}

/// What the deployment status alone says of its health.
pub enum StatusVerdict {
    /// The status decides
    Decided(HealthStatus),
    /// The pods decide
    CheckPods,
}

/// The condition reports that the deployment missed its progress deadline.
pub open spec fn deadline_condition(c: DeploymentCondition) -> bool {
    &&& c.type_@ == "Progressing"@
    &&& c.status@ == "False"@
    &&& opt_chars(c.reason) == Some("ProgressDeadlineExceeded"@)
}

/// An optional string, as characters.
pub open spec fn opt_chars(o: Option<String>) -> Option<Seq<char>> {
    match o {
        Some(s) => Some(s@),
        None => None,
    }
}

/// Some condition of the status reports a missed progress deadline.
pub open spec fn deadline_exceeded(status: DeploymentStatusInfo) -> bool {
    match status.conditions {
        Some(cs) => exists|i: int| 0 <= i < cs@.len() && deadline_condition(#[trigger] cs@[i]),
        None => false,
    }
}

/// A replica count, zero when absent.
pub open spec fn count_or_zero(n: Option<i32>) -> i32 {
    match n {
        Some(v) => v,
        None => 0,
    }
}

fn has_deadline_condition(conds: &Vec<DeploymentCondition>) -> (r: bool)
    ensures
        r == exists|i: int| 0 <= i < conds@.len() && deadline_condition(#[trigger] conds@[i]),
{
    let mut i: usize = 0;
    while i < conds.len()
        invariant
            i <= conds@.len(),
            forall|k: int| 0 <= k < i ==> !deadline_condition(#[trigger] conds@[k]),
        decreases conds@.len() - i,
    {
        let c = &conds[i];
        let reason_matches = match &c.reason {
            Some(r) => str_eq(r.as_str(), "ProgressDeadlineExceeded"),
            None => false,
        };
        if str_eq(c.type_.as_str(), "Progressing") && str_eq(c.status.as_str(), "False") && reason_matches {
            assert(deadline_condition(conds@[i as int]));
            return true;
        }
        i = i + 1;
    }
    false
}

fn count_value(n: Option<i32>) -> (r: i32)
    ensures
        r == count_or_zero(n),
{
    match n {
        Some(v) => v,
        None => 0,
    }
}

/// Judges a deployment by its status: failed when its progress deadline
/// passed; progressing while fewer replicas are updated than wanted; left
/// to its pods otherwise (all replicas ready, or no sign either way).
pub fn status_verdict(status: &DeploymentStatusInfo) -> (r: StatusVerdict)
    ensures
        deadline_exceeded(*status) ==> (r matches StatusVerdict::Decided(h) && h@ == HealthView::Failed(
            "Deployment progress deadline exceeded"@,
        )),
        !deadline_exceeded(*status) ==> {
            let replicas = count_or_zero(status.replicas);
            let ready = count_or_zero(status.ready_replicas);
            let updated = count_or_zero(status.updated_replicas);
            if ready == replicas && replicas > 0 {
                r is CheckPods
            } else if updated < replicas {
                (r matches StatusVerdict::Decided(h) && h@ == HealthView::Progressing)
            } else {
                r is CheckPods
            }
        },
{
    let exceeded = match &status.conditions {
        Some(cs) => has_deadline_condition(cs),
        None => false,
    };
    if exceeded {
        return StatusVerdict::Decided(
            HealthStatus::Failed(owned("Deployment progress deadline exceeded")),
        );
    }
    let replicas = count_value(status.replicas);
    let ready = count_value(status.ready_replicas);
    let updated = count_value(status.updated_replicas);
    if ready == replicas && replicas > 0 {
        StatusVerdict::CheckPods
    } else if updated < replicas {
        StatusVerdict::Decided(HealthStatus::Progressing)
    } else {
        StatusVerdict::CheckPods
    }
}

/// What one container's status says: failed when it crash-loops, cannot
/// pull its image or restarted more than five times; progressing when not
/// ready; nothing otherwise.
pub open spec fn container_verdict(cs: ContainerStatusInfo) -> Option<HealthView> {
    let name = cs.name@;
    if opt_chars(cs.waiting_reason) == Some("CrashLoopBackOff"@) {
        Some(HealthView::Failed("Container "@ + name + " is in CrashLoopBackOff"@))
    } else if opt_chars(cs.waiting_reason) == Some("ImagePullBackOff"@) || opt_chars(
        cs.waiting_reason,
    ) == Some("ErrImagePull"@) {
        Some(HealthView::Failed("Container "@ + name + " failed to pull image"@))
    } else if cs.restart_count > 5 {
        Some(
            HealthView::Failed(
                "Container "@ + name + " has high restart count ("@ + decimal(
                    cs.restart_count as nat,
                ) + ")"@,
            ),
        )
    } else if !cs.ready {
        Some(HealthView::Progressing)
    } else {
        None
    }
}

/// The first verdict among containers `cs`.
pub open spec fn containers_verdict(cs: Seq<ContainerStatusInfo>) -> Option<HealthView>
    decreases cs.len(),
{
    if cs.len() == 0 {
        None
    } else {
        match container_verdict(cs[0]) {
            Some(v) => Some(v),
            None => containers_verdict(cs.drop_first()),
        }
    }
}

/// The first verdict among the containers of the pods `pods`, in order.
pub open spec fn pods_verdict(pods: Seq<PodStatusInfo>) -> Option<HealthView>
    decreases pods.len(),
{
    if pods.len() == 0 {
        None
    } else {
        let first = match pods[0].container_statuses {
            Some(cs) => containers_verdict(cs@),
            None => None,
        };
        match first {
            Some(v) => Some(v),
            None => pods_verdict(pods.drop_first()),
        }
    }
}

/// The health that the pods of a deployment show.
pub open spec fn pod_health_of(pods: Seq<PodStatusInfo>) -> HealthView {
    if pods.len() == 0 {
        HealthView::Progressing
    } else {
        match pods_verdict(pods) {
            Some(v) => v,
            None => HealthView::Healthy,
        }
    }
}

/// The first container of the first pod decides when it is stuck: one
/// that cannot pull its image (`ImagePullBackOff` or `ErrImagePull`) fails
/// the deployment with "Container <name> failed to pull image", and one in
/// `CrashLoopBackOff` fails it as crash-looping, whatever the other pods and
/// containers show.
pub proof fn lemma_stuck_container_fails(pods: Seq<PodStatusInfo>, cs: Vec<ContainerStatusInfo>)
    requires
        pods.len() > 0,
        pods[0].container_statuses == Some(cs),
        cs@.len() > 0,
    ensures
        ({
            let c = cs@[0];
            c.waiting_reason matches Some(w) && (w@ == "ImagePullBackOff"@ || w@ == "ErrImagePull"@)
                ==> pod_health_of(pods) == HealthView::Failed(
                "Container "@ + c.name@ + " failed to pull image"@,
            )
        }),
        ({
            let c = cs@[0];
            c.waiting_reason matches Some(w) && w@ == "CrashLoopBackOff"@ ==> pod_health_of(pods)
                == HealthView::Failed("Container "@ + c.name@ + " is in CrashLoopBackOff"@)
        }),
        ({
            let c = cs@[0];
            c.waiting_reason is None && c.restart_count > 5 ==> pod_health_of(pods) == HealthView::Failed(
                "Container "@ + c.name@ + " has high restart count ("@ + decimal(c.restart_count as nat)
                    + ")"@,
            )
        }),
        ({
            let c = cs@[0];
            c.waiting_reason is None && c.restart_count <= 5 && !c.ready ==> pod_health_of(pods)
                == HealthView::Progressing
        }),
{
    reveal_strlit("ImagePullBackOff");
    reveal_strlit("ErrImagePull");
    reveal_strlit("CrashLoopBackOff");
    assert("ImagePullBackOff"@[0] != "CrashLoopBackOff"@[0]);
    assert("ErrImagePull"@[0] != "CrashLoopBackOff"@[0]);
}

/// A container that waits for nothing, restarted at most five times and is
/// ready.
pub open spec fn settled(c: ContainerStatusInfo) -> bool {
    c.waiting_reason is None && c.restart_count <= 5 && c.ready
}

proof fn lemma_settled_containers(cs: Seq<ContainerStatusInfo>)
    requires
        forall|i: int| 0 <= i < cs.len() ==> settled(#[trigger] cs[i]),
    ensures
        containers_verdict(cs) is None,
    decreases cs.len(),
{
    if cs.len() > 0 {
        assert(settled(cs[0]));
        assert forall|i: int| 0 <= i < cs.drop_first().len() implies settled(#[trigger] cs.drop_first()[i]) by {
            assert(cs.drop_first()[i] == cs[i + 1]);
        }
        lemma_settled_containers(cs.drop_first());
    }
}

/// The pods are settled: every container status they report is settled.
pub open spec fn pods_settled(pods: Seq<PodStatusInfo>) -> bool {
    forall|i: int| #![trigger pods[i]]
        0 <= i < pods.len() ==> match pods[i].container_statuses {
            Some(cs) => forall|j: int| 0 <= j < cs@.len() ==> settled(#[trigger] cs@[j]),
            None => true,
        }
}

/// A deployment whose pods exist and all of whose containers wait for
/// nothing, restarted at most five times and are ready is healthy.
pub proof fn lemma_settled_pods_are_healthy(pods: Seq<PodStatusInfo>)
    requires
        pods.len() > 0,
        pods_settled(pods),
    ensures
        pod_health_of(pods) == HealthView::Healthy,
{
    lemma_settled_pods_verdict(pods);
}

proof fn lemma_settled_pods_verdict(pods: Seq<PodStatusInfo>)
    requires
        pods_settled(pods),
    ensures
        pods_verdict(pods) is None,
    decreases pods.len(),
{
    if pods.len() > 0 {
        let p0 = pods[0];
        match p0.container_statuses {
            Some(cs) => lemma_settled_containers(cs@),
            None => {},
        }
        assert forall|i: int| 0 <= i < pods.drop_first().len() implies match #[trigger] pods.drop_first()[i].container_statuses {
            Some(cs) => forall|j: int| 0 <= j < cs@.len() ==> settled(#[trigger] cs@[j]),
            None => true,
        } by {
            assert(pods.drop_first()[i] == pods[i + 1]);
        }
        lemma_settled_pods_verdict(pods.drop_first());
    }
}

fn check_container(cs: &ContainerStatusInfo) -> (r: Option<HealthStatus>)
    ensures
        match r {
            Some(h) => container_verdict(*cs) == Some(h@),
            None => container_verdict(*cs) is None,
        },
{
    let (crash, pull) = match &cs.waiting_reason {
        Some(w) => (
            str_eq(w.as_str(), "CrashLoopBackOff"),
            str_eq(w.as_str(), "ImagePullBackOff") || str_eq(w.as_str(), "ErrImagePull"),
        ),
        None => (false, false),
    };
    if crash {
        let mut m = owned("Container ");
        m.append(cs.name.as_str());
        m.append(" is in CrashLoopBackOff");
        return Some(HealthStatus::Failed(m));
    }
    if pull {
        let mut m = owned("Container ");
        m.append(cs.name.as_str());
        m.append(" failed to pull image");
        return Some(HealthStatus::Failed(m));
    }
    if cs.restart_count > 5 {
        let count = crate::parse::u64_to_string(cs.restart_count as u64);
        let mut m = owned("Container ");
        m.append(cs.name.as_str());
        m.append(" has high restart count (");
        m.append(count.as_str());
        m.append(")");
        return Some(HealthStatus::Failed(m));
    }
    if !cs.ready {
        return Some(HealthStatus::Progressing);
    }
    None
}

fn check_containers(cs: &Vec<ContainerStatusInfo>) -> (r: Option<HealthStatus>)
    ensures
        match r {
            Some(h) => containers_verdict(cs@) == Some(h@),
            None => containers_verdict(cs@) is None,
        },
{
    let mut i: usize = 0;
    assert(cs@.skip(0) =~= cs@);
    while i < cs.len()
        invariant
            i <= cs@.len(),
            containers_verdict(cs@) == containers_verdict(cs@.skip(i as int)),
        decreases cs@.len() - i,
    {
        assert(cs@.skip(i as int)[0] == cs@[i as int]);
        assert(cs@.skip(i as int).drop_first() =~= cs@.skip(i + 1));
        match check_container(&cs[i]) {
            Some(h) => return Some(h),
            None => {},
        }
        i = i + 1;
    }
    assert(cs@.skip(i as int) =~= Seq::<ContainerStatusInfo>::empty());
    None
}

/// Judges a deployment by the container statuses of its pods: progressing
/// when there are no pods; else the first container that crash-loops,
/// cannot pull its image, restarted too often or is not ready decides;
/// healthy when none does.
pub fn pod_health(pods: &Vec<PodStatusInfo>) -> (r: HealthStatus)
    ensures
        r@ == pod_health_of(pods@),
{
    if pods.len() == 0 {
        return HealthStatus::Progressing;
    }
    let mut i: usize = 0;
    assert(pods@.skip(0) =~= pods@);
    while i < pods.len()
        invariant
            i <= pods@.len(),
            pods_verdict(pods@) == pods_verdict(pods@.skip(i as int)),
        decreases pods@.len() - i,
    {
        assert(pods@.skip(i as int)[0] == pods@[i as int]);
        assert(pods@.skip(i as int).drop_first() =~= pods@.skip(i + 1));
        match &pods[i].container_statuses {
            Some(cs) => match check_containers(cs) {
                Some(h) => return h,
                None => {},
            },
            None => {},
        }
        i = i + 1;
    }
    assert(pods@.skip(i as int) =~= Seq::<PodStatusInfo>::empty());
    HealthStatus::Healthy
}

/// What the monitor does after one health check.
pub enum MonitorStep {
    /// Monitoring ends with this status
    Finish(HealthStatus),
    /// Check again later, with this many consecutive failures so far
    Wait(u32),
}

/// One round of health monitoring after an update. `timed_out` says that
/// the monitoring time is over; `check` is the result of the health check
/// (`None` when the check itself failed, which counts as no failure).
/// Monitoring ends at a healthy check, at a timeout, or when failures have
/// come `retries` times in a row; a progressing check resets the count.
pub fn monitor_step(
    config: &AutoRollbackConfig,
    consecutive_failures: u32,
    timed_out: bool,
    check: Option<HealthStatus>,
) -> (r: MonitorStep)
    requires
        consecutive_failures < u32::MAX,
    ensures
        timed_out ==> (r matches MonitorStep::Finish(h) && h@ == HealthView::Timeout),
        !timed_out ==> match check {
            None => r == MonitorStep::Wait(consecutive_failures),
            Some(HealthStatus::Healthy) => (r matches MonitorStep::Finish(h) && h@ == HealthView::Healthy),
            Some(HealthStatus::Timeout) => (r matches MonitorStep::Finish(h) && h@ == HealthView::Timeout),
            Some(HealthStatus::Progressing) => r == MonitorStep::Wait(0),
            Some(HealthStatus::Failed(reason)) => if consecutive_failures + 1 >= config.retries {
                (r matches MonitorStep::Finish(h) && h@ == HealthView::Failed(reason@))
            } else {
                r == MonitorStep::Wait((consecutive_failures + 1) as u32)
            },
        },
{
    if timed_out {
        return MonitorStep::Finish(HealthStatus::Timeout);
    }
    match check {
        None => MonitorStep::Wait(consecutive_failures),
        Some(HealthStatus::Healthy) => MonitorStep::Finish(HealthStatus::Healthy),
        Some(HealthStatus::Timeout) => MonitorStep::Finish(HealthStatus::Timeout),
        Some(HealthStatus::Progressing) => MonitorStep::Wait(0),
        Some(HealthStatus::Failed(reason)) => {
            let failures = consecutive_failures + 1;
            if failures >= config.retries {
                MonitorStep::Finish(HealthStatus::Failed(reason))
            } else {
                MonitorStep::Wait(failures)
            }
        },
    }
}

} // verus!
