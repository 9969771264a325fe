//! The UpdateRequest custom resource: a pending update of a workload.

use crate::clock::Instant;
use vstd::prelude::*;

verus! {

/// The specification of an UpdateRequest.
#[derive(Debug, Clone)]
pub struct UpdateRequestSpec {
    /// Reference to the target resource to update
    pub target_ref: TargetRef,
    /// Type of update (image or helmChart)
    pub update_type: UpdateType,
    /// Name of the container to update (for image updates)
    pub container_name: Option<String>,
    /// Current image or chart version
    pub current_image: String,
    /// New image or chart version
    pub new_image: String,
    /// Policy that triggered this update
    pub policy: UpdatePolicyType,
    /// Human-readable reason for the update
    pub reason: Option<String>,
    /// Whether this update requires manual approval
    pub require_approval: bool,
    /// Optional expiration time for this update request
    pub expires_at: Option<Instant>,
}

/// Whether an update request needs approval when the field is left out.
pub fn default_require_approval() -> (r: bool)
    ensures
        r,
{
    true
}

/// Reference to the target Kubernetes resource.
#[derive(Debug, Clone)]
pub struct TargetRef {
    /// API version of the target resource
    pub api_version: String,
    /// Kind of the target resource (e.g., Deployment, StatefulSet)
    pub kind: String,
    /// Name of the target resource
    pub name: String,
    /// Namespace of the target resource
    pub namespace: String,
}

/// Type of update.
#[derive(Debug, Clone, Copy, PartialEq, Eq, Structural)]
pub enum UpdateType {
    Image,
    HelmChart,
}

/// Policy type recorded on an update request.
#[derive(Debug, Clone, Copy, PartialEq, Eq, Structural)]
pub enum UpdatePolicyType {
    Major,
    Minor,
    Patch,
    Glob,
    /// The policy written `none`
    Never,
}

/// Status of an UpdateRequest.
#[derive(Debug, Clone)]
pub struct UpdateRequestStatus {
    /// Current phase of the update request
    pub phase: UpdatePhase,
    /// User or system that approved the update
    pub approved_by: Option<String>,
    /// When the update was approved
    pub approved_at: Option<Instant>,
    /// User or system that rejected the update
    pub rejected_by: Option<String>,
    /// When the update was rejected
    pub rejected_at: Option<Instant>,
    /// Status message
    pub message: Option<String>,
    /// Last time this status was updated
    pub last_updated: Option<Instant>,
}

impl Default for UpdateRequestStatus {
    fn default() -> (r: Self)
        ensures
            r.phase == UpdatePhase::Pending,
            r.approved_by is None,
            r.approved_at is None,
            r.rejected_by is None,
            r.rejected_at is None,
            r.message is None,
            r.last_updated is None,
    {
        UpdateRequestStatus {
            phase: UpdatePhase::Pending,
            approved_by: None,
            approved_at: None,
            rejected_by: None,
            rejected_at: None,
            message: None,
            last_updated: None,
        }
    }
}

/// Phase of the UpdateRequest lifecycle.
#[derive(Debug, Clone, Copy, PartialEq, Eq, Structural)]
pub enum UpdatePhase {
    Pending,
    Approved,
    Rejected,
    Completed,
    Failed,
    Expired,
}

impl Default for UpdatePhase {
    fn default() -> (r: Self)
        ensures
            r == UpdatePhase::Pending,
    {
        UpdatePhase::Pending
    }
}

} // verus!
