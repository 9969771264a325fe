//! Update requests and events as the approval API reports them.

use crate::clock::Instant;
use vstd::prelude::*;

verus! {

/// A pending or finished update of one resource.
#[derive(Debug, Clone)]
pub struct UpdateRequest {
    pub id: String,
    pub namespace: String,
    pub resource_name: String,
    pub resource_kind: ResourceKind,
    pub current_image: String,
    pub new_image: String,
    pub created_at: Instant,
    pub status: UpdateStatus,
}

/// The kinds of workload that Headwind updates.
#[derive(Debug, Clone, Copy, PartialEq, Eq, Structural)]
pub enum ResourceKind {
    Deployment,
    StatefulSet,
    DaemonSet,
    HelmRelease,
}

/// Where an update request stands.
#[derive(Debug, Clone, PartialEq, Eq)]
pub enum UpdateStatus {
    PendingApproval,
    Approved,
    Rejected,
    Applied,
    Failed { reason: String },
}

/// A decision on an update request.
#[derive(Debug, Clone)]
pub struct ApprovalRequest {
    pub update_id: String,
    pub approved: bool,
    pub approver: Option<String>,
    pub reason: Option<String>,
}

/// Something that happened to an update request.
#[derive(Debug, Clone)]
pub struct UpdateEvent {
    pub update_id: String,
    pub event_type: EventType,
    pub timestamp: Instant,
    pub message: String,
}

/// What happened to an update request.
#[derive(Debug, Clone, Copy, PartialEq, Eq, Structural)]
pub enum EventType {
    Created,
    Approved,
    Rejected,
    Applied,
    Failed,
}

} // verus!
