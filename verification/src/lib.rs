//! Headwind: update decisions for Kubernetes workloads driven by container
//! image and Helm chart versions.

pub mod text;
pub mod version;
pub mod models;
pub mod policy;
pub mod parse;
pub mod webhook;
pub mod clock;
pub mod config;
pub mod rollback;
pub mod notifications;
pub mod controller;
pub mod polling;
pub mod approval;
pub mod helm;
pub mod ui;
pub mod metrics;

pub use models::policy::{ResourcePolicy, UpdatePolicy};
pub use models::webhook::{DockerHubWebhook, ImagePushEvent, RegistryWebhook};

use vstd::prelude::*;
use crate::models::policy::EventSource;
use crate::policy::{policy_decision, PolicyEngine};
use crate::text::owned;

verus! {

/// Whether the policy engine allows an update from `current` to
/// `new_version` under `policy_type` (and `pattern` for glob policies); a
/// version that a semver-based policy cannot read counts as "no".
pub fn test_should_update(current: &str, new_version: &str, policy_type: UpdatePolicy, pattern: Option<
    &str,
>) -> (r: bool)
    ensures
        r == (policy_decision(
            policy_type,
            match pattern {
                Some(p) => Some(p@),
                None => None,
            },
            current@,
            new_version@,
        ) == Some(true)),
{
    let engine = PolicyEngine;
    let policy = ResourcePolicy {
        policy: policy_type,
        pattern: match pattern {
            Some(p) => Some(owned(p)),
            None => None,
        },
        require_approval: true,
        min_update_interval: Some(300),
        images: Vec::new(),
        event_source: EventSource::Webhook,
        polling_interval: None,
    };
    match engine.should_update(&policy, current, new_version) {
        Ok(b) => b,
        Err(_) => false,
    }
}

} // verus!
