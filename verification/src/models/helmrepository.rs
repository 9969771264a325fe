//! The parts of a Flux HelmRepository that Headwind reads.

use vstd::prelude::*;

verus! {

/// Where a Helm repository lives and how to reach it.
#[derive(Debug, Clone)]
pub struct HelmRepositorySpec {
    pub url: String,
    pub interval: Option<String>,
    pub timeout: Option<String>,
    pub secret_ref: Option<SecretReference>,
    pub cert_secret_ref: Option<SecretReference>,
    pub pass_credentials: Option<bool>,
    pub repository_type: Option<String>,
    pub provider: Option<String>,
}

/// The status of a HelmRepository.
#[derive(Debug, Clone)]
pub struct HelmRepositoryStatus {
    pub conditions: Option<Vec<HelmRepositoryCondition>>,
    pub url: Option<String>,
    pub artifact: Option<HelmRepositoryArtifact>,
    pub observed_generation: Option<i64>,
}

/// A condition of a HelmRepository.
#[derive(Debug, Clone)]
pub struct HelmRepositoryCondition {
    pub condition_type: String,
    pub status: String,
    pub reason: Option<String>,
    pub message: Option<String>,
    pub last_transition_time: Option<String>,
}

/// The artifact that a HelmRepository produced.
#[derive(Debug, Clone)]
pub struct HelmRepositoryArtifact {
    pub path: Option<String>,
    pub url: Option<String>,
    pub revision: Option<String>,
    pub digest: Option<String>,
    pub last_update_time: Option<String>,
}

/// Reference to a Secret by name.
#[derive(Debug, Clone)]
pub struct SecretReference {
    pub name: String,
}

} // verus!
