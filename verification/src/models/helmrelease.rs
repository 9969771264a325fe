//! The parts of a Flux HelmRelease that Headwind reads.

use vstd::prelude::*;

verus! {

/// The chart template of a HelmRelease.
#[derive(Debug, Clone)]
pub struct HelmChartTemplate {
    pub spec: HelmChartTemplateSpec,
}

/// Which chart, at which version, from which source.
#[derive(Debug, Clone)]
pub struct HelmChartTemplateSpec {
    pub chart: String,
    pub version: Option<String>,
    pub source_ref: SourceReference,
    pub interval: Option<String>,
}

/// Reference to the source of a chart.
#[derive(Debug, Clone)]
pub struct SourceReference {
    pub kind: String,
    pub name: String,
    pub namespace: Option<String>,
}

/// A condition of a HelmRelease.
#[derive(Debug, Clone)]
pub struct HelmCondition {
    pub condition_type: String,
    pub status: String,
    pub reason: Option<String>,
    pub message: Option<String>,
}

/// The status of a HelmRelease.
#[derive(Debug, Clone)]
pub struct HelmReleaseStatus {
    pub conditions: Option<Vec<HelmCondition>>,
    pub last_applied_revision: Option<String>,
    pub last_attempted_revision: Option<String>,
    pub observed_generation: Option<i64>,
}

} // verus!
