//! Classic Helm repositories and their `index.yaml`.

use super::{all_semver, allowed_versions, highest_numbers, newest_allowed_version, newest_of};
use crate::models::policy::UpdatePolicy;
use std::collections::BTreeMap;
use vstd::prelude::*;

verus! {

/// Represents a Helm repository index.yaml file
#[derive(Debug, Clone)]
pub struct IndexYaml {
    pub api_version: String,
    pub entries: BTreeMap<String, Vec<ChartEntry>>,
    pub generated: Option<String>,
}

/// Represents a single chart version entry in the index
#[derive(Debug, Clone)]
pub struct ChartEntry {
    pub name: String,
    pub version: String,
    pub description: Option<String>,
    pub home: Option<String>,
    pub sources: Option<Vec<String>>,
    pub urls: Vec<String>,
    pub created: Option<String>,
    pub digest: Option<String>,
    pub app_version: Option<String>,
}

/// Credentials for Helm repository authentication
#[derive(Debug, Clone)]
pub struct RepositoryCredentials {
    pub username: String,
    pub password: String,
}

/// The entries of chart `name` in the index, when it lists the chart.
pub open spec fn chart_entries(entries: Map<String, Vec<ChartEntry>>, name: Seq<char>) -> Option<Seq<ChartEntry>> {
    if exists|k: String| entries.contains_key(k) && k@ == name {
        let k = choose|k: String| entries.contains_key(k) && k@ == name;
        Some(entries[k]@)
    } else {
        None
    }
}

/// Calls `BTreeMap::get` on the index entries: the entries stored under a
/// key with the characters of `name`, if any.
#[verifier::external_body]
fn entries_get<'a>(entries: &'a BTreeMap<String, Vec<ChartEntry>>, name: &str) -> (r: Option<
    &'a Vec<ChartEntry>,
>)
    ensures
        match r {
            Some(v) => chart_entries(entries@, name@) == Some(v@),
            None => chart_entries(entries@, name@) is None,
        },
{
    entries.get(name)
}

/// The versions of the entries, in order.
pub open spec fn entry_versions(es: Seq<ChartEntry>) -> Seq<Seq<char>> {
    es.map_values(|e: ChartEntry| e.version@)
}

/// The versions that the index lists for a chart, in order; none when the
/// chart is not listed.
pub open spec fn chart_versions_of(index: IndexYaml, chart_name: Seq<char>) -> Seq<Seq<char>> {
    match chart_entries(index.entries@, chart_name) {
        Some(es) => entry_versions(es),
        None => Seq::empty(),
    }
}

/// Get all available versions for a specific chart
pub fn get_chart_versions(index: &IndexYaml, chart_name: &str) -> (r: Vec<String>)
    ensures
        r.deep_view() == chart_versions_of(*index, chart_name@),
{
    let mut out: Vec<String> = Vec::new();
    match entries_get(&index.entries, chart_name) {
        Some(es) => {
            let mut i: usize = 0;
            while i < es.len()
                invariant
                    i <= es@.len(),
                    out.deep_view() == entry_versions(es@.take(i as int)),
                decreases es@.len() - i,
            {
                let ghost before = out.deep_view();
                out.push(es[i].version.clone());
                assert(out.deep_view() =~= before.push(es@[i as int].version@));
                assert(entry_versions(es@.take(i + 1)) =~= entry_versions(es@.take(i as int)).push(
                    es@[i as int].version@,
                ));
                i = i + 1;
            }
            assert(es@.take(es@.len() as int) =~= es@);
        },
        None => {
            assert(out.deep_view() =~= Seq::<Seq<char>>::empty());
        },
    }
    out
}

/// Find the latest version for a chart that matches a version constraint:
/// the newest of its listed versions that the policy allows from the
/// current one.
pub fn find_best_version(index: &IndexYaml, chart_name: &str, current_version: &str, policy: &UpdatePolicy) -> (r:
    Option<String>)
    ensures
        crate::config::opt_text(r) == newest_of(
            allowed_versions(*policy, current_version@, chart_versions_of(*index, chart_name@)),
        ),
        all_semver(allowed_versions(*policy, current_version@, chart_versions_of(*index, chart_name@)))
            ==> (r matches Some(b) ==> highest_numbers(
            b@,
            allowed_versions(*policy, current_version@, chart_versions_of(*index, chart_name@)),
        )),
{
    let versions = get_chart_versions(index, chart_name);
    newest_allowed_version(&versions, current_version, *policy)
}

} // verus!
