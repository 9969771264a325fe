//! Helm charts in OCI registries.

use super::{all_semver, allowed_versions, highest_numbers, newest_allowed_version, newest_of};
use crate::models::policy::UpdatePolicy;
use crate::polling::reference::{oci_reference_of, parse_reference, ImageReference};
use crate::text::{owned, seq_starts_with, strip_prefix};
use vstd::prelude::*;

verus! {

/// The part of an `oci://` chart address after the scheme; fails for any
/// other address.
pub fn oci_reference(oci_url: &str) -> (r: Result<&str, String>)
    ensures
        seq_starts_with(oci_url@, "oci://"@) ==> (r matches Ok(s) && s@ == oci_url@.skip(6)),
        !seq_starts_with(oci_url@, "oci://"@) ==> (r matches Err(m) && m@
            == "OCI URL must start with oci://"@),
{
    proof {
        reveal_strlit("oci://");
    }
    match strip_prefix(oci_url, "oci://") {
        Some(rest) => {
            assert(rest@ =~= oci_url@.skip(6));
            Ok(rest)
        },
        None => Err(owned("OCI URL must start with oci://")),
    }
}

/// The reference whose tags list the versions of the chart at `oci_url`:
/// the address without `oci://`, as `oci-distribution` reads it. Fails for
/// an address not under `oci://` and for one the crate refuses.
pub fn chart_reference(oci_url: &str) -> (r: Result<ImageReference, String>)
    ensures
        !seq_starts_with(oci_url@, "oci://"@) ==> (r matches Err(m) && m@
            == "OCI URL must start with oci://"@),
        seq_starts_with(oci_url@, "oci://"@) ==> match oci_reference_of(oci_url@.skip(6)) {
            Some(parts) => r matches Ok(x) && x.parts() == parts,
            None => r matches Err(m) && m@ == "Failed to parse OCI reference"@,
        },
{
    let text = oci_reference(oci_url)?;
    match parse_reference(text) {
        Some(x) => Ok(x),
        None => Err(owned("Failed to parse OCI reference")),
    }
}

/// The basic credentials for a registry: both a user name and a password,
/// or none (anonymous access).
pub fn chart_credentials(username: Option<&str>, password: Option<&str>) -> (r: Option<(String, String)>)
    ensures
        match (username, password) {
            (Some(u), Some(p)) => r matches Some(c) && c.0@ == u@ && c.1@ == p@,
            _ => r is None,
        },
{
    match (username, password) {
        (Some(u), Some(p)) => Some((owned(u), owned(p))),
        _ => None,
    }
}

/// Find the best version matching a policy: the newest of the versions
/// that the policy allows from the current one.
pub fn find_best_version(versions: &Vec<String>, current_version: &str, policy: &UpdatePolicy) -> (r: Option<
    String,
>)
    ensures
        crate::config::opt_text(r) == newest_of(
            allowed_versions(*policy, current_version@, versions.deep_view()),
        ),
        all_semver(allowed_versions(*policy, current_version@, versions.deep_view())) ==> (r matches Some(
            b,
        ) ==> highest_numbers(b@, allowed_versions(*policy, current_version@, versions.deep_view()))),
{
    newest_allowed_version(versions, current_version, *policy)
}

} // verus!
