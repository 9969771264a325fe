//! Image and chart references as the `oci-distribution` crate reads them,
//! and the targets of a poll taken from them.

use crate::config::opt_text;
use crate::text::{owned, seq_starts_with, strip_prefix};
use vstd::prelude::*;

verus! {

/// What `oci_distribution::Reference::try_from` makes of `text`: its
/// registry, repository, tag and digest, or `None` when the crate refuses
/// the text.
pub uninterp spec fn oci_reference_of(text: Seq<char>) -> Option<
    (Seq<char>, Seq<char>, Option<Seq<char>>, Option<Seq<char>>),
>;

/// The parts of a container image or OCI artifact reference.
#[derive(Clone, Debug)]
pub struct ImageReference {
    /// The registry host (may be empty when the crate names none)
    pub registry: String,
    /// The repository within the registry
    pub repository: String,
    /// The tag, if the reference has one
    pub tag: Option<String>,
    /// The digest, if the reference has one
    pub digest: Option<String>,
}

impl ImageReference {
    /// The parts as texts.
    pub open spec fn parts(&self) -> (Seq<char>, Seq<char>, Option<Seq<char>>, Option<Seq<char>>) {
        (self.registry@, self.repository@, opt_text(self.tag), opt_text(self.digest))
    }
}

/// Calls `oci_distribution::Reference::try_from` on `text` and takes its
/// registry, repository, tag and digest apart; `None` when the crate
/// refuses the text.
#[verifier::external_body]
pub(crate) fn parse_reference(text: &str) -> (r: Option<ImageReference>)
    ensures
        match r {
            Some(x) => oci_reference_of(text@) == Some(x.parts()),
            None => oci_reference_of(text@) is None,
        },
{
    match oci_distribution::Reference::try_from(text) {
        Ok(x) => Some(
            ImageReference {
                registry: x.registry().to_string(),
                repository: x.repository().to_string(),
                tag: x.tag().map(|t| t.to_string()),
                digest: x.digest().map(|d| d.to_string()),
            },
        ),
        Err(_) => None,
    }
}

/// The tag a poll starts from: the reference's tag, `latest` without one.
pub open spec fn current_tag_of(tag: Option<Seq<char>>) -> Seq<char> {
    match tag {
        Some(t) => t,
        None => "latest"@,
    }
}

/// What polling an image starts from: the image's reference and its
/// current tag; `None` when the image is no valid reference.
pub fn poll_target(image: &str) -> (r: Option<(ImageReference, String)>)
    ensures
        match oci_reference_of(image@) {
            Some(parts) => r matches Some((x, tag)) && x.parts() == parts && tag@ == current_tag_of(
                parts.2,
            ),
            None => r is None,
        },
{
    match parse_reference(image) {
        Some(x) => {
            let tag = match &x.tag {
                Some(t) => t.clone(),
                None => owned("latest"),
            };
            proof {
                reveal_strlit("latest");
            }
            Some((x, tag))
        },
        None => None,
    }
}

/// The reference of `tag` in `repository` (the repository alone, with no
/// registry, as the poller names a newer tag); `None` when that is no valid
/// reference.
pub fn tag_target(repository: &str, tag: &str) -> (r: Option<ImageReference>)
    ensures
        match oci_reference_of(repository@ + ":"@ + tag@) {
            Some(parts) => r matches Some(x) && x.parts() == parts,
            None => r is None,
        },
{
    let text = super::tag_reference(repository, tag);
    parse_reference(text.as_str())
}

/// The text an OCI chart is read from: its address without `oci://`, then
/// `:` and the current version; `None` for an address not under `oci://`.
pub open spec fn oci_chart_text(repository_url: Seq<char>, current_version: Seq<char>) -> Option<
    Seq<char>,
> {
    if seq_starts_with(repository_url, "oci://"@) {
        Some(repository_url.subrange(6, repository_url.len() as int) + ":"@ + current_version)
    } else {
        None
    }
}

/// Why an OCI chart cannot be polled.
#[derive(Clone, Debug, PartialEq, Eq)]
pub enum ChartTargetError {
    /// The address does not start with `oci://`
    NotOci,
    /// The address and version make no valid reference
    InvalidReference,
}

/// The reference an OCI chart at `repository_url`, now at
/// `current_version`, is polled through.
pub fn oci_chart_target(repository_url: &str, current_version: &str) -> (r: Result<
    ImageReference,
    ChartTargetError,
>)
    ensures
        match oci_chart_text(repository_url@, current_version@) {
            None => r == Err::<ImageReference, ChartTargetError>(ChartTargetError::NotOci),
            Some(text) => match oci_reference_of(text) {
                Some(parts) => r matches Ok(x) && x.parts() == parts,
                None => r == Err::<ImageReference, ChartTargetError>(
                    ChartTargetError::InvalidReference,
                ),
            },
        },
{
    proof {
        reveal_strlit("oci://");
    }
    match strip_prefix(repository_url, "oci://") {
        Some(rest) => {
            let text = super::tag_reference(rest, current_version);
            match parse_reference(text.as_str()) {
                Some(x) => Ok(x),
                None => Err(ChartTargetError::InvalidReference),
            }
        },
        None => Err(ChartTargetError::NotOci),
    }
}

} // verus!
