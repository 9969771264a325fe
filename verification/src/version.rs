//! Semantic versions, parsed and ordered by the `semver` crate.
//!
//! The grammar of a semantic version and the precedence between two of them
//! are the `semver` crate's; this module names their results and carries the
//! parsed value through the policy logic.

use vstd::prelude::*;

verus! {

#[verifier::external_type_specification]
#[verifier::external_body]
pub struct ExSemverVersion(semver::Version);

/// What `semver::Version::parse` makes of `text`: its major, minor and patch
/// numbers, or `None` when `text` is not a semantic version.
pub uninterp spec fn semver_numbers(text: Seq<char>) -> Option<(u64, u64, u64)>;

/// Whether the version written `a` has lower precedence than the one written
/// `b`, in the order that `semver::Version` implements.
pub uninterp spec fn semver_precedes(a: Seq<char>, b: Seq<char>) -> bool;

/// Lexicographic order on (major, minor, patch).
pub open spec fn numbers_less(a: (u64, u64, u64), b: (u64, u64, u64)) -> bool {
    ||| a.0 < b.0
    ||| (a.0 == b.0 && a.1 < b.1)
    ||| (a.0 == b.0 && a.1 == b.1 && a.2 < b.2)
}

/// A version that `semver` accepted, together with the text it came from.
pub struct SemVer {
    version: semver::Version,
    text: String,
    major: u64,
    minor: u64,
    patch: u64,
}

impl SemVer {
    /// The text this version was parsed from.
    pub closed spec fn source(&self) -> Seq<char> {
        self.text@
    }

    /// Major, minor and patch numbers.
    pub closed spec fn numbers(&self) -> (u64, u64, u64) {
        (self.major, self.minor, self.patch)
    }

    pub fn major(&self) -> (r: u64)
        ensures
            r == self.numbers().0,
    {
        self.major
    }

    pub fn minor(&self) -> (r: u64)
        ensures
            r == self.numbers().1,
    {
        self.minor
    }

    pub fn patch(&self) -> (r: u64)
        ensures
            r == self.numbers().2,
    {
        self.patch
    }
}

/// Calls `semver::Version::parse`. The result is `Some` exactly when the
/// crate accepts `text`; it then carries the crate's major, minor and patch
/// numbers and the text itself.
#[verifier::external_body]
pub(crate) fn parse_semver(text: &str) -> (r: Option<SemVer>)
    ensures
        r is Some <==> semver_numbers(text@) is Some,
        r matches Some(v) ==> v.source() == text@ && semver_numbers(text@) == Some(v.numbers()),
{
    match semver::Version::parse(text) {
        Ok(v) => Some(
            SemVer { major: v.major, minor: v.minor, patch: v.patch, text: text.to_string(), version: v },
        ),
        Err(_) => None,
    }
}

/// Calls `<` on two `semver::Version`s. The order is the crate's derived
/// one: it is irreflexive, and when the (major, minor, patch) triples differ
/// they alone decide it. How pre-release and build identifiers compare is
/// left to the name `semver_precedes`.
#[verifier::external_body]
pub(crate) fn version_precedes(a: &SemVer, b: &SemVer) -> (r: bool)
    ensures
        r == semver_precedes(a.source(), b.source()),
        a.source() == b.source() ==> !r,
        a.numbers() != b.numbers() ==> r == numbers_less(a.numbers(), b.numbers()),
{
    a.version < b.version
}

} // verus!
