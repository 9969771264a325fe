//! The policy engine: whether a resource at one version may move to another.

use crate::models::policy::{pattern_of, ResourcePolicy, UpdatePolicy};
use crate::text::{
    ends_with, find_char, first_index_of, last_index_of, owned, rfind_char, seq_ends_with,
    seq_starts_with, slice, starts_with, str_eq, strip_all_prefix, strip_all_prefix_str, trim,
    trim_ws,
};
use crate::version::{parse_semver, semver_numbers, semver_precedes, version_precedes};
use vstd::prelude::*;

verus! {

/// `pattern` has exactly one `*`.
pub open spec fn single_star(pattern: Seq<char>) -> bool {
    first_index_of(pattern, '*') >= 0 && first_index_of(pattern, '*') == last_index_of(pattern, '*')
}

/// Glob matching with a single `*`: `*` alone matches everything; a pattern
/// with exactly one `*` matches the texts made of the part before it, then
/// anything, then the part after it; any other pattern matches only itself.
pub open spec fn glob_matches(pattern: Seq<char>, text: Seq<char>) -> bool {
    if pattern == "*"@ {
        true
    } else if single_star(pattern) {
        let i = first_index_of(pattern, '*');
        text.len() + 1 >= pattern.len() && seq_starts_with(text, pattern.subrange(0, i)) && seq_ends_with(
            text,
            pattern.subrange(i + 1, pattern.len() as int),
        )
    } else {
        pattern == text
    }
}

/// With exactly one `*` (and more than the `*` alone), a text matches
/// exactly when it is the part before the `*`, then some text, then the part
/// after it.
pub proof fn lemma_single_star_glob(pattern: Seq<char>, text: Seq<char>)
    requires
        single_star(pattern),
        pattern != "*"@,
    ensures
        glob_matches(pattern, text) <==> exists|x: Seq<char>|
            text == pattern.subrange(0, first_index_of(pattern, '*')) + x + pattern.subrange(
                first_index_of(pattern, '*') + 1,
                pattern.len() as int,
            ),
{
    let i = first_index_of(pattern, '*');
    crate::text::lemma_first_index_bounds(pattern, '*');
    let pre = pattern.subrange(0, i);
    let suf = pattern.subrange(i + 1, pattern.len() as int);
    if glob_matches(pattern, text) {
        let x = text.subrange(pre.len() as int, text.len() - suf.len());
        assert(text =~= pre + x + suf);
    }
    if exists|x: Seq<char>| text == pre + x + suf {
        let x = choose|x: Seq<char>| text == pre + x + suf;
        assert(text.subrange(0, pre.len() as int) =~= pre);
        assert(text.subrange(text.len() - suf.len(), text.len() as int) =~= suf);
    }
}

/// Glob matching of a version tag against a pattern with one `*`.
pub fn glob_match(pattern: &str, text: &str) -> (r: bool)
    ensures
        r == glob_matches(pattern@, text@),
{
    if str_eq(pattern, "*") {
        return true;
    }
    let first = find_char(pattern, '*');
    let last = rfind_char(pattern, '*');
    match (first, last) {
        (Some(i), Some(j)) => {
            if i == j {
                proof {
                    crate::text::lemma_first_index_bounds(pattern@, '*');
                }
                let n = pattern.unicode_len();
                let prefix = slice(pattern, 0, i);
                let suffix = slice(pattern, i + 1, n);
                return text.unicode_len() >= n - 1 && starts_with(text, prefix) && ends_with(text, suffix);
            }
        },
        _ => {},
    }
    str_eq(pattern, text)
}

/// A version string prepared for semver parsing: leading `v`s, then leading
/// `release-` prefixes, then surrounding whitespace removed.
pub open spec fn clean_version(v: Seq<char>) -> Seq<char> {
    trim_ws(strip_all_prefix(strip_all_prefix(v, seq!['v']), "release-"@))
}

/// A version as tags write it: it starts with a digit and does not end in
/// whitespace.
pub open spec fn plain_version(s: Seq<char>) -> bool {
    s.len() > 0 && '0' <= s[0] && s[0] <= '9' && !crate::text::is_space(s.last())
}

/// The common prefixes of version tags are read away: a version written
/// with `v` or `release-` in front is read as the version itself.
pub proof fn lemma_version_prefixes_are_dropped(s: Seq<char>)
    requires
        plain_version(s),
    ensures
        clean_version(s) == s,
        clean_version("v"@ + s) == s,
        clean_version("release-"@ + s) == s,
{
    reveal_strlit("v");
    reveal_strlit("release-");
    let r = "release-"@;
    assert(seq!['v'] =~= "v"@);
    // the plain version is left as it is
    assert(!seq_starts_with(s, seq!['v'])) by {
        if seq_starts_with(s, seq!['v']) {
            assert(s.subrange(0, 1)[0] == s[0]);
        }
    }
    assert(!seq_starts_with(s, r)) by {
        if seq_starts_with(s, r) {
            assert(s.subrange(0, 8)[0] == s[0]);
        }
    }
    assert(strip_all_prefix(s, seq!['v']) == s);
    assert(strip_all_prefix(s, r) == s);
    assert(crate::text::trim_start_ws(s) == s);
    assert(crate::text::trim_end_ws(s) == s);
    // one leading `v`
    let vs = "v"@ + s;
    assert(seq_starts_with(vs, seq!['v'])) by {
        assert(vs.subrange(0, 1) =~= seq!['v']);
    }
    assert(vs.subrange(1, vs.len() as int) =~= s);
    assert(strip_all_prefix(vs, seq!['v']) == s);
    // one leading `release-`
    let rs = r + s;
    assert(!seq_starts_with(rs, seq!['v'])) by {
        if seq_starts_with(rs, seq!['v']) {
            assert(rs.subrange(0, 1)[0] == rs[0]);
        }
    }
    assert(strip_all_prefix(rs, seq!['v']) == rs);
    assert(seq_starts_with(rs, r)) by {
        assert(rs.subrange(0, 8) =~= r);
    }
    assert(rs.subrange(8, rs.len() as int) =~= s);
    assert(strip_all_prefix(rs, r) == s);
}

/// Hence a semver-based policy decides on `release-` or `v` tags as on the
/// versions they carry.
pub proof fn lemma_prefixed_tags_decide_as_versions(
    policy: UpdatePolicy,
    pattern: Option<Seq<char>>,
    current: Seq<char>,
    new: Seq<char>,
)
    requires
        plain_version(current),
        plain_version(new),
        policy == UpdatePolicy::Patch || policy == UpdatePolicy::Minor || policy == UpdatePolicy::Major,
    ensures
        policy_decision(policy, pattern, "release-"@ + current, "release-"@ + new) == policy_decision(
            policy,
            pattern,
            current,
            new,
        ),
        policy_decision(policy, pattern, "v"@ + current, "v"@ + new) == policy_decision(
            policy,
            pattern,
            current,
            new,
        ),
{
    lemma_version_prefixes_are_dropped(current);
    lemma_version_prefixes_are_dropped(new);
}

/// The outcome of a semver-based policy (patch, minor or major): `None` when
/// either version does not parse, else whether the new version is newer (a
/// different version of higher precedence) and within the bound that the
/// policy sets.
pub open spec fn semver_decision(policy: UpdatePolicy, current: Seq<char>, new: Seq<char>) -> Option<
    bool,
> {
    let c = clean_version(current);
    let n = clean_version(new);
    match (semver_numbers(c), semver_numbers(n)) {
        (Some(cv), Some(nv)) => Some(
            c != n && semver_precedes(c, n) && match policy {
                UpdatePolicy::Patch => nv.0 == cv.0 && nv.1 == cv.1,
                UpdatePolicy::Minor => nv.0 == cv.0,
                _ => true,
            },
        ),
        _ => None,
    }
}

/// Whether `policy` allows moving from `current` to `new`; `None` when a
/// semver-based policy meets a version that does not parse.
pub open spec fn policy_decision(
    policy: UpdatePolicy,
    pattern: Option<Seq<char>>,
    current: Seq<char>,
    new: Seq<char>,
) -> Option<bool> {
    match policy {
        UpdatePolicy::Never => Some(false),
        UpdatePolicy::Force => Some(true),
        UpdatePolicy::All => Some(current != new),
        UpdatePolicy::Glob => match pattern {
            Some(p) => Some(glob_matches(p, new)),
            None => Some(false),
        },
        _ => semver_decision(policy, current, new),
    }
}

/// The policies nest: what patch allows, minor allows; what minor allows,
/// major allows; what major allows, all allows; and major only ever moves to
/// a version of higher precedence, so no semver policy updates a version to
/// itself. Never refuses everything, force allows everything, and all
/// allows every change but none to the same version.
pub proof fn lemma_policies_nest(pattern: Option<Seq<char>>, current: Seq<char>, new: Seq<char>)
    ensures
        policy_decision(UpdatePolicy::Patch, pattern, current, new) == Some(true) ==> policy_decision(
            UpdatePolicy::Minor,
            pattern,
            current,
            new,
        ) == Some(true),
        policy_decision(UpdatePolicy::Minor, pattern, current, new) == Some(true) ==> policy_decision(
            UpdatePolicy::Major,
            pattern,
            current,
            new,
        ) == Some(true),
        policy_decision(UpdatePolicy::Major, pattern, current, new) == Some(true) ==> semver_precedes(
            clean_version(current),
            clean_version(new),
        ),
        policy_decision(UpdatePolicy::Major, pattern, current, new) == Some(true) ==> policy_decision(
            UpdatePolicy::All,
            pattern,
            current,
            new,
        ) == Some(true),
        policy_decision(UpdatePolicy::Patch, pattern, current, current) != Some(true),
        policy_decision(UpdatePolicy::Minor, pattern, current, current) != Some(true),
        policy_decision(UpdatePolicy::Major, pattern, current, current) != Some(true),
        policy_decision(UpdatePolicy::Never, pattern, current, new) == Some(false),
        policy_decision(UpdatePolicy::Force, pattern, current, new) == Some(true),
        policy_decision(UpdatePolicy::All, pattern, current, current) == Some(false),
{
}

/// A version that the semver-based policies could not read.
#[derive(Debug, Clone)]
pub enum PolicyCheckError {
    /// The current version is not a semantic version
    InvalidCurrentVersion(String),
    /// The new version is not a semantic version
    InvalidNewVersion(String),
}

/// The message of a policy check error.
pub open spec fn check_error_text(e: PolicyCheckError) -> Seq<char> {
    match e {
        PolicyCheckError::InvalidCurrentVersion(v) => "Failed to parse current version: "@ + v@,
        PolicyCheckError::InvalidNewVersion(v) => "Failed to parse new version: "@ + v@,
    }
}

impl PolicyCheckError {
    /// The message of the error.
    pub fn message(&self) -> (r: String)
        ensures
            r@ == check_error_text(*self),
    {
        let (label, v) = match self {
            PolicyCheckError::InvalidCurrentVersion(v) => ("Failed to parse current version: ", v),
            PolicyCheckError::InvalidNewVersion(v) => ("Failed to parse new version: ", v),
        };
        let mut r = owned(label);
        r.append(v.as_str());
        r
    }
}

/// Evaluates update policies.
pub struct PolicyEngine;

impl PolicyEngine {
    /// Decides whether `policy` allows an update from `current_version` to
    /// `new_version`. A semver-based policy fails when the current version,
    /// or else the new one, does not parse.
    pub fn should_update(&self, policy: &ResourcePolicy, current_version: &str, new_version: &str) -> (r:
        Result<bool, PolicyCheckError>)
        ensures
            match r {
                Ok(b) => policy_decision(policy.policy, pattern_of(policy), current_version@, new_version@)
                    == Some(b) && (current_version@ == new_version@ && (policy.policy == UpdatePolicy::Patch
                    || policy.policy == UpdatePolicy::Minor || policy.policy == UpdatePolicy::Major)
                    ==> !b),
                Err(PolicyCheckError::InvalidCurrentVersion(s)) => {
                    &&& policy_decision(policy.policy, pattern_of(policy), current_version@, new_version@) is None
                    &&& semver_numbers(clean_version(current_version@)) is None
                    &&& s@ == current_version@
                },
                Err(PolicyCheckError::InvalidNewVersion(s)) => {
                    &&& policy_decision(policy.policy, pattern_of(policy), current_version@, new_version@) is None
                    &&& semver_numbers(clean_version(current_version@)) is Some
                    &&& semver_numbers(clean_version(new_version@)) is None
                    &&& s@ == new_version@
                },
            },
    {
        match policy.policy {
            UpdatePolicy::Never => Ok(false),
            UpdatePolicy::Force => Ok(true),
            UpdatePolicy::All => Ok(!str_eq(current_version, new_version)),
            UpdatePolicy::Glob => {
                match &policy.pattern {
                    Some(pattern) => Ok(glob_match(pattern.as_str(), new_version)),
                    None => Ok(false),
                }
            },
            UpdatePolicy::Patch | UpdatePolicy::Minor | UpdatePolicy::Major => {
                self.check_semver_policy(policy.policy, current_version, new_version)
            },
        }
    }

    fn check_semver_policy(&self, policy: UpdatePolicy, current: &str, new: &str) -> (r: Result<
        bool,
        PolicyCheckError,
    >)
        requires
            policy == UpdatePolicy::Patch || policy == UpdatePolicy::Minor || policy
                == UpdatePolicy::Major,
        ensures
            match r {
                Ok(b) => semver_decision(policy, current@, new@) == Some(b),
                Err(PolicyCheckError::InvalidCurrentVersion(s)) => {
                    &&& semver_numbers(clean_version(current@)) is None
                    &&& s@ == current@
                },
                Err(PolicyCheckError::InvalidNewVersion(s)) => {
                    &&& semver_numbers(clean_version(current@)) is Some
                    &&& semver_numbers(clean_version(new@)) is None
                    &&& s@ == new@
                },
            },
    {
        let current_clean = Self::clean(current);
        let current_version = match parse_semver(current_clean) {
            Some(v) => v,
            None => return Err(PolicyCheckError::InvalidCurrentVersion(owned(current))),
        };
        let new_clean = Self::clean(new);
        let new_version = match parse_semver(new_clean) {
            Some(v) => v,
            None => return Err(PolicyCheckError::InvalidNewVersion(owned(new))),
        };
        if !version_precedes(&current_version, &new_version) {
            return Ok(false);
        }
        let should_update = match policy {
            UpdatePolicy::Patch => new_version.major() == current_version.major()
                && new_version.minor() == current_version.minor(),
            UpdatePolicy::Minor => new_version.major() == current_version.major(),
            _ => true,
        };
        Ok(should_update)
    }

    fn clean(version: &str) -> (r: &str)
        ensures
            r@ == clean_version(version@),
    {
        let a = strip_all_prefix_str(version, "v");
        proof {
            reveal_strlit("v");
            assert("v"@ =~= seq!['v']);
        }
        let b = strip_all_prefix_str(a, "release-");
        trim(b)
    }
}

} // verus!
