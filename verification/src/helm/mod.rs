//! Helm chart repositories (index files and OCI registries): which of their
//! versions is the best update.

pub mod oci;
pub mod repository;

use crate::models::policy::{EventSource, ResourcePolicy, UpdatePolicy};
use crate::policy::{policy_decision, PolicyEngine};
use crate::text::{string_less, strip_all_prefix, strip_all_prefix_str, text_less};
use crate::version::{numbers_less, parse_semver, semver_numbers, semver_precedes, version_precedes};
use vstd::prelude::*;

verus! {

/// A version without its leading `v`s, as it is read for sorting.
pub open spec fn version_key(v: Seq<char>) -> Seq<char> {
    strip_all_prefix(v, seq!['v'])
}

/// `a` sorts before `b` newest first: by semantic version when both read
/// as one (leading `v`s dropped), else by their text, greatest first.
pub open spec fn sorts_newer(a: Seq<char>, b: Seq<char>) -> bool {
    let ka = version_key(a);
    let kb = version_key(b);
    if semver_numbers(ka) is Some && semver_numbers(kb) is Some {
        semver_precedes(kb, ka)
    } else {
        text_less(b, a)
    }
}

/// The versions of `vs` that the policy allows from `current`, in order.
pub open spec fn allowed_versions(policy: UpdatePolicy, current: Seq<char>, vs: Seq<Seq<char>>) -> Seq<Seq<char>>
    decreases vs.len(),
{
    if vs.len() == 0 {
        Seq::empty()
    } else {
        let p = allowed_versions(policy, current, vs.drop_last());
        if policy_decision(policy, None, current, vs.last()) == Some(true) {
            p.push(vs.last())
        } else {
            p
        }
    }
}

/// The first of `vs` that no later one sorts before: going through them in
/// order, a version replaces the best so far when it sorts newer.
pub open spec fn newest_of(vs: Seq<Seq<char>>) -> Option<Seq<char>>
    decreases vs.len(),
{
    if vs.len() == 0 {
        None
    } else {
        match newest_of(vs.drop_last()) {
            None => Some(vs.last()),
            Some(b) => if sorts_newer(vs.last(), b) {
                Some(vs.last())
            } else {
                Some(b)
            },
        }
    }
}

fn sorts_before(a: &str, b: &str) -> (r: bool)
    ensures
        r == sorts_newer(a@, b@),
        semver_numbers(version_key(a@)) is Some && semver_numbers(version_key(b@)) is Some
            && key_numbers(a@) != key_numbers(b@) ==> r == numbers_less(key_numbers(b@), key_numbers(a@)),
{
    proof {
        reveal_strlit("v");
        assert("v"@ =~= seq!['v']);
    }
    let ka = strip_all_prefix_str(a, "v");
    let kb = strip_all_prefix_str(b, "v");
    match (parse_semver(ka), parse_semver(kb)) {
        (Some(va), Some(vb)) => version_precedes(&vb, &va),
        _ => string_less(b, a),
    }
}

/// Every version in `vs` reads as a semantic version (leading `v`s
/// dropped).
pub open spec fn all_semver(vs: Seq<Seq<char>>) -> bool {
    forall|v: Seq<char>| #[trigger] vs.contains(v) ==> semver_numbers(version_key(v)) is Some
}

/// `b` has numbers no lower than those of any version in `vs`.
pub open spec fn highest_numbers(b: Seq<char>, vs: Seq<Seq<char>>) -> bool {
    forall|v: Seq<char>| #[trigger] vs.contains(v) ==> !numbers_less(key_numbers(b), key_numbers(v))
}

/// The newest version among `versions` that `policy` allows from
/// `current`: the allowed versions sorted newest first (by semantic version
/// where both read as one, else by text), and the first taken. `None` when
/// none is allowed.
pub fn newest_allowed_version(versions: &Vec<String>, current: &str, policy: UpdatePolicy) -> (r: Option<
    String,
>)
    ensures
        crate::config::opt_text(r) == newest_of(allowed_versions(policy, current@, versions.deep_view())),
        all_semver(allowed_versions(policy, current@, versions.deep_view())) ==> (r matches Some(b)
            ==> highest_numbers(b@, allowed_versions(policy, current@, versions.deep_view()))),
{
    let rp = ResourcePolicy {
        policy,
        pattern: None,
        require_approval: true,
        min_update_interval: None,
        images: Vec::new(),
        event_source: EventSource::Webhook,
        polling_interval: None,
    };
    let engine = PolicyEngine;
    let mut best: Option<String> = None;
    let mut i: usize = 0;
    let ghost vs = versions.deep_view();
    assert(vs.take(0) =~= Seq::<Seq<char>>::empty());
    while i < versions.len()
        invariant
            i <= vs.len(),
            vs == versions.deep_view(),
            rp.policy == policy,
            rp.pattern is None,
            crate::config::opt_text(best) == newest_of(allowed_versions(policy, current@, vs.take(i as int))),
            all_semver(allowed_versions(policy, current@, vs.take(i as int))) ==> (best matches Some(b)
                ==> highest_numbers(b@, allowed_versions(policy, current@, vs.take(i as int)))),
        decreases vs.len() - i,
    {
        let v = &versions[i];
        let ghost prefix = vs.take(i + 1);
        assert(prefix.drop_last() =~= vs.take(i as int));
        assert(prefix.last() == v@);
        let allowed = match engine.should_update(&rp, current, v.as_str()) {
            Ok(b) => b,
            Err(_) => false,
        };
        let ghost f = allowed_versions(policy, current@, vs.take(i as int));
        let ghost old_best = crate::config::opt_text(best);
        if allowed {
            assert(f.push(v@).drop_last() =~= f);
            let ghost g = f.push(v@);
            assert(g.last() == v@);
            proof {
                lemma_newest_member(f);
                assert forall|x: Seq<char>| #[trigger] f.contains(x) implies g.contains(x) by {
                    let k = choose|k: int| 0 <= k < f.len() && f[k] == x;
                    assert(g[k] == x);
                }
                assert(g[f.len() as int] == v@);
                assert(g.contains(v@));
                assert forall|x: Seq<char>| #[trigger] g.contains(x) implies x == v@ || f.contains(x) by {
                    let k = choose|k: int| 0 <= k < g.len() && g[k] == x;
                    if k < f.len() {
                        assert(f[k] == x);
                    }
                }
                if best is None && f.len() > 0 {
                    lemma_newest_member(f);
                    assert(newest_of(f) is Some);
                }
            }
            let replace = match &best {
                None => true,
                Some(b) => sorts_before(v.as_str(), b.as_str()),
            };
            if replace {
                best = Some(v.clone());
            }
            proof {
                if all_semver(g) {
                    assert(all_semver(f));
                    assert(semver_numbers(version_key(v@)) is Some);
                    if let Some(b) = crate::config::opt_text(best) {
                        assert forall|x: Seq<char>| #[trigger] g.contains(x) implies !numbers_less(
                            key_numbers(b),
                            key_numbers(x),
                        ) by {
                            if x != v@ {
                                assert(f.contains(x));
                            }
                        }
                    }
                }
            }
        }
        i = i + 1;
    }
    assert(vs.take(vs.len() as int) =~= vs);
    best
}

/// The newest allowed version, when there is one, is one of the versions
/// and the policy allows it.
pub proof fn lemma_newest_is_allowed(policy: UpdatePolicy, current: Seq<char>, vs: Seq<Seq<char>>)
    ensures
        newest_of(allowed_versions(policy, current, vs)) matches Some(v) ==> vs.contains(v)
            && policy_decision(policy, None, current, v) == Some(true),
{
    let a = allowed_versions(policy, current, vs);
    lemma_newest_member(a);
    lemma_allowed_members(policy, current, vs);
    if let Some(v) = newest_of(a) {
        let k = choose|k: int| 0 <= k < a.len() && a[k] == v;
    }
}

/// The (major, minor, patch) numbers a version carries, leading `v`s
/// dropped (meaningful where it reads as a semantic version).
pub open spec fn key_numbers(v: Seq<char>) -> (u64, u64, u64) {
    semver_numbers(version_key(v))->0
}

/// Semantic version precedence follows the numbers wherever they differ
/// (as `semver` orders versions, and as `version_precedes` states for each
/// pair it compares).
pub open spec fn precedence_follows_numbers(vs: Seq<Seq<char>>) -> bool {
    forall|a: Seq<char>, b: Seq<char>|
        #![trigger vs.contains(a), vs.contains(b)]
        vs.contains(a) && vs.contains(b) && key_numbers(a) != key_numbers(b) ==> (semver_precedes(
            version_key(a),
            version_key(b),
        ) <==> numbers_less(key_numbers(a), key_numbers(b)))
}

/// The newest of versions that all read as semantic versions has the
/// highest (major, minor, patch) numbers among them: no version has
/// greater numbers. So `1.10.0` is chosen over `1.9.0`.
pub proof fn lemma_newest_has_highest_numbers(vs: Seq<Seq<char>>)
    requires
        forall|v: Seq<char>| #[trigger] vs.contains(v) ==> semver_numbers(version_key(v)) is Some,
        precedence_follows_numbers(vs),
    ensures
        newest_of(vs) matches Some(b) ==> vs.contains(b) && forall|v: Seq<char>|
            #[trigger] vs.contains(v) ==> !numbers_less(key_numbers(b), key_numbers(v)),
    decreases vs.len(),
{
    if vs.len() > 0 {
        let p = vs.drop_last();
        let l = vs.last();
        assert(vs[vs.len() - 1] == l);
        assert(vs.contains(l));
        assert forall|x: Seq<char>| #[trigger] p.contains(x) implies vs.contains(x) by {
            let k = choose|k: int| 0 <= k < p.len() && p[k] == x;
            assert(vs[k] == x);
        }
        assert(precedence_follows_numbers(p));
        lemma_newest_has_highest_numbers(p);
        assert forall|v: Seq<char>| #[trigger] vs.contains(v) implies v == l || p.contains(v) by {
            let k = choose|k: int| 0 <= k < vs.len() && vs[k] == v;
            if k < vs.len() - 1 {
                assert(p[k] == v);
            }
        }
        match newest_of(p) {
            None => {
                assert(p.len() == 0) by {
                    if p.len() > 0 {
                        lemma_newest_member(p);
                    }
                }
                assert forall|v: Seq<char>| #[trigger] vs.contains(v) implies !numbers_less(
                    key_numbers(l),
                    key_numbers(v),
                ) by {
                    if p.contains(v) {
                        let k = choose|k: int| 0 <= k < p.len() && p[k] == v;
                    }
                }
            },
            Some(b0) => {
                assert(p.contains(b0));
                if sorts_newer(l, b0) {
                    assert forall|v: Seq<char>| #[trigger] vs.contains(v) implies !numbers_less(
                        key_numbers(l),
                        key_numbers(v),
                    ) by {
                        if v != l {
                            assert(p.contains(v));
                            assert(!numbers_less(key_numbers(b0), key_numbers(v)));
                        }
                    }
                } else {
                    assert(!numbers_less(key_numbers(b0), key_numbers(l)));
                }
            },
        }
    }
}

/// `sorts_newer` is a strict order on the texts of `vs`: no text sorts newer
/// than itself, and sorting newer carries over from one text to the next.
pub open spec fn strict_order_on(vs: Seq<Seq<char>>) -> bool {
    &&& forall|a: Seq<char>| #[trigger] vs.contains(a) ==> !sorts_newer(a, a)
    &&& forall|a: Seq<char>, b: Seq<char>, c: Seq<char>|
        vs.contains(a) && vs.contains(b) && vs.contains(c) && #[trigger] sorts_newer(a, b)
            && #[trigger] sorts_newer(b, c) ==> sorts_newer(a, c)
}

/// Where sorting newer is a strict order on the versions (as semantic
/// version precedence is), the newest of them is one that no other version
/// sorts newer than.
pub proof fn lemma_newest_is_maximal(vs: Seq<Seq<char>>)
    requires
        strict_order_on(vs),
    ensures
        newest_of(vs) matches Some(b) ==> vs.contains(b) && forall|v: Seq<char>|
            #[trigger] vs.contains(v) ==> !sorts_newer(v, b),
    decreases vs.len(),
{
    if vs.len() > 0 {
        let p = vs.drop_last();
        let l = vs.last();
        assert(vs[vs.len() - 1] == l);
        assert forall|x: Seq<char>| #[trigger] p.contains(x) implies vs.contains(x) by {
            let k = choose|k: int| 0 <= k < p.len() && p[k] == x;
            assert(vs[k] == x);
        }
        assert(strict_order_on(p));
        lemma_newest_is_maximal(p);
        assert forall|v: Seq<char>| #[trigger] vs.contains(v) implies v == l || p.contains(v) by {
            let k = choose|k: int| 0 <= k < vs.len() && vs[k] == v;
            if k < vs.len() - 1 {
                assert(p[k] == v);
            }
        }
        match newest_of(p) {
            None => {
                assert(p.len() == 0) by {
                    if p.len() > 0 {
                        lemma_newest_member(p);
                    }
                }
                assert forall|v: Seq<char>| #[trigger] vs.contains(v) implies !sorts_newer(v, l) by {
                    if p.contains(v) {
                        let k = choose|k: int| 0 <= k < p.len() && p[k] == v;
                    }
                }
            },
            Some(b0) => {
                if sorts_newer(l, b0) {
                    assert forall|v: Seq<char>| #[trigger] vs.contains(v) implies !sorts_newer(v, l) by {
                        if v != l && sorts_newer(v, l) {
                            assert(p.contains(v));
                            assert(sorts_newer(v, b0));
                        }
                    }
                }
            },
        }
    }
}

proof fn lemma_allowed_members(policy: UpdatePolicy, current: Seq<char>, vs: Seq<Seq<char>>)
    ensures
        forall|k: int|
            0 <= k < allowed_versions(policy, current, vs).len() ==> vs.contains(
                #[trigger] allowed_versions(policy, current, vs)[k],
            ) && policy_decision(policy, None, current, allowed_versions(policy, current, vs)[k])
                == Some(true),
    decreases vs.len(),
{
    if vs.len() > 0 {
        lemma_allowed_members(policy, current, vs.drop_last());
        let p = allowed_versions(policy, current, vs.drop_last());
        assert forall|k: int| 0 <= k < p.len() implies vs.contains(#[trigger] p[k]) by {
            let j = choose|j: int| 0 <= j < vs.drop_last().len() && vs.drop_last()[j] == p[k];
            assert(vs[j] == p[k]);
        }
        assert(vs[vs.len() - 1] == vs.last());
    }
}

proof fn lemma_newest_member(vs: Seq<Seq<char>>)
    ensures
        newest_of(vs) matches Some(v) ==> vs.contains(v),
    decreases vs.len(),
{
    if vs.len() > 0 {
        lemma_newest_member(vs.drop_last());
        if let Some(b) = newest_of(vs.drop_last()) {
            let k = choose|k: int| 0 <= k < vs.drop_last().len() && vs.drop_last()[k] == b;
            assert(vs[k] == b);
        }
        assert(vs[vs.len() - 1] == vs.last());
    }
}

} // verus!
