//! What the dashboard pages show of update requests.

use crate::text::{
    concat2,
    lemma_text_less_irreflexive, lemma_text_less_total, lemma_text_less_transitive, str_eq,
    string_less, text_less,
};
use vstd::prelude::*;

verus! {

/// Represents an update request for display in the UI
#[derive(Debug, Clone)]
pub struct UpdateRequestView {
    pub name: String,
    pub namespace: String,
    pub resource_kind: String,
    pub resource_name: String,
    pub current_image: String,
    pub new_image: String,
    pub current_version: String,
    pub new_version: String,
    pub policy: String,
    pub status: String,
    pub created_at: String,
    pub approved_by: Option<String>,
    pub rejected_by: Option<String>,
    pub rejection_reason: Option<String>,
}

/// The badge style of a request's status on the dashboard: green when
/// completed, red when rejected, amber otherwise.
pub open spec fn badge_class_of(status: Seq<char>) -> Seq<char> {
    if status == "Completed"@ {
        "badge badge-success"@
    } else if status == "Rejected"@ {
        "badge badge-error"@
    } else {
        "badge badge-warning"@
    }
}

/// The badge style of a request's status on the dashboard.
pub fn status_badge_class(status: &str) -> (r: &'static str)
    ensures
        r@ == badge_class_of(status@),
{
    if str_eq(status, "Completed") {
        "badge badge-success"
    } else if str_eq(status, "Rejected") {
        "badge badge-error"
    } else {
        "badge badge-warning"
    }
}

/// Who decided a completed request, as the dashboard shows it: the
/// approver after a check mark, else the rejecter after a cross, else `-`.
pub open spec fn decided_by_of(u: UpdateRequestView) -> Seq<char> {
    match u.approved_by {
        Some(a) => "\u{2705} "@ + a@,
        None => match u.rejected_by {
            Some(r) => "\u{274c} "@ + r@,
            None => "-"@,
        },
    }
}

/// Who decided a completed request, as the dashboard shows it.
pub fn decided_by(u: &UpdateRequestView) -> (r: String)
    ensures
        r@ == decided_by_of(*u),
{
    match &u.approved_by {
        Some(a) => concat2("\u{2705} ", a.as_str()),
        None => match &u.rejected_by {
            Some(r) => concat2("\u{274c} ", r.as_str()),
            None => String::from_str("-"),
        },
    }
}

/// The texts are in strictly increasing order.
pub open spec fn strictly_sorted(s: Seq<Seq<char>>) -> bool {
    forall|i: int, j: int| 0 <= i < j < s.len() ==> text_less(#[trigger] s[i], #[trigger] s[j])
}

fn insert_sorted(r: &mut Vec<String>, x: String)
    requires
        strictly_sorted(old(r).deep_view()),
    ensures
        strictly_sorted(final(r).deep_view()),
        forall|y: Seq<char>| #[trigger]
            final(r).deep_view().contains(y) <==> (old(r).deep_view().contains(y) || y == x@),
{
    let ghost s = r.deep_view();
    let mut k: usize = 0;
    while k < r.len() && string_less(r[k].as_str(), x.as_str())
        invariant
            k <= r@.len(),
            s == r.deep_view(),
            forall|i: int| 0 <= i < k ==> text_less(#[trigger] s[i], x@),
        decreases r@.len() - k,
    {
        k = k + 1;
    }
    if k < r.len() && str_eq(r[k].as_str(), x.as_str()) {
        assert forall|y: Seq<char>| #[trigger] r.deep_view().contains(y) <==> (s.contains(y) || y == x@) by {
            if y == x@ {
                assert(s[k as int] == y);
            }
        }
        return;
    }
    proof {
        if k < s.len() {
            lemma_text_less_total(s[k as int], x@);
        }
    }
    r.insert(k, x);
    let ghost t = r.deep_view();
    assert(t =~= s.insert(k as int, x@));
    assert forall|i: int, j: int| 0 <= i < j < t.len() implies text_less(#[trigger] t[i], #[trigger] t[j]) by {
        if j < k {
            assert(t[i] == s[i] && t[j] == s[j]);
        } else if j == k {
            assert(t[j] == x@ && t[i] == s[i]);
        } else if i == k {
            assert(t[j] == s[j - 1]);
            if j - 1 > k {
                assert(text_less(s[k as int], s[j - 1]));
                lemma_text_less_transitive(x@, s[k as int], s[j - 1]);
            }
        } else if i < k {
            assert(t[i] == s[i] && t[j] == s[j - 1]);
            if j - 1 > i {
                assert(text_less(s[i], s[j - 1]));
            }
        } else {
            assert(t[i] == s[i - 1] && t[j] == s[j - 1]);
        }
    }
    assert forall|y: Seq<char>| #[trigger] t.contains(y) <==> (s.contains(y) || y == x@) by {
        if t.contains(y) {
            let m = choose|m: int| 0 <= m < t.len() && #[trigger] t[m] == y;
            if m < k {
                assert(s[m] == y);
            } else if m > k {
                assert(s[m - 1] == y);
            }
        }
        if s.contains(y) {
            let m = choose|m: int| 0 <= m < s.len() && #[trigger] s[m] == y;
            if m < k {
                assert(t[m] == y);
            } else {
                assert(t[m + 1] == y);
            }
        }
        if y == x@ {
            assert(t[k as int] == y);
        }
    }
}

/// The distinct texts of `values`, in increasing order (as sorting and
/// removing duplicates gives them).
pub fn sorted_unique(values: &Vec<String>) -> (r: Vec<String>)
    ensures
        strictly_sorted(r.deep_view()),
        forall|y: Seq<char>| #[trigger] r.deep_view().contains(y) <==> values.deep_view().contains(y),
{
    let mut r: Vec<String> = Vec::new();
    let mut i: usize = 0;
    let ghost vs = values.deep_view();
    assert(r.deep_view() =~= Seq::<Seq<char>>::empty());
    while i < values.len()
        invariant
            i <= vs.len(),
            vs == values.deep_view(),
            strictly_sorted(r.deep_view()),
            forall|y: Seq<char>| #[trigger]
                r.deep_view().contains(y) <==> vs.take(i as int).contains(y),
        decreases vs.len() - i,
    {
        let ghost before = r.deep_view();
        insert_sorted(&mut r, values[i].clone());
        assert forall|y: Seq<char>| #[trigger]
            r.deep_view().contains(y) <==> vs.take(i + 1).contains(y) by {
            let a = vs.take(i + 1);
            let b = vs.take(i as int);
            assert(a =~= b.push(vs[i as int]));
            if a.contains(y) {
                let m = choose|m: int| 0 <= m < a.len() && #[trigger] a[m] == y;
                if m < i {
                    assert(b[m] == y);
                }
            }
            if b.contains(y) {
                let m = choose|m: int| 0 <= m < b.len() && #[trigger] b[m] == y;
                assert(a[m] == y);
            }
            if y == vs[i as int] {
                assert(a[i as int] == y);
            }
        }
        i = i + 1;
    }
    assert(vs.take(vs.len() as int) =~= vs);
    r
}

/// The namespaces of the updates.
pub open spec fn namespaces_of(updates: Seq<UpdateRequestView>) -> Seq<Seq<char>> {
    updates.map_values(|u: UpdateRequestView| u.namespace@)
}

/// The resource kinds of the updates.
pub open spec fn kinds_of(updates: Seq<UpdateRequestView>) -> Seq<Seq<char>> {
    updates.map_values(|u: UpdateRequestView| u.resource_kind@)
}

/// The policies of the updates.
pub open spec fn policies_of(updates: Seq<UpdateRequestView>) -> Seq<Seq<char>> {
    updates.map_values(|u: UpdateRequestView| u.policy@)
}

/// Helper function to get unique namespaces from updates: sorted, without
/// duplicates.
pub fn get_unique_namespaces(updates: &Vec<UpdateRequestView>) -> (r: Vec<String>)
    ensures
        strictly_sorted(r.deep_view()),
        forall|y: Seq<char>| #[trigger] r.deep_view().contains(y) <==> namespaces_of(updates@).contains(y),
{
    let mut values: Vec<String> = Vec::new();
    let mut i: usize = 0;
    while i < updates.len()
        invariant
            i <= updates@.len(),
            values.deep_view() == namespaces_of(updates@.take(i as int)),
        decreases updates@.len() - i,
    {
        let ghost before = values.deep_view();
        values.push(updates[i].namespace.clone());
        assert(values.deep_view() =~= before.push(updates@[i as int].namespace@));
        assert(namespaces_of(updates@.take(i + 1)) =~= namespaces_of(updates@.take(i as int)).push(
            updates@[i as int].namespace@,
        ));
        i = i + 1;
    }
    assert(updates@.take(updates@.len() as int) =~= updates@);
    sorted_unique(&values)
}

/// Helper function to get unique resource kinds from updates: sorted,
/// without duplicates.
pub fn get_unique_kinds(updates: &Vec<UpdateRequestView>) -> (r: Vec<String>)
    ensures
        strictly_sorted(r.deep_view()),
        forall|y: Seq<char>| #[trigger] r.deep_view().contains(y) <==> kinds_of(updates@).contains(y),
{
    let mut values: Vec<String> = Vec::new();
    let mut i: usize = 0;
    while i < updates.len()
        invariant
            i <= updates@.len(),
            values.deep_view() == kinds_of(updates@.take(i as int)),
        decreases updates@.len() - i,
    {
        let ghost before = values.deep_view();
        values.push(updates[i].resource_kind.clone());
        assert(values.deep_view() =~= before.push(updates@[i as int].resource_kind@));
        assert(kinds_of(updates@.take(i + 1)) =~= kinds_of(updates@.take(i as int)).push(
            updates@[i as int].resource_kind@,
        ));
        i = i + 1;
    }
    assert(updates@.take(updates@.len() as int) =~= updates@);
    sorted_unique(&values)
}

/// Helper function to get unique policies from updates: sorted, without
/// duplicates.
pub fn get_unique_policies(updates: &Vec<UpdateRequestView>) -> (r: Vec<String>)
    ensures
        strictly_sorted(r.deep_view()),
        forall|y: Seq<char>| #[trigger] r.deep_view().contains(y) <==> policies_of(updates@).contains(y),
{
    let mut values: Vec<String> = Vec::new();
    let mut i: usize = 0;
    while i < updates.len()
        invariant
            i <= updates@.len(),
            values.deep_view() == policies_of(updates@.take(i as int)),
        decreases updates@.len() - i,
    {
        let ghost before = values.deep_view();
        values.push(updates[i].policy.clone());
        assert(values.deep_view() =~= before.push(updates@[i as int].policy@));
        assert(policies_of(updates@.take(i + 1)) =~= policies_of(updates@.take(i as int)).push(
            updates@[i as int].policy@,
        ));
        i = i + 1;
    }
    assert(updates@.take(updates@.len() as int) =~= updates@);
    sorted_unique(&values)
}

/// A strictly sorted list holds each text once.
pub proof fn lemma_sorted_unique_has_no_duplicates(s: Seq<Seq<char>>)
    requires
        strictly_sorted(s),
    ensures
        forall|i: int, j: int| 0 <= i < j < s.len() ==> s[i] != s[j],
{
    assert forall|i: int, j: int| 0 <= i < j < s.len() implies s[i] != s[j] by {
        assert(text_less(s[i], s[j]));
        lemma_text_less_irreflexive(s[i]);
    }
}

} // verus!
