//! Character-level string operations with exact specifications.
//!
//! Strings are modelled by their view, a `Seq<char>`. Every helper here is
//! stated over that view, so callers can reason about image references,
//! annotation values and version tags as plain sequences.

use vstd::prelude::*;

verus! {

broadcast use vstd::string::group_string_axioms;

/// `p` is a prefix of `s`.
pub open spec fn seq_starts_with(s: Seq<char>, p: Seq<char>) -> bool {
    p.len() <= s.len() && s.subrange(0, p.len() as int) == p
}

/// `p` is a suffix of `s`.
pub open spec fn seq_ends_with(s: Seq<char>, p: Seq<char>) -> bool {
    p.len() <= s.len() && s.subrange(s.len() - p.len(), s.len() as int) == p
}

/// Index of the first occurrence of `c` in `s`, or `-1`.
pub open spec fn first_index_of(s: Seq<char>, c: char) -> int
    decreases s.len(),
{
    if s.len() == 0 {
        -1
    } else if s[0] == c {
        0
    } else {
        let r = first_index_of(s.drop_first(), c);
        if r < 0 {
            -1
        } else {
            r + 1
        }
    }
}

/// Index of the last occurrence of `c` in `s`, or `-1`.
pub open spec fn last_index_of(s: Seq<char>, c: char) -> int
    decreases s.len(),
{
    if s.len() == 0 {
        -1
    } else if s.last() == c {
        s.len() - 1
    } else {
        last_index_of(s.drop_last(), c)
    }
}

/// Number of occurrences of `c` in `s`.
pub open spec fn count_char(s: Seq<char>, c: char) -> nat
    decreases s.len(),
{
    if s.len() == 0 {
        0
    } else {
        count_char(s.drop_last(), c) + if s.last() == c { 1nat } else { 0nat }
    }
}

/// The pieces of `s` between occurrences of `c` (as `str::split` with a char).
pub open spec fn split_on(s: Seq<char>, c: char) -> Seq<Seq<char>>
    decreases s.len(),
{
    let i = first_index_of(s, c);
    if i < 0 {
        seq![s]
    } else {
        proof {
            lemma_first_index_bounds(s, c);
        }
        seq![s.subrange(0, i)] + split_on(s.subrange(i + 1, s.len() as int), c)
    }
}

/// The unicode whitespace characters, as `char::is_whitespace` defines them.
pub open spec fn is_space(c: char) -> bool {
    ||| ('\u{9}' <= c && c <= '\u{d}')
    ||| c == ' '
    ||| c == '\u{85}'
    ||| c == '\u{a0}'
    ||| c == '\u{1680}'
    ||| ('\u{2000}' <= c && c <= '\u{200a}')
    ||| c == '\u{2028}'
    ||| c == '\u{2029}'
    ||| c == '\u{202f}'
    ||| c == '\u{205f}'
    ||| c == '\u{3000}'
}

/// `s` with all leading whitespace removed.
pub open spec fn trim_start_ws(s: Seq<char>) -> Seq<char>
    decreases s.len(),
{
    if s.len() > 0 && is_space(s[0]) {
        trim_start_ws(s.drop_first())
    } else {
        s
    }
}

/// `s` with all trailing whitespace removed.
pub open spec fn trim_end_ws(s: Seq<char>) -> Seq<char>
    decreases s.len(),
{
    if s.len() > 0 && is_space(s.last()) {
        trim_end_ws(s.drop_last())
    } else {
        s
    }
}

/// `s` with leading and trailing whitespace removed (as `str::trim`).
pub open spec fn trim_ws(s: Seq<char>) -> Seq<char> {
    trim_end_ws(trim_start_ws(s))
}

/// `s` with every leading copy of `p` removed (as `str::trim_start_matches`).
pub open spec fn strip_all_prefix(s: Seq<char>, p: Seq<char>) -> Seq<char>
    decreases s.len(),
{
    if p.len() > 0 && seq_starts_with(s, p) {
        strip_all_prefix(s.subrange(p.len() as int, s.len() as int), p)
    } else {
        s
    }
}

pub proof fn lemma_first_index_bounds(s: Seq<char>, c: char)
    ensures
        -1 <= first_index_of(s, c) < s.len(),
        first_index_of(s, c) >= 0 ==> s[first_index_of(s, c)] == c,
        first_index_of(s, c) >= 0 ==> forall|j: int|
            0 <= j < first_index_of(s, c) ==> s[j] != c,
        first_index_of(s, c) < 0 ==> forall|j: int| 0 <= j < s.len() ==> s[j] != c,
    decreases s.len(),
{
    if s.len() > 0 && s[0] != c {
        lemma_first_index_bounds(s.drop_first(), c);
        assert forall|j: int| 1 <= j < s.len() implies s[j] == s.drop_first()[j - 1] by {}
    }
}

pub proof fn lemma_last_index_bounds(s: Seq<char>, c: char)
    ensures
        -1 <= last_index_of(s, c) < s.len(),
        last_index_of(s, c) >= 0 ==> s[last_index_of(s, c)] == c,
        forall|j: int| last_index_of(s, c) < j < s.len() ==> s[j] != c,
    decreases s.len(),
{
    if s.len() > 0 && s.last() != c {
        lemma_last_index_bounds(s.drop_last(), c);
        assert forall|j: int| last_index_of(s, c) < j < s.len() implies s[j] != c by {
            if j < s.len() - 1 {
                assert(s.drop_last()[j] == s[j]);
            }
        }
    }
}

/// The first index is characterized by the two quantified facts.
pub proof fn lemma_first_index_unique(s: Seq<char>, c: char, i: int)
    requires
        -1 <= i < s.len(),
        i >= 0 ==> s[i] == c,
        forall|j: int| 0 <= j < s.len() && (i < 0 || j < i) ==> s[j] != c,
    ensures
        first_index_of(s, c) == i,
{
    lemma_first_index_bounds(s, c);
    let f = first_index_of(s, c);
    if f >= 0 && i >= 0 {
        if f < i {
            assert(s[f] != c);
        } else if i < f {
            assert(s[i] != c);
        }
    } else if f >= 0 {
        assert(s[f] != c);
    } else if i >= 0 {
        assert(s[i] != c);
    }
}

/// The last index is characterized by the two quantified facts.
pub proof fn lemma_last_index_unique(s: Seq<char>, c: char, i: int)
    requires
        -1 <= i < s.len(),
        i >= 0 ==> s[i] == c,
        forall|j: int| i < j < s.len() ==> s[j] != c,
    ensures
        last_index_of(s, c) == i,
{
    lemma_last_index_bounds(s, c);
    let f = last_index_of(s, c);
    if f < i {
        assert(s[i] != c);
    } else if i < f {
        assert(s[f] != c);
    }
}

pub proof fn lemma_contains_iff_first_index(s: Seq<char>, c: char)
    ensures
        s.contains(c) <==> first_index_of(s, c) >= 0,
        s.contains(c) <==> last_index_of(s, c) >= 0,
{
    lemma_first_index_bounds(s, c);
    lemma_last_index_bounds(s, c);
    if s.contains(c) {
        let k = choose|k: int| 0 <= k < s.len() && s[k] == c;
        assert(s[k] == c);
    }
    if first_index_of(s, c) >= 0 {
        assert(s[first_index_of(s, c)] == c);
    }
    if last_index_of(s, c) >= 0 {
        assert(s[last_index_of(s, c)] == c);
    }
}

/// Owned copy of a string slice.
pub fn owned(s: &str) -> (r: String)
    ensures
        r@ == s@,
{
    String::from_str(s)
}

/// Concatenation of two string slices.
pub fn concat2(a: &str, b: &str) -> (r: String)
    ensures
        r@ == a@ + b@,
{
    let mut r = String::from_str(a);
    r.append(b);
    r
}

/// Concatenation of three string slices.
pub fn concat3(a: &str, b: &str, c: &str) -> (r: String)
    ensures
        r@ == a@ + b@ + c@,
{
    let mut r = String::from_str(a);
    r.append(b);
    r.append(c);
    r
}

/// Whether two strings hold the same characters.
pub fn str_eq(a: &str, b: &str) -> (r: bool)
    ensures
        r == (a@ == b@),
{
    let n = a.unicode_len();
    let m = b.unicode_len();
    if n != m {
        return false;
    }
    let mut i: usize = 0;
    while i < n
        invariant
            n == a@.len(),
            m == b@.len(),
            n == m,
            i <= n,
            forall|j: int| 0 <= j < i ==> a@[j] == b@[j],
        decreases n - i,
    {
        if a.get_char(i) != b.get_char(i) {
            return false;
        }
        i = i + 1;
    }
    assert(a@ =~= b@);
    true
}

/// Whether `s` begins with `p`.
pub fn starts_with(s: &str, p: &str) -> (r: bool)
    ensures
        r == seq_starts_with(s@, p@),
{
    let n = s.unicode_len();
    let m = p.unicode_len();
    if m > n {
        return false;
    }
    let mut i: usize = 0;
    while i < m
        invariant
            n == s@.len(),
            m == p@.len(),
            m <= n,
            i <= m,
            forall|j: int| 0 <= j < i ==> s@[j] == p@[j],
        decreases m - i,
    {
        if s.get_char(i) != p.get_char(i) {
            assert(s@.subrange(0, m as int)[i as int] != p@[i as int]);
            return false;
        }
        i = i + 1;
    }
    assert(s@.subrange(0, m as int) =~= p@);
    true
}

/// Whether `s` ends with `p`.
pub fn ends_with(s: &str, p: &str) -> (r: bool)
    ensures
        r == seq_ends_with(s@, p@),
{
    let n = s.unicode_len();
    let m = p.unicode_len();
    if m > n {
        return false;
    }
    let off = n - m;
    let mut i: usize = 0;
    while i < m
        invariant
            n == s@.len(),
            m == p@.len(),
            m <= n,
            off == n - m,
            i <= m,
            forall|j: int| 0 <= j < i ==> s@[off + j] == p@[j],
        decreases m - i,
    {
        if s.get_char(off + i) != p.get_char(i) {
            assert(s@.subrange(off as int, n as int)[i as int] != p@[i as int]);
            return false;
        }
        i = i + 1;
    }
    assert(s@.subrange(off as int, n as int) =~= p@);
    true
}

/// Whether `c` occurs in `s`.
pub fn contains_char(s: &str, c: char) -> (r: bool)
    ensures
        r == s@.contains(c),
{
    let n = s.unicode_len();
    let mut i: usize = 0;
    while i < n
        invariant
            n == s@.len(),
            i <= n,
            forall|j: int| 0 <= j < i ==> s@[j] != c,
        decreases n - i,
    {
        if s.get_char(i) == c {
            assert(s@[i as int] == c);
            return true;
        }
        i = i + 1;
    }
    false
}

/// Index of the first `c` in `s`, if any.
pub fn find_char(s: &str, c: char) -> (r: Option<usize>)
    ensures
        match r {
            Some(i) => i as int == first_index_of(s@, c),
            None => first_index_of(s@, c) == -1,
        },
{
    let n = s.unicode_len();
    let mut i: usize = 0;
    while i < n
        invariant
            n == s@.len(),
            i <= n,
            forall|j: int| 0 <= j < i ==> s@[j] != c,
        decreases n - i,
    {
        if s.get_char(i) == c {
            proof {
                lemma_first_index_unique(s@, c, i as int);
            }
            return Some(i);
        }
        i = i + 1;
    }
    proof {
        lemma_first_index_unique(s@, c, -1);
    }
    None
}

/// Index of the last `c` in `s`, if any.
pub fn rfind_char(s: &str, c: char) -> (r: Option<usize>)
    ensures
        match r {
            Some(i) => i as int == last_index_of(s@, c),
            None => last_index_of(s@, c) == -1,
        },
{
    let n = s.unicode_len();
    let mut i: usize = n;
    while i > 0
        invariant
            n == s@.len(),
            i <= n,
            forall|j: int| i <= j < n ==> s@[j] != c,
        decreases i,
    {
        if s.get_char(i - 1) == c {
            proof {
                lemma_last_index_unique(s@, c, i - 1);
            }
            return Some(i - 1);
        }
        i = i - 1;
    }
    proof {
        lemma_last_index_unique(s@, c, -1);
    }
    None
}

/// The characters of `s` from `from` up to (not including) `to`.
pub fn slice<'a>(s: &'a str, from: usize, to: usize) -> (r: &'a str)
    requires
        from <= to <= s@.len(),
    ensures
        r@ == s@.subrange(from as int, to as int),
{
    s.substring_char(from, to)
}

/// `s` without its leading and trailing whitespace.
pub fn trim<'a>(s: &'a str) -> (r: &'a str)
    ensures
        r@ == trim_ws(s@),
{
    let n = s.unicode_len();
    let mut lo: usize = 0;
    assert(s@.subrange(0, n as int) =~= s@);
    while lo < n && is_space_char(s.get_char(lo))
        invariant
            n == s@.len(),
            lo <= n,
            trim_start_ws(s@) == trim_start_ws(s@.subrange(lo as int, n as int)),
        decreases n - lo,
    {
        proof {
            let t = s@.subrange(lo as int, n as int);
            assert(t.drop_first() =~= s@.subrange(lo + 1, n as int));
        }
        lo = lo + 1;
    }
    proof {
        assert(trim_start_ws(s@.subrange(lo as int, n as int)) == s@.subrange(lo as int, n as int));
    }
    let mut hi: usize = n;
    while hi > lo && is_space_char(s.get_char(hi - 1))
        invariant
            n == s@.len(),
            lo <= hi <= n,
            trim_ws(s@) == trim_end_ws(s@.subrange(lo as int, hi as int)),
        decreases hi,
    {
        proof {
            let t = s@.subrange(lo as int, hi as int);
            assert(t.drop_last() =~= s@.subrange(lo as int, hi - 1));
        }
        hi = hi - 1;
    }
    proof {
        let t = s@.subrange(lo as int, hi as int);
        assert(trim_end_ws(t) == t);
    }
    s.substring_char(lo, hi)
}

/// Whether `c` is whitespace in the sense of `char::is_whitespace`.
pub fn is_space_char(c: char) -> (r: bool)
    ensures
        r == is_space(c),
{
    ('\u{9}' <= c && c <= '\u{d}') || c == ' ' || c == '\u{85}' || c == '\u{a0}' || c
        == '\u{1680}' || ('\u{2000}' <= c && c <= '\u{200a}') || c == '\u{2028}' || c
        == '\u{2029}' || c == '\u{202f}' || c == '\u{205f}' || c == '\u{3000}'
}

/// `s` with every leading copy of `p` removed (as `str::trim_start_matches`).
pub fn strip_all_prefix_str<'a>(s: &'a str, p: &str) -> (r: &'a str)
    ensures
        r@ == strip_all_prefix(s@, p@),
{
    let m = p.unicode_len();
    if m == 0 {
        return s;
    }
    let n = s.unicode_len();
    let mut lo: usize = 0;
    let mut rest: &str = s;
    assert(s@.subrange(0, n as int) =~= s@);
    while starts_with(rest, p)
        invariant
            n == s@.len(),
            m == p@.len(),
            m > 0,
            lo <= n,
            rest@ == s@.subrange(lo as int, n as int),
            strip_all_prefix(s@, p@) == strip_all_prefix(rest@, p@),
        decreases n - lo,
    {
        let k = rest.unicode_len();
        let next = rest.substring_char(m, k);
        proof {
            assert(next@ =~= s@.subrange(lo + m, n as int));
        }
        lo = lo + m;
        rest = next;
    }
    rest
}

/// Whether `char::to_lowercase` turns `c` into the lower-case ASCII
/// character `w` alone: `w` itself, its upper-case form, and for `k` also
/// the Kelvin sign, the one other character that lowers to an ASCII letter.
pub open spec fn lowers_to_char(c: char, w: char) -> bool {
    ||| c == w
    ||| ('a' <= w && w <= 'z' && c as u32 == w as u32 - 32)
    ||| (w == 'k' && c as u32 == 0x212A)
}

/// `s.to_lowercase()` is the word `w` (a word of lower-case ASCII letters).
pub open spec fn lowercases_to(s: Seq<char>, w: Seq<char>) -> bool {
    s.len() == w.len() && forall|i: int| 0 <= i < s.len() ==> lowers_to_char(#[trigger] s[i], w[i])
}

/// Whether `s` lowered as `str::to_lowercase` does is the word `w`, a word
/// of lower-case ASCII letters.
pub fn lowercase_equals(s: &str, w: &str) -> (r: bool)
    ensures
        r == lowercases_to(s@, w@),
{
    let n = s.unicode_len();
    let m = w.unicode_len();
    if n != m {
        return false;
    }
    let mut i: usize = 0;
    while i < n
        invariant
            n == s@.len(),
            m == w@.len(),
            n == m,
            i <= n,
            forall|j: int| 0 <= j < i ==> lowers_to_char(#[trigger] s@[j], w@[j]),
        decreases n - i,
    {
        let c = s.get_char(i);
        let d = w.get_char(i);
        let ok = c == d || ('a' <= d && d <= 'z' && (c as u32) + 32 == (d as u32)) || (d == 'k' && (c as u32)
            == 0x212A);
        if !ok {
            assert(!lowers_to_char(s@[i as int], w@[i as int]));
            return false;
        }
        i = i + 1;
    }
    true
}

/// `s` without the prefix `p` if it has it, else `s` (as
/// `s.strip_prefix(p).unwrap_or(s)`).
pub open spec fn strip_prefix_once(s: Seq<char>, p: Seq<char>) -> Seq<char> {
    if seq_starts_with(s, p) {
        s.subrange(p.len() as int, s.len() as int)
    } else {
        s
    }
}

/// `s` without the prefix `p` if it has it, else `s`.
pub fn strip_prefix_or_keep<'a>(s: &'a str, p: &str) -> (r: &'a str)
    ensures
        r@ == strip_prefix_once(s@, p@),
{
    if starts_with(s, p) {
        let n = s.unicode_len();
        let m = p.unicode_len();
        s.substring_char(m, n)
    } else {
        s
    }
}

/// `s` without its prefix `p`, if it has it (as `str::strip_prefix`).
pub fn strip_prefix<'a>(s: &'a str, p: &str) -> (r: Option<&'a str>)
    ensures
        match r {
            Some(t) => seq_starts_with(s@, p@) && t@ == s@.subrange(p@.len() as int, s@.len() as int),
            None => !seq_starts_with(s@, p@),
        },
{
    if starts_with(s, p) {
        let n = s.unicode_len();
        let m = p.unicode_len();
        Some(s.substring_char(m, n))
    } else {
        None
    }
}

/// `s` with every trailing `c` removed (as `str::trim_end_matches(c)`).
pub open spec fn trim_end_char(s: Seq<char>, c: char) -> Seq<char>
    decreases s.len(),
{
    if s.len() > 0 && s.last() == c {
        trim_end_char(s.drop_last(), c)
    } else {
        s
    }
}

/// `s` with every trailing `c` removed.
pub fn trim_end_matches_char<'a>(s: &'a str, c: char) -> (r: &'a str)
    ensures
        r@ == trim_end_char(s@, c),
{
    let n = s.unicode_len();
    let mut hi: usize = n;
    assert(s@.subrange(0, n as int) =~= s@);
    while hi > 0 && s.get_char(hi - 1) == c
        invariant
            n == s@.len(),
            hi <= n,
            trim_end_char(s@, c) == trim_end_char(s@.subrange(0, hi as int), c),
        decreases hi,
    {
        proof {
            let t = s@.subrange(0, hi as int);
            assert(t.drop_last() =~= s@.subrange(0, hi - 1));
        }
        hi = hi - 1;
    }
    s.substring_char(0, hi)
}

/// `p` occurs in `s` starting at `i`.
pub open spec fn occurs_at(s: Seq<char>, p: Seq<char>, i: int) -> bool {
    0 <= i && i + p.len() <= s.len() && s.subrange(i, i + p.len()) == p
}

/// `p` occurs somewhere in `s` (as `str::contains` with a string).
pub open spec fn seq_contains(s: Seq<char>, p: Seq<char>) -> bool {
    exists|i: int| #[trigger] occurs_at(s, p, i)
}

fn matches_at(s: &str, p: &str, i: usize) -> (r: bool)
    requires
        i + p@.len() <= s@.len(),
    ensures
        r == occurs_at(s@, p@, i as int),
{
    let m = p.unicode_len();
    let n = s.unicode_len();
    let mut k: usize = 0;
    while k < m
        invariant
            m == p@.len(),
            n == s@.len(),
            i + m <= s@.len(),
            k <= m,
            forall|j: int| 0 <= j < k ==> s@[i + j] == p@[j],
        decreases m - k,
    {
        if s.get_char(i + k) != p.get_char(k) {
            assert(s@.subrange(i as int, i + m)[k as int] != p@[k as int]);
            return false;
        }
        k = k + 1;
    }
    assert(s@.subrange(i as int, i + m) =~= p@);
    true
}

/// Whether `p` occurs in `s`.
pub fn contains_str(s: &str, p: &str) -> (r: bool)
    ensures
        r == seq_contains(s@, p@),
{
    let n = s.unicode_len();
    let m = p.unicode_len();
    if m > n {
        assert forall|i: int| !occurs_at(s@, p@, i) by {}
        return false;
    }
    let last = n - m;
    let mut i: usize = 0;
    loop
        invariant
            n == s@.len(),
            m == p@.len(),
            m <= n,
            last == n - m,
            i <= last,
            forall|j: int| 0 <= j < i ==> !occurs_at(s@, p@, j),
        ensures
            forall|j: int| 0 <= j <= last ==> !occurs_at(s@, p@, j),
        decreases last - i,
    {
        if matches_at(s, p, i) {
            return true;
        }
        if i == last {
            break;
        }
        i = i + 1;
    }
    assert forall|j: int| !occurs_at(s@, p@, j) by {
        if 0 <= j && j + m <= n {
            assert(j <= last);
        }
    }
    false
}

/// `s` with every occurrence of `p` removed, left to right (as
/// `str::replace(p, "")` for a non-empty `p`).
pub open spec fn removed_all(s: Seq<char>, p: Seq<char>) -> Seq<char>
    decreases s.len(),
{
    if s.len() == 0 {
        Seq::empty()
    } else if p.len() > 0 && occurs_at(s, p, 0) {
        removed_all(s.skip(p.len() as int), p)
    } else {
        seq![s[0]] + removed_all(s.drop_first(), p)
    }
}

/// `s` without any occurrence of `p`.
pub fn remove_all(s: &str, p: &str) -> (r: String)
    requires
        p@.len() > 0,
    ensures
        r@ == removed_all(s@, p@),
{
    let n = s.unicode_len();
    let m = p.unicode_len();
    let mut out = String::new();
    let mut i: usize = 0;
    assert(s@.skip(0) =~= s@);
    assert(out@ + s@ =~= s@);
    while i < n
        invariant
            n == s@.len(),
            m == p@.len(),
            m > 0,
            i <= n,
            removed_all(s@, p@) == out@ + removed_all(s@.skip(i as int), p@),
        decreases n - i,
    {
        let ghost t = s@.skip(i as int);
        if m <= n - i && matches_at(s, p, i) {
            assert(t.subrange(0, m as int) =~= s@.subrange(i as int, i + m));
            assert(t.skip(m as int) =~= s@.skip(i + m));
            i = i + m;
        } else {
            proof {
                if m <= n - i {
                    assert(t.subrange(0, m as int) =~= s@.subrange(i as int, i + m));
                }
                assert(!occurs_at(t, p@, 0));
                assert(t.drop_first() =~= s@.skip(i + 1));
            }
            let c = s.substring_char(i, i + 1);
            assert(c@ =~= seq![t[0]]);
            let ghost before = out@;
            out.append(c);
            assert(before + (seq![t[0]] + removed_all(t.drop_first(), p@)) =~= out@ + removed_all(
                t.drop_first(),
                p@,
            ));
            i = i + 1;
        }
    }
    assert(s@.skip(n as int) =~= Seq::<char>::empty());
    assert(out@ + Seq::<char>::empty() =~= out@);
    out
}

/// `a` comes before `b` in the order of their characters (as `String`'s
/// `<`).
pub open spec fn text_less(a: Seq<char>, b: Seq<char>) -> bool
    decreases a.len(),
{
    if a.len() == 0 {
        b.len() > 0
    } else if b.len() == 0 {
        false
    } else if a[0] != b[0] {
        a[0] < b[0]
    } else {
        text_less(a.drop_first(), b.drop_first())
    }
}

/// Compares two strings character by character.
pub fn string_less(a: &str, b: &str) -> (r: bool)
    ensures
        r == text_less(a@, b@),
{
    let n = a.unicode_len();
    let m = b.unicode_len();
    let mut i: usize = 0;
    assert(a@.skip(0) =~= a@);
    assert(b@.skip(0) =~= b@);
    while i < n && i < m
        invariant
            n == a@.len(),
            m == b@.len(),
            i <= n,
            i <= m,
            text_less(a@, b@) == text_less(a@.skip(i as int), b@.skip(i as int)),
        decreases n - i,
    {
        let x = a.get_char(i);
        let y = b.get_char(i);
        assert(a@.skip(i as int)[0] == x);
        assert(b@.skip(i as int)[0] == y);
        if x != y {
            return x < y;
        }
        assert(a@.skip(i as int).drop_first() =~= a@.skip(i + 1));
        assert(b@.skip(i as int).drop_first() =~= b@.skip(i + 1));
        i = i + 1;
    }
    i < m
}


/// No text comes before itself.
pub proof fn lemma_text_less_irreflexive(a: Seq<char>)
    ensures
        !text_less(a, a),
    decreases a.len(),
{
    if a.len() > 0 {
        lemma_text_less_irreflexive(a.drop_first());
    }
}

/// Of two different texts, one comes before the other, and not both ways.
pub proof fn lemma_text_less_total(a: Seq<char>, b: Seq<char>)
    ensures
        a != b ==> (text_less(a, b) || text_less(b, a)),
        !(text_less(a, b) && text_less(b, a)),
    decreases a.len(),
{
    if a.len() > 0 && b.len() > 0 {
        lemma_text_less_total(a.drop_first(), b.drop_first());
        if a[0] == b[0] && a.drop_first() == b.drop_first() {
            assert forall|i: int| 0 <= i < a.len() implies a[i] == b[i] by {
                if i > 0 {
                    assert(a[i] == a.drop_first()[i - 1]);
                    assert(b[i] == b.drop_first()[i - 1]);
                }
            }
            assert(a =~= b);
        }
    } else if a.len() == 0 && b.len() == 0 {
        assert(a =~= b);
    }
}

/// The order of texts is transitive.
pub proof fn lemma_text_less_transitive(a: Seq<char>, b: Seq<char>, c: Seq<char>)
    requires
        text_less(a, b),
        text_less(b, c),
    ensures
        text_less(a, c),
    decreases a.len(),
{
    if a.len() > 0 && b.len() > 0 && c.len() > 0 {
        if a[0] == b[0] && b[0] == c[0] {
            lemma_text_less_transitive(a.drop_first(), b.drop_first(), c.drop_first());
        }
    }
}

} // verus!
