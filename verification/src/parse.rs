//! Reading annotation and configuration values: booleans, unsigned numbers,
//! comma-separated lists, and lookups in string maps.

use crate::text::{find_char, first_index_of, owned, slice, split_on, trim, trim_ws};
use std::collections::BTreeMap;
use vstd::prelude::*;

verus! {

/// The value stored under `key`, with keys and values taken as characters.
pub open spec fn lookup(m: Map<Seq<char>, Seq<char>>, key: Seq<char>) -> Option<Seq<char>> {
    if m.contains_key(key) {
        Some(m[key])
    } else {
        None
    }
}

/// Calls `BTreeMap::get` on a map from strings to strings: the value stored
/// under a key with the same characters as `key`, if there is one.
#[verifier::external_body]
pub(crate) fn map_get<'a>(m: &'a BTreeMap<String, String>, key: &str) -> (r: Option<&'a String>)
    ensures
        match r {
            Some(v) => lookup(m.deep_view(), key@) == Some(v@),
            None => lookup(m.deep_view(), key@) is None,
        },
{
    m.get(key)
}

/// Calls `BTreeMap::insert` on a map from strings to strings: afterwards
/// `key` maps to `value` and every other key is unchanged.
#[verifier::external_body]
pub(crate) fn map_insert(m: &mut BTreeMap<String, String>, key: String, value: String)
    ensures
        final(m).deep_view() == old(m).deep_view().insert(key@, value@),
{
    m.insert(key, value);
}

/// What `bool::from_str` accepts: exactly `true` or `false`.
pub open spec fn bool_value(s: Seq<char>) -> Option<bool> {
    if s == "true"@ {
        Some(true)
    } else if s == "false"@ {
        Some(false)
    } else {
        None
    }
}

/// Parses `true` or `false`.
pub fn parse_bool(s: &str) -> (r: Option<bool>)
    ensures
        r == bool_value(s@),
{
    if crate::text::str_eq(s, "true") {
        Some(true)
    } else if crate::text::str_eq(s, "false") {
        Some(false)
    } else {
        None
    }
}

/// `c` is an ASCII decimal digit.
pub open spec fn is_digit(c: char) -> bool {
    '0' <= c && c <= '9'
}

/// Every character of `s` is a decimal digit.
pub open spec fn all_digits(s: Seq<char>) -> bool {
    forall|i: int| 0 <= i < s.len() ==> is_digit(#[trigger] s[i])
}

/// The number that the decimal digits `s` write.
pub open spec fn digits_value(s: Seq<char>) -> nat
    decreases s.len(),
{
    if s.len() == 0 {
        0
    } else {
        digits_value(s.drop_last()) * 10 + ((s.last() as u32) - ('0' as u32)) as nat
    }
}

/// What `u64::from_str` (or `u32::from_str`, with `max` its maximum) accepts:
/// an optional `+` and then one or more decimal digits whose value is at
/// most `max`.
pub open spec fn unsigned_value(s: Seq<char>, max: nat) -> Option<nat> {
    let d = if s.len() > 0 && s[0] == '+' {
        s.drop_first()
    } else {
        s
    };
    if d.len() > 0 && all_digits(d) && digits_value(d) <= max {
        Some(digits_value(d))
    } else {
        None
    }
}

proof fn lemma_digits_value_prefix(s: Seq<char>, i: int)
    requires
        all_digits(s),
        0 <= i <= s.len(),
    ensures
        digits_value(s.take(i)) <= digits_value(s),
    decreases s.len() - i,
{
    if i < s.len() {
        lemma_digits_value_prefix(s, i + 1);
        let t = s.take(i + 1);
        assert(t.drop_last() =~= s.take(i));
        assert(is_digit(s[i]));
    } else {
        assert(s.take(i) =~= s);
    }
}

/// Parses an unsigned decimal number no larger than `max`.
pub fn parse_unsigned(s: &str, max: u64) -> (r: Option<u64>)
    requires
        9 <= max,
    ensures
        match r {
            Some(v) => unsigned_value(s@, max as nat) == Some(v as nat),
            None => unsigned_value(s@, max as nat) is None,
        },
{
    let n = s.unicode_len();
    let mut start: usize = 0;
    if n > 0 && s.get_char(0) == '+' {
        start = 1;
    }
    let ghost d = if s@.len() > 0 && s@[0] == '+' {
        s@.drop_first()
    } else {
        s@
    };
    assert(d =~= s@.subrange(start as int, n as int));
    if start == n {
        return None;
    }
    let mut value: u64 = 0;
    let mut i: usize = start;
    while i < n
        invariant
            n == s@.len(),
            9 <= max,
            start <= i <= n,
            start < n,
            d == s@.subrange(start as int, n as int),
            d == (if s@.len() > 0 && s@[0] == '+' { s@.drop_first() } else { s@ }),
            all_digits(d.take(i - start)),
            value as nat == digits_value(d.take(i - start)),
            value <= max,
        decreases n - i,
    {
        let c = s.get_char(i);
        if !('0' <= c && c <= '9') {
            assert(d[i - start] == c);
            assert(!is_digit(d[i - start]));
            assert(!all_digits(d));
            return None;
        }
        let digit = (c as u32 - '0' as u32) as u64;
        proof {
            let t = d.take(i - start + 1);
            assert(t.drop_last() =~= d.take(i - start));
            assert(t.last() == c);
            assert forall|k: int| 0 <= k < t.len() implies is_digit(#[trigger] t[k]) by {
                if k < t.len() - 1 {
                    assert(t[k] == d.take(i - start)[k]);
                }
            }
        }
        if value > (max - digit) / 10 {
            proof {
                assert(value * 10 + digit > max) by (nonlinear_arith)
                    requires
                        value > (max - digit) / 10,
                        digit <= 9,
                        9 <= max,
                ;
            }
            // Any further digits only make the value larger.
            proof {
                let t = d.take(i - start + 1);
                if all_digits(d) {
                    lemma_digits_value_prefix(d, i - start + 1);
                }
            }
            return None;
        }
        value = value * 10 + digit;
        i = i + 1;
    }
    assert(d.take(n - start) =~= d);
    Some(value)
}

/// Parses a `u64` as `u64::from_str` does.
pub fn parse_u64(s: &str) -> (r: Option<u64>)
    ensures
        match r {
            Some(v) => unsigned_value(s@, u64::MAX as nat) == Some(v as nat),
            None => unsigned_value(s@, u64::MAX as nat) is None,
        },
{
    parse_unsigned(s, u64::MAX)
}

/// Parses a `u32` as `u32::from_str` does.
pub fn parse_u32(s: &str) -> (r: Option<u32>)
    ensures
        match r {
            Some(v) => unsigned_value(s@, u32::MAX as nat) == Some(v as nat),
            None => unsigned_value(s@, u32::MAX as nat) is None,
        },
{
    match parse_unsigned(s, u32::MAX as u64) {
        Some(v) => Some(v as u32),
        None => None,
    }
}

/// The decimal digits of `n`, as `u64::to_string` writes them.
pub open spec fn decimal(n: nat) -> Seq<char>
    decreases n,
{
    if n < 10 {
        seq![digit_char(n)]
    } else {
        decimal(n / 10) + seq![digit_char(n % 10)]
    }
}

/// The character of a decimal digit.
pub open spec fn digit_char(d: nat) -> char {
    if d == 0 {
        '0'
    } else if d == 1 {
        '1'
    } else if d == 2 {
        '2'
    } else if d == 3 {
        '3'
    } else if d == 4 {
        '4'
    } else if d == 5 {
        '5'
    } else if d == 6 {
        '6'
    } else if d == 7 {
        '7'
    } else if d == 8 {
        '8'
    } else {
        '9'
    }
}

fn digit_str(d: u64) -> (r: &'static str)
    requires
        d < 10,
    ensures
        r@ == seq![digit_char(d as nat)],
{
    proof {
        reveal_strlit("0");
        reveal_strlit("1");
        reveal_strlit("2");
        reveal_strlit("3");
        reveal_strlit("4");
        reveal_strlit("5");
        reveal_strlit("6");
        reveal_strlit("7");
        reveal_strlit("8");
        reveal_strlit("9");
    }
    let r = if d == 0 {
        "0"
    } else if d == 1 {
        "1"
    } else if d == 2 {
        "2"
    } else if d == 3 {
        "3"
    } else if d == 4 {
        "4"
    } else if d == 5 {
        "5"
    } else if d == 6 {
        "6"
    } else if d == 7 {
        "7"
    } else if d == 8 {
        "8"
    } else {
        "9"
    };
    assert(r@ =~= seq![digit_char(d as nat)]);
    r
}

/// Writes `n` in decimal.
pub fn u64_to_string(n: u64) -> (r: String)
    ensures
        r@ == decimal(n as nat),
    decreases n,
{
    if n < 10 {
        owned(digit_str(n))
    } else {
        let mut r = u64_to_string(n / 10);
        r.append(digit_str(n % 10));
        r
    }
}

proof fn lemma_digit_char(d: nat)
    requires
        d < 10,
    ensures
        is_digit(digit_char(d)),
        ((digit_char(d) as u32) - ('0' as u32)) == d,
{
}

/// The decimal text of `n` is a non-empty run of digits worth `n`.
pub proof fn lemma_decimal_digits(n: nat)
    ensures
        decimal(n).len() > 0,
        all_digits(decimal(n)),
        digits_value(decimal(n)) == n,
    decreases n,
{
    let s = decimal(n);
    lemma_digit_char(n % 10);
    assert(s.last() == digit_char(n % 10));
    assert(n == (n / 10) * 10 + n % 10);
    if n < 10 {
        assert(s.drop_last() =~= Seq::<char>::empty());
        assert(digits_value(s.drop_last()) == 0);
    } else {
        lemma_decimal_digits(n / 10);
        assert(s.drop_last() =~= decimal(n / 10));
        assert forall|i: int| 0 <= i < s.len() implies is_digit(#[trigger] s[i]) by {
            if i < s.len() - 1 {
                assert(s[i] == decimal(n / 10)[i]);
            }
        }
    }
}

/// Reading back the decimal text of a number gives the number.
pub proof fn lemma_decimal_reads_back(n: u64)
    ensures
        unsigned_value(decimal(n as nat), u64::MAX as nat) == Some(n as nat),
{
    lemma_decimal_digits(n as nat);
    assert(is_digit(decimal(n as nat)[0]));
}

/// Writes `true` or `false`.
pub fn bool_to_string(b: bool) -> (r: String)
    ensures
        b ==> r@ == "true"@,
        !b ==> r@ == "false"@,
{
    if b {
        owned("true")
    } else {
        owned("false")
    }
}

/// The non-empty trimmed pieces of a comma-separated list.
pub open spec fn list_items(pieces: Seq<Seq<char>>) -> Seq<Seq<char>>
    decreases pieces.len(),
{
    if pieces.len() == 0 {
        seq![]
    } else {
        let rest = list_items(pieces.drop_last());
        let t = trim_ws(pieces.last());
        if t.len() > 0 {
            rest.push(t)
        } else {
            rest
        }
    }
}

/// The non-empty trimmed items of the comma-separated list `s`.
pub open spec fn comma_list(s: Seq<char>) -> Seq<Seq<char>> {
    list_items(split_on(s, ','))
}

/// Splits `s` at every `c`.
pub fn split_char(s: &str, c: char) -> (r: Vec<String>)
    ensures
        r.deep_view() == split_on(s@, c),
{
    let mut pieces: Vec<String> = Vec::new();
    let mut rest: &str = s;
    loop
        invariant
            pieces.deep_view() + split_on(rest@, c) == split_on(s@, c),
        decreases rest@.len(),
    {
        match find_char(rest, c) {
            Some(i) => {
                proof {
                    crate::text::lemma_first_index_bounds(rest@, c);
                }
                let n = rest.unicode_len();
                let head = slice(rest, 0, i);
                let tail = slice(rest, i + 1, n);
                let ghost old_pieces = pieces.deep_view();
                pieces.push(owned(head));
                proof {
                    assert(pieces.deep_view() =~= old_pieces.push(head@));
                    assert(split_on(rest@, c) == seq![head@] + split_on(tail@, c));
                    assert(pieces.deep_view() + split_on(tail@, c) =~= old_pieces + split_on(rest@, c));
                }
                rest = tail;
            },
            None => {
                let ghost old_pieces = pieces.deep_view();
                pieces.push(owned(rest));
                proof {
                    assert(split_on(rest@, c) == seq![rest@]);
                    assert(pieces.deep_view() =~= old_pieces + split_on(rest@, c));
                }
                return pieces;
            },
        }
    }
}

/// The non-empty trimmed items of a comma-separated list.
pub fn parse_comma_list(s: &str) -> (r: Vec<String>)
    ensures
        r.deep_view() == comma_list(s@),
{
    let pieces = split_char(s, ',');
    let mut items: Vec<String> = Vec::new();
    let mut k: usize = 0;
    while k < pieces.len()
        invariant
            k <= pieces.len(),
            pieces.deep_view() == split_on(s@, ','),
            items.deep_view() == list_items(pieces.deep_view().take(k as int)),
        decreases pieces.len() - k,
    {
        let t = trim(pieces[k].as_str());
        let ghost before = items.deep_view();
        proof {
            let p = pieces.deep_view().take(k + 1);
            assert(p.drop_last() =~= pieces.deep_view().take(k as int));
            assert(p.last() == pieces[k as int]@);
        }
        if t.unicode_len() > 0 {
            items.push(owned(t));
            assert(items.deep_view() =~= before.push(t@));
        }
        k = k + 1;
    }
    assert(pieces.deep_view().take(pieces.len() as int) =~= pieces.deep_view());
    items
}

/// The decimal text of an integer, with a minus sign when negative (as
/// `i64::to_string`).
pub open spec fn int_text(n: int) -> Seq<char> {
    if n < 0 {
        "-"@ + decimal((-n) as nat)
    } else {
        decimal(n as nat)
    }
}

/// Writes `n` in decimal.
pub fn i64_to_string(n: i64) -> (r: String)
    ensures
        r@ == int_text(n as int),
{
    if n < 0 {
        let magnitude: u64 = (0i128 - (n as i128)) as u64;
        let digits = u64_to_string(magnitude);
        let mut r = owned("-");
        r.append(digits.as_str());
        r
    } else {
        u64_to_string(n as u64)
    }
}

} // verus!
