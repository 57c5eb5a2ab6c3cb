//! Decimal numbers as ffmpeg and ffprobe print them.
use vstd::prelude::*;

use crate::text::{chars_of, first_index};

verus! {

broadcast use vstd::seq_lib::group_seq_properties;

/// An ASCII decimal digit.
pub open spec fn is_digit(c: char) -> bool {
    '0' <= c && c <= '9'
}

/// The value of an ASCII decimal digit.
pub open spec fn digit_val(c: char) -> nat {
    (c as int - '0' as int) as nat
}

/// Every character is a decimal digit.
pub open spec fn all_digits(s: Seq<char>) -> bool {
    forall|i: int| 0 <= i < s.len() ==> is_digit(#[trigger] s[i])
}

/// The number a string of decimal digits spells (0 for the empty string).
pub open spec fn digits_value(s: Seq<char>) -> nat
    decreases s.len(),
{
    if s.len() == 0 {
        0
    } else {
        digits_value(s.drop_last()) * 10 + digit_val(s.last())
    }
}

/// `s` without one leading `+`.
pub open spec fn without_plus(s: Seq<char>) -> Seq<char> {
    if s.len() > 0 && s[0] == '+' {
        s.skip(1)
    } else {
        s
    }
}

/// What `str::parse::<u64>` gives: an optional `+` followed by at least one
/// decimal digit, the value fitting in 64 bits.
pub open spec fn parse_u64_of(s: Seq<char>) -> Option<u64> {
    let d = without_plus(s);
    if d.len() > 0 && all_digits(d) && digits_value(d) <= u64::MAX {
        Some(digits_value(d) as u64)
    } else {
        None
    }
}

/// Ten to the power `k`.
pub open spec fn pow10(k: nat) -> nat
    decreases k,
{
    if k == 0 {
        1
    } else {
        10 * pow10((k - 1) as nat)
    }
}

/// The digits before and after the first `.`.
pub open spec fn split_point(s: Seq<char>) -> (Seq<char>, Seq<char>) {
    match first_index(s, '.') {
        Some(i) => (s.take(i), s.skip(i + 1)),
        None => (s, Seq::<char>::empty()),
    }
}

/// The exponent mark of a decimal in scientific form.
pub open spec fn is_exp_mark(c: char) -> bool {
    c == 'e' || c == 'E'
}

/// The position of the first `e` or `E`, if there is one.
pub open spec fn exp_mark_at(s: Seq<char>) -> Option<int> {
    if exists|i: int| 0 <= i < s.len() && is_exp_mark(#[trigger] s[i]) {
        Some(
            choose|i: int|
                0 <= i < s.len() && is_exp_mark(s[i]) && forall|j: int|
                    0 <= j < i ==> !is_exp_mark(#[trigger] s[j]),
        )
    } else {
        None
    }
}

proof fn lemma_digits_value_prefix(s: Seq<char>, i: int)
    requires
        0 <= i <= s.len(),
    ensures
        digits_value(s.take(i)) <= digits_value(s),
    decreases s.len(),
{
    if i < s.len() {
        assert(s.drop_last().take(i) =~= s.take(i));
        lemma_digits_value_prefix(s.drop_last(), i);
    } else {
        assert(s.take(i) =~= s);
    }
}

pub(crate) proof fn lemma_pow10_positive(k: nat)
    ensures
        pow10(k) >= 1,
    decreases k,
{
    if k > 0 {
        lemma_pow10_positive((k - 1) as nat);
    }
}

/// The value of the digits `v[from..to]`, or `None` when it does not fit
/// in 64 bits.
fn digits_u64(v: &Vec<char>, from: usize, to: usize) -> (r: Option<u64>)
    requires
        from <= to <= v@.len(),
        all_digits(v@.subrange(from as int, to as int)),
    ensures
        r matches Some(x) ==> x == digits_value(v@.subrange(from as int, to as int)),
        r is None <==> digits_value(v@.subrange(from as int, to as int)) > u64::MAX,
{
    let ghost s = v@.subrange(from as int, to as int);
    let mut acc: u64 = 0;
    let mut i: usize = from;
    while i < to
        invariant
            from <= i <= to <= v@.len(),
            s == v@.subrange(from as int, to as int),
            all_digits(s),
            acc == digits_value(s.take(i - from)),
        decreases to - i,
    {
        let ghost j = i - from;
        assert(is_digit(s[j]));
        assert(s[j] == v@[i as int]);
        let d: u32 = (v[i] as u32) - ('0' as u32);
        assert(s.take(j + 1).drop_last() =~= s.take(j));
        assert(d == digit_val(s[j]));
        match acc.checked_mul(10) {
            Some(m) => match m.checked_add(d as u64) {
                Some(a) => {
                    acc = a;
                },
                None => {
                    proof {
                        lemma_digits_value_prefix(s, j + 1);
                    }
                    return None;
                },
            },
            None => {
                proof {
                    lemma_digits_value_prefix(s, j + 1);
                }
                return None;
            },
        }
        i = i + 1;
    }
    assert(s.take(to - from) =~= s);
    Some(acc)
}

/// Whether `v[from..to]` are all decimal digits.
pub(crate) fn range_all_digits(v: &Vec<char>, from: usize, to: usize) -> (b: bool)
    requires
        from <= to <= v@.len(),
    ensures
        b == all_digits(v@.subrange(from as int, to as int)),
{
    let ghost s = v@.subrange(from as int, to as int);
    let mut i: usize = from;
    while i < to
        invariant
            from <= i <= to <= v@.len(),
            s == v@.subrange(from as int, to as int),
            forall|k: int| 0 <= k < i - from ==> is_digit(#[trigger] s[k]),
        decreases to - i,
    {
        let c = v[i];
        assert(s[i - from] == c);
        if !('0' <= c && c <= '9') {
            return false;
        }
        i = i + 1;
    }
    true
}

/// `str::parse::<u64>`: an optional `+` then decimal digits.
pub fn parse_u64(s: &str) -> (r: Option<u64>)
    ensures
        r == parse_u64_of(s@),
{
    let v = chars_of(s);
    let start: usize = if v.len() > 0 && v[0] == '+' {
        1
    } else {
        0
    };
    assert(v@.subrange(start as int, v@.len() as int) =~= without_plus(s@));
    if start == v.len() || !range_all_digits(&v, start, v.len()) {
        return None;
    }
    digits_u64(&v, start, v.len())
}

pub(crate) proof fn lemma_pow10_mono(a: nat, b: nat)
    requires
        a <= b,
    ensures
        pow10(a) <= pow10(b),
    decreases b - a,
{
    if a < b {
        lemma_pow10_mono(a, (b - 1) as nat);
        lemma_pow10_positive((b - 1) as nat);
    }
}

pub(crate) proof fn lemma_pow10_20()
    ensures
        pow10(20) == 100_000_000_000_000_000_000,
{
    reveal_with_fuel(pow10, 21);
}

/// The position of the first `e` or `E` in `v`, or its length.
pub(crate) fn find_exp_mark(v: &Vec<char>) -> (i: usize)
    ensures
        i <= v@.len(),
        i < v@.len() ==> exp_mark_at(v@) == Some(i as int),
        i == v@.len() ==> exp_mark_at(v@) is None,
{
    let n = v.len();
    let mut i: usize = 0;
    while i < n && !(v[i] == 'e' || v[i] == 'E')
        invariant
            i <= n == v@.len(),
            forall|j: int| 0 <= j < i ==> !is_exp_mark(#[trigger] v@[j]),
        decreases n - i,
    {
        i = i + 1;
    }
    proof {
        if i < n {
            assert(is_exp_mark(v@[i as int]));
            let c = choose|j: int|
                0 <= j < v@.len() && is_exp_mark(v@[j]) && forall|l: int|
                    0 <= l < j ==> !is_exp_mark(#[trigger] v@[l]);
            if c < i {
                assert(!is_exp_mark(v@[c]));
            }
            if c > i {
                assert(!is_exp_mark(v@[i as int]));
            }
        } else {
            assert(!(exists|j: int| 0 <= j < v@.len() && is_exp_mark(#[trigger] v@[j])));
        }
    }
    i
}

} // verus!
