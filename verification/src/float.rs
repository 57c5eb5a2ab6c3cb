//! Decimal text as `str::parse::<f64>` reads it, turned into a whole
//! number of `10^-k` units the way `(x * 10^k) as u64` does: negative
//! values and NaN give 0, values too large and infinity give `u64::MAX`.
use vstd::prelude::*;

use crate::parse::{
    all_digits, digit_val, digits_value, exp_mark_at, find_exp_mark, is_digit, lemma_pow10_20,
    lemma_pow10_mono, lemma_pow10_positive, pow10, range_all_digits, split_point,
};
use crate::text::{chars_of, first_index, string_of_range};

verus! {

broadcast use vstd::seq_lib::group_seq_properties;

/// The sign in front of a number, and what follows it.
pub open spec fn sign_split(s: Seq<char>) -> (bool, Seq<char>) {
    if s.len() > 0 && s[0] == '-' {
        (true, s.skip(1))
    } else if s.len() > 0 && s[0] == '+' {
        (false, s.skip(1))
    } else {
        (false, s)
    }
}

/// The capital of each letter of `inf`, `infinity` and `nan`.
pub open spec fn upper_of(c: char) -> char {
    if c == 'i' {
        'I'
    } else if c == 'n' {
        'N'
    } else if c == 'f' {
        'F'
    } else if c == 't' {
        'T'
    } else if c == 'y' {
        'Y'
    } else if c == 'a' {
        'A'
    } else {
        c
    }
}

/// `r` spells the lowercase word `w`, in any mix of cases.
pub open spec fn spells(r: Seq<char>, w: Seq<char>) -> bool {
    r.len() == w.len() && forall|i: int| 0 <= i < r.len() ==> #[trigger] r[i] == w[i] || r[i] == upper_of(w[i])
}

/// The infinity that `str::parse::<f64>` reads: `inf` or `infinity`.
pub open spec fn is_inf_word(r: Seq<char>) -> bool {
    spells(r, seq!['i', 'n', 'f']) || spells(r, seq!['i', 'n', 'f', 'i', 'n', 'i', 't', 'y'])
}

/// The not-a-number that `str::parse::<f64>` reads: `nan`.
pub open spec fn is_nan_word(r: Seq<char>) -> bool {
    spells(r, seq!['n', 'a', 'n'])
}

/// The decimal exponent after an `e`: an optional sign, then digits.
pub open spec fn exponent_value(x: Seq<char>) -> Option<int> {
    let (neg, d) = sign_split(x);
    if d.len() > 0 && all_digits(d) {
        Some(
            if neg {
                -(digits_value(d) as int)
            } else {
                digits_value(d) as int
            },
        )
    } else {
        None
    }
}

/// An unsigned decimal with an optional exponent (`12`, `1.5`, `.5`, `5.`,
/// `1.23e+03`): its digits, how many of them follow the point, and the
/// exponent; `None` if it is not one.
pub open spec fn decimal_parts(r: Seq<char>) -> Option<(Seq<char>, nat, int)> {
    let (m, e) = match exp_mark_at(r) {
        Some(i) => (r.take(i), exponent_value(r.skip(i + 1))),
        None => (r, Some(0)),
    };
    let (ip, fp) = split_point(m);
    match e {
        Some(ev) => if ip.len() + fp.len() > 0 && all_digits(ip) && all_digits(fp) {
            Some((ip + fp, fp.len(), ev))
        } else {
            None
        },
        None => None,
    }
}

/// `digits · 10^(shift)`, rounded down, as a whole number.
pub open spec fn shifted_value(digits: Seq<char>, shift: int) -> nat {
    if shift >= 0 {
        digits_value(digits) * pow10(shift as nat)
    } else {
        digits_value(digits) / pow10((-shift) as nat)
    }
}

/// A number capped at `u64::MAX`.
pub open spec fn saturate(n: nat) -> u64 {
    if n > u64::MAX {
        u64::MAX
    } else {
        n as u64
    }
}

/// `(x * 10^k) as u64` for the `f64` that `str::parse` reads from `s`;
/// `None` when `s` is not a float. The value is taken exactly, without the
/// rounding of binary floating point.
pub open spec fn parse_float_of(s: Seq<char>, k: nat) -> Option<u64> {
    let (neg, r) = sign_split(s);
    if is_nan_word(r) {
        Some(0)
    } else if is_inf_word(r) {
        Some(
            if neg {
                0
            } else {
                u64::MAX
            },
        )
    } else {
        match decimal_parts(r) {
            Some((digits, frac, e)) => Some(
                if neg {
                    0
                } else {
                    saturate(shifted_value(digits, k + e - frac))
                },
            ),
            None => None,
        }
    }
}

// ───────────────────────── lemmas ─────────────────────────

proof fn lemma_digits_value_below(d: Seq<char>)
    requires
        all_digits(d),
    ensures
        digits_value(d) < pow10(d.len()),
    decreases d.len(),
{
    if d.len() > 0 {
        let f = d.drop_last();
        assert(all_digits(f)) by {
            assert forall|i: int| 0 <= i < f.len() implies is_digit(#[trigger] f[i]) by {
                assert(f[i] == d[i]);
            }
        }
        lemma_digits_value_below(f);
        assert(is_digit(d[d.len() - 1]));
        let a = digits_value(f);
        let p = pow10(f.len());
        let b = digit_val(d.last());
        assert(b < 10);
        assert(a * 10 + b < 10 * p) by (nonlinear_arith)
            requires
                a < p,
                b < 10,
        ;
    }
}

proof fn lemma_digits_value_div(d: Seq<char>, m: nat)
    requires
        all_digits(d),
        m <= d.len(),
    ensures
        digits_value(d) / pow10(m) == digits_value(d.take(d.len() - m)),
    decreases m,
{
    if m == 0 {
        assert(d.take(d.len() as int) =~= d);
        assert(pow10(0) == 1);
    } else {
        assert(pow10(m) == 10 * pow10((m - 1) as nat));
        let f = d.drop_last();
        assert(all_digits(f)) by {
            assert forall|i: int| 0 <= i < f.len() implies is_digit(#[trigger] f[i]) by {
                assert(f[i] == d[i]);
            }
        }
        assert(is_digit(d[d.len() - 1]));
        let a = digits_value(f);
        let b = digit_val(d.last());
        assert(digits_value(d) / 10 == a) by {
            vstd::arithmetic::div_mod::lemma_fundamental_div_mod_converse(digits_value(d) as int, 10, a as int, b as int);
        }
        lemma_pow10_positive((m - 1) as nat);
        vstd::arithmetic::div_mod::lemma_div_denominator(digits_value(d) as int, 10, pow10((m - 1) as nat) as int);
        lemma_digits_value_div(f, (m - 1) as nat);
        assert(f.take(f.len() - (m - 1)) =~= d.take(d.len() - m));
    }
}

// ───────────────────────── exec ─────────────────────────

/// `min(digits_value(v[from..to]), 2^100)`.
fn capped_value(v: &Vec<char>, from: usize, to: usize) -> (r: u128)
    requires
        from <= to <= v@.len(),
        all_digits(v@.subrange(from as int, to as int)),
    ensures
        r == (if digits_value(v@.subrange(from as int, to as int)) > 0x10000000000000000000000000 {
            0x10000000000000000000000000
        } else {
            digits_value(v@.subrange(from as int, to as int))
        }),
{
    let cap: u128 = 0x10000000000000000000000000;
    let mut acc: u128 = 0;
    let mut i: usize = from;
    let ghost ds = v@.subrange(from as int, to as int);
    while i < to
        invariant
            from <= i <= to <= v@.len(),
            ds == v@.subrange(from as int, to as int),
            all_digits(ds),
            cap == 0x10000000000000000000000000,
            acc == (if digits_value(ds.take(i - from)) > cap {
                cap as nat
            } else {
                digits_value(ds.take(i - from))
            }),
        decreases to - i,
    {
        let ghost j = i - from;
        assert(is_digit(ds[j]));
        assert(ds[j] == v@[i as int]);
        let dg: u128 = ((v[i] as u32) - ('0' as u32)) as u128;
        assert(ds.take(j + 1).drop_last() =~= ds.take(j));
        assert(dg == digit_val(ds[j]));
        if acc < cap {
            acc = acc * 10 + dg;
            if acc > cap {
                acc = cap;
            }
        }
        i = i + 1;
    }
    assert(ds.take(to - from) =~= ds);
    acc
}

/// The exponent text `v[from..]`, with its size capped at `2^100`.
fn read_exponent(v: &Vec<char>, from: usize) -> (r: Option<i128>)
    requires
        from <= v@.len(),
    ensures
        match r {
            Some(c) => exponent_value(v@.skip(from as int)) matches Some(e) && (if e > 0x10000000000000000000000000 {
                c == 0x10000000000000000000000000
            } else if e < -0x10000000000000000000000000 {
                c == -0x10000000000000000000000000
            } else {
                c == e
            }),
            None => exponent_value(v@.skip(from as int)) is None,
        },
{
    let n = v.len();
    let ghost x = v@.skip(from as int);
    let mut start: usize = from;
    let mut neg = false;
    if start < n && (v[start] == '-' || v[start] == '+') {
        neg = v[start] == '-';
        start = start + 1;
    }
    let ghost d = sign_split(x).1;
    assert(d =~= v@.subrange(start as int, n as int));
    assert(neg == sign_split(x).0);
    if start == n || !range_all_digits(v, start, n) {
        return None;
    }
    let acc = capped_value(v, start, n);
    assert(v@.subrange(start as int, n as int) == d);
    if neg {
        Some(-(acc as i128))
    } else {
        Some(acc as i128)
    }
}

/// `min(digits_value(v[from..to]), u64::MAX)`.
fn saturated_digits(v: &Vec<char>, from: usize, to: usize) -> (r: u64)
    requires
        from <= to <= v@.len(),
        all_digits(v@.subrange(from as int, to as int)),
    ensures
        r == saturate(digits_value(v@.subrange(from as int, to as int))),
{
    let ghost s = v@.subrange(from as int, to as int);
    let mut acc: u128 = 0;
    let mut i: usize = from;
    while i < to
        invariant
            from <= i <= to <= v@.len(),
            s == v@.subrange(from as int, to as int),
            all_digits(s),
            acc == saturate(digits_value(s.take(i - from))),
        decreases to - i,
    {
        let ghost j = i - from;
        assert(is_digit(s[j]));
        assert(s[j] == v@[i as int]);
        let dg: u128 = ((v[i] as u32) - ('0' as u32)) as u128;
        assert(s.take(j + 1).drop_last() =~= s.take(j));
        assert(dg == digit_val(s[j]));
        let next: u128 = acc * 10 + dg;
        acc = if next > 0xffff_ffff_ffff_ffffu128 {
            0xffff_ffff_ffff_ffffu128
        } else {
            next
        };
        i = i + 1;
    }
    assert(s.take(to - from) =~= s);
    acc as u64
}

/// `saturate(n · 10^shift)` from `saturate(n)`, for `0 <= shift <= 20`.
fn scale_up(a: u64, shift: u32, Ghost(n): Ghost<nat>) -> (r: u64)
    requires
        shift <= 20,
        a == saturate(n),
    ensures
        r == saturate(n * pow10(shift as nat)),
{
    let mut acc: u128 = a as u128;
    let mut j: u32 = 0;
    assert(pow10(0) == 1);
    assert(n * 1 == n);
    while j < shift
        invariant
            j <= shift,
            acc <= u64::MAX,
            a == saturate(n),
            acc == saturate(n * pow10(j as nat)),
        decreases shift - j,
    {
        let next: u128 = acc * 10;
        let ghost old_acc = acc;
        acc = if next > 0xffff_ffff_ffff_ffffu128 {
            0xffff_ffff_ffff_ffffu128
        } else {
            next
        };
        proof {
            let p = pow10(j as nat);
            assert(pow10((j + 1) as nat) == 10 * p);
            assert(n * (10 * p) == (n * p) * 10) by (nonlinear_arith);
            if n * p > u64::MAX {
                assert((n * p) * 10 > u64::MAX) by (nonlinear_arith)
                    requires
                        n * p > u64::MAX,
                ;
            }
        }
        j = j + 1;
    }
    acc as u64
}

/// `c` is the exponent `e`, or `±2^100` when `e` is beyond that.
pub open spec fn capped_as(e: int, c: int) -> bool {
    if e > 0x10000000000000000000000000 {
        c == 0x10000000000000000000000000
    } else if e < -0x10000000000000000000000000 {
        c == -0x10000000000000000000000000
    } else {
        c == e
    }
}

/// The parts of an unsigned decimal (see [`decimal_parts`]), the exponent
/// capped at `±2^100`.
#[verifier::rlimit(30)]
fn read_decimal(v: &Vec<char>) -> (r: Option<(Vec<char>, usize, i128)>)
    ensures
        match r {
            None => decimal_parts(v@) is None,
            Some((d, f, c)) => decimal_parts(v@) matches Some((dd, ff, e)) && d@ == dd && f == ff
                && capped_as(e, c as int) && all_digits(d@) && f <= d@.len(),
        },
{
    let ghost r = v@;
    let i = find_exp_mark(v);
    let e: i128 = if i < v.len() {
        match read_exponent(v, i + 1) {
            Some(c) => c,
            None => {
                return None;
            },
        }
    } else {
        0
    };
    let ghost m = if i < v@.len() {
        r.take(i as int)
    } else {
        r
    };
    let ghost ev: int = if i < v@.len() {
        exponent_value(r.skip(i + 1)).unwrap()
    } else {
        0
    };
    assert(capped_as(ev, e as int));
    assert(m =~= v@.subrange(0, i as int));
    // the point
    let mut p: usize = 0;
    while p < i && v[p] != '.'
        invariant
            p <= i <= v@.len(),
            forall|j: int| 0 <= j < p ==> v@[j] != '.',
        decreases i - p,
    {
        p = p + 1;
    }
    let ghost (ip, fp) = split_point(m);
    let frac_start: usize = if p < i {
        p + 1
    } else {
        p
    };
    proof {
        if p < i {
            assert(m[p as int] == '.');
            assert forall|j: int| 0 <= j < p implies m[j] != '.' by {
                assert(m[j] == v@[j]);
            }
            crate::text::lemma_first_index(m, '.', p as int);
            assert(ip =~= v@.subrange(0, p as int));
            assert(fp =~= v@.subrange(p + 1, i as int));
        } else {
            assert(!(exists|j: int| 0 <= j < m.len() && m[j] == '.')) by {
                assert forall|j: int| 0 <= j < m.len() implies m[j] != '.' by {
                    assert(m[j] == v@[j]);
                }
            }
            assert(first_index(m, '.') is None);
            assert(ip =~= v@.subrange(0, p as int));
            assert(fp =~= v@.subrange(frac_start as int, i as int));
        }
    }
    if p + (i - frac_start) == 0 || !range_all_digits(v, 0, p) || !range_all_digits(v, frac_start, i) {
        return None;
    }
    // the digits, without the point
    let mut digits: Vec<char> = Vec::new();
    let mut j: usize = 0;
    while j < i
        invariant
            j <= i <= v@.len(),
            p <= i,
            frac_start as int == (if p < i { p + 1 } else { p as int }),
            digits@ == (if j <= p {
                v@.subrange(0, j as int)
            } else if j <= frac_start {
                v@.subrange(0, p as int)
            } else {
                v@.subrange(0, p as int) + v@.subrange(frac_start as int, j as int)
            }),
        decreases i - j,
    {
        if j != p || frac_start == p {
            digits.push(v[j]);
        }
        j = j + 1;
        if j <= p {
            assert(digits@ =~= v@.subrange(0, j as int));
        } else if j <= frac_start {
        } else {
            assert(digits@ =~= v@.subrange(0, p as int) + v@.subrange(frac_start as int, j as int));
        }
    }
    let frac_len: usize = i - frac_start;
    assert(digits@ =~= ip + fp);
    assert(all_digits(digits@)) by {
        assert forall|t: int| 0 <= t < digits@.len() implies is_digit(#[trigger] digits@[t]) by {
            if t < ip.len() {
                assert(digits@[t] == ip[t]);
            } else {
                assert(digits@[t] == fp[t - ip.len()]);
            }
        }
    }
    Some((digits, frac_len, e))
}

/// `saturate(shifted_value(digits, k + e - frac_len))`, from the exponent
/// `e` capped at `±2^100` (`c`).
#[verifier::rlimit(30)]
fn shifted_saturated(digits: &Vec<char>, frac_len: usize, c: i128, Ghost(e): Ghost<int>, k: u32) -> (r: u64)
    requires
        all_digits(digits@),
        frac_len <= digits@.len(),
        capped_as(e, c as int),
        k <= 18,
    ensures
        r == saturate(shifted_value(digits@, k + e - frac_len)),
{
    let n = digits.len();
    let shift: i128 = k as i128 + c - frac_len as i128;
    let ghost sh: int = k + e - frac_len;
    if shift >= 0 {
        let a = saturated_digits(digits, 0, n);
        assert(digits@.subrange(0, n as int) =~= digits@);
        if a == 0 {
            assert(digits_value(digits@) == 0);
            assert(shifted_value(digits@, sh) == 0) by {
                if sh >= 0 {
                    assert(0 * pow10(sh as nat) == 0);
                } else {
                    lemma_pow10_positive((-sh) as nat);
                }
            }
            return 0;
        }
        if shift > 20 {
            proof {
                assert(sh >= shift);
                lemma_pow10_mono(20, sh as nat);
                lemma_pow10_20();
                let nv = digits_value(digits@);
                assert(nv >= 1);
                let pp = pow10(sh as nat);
                assert(nv * pp >= pp) by (nonlinear_arith)
                    requires
                        nv >= 1,
                ;
            }
            return u64::MAX;
        }
        assert(shift == sh);
        return scale_up(a, shift as u32, Ghost(digits_value(digits@)));
    }
    if shift < -(n as i128) {
        proof {
            assert(sh <= shift);
            lemma_digits_value_below(digits@);
            lemma_pow10_mono(n as nat, (-sh) as nat);
            lemma_pow10_positive((-sh) as nat);
            vstd::arithmetic::div_mod::lemma_basic_div_specific_divisor(pow10((-sh) as nat) as int);
            assert(digits_value(digits@) / pow10((-sh) as nat) == 0);
        }
        return 0;
    }
    assert(shift == sh);
    let drop: usize = (-shift) as usize;
    proof {
        lemma_digits_value_div(digits@, drop as nat);
    }
    let out = saturated_digits(digits, 0, n - drop);
    assert(digits@.subrange(0, n - drop) =~= digits@.take(n - drop));
    out
}

/// A number as `str::parse::<f64>` reads it, in units of `10^-k`,
/// saturated as `as u64` does (see [`parse_float_of`]).
pub fn parse_float(s: &str, k: u32) -> (r: Option<u64>)
    requires
        k <= 18,
    ensures
        r == parse_float_of(s@, k as nat),
{
    proof {
        reveal_strlit("nan");
        reveal_strlit("inf");
        reveal_strlit("infinity");
        assert("nan"@ =~= seq!['n', 'a', 'n']);
        assert("inf"@ =~= seq!['i', 'n', 'f']);
        assert("infinity"@ =~= seq!['i', 'n', 'f', 'i', 'n', 'i', 't', 'y']);
    }
    let v0 = chars_of(s);
    let neg = v0.len() > 0 && v0[0] == '-';
    let start: usize = if v0.len() > 0 && (v0[0] == '-' || v0[0] == '+') {
        1
    } else {
        0
    };
    let rest = string_of_range(&v0, start, v0.len());
    let v = chars_of(rest.as_str());
    assert(v@ =~= sign_split(s@).1);
    assert(neg == sign_split(s@).0);
    if spells_word(&v, "nan") {
        return Some(0);
    }
    if spells_word(&v, "inf") || spells_word(&v, "infinity") {
        return Some(
            if neg {
                0
            } else {
                u64::MAX
            },
        );
    }
    match read_decimal(&v) {
        None => None,
        Some((digits, frac_len, c)) => {
            if neg {
                Some(0)
            } else {
                let ghost e = decimal_parts(v@).unwrap().2;
                Some(shifted_saturated(&digits, frac_len, c, Ghost(e), k))
            }
        },
    }
}

/// Whether `v` spells the lowercase word `w` in any mix of cases.
fn spells_word(v: &Vec<char>, w: &str) -> (b: bool)
    ensures
        b == spells(v@, w@),
{
    let wv = chars_of(w);
    if v.len() != wv.len() {
        return false;
    }
    let mut i: usize = 0;
    while i < v.len()
        invariant
            i <= v@.len() == wv@.len(),
            wv@ == w@,
            forall|j: int| 0 <= j < i ==> v@[j] == wv@[j] || v@[j] == upper_of(wv@[j]),
        decreases v@.len() - i,
    {
        let c = wv[i];
        let up = if c == 'i' {
            'I'
        } else if c == 'n' {
            'N'
        } else if c == 'f' {
            'F'
        } else if c == 't' {
            'T'
        } else if c == 'y' {
            'Y'
        } else if c == 'a' {
            'A'
        } else {
            c
        };
        if v[i] != c && v[i] != up {
            return false;
        }
        i = i + 1;
    }
    true
}

} // verus!
