//! Decimal numbers as the external tool prints them.
//!
//! The tool reports sizes, speeds and percentages as decimal text such as
//! `1.5` or `100`. This module gives that text its exact value: a digit
//! string is a natural number, `whole.frac` times a multiplier is a rational
//! number, and the result of a parse is that number rounded to the nearest
//! integer (halves upwards) and capped at `u64::MAX`. The executable code
//! reaches the same value digit by digit in machine integers.

use crate::text::{digit_of, digit_value, is_digit, lemma_span_bounds, skip, span, CharClass};
use vstd::arithmetic::div_mod::{
    lemma_fundamental_div_mod,
    lemma_fundamental_div_mod_converse,
    lemma_mod_bound,
};
use vstd::prelude::*;

verus! {

/// The largest multiplier that `scale_decimal` accepts.
pub const MAX_MULTIPLIER: u64 = 0x1_0000_0000;

/// A percentage in thousandths of a percentage point: `50.5%` is 50500.
#[derive(Debug, Clone, Copy, PartialEq, Eq, Structural)]
pub struct Percent {
    pub thousandths: u64,
}

pub open spec fn all_digits(s: Seq<char>) -> bool {
    forall|i: int| 0 <= i < s.len() ==> is_digit(#[trigger] s[i])
}

/// The natural number that a string of ASCII digits writes in base ten.
pub open spec fn digits_value(s: Seq<char>) -> nat
    decreases s.len(),
{
    if s.len() == 0 {
        0
    } else {
        digits_value(s.drop_last()) * 10 + digit_value(s.last())
    }
}

pub open spec fn pow10(n: nat) -> nat
    decreases n,
{
    if n == 0 {
        1
    } else {
        10 * pow10((n - 1) as nat)
    }
}

pub open spec fn saturate(n: nat) -> u64 {
    if n > u64::MAX {
        u64::MAX
    } else {
        n as u64
    }
}

/// `whole.frac` times `mult`, rounded to the nearest integer, halves upwards.
pub open spec fn scaled_value(whole: Seq<char>, frac: Seq<char>, mult: nat) -> nat {
    let p = pow10(frac.len());
    (((digits_value(whole) * p + digits_value(frac)) * mult * 2 + p) / (2 * p)) as nat
}

/// The digits before and after the point of a decimal number: digits with at
/// most one full stop among them and at least one digit in all.
pub open spec fn decimal_parts(t: Seq<char>) -> Option<(Seq<char>, Seq<char>)> {
    let d = span(t, CharClass::Digit, 0);
    let e = if d < t.len() && t[d] == '.' {
        span(t, CharClass::Digit, d + 1)
    } else {
        d
    };
    if e == t.len() && (d > 0 || e > d + 1) {
        Some(
            (
                t.subrange(0, d),
                if d < t.len() {
                    t.subrange(d + 1, t.len() as int)
                } else {
                    Seq::empty()
                },
            ),
        )
    } else {
        None
    }
}

/// The decimal number `t` times `mult`, rounded and capped; `None` where `t`
/// is no decimal number.
pub open spec fn decimal_scaled(t: Seq<char>, mult: nat) -> Option<u64> {
    match decimal_parts(t) {
        Some((whole, frac)) => Some(saturate(scaled_value(whole, frac, mult))),
        None => None,
    }
}

/// An unsigned integer as `u64` reads it from text: an optional `+`, then one
/// or more ASCII digits whose value fits in 64 bits.
pub open spec fn uint_of(s: Seq<char>) -> Option<u64> {
    let digits = if s.len() > 0 && s[0] == '+' {
        s.subrange(1, s.len() as int)
    } else {
        s
    };
    if digits.len() > 0 && all_digits(digits) && digits_value(digits) <= u64::MAX {
        Some(digits_value(digits) as u64)
    } else {
        None
    }
}

/// A signed integer as `i64` reads it from text: an optional sign, then one
/// or more ASCII digits whose value fits in 64 bits.
pub open spec fn int_of(s: Seq<char>) -> Option<i64> {
    let negative = s.len() > 0 && s[0] == '-';
    let digits = if s.len() > 0 && (s[0] == '+' || s[0] == '-') {
        s.subrange(1, s.len() as int)
    } else {
        s
    };
    if digits.len() > 0 && all_digits(digits) {
        if negative {
            if digits_value(digits) <= 0x8000_0000_0000_0000 {
                Some((0 - digits_value(digits)) as i64)
            } else {
                None
            }
        } else if digits_value(digits) <= i64::MAX {
            Some(digits_value(digits) as i64)
        } else {
            None
        }
    } else {
        None
    }
}

/// The character that writes a digit.
pub open spec fn digit_char(d: int) -> char {
    if d == 0 {
        '0'
    } else if d == 1 {
        '1'
    } else if d == 2 {
        '2'
    } else if d == 3 {
        '3'
    } else if d == 4 {
        '4'
    } else if d == 5 {
        '5'
    } else if d == 6 {
        '6'
    } else if d == 7 {
        '7'
    } else if d == 8 {
        '8'
    } else {
        '9'
    }
}

/// A natural number written in base ten, without leading zeros.
pub open spec fn digits_of(n: nat) -> Seq<char>
    decreases n,
{
    if n < 10 {
        seq![digit_char(n as int)]
    } else {
        digits_of(n / 10).push(digit_char((n % 10) as int))
    }
}

/// An integer written in base ten, with a minus sign where it is negative.
pub open spec fn int_text(n: int) -> Seq<char> {
    if n < 0 {
        seq!['-'] + digits_of((0 - n) as nat)
    } else {
        digits_of(n as nat)
    }
}

pub proof fn lemma_pow10_positive(n: nat)
    ensures
        pow10(n) > 0,
    decreases n,
{
    if n > 0 {
        lemma_pow10_positive((n - 1) as nat);
    }
}

/// A prefix of a digit string is worth no more than the whole string.
pub proof fn lemma_digits_value_prefix(s: Seq<char>, k: int)
    requires
        0 <= k <= s.len(),
    ensures
        digits_value(s.subrange(0, k)) <= digits_value(s),
    decreases s.len() - k,
{
    if k < s.len() {
        assert(s.drop_last().subrange(0, k) =~= s.subrange(0, k));
        lemma_digits_value_prefix(s.drop_last(), k);
    } else {
        assert(s.subrange(0, k) =~= s);
    }
}

/// The first digit of a string carries the weight ten to the number of
/// digits that follow it.
pub proof fn lemma_digits_value_first(s: Seq<char>)
    requires
        s.len() > 0,
    ensures
        digits_value(s) == digit_value(s[0]) * pow10((s.len() - 1) as nat) + digits_value(
            s.drop_first(),
        ),
    decreases s.len(),
{
    let d0 = digit_value(s[0]) as int;
    if s.len() == 1 {
        assert(s.drop_last() =~= Seq::<char>::empty());
        assert(s.drop_first() =~= Seq::<char>::empty());
        assert(digits_value(Seq::<char>::empty()) == 0);
        assert(digits_value(s) == 0 * 10 + d0);
        assert(pow10(0) == 1);
        assert(d0 * 1 == d0);
    } else {
        let init = s.drop_last();
        let tail = s.drop_first();
        lemma_digits_value_first(init);
        assert(init.drop_first() =~= tail.drop_last());
        assert(init[0] == s[0]);
        assert(tail.last() == s.last());
        let p = pow10((s.len() - 2) as nat) as int;
        let v = digits_value(tail.drop_last()) as int;
        let last = digit_value(s.last()) as int;
        assert(pow10((s.len() - 1) as nat) == 10 * p);
        assert(digits_value(init) == d0 * p + v);
        assert(digits_value(s) == digits_value(init) * 10 + last);
        assert(digits_value(tail) == v * 10 + last);
        assert((d0 * p + v) * 10 == d0 * (10 * p) + v * 10) by (nonlinear_arith);
    }
}

/// Dividing by a product is dividing twice: the floor of the inner quotient
/// loses nothing.
pub proof fn lemma_div_nested(a: int, x: int, p: int, q: int)
    requires
        0 <= a,
        0 <= x,
        0 < p,
        0 < q,
    ensures
        (a * p + x) / (q * p) == (a + x / p) / q,
{
    let t = x / p;
    let r = x % p;
    lemma_fundamental_div_mod(x, p);
    lemma_mod_bound(x, p);
    let n = a + t;
    let u = n / q;
    let w = n % q;
    lemma_fundamental_div_mod(n, q);
    lemma_mod_bound(n, q);
    assert(a * p + x == u * (q * p) + (w * p + r)) by (nonlinear_arith)
        requires
            x == p * t + r,
            n == a + t,
            n == q * u + w,
    ;
    assert(0 <= w * p + r < q * p) by (nonlinear_arith)
        requires
            0 <= w < q,
            0 <= r < p,
    ;
    lemma_fundamental_div_mod_converse(a * p + x, q * p, u, w * p + r);
}

/// Rounding `whole.frac * m` to the nearest integer only needs the fraction's
/// doubled product, rounded down.
pub proof fn lemma_round_split(iv: int, fv: int, m: int, p: int)
    requires
        0 <= iv,
        0 <= fv,
        1 <= m,
        0 < p,
    ensures
        ((iv * p + fv) * m * 2 + p) / (2 * p) == iv * m + ((2 * m * fv) / p + 1) / 2,
        0 <= (2 * m * fv) / p,
{
    let k = iv * m;
    let x = 2 * m * fv;
    let a = 2 * k + 1;
    assert(0 <= k) by (nonlinear_arith)
        requires
            k == iv * m,
            0 <= iv,
            1 <= m,
    ;
    assert(0 <= x) by (nonlinear_arith)
        requires
            x == 2 * m * fv,
            0 <= fv,
            1 <= m,
    ;
    assert((iv * p + fv) * m * 2 + p == a * p + x) by (nonlinear_arith)
        requires
            k == iv * m,
            x == 2 * m * fv,
            a == 2 * k + 1,
    ;
    lemma_div_nested(a, x, p, 2);
    let g = x / p;
    lemma_fundamental_div_mod(x, p);
    lemma_mod_bound(x, p);
    assert(0 <= g) by (nonlinear_arith)
        requires
            x == p * g + x % p,
            0 <= x,
            0 <= x % p < p,
            0 < p,
    ;
    assert((2 * k + 1 + g) / 2 == k + (g + 1) / 2);
}

/// The value of the digits of `cs` from `from` up to `to`, or `None` where it
/// exceeds `u64::MAX`.
fn whole_value(cs: &Vec<char>, from: usize, to: usize) -> (r: Option<u64>)
    requires
        from <= to <= cs.len(),
        all_digits(cs@.subrange(from as int, to as int)),
    ensures
        match r {
            Some(v) => v == digits_value(cs@.subrange(from as int, to as int)),
            None => digits_value(cs@.subrange(from as int, to as int)) > u64::MAX,
        },
{
    let ghost all = cs@.subrange(from as int, to as int);
    let mut acc: u64 = 0;
    let mut k: usize = from;
    while k < to
        invariant
            from <= k <= to <= cs.len(),
            all == cs@.subrange(from as int, to as int),
            all_digits(all),
            acc == digits_value(cs@.subrange(from as int, k as int)),
        decreases to - k,
    {
        let c = cs[k];
        proof {
            assert(all[k - from] == c);
        }
        let d: u64 = digit_of(c) as u64;
        proof {
            let next = cs@.subrange(from as int, k + 1);
            assert(next.drop_last() =~= cs@.subrange(from as int, k as int));
            assert(next.last() == c);
            assert(digits_value(next) == acc * 10 + d);
            assert(all.subrange(0, k + 1 - from) =~= next);
            lemma_digits_value_prefix(all, k + 1 - from);
        }
        if acc > (u64::MAX - d) / 10 {
            return None;
        }
        acc = acc * 10 + d;
        k = k + 1;
    }
    Some(acc)
}

/// Twice `mult` times the fraction `0.digits`, rounded down, where the
/// digits are those of `cs` from `from` up to `to`.
fn frac_scaled(cs: &Vec<char>, from: usize, to: usize, mult: u64) -> (g: u64)
    requires
        from <= to <= cs.len(),
        all_digits(cs@.subrange(from as int, to as int)),
        1 <= mult <= MAX_MULTIPLIER,
    ensures
        g == (2 * mult * digits_value(cs@.subrange(from as int, to as int))) / (pow10(
            (to - from) as nat,
        ) as int),
        g < 2 * mult,
{
    let ghost all = cs@.subrange(from as int, to as int);
    let mut g: u64 = 0;
    let mut k: usize = to;
    proof {
        assert(cs@.subrange(to as int, to as int) =~= Seq::<char>::empty());
    }
    while k > from
        invariant
            from <= k <= to <= cs.len(),
            all == cs@.subrange(from as int, to as int),
            all_digits(all),
            1 <= mult <= MAX_MULTIPLIER,
            g == (2 * mult * digits_value(cs@.subrange(k as int, to as int))) / (pow10(
                (to - k) as nat,
            ) as int),
            g < 2 * mult,
        decreases k,
    {
        let c = cs[k - 1];
        proof {
            assert(all[k - 1 - from] == c);
        }
        let d: u64 = digit_of(c) as u64;
        proof {
            let here = cs@.subrange(k - 1, to as int);
            let rest = cs@.subrange(k as int, to as int);
            assert(here.drop_first() =~= rest);
            assert(here[0] == c);
            lemma_digits_value_first(here);
            let p = pow10((to - k) as nat) as int;
            lemma_pow10_positive((to - k) as nat);
            let v = digits_value(rest) as int;
            assert(pow10((to - (k - 1)) as nat) == 10 * p);
            assert(digits_value(here) == d * p + v);
            assert(2 * mult * (d * p + v) == (2 * mult * d) * p + 2 * mult * v)
                by (nonlinear_arith);
            assert(0 <= 2 * mult * v) by (nonlinear_arith)
                requires
                    0 <= v,
                    1 <= mult,
            ;
            lemma_div_nested(2 * mult * d, 2 * mult * v, p, 10);
            assert(10 * p == p * 10);
            assert(2 * mult * d <= 18 * mult) by (nonlinear_arith)
                requires
                    0 <= d <= 9,
                    1 <= mult,
            ;
        }
        g = (2 * mult * d + g) / 10;
        k = k - 1;
    }
    g
}

/// The decimal number that `cs` writes, times `mult`, rounded to the nearest
/// integer (halves upwards) and capped at `u64::MAX`; `None` where `cs` is no
/// decimal number.
pub fn scale_decimal(cs: &Vec<char>, mult: u64) -> (r: Option<u64>)
    requires
        1 <= mult <= MAX_MULTIPLIER,
    ensures
        r == decimal_scaled(cs@, mult as nat),
{
    let n: usize = cs.len();
    let d: usize = skip(cs, CharClass::Digit, 0);
    let e: usize = if d < n && cs[d] == '.' {
        skip(cs, CharClass::Digit, d + 1)
    } else {
        d
    };
    if !(e == n && (d > 0 || e > d + 1)) {
        return None;
    }
    let frac_from: usize = if d < n {
        d + 1
    } else {
        n
    };
    proof {
        lemma_span_bounds(cs@, CharClass::Digit, 0);
        if d < n {
            lemma_span_bounds(cs@, CharClass::Digit, d + 1);
        }
        assert(cs@.subrange(n as int, n as int) =~= Seq::<char>::empty());
        assert forall|i: int| 0 <= i < d implies is_digit(
            #[trigger] cs@.subrange(0, d as int)[i],
        ) by {
            assert(CharClass::Digit.has(cs@[i]));
        }
        assert forall|i: int| 0 <= i < n - frac_from implies is_digit(
            #[trigger] cs@.subrange(frac_from as int, n as int)[i],
        ) by {
            assert(CharClass::Digit.has(cs@[frac_from + i]));
        }
    }
    let whole = whole_value(cs, 0, d);
    let g: u64 = frac_scaled(cs, frac_from, n, mult);
    let half: u64 = (g + 1) / 2;
    proof {
        let w = cs@.subrange(0, d as int);
        let f = cs@.subrange(frac_from as int, n as int);
        let p = pow10(f.len()) as int;
        let iv = digits_value(w) as int;
        let fv = digits_value(f) as int;
        let m = mult as int;
        lemma_pow10_positive(f.len());
        lemma_round_split(iv, fv, m, p);
        assert(g == (2 * m * fv) / p);
        assert(scaled_value(w, f, mult as nat) == iv * m + (g + 1) / 2);
        assert(iv * m >= iv) by (nonlinear_arith)
            requires
                0 <= iv,
                1 <= m,
        ;
        if let Some(v) = whole {
            assert(v * m <= u64::MAX * MAX_MULTIPLIER) by (nonlinear_arith)
                requires
                    0 <= v <= u64::MAX,
                    1 <= m <= MAX_MULTIPLIER,
            ;
        }
    }
    match whole {
        None => Some(u64::MAX),
        Some(v) => {
            let total: u128 = (v as u128) * (mult as u128) + (half as u128);
            if total > u64::MAX as u128 {
                Some(u64::MAX)
            } else {
                Some(total as u64)
            }
        },
    }
}

/// The unsigned integer that `cs` writes, as `str::parse::<u64>` reads it.
pub fn parse_uint(cs: &Vec<char>) -> (r: Option<u64>)
    ensures
        r == uint_of(cs@),
{
    let n: usize = cs.len();
    let from: usize = if n > 0 && cs[0] == '+' {
        1
    } else {
        0
    };
    let ghost digits = cs@.subrange(from as int, n as int);
    proof {
        assert(cs@.subrange(0, n as int) =~= cs@);
    }
    if from >= n {
        return None;
    }
    let e: usize = skip(cs, CharClass::Digit, from);
    proof {
        lemma_span_bounds(cs@, CharClass::Digit, from as int);
    }
    if e < n {
        proof {
            assert(!is_digit(digits[e - from]));
        }
        return None;
    }
    proof {
        assert forall|i: int| 0 <= i < digits.len() implies is_digit(#[trigger] digits[i]) by {
            assert(CharClass::Digit.has(cs@[from + i]));
        }
    }
    whole_value(cs, from, n)
}

fn digit_to_char(d: u64) -> (c: char)
    requires
        d < 10,
    ensures
        c == digit_char(d as int),
{
    if d == 0 {
        '0'
    } else if d == 1 {
        '1'
    } else if d == 2 {
        '2'
    } else if d == 3 {
        '3'
    } else if d == 4 {
        '4'
    } else if d == 5 {
        '5'
    } else if d == 6 {
        '6'
    } else if d == 7 {
        '7'
    } else if d == 8 {
        '8'
    } else {
        '9'
    }
}

/// The digits of `n` with those of `tail` after them.
fn prepend_digits(n: u64, tail: Vec<char>) -> (r: Vec<char>)
    ensures
        r@ == digits_of(n as nat) + tail@,
    decreases n,
{
    let ghost rest = tail@;
    let mut v: Vec<char> = Vec::new();
    v.push(digit_to_char(n % 10));
    let mut tail = tail;
    v.append(&mut tail);
    proof {
        assert(v@ =~= seq![digit_char((n % 10) as int)] + rest);
    }
    if n < 10 {
        v
    } else {
        let r = prepend_digits(n / 10, v);
        proof {
            assert(digits_of(n as nat) =~= digits_of((n / 10) as nat).push(
                digit_char((n % 10) as int),
            ));
            assert(r@ =~= digits_of(n as nat) + rest);
        }
        r
    }
}

/// The text that writes a signed integer in base ten.
pub fn int_to_chars(n: i64) -> (r: Vec<char>)
    ensures
        r@ == int_text(n as int),
{
    if n < 0 {
        let magnitude: u64 = if n == i64::MIN {
            0x8000_0000_0000_0000
        } else {
            (0 - n) as u64
        };
        let digits = prepend_digits(magnitude, Vec::new());
        let mut v: Vec<char> = Vec::new();
        v.push('-');
        let mut digits = digits;
        let ghost d = digits@;
        v.append(&mut digits);
        proof {
            assert(d =~= digits_of(magnitude as nat));
            assert(v@ =~= seq!['-'] + d);
        }
        v
    } else {
        let r = prepend_digits(n as u64, Vec::new());
        proof {
            assert(r@ =~= digits_of(n as nat));
        }
        r
    }
}

/// The signed integer that `cs` writes, as `str::parse::<i64>` reads it.
pub fn parse_int(cs: &Vec<char>) -> (r: Option<i64>)
    ensures
        r == int_of(cs@),
{
    let n: usize = cs.len();
    let negative = n > 0 && cs[0] == '-';
    let from: usize = if n > 0 && (cs[0] == '+' || cs[0] == '-') {
        1
    } else {
        0
    };
    let ghost digits = cs@.subrange(from as int, n as int);
    proof {
        assert(cs@.subrange(0, n as int) =~= cs@);
    }
    if from >= n {
        return None;
    }
    let e: usize = skip(cs, CharClass::Digit, from);
    proof {
        lemma_span_bounds(cs@, CharClass::Digit, from as int);
    }
    if e < n {
        proof {
            assert(!is_digit(digits[e - from]));
        }
        return None;
    }
    proof {
        assert forall|i: int| 0 <= i < digits.len() implies is_digit(#[trigger] digits[i]) by {
            assert(CharClass::Digit.has(cs@[from + i]));
        }
    }
    match whole_value(cs, from, n) {
        None => None,
        Some(v) => {
            if negative {
                if v <= 0x8000_0000_0000_0000 {
                    if v == 0x8000_0000_0000_0000 {
                        Some(i64::MIN)
                    } else {
                        Some(0 - (v as i64))
                    }
                } else {
                    None
                }
            } else if v <= 0x7fff_ffff_ffff_ffff {
                Some(v as i64)
            } else {
                None
            }
        },
    }
}

} // verus!
