//! Fixed-point numbers.
//!
//! Every quantity between zero and a little over one (a tone parameter, a
//! velocity, a level, a filter coefficient) is a `u32` that counts
//! billionths, so `ONE` stands for `1.0` and `997_800_000` for `0.9978`.
//! Products and quotients are rounded to the nearest billionth; a tie goes
//! up.

use vstd::prelude::*;
use vstd::arithmetic::div_mod::lemma_fundamental_div_mod;

verus! {

/// The fixed-point number one.
pub const ONE: u32 = 1_000_000_000;

/// The integer nearest to `num / den`; a tie goes to the larger one.  It is
/// the quotient, and one more where the remainder reaches half the divisor.
pub open spec fn round_div(num: int, den: int) -> int {
    num / den + if 2 * (num % den) >= den {
        1int
    } else {
        0int
    }
}

/// The fixed-point product of `a` and `b`.
pub open spec fn scale_of(a: int, b: int) -> int {
    round_div(a * b, ONE as int)
}

/// The fixed-point quotient of `num` by `den`.
pub open spec fn ratio_of(num: int, den: int) -> int {
    round_div(num * ONE, den)
}

/// The value of `[lo, hi]` nearest to `value`.
pub open spec fn clamp_of(value: int, lo: u32, hi: u32) -> u32 {
    if value < lo {
        lo
    } else if value > hi {
        hi
    } else {
        value as u32
    }
}

/// `round_div(num, den)` is the one integer `q` with
/// `-1/2 < q - num / den <= 1/2`.
pub proof fn lemma_round_div_is_nearest(num: int, den: int)
    requires
        den > 0,
    ensures
        2 * num - den < 2 * den * round_div(num, den) <= 2 * num + den,
{
    let q = round_div(num, den);
    lemma_fundamental_div_mod(num, den);
    assert(2 * num - den < 2 * den * q <= 2 * num + den) by (nonlinear_arith)
        requires
            den > 0,
            num == den * (num / den) + num % den,
            0 <= num % den < den,
            q == num / den + (if 2 * (num % den) >= den {
                1int
            } else {
                0int
            }),
    ;
}

/// Only one integer lies that near to a quotient.
pub proof fn lemma_round_div_unique(num: int, den: int, q: int)
    requires
        den > 0,
        2 * num - den < 2 * den * q <= 2 * num + den,
    ensures
        q == round_div(num, den),
{
    lemma_round_div_is_nearest(num, den);
    let r = round_div(num, den);
    assert(q == r) by (nonlinear_arith)
        requires
            den > 0,
            2 * num - den < 2 * den * q <= 2 * num + den,
            2 * num - den < 2 * den * r <= 2 * num + den,
    ;
}

/// A larger numerator does not round to a smaller quotient.
pub proof fn lemma_round_div_monotone(a: int, b: int, den: int)
    requires
        a <= b,
        den > 0,
    ensures
        round_div(a, den) <= round_div(b, den),
{
    lemma_round_div_is_nearest(a, den);
    lemma_round_div_is_nearest(b, den);
    let qa = round_div(a, den);
    let qb = round_div(b, den);
    assert(qa <= qb) by (nonlinear_arith)
        requires
            den > 0,
            a <= b,
            2 * a - den < 2 * den * qa <= 2 * a + den,
            2 * b - den < 2 * den * qb <= 2 * b + den,
    ;
}

/// A multiple of the divisor is divided without rounding.
pub proof fn lemma_round_div_exact(k: int, den: int)
    requires
        den > 0,
    ensures
        round_div(k * den, den) == k,
{
    assert(2 * (k * den) - den < 2 * den * k <= 2 * (k * den) + den) by (nonlinear_arith)
        requires
            den > 0,
    ;
    lemma_round_div_unique(k * den, den, k);
}

/// A quotient between two integers rounds to a value between them.
pub proof fn lemma_round_div_between(num: int, den: int, lo: int, hi: int)
    requires
        den > 0,
        lo * den <= num <= hi * den,
    ensures
        lo <= round_div(num, den) <= hi,
{
    lemma_round_div_exact(lo, den);
    lemma_round_div_exact(hi, den);
    lemma_round_div_monotone(lo * den, num, den);
    lemma_round_div_monotone(num, hi * den, den);
}

/// A product with a factor of at most one is at most the other factor, and
/// it grows with either factor.
pub proof fn lemma_scale_bounds(a: int, b: int)
    requires
        0 <= a,
        0 <= b <= ONE,
    ensures
        0 <= scale_of(a, b) <= a,
        b == ONE ==> scale_of(a, b) == a,
        b == 0 ==> scale_of(a, b) == 0,
{
    assert(0 <= a * b <= a * ONE) by (nonlinear_arith)
        requires
            0 <= a,
            0 <= b <= ONE,
    ;
}

/// A product does not shrink when its second factor grows.
pub proof fn lemma_scale_monotone(a: int, b: int, c: int)
    requires
        0 <= a,
        b <= c,
    ensures
        scale_of(a, b) <= scale_of(a, c),
{
    assert(a * b <= a * c) by (nonlinear_arith)
        requires
            0 <= a,
            b <= c,
    ;
}

/// Divides with rounding to the nearest integer.
pub fn div_round(num: u64, den: u64) -> (quotient: u64)
    requires
        den > 0,
    ensures
        quotient == round_div(num as int, den as int),
{
    let whole: u64 = num / den;
    let rest: u64 = num % den;
    proof {
        lemma_fundamental_div_mod(num as int, den as int);
        if rest >= den - rest {
            assert(whole < u64::MAX) by (nonlinear_arith)
                requires
                    num == den * whole + rest,
                    2 * rest >= den,
                    rest < den,
                    den > 0,
                    num <= u64::MAX,
                    whole >= 0,
            ;
        }
    }
    if rest >= den - rest {
        whole + 1
    } else {
        whole
    }
}

/// Multiplies two fixed-point numbers.
pub fn scale(a: u32, b: u32) -> (product: u64)
    ensures
        product == scale_of(a as int, b as int),
{
    assert(a as int * b as int <= 0xFFFF_FFFF * 0xFFFF_FFFF) by (nonlinear_arith)
        requires
            0 <= a <= 0xFFFF_FFFF,
            0 <= b <= 0xFFFF_FFFF,
    ;
    div_round((a as u64) * (b as u64), ONE as u64)
}

/// Moves `value` to the nearest value of `[lo, hi]`.
pub fn clamp(value: u64, lo: u32, hi: u32) -> (clamped: u32)
    requires
        lo <= hi,
    ensures
        clamped == clamp_of(value as int, lo, hi),
        lo <= clamped <= hi,
        lo <= value <= hi ==> clamped == value,
{
    if value < lo as u64 {
        lo
    } else if value > hi as u64 {
        hi
    } else {
        value as u32
    }
}

} // verus!
