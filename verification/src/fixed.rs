//! Saturating fixed-point scalars.
//!
//! A raw `i64` value `v` denotes the real number `v / SCALE`. Every operation
//! is total: results are truncated toward zero and saturated into
//! `[-RAW_MAX, RAW_MAX]`, and each executable operation is proved equal to its
//! specification function.

use vstd::prelude::*;

verus! {

/// Raw units in 1.0.
pub const SCALE: i64 = 1_000_000;
/// The raw value of the number one.
pub const ONE: i64 = 1_000_000;
/// Largest representable raw magnitude; arithmetic saturates at `+/-RAW_MAX`.
pub const RAW_MAX: i64 = 9_223_372_036_854_775_807;

pub open spec fn abs_int(a: int) -> int {
    if a >= 0 { a } else { -a }
}

/// Clamp an unbounded integer into the representable raw range.
pub open spec fn sat(x: int) -> int {
    if x > RAW_MAX as int {
        RAW_MAX as int
    } else if x < -(RAW_MAX as int) {
        -(RAW_MAX as int)
    } else {
        x
    }
}

/// Division truncated toward zero, the rounding used by the executable code.
pub open spec fn tdiv(a: int, b: int) -> int
    recommends b != 0,
{
    let q = abs_int(a) / abs_int(b);
    if (a >= 0) == (b >= 0) { q } else { -q }
}

/// Saturating fixed-point addition.
pub open spec fn sp_add(a: int, b: int) -> int {
    sat(a + b)
}

/// Saturating fixed-point subtraction.
pub open spec fn sp_sub(a: int, b: int) -> int {
    sat(a - b)
}

/// Saturating fixed-point negation.
pub open spec fn sp_neg(a: int) -> int {
    sat(-a)
}

/// Saturating fixed-point multiplication: `(a * b) / SCALE`, truncated.
pub open spec fn sp_mul(a: int, b: int) -> int {
    sat(tdiv(a * b, SCALE as int))
}

/// Saturating fixed-point division: `(a * SCALE) / b`, truncated; a zero
/// divisor saturates with the sign of the dividend.
pub open spec fn sp_div(a: int, b: int) -> int {
    if b == 0 {
        if a > 0 {
            RAW_MAX as int
        } else if a < 0 {
            -(RAW_MAX as int)
        } else {
            0
        }
    } else {
        sat(tdiv(a * SCALE as int, b))
    }
}

/// `r` is the integer square root of `x`.
pub open spec fn is_sqrt(x: int, r: int) -> bool {
    0 <= r && r * r <= x && x < (r + 1) * (r + 1)
}

/// The integer square root of `x` (meaningful for `x >= 0`).
pub open spec fn sqrt_of(x: int) -> int {
    choose|r: int| #[trigger] is_sqrt(x, r)
}

/// Fixed-point square root: `sqrt(a / SCALE) * SCALE = sqrt(a * SCALE)`,
/// rounded down; negative inputs map to zero.
pub open spec fn sp_sqrt(a: int) -> int {
    if a <= 0 { 0 } else { sqrt_of(a * SCALE as int) }
}

/// Every natural number has an integer square root.
pub proof fn lemma_sqrt_exists(x: nat)
    ensures exists|r: int| is_sqrt(x as int, r),
    decreases x,
{
    if x == 0 {
        assert(is_sqrt(0, 0));
    } else {
        lemma_sqrt_exists((x - 1) as nat);
        let r = choose|r: int| #[trigger] is_sqrt(x as int - 1, r);
        if (r + 1) * (r + 1) <= x as int {
            assert(is_sqrt(x as int, r + 1)) by (nonlinear_arith)
                requires is_sqrt(x as int - 1, r), (r + 1) * (r + 1) <= x as int;
        } else {
            assert(is_sqrt(x as int, r));
        }
    }
}

/// The integer square root is unique.
pub proof fn lemma_sqrt_unique(x: int, r1: int, r2: int)
    requires
        is_sqrt(x, r1),
        is_sqrt(x, r2),
    ensures
        r1 == r2,
{
    assert(r1 == r2) by (nonlinear_arith)
        requires is_sqrt(x, r1), is_sqrt(x, r2);
}

/// `sqrt_of` really is the integer square root of a nonnegative number.
pub proof fn lemma_sqrt_of(x: int)
    requires x >= 0,
    ensures is_sqrt(x, sqrt_of(x)),
{
    lemma_sqrt_exists(x as nat);
}

/// Truncated division is monotone in the numerator (positive divisor).
pub proof fn lemma_tdiv_mono(a: int, b: int, d: int)
    requires
        a <= b,
        d > 0,
    ensures
        tdiv(a, d) <= tdiv(b, d),
{
    if a >= 0 {
        vstd::arithmetic::div_mod::lemma_div_is_ordered(a, b, d);
    } else if b >= 0 {
        vstd::arithmetic::div_mod::lemma_div_pos_is_pos(-a, d);
        vstd::arithmetic::div_mod::lemma_div_pos_is_pos(b, d);
    } else {
        vstd::arithmetic::div_mod::lemma_div_is_ordered(-b, -a, d);
    }
}

/// Fixed-point division is monotone in the dividend (nonnegative divisor).
pub proof fn lemma_sp_div_mono_num(n1: int, n2: int, d: int)
    requires
        n1 <= n2,
        d >= 0,
    ensures
        sp_div(n1, d) <= sp_div(n2, d),
{
    if d != 0 {
        assert(n1 * SCALE as int <= n2 * SCALE as int) by (nonlinear_arith)
            requires n1 <= n2, SCALE as int == 1_000_000;
        lemma_tdiv_mono(n1 * SCALE as int, n2 * SCALE as int, d);
    }
}

/// A fixed-point square is never negative.
pub proof fn lemma_sp_mul_self_nonneg(x: int)
    ensures sp_mul(x, x) >= 0,
{
    assert(x * x >= 0) by (nonlinear_arith);
    if x * x > 0 {
        vstd::arithmetic::div_mod::lemma_div_pos_is_pos(x * x, SCALE as int);
    } else {
        vstd::arithmetic::div_mod::lemma_div_of0(SCALE as int);
    }
}

/// A fixed-point square root is never negative.
pub proof fn lemma_sp_sqrt_nonneg(a: int)
    ensures sp_sqrt(a) >= 0,
{
    if a > 0 {
        assert(a * SCALE as int > 0) by (nonlinear_arith)
            requires a > 0, SCALE as int == 1_000_000;
        lemma_sqrt_of(a * SCALE as int);
    }
}

/// Fixed-point multiplication of nonnegative values is monotone in the
/// second factor, and nonnegative.
pub proof fn lemma_sp_mul_mono(a: int, b1: int, b2: int)
    requires
        0 <= a,
        0 <= b1 <= b2,
    ensures
        0 <= sp_mul(a, b1) <= sp_mul(a, b2),
{
    assert(0 <= a * b1 && a * b1 <= a * b2) by (nonlinear_arith)
        requires 0 <= a, 0 <= b1 <= b2;
    lemma_tdiv_mono(a * b1, a * b2, SCALE as int);
    if a * b1 > 0 {
        vstd::arithmetic::div_mod::lemma_div_pos_is_pos(a * b1, SCALE as int);
    } else {
        vstd::arithmetic::div_mod::lemma_div_of0(SCALE as int);
    }
}

/// The unit-interval interpolation `min + u * (max - min)` stays within
/// `[min, max]` for representable bounds in order and `u` in `[0, 1]`.
pub proof fn lemma_affine_unit_range(min: int, max: int, u: int)
    requires
        -(RAW_MAX as int) <= min <= max,
        max <= RAW_MAX as int,
        0 <= u <= ONE as int,
    ensures
        min <= sp_add(min, sp_mul(u, sp_sub(max, min))),
        sp_add(min, sp_mul(u, sp_sub(max, min))) <= max,
{
    let d = sp_sub(max, min);
    assert(0 <= d && d <= max - min && d <= RAW_MAX as int);
    assert(0 <= u * d && u * d <= (SCALE as int) * d) by (nonlinear_arith)
        requires 0 <= u <= SCALE as int, 0 <= d, ONE as int == SCALE as int;
    lemma_tdiv_mono(u * d, (SCALE as int) * d, SCALE as int);
    vstd::arithmetic::div_mod::lemma_div_multiples_vanish(d, SCALE as int);
    assert((SCALE as int) * d == d * (SCALE as int)) by (nonlinear_arith);
    if u * d > 0 {
        vstd::arithmetic::div_mod::lemma_div_pos_is_pos(u * d, SCALE as int);
    } else {
        vstd::arithmetic::div_mod::lemma_div_of0(SCALE as int);
    }
    assert(0 <= sp_mul(u, d) && sp_mul(u, d) <= d);
}

/// The product of two fixed-point values in `[0, 1]` stays in `[0, 1]`, and
/// multiplying by exactly one is exact.
pub proof fn lemma_sp_mul_unit_range(a: int, b: int)
    requires
        0 <= a <= ONE as int,
        0 <= b <= ONE as int,
    ensures
        0 <= sp_mul(a, b) <= ONE as int,
        sp_mul(a, ONE as int) == a,
{
    assert(0 <= a * b && a * b <= (ONE as int) * (ONE as int)) by (nonlinear_arith)
        requires 0 <= a <= ONE as int, 0 <= b <= ONE as int;
    lemma_tdiv_mono(a * b, (ONE as int) * (ONE as int), SCALE as int);
    vstd::arithmetic::div_mod::lemma_div_multiples_vanish(ONE as int, SCALE as int);
    assert((ONE as int) * (ONE as int) == (ONE as int) * (SCALE as int));
    if a * b > 0 {
        vstd::arithmetic::div_mod::lemma_div_pos_is_pos(a * b, SCALE as int);
    } else {
        vstd::arithmetic::div_mod::lemma_div_of0(SCALE as int);
    }
    vstd::arithmetic::div_mod::lemma_div_multiples_vanish(a, SCALE as int);
    assert(a * (SCALE as int) / (SCALE as int) == a);
}

fn sat_i128(x: i128) -> (r: i64)
    ensures r as int == sat(x as int),
{
    if x > RAW_MAX as i128 {
        RAW_MAX
    } else if x < -(RAW_MAX as i128) {
        -RAW_MAX
    } else {
        x as i64
    }
}

fn abs_u128(x: i128) -> (r: u128)
    requires x > i128::MIN,
    ensures r as int == abs_int(x as int),
{
    if x >= 0 { x as u128 } else { (-x) as u128 }
}

/// Truncated division of `num` by `den`, saturated into the raw range.
fn div_sat_i128(num: i128, den: i128) -> (r: i64)
    requires
        den != 0,
        num > i128::MIN,
        den > i128::MIN,
    ensures
        r as int == sat(tdiv(num as int, den as int)),
{
    let neg: bool = (num < 0) != (den < 0);
    let m: u128 = abs_u128(num);
    let n: u128 = abs_u128(den);
    let q: u128 = m / n;
    if neg {
        if q > RAW_MAX as u128 { -RAW_MAX } else { -(q as i64) }
    } else {
        if q > RAW_MAX as u128 { RAW_MAX } else { q as i64 }
    }
}

/// Saturating fixed-point addition.
pub fn fadd(a: i64, b: i64) -> (r: i64)
    ensures r as int == sp_add(a as int, b as int),
{
    sat_i128(a as i128 + b as i128)
}

/// Saturating fixed-point subtraction.
pub fn fsub(a: i64, b: i64) -> (r: i64)
    ensures r as int == sp_sub(a as int, b as int),
{
    sat_i128(a as i128 - b as i128)
}

/// Saturating fixed-point negation.
pub fn fneg(a: i64) -> (r: i64)
    ensures r as int == sp_neg(a as int),
{
    sat_i128(-(a as i128))
}

/// Saturating fixed-point multiplication.
pub fn fmul(a: i64, b: i64) -> (r: i64)
    ensures r as int == sp_mul(a as int, b as int),
{
    proof {
        assert(-0x4000_0000_0000_0000_0000_0000_0000_0000 <= (a as int) * (b as int)
            && (a as int) * (b as int) <= 0x4000_0000_0000_0000_0000_0000_0000_0000)
            by (nonlinear_arith)
            requires
                -0x8000_0000_0000_0000 <= (a as int) <= 0x7fff_ffff_ffff_ffff,
                -0x8000_0000_0000_0000 <= (b as int) <= 0x7fff_ffff_ffff_ffff;
    }
    let p: i128 = (a as i128) * (b as i128);
    div_sat_i128(p, SCALE as i128)
}

/// Saturating fixed-point division; a zero divisor saturates with the sign of
/// the dividend.
pub fn fdiv(a: i64, b: i64) -> (r: i64)
    ensures r as int == sp_div(a as int, b as int),
{
    if b == 0 {
        if a > 0 { RAW_MAX } else if a < 0 { -RAW_MAX } else { 0 }
    } else {
        proof {
            assert(-0x4000_0000_0000_0000_0000_0000_0000_0000 <= (a as int) * (SCALE as int)
                && (a as int) * (SCALE as int) <= 0x4000_0000_0000_0000_0000_0000_0000_0000)
                by (nonlinear_arith)
                requires
                    -0x8000_0000_0000_0000 <= (a as int) <= 0x7fff_ffff_ffff_ffff,
                    SCALE as int == 1_000_000;
        }
        let num: i128 = (a as i128) * (SCALE as i128);
        div_sat_i128(num, b as i128)
    }
}

/// Integer square root by bisection.
fn isqrt_u128(x: u128) -> (r: u128)
    requires (x as int) < 0x4000_0000_0000_0000_0000_0000_0000_0000,
    ensures is_sqrt(x as int, r as int),
{
    let mut lo: u128 = 0;
    let mut hi: u128 = 0x8000_0000_0000_0000;
    assert(hi as int * hi as int == 0x4000_0000_0000_0000_0000_0000_0000_0000) by (nonlinear_arith)
        requires hi == 0x8000_0000_0000_0000u128;
    while hi - lo > 1
        invariant
            lo < hi,
            hi <= 0x8000_0000_0000_0000,
            (lo as int) * (lo as int) <= x as int,
            (x as int) < (hi as int) * (hi as int),
        decreases hi - lo,
    {
        let mid: u128 = lo + (hi - lo) / 2;
        assert(mid as int * (mid as int) <= 0x4000_0000_0000_0000_0000_0000_0000_0000)
            by (nonlinear_arith)
            requires 0 <= (mid as int) <= 0x8000_0000_0000_0000;
        if mid * mid <= x {
            lo = mid;
        } else {
            hi = mid;
        }
    }
    lo
}

/// Fixed-point square root; negative inputs map to zero.
pub fn fsqrt(a: i64) -> (r: i64)
    ensures r as int == sp_sqrt(a as int),
{
    if a <= 0 {
        0
    } else {
        proof {
            assert((a as int) * (SCALE as int) < 0x4000_0000_0000_0000_0000_0000_0000_0000)
                by (nonlinear_arith)
                requires 0 < (a as int) < 0x8000_0000_0000_0000, SCALE as int == 1_000_000;
        }
        let x: u128 = (a as u128) * (SCALE as u128);
        let r: u128 = isqrt_u128(x);
        proof {
            lemma_sqrt_of(x as int);
            lemma_sqrt_unique(x as int, r as int, sqrt_of(x as int));
            assert(r as int * (r as int) <= x as int);
            assert((r as int) < 0x8000_0000_0000_0000) by (nonlinear_arith)
                requires
                    0 <= r as int,
                    r as int * (r as int) <= x as int,
                    (x as int) < 0x4000_0000_0000_0000_0000_0000_0000_0000;
        }
        r as i64
    }
}

/// Clamp a raw value into `[lo, hi]`.
pub open spec fn sp_clamp(a: int, lo: int, hi: int) -> int {
    if a < lo { lo } else if a > hi { hi } else { a }
}

/// Clamp a raw value into `[lo, hi]`.
pub fn fclamp(a: i64, lo: i64, hi: i64) -> (r: i64)
    ensures r as int == sp_clamp(a as int, lo as int, hi as int),
{
    if a < lo { lo } else if a > hi { hi } else { a }
}

} // verus!
