//! Saturating fixed-point scalars.
//!
//! A scalar is an `i64` holding the represented value times [`SCALE`].
//! Every operation saturates into the symmetric range
//! `[-SAT_MAX, SAT_MAX]`, so negation is always exact and no operation
//! can overflow or panic.  Division truncates toward zero and a zero
//! divisor yields zero, which callers guard against where it matters.

use vstd::prelude::*;

verus! {

/// Number of fixed-point units in one whole unit.
pub const SCALE: i64 = 1_000_000;

/// Half of one whole unit.
pub const HALF: i64 = 500_000;

/// Largest magnitude a scalar may hold.  The range is symmetric so that
/// negation never changes a magnitude.
pub const SAT_MAX: i64 = 9_223_372_036_854_775_807;

/// Magnitude of `a`.
pub open spec fn abs_int(a: int) -> int {
    if a >= 0 {
        a
    } else {
        -a
    }
}

/// Clamp of a mathematical integer into the symmetric scalar range.
pub open spec fn sat64(x: int) -> int {
    if x > SAT_MAX as int {
        SAT_MAX as int
    } else if x < -(SAT_MAX as int) {
        -(SAT_MAX as int)
    } else {
        x
    }
}

/// Division truncating toward zero; zero divisor yields zero.
pub open spec fn div_trunc(a: int, b: int) -> int {
    if b == 0 {
        0
    } else if (a >= 0) == (b >= 0) {
        abs_int(a) / abs_int(b)
    } else {
        -(abs_int(a) / abs_int(b))
    }
}

/// Saturating sum of two scalars.
pub open spec fn sat_add(a: int, b: int) -> int {
    sat64(a + b)
}

/// Saturating difference of two scalars.
pub open spec fn sat_sub(a: int, b: int) -> int {
    sat64(a - b)
}

/// Saturating negation of a scalar.
pub open spec fn sat_neg(a: int) -> int {
    sat64(-a)
}

/// Fixed-point product: the mathematical product scaled back down,
/// truncated toward zero and saturated.
pub open spec fn mul_fx(a: int, b: int) -> int {
    sat64(div_trunc(a * b, SCALE as int))
}

/// Fixed-point quotient: the dividend scaled up, truncated toward zero
/// and saturated.  A zero divisor yields zero.
pub open spec fn div_fx(a: int, b: int) -> int {
    sat64(div_trunc(a * SCALE, b))
}

/// The greatest integer whose square does not exceed `n` (zero for
/// negative `n`).
pub open spec fn sqrt_floor(n: int) -> int
    decreases n,
{
    if n <= 0 {
        0
    } else {
        let r = sqrt_floor(n - 1);
        if (r + 1) * (r + 1) <= n {
            r + 1
        } else {
            r
        }
    }
}

/// `sqrt_floor(n)` is the floor of the square root: its square is at
/// most `n` and the next square is beyond `n`.
pub proof fn lemma_sqrt_floor_bounds(n: int)
    requires
        n >= 0,
    ensures
        sqrt_floor(n) >= 0,
        sqrt_floor(n) * sqrt_floor(n) <= n,
        n < (sqrt_floor(n) + 1) * (sqrt_floor(n) + 1),
    decreases n,
{
    if n == 0 {
    } else {
        lemma_sqrt_floor_bounds(n - 1);
        let r = sqrt_floor(n - 1);
        if (r + 1) * (r + 1) <= n {
            assert(n - 1 < (r + 1) * (r + 1));
            assert(n == (r + 1) * (r + 1));
            assert((r + 2) * (r + 2) > (r + 1) * (r + 1)) by (nonlinear_arith)
                requires
                    r >= 0,
            ;
        } else {
        }
    }
}

/// No integer other than `sqrt_floor(n)` sits between the two squares.
pub proof fn lemma_sqrt_floor_unique(n: int, r: int)
    requires
        n >= 0,
        r >= 0,
        r * r <= n,
        n < (r + 1) * (r + 1),
    ensures
        r == sqrt_floor(n),
{
    lemma_sqrt_floor_bounds(n);
    let s = sqrt_floor(n);
    if r < s {
        assert((r + 1) * (r + 1) <= s * s) by (nonlinear_arith)
            requires
                0 <= r,
                r + 1 <= s,
        ;
    }
    if s < r {
        assert((s + 1) * (s + 1) <= r * r) by (nonlinear_arith)
            requires
                0 <= s,
                s + 1 <= r,
        ;
    }
}

/// Negating one factor negates a fixed-point product exactly: the
/// truncation is toward zero and the clamp range is symmetric.
pub proof fn lemma_mul_fx_neg(a: int, b: int)
    requires
        -(SAT_MAX as int) <= a <= SAT_MAX as int,
    ensures
        mul_fx(sat_neg(a), b) == sat_neg(mul_fx(a, b)),
{
    assert(sat_neg(a) == -a);
    assert((-a) * b == -(a * b)) by (nonlinear_arith);
    let x = a * b;
    assert(div_trunc(-x, SCALE as int) == -div_trunc(x, SCALE as int));
}

/// Evaluates a truncating division of non-negative operands from a
/// quotient-remainder witness; the default solver does not fold a
/// division whose operands it only knows by value.
pub proof fn lemma_div_trunc_eval(a: int, b: int, q: int, r: int)
    requires
        a >= 0,
        b > 0,
        0 <= r < b,
        a == q * b + r,
    ensures
        div_trunc(a, b) == q,
{
    vstd::arithmetic::div_mod::lemma_fundamental_div_mod_converse(a, b, q, r);
}

/// Clamp a wide intermediate into the scalar range.
pub(crate) fn clamp_i128(x: i128) -> (r: i64)
    ensures
        r as int == sat64(x as int),
{
    if x > SAT_MAX as i128 {
        SAT_MAX
    } else if x < -(SAT_MAX as i128) {
        -SAT_MAX
    } else {
        x as i64
    }
}

/// Saturating addition.
pub fn fx_add(a: i64, b: i64) -> (r: i64)
    ensures
        r as int == sat_add(a as int, b as int),
{
    clamp_i128(a as i128 + b as i128)
}

/// Saturating subtraction.
pub fn fx_sub(a: i64, b: i64) -> (r: i64)
    ensures
        r as int == sat_sub(a as int, b as int),
{
    clamp_i128(a as i128 - b as i128)
}

/// Saturating negation.
pub fn fx_neg(a: i64) -> (r: i64)
    ensures
        r as int == sat_neg(a as int),
{
    clamp_i128(-(a as i128))
}

/// Magnitude of a wide intermediate.
fn abs_u128(x: i128) -> (r: u128)
    requires
        x > i128::MIN,
    ensures
        r as int == abs_int(x as int),
{
    if x >= 0 {
        x as u128
    } else {
        (-x) as u128
    }
}

/// Truncating division of a wide intermediate by a positive divisor,
/// saturated into the scalar range.
fn div_trunc_i128(a: i128, b: u128) -> (r: i64)
    requires
        a > i128::MIN,
        b > 0,
    ensures
        r as int == sat64(div_trunc(a as int, b as int)),
{
    let mag = abs_u128(a);
    let q = mag / b;
    if a >= 0 {
        if q > SAT_MAX as u128 {
            SAT_MAX
        } else {
            q as i64
        }
    } else {
        if q > SAT_MAX as u128 {
            -SAT_MAX
        } else {
            -(q as i64)
        }
    }
}

/// Fixed-point multiplication.
pub fn fx_mul(a: i64, b: i64) -> (r: i64)
    ensures
        r as int == mul_fx(a as int, b as int),
{
    proof {
        assert(abs_int(a as int * b as int) <= 0x8000_0000_0000_0000 * 0x8000_0000_0000_0000)
            by (nonlinear_arith)
            requires
                abs_int(a as int) <= 0x8000_0000_0000_0000,
                abs_int(b as int) <= 0x8000_0000_0000_0000,
        ;
    }
    let p = a as i128 * b as i128;
    div_trunc_i128(p, SCALE as u128)
}

/// Division of a scalar by an iteration count (not a fixed-point value).
pub fn fx_div_count(a: i64, n: usize) -> (r: i64)
    requires
        n >= 1,
    ensures
        r as int == sat64(div_trunc(a as int, n as int)),
{
    div_trunc_i128(a as i128, n as u128)
}

/// Floor of the square root of a wide unsigned intermediate.
pub(crate) fn isqrt_u128(n: u128) -> (r: u128)
    ensures
        r as int == sqrt_floor(n as int),
        r < 0x1_0000_0000_0000_0000,
{
    let mut lo: u128 = 0;
    let mut hi: u128 = 0x1_0000_0000_0000_0000;
    proof {
        assert((hi as int) * (hi as int) > n as int) by (nonlinear_arith)
            requires
                hi as int == 0x1_0000_0000_0000_0000,
                (n as int) < 0x1_0000_0000_0000_0000 * 0x1_0000_0000_0000_0000,
        ;
    }
    while lo + 1 < hi
        invariant
            0 <= lo < hi <= 0x1_0000_0000_0000_0000,
            (lo as int) * (lo as int) <= n as int,
            (n as int) < (hi as int) * (hi as int),
        decreases hi - lo,
    {
        let mid = lo + (hi - lo) / 2;
        proof {
            assert((mid as int) * (mid as int) < 0x1_0000_0000_0000_0000
                * 0x1_0000_0000_0000_0000) by (nonlinear_arith)
                requires
                    0 <= (mid as int) < 0x1_0000_0000_0000_0000,
            ;
        }
        if mid * mid <= n {
            lo = mid;
        } else {
            hi = mid;
        }
    }
    proof {
        lemma_sqrt_floor_unique(n as int, lo as int);
    }
    lo
}

/// Floor of the square root of a scalar magnitude (raw units, not
/// rescaled): negative inputs yield zero.
pub fn fx_sqrt_raw(n: i64) -> (r: i64)
    ensures
        r as int == sqrt_floor(n as int),
{
    if n <= 0 {
        0
    } else {
        let r = isqrt_u128(n as u128);
        proof {
            lemma_sqrt_floor_bounds(n as int);
            assert(sqrt_floor(n as int) * sqrt_floor(n as int) <= n as int);
            assert(sqrt_floor(n as int) <= 0x1_0000_0000) by (nonlinear_arith)
                requires
                    0 <= sqrt_floor(n as int),
                    sqrt_floor(n as int) * sqrt_floor(n as int) <= n as int,
                    n as int <= SAT_MAX as int,
                    (SAT_MAX as int) < 0x1_0000_0000 * 0x1_0000_0000,
            ;
        }
        r as i64
    }
}

/// Fixed-point division; a zero divisor yields zero.
pub fn fx_div(a: i64, b: i64) -> (r: i64)
    ensures
        r as int == div_fx(a as int, b as int),
{
    if b == 0 {
        return 0;
    }
    proof {
        assert(abs_int(a as int * SCALE as int) <= 0x8000_0000_0000_0000 * SCALE as int)
            by (nonlinear_arith)
            requires
                abs_int(a as int) <= 0x8000_0000_0000_0000,
        ;
    }
    let p = a as i128 * SCALE as i128;
    let mag_b = if b >= 0 {
        b as u128
    } else {
        (-(b as i128)) as u128
    };
    let q = div_trunc_i128(p, mag_b);
    if b >= 0 {
        q
    } else {
        fx_neg(q)
    }
}

} // verus!
