//! Saturating fixed-point scalars.
//!
//! A scalar `x: i64` stands for the real number `x / SCALE`.  All operations
//! are total: results are clamped into `[-FX_MAX, FX_MAX]`, division truncates
//! toward zero and treats a zero divisor as yielding zero, and the square root
//! of a non-positive value is zero.  Each executable operation returns exactly
//! the value of its spec-level counterpart.

use vstd::prelude::*;

verus! {

/// Fixed-point steps per unit.
pub const SCALE: i64 = 1_000_000;

/// Saturation bound (`2^62 - 1`); all operations clamp their result here.
pub const FX_MAX: i64 = 0x3fff_ffff_ffff_ffff;

/// Clamp a mathematical integer into the representable band.
pub open spec fn clip(x: int) -> int {
    if x > FX_MAX as int {
        FX_MAX as int
    } else if x < -(FX_MAX as int) {
        -(FX_MAX as int)
    } else {
        x
    }
}

/// Division truncated toward zero; division by zero yields zero.
pub open spec fn tdiv(a: int, b: int) -> int {
    if b == 0 {
        0
    } else if a >= 0 && b > 0 {
        a / b
    } else if a < 0 && b > 0 {
        -((-a) / b)
    } else if a >= 0 {
        -(a / (-b))
    } else {
        (-a) / (-b)
    }
}

/// Clamp a raw `i64` into the representable band.
pub open spec fn cl(a: i64) -> i64 {
    clip(a as int) as i64
}

pub open spec fn fadd_s(a: i64, b: i64) -> i64 {
    clip(a + b) as i64
}

pub open spec fn fsub_s(a: i64, b: i64) -> i64 {
    clip(a - b) as i64
}

pub open spec fn fneg_s(a: i64) -> i64 {
    clip(-a) as i64
}

pub open spec fn fmul_s(a: i64, b: i64) -> i64 {
    clip(tdiv(a * b, SCALE as int)) as i64
}

pub open spec fn fdiv_s(a: i64, b: i64) -> i64 {
    clip(tdiv(a * (SCALE as int), b as int)) as i64
}

/// `r` is the integer square root of `n`.
pub open spec fn is_isqrt(n: int, r: int) -> bool {
    0 <= r && r * r <= n && n < (r + 1) * (r + 1)
}

/// Integer square root of `n`, zero for `n <= 0`.
pub open spec fn isqrt_s(n: int) -> int
    decreases n,
{
    if n <= 0 {
        0
    } else {
        let r = isqrt_s(n - 1);
        if (r + 1) * (r + 1) <= n {
            r + 1
        } else {
            r
        }
    }
}

/// Fixed-point square root: `fsqrt_s(a) / SCALE` approximates `sqrt(a / SCALE)`.
pub open spec fn fsqrt_s(a: i64) -> i64 {
    if a <= 0 {
        0
    } else {
        isqrt_s(a * (SCALE as int)) as i64
    }
}

pub proof fn lemma_isqrt(n: int)
    requires
        n >= 0,
    ensures
        is_isqrt(n, isqrt_s(n)),
    decreases n,
{
    if n == 0 {
        assert(isqrt_s(0) == 0);
    } else {
        lemma_isqrt(n - 1);
        let r = isqrt_s(n - 1);
        if (r + 1) * (r + 1) <= n {
            assert((r + 2) * (r + 2) > n) by (nonlinear_arith)
                requires
                    r >= 0,
                    n - 1 < (r + 1) * (r + 1),
            ;
        }
    }
}

pub proof fn lemma_isqrt_unique(n: int, r1: int, r2: int)
    requires
        is_isqrt(n, r1),
        is_isqrt(n, r2),
    ensures
        r1 == r2,
{
    assert(r1 == r2) by (nonlinear_arith)
        requires
            0 <= r1,
            0 <= r2,
            r1 * r1 <= n,
            n < (r1 + 1) * (r1 + 1),
            r2 * r2 <= n,
            n < (r2 + 1) * (r2 + 1),
    ;
}

/// Truncating division by a non-negative divisor is monotone in the numerator.
pub proof fn lemma_tdiv_mono(a1: int, a2: int, b: int)
    requires
        a1 <= a2,
        b >= 0,
    ensures
        tdiv(a1, b) <= tdiv(a2, b),
{
    if b > 0 {
        if a1 >= 0 {
            vstd::arithmetic::div_mod::lemma_div_is_ordered(a1, a2, b);
        } else if a2 >= 0 {
            vstd::arithmetic::div_mod::lemma_div_pos_is_pos(-a1, b);
            vstd::arithmetic::div_mod::lemma_div_pos_is_pos(a2, b);
        } else {
            vstd::arithmetic::div_mod::lemma_div_is_ordered(-a2, -a1, b);
        }
    }
}

/// When `b` divides `a` evenly, truncating division agrees with Euclidean
/// division and loses nothing.
pub proof fn lemma_tdiv_exact(a: int, b: int)
    requires
        b > 0,
        a % b == 0,
    ensures
        tdiv(a, b) == a / b,
        b * tdiv(a, b) == a,
{
    vstd::arithmetic::div_mod::lemma_fundamental_div_mod(a, b);
    if a < 0 {
        let q = a / b;
        assert(a == b * q);
        assert(-a == b * (-q)) by (nonlinear_arith)
            requires
                a == b * q,
        ;
        vstd::arithmetic::div_mod::lemma_div_multiples_vanish(-q, b);
        assert((-a) / b == -q);
    }
}

pub(crate) fn clip64(x: i128) -> (r: i64)
    ensures
        r as int == clip(x as int),
{
    if x > FX_MAX as i128 {
        FX_MAX
    } else if x < -(FX_MAX as i128) {
        -FX_MAX
    } else {
        x as i64
    }
}

pub(crate) fn tdiv128(a: i128, b: i128) -> (r: i128)
    requires
        a != i128::MIN,
        b != i128::MIN,
    ensures
        r as int == tdiv(a as int, b as int),
{
    let ua: u128 = if a >= 0 {
        a as u128
    } else {
        (-a) as u128
    };
    let ub: u128 = if b >= 0 {
        b as u128
    } else {
        (-b) as u128
    };
    if ub == 0 {
        return 0;
    }
    let uq: u128 = ua / ub;
    assert(uq <= ua) by (nonlinear_arith)
        requires
            ub >= 1,
            uq == ua / ub,
    ;
    let q: i128 = uq as i128;
    if (a < 0) != (b < 0) {
        -q
    } else {
        q
    }
}

/// Clamp a raw `i64` into the representable band.
pub fn fclamp(a: i64) -> (r: i64)
    ensures
        r == cl(a),
{
    if a > FX_MAX {
        FX_MAX
    } else if a < -FX_MAX {
        -FX_MAX
    } else {
        a
    }
}

/// Saturating fixed-point addition.
pub fn fadd(a: i64, b: i64) -> (r: i64)
    ensures
        r == fadd_s(a, b),
{
    clip64(a as i128 + b as i128)
}

/// Saturating fixed-point subtraction.
pub fn fsub(a: i64, b: i64) -> (r: i64)
    ensures
        r == fsub_s(a, b),
{
    clip64(a as i128 - b as i128)
}

/// Saturating fixed-point negation.
pub fn fneg(a: i64) -> (r: i64)
    ensures
        r == fneg_s(a),
{
    clip64(-(a as i128))
}

/// Saturating fixed-point multiplication, truncated toward zero.
pub fn fmul(a: i64, b: i64) -> (r: i64)
    ensures
        r == fmul_s(a, b),
{
    proof {
        assert(-0x4000_0000_0000_0000_0000_0000_0000_0000 <= (a as int) * (b as int)
            <= 0x4000_0000_0000_0000_0000_0000_0000_0000) by (nonlinear_arith)
            requires
                -(0x8000_0000_0000_0000int) <= (a as int),
                (a as int) < 0x8000_0000_0000_0000int,
                -(0x8000_0000_0000_0000int) <= (b as int),
                (b as int) < 0x8000_0000_0000_0000int,
        ;
    }
    let p: i128 = (a as i128) * (b as i128);
    clip64(tdiv128(p, SCALE as i128))
}

/// Saturating fixed-point division, truncated toward zero; zero divisor yields zero.
pub fn fdiv(a: i64, b: i64) -> (r: i64)
    ensures
        r == fdiv_s(a, b),
{
    proof {
        assert(-(0x8000_0000_0000_0000int) * 0x1000_0000 <= (a as int) * (SCALE as int)
            <= 0x8000_0000_0000_0000int * 0x1000_0000) by (nonlinear_arith)
            requires
                -(0x8000_0000_0000_0000int) <= (a as int),
                (a as int) < 0x8000_0000_0000_0000int,
                0 < (SCALE as int),
                (SCALE as int) <= 0x1000_0000int,
        ;
    }
    let p: i128 = (a as i128) * (SCALE as i128);
    clip64(tdiv128(p, b as i128))
}

pub(crate) fn isqrt_u(n: u128) -> (r: u64)
    ensures
        is_isqrt(n as int, r as int),
{
    let mut lo: u128 = 0;
    let mut hi: u128 = 0x1_0000_0000_0000_0000;
    assert((hi as int) * (hi as int) > n as int) by (nonlinear_arith)
        requires
            hi == 0x1_0000_0000_0000_0000u128,
            n <= u128::MAX,
    ;
    while lo + 1 < hi
        invariant
            0 <= lo < hi <= 0x1_0000_0000_0000_0000u128,
            (lo as int) * (lo as int) <= n as int,
            (hi as int) * (hi as int) > n as int,
        decreases hi - lo,
    {
        let mid: u128 = lo + (hi - lo) / 2;
        proof {
            assert((mid as int) * (mid as int) <= u128::MAX as int) by (nonlinear_arith)
                requires
                    0 <= (mid as int),
                    (mid as int) < 0x1_0000_0000_0000_0000int,
            ;
        }
        let sq: u128 = mid * mid;
        if sq <= n {
            lo = mid;
        } else {
            hi = mid;
        }
    }
    lo as u64
}

/// Fixed-point square root; non-positive arguments yield zero.
pub fn fsqrt(a: i64) -> (r: i64)
    ensures
        r == fsqrt_s(a),
{
    if a <= 0 {
        0
    } else {
        proof {
            assert((a as int) * (SCALE as int) <= 0x8000_0000_0000_0000int * 0x1000_0000)
                by (nonlinear_arith)
                requires
                    0 < (a as int),
                    (a as int) < 0x8000_0000_0000_0000int,
                    0 < (SCALE as int),
                    (SCALE as int) <= 0x1000_0000int,
            ;
        }
        let n: u128 = (a as u128) * (SCALE as u128);
        let q: u64 = isqrt_u(n);
        proof {
            lemma_isqrt(n as int);
            lemma_isqrt_unique(n as int, q as int, isqrt_s(n as int));
            assert((q as int) < 0x4_0000_0000_0000) by (nonlinear_arith)
                requires
                    0 <= q as int,
                    (q as int) * (q as int) <= n as int,
                    n as int <= 0x7fff_ffff_ffff_ffff * 0x1000_0000,
            ;
        }
        q as i64
    }
}

} // verus!
