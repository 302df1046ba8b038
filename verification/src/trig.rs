//! Fixed-point circle functions.
//!
//! The sine is Bhaskara's rational approximation `16x(pi - x) / (5pi^2 -
//! 4x(pi - x))` on `[0, pi]`, extended to the whole line by the period and the
//! half-turn sign flip.  These functions are this library's definition of the
//! circle functions; their contracts pin the value exactly, not a distance to
//! the real functions.

use vstd::prelude::*;

use crate::fx::{fadd, fadd_s, fdiv, fdiv_s, fmul, fmul_s, fneg, fneg_s, fsub, fsub_s};

verus! {

/// A half turn.
pub const PI_FX: i64 = 3_141_592;

/// A quarter turn, exactly half of `PI_FX`.
pub const HALF_PI_FX: i64 = 1_570_796;

/// A full turn, exactly twice `PI_FX`.
pub const TAU_FX: i64 = 6_283_184;

/// Euclidean remainder: the unique `r` in `[0, m)` with `a = q * m + r`.
pub fn emod(a: i64, m: i64) -> (r: i64)
    requires
        m > 0,
    ensures
        r as int == (a as int) % (m as int),
        0 <= r < m,
{
    let um: u64 = m as u64;
    if a >= 0 {
        let r0: u64 = (a as u64) % um;
        r0 as i64
    } else {
        let x: u64 = (-(a as i128)) as u64;
        let rem: u64 = x % um;
        proof {
            let xi = x as int;
            let mi = m as int;
            let q = xi / mi;
            vstd::arithmetic::div_mod::lemma_fundamental_div_mod(xi, mi);
            if rem == 0 {
                assert(a as int == mi * (-q) + 0) by (nonlinear_arith)
                    requires
                        xi == mi * q + (rem as int),
                        rem == 0,
                        a as int == -xi,
                ;
                vstd::arithmetic::div_mod::lemma_fundamental_div_mod_converse(
                    a as int, mi, -q, 0);
            } else {
                assert(a as int == mi * (-q - 1) + (mi - rem)) by (nonlinear_arith)
                    requires
                        xi == mi * q + (rem as int),
                        a as int == -xi,
                ;
                vstd::arithmetic::div_mod::lemma_fundamental_div_mod_converse(
                    a as int, mi, -q - 1, mi - rem);
            }
        }
        if rem == 0 {
            0
        } else {
            m - (rem as i64)
        }
    }
}

/// Bhaskara's sine approximation, meaningful on `[0, PI_FX]`.
pub open spec fn bhaskara_s(x: i64) -> i64 {
    let p = fmul_s(x, fsub_s(PI_FX, x));
    let num = fmul_s(p, 16_000_000i64);
    let den = fsub_s(fmul_s(fmul_s(PI_FX, PI_FX), 5_000_000i64), fmul_s(p, 4_000_000i64));
    fdiv_s(num, den)
}

pub open spec fn sin_s(x: i64) -> i64 {
    let w = ((x as int) % (TAU_FX as int)) as i64;
    if w <= PI_FX {
        bhaskara_s(w)
    } else {
        fneg_s(bhaskara_s(fsub_s(w, PI_FX)))
    }
}

pub open spec fn cos_s(x: i64) -> i64 {
    sin_s(fadd_s(x, HALF_PI_FX))
}

pub open spec fn tan_s(x: i64) -> i64 {
    fdiv_s(sin_s(x), cos_s(x))
}

fn bhaskara(x: i64) -> (r: i64)
    ensures
        r == bhaskara_s(x),
{
    let p: i64 = fmul(x, fsub(PI_FX, x));
    let num: i64 = fmul(p, 16_000_000);
    let den: i64 = fsub(fmul(fmul(PI_FX, PI_FX), 5_000_000), fmul(p, 4_000_000));
    fdiv(num, den)
}

/// Fixed-point sine of an angle in radians.
pub fn sin_fx(x: i64) -> (r: i64)
    ensures
        r == sin_s(x),
{
    let w: i64 = emod(x, TAU_FX);
    if w <= PI_FX {
        bhaskara(w)
    } else {
        fneg(bhaskara(fsub(w, PI_FX)))
    }
}

/// Fixed-point cosine of an angle in radians.
pub fn cos_fx(x: i64) -> (r: i64)
    ensures
        r == cos_s(x),
{
    sin_fx(fadd(x, HALF_PI_FX))
}

/// Fixed-point tangent of an angle in radians.
pub fn tan_fx(x: i64) -> (r: i64)
    ensures
        r == tan_s(x),
{
    fdiv(sin_fx(x), cos_fx(x))
}

} // verus!
