//! Three-component fixed-point vectors, used both for points and for colors.

use vstd::prelude::*;

use crate::fx::{
    cl, clip, clip64, fadd, fadd_s, fdiv, fdiv_s, fmul, fmul_s, fneg, fneg_s, fsqrt, fsqrt_s,
    fsub, fsub_s, tdiv, tdiv128, fclamp, FX_MAX, SCALE,
};

verus! {

/// A vector of three fixed-point scalars.
#[derive(Clone, Copy, Debug, PartialEq, Eq, Structural)]
pub struct Vec3 {
    pub x: i64,
    pub y: i64,
    pub z: i64,
}

pub open spec fn v_add(a: Vec3, b: Vec3) -> Vec3 {
    Vec3 { x: fadd_s(a.x, b.x), y: fadd_s(a.y, b.y), z: fadd_s(a.z, b.z) }
}

pub open spec fn v_sub(a: Vec3, b: Vec3) -> Vec3 {
    Vec3 { x: fsub_s(a.x, b.x), y: fsub_s(a.y, b.y), z: fsub_s(a.z, b.z) }
}

pub open spec fn v_neg(a: Vec3) -> Vec3 {
    Vec3 { x: fneg_s(a.x), y: fneg_s(a.y), z: fneg_s(a.z) }
}

/// Multiply each component by the fixed-point scalar `k`.
pub open spec fn v_scale(a: Vec3, k: i64) -> Vec3 {
    Vec3 { x: fmul_s(a.x, k), y: fmul_s(a.y, k), z: fmul_s(a.z, k) }
}

/// Divide each component by the fixed-point scalar `k`.
pub open spec fn v_div(a: Vec3, k: i64) -> Vec3 {
    Vec3 { x: fdiv_s(a.x, k), y: fdiv_s(a.y, k), z: fdiv_s(a.z, k) }
}

/// Component-wise product; attenuation of one color by another.
pub open spec fn v_hadamard(a: Vec3, b: Vec3) -> Vec3 {
    Vec3 { x: fmul_s(a.x, b.x), y: fmul_s(a.y, b.y), z: fmul_s(a.z, b.z) }
}

/// Dot product, with a single truncating division by `SCALE`.  Components are
/// clamped into the representable band before multiplying.
pub open spec fn v_dot(a: Vec3, b: Vec3) -> i64 {
    clip(
        tdiv(
            cl(a.x) * cl(b.x) + cl(a.y) * cl(b.y) + cl(a.z) * cl(b.z),
            SCALE as int,
        ),
    ) as i64
}

pub open spec fn v_cross(a: Vec3, b: Vec3) -> Vec3 {
    Vec3 {
        x: fsub_s(fmul_s(a.y, b.z), fmul_s(a.z, b.y)),
        y: fsub_s(fmul_s(a.z, b.x), fmul_s(a.x, b.z)),
        z: fsub_s(fmul_s(a.x, b.y), fmul_s(a.y, b.x)),
    }
}

pub open spec fn v_magnitude2(a: Vec3) -> i64 {
    v_dot(a, a)
}

pub open spec fn v_magnitude(a: Vec3) -> i64 {
    fsqrt_s(v_dot(a, a))
}

/// Scale to unit length; the zero vector (or one whose truncated square
/// magnitude is zero) maps to the zero vector.
pub open spec fn v_normalize(a: Vec3) -> Vec3 {
    v_div(a, v_magnitude(a))
}

/// Linear interpolation `a + (b - a) * t`, where `t` is a fixed-point scalar.
pub open spec fn v_lerp(a: Vec3, b: Vec3, t: i64) -> Vec3 {
    v_add(a, v_scale(v_sub(b, a), t))
}

impl Vec3 {
    pub fn new(x: i64, y: i64, z: i64) -> (r: Vec3)
        ensures
            r == (Vec3 { x, y, z }),
    {
        Vec3 { x, y, z }
    }

    pub fn zero() -> (r: Vec3)
        ensures
            r == (Vec3 { x: 0i64, y: 0i64, z: 0i64 }),
    {
        Vec3 { x: 0, y: 0, z: 0 }
    }

    pub fn add(&self, other: &Vec3) -> (r: Vec3)
        ensures
            r == v_add(*self, *other),
    {
        Vec3 { x: fadd(self.x, other.x), y: fadd(self.y, other.y), z: fadd(self.z, other.z) }
    }

    pub fn sub(&self, other: &Vec3) -> (r: Vec3)
        ensures
            r == v_sub(*self, *other),
    {
        Vec3 { x: fsub(self.x, other.x), y: fsub(self.y, other.y), z: fsub(self.z, other.z) }
    }

    pub fn neg(&self) -> (r: Vec3)
        ensures
            r == v_neg(*self),
    {
        Vec3 { x: fneg(self.x), y: fneg(self.y), z: fneg(self.z) }
    }

    pub fn scale(&self, k: i64) -> (r: Vec3)
        ensures
            r == v_scale(*self, k),
    {
        Vec3 { x: fmul(self.x, k), y: fmul(self.y, k), z: fmul(self.z, k) }
    }

    pub fn div_by(&self, k: i64) -> (r: Vec3)
        ensures
            r == v_div(*self, k),
    {
        Vec3 { x: fdiv(self.x, k), y: fdiv(self.y, k), z: fdiv(self.z, k) }
    }

    pub fn hadamard(&self, other: &Vec3) -> (r: Vec3)
        ensures
            r == v_hadamard(*self, *other),
    {
        Vec3 { x: fmul(self.x, other.x), y: fmul(self.y, other.y), z: fmul(self.z, other.z) }
    }

    pub fn dot(&self, other: &Vec3) -> (r: i64)
        ensures
            r == v_dot(*self, *other),
    {
        let ax: i64 = fclamp(self.x);
        let ay: i64 = fclamp(self.y);
        let az: i64 = fclamp(self.z);
        let bx: i64 = fclamp(other.x);
        let by: i64 = fclamp(other.y);
        let bz: i64 = fclamp(other.z);
        proof {
            lemma_band_product(ax as int, bx as int);
            lemma_band_product(ay as int, by as int);
            lemma_band_product(az as int, bz as int);
        }
        let px: i128 = (ax as i128) * (bx as i128);
        let py: i128 = (ay as i128) * (by as i128);
        let pz: i128 = (az as i128) * (bz as i128);
        let total: i128 = px + py + pz;
        clip64(tdiv128(total, SCALE as i128))
    }

    pub fn cross(&self, other: &Vec3) -> (r: Vec3)
        ensures
            r == v_cross(*self, *other),
    {
        Vec3 {
            x: fsub(fmul(self.y, other.z), fmul(self.z, other.y)),
            y: fsub(fmul(self.z, other.x), fmul(self.x, other.z)),
            z: fsub(fmul(self.x, other.y), fmul(self.y, other.x)),
        }
    }

    pub fn magnitude2(&self) -> (r: i64)
        ensures
            r == v_magnitude2(*self),
    {
        self.dot(self)
    }

    pub fn magnitude(&self) -> (r: i64)
        ensures
            r == v_magnitude(*self),
    {
        fsqrt(self.dot(self))
    }

    pub fn normalize(&self) -> (r: Vec3)
        ensures
            r == v_normalize(*self),
    {
        let m: i64 = self.magnitude();
        self.div_by(m)
    }

    pub fn lerp(&self, other: &Vec3, t: i64) -> (r: Vec3)
        ensures
            r == v_lerp(*self, *other, t),
    {
        let d: Vec3 = other.sub(self);
        self.add(&d.scale(t))
    }
}

/// A vector of length one along the y axis is its own normalization: its
/// squared magnitude, square root, and the component divisions are all exact.
pub proof fn lemma_normalize_unit_y(a: Vec3)
    requires
        a.x == 0,
        a.z == 0,
        a.y == SCALE || a.y == -SCALE,
    ensures
        v_normalize(a) == a,
{
    assert(cl(a.y) == a.y);
    assert(cl(a.y) * cl(a.y) == 1_000_000_000_000int) by (nonlinear_arith)
        requires
            cl(a.y) == 1_000_000i64 || cl(a.y) == -1_000_000i64,
    ;
    assert(cl(a.x) * cl(a.x) == 0int) by (nonlinear_arith)
        requires
            cl(a.x) == 0i64,
    ;
    assert(cl(a.z) * cl(a.z) == 0int) by (nonlinear_arith)
        requires
            cl(a.z) == 0i64,
    ;
    assert(1_000_000_000_000int / 1_000_000int == 1_000_000int);
    assert(tdiv(1_000_000_000_000int, SCALE as int) == 1_000_000int);
    assert(v_dot(a, a) == 1_000_000i64);
    assert((1_000_000i64 as int) * (SCALE as int) == 1_000_000_000_000int);
    crate::fx::lemma_isqrt(1_000_000_000_000int);
    crate::fx::lemma_isqrt_unique(
        1_000_000_000_000int,
        crate::fx::isqrt_s(1_000_000_000_000int),
        1_000_000int,
    );
    assert(v_magnitude(a) == 1_000_000i64);
    assert((a.y as int) * (SCALE as int) == 1_000_000_000_000int || (a.y as int) * (
    SCALE as int) == -1_000_000_000_000int) by (nonlinear_arith)
        requires
            a.y == 1_000_000i64 || a.y == -1_000_000i64,
            (SCALE as int) == 1_000_000int,
    ;
    assert(fdiv_s(a.y, 1_000_000i64) == a.y);
    assert(fdiv_s(0i64, 1_000_000i64) == 0i64);
}

/// The product of two scalars from the representable band stays well inside `i128`.
proof fn lemma_band_product(a: int, b: int)
    requires
        -(FX_MAX as int) <= a <= FX_MAX as int,
        -(FX_MAX as int) <= b <= FX_MAX as int,
    ensures
        -(0x1000_0000_0000_0000_0000_0000_0000_0000int) < a * b
            < 0x1000_0000_0000_0000_0000_0000_0000_0000int,
{
    assert(-(0x1000_0000_0000_0000_0000_0000_0000_0000int) < a * b
        < 0x1000_0000_0000_0000_0000_0000_0000_0000int) by (nonlinear_arith)
        requires
            -(0x3fff_ffff_ffff_ffffint) <= a <= 0x3fff_ffff_ffff_ffffint,
            -(0x3fff_ffff_ffff_ffffint) <= b <= 0x3fff_ffff_ffff_ffffint,
    ;
}

} // verus!
