//! Textures and material scattering.

use vstd::prelude::*;

use crate::fx::{
    cl, fadd, fadd_s, fdiv, fdiv_s, fmul, fmul_s, fneg, fneg_s, fsqrt, fsqrt_s, fsub, fsub_s,
    SCALE,
};
use crate::ray::Ray;
use crate::rng::{rng_peek, rng_step, RandomSource};
use crate::shade_record::ShadeRecord;
use crate::trig::{cos_s, cos_fx, sin_s, sin_fx, TAU_FX};
use crate::vec3::{
    v_add, v_dot, v_magnitude, v_neg, v_normalize, v_scale, v_sub, Vec3,
};

verus! {

/// A color as a function of a surface point: either a constant color or a
/// three-dimensional checker pattern choosing between two child textures.
pub enum Texture {
    Constant { color: Vec3 },
    Checkerboard { left: Box<Texture>, right: Box<Texture> },
}

impl Clone for Texture {
    fn clone(&self) -> (res: Texture)
        ensures
            res == *self,
        decreases *self,
    {
        match self {
            Texture::Constant { color } => Texture::Constant { color: *color },
            Texture::Checkerboard { left, right } => Texture::Checkerboard {
                left: Box::new((**left).clone()),
                right: Box::new((**right).clone()),
            },
        }
    }
}

/// The sign expression that drives the checker pattern:
/// `sin(10 x) * sin(10 y) * sin(10 z)` over the components of `point`.
pub open spec fn checker_sines_s(point: Vec3) -> i64 {
    fmul_s(
        fmul_s(
            sin_s(fmul_s(10_000_000i64, point.x)),
            sin_s(fmul_s(10_000_000i64, point.y)),
        ),
        sin_s(fmul_s(10_000_000i64, point.z)),
    )
}

/// The color of a texture at a surface point; `u` and `v` are part of the
/// interface but unused by both variants.
pub open spec fn texture_value_s(t: Texture, u: i64, v: i64, point: Vec3) -> Vec3
    decreases t,
{
    match t {
        Texture::Constant { color } => color,
        Texture::Checkerboard { left, right } => {
            if checker_sines_s(point) < 0 {
                texture_value_s(*left, u, v, point)
            } else {
                texture_value_s(*right, u, v, point)
            }
        },
    }
}

/// Every color stored in the texture tree lies in `[0, SCALE]` per channel.
pub open spec fn texture_wf(t: Texture) -> bool
    decreases t,
{
    match t {
        Texture::Constant { color } => color_wf(color),
        Texture::Checkerboard { left, right } => texture_wf(*left) && texture_wf(*right),
    }
}

/// Each channel lies in the unit interval `[0, SCALE]`.
pub open spec fn color_wf(c: Vec3) -> bool {
    &&& 0 <= c.x <= SCALE
    &&& 0 <= c.y <= SCALE
    &&& 0 <= c.z <= SCALE
}

/// A well-formed texture only ever evaluates to well-formed colors.
pub proof fn lemma_texture_value_wf(t: Texture, u: i64, v: i64, point: Vec3)
    requires
        texture_wf(t),
    ensures
        color_wf(texture_value_s(t, u, v, point)),
    decreases t,
{
    match t {
        Texture::Constant { color } => {},
        Texture::Checkerboard { left, right } => {
            lemma_texture_value_wf(*left, u, v, point);
            lemma_texture_value_wf(*right, u, v, point);
        },
    }
}

impl Texture {
    /// Evaluate the texture at a surface point.
    pub fn value(&self, u: i64, v: i64, point: &Vec3) -> (r: Vec3)
        ensures
            r == texture_value_s(*self, u, v, *point),
        decreases *self,
    {
        match self {
            Texture::Constant { color } => *color,
            Texture::Checkerboard { left, right } => {
                let sx: i64 = sin_fx(fmul(10_000_000, point.x));
                let sy: i64 = sin_fx(fmul(10_000_000, point.y));
                let sz: i64 = sin_fx(fmul(10_000_000, point.z));
                let sines: i64 = fmul(fmul(sx, sy), sz);
                if sines < 0 {
                    left.value(u, v, point)
                } else {
                    right.value(u, v, point)
                }
            },
        }
    }
}

/// The scattering policy of a surface.
pub enum Material {
    Lambertian { texture: Texture },
    Metallic { r: i64, g: i64, b: i64 },
    Dielectric { refractive_index: i64 },
}

impl Clone for Material {
    fn clone(&self) -> (res: Material)
        ensures
            res == *self,
    {
        match self {
            Material::Lambertian { texture } => Material::Lambertian {
                texture: texture.clone(),
            },
            Material::Metallic { r, g, b } => Material::Metallic { r: *r, g: *g, b: *b },
            Material::Dielectric { refractive_index } => Material::Dielectric {
                refractive_index: *refractive_index,
            },
        }
    }
}

/// Colors carried by a material lie in `[0, SCALE]` per channel.
pub open spec fn material_wf(m: Material) -> bool {
    match m {
        Material::Lambertian { texture } => texture_wf(texture),
        Material::Metallic { r, g, b } => color_wf(Vec3 { x: r, y: g, z: b }),
        Material::Dielectric { refractive_index } => true,
    }
}

/// Mirror reflection about a normal: `v - n * (2 * dot(v, n))`.
pub open spec fn reflect_s(v: Vec3, n: Vec3) -> Vec3 {
    let d = v_dot(v, n);
    v_sub(v, v_scale(n, fadd_s(d, d)))
}

/// Mirror reflection of `v` about the normal `n`.
pub fn reflected_vector(v: &Vec3, n: &Vec3) -> (r: Vec3)
    ensures
        r == reflect_s(*v, *n),
{
    let d: i64 = v.dot(n);
    v.sub(&n.scale(fadd(d, d)))
}

/// The exact integer dot product of the raw components, before the scale
/// division.
pub open spec fn raw_dot(a: Vec3, b: Vec3) -> int {
    a.x * b.x + a.y * b.y + a.z * b.z
}

/// Reflection is its own inverse: `reflect(reflect(v, n), n) == v` for a
/// unit normal `n`, wherever the fixed-point products and divisions involved
/// are exact and stay in band.  The exactness hypotheses ask that the scale
/// divide the raw dot product `v . n` and each component of `2 (v . n) n`;
/// an axis-aligned unit normal satisfies them for every `v`.
pub proof fn lemma_reflect_involution(v: Vec3, n: Vec3)
    requires
        raw_dot(n, n) == 1_000_000_000_000,
        raw_dot(v, n) % (SCALE as int) == 0,
        (2 * (raw_dot(v, n) / (SCALE as int)) * n.x) % (SCALE as int) == 0,
        (2 * (raw_dot(v, n) / (SCALE as int)) * n.y) % (SCALE as int) == 0,
        (2 * (raw_dot(v, n) / (SCALE as int)) * n.z) % (SCALE as int) == 0,
        -1_000_000_000_000 <= v.x <= 1_000_000_000_000,
        -1_000_000_000_000 <= v.y <= 1_000_000_000_000,
        -1_000_000_000_000 <= v.z <= 1_000_000_000_000,
    ensures
        reflect_s(reflect_s(v, n), n) == v,
{
    let s = SCALE as int;
    let dd = raw_dot(v, n);
    let d = dd / s;

    // Each normal component is bounded by the scale.
    assert(n.x * n.x >= 0 && n.y * n.y >= 0 && n.z * n.z >= 0) by (nonlinear_arith)
        requires
            true,
    ;
    assert(-1_000_000 <= n.x <= 1_000_000) by (nonlinear_arith)
        requires
            n.x * n.x <= 1_000_000_000_000,
    ;
    assert(-1_000_000 <= n.y <= 1_000_000) by (nonlinear_arith)
        requires
            n.y * n.y <= 1_000_000_000_000,
    ;
    assert(-1_000_000 <= n.z <= 1_000_000) by (nonlinear_arith)
        requires
            n.z * n.z <= 1_000_000_000_000,
    ;
    assert(cl(v.x) == v.x && cl(v.y) == v.y && cl(v.z) == v.z);
    assert(cl(n.x) == n.x && cl(n.y) == n.y && cl(n.z) == n.z);

    // The first dot product is exact: dot(v, n) == d with |d| <= 3e12.
    assert(-1_000_000_000_000_000_000 <= v.x * n.x <= 1_000_000_000_000_000_000)
        by (nonlinear_arith)
        requires
            -1_000_000_000_000 <= v.x <= 1_000_000_000_000,
            -1_000_000 <= n.x <= 1_000_000,
    ;
    assert(-1_000_000_000_000_000_000 <= v.y * n.y <= 1_000_000_000_000_000_000)
        by (nonlinear_arith)
        requires
            -1_000_000_000_000 <= v.y <= 1_000_000_000_000,
            -1_000_000 <= n.y <= 1_000_000,
    ;
    assert(-1_000_000_000_000_000_000 <= v.z * n.z <= 1_000_000_000_000_000_000)
        by (nonlinear_arith)
        requires
            -1_000_000_000_000 <= v.z <= 1_000_000_000_000,
            -1_000_000 <= n.z <= 1_000_000,
    ;
    crate::fx::lemma_tdiv_exact(dd, s);
    assert(-3_000_000_000_000 <= d <= 3_000_000_000_000) by (nonlinear_arith)
        requires
            1_000_000 * d == dd,
            -3_000_000_000_000_000_000 <= dd <= 3_000_000_000_000_000_000,
    ;
    assert(v_dot(v, n) == d as i64);
    let k = fadd_s(v_dot(v, n), v_dot(v, n));
    assert(k == 2 * d);

    // The perturbation (2 d / SCALE) n is exact per component.
    assert(n.x * (2 * d) == 2 * d * n.x && n.y * (2 * d) == 2 * d * n.y && n.z * (2 * d) == 2 * d
        * n.z) by (nonlinear_arith)
        requires
            true,
    ;
    crate::fx::lemma_tdiv_exact(n.x * (2 * d), s);
    crate::fx::lemma_tdiv_exact(n.y * (2 * d), s);
    crate::fx::lemma_tdiv_exact(n.z * (2 * d), s);
    let ex = n.x * (2 * d) / s;
    let ey = n.y * (2 * d) / s;
    let ez = n.z * (2 * d) / s;
    assert(-6_000_000_000_000 <= ex <= 6_000_000_000_000) by (nonlinear_arith)
        requires
            1_000_000 * ex == n.x * (2 * d),
            -1_000_000 <= n.x <= 1_000_000,
            -3_000_000_000_000 <= d <= 3_000_000_000_000,
    ;
    assert(-6_000_000_000_000 <= ey <= 6_000_000_000_000) by (nonlinear_arith)
        requires
            1_000_000 * ey == n.y * (2 * d),
            -1_000_000 <= n.y <= 1_000_000,
            -3_000_000_000_000 <= d <= 3_000_000_000_000,
    ;
    assert(-6_000_000_000_000 <= ez <= 6_000_000_000_000) by (nonlinear_arith)
        requires
            1_000_000 * ez == n.z * (2 * d),
            -1_000_000 <= n.z <= 1_000_000,
            -3_000_000_000_000 <= d <= 3_000_000_000_000,
    ;
    let r1 = reflect_s(v, n);
    assert(r1.x == v.x - ex && r1.y == v.y - ey && r1.z == v.z - ez);

    // The second dot product is exactly the negation of the first.
    assert(s * (ex * n.x) == 2 * d * (n.x * n.x)) by (nonlinear_arith)
        requires
            s * ex == n.x * (2 * d),
    ;
    assert(s * (ey * n.y) == 2 * d * (n.y * n.y)) by (nonlinear_arith)
        requires
            s * ey == n.y * (2 * d),
    ;
    assert(s * (ez * n.z) == 2 * d * (n.z * n.z)) by (nonlinear_arith)
        requires
            s * ez == n.z * (2 * d),
    ;
    assert(s * (ex * n.x + ey * n.y + ez * n.z) == 2 * d * (n.x * n.x + n.y * n.y + n.z
        * n.z)) by (nonlinear_arith)
        requires
            s * (ex * n.x) == 2 * d * (n.x * n.x),
            s * (ey * n.y) == 2 * d * (n.y * n.y),
            s * (ez * n.z) == 2 * d * (n.z * n.z),
    ;
    assert(ex * n.x + ey * n.y + ez * n.z == 2 * d * 1_000_000) by (nonlinear_arith)
        requires
            1_000_000 * (ex * n.x + ey * n.y + ez * n.z) == 2 * d * 1_000_000_000_000,
    ;
    let dd2 = raw_dot(r1, n);
    assert(dd2 == dd - (ex * n.x + ey * n.y + ez * n.z)) by (nonlinear_arith)
        requires
            dd2 == (v.x - ex) * n.x + (v.y - ey) * n.y + (v.z - ez) * n.z,
            dd == v.x * n.x + v.y * n.y + v.z * n.z,
    ;
    assert(dd2 == (-d) * s) by (nonlinear_arith)
        requires
            dd2 == dd - 2 * d * 1_000_000,
            dd == 1_000_000 * d,
            s == 1_000_000,
    ;
    assert(dd2 % s == 0) by {
        vstd::arithmetic::div_mod::lemma_mod_multiples_basic(-d, s);
    }
    crate::fx::lemma_tdiv_exact(dd2, s);
    assert(dd2 / s == -d) by {
        vstd::arithmetic::div_mod::lemma_div_multiples_vanish(-d, s);
        assert(dd2 == s * (-d)) by (nonlinear_arith)
            requires
                dd2 == (-d) * s,
        ;
    }
    assert(v_dot(r1, n) == (-d) as i64);
    let k2 = fadd_s(v_dot(r1, n), v_dot(r1, n));
    assert(k2 == 2 * (-d));

    // The second perturbation is exactly the negation of the first.
    assert(n.x * (2 * -d) == s * (-ex)) by (nonlinear_arith)
        requires
            s * ex == n.x * (2 * d),
    ;
    assert(n.y * (2 * -d) == s * (-ey)) by (nonlinear_arith)
        requires
            s * ey == n.y * (2 * d),
    ;
    assert(n.z * (2 * -d) == s * (-ez)) by (nonlinear_arith)
        requires
            s * ez == n.z * (2 * d),
    ;
    assert(n.x * (2 * -d) % s == 0 && n.x * (2 * -d) / s == -ex) by {
        vstd::arithmetic::div_mod::lemma_mod_multiples_basic(-ex, s);
        vstd::arithmetic::div_mod::lemma_div_multiples_vanish(-ex, s);
        assert(n.x * (2 * -d) == (-ex) * s) by (nonlinear_arith)
            requires
                n.x * (2 * -d) == s * (-ex),
        ;
    }
    assert(n.y * (2 * -d) % s == 0 && n.y * (2 * -d) / s == -ey) by {
        vstd::arithmetic::div_mod::lemma_mod_multiples_basic(-ey, s);
        vstd::arithmetic::div_mod::lemma_div_multiples_vanish(-ey, s);
        assert(n.y * (2 * -d) == (-ey) * s) by (nonlinear_arith)
            requires
                n.y * (2 * -d) == s * (-ey),
        ;
    }
    assert(n.z * (2 * -d) % s == 0 && n.z * (2 * -d) / s == -ez) by {
        vstd::arithmetic::div_mod::lemma_mod_multiples_basic(-ez, s);
        vstd::arithmetic::div_mod::lemma_div_multiples_vanish(-ez, s);
        assert(n.z * (2 * -d) == (-ez) * s) by (nonlinear_arith)
            requires
                n.z * (2 * -d) == s * (-ez),
        ;
    }
    crate::fx::lemma_tdiv_exact(n.x * (2 * -d), s);
    crate::fx::lemma_tdiv_exact(n.y * (2 * -d), s);
    crate::fx::lemma_tdiv_exact(n.z * (2 * -d), s);
    let r2 = reflect_s(r1, n);
    assert(r2.x == (v.x - ex) - (-ex) && r2.y == (v.y - ey) - (-ey) && r2.z == (v.z - ez) - (
    -ez));
    assert(r2 == v);
}

/// Fifth power, by repeated fixed-point multiplication.
pub open spec fn pow5_s(x: i64) -> i64 {
    fmul_s(fmul_s(fmul_s(fmul_s(x, x), x), x), x)
}

/// Schlick's reflectance approximation:
/// `r0 + (1 - r0) * (1 - cosine)^5` with `r0 = ((1 - n) / (1 + n))^2`.
pub open spec fn reflect_probability_s(cosine: i64, refractive_index: i64) -> i64 {
    let r0a = fdiv_s(fsub_s(SCALE, refractive_index), fadd_s(SCALE, refractive_index));
    let r0 = fmul_s(r0a, r0a);
    fadd_s(r0, fmul_s(fsub_s(SCALE, r0), pow5_s(fsub_s(SCALE, cosine))))
}

/// Probability that a dielectric reflects rather than refracts.
pub fn generate_reflect_probability(cosine: i64, refractive_index: i64) -> (r: i64)
    ensures
        r == reflect_probability_s(cosine, refractive_index),
{
    let r0a: i64 = fdiv(fsub(SCALE, refractive_index), fadd(SCALE, refractive_index));
    let r0: i64 = fmul(r0a, r0a);
    let d: i64 = fsub(SCALE, cosine);
    let p5: i64 = fmul(fmul(fmul(fmul(d, d), d), d), d);
    fadd(r0, fmul(fsub(SCALE, r0), p5))
}

/// At normal incidence (`cosine == SCALE`, i.e. 1) the Schlick reflectance is
/// exactly `r0 = ((1 - n) / (1 + n))^2`: the `(1 - cosine)^5` term vanishes.
pub proof fn lemma_reflectance_normal_incidence(refractive_index: i64)
    ensures
        reflect_probability_s(SCALE, refractive_index) == ({
            let r0a = fdiv_s(fsub_s(SCALE, refractive_index), fadd_s(SCALE, refractive_index));
            fmul_s(r0a, r0a)
        }),
{
    assert(fsub_s(SCALE, SCALE) == 0);
    assert(pow5_s(0) == 0);
}

/// Snell refraction of `v` about the normal `n`; `None` means total internal
/// reflection (non-positive refraction discriminant).
pub open spec fn refract_s(v: Vec3, n: Vec3, ni_over_nt: i64) -> Option<Vec3> {
    let uv = v_normalize(v);
    let dt = v_dot(uv, n);
    let disc = fsub_s(
        SCALE,
        fmul_s(fmul_s(ni_over_nt, ni_over_nt), fsub_s(SCALE, fmul_s(dt, dt))),
    );
    if disc > 0 {
        Option::Some(
            v_sub(v_scale(v_sub(uv, v_scale(n, dt)), ni_over_nt), v_scale(n, fsqrt_s(disc))),
        )
    } else {
        Option::None
    }
}

/// Refract `v` through a surface with outward normal `n`, or report total
/// internal reflection as `None`.
pub fn refracted_vector(v: &Vec3, n: &Vec3, ni_over_nt: i64) -> (r: Option<Vec3>)
    ensures
        r == refract_s(*v, *n, ni_over_nt),
{
    let uv: Vec3 = v.normalize();
    let dt: i64 = uv.dot(n);
    let disc: i64 = fsub(SCALE, fmul(fmul(ni_over_nt, ni_over_nt), fsub(SCALE, fmul(dt, dt))));
    if disc > 0 {
        let refracted: Vec3 = uv.sub(&n.scale(dt)).scale(ni_over_nt).sub(&n.scale(fsqrt(disc)));
        Option::Some(refracted)
    } else {
        Option::None
    }
}

/// The point picked inside the unit sphere by three consecutive draws:
/// `z = 1 - 2 U1`, radius `sqrt(1 - z^2)` at angle `2 pi U2`, the whole
/// vector scaled by `U3`.  Returns the vector and the advanced cursor.
pub open spec fn rand_unit_sphere_s(vals: Seq<i64>, idx: int) -> (Vec3, int) {
    let u1 = rng_peek(vals, idx);
    let i1 = rng_step(vals, idx);
    let u2 = rng_peek(vals, i1);
    let i2 = rng_step(vals, i1);
    let u3 = rng_peek(vals, i2);
    let i3 = rng_step(vals, i2);
    let z = fsub_s(SCALE, fadd_s(u1, u1));
    let r = fsqrt_s(fsub_s(SCALE, fmul_s(z, z)));
    let theta = fmul_s(TAU_FX, u2);
    let p = Vec3 { x: fmul_s(r, cos_s(theta)), y: fmul_s(r, sin_s(theta)), z: z };
    (v_scale(p, u3), i3)
}

/// Draw a vector inside the unit sphere.
pub fn random_vec_in_unit_sphere(rng: &mut RandomSource) -> (r: Vec3)
    requires
        old(rng).wf(),
    ensures
        final(rng).wf(),
        final(rng).vals() == old(rng).vals(),
        ({
            let (v, ni) = rand_unit_sphere_s(old(rng).vals(), old(rng).cursor());
            r == v && final(rng).cursor() == ni
        }),
{
    let u1: i64 = rng.next_unit();
    let u2: i64 = rng.next_unit();
    let u3: i64 = rng.next_unit();
    let z: i64 = fsub(SCALE, fadd(u1, u1));
    let radius: i64 = fsqrt(fsub(SCALE, fmul(z, z)));
    let theta: i64 = fmul(TAU_FX, u2);
    let p: Vec3 = Vec3::new(fmul(radius, cos_fx(theta)), fmul(radius, sin_fx(theta)), z);
    p.scale(u3)
}

/// What a material does to an incoming ray at a hit: an attenuation color and
/// either one scattered ray or absorption (`None`).  Returns the products and
/// the advanced cursor.
pub open spec fn scatter_s(
    m: Material,
    ray: Ray,
    rec: ShadeRecord,
    vals: Seq<i64>,
    idx: int,
) -> ((Vec3, Option<Ray>), int) {
    match m {
        Material::Lambertian { texture } => {
            let (rv, i1) = rand_unit_sphere_s(vals, idx);
            let target = v_add(v_add(rec.local_hit_point, rec.normal), rv);
            let scattered = Ray {
                origin: rec.local_hit_point,
                direction: v_sub(target, rec.local_hit_point),
                time: 0,
            };
            let att = texture_value_s(texture, 0, 0, rec.local_hit_point);
            ((att, Option::Some(scattered)), i1)
        },
        Material::Metallic { r, g, b } => {
            let reflected = reflect_s(v_normalize(ray.direction), rec.normal);
            let (rv, i1) = rand_unit_sphere_s(vals, idx);
            let dir = v_add(reflected, v_scale(rv, 500_000i64));
            let albedo = Vec3 { x: r, y: g, z: b };
            if v_dot(dir, rec.normal) > 0 {
                let scattered = Ray { origin: rec.local_hit_point, direction: dir, time: 0 };
                ((albedo, Option::Some(scattered)), i1)
            } else {
                ((albedo, Option::None), i1)
            }
        },
        Material::Dielectric { refractive_index } => {
            let reflected = reflect_s(ray.direction, rec.normal);
            let dvn = v_dot(ray.direction, rec.normal);
            let outward = if dvn > 0 { v_neg(rec.normal) } else { rec.normal };
            let ni = if dvn > 0 { refractive_index } else { fdiv_s(SCALE, refractive_index) };
            let cosine = if dvn > 0 {
                let c0 = fdiv_s(dvn, v_magnitude(ray.direction));
                fsqrt_s(fsub_s(
                    SCALE,
                    fmul_s(
                        fmul_s(refractive_index, refractive_index),
                        fsub_s(SCALE, fmul_s(c0, c0)),
                    ),
                ))
            } else {
                fdiv_s(fneg_s(dvn), v_magnitude(ray.direction))
            };
            let prob = match refract_s(ray.direction, outward, ni) {
                Option::Some(x) => reflect_probability_s(cosine, refractive_index),
                Option::None => SCALE,
            };
            let refracted = match refract_s(ray.direction, outward, ni) {
                Option::Some(x) => x,
                Option::None => Vec3 { x: SCALE, y: SCALE, z: SCALE },
            };
            let u = rng_peek(vals, idx);
            let i1 = rng_step(vals, idx);
            let dir = if u < prob { reflected } else { refracted };
            let scattered = Ray { origin: rec.local_hit_point, direction: dir, time: 0 };
            ((Vec3 { x: SCALE, y: SCALE, z: SCALE }, Option::Some(scattered)), i1)
        },
    }
}

/// Scatter an incoming ray at a hit according to the hit's material.
pub fn scatter(m: &Material, ray: &Ray, rec: &ShadeRecord, rng: &mut RandomSource) -> (res: (
    Vec3,
    Option<Ray>,
))
    requires
        old(rng).wf(),
    ensures
        final(rng).wf(),
        final(rng).vals() == old(rng).vals(),
        ({
            let (products, ni) = scatter_s(*m, *ray, *rec, old(rng).vals(), old(rng).cursor());
            res == products && final(rng).cursor() == ni
        }),
{
    match m {
        Material::Lambertian { texture } => {
            let rv: Vec3 = random_vec_in_unit_sphere(rng);
            let target: Vec3 = rec.local_hit_point.add(&rec.normal).add(&rv);
            let scattered: Ray = Ray::new(
                rec.local_hit_point,
                target.sub(&rec.local_hit_point),
                0,
            );
            let att: Vec3 = texture.value(0, 0, &rec.local_hit_point);
            (att, Option::Some(scattered))
        },
        Material::Metallic { r, g, b } => {
            let reflected: Vec3 = reflected_vector(&ray.direction.normalize(), &rec.normal);
            let rv: Vec3 = random_vec_in_unit_sphere(rng);
            let dir: Vec3 = reflected.add(&rv.scale(500_000));
            let albedo: Vec3 = Vec3::new(*r, *g, *b);
            if dir.dot(&rec.normal) > 0 {
                (albedo, Option::Some(Ray::new(rec.local_hit_point, dir, 0)))
            } else {
                (albedo, Option::None)
            }
        },
        Material::Dielectric { refractive_index } => {
            let reflected: Vec3 = reflected_vector(&ray.direction, &rec.normal);
            let dvn: i64 = ray.direction.dot(&rec.normal);
            let outward: Vec3 = if dvn > 0 {
                rec.normal.neg()
            } else {
                rec.normal
            };
            let ni: i64 = if dvn > 0 {
                *refractive_index
            } else {
                fdiv(SCALE, *refractive_index)
            };
            let cosine: i64 = if dvn > 0 {
                let c0: i64 = fdiv(dvn, ray.direction.magnitude());
                fsqrt(fsub(
                    SCALE,
                    fmul(
                        fmul(*refractive_index, *refractive_index),
                        fsub(SCALE, fmul(c0, c0)),
                    ),
                ))
            } else {
                fdiv(fneg(dvn), ray.direction.magnitude())
            };
            let white: Vec3 = Vec3::new(SCALE, SCALE, SCALE);
            let prob: i64;
            let refracted: Vec3;
            match refracted_vector(&ray.direction, &outward, ni) {
                Option::Some(x) => {
                    prob = generate_reflect_probability(cosine, *refractive_index);
                    refracted = x;
                },
                Option::None => {
                    prob = SCALE;
                    refracted = white;
                },
            }
            let u: i64 = rng.next_unit();
            let dir: Vec3 = if u < prob {
                reflected
            } else {
                refracted
            };
            (white, Option::Some(Ray::new(rec.local_hit_point, dir, 0)))
        },
    }
}

} // verus!
