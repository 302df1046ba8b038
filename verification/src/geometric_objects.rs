//! Spheres, moving spheres, and the closed-form ray intersection test.

use vstd::prelude::*;

use crate::fx::{
    cl, fmul, fmul_s, fsub, fsub_s, fdiv, fdiv_s, isqrt_s, lemma_isqrt, lemma_isqrt_unique,
    tdiv, tdiv128, FX_MAX, SCALE,
};
use crate::materials::{material_wf, Material};
use crate::ray::{ray_point_at, Ray};
use crate::shade_record::ShadeRecord;
use crate::vec3::{v_add, v_div, v_dot, v_scale, v_sub, Vec3};

verus! {

/// The quadratic's linear coefficient `b = dot(oc, direction)`.
pub open spec fn hit_b_s(center: Vec3, ray: Ray) -> i64 {
    v_dot(v_sub(ray.origin, center), ray.direction)
}

/// The quadratic's leading coefficient `a = |direction|^2`.
pub open spec fn hit_a_s(ray: Ray) -> i64 {
    v_dot(ray.direction, ray.direction)
}

/// The quadratic's constant coefficient `c = |oc|^2 - radius^2`.
pub open spec fn hit_c_s(center: Vec3, radius: i64, ray: Ray) -> i64 {
    fsub_s(
        v_dot(v_sub(ray.origin, center), v_sub(ray.origin, center)),
        fmul_s(radius, radius),
    )
}

/// The discriminant `b^2 - a c`, an exact integer at squared scale.
pub open spec fn hit_disc_s(center: Vec3, radius: i64, ray: Ray) -> int {
    hit_b_s(center, ray) * hit_b_s(center, ray) - hit_a_s(ray) * hit_c_s(center, radius, ray)
}

/// The nearer root `(-b - sqrt(disc)) / a`, truncated toward zero.
pub open spec fn hit_near_s(center: Vec3, radius: i64, ray: Ray) -> int {
    tdiv(
        (-hit_b_s(center, ray) - isqrt_s(hit_disc_s(center, radius, ray))) * (SCALE as int),
        hit_a_s(ray) as int,
    )
}

/// The farther root `(-b + sqrt(disc)) / a`, truncated toward zero.
pub open spec fn hit_far_s(center: Vec3, radius: i64, ray: Ray) -> int {
    tdiv(
        (-hit_b_s(center, ray) + isqrt_s(hit_disc_s(center, radius, ray))) * (SCALE as int),
        hit_a_s(ray) as int,
    )
}

/// The record built for a hit at parameter `t`: the hit point, and the
/// outward normal `(point - center) / radius`.
pub open spec fn hit_record_s(
    center: Vec3,
    radius: i64,
    material: Material,
    ray: Ray,
    t: i64,
) -> ShadeRecord {
    let pt = ray_point_at(ray, t);
    ShadeRecord {
        normal: v_div(v_sub(pt, center), radius),
        local_hit_point: pt,
        material,
        intersect_parameter: t,
    }
}

/// The closed-form sphere hit test: if the discriminant is positive, return
/// the smallest root inside the open window `(t_min, t_max)`, checking the
/// near root first; otherwise no hit.
pub open spec fn sphere_hit_s(
    center: Vec3,
    radius: i64,
    material: Material,
    ray: Ray,
    t_min: i64,
    t_max: i64,
) -> Option<ShadeRecord> {
    let disc = hit_disc_s(center, radius, ray);
    let near = hit_near_s(center, radius, ray);
    let far = hit_far_s(center, radius, ray);
    if disc > 0 {
        if t_min < near && near < t_max {
            Option::Some(hit_record_s(center, radius, material, ray, near as i64))
        } else if t_min < far && far < t_max {
            Option::Some(hit_record_s(center, radius, material, ray, far as i64))
        } else {
            Option::None
        }
    } else {
        Option::None
    }
}

/// A static sphere.
pub struct Sphere {
    pub center: Vec3,
    pub radius: i64,
    pub material: Material,
}

/// A sphere whose center moves linearly between two points over a time
/// interval; `center(time)` interpolates between the two.
pub struct MovingSphere {
    pub center_start: Vec3,
    pub center_end: Vec3,
    pub time_start: i64,
    pub time_end: i64,
    pub radius: i64,
    pub material: Material,
}

/// The interpolated center at `time`:
/// `center_start + ((time - time_start) / (time_end - time_start)) * (center_end - center_start)`.
pub open spec fn moving_center_s(ms: MovingSphere, time: i64) -> Vec3 {
    v_add(
        ms.center_start,
        v_scale(
            v_sub(ms.center_end, ms.center_start),
            fdiv_s(fsub_s(time, ms.time_start), fsub_s(ms.time_end, ms.time_start)),
        ),
    )
}

/// Any primitive the world can hold.
pub enum GeometricObject {
    Sphere(Sphere),
    MovingSphere(MovingSphere),
}

/// The center a primitive presents to a ray (a moving sphere's depends on the
/// ray's time).
pub open spec fn object_center_s(o: GeometricObject, ray: Ray) -> Vec3 {
    match o {
        GeometricObject::Sphere(s) => s.center,
        GeometricObject::MovingSphere(ms) => moving_center_s(ms, ray.time),
    }
}

pub open spec fn object_radius_s(o: GeometricObject) -> i64 {
    match o {
        GeometricObject::Sphere(s) => s.radius,
        GeometricObject::MovingSphere(ms) => ms.radius,
    }
}

pub open spec fn object_material_s(o: GeometricObject) -> Material {
    match o {
        GeometricObject::Sphere(s) => s.material,
        GeometricObject::MovingSphere(ms) => ms.material,
    }
}

/// The hit test of any primitive, as the sphere test against its
/// time-dependent center.
pub open spec fn object_hit_s(o: GeometricObject, ray: Ray, t_min: i64, t_max: i64) -> Option<
    ShadeRecord,
> {
    sphere_hit_s(
        object_center_s(o, ray),
        object_radius_s(o),
        object_material_s(o),
        ray,
        t_min,
        t_max,
    )
}

/// The colors carried by a primitive's material are well-formed.
pub open spec fn object_wf(o: GeometricObject) -> bool {
    material_wf(object_material_s(o))
}

impl Sphere {
    pub fn new(center: Vec3, radius: i64, material: Material) -> (r: Sphere)
        ensures
            r == (Sphere { center, radius, material }),
    {
        Sphere { center, radius, material }
    }

    /// Test the ray against this sphere inside the open window `(t_min, t_max)`.
    pub fn hit(&self, ray: &Ray, t_min: i64, t_max: i64) -> (r: Option<ShadeRecord>)
        ensures
            r == sphere_hit_s(self.center, self.radius, self.material, *ray, t_min, t_max),
    {
        hit_against_center(&self.center, self.radius, &self.material, ray, t_min, t_max)
    }
}

impl MovingSphere {
    pub fn new(
        center_start: Vec3,
        center_end: Vec3,
        time_start: i64,
        time_end: i64,
        radius: i64,
        material: Material,
    ) -> (r: MovingSphere)
        ensures
            r == (MovingSphere { center_start, center_end, time_start, time_end, radius, material }),
    {
        MovingSphere { center_start, center_end, time_start, time_end, radius, material }
    }

    /// The interpolated center at `time`.
    pub fn center(&self, time: i64) -> (r: Vec3)
        ensures
            r == moving_center_s(*self, time),
    {
        let span: i64 = fsub(self.time_end, self.time_start);
        let frac: i64 = fdiv(fsub(time, self.time_start), span);
        self.center_start.add(&self.center_end.sub(&self.center_start).scale(frac))
    }

    /// Test the ray against this sphere at the center it has at the ray's time.
    pub fn hit(&self, ray: &Ray, t_min: i64, t_max: i64) -> (r: Option<ShadeRecord>)
        ensures
            r == sphere_hit_s(
                moving_center_s(*self, ray.time),
                self.radius,
                self.material,
                *ray,
                t_min,
                t_max,
            ),
    {
        let center: Vec3 = self.center(ray.time);
        hit_against_center(&center, self.radius, &self.material, ray, t_min, t_max)
    }
}

impl GeometricObject {
    /// Dispatch the hit test to the primitive.
    pub fn hit(&self, ray: &Ray, t_min: i64, t_max: i64) -> (r: Option<ShadeRecord>)
        ensures
            r == object_hit_s(*self, *ray, t_min, t_max),
    {
        match self {
            GeometricObject::Sphere(s) => s.hit(ray, t_min, t_max),
            GeometricObject::MovingSphere(ms) => ms.hit(ray, t_min, t_max),
        }
    }
}

/// The shared body of the two hit tests.
fn hit_against_center(
    center: &Vec3,
    radius: i64,
    material: &Material,
    ray: &Ray,
    t_min: i64,
    t_max: i64,
) -> (r: Option<ShadeRecord>)
    ensures
        r == sphere_hit_s(*center, radius, *material, *ray, t_min, t_max),
{
    let oc: Vec3 = ray.origin.sub(center);
    let a: i64 = ray.direction.dot(&ray.direction);
    let b: i64 = oc.dot(&ray.direction);
    let c: i64 = fsub(oc.dot(&oc), fmul(radius, radius));
    proof {
        lemma_fx_band_product(b as int, b as int);
        lemma_fx_band_product(a as int, c as int);
    }
    let disc: i128 = (b as i128) * (b as i128) - (a as i128) * (c as i128);
    if disc > 0 {
        let sq_u: u64 = crate::fx::isqrt_u(disc as u128);
        proof {
            lemma_isqrt(disc as int);
            lemma_isqrt_unique(disc as int, sq_u as int, isqrt_s(disc as int));
            assert((sq_u as int) * (sq_u as int) <= disc as int);
            assert((sq_u as int) < 0x2_0000_0000_0000_0000) by (nonlinear_arith)
                requires
                    0 <= (sq_u as int),
                    (sq_u as int) * (sq_u as int) <= (disc as int),
                    (disc as int) < 0x4000_0000_0000_0000_0000_0000_0000_0000int,
            ;
        }
        let sq: i128 = sq_u as i128;
        let nb: i128 = -(b as i128);
        proof {
            lemma_root_numerator_fits(nb - sq);
            lemma_root_numerator_fits(nb + sq);
        }
        let near: i128 = tdiv128((nb - sq) * (SCALE as i128), a as i128);
        let far: i128 = tdiv128((nb + sq) * (SCALE as i128), a as i128);
        let t_opt: Option<i64> = if (t_min as i128) < near && near < (t_max as i128) {
            Option::Some(near as i64)
        } else if (t_min as i128) < far && far < (t_max as i128) {
            Option::Some(far as i64)
        } else {
            Option::None
        };
        match t_opt {
            Option::Some(t) => {
                let pt: Vec3 = ray.point_at_parameter(t);
                let normal: Vec3 = pt.sub(center).div_by(radius);
                Option::Some(
                    ShadeRecord {
                        normal,
                        local_hit_point: pt,
                        material: material.clone(),
                        intersect_parameter: t,
                    },
                )
            },
            Option::None => Option::None,
        }
    } else {
        Option::None
    }
}

/// The leading coefficient is a truncated sum of squares, hence non-negative.
pub proof fn lemma_hit_a_nonneg(ray: Ray)
    ensures
        hit_a_s(ray) >= 0,
{
    let d = ray.direction;
    assert(cl(d.x) * cl(d.x) >= 0 && cl(d.y) * cl(d.y) >= 0 && cl(d.z) * cl(d.z) >= 0)
        by (nonlinear_arith);
    let s = cl(d.x) * cl(d.x) + cl(d.y) * cl(d.y) + cl(d.z) * cl(d.z);
    assert(tdiv(s, SCALE as int) >= 0) by {
        crate::fx::lemma_tdiv_mono(0, s, SCALE as int);
    }
}

/// The near root never exceeds the far root.
pub proof fn lemma_hit_roots_ordered(center: Vec3, radius: i64, ray: Ray)
    requires
        hit_disc_s(center, radius, ray) > 0,
    ensures
        hit_near_s(center, radius, ray) <= hit_far_s(center, radius, ray),
{
    let b = hit_b_s(center, ray);
    let sq = isqrt_s(hit_disc_s(center, radius, ray));
    crate::fx::lemma_isqrt(hit_disc_s(center, radius, ray));
    lemma_hit_a_nonneg(ray);
    assert((-b - sq) * (SCALE as int) <= (-b + sq) * (SCALE as int)) by (nonlinear_arith)
        requires
            sq >= 0,
            (SCALE as int) > 0,
    ;
    crate::fx::lemma_tdiv_mono(
        (-b - sq) * (SCALE as int),
        (-b + sq) * (SCALE as int),
        hit_a_s(ray) as int,
    );
}

/// Shrinking the upper end of the window keeps exactly the hits that fall
/// below the new end and discards the rest: the hit test against `(t_min,
/// t2)` returns the same record the test against `(t_min, t1)` returns when
/// that record's parameter is below `t2`, and nothing otherwise.
pub proof fn lemma_sphere_hit_window(
    center: Vec3,
    radius: i64,
    material: Material,
    ray: Ray,
    t_min: i64,
    t1: i64,
    t2: i64,
)
    requires
        t2 <= t1,
    ensures
        sphere_hit_s(center, radius, material, ray, t_min, t2) == (match sphere_hit_s(
            center,
            radius,
            material,
            ray,
            t_min,
            t1,
        ) {
            Option::Some(h) => if h.intersect_parameter < t2 {
                Option::Some(h)
            } else {
                Option::None::<ShadeRecord>
            },
            Option::None => Option::None::<ShadeRecord>,
        }),
{
    let disc = hit_disc_s(center, radius, ray);
    if disc > 0 {
        lemma_hit_roots_ordered(center, radius, ray);
    }
}

/// The window dichotomy, lifted to any primitive.
pub proof fn lemma_object_hit_window(
    o: GeometricObject,
    ray: Ray,
    t_min: i64,
    t1: i64,
    t2: i64,
)
    requires
        t2 <= t1,
    ensures
        object_hit_s(o, ray, t_min, t2) == (match object_hit_s(o, ray, t_min, t1) {
            Option::Some(h) => if h.intersect_parameter < t2 {
                Option::Some(h)
            } else {
                Option::None::<ShadeRecord>
            },
            Option::None => Option::None::<ShadeRecord>,
        }),
{
    lemma_sphere_hit_window(
        object_center_s(o, ray),
        object_radius_s(o),
        object_material_s(o),
        ray,
        t_min,
        t1,
        t2,
    );
}

/// The window containment, lifted to any primitive.
pub proof fn lemma_object_hit_in_window(o: GeometricObject, ray: Ray, t_min: i64, t_max: i64)
    ensures
        match object_hit_s(o, ray, t_min, t_max) {
            Option::Some(h) => t_min < h.intersect_parameter < t_max,
            Option::None => true,
        },
{
}

/// When the discriminant is positive and the near root lies inside the
/// window, the hit returns exactly that root: the smaller of the two roots,
/// with hit point `origin + direction * near` and outward normal
/// `(hit_point - center) / radius`.
pub proof fn lemma_sphere_hit_near_root(
    center: Vec3,
    radius: i64,
    material: Material,
    ray: Ray,
    t_min: i64,
    t_max: i64,
)
    requires
        hit_disc_s(center, radius, ray) > 0,
        t_min < hit_near_s(center, radius, ray) < t_max,
    ensures
        hit_near_s(center, radius, ray) <= hit_far_s(center, radius, ray),
        sphere_hit_s(center, radius, material, ray, t_min, t_max) == Option::Some(
            hit_record_s(
                center,
                radius,
                material,
                ray,
                hit_near_s(center, radius, ray) as i64,
            ),
        ),
        ({
            let t = hit_near_s(center, radius, ray) as i64;
            let pt = ray_point_at(ray, t);
            sphere_hit_s(center, radius, material, ray, t_min, t_max) == Option::Some(
                ShadeRecord {
                    normal: v_div(v_sub(pt, center), radius),
                    local_hit_point: pt,
                    material,
                    intersect_parameter: t,
                },
            )
        }),
{
    lemma_hit_roots_ordered(center, radius, ray);
}

/// Products of two in-band scalars stay strictly below `2^124`.
proof fn lemma_fx_band_product(a: int, b: int)
    requires
        -(FX_MAX as int) <= a <= FX_MAX as int,
        -(FX_MAX as int) <= b <= FX_MAX as int,
    ensures
        -(0x1000_0000_0000_0000_0000_0000_0000_0000int) < a * b
            < 0x1000_0000_0000_0000_0000_0000_0000_0000int,
{
    assert(-(0x1000_0000_0000_0000_0000_0000_0000_0000int) < a * b
        < 0x1000_0000_0000_0000_0000_0000_0000_0000int) by (nonlinear_arith)
        requires
            -(0x3fff_ffff_ffff_ffffint) <= a <= 0x3fff_ffff_ffff_ffffint,
            -(0x3fff_ffff_ffff_ffffint) <= b <= 0x3fff_ffff_ffff_ffffint,
    ;
}

/// Root numerators scaled by `SCALE` stay well inside `i128`.
proof fn lemma_root_numerator_fits(x: int)
    requires
        -(0x4_0000_0000_0000_0000int) <= x <= 0x4_0000_0000_0000_0000int,
    ensures
        -(0x4000_0000_0000_0000_0000_0000int) <= x * (SCALE as int)
            <= 0x4000_0000_0000_0000_0000_0000int,
{
    assert(-(0x4000_0000_0000_0000_0000_0000int) <= x * (SCALE as int)
        <= 0x4000_0000_0000_0000_0000_0000int) by (nonlinear_arith)
        requires
            -(0x4_0000_0000_0000_0000int) <= x <= 0x4_0000_0000_0000_0000int,
            0 < (SCALE as int) <= 0x1000_0000int,
    ;
}

} // verus!
