//! The camera: view basis, focus-scaled viewport, lens sampling, shutter
//! time sampling.

use vstd::prelude::*;

use crate::fx::{fadd, fadd_s, fdiv, fdiv_s, fmul, fmul_s, fsqrt, fsqrt_s, fsub, fsub_s};
use crate::ray::Ray;
use crate::rng::{rng_peek, rng_step, RandomSource};
use crate::trig::{cos_s, cos_fx, sin_s, sin_fx, tan_s, tan_fx, PI_FX, TAU_FX};
use crate::vec3::{v_add, v_cross, v_normalize, v_scale, v_sub, Vec3};

verus! {

/// A camera fixed at construction: origin, focus-scaled viewport vectors,
/// orthonormal-ish view basis, lens radius, and shutter interval.
pub struct Camera {
    pub origin: Vec3,
    pub horizontal: Vec3,
    pub vertical: Vec3,
    pub top_left_corner: Vec3,
    pub u: Vec3,
    pub v: Vec3,
    pub w: Vec3,
    pub lens_radius: i64,
    pub time_start: i64,
    pub time_end: i64,
}

/// The camera a call to `Camera::new` builds: basis `w` toward the viewer,
/// `u` across, `v` up; viewport half-extents from the vertical field of view
/// (degrees) and the aspect ratio, scaled by the focus distance.
pub open spec fn camera_new_s(
    look_from: Vec3,
    look_at: Vec3,
    up: Vec3,
    v_fov: i64,
    aspect: i64,
    aperture: i64,
    focus_distance: i64,
    time_start: i64,
    time_end: i64,
) -> Camera {
    let lens_radius = fdiv_s(aperture, 2_000_000i64);
    let theta = fdiv_s(fmul_s(v_fov, PI_FX), 180_000_000i64);
    let half_height = tan_s(fdiv_s(theta, 2_000_000i64));
    let half_width = fmul_s(aspect, half_height);
    let w = v_normalize(v_sub(look_from, look_at));
    let u = v_normalize(v_cross(up, w));
    let v = v_cross(w, u);
    let p = v_sub(
        v_scale(u, fmul_s(half_width, focus_distance)),
        v_scale(v, fmul_s(half_height, focus_distance)),
    );
    let top_left_corner = v_sub(v_sub(look_from, p), v_scale(w, focus_distance));
    let two_focus = fadd_s(focus_distance, focus_distance);
    Camera {
        origin: look_from,
        horizontal: v_scale(u, fmul_s(half_width, two_focus)),
        vertical: v_scale(v, fmul_s(half_height, two_focus)),
        top_left_corner,
        u,
        v,
        w,
        lens_radius,
        time_start,
        time_end,
    }
}

/// The point picked on the unit disc by two consecutive draws: radius
/// `sqrt(U1)` at angle `2 pi U2`.
pub open spec fn rand_disc_s(vals: Seq<i64>, idx: int) -> (Vec3, int) {
    let u1 = rng_peek(vals, idx);
    let i1 = rng_step(vals, idx);
    let u2 = rng_peek(vals, i1);
    let i2 = rng_step(vals, i1);
    let r = fsqrt_s(u1);
    let theta = fmul_s(TAU_FX, u2);
    (Vec3 { x: fmul_s(r, cos_s(theta)), y: fmul_s(r, sin_s(theta)), z: 0i64 }, i2)
}

/// The ray `get_ray` produces for image-plane coordinates `(s, t)`: origin
/// offset across the lens disc, direction toward the pixel on the
/// focus-scaled viewport minus that offset, time uniform in the shutter
/// interval.
pub open spec fn get_ray_s(cam: Camera, s: i64, t: i64, vals: Seq<i64>, idx: int) -> (Ray, int) {
    let (d, i1) = rand_disc_s(vals, idx);
    let rd = v_scale(d, cam.lens_radius);
    let offset = v_add(v_scale(cam.u, rd.x), v_scale(cam.v, rd.y));
    let u3 = rng_peek(vals, i1);
    let i2 = rng_step(vals, i1);
    let time = fadd_s(cam.time_start, fmul_s(u3, fsub_s(cam.time_end, cam.time_start)));
    let dir = v_sub(
        v_sub(
            v_sub(v_add(cam.top_left_corner, v_scale(cam.horizontal, s)), v_scale(cam.vertical, t)),
            offset,
        ),
        cam.origin,
    );
    (Ray { origin: v_add(cam.origin, offset), direction: dir, time }, i2)
}

/// Draw a point on the unit lens disc.
fn random_vec_in_disc(rng: &mut RandomSource) -> (r: Vec3)
    requires
        old(rng).wf(),
    ensures
        final(rng).wf(),
        final(rng).vals() == old(rng).vals(),
        ({
            let (d, ni) = rand_disc_s(old(rng).vals(), old(rng).cursor());
            r == d && final(rng).cursor() == ni
        }),
{
    let u1: i64 = rng.next_unit();
    let u2: i64 = rng.next_unit();
    let radius: i64 = fsqrt(u1);
    let theta: i64 = fmul(TAU_FX, u2);
    Vec3::new(fmul(radius, cos_fx(theta)), fmul(radius, sin_fx(theta)), 0)
}

impl Camera {
    /// Build a camera from the view parameters; see `camera_new_s` for the
    /// exact derivation.  A degenerate basis (`up` parallel to the view
    /// direction) is the caller's responsibility to avoid.
    pub fn new(
        look_from: Vec3,
        look_at: Vec3,
        up: Vec3,
        v_fov: i64,
        aspect: i64,
        aperture: i64,
        focus_distance: i64,
        time_start: i64,
        time_end: i64,
    ) -> (r: Camera)
        ensures
            r == camera_new_s(
                look_from,
                look_at,
                up,
                v_fov,
                aspect,
                aperture,
                focus_distance,
                time_start,
                time_end,
            ),
    {
        let lens_radius: i64 = fdiv(aperture, 2_000_000);
        let theta: i64 = fdiv(fmul(v_fov, PI_FX), 180_000_000);
        let half_height: i64 = tan_fx(fdiv(theta, 2_000_000));
        let half_width: i64 = fmul(aspect, half_height);
        let w: Vec3 = look_from.sub(&look_at).normalize();
        let u: Vec3 = up.cross(&w).normalize();
        let v: Vec3 = w.cross(&u);
        let p: Vec3 = u.scale(fmul(half_width, focus_distance)).sub(
            &v.scale(fmul(half_height, focus_distance)),
        );
        let top_left_corner: Vec3 = look_from.sub(&p).sub(&w.scale(focus_distance));
        let two_focus: i64 = fadd(focus_distance, focus_distance);
        Camera {
            origin: look_from,
            horizontal: u.scale(fmul(half_width, two_focus)),
            vertical: v.scale(fmul(half_height, two_focus)),
            top_left_corner,
            u,
            v,
            w,
            lens_radius,
            time_start,
            time_end,
        }
    }

    /// Sample the ray for image-plane coordinates `(s, t)`: a lens-disc
    /// offset for depth of field and a shutter time for motion blur.
    pub fn get_ray(&self, s: i64, t: i64, rng: &mut RandomSource) -> (r: Ray)
        requires
            old(rng).wf(),
        ensures
            final(rng).wf(),
            final(rng).vals() == old(rng).vals(),
            ({
                let (ray, ni) = get_ray_s(*self, s, t, old(rng).vals(), old(rng).cursor());
                r == ray && final(rng).cursor() == ni
            }),
    {
        let d: Vec3 = random_vec_in_disc(rng);
        let rd: Vec3 = d.scale(self.lens_radius);
        let offset: Vec3 = self.u.scale(rd.x).add(&self.v.scale(rd.y));
        let u3: i64 = rng.next_unit();
        let time: i64 = fadd(self.time_start, fmul(u3, fsub(self.time_end, self.time_start)));
        let dir: Vec3 = self
            .top_left_corner
            .add(&self.horizontal.scale(s))
            .sub(&self.vertical.scale(t))
            .sub(&offset)
            .sub(&self.origin);
        Ray::new(self.origin.add(&offset), dir, time)
    }
}

} // verus!
