//! Rays: an origin, a direction, and the shutter time the ray samples.

use vstd::prelude::*;

use crate::vec3::{v_add, v_scale, Vec3};

verus! {

#[derive(Clone, Copy, Debug, PartialEq, Eq, Structural)]
pub struct Ray {
    pub origin: Vec3,
    pub direction: Vec3,
    pub time: i64,
}

/// The point `origin + direction * t`.
pub open spec fn ray_point_at(r: Ray, t: i64) -> Vec3 {
    v_add(r.origin, v_scale(r.direction, t))
}

impl Ray {
    pub fn new(origin: Vec3, direction: Vec3, time: i64) -> (r: Ray)
        ensures
            r == (Ray { origin, direction, time }),
    {
        Ray { origin, direction, time }
    }

    pub fn point_at_parameter(&self, t: i64) -> (r: Vec3)
        ensures
            r == ray_point_at(*self, t),
    {
        self.origin.add(&self.direction.scale(t))
    }
}

} // verus!
