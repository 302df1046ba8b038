//! The result of a successful ray-surface intersection.

use vstd::prelude::*;

use crate::materials::Material;
use crate::vec3::Vec3;

verus! {

/// Carries the hit parameter, the hit point, the outward surface normal, and
/// the material of the surface that was hit.  Created only by a hit test and
/// consumed immediately by the integrator.
pub struct ShadeRecord {
    pub normal: Vec3,
    pub local_hit_point: Vec3,
    pub material: Material,
    pub intersect_parameter: i64,
}

impl Clone for ShadeRecord {
    fn clone(&self) -> (res: ShadeRecord)
        ensures
            res == *self,
    {
        ShadeRecord {
            normal: self.normal,
            local_hit_point: self.local_hit_point,
            material: self.material.clone(),
            intersect_parameter: self.intersect_parameter,
        }
    }
}

} // verus!
