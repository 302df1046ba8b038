//! The scene: an ordered collection of primitives and the closest-hit search.

use vstd::prelude::*;

use crate::geometric_objects::{
    lemma_object_hit_in_window, lemma_object_hit_window, object_hit_s, object_wf, GeometricObject,
};
use crate::ray::Ray;
use crate::shade_record::ShadeRecord;

verus! {

/// The fold the closest-hit search computes over the first `n` objects:
/// each hit found replaces the current best record and shrinks the upper end
/// of the window to its parameter.
pub open spec fn trace_upto_s(
    objs: Seq<GeometricObject>,
    ray: Ray,
    t_min: i64,
    t_max: i64,
    n: int,
) -> Option<ShadeRecord>
    decreases n,
{
    if n <= 0 {
        Option::None
    } else {
        let prev = trace_upto_s(objs, ray, t_min, t_max, n - 1);
        let bound = match prev {
            Option::Some(rec) => rec.intersect_parameter,
            Option::None => t_max,
        };
        match object_hit_s(objs[n - 1], ray, t_min, bound) {
            Option::Some(rec) => Option::Some(rec),
            Option::None => prev,
        }
    }
}

/// The closest-hit search over a whole object sequence.
pub open spec fn trace_all_s(
    objs: Seq<GeometricObject>,
    ray: Ray,
    t_min: i64,
    t_max: i64,
) -> Option<ShadeRecord> {
    trace_upto_s(objs, ray, t_min, t_max, objs.len() as int)
}

/// An ordered collection of primitives together with the valid parametric
/// window `(t_min, t_max)` for hits.
pub struct World {
    pub objects: Vec<GeometricObject>,
    pub t_min: i64,
    pub t_max: i64,
}

/// Every object in the world carries well-formed colors.
pub open spec fn world_wf(w: World) -> bool {
    forall|i: int| 0 <= i < w.objects@.len() ==> object_wf(#[trigger] w.objects@[i])
}

impl World {
    /// An empty world with the default window: 0.001 to 1000.
    pub fn new() -> (r: World)
        ensures
            r.objects@.len() == 0,
            r.t_min == 1_000i64,
            r.t_max == 1_000_000_000i64,
            world_wf(r),
    {
        World { objects: Vec::new(), t_min: 1_000, t_max: 1_000_000_000 }
    }

    /// Append one primitive; the scene is append-only during setup.
    pub fn add_object(&mut self, object: GeometricObject)
        ensures
            final(self).objects@ == old(self).objects@.push(object),
            final(self).t_min == old(self).t_min,
            final(self).t_max == old(self).t_max,
    {
        self.objects.push(object);
    }

    /// Find the closest hit along `ray` inside the world's window.
    ///
    /// The result is the fold over the object order, and it is the globally
    /// nearest hit: `None` exactly when no object hits the full window, and
    /// otherwise a record whose parameter is a lower bound on every object's
    /// full-window hit.
    #[verifier::rlimit(100)]
    pub fn trace(&self, ray: &Ray) -> (r: Option<ShadeRecord>)
        ensures
            r == trace_all_s(self.objects@, *ray, self.t_min, self.t_max),
            match r {
                Option::Some(rec) => {
                    &&& self.t_min < rec.intersect_parameter < self.t_max
                    &&& forall|i: int|
                        0 <= i < self.objects@.len() ==> match object_hit_s(
                            #[trigger] self.objects@[i],
                            *ray,
                            self.t_min,
                            self.t_max,
                        ) {
                            Option::Some(h) => rec.intersect_parameter <= h.intersect_parameter,
                            Option::None => true,
                        }
                },
                Option::None => forall|i: int|
                    0 <= i < self.objects@.len() ==> object_hit_s(
                        #[trigger] self.objects@[i],
                        *ray,
                        self.t_min,
                        self.t_max,
                    ) is None,
            },
    {
        let objs_len: usize = self.objects.len();
        let mut best: Option<ShadeRecord> = Option::None;
        let mut k: usize = 0;
        while k < objs_len
            invariant
                objs_len == self.objects@.len(),
                k <= objs_len,
                best == trace_upto_s(self.objects@, *ray, self.t_min, self.t_max, k as int),
                match best {
                    Option::Some(rec) => {
                        &&& self.t_min < rec.intersect_parameter < self.t_max
                        &&& forall|i: int|
                            0 <= i < k ==> match object_hit_s(
                                #[trigger] self.objects@[i],
                                *ray,
                                self.t_min,
                                self.t_max,
                            ) {
                                Option::Some(h) => rec.intersect_parameter
                                    <= h.intersect_parameter,
                                Option::None => true,
                            }
                    },
                    Option::None => forall|i: int|
                        0 <= i < k ==> object_hit_s(
                            #[trigger] self.objects@[i],
                            *ray,
                            self.t_min,
                            self.t_max,
                        ) is None,
                },
            decreases objs_len - k,
        {
            let bound: i64 = match &best {
                Option::Some(rec) => rec.intersect_parameter,
                Option::None => self.t_max,
            };
            proof {
                lemma_object_hit_window(
                    self.objects@[k as int],
                    *ray,
                    self.t_min,
                    self.t_max,
                    bound,
                );
                lemma_object_hit_in_window(self.objects@[k as int], *ray, self.t_min, bound);
            }
            match self.objects[k].hit(ray, self.t_min, bound) {
                Option::Some(rec) => {
                    best = Option::Some(rec);
                },
                Option::None => {},
            }
            k = k + 1;
        }
        best
    }
}

/// Tracing two primitives that both hit the ray, at distinct parameters,
/// returns the record of the nearer one, whichever order the two are stored
/// in.
#[verifier::rlimit(100)]
pub proof fn lemma_trace_two_order_independent(
    a: GeometricObject,
    b: GeometricObject,
    ha: ShadeRecord,
    hb: ShadeRecord,
    ray: Ray,
    t_min: i64,
    t_max: i64,
)
    requires
        object_hit_s(a, ray, t_min, t_max) == Option::Some(ha),
        object_hit_s(b, ray, t_min, t_max) == Option::Some(hb),
        ha.intersect_parameter != hb.intersect_parameter,
    ensures
        trace_all_s(seq![a, b], ray, t_min, t_max) == trace_all_s(seq![b, a], ray, t_min, t_max),
        trace_all_s(seq![a, b], ray, t_min, t_max) == (if ha.intersect_parameter
            < hb.intersect_parameter {
            Option::Some(ha)
        } else {
            Option::Some(hb)
        }),
{
    lemma_object_hit_in_window(a, ray, t_min, t_max);
    lemma_object_hit_in_window(b, ray, t_min, t_max);
    lemma_object_hit_window(b, ray, t_min, t_max, ha.intersect_parameter);
    lemma_object_hit_window(a, ray, t_min, t_max, hb.intersect_parameter);
    let sab = seq![a, b];
    let sba = seq![b, a];
    assert(trace_upto_s(sab, ray, t_min, t_max, 0) is None);
    assert(trace_upto_s(sba, ray, t_min, t_max, 0) is None);
    assert(sab[0] == a && sab[1] == b && sba[0] == b && sba[1] == a);
    assert(trace_upto_s(sab, ray, t_min, t_max, 1) == Option::Some(ha));
    assert(trace_upto_s(sba, ray, t_min, t_max, 1) == Option::Some(hb));
}

} // verus!
