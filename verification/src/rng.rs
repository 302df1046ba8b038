//! The random-number capability.
//!
//! The host hands the renderer a buffer of entropy once; rendering then walks
//! that buffer cyclically.  Each draw is a fixed-point scalar in `[0, SCALE)`,
//! i.e. a unit-interval sample, so a render is a deterministic function of the
//! supplied buffer, which keeps every consumer's contract exact and lets a
//! test replay any sequence of draws.

use vstd::prelude::*;

use crate::fx::SCALE;

verus! {

/// Clamp a raw buffer entry into the unit interval `[0, SCALE)`.
pub open spec fn unit_clamp(v: i64) -> i64 {
    if v < 0 {
        0
    } else if v >= SCALE {
        (SCALE - 1) as i64
    } else {
        v
    }
}

/// The draw produced by a buffer `vals` at cursor `idx`.
pub open spec fn rng_peek(vals: Seq<i64>, idx: int) -> i64 {
    if vals.len() == 0 {
        0
    } else {
        unit_clamp(vals[idx])
    }
}

/// The cursor after one draw: advance by one, wrapping at the end.
pub open spec fn rng_step(vals: Seq<i64>, idx: int) -> int {
    if vals.len() == 0 {
        0
    } else if idx + 1 == vals.len() {
        0
    } else {
        idx + 1
    }
}

/// A replayable source of unit-interval samples.
pub struct RandomSource {
    values: Vec<i64>,
    idx: usize,
}

impl RandomSource {
    /// The entropy buffer this source walks.
    pub closed spec fn vals(&self) -> Seq<i64> {
        self.values@
    }

    /// The position of the next draw.
    pub closed spec fn cursor(&self) -> int {
        self.idx as int
    }

    /// The cursor stays inside the buffer (and at zero for an empty buffer).
    pub closed spec fn wf(&self) -> bool {
        if self.values@.len() == 0 {
            self.idx == 0
        } else {
            (self.idx as int) < self.values@.len()
        }
    }

    /// Wrap a buffer of raw samples; an empty buffer yields the constant zero.
    pub fn new(values: Vec<i64>) -> (r: RandomSource)
        ensures
            r.wf(),
            r.vals() == values@,
            r.cursor() == 0,
    {
        RandomSource { values, idx: 0 }
    }

    /// Draw one unit-interval sample and advance the cursor.
    pub fn next_unit(&mut self) -> (r: i64)
        requires
            old(self).wf(),
        ensures
            final(self).wf(),
            final(self).vals() == old(self).vals(),
            r == rng_peek(old(self).vals(), old(self).cursor()),
            final(self).cursor() == rng_step(old(self).vals(), old(self).cursor()),
            0 <= r < SCALE,
    {
        if self.values.len() == 0 {
            return 0;
        }
        let v: i64 = self.values[self.idx];
        let clamped: i64 = if v < 0 {
            0
        } else if v >= SCALE {
            SCALE - 1
        } else {
            v
        };
        self.idx = if self.idx + 1 == self.values.len() {
            0
        } else {
            self.idx + 1
        };
        clamped
    }
}

} // verus!
