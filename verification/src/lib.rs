//! A recursive Monte-Carlo path tracer over fixed-point arithmetic.
//!
//! Every scalar in this crate is an `i64` counting steps of `1 / SCALE`
//! (see [`fx`]); the arithmetic saturates instead of wrapping and truncates
//! toward zero, so every rendering function is total and its result is
//! pinned down exactly by the spec functions it is verified against.

pub mod camera;
pub mod fx;
pub mod geometric_objects;
pub mod materials;
pub mod ray;
pub mod render;
pub mod rng;
pub mod shade_record;
pub mod trig;
pub mod vec3;
pub mod world;
