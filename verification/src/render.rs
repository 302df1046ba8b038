//! The integrator and the renderer: recursive radiance estimation with a
//! hard bounce budget, the sky-gradient background, gamma mapping, and
//! explicit RGBA byte packing.

use vstd::prelude::*;

use crate::camera::{get_ray_s, Camera};
use crate::fx::{
    fadd, fadd_s, fdiv, fdiv_s, fmul_s, fsqrt, fsqrt_s, isqrt_s, lemma_isqrt, tdiv, SCALE,
};
use crate::materials::{scatter, scatter_s};
use crate::ray::Ray;
use crate::rng::{rng_peek, rng_step, RandomSource};
use crate::vec3::{v_add, v_div, v_hadamard, v_lerp, v_normalize, Vec3};
use crate::world::{trace_all_s, World};
use crate::geometric_objects::GeometricObject;

verus! {

/// The bounce budget: at this depth the integrator returns black.
pub const MAX_DEPTH: usize = 50;

/// The background: a vertical gradient from white (ray pointing down) to sky
/// blue (ray pointing up), by `t = (unit_direction.y + 1) / 2`, with `t`
/// clamped into the unit interval against rounding of the normalization.
pub open spec fn sky_color_s(ray: Ray) -> Vec3 {
    let unit = v_normalize(ray.direction);
    let t = fmul_s(fadd_s(unit.y, SCALE), 500_000i64);
    let tc: i64 = if t < 0 {
        0i64
    } else if t > SCALE {
        SCALE
    } else {
        t
    };
    v_lerp(
        Vec3 { x: SCALE, y: SCALE, z: SCALE },
        Vec3 { x: 500_000i64, y: 700_000i64, z: SCALE },
        tc,
    )
}

/// The color seen along `ray`, and the advanced cursor: black once the
/// bounce budget is spent; the sky gradient where nothing is hit; otherwise
/// the scattered attenuation times the recursive estimate, or black on
/// absorption.
pub open spec fn radiance_s(
    ray: Ray,
    objs: Seq<GeometricObject>,
    t_min: i64,
    t_max: i64,
    depth: int,
    vals: Seq<i64>,
    idx: int,
) -> (Vec3, int)
    decreases 50 - depth,
{
    if depth >= 50 {
        (Vec3 { x: 0i64, y: 0i64, z: 0i64 }, idx)
    } else {
        match trace_all_s(objs, ray, t_min, t_max) {
            Option::None => (sky_color_s(ray), idx),
            Option::Some(rec) => {
                let (products, i1) = scatter_s(rec.material, ray, rec, vals, idx);
                match products.1 {
                    Option::Some(scattered) => {
                        let (c, i2) = radiance_s(scattered, objs, t_min, t_max, depth + 1, vals, i1);
                        (v_hadamard(products.0, c), i2)
                    },
                    Option::None => (Vec3 { x: 0i64, y: 0i64, z: 0i64 }, i1),
                }
            },
        }
    }
}

/// Estimate the color seen along `ray` with a bounce budget of
/// `MAX_DEPTH - depth` further bounces.
pub fn radiance(ray: &Ray, world: &World, depth: usize, rng: &mut RandomSource) -> (r: Vec3)
    requires
        old(rng).wf(),
    ensures
        final(rng).wf(),
        final(rng).vals() == old(rng).vals(),
        ({
            let (c, ni) = radiance_s(
                *ray,
                world.objects@,
                world.t_min,
                world.t_max,
                depth as int,
                old(rng).vals(),
                old(rng).cursor(),
            );
            r == c && final(rng).cursor() == ni
        }),
    decreases 50 - depth,
{
    if depth >= MAX_DEPTH {
        return Vec3::new(0, 0, 0);
    }
    match world.trace(ray) {
        Option::None => sky_color(ray),
        Option::Some(rec) => {
            let products: (Vec3, Option<Ray>) = scatter(&rec.material, ray, &rec, rng);
            match products.1 {
                Option::Some(scattered) => {
                    let c: Vec3 = radiance(&scattered, world, depth + 1, rng);
                    products.0.hadamard(&c)
                },
                Option::None => Vec3::new(0, 0, 0),
            }
        },
    }
}

/// The bounce budget truncates to exact black: at depth 50 (or beyond) the
/// estimate is `(0, 0, 0)` and no draw is consumed, whatever the ray, the
/// scene, and the entropy buffer.
pub proof fn lemma_radiance_depth_budget(
    ray: Ray,
    objs: Seq<GeometricObject>,
    t_min: i64,
    t_max: i64,
    depth: int,
    vals: Seq<i64>,
    idx: int,
)
    requires
        depth >= 50,
    ensures
        radiance_s(ray, objs, t_min, t_max, depth, vals, idx) == (
            Vec3 { x: 0i64, y: 0i64, z: 0i64 },
            idx,
        ),
{
}

/// The sky gradient is exact at the poles: a ray straight up yields the
/// background blue `(0.5, 0.7, 1)`, a ray straight down yields white.
pub proof fn lemma_sky_gradient_poles()
    ensures
        sky_color_s(
            Ray {
                origin: Vec3 { x: 0i64, y: 0i64, z: 0i64 },
                direction: Vec3 { x: 0i64, y: SCALE, z: 0i64 },
                time: 0i64,
            },
        ) == (Vec3 { x: 500_000i64, y: 700_000i64, z: SCALE }),
        sky_color_s(
            Ray {
                origin: Vec3 { x: 0i64, y: 0i64, z: 0i64 },
                direction: Vec3 { x: 0i64, y: (-1_000_000i64), z: 0i64 },
                time: 0i64,
            },
        ) == (Vec3 { x: SCALE, y: SCALE, z: SCALE }),
{
    let up = Vec3 { x: 0i64, y: SCALE, z: 0i64 };
    let down = Vec3 { x: 0i64, y: (-1_000_000i64), z: 0i64 };
    crate::vec3::lemma_normalize_unit_y(up);
    crate::vec3::lemma_normalize_unit_y(down);
    assert(2_000_000int * 500_000int == 1_000_000_000_000int) by (nonlinear_arith);
    assert((-500_000int) * 1_000_000int == -500_000_000_000int) by (nonlinear_arith);
    assert((-300_000int) * 1_000_000int == -300_000_000_000int) by (nonlinear_arith);
    assert(0int * 500_000int == 0int) by (nonlinear_arith);
    assert(0int * 1_000_000int == 0int) by (nonlinear_arith);
    assert((-500_000int) * 0int == 0int) by (nonlinear_arith);
    assert((-300_000int) * 0int == 0int) by (nonlinear_arith);
    assert(fmul_s(fadd_s(SCALE, SCALE), 500_000i64) == SCALE);
    assert(fmul_s(fadd_s(-1_000_000i64, SCALE), 500_000i64) == 0i64);
}

/// The sky color of a ray, from the normalized direction's height.
pub fn sky_color(ray: &Ray) -> (r: Vec3)
    ensures
        r == sky_color_s(*ray),
{
    let unit: Vec3 = ray.direction.normalize();
    let t: i64 = crate::fx::fmul(fadd(unit.y, SCALE), 500_000);
    let tc: i64 = if t < 0 {
        0
    } else if t > SCALE {
        SCALE
    } else {
        t
    };
    let white: Vec3 = Vec3::new(SCALE, SCALE, SCALE);
    let background: Vec3 = Vec3::new(500_000, 700_000, SCALE);
    white.lerp(&background, tc)
}

/// Gamma mapping of one linear channel to a byte: clamp into the unit
/// interval, take the square root, scale by 255.99, truncate.
pub open spec fn gamma_channel_s(c: i64) -> u8 {
    let cc: i64 = if c < 0 {
        0i64
    } else if c > SCALE {
        SCALE
    } else {
        c
    };
    tdiv(fsqrt_s(cc) * 25_599, 100 * (SCALE as int)) as u8
}

/// Map one linear fixed-point channel to its gamma-corrected byte.
pub fn gamma_channel(c: i64) -> (r: u8)
    ensures
        r == gamma_channel_s(c),
{
    let cc: i64 = if c < 0 {
        0
    } else if c > SCALE {
        SCALE
    } else {
        c
    };
    let root: i64 = fsqrt(cc);
    proof {
        if cc > 0 {
            lemma_isqrt(cc * (SCALE as int));
            assert(isqrt_s(cc * (SCALE as int)) <= SCALE) by (nonlinear_arith)
                requires
                    0 <= isqrt_s(cc * (SCALE as int)),
                    isqrt_s(cc * (SCALE as int)) * isqrt_s(cc * (SCALE as int)) <= cc * (
                    SCALE as int),
                    cc <= SCALE,
                    (SCALE as int) > 0,
            ;
        }
    }
    let num: u64 = (root as u64) * 25_599;
    let ch: u64 = num / 100_000_000;
    proof {
        vstd::arithmetic::div_mod::lemma_div_is_ordered(
            num as int,
            25_599_000_000_000,
            100_000_000,
        );
    }
    ch as u8
}

/// Pack four bytes into one 32-bit pixel, least significant byte first:
/// red in the lowest byte, then green, blue, alpha.
pub open spec fn pack_rgba8_s(r: u8, g: u8, b: u8, a: u8) -> u32 {
    (r + g * 256 + b * 65_536 + a * 16_777_216) as u32
}

/// Pack four channel bytes into one pixel word, red in the lowest byte.
pub fn pack_rgba8(r: u8, g: u8, b: u8, a: u8) -> (p: u32)
    ensures
        p == pack_rgba8_s(r, g, b, a),
{
    (r as u32) + (g as u32) * 256 + (b as u32) * 65_536 + (a as u32) * 16_777_216
}

/// The normalized image-plane coordinate of pixel `j` of `extent`, jittered
/// inside the pixel cell by the unit sample `xi`.
pub open spec fn jitter_coord_s(j: int, extent: int, xi: i64) -> i64 {
    fdiv_s(fadd_s((j * (SCALE as int)) as i64, xi), (extent * (SCALE as int)) as i64)
}

/// The sum of `k` radiance samples for pixel `(i, j)`, and the advanced
/// cursor.  Each sample draws two jitter coordinates, then a camera ray,
/// then its radiance.
pub open spec fn pixel_samples_s(
    i: int,
    j: int,
    width: int,
    height: int,
    k: int,
    cam: Camera,
    objs: Seq<GeometricObject>,
    t_min: i64,
    t_max: i64,
    vals: Seq<i64>,
    idx: int,
) -> (Vec3, int)
    decreases k,
{
    if k <= 0 {
        (Vec3 { x: 0i64, y: 0i64, z: 0i64 }, idx)
    } else {
        let (acc, a0) = pixel_samples_s(i, j, width, height, k - 1, cam, objs, t_min, t_max, vals, idx);
        let xx = rng_peek(vals, a0);
        let a1 = rng_step(vals, a0);
        let yy = rng_peek(vals, a1);
        let a2 = rng_step(vals, a1);
        let dx = jitter_coord_s(j, width, xx);
        let dy = jitter_coord_s(i, height, yy);
        let (ray, a3) = get_ray_s(cam, dx, dy, vals, a2);
        let (c, a4) = radiance_s(ray, objs, t_min, t_max, 0, vals, a3);
        (v_add(acc, c), a4)
    }
}

/// The packed pixel for cell `(i, j)`: the average of `n` samples, gamma
/// mapped per channel, alpha 255.
#[verifier::opaque]
pub open spec fn pixel_value_s(
    i: int,
    j: int,
    width: int,
    height: int,
    n: int,
    cam: Camera,
    objs: Seq<GeometricObject>,
    t_min: i64,
    t_max: i64,
    vals: Seq<i64>,
    idx: int,
) -> (u32, int) {
    let (sum, i1) = pixel_samples_s(i, j, width, height, n, cam, objs, t_min, t_max, vals, idx);
    let avg = v_div(sum, (n * (SCALE as int)) as i64);
    (pack_rgba8_s(gamma_channel_s(avg.x), gamma_channel_s(avg.y), gamma_channel_s(avg.z), 255u8), i1)
}

/// The first `p` pixels of the image, row-major from the top-left, and the
/// advanced cursor.
pub open spec fn render_upto_s(
    p: int,
    width: int,
    height: int,
    n: int,
    cam: Camera,
    objs: Seq<GeometricObject>,
    t_min: i64,
    t_max: i64,
    vals: Seq<i64>,
    idx: int,
) -> (Seq<u32>, int)
    decreases p,
{
    if p <= 0 {
        (Seq::empty(), idx)
    } else {
        let (img, i1) = render_upto_s(p - 1, width, height, n, cam, objs, t_min, t_max, vals, idx);
        let (px, i2) = pixel_value_s(
            (p - 1) / width,
            (p - 1) % width,
            width,
            height,
            n,
            cam,
            objs,
            t_min,
            t_max,
            vals,
            i1,
        );
        (img.push(px), i2)
    }
}

/// Render one pixel: average `num_samples` jittered radiance estimates,
/// gamma map, and pack.
fn render_pixel(
    i: u16,
    j: u16,
    width: u16,
    height: u16,
    num_samples: u8,
    camera: &Camera,
    world: &World,
    rng: &mut RandomSource,
) -> (px: u32)
    requires
        old(rng).wf(),
    ensures
        final(rng).wf(),
        final(rng).vals() == old(rng).vals(),
        ({
            let (p, ni) = pixel_value_s(
                i as int,
                j as int,
                width as int,
                height as int,
                num_samples as int,
                *camera,
                world.objects@,
                world.t_min,
                world.t_max,
                old(rng).vals(),
                old(rng).cursor(),
            );
            px == p && final(rng).cursor() == ni
        }),
{
    let mut sum: Vec3 = Vec3::new(0, 0, 0);
    let mut k: u8 = 0;
    while k < num_samples
        invariant
            k <= num_samples,
            rng.wf(),
            rng.vals() == old(rng).vals(),
            ({
                let (acc, a0) = pixel_samples_s(
                    i as int,
                    j as int,
                    width as int,
                    height as int,
                    k as int,
                    *camera,
                    world.objects@,
                    world.t_min,
                    world.t_max,
                    old(rng).vals(),
                    old(rng).cursor(),
                );
                sum == acc && rng.cursor() == a0
            }),
        decreases num_samples - k,
    {
        let xx: i64 = rng.next_unit();
        let yy: i64 = rng.next_unit();
        let dx: i64 = fdiv(fadd((j as i64) * SCALE, xx), (width as i64) * SCALE);
        let dy: i64 = fdiv(fadd((i as i64) * SCALE, yy), (height as i64) * SCALE);
        let ray: Ray = camera.get_ray(dx, dy, rng);
        let c: Vec3 = radiance(&ray, world, 0, rng);
        sum = sum.add(&c);
        k = k + 1;
    }
    proof {
        reveal(pixel_value_s);
    }
    let divisor: i64 = (num_samples as i64) * SCALE;
    let avg: Vec3 = sum.div_by(divisor);
    pack_rgba8(gamma_channel(avg.x), gamma_channel(avg.y), gamma_channel(avg.z), 255)
}

/// Render the scene to a row-major, top-to-bottom buffer of packed RGBA
/// pixels, one 32-bit word per pixel, red in the lowest byte, alpha 255.
#[verifier::rlimit(100)]
pub fn render(
    width: u16,
    height: u16,
    num_samples: u8,
    camera: &Camera,
    world: &World,
    rng: &mut RandomSource,
) -> (image: Vec<u32>)
    requires
        old(rng).wf(),
    ensures
        final(rng).wf(),
        final(rng).vals() == old(rng).vals(),
        image@.len() == (width as int) * (height as int),
        ({
            let (img, ni) = render_upto_s(
                (width as int) * (height as int),
                width as int,
                height as int,
                num_samples as int,
                *camera,
                world.objects@,
                world.t_min,
                world.t_max,
                old(rng).vals(),
                old(rng).cursor(),
            );
            image@ == img && final(rng).cursor() == ni
        }),
{
    proof {
        assert((width as int) * (height as int) < 0x1_0000_0000int && (width as int) * (
        height as int) >= 0) by (nonlinear_arith)
            requires
                0 <= (width as int) < 0x1_0000int,
                0 <= (height as int) < 0x1_0000int,
        ;
        if width == 0 || height == 0 {
            assert((width as int) * (height as int) == 0) by (nonlinear_arith)
                requires
                    width == 0 || height == 0,
            ;
        }
    }
    let total: u32 = (width as u32) * (height as u32);
    let mut image: Vec<u32> = Vec::new();
    let mut p: u32 = 0;
    if width == 0 || height == 0 {
        return image;
    }
    while p < total
        invariant
            width > 0,
            total == (width as int) * (height as int),
            p <= total,
            image@.len() == p as int,
            rng.wf(),
            rng.vals() == old(rng).vals(),
            ({
                let (img, i1) = render_upto_s(
                    p as int,
                    width as int,
                    height as int,
                    num_samples as int,
                    *camera,
                    world.objects@,
                    world.t_min,
                    world.t_max,
                    old(rng).vals(),
                    old(rng).cursor(),
                );
                image@ == img && rng.cursor() == i1
            }),
        decreases total - p,
    {
        let i: u16 = (p / (width as u32)) as u16;
        let j: u16 = (p % (width as u32)) as u16;
        proof {
            let q = (p as int) / (width as int);
            vstd::arithmetic::div_mod::lemma_remainder_lower(p as int, width as int);
            vstd::arithmetic::div_mod::lemma_div_pos_is_pos(p as int, width as int);
            assert(q < height as int) by (nonlinear_arith)
                requires
                    q * (width as int) <= (p as int),
                    (p as int) < (width as int) * (height as int),
                    (width as int) > 0,
                    0 <= q,
            ;
            assert(0 <= (p as int) % (width as int) < width as int) by {
                vstd::arithmetic::div_mod::lemma_mod_bound(p as int, width as int);
            }
        }
        let px: u32 = render_pixel(i, j, width, height, num_samples, camera, world, rng);
        image.push(px);
        p = p + 1;
    }
    image
}

} // verus!
