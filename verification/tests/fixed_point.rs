use pathtracer::fx::{fadd, fdiv, fmul, fneg, fsqrt, fsub, FX_MAX, SCALE};
use pathtracer::rng::RandomSource;
use pathtracer::trig::{cos_fx, emod, sin_fx, tan_fx, HALF_PI_FX, PI_FX, TAU_FX};
use pathtracer::vec3::Vec3;

#[test]
fn fixed_add_sub_neg() {
    assert_eq!(fadd(250_000, 750_000), 1_000_000);
    assert_eq!(fsub(250_000, 750_000), -500_000);
    assert_eq!(fneg(-123), 123);
    assert_eq!(fadd(FX_MAX, FX_MAX), FX_MAX);
    assert_eq!(fsub(-FX_MAX, FX_MAX), -FX_MAX);
}

#[test]
fn fixed_mul_truncates_toward_zero() {
    assert_eq!(fmul(500_000, 500_000), 250_000);
    assert_eq!(fmul(3, 500_000), 1);
    assert_eq!(fmul(-3, 500_000), -1);
    assert_eq!(fmul(1_000_000, -1_000_000), -1_000_000);
    assert_eq!(fmul(0, 12345), 0);
}

#[test]
fn fixed_div_truncates_and_is_total() {
    assert_eq!(fdiv(1_000_000, 3_000_000), 333_333);
    assert_eq!(fdiv(-1_000_000, 3_000_000), -333_333);
    assert_eq!(fdiv(1_000_000, -3_000_000), -333_333);
    assert_eq!(fdiv(42, 0), 0);
}

#[test]
fn fixed_sqrt_exact_squares() {
    assert_eq!(fsqrt(4_000_000), 2_000_000);
    assert_eq!(fsqrt(SCALE), SCALE);
    assert_eq!(fsqrt(250_000), 500_000);
    assert_eq!(fsqrt(0), 0);
    assert_eq!(fsqrt(-7), 0);
}

#[test]
fn euclidean_remainder() {
    assert_eq!(emod(7, 3), 1);
    assert_eq!(emod(-1, 10), 9);
    assert_eq!(emod(-1_000_000, TAU_FX), 5_283_184);
    assert_eq!(emod(TAU_FX, TAU_FX), 0);
}

#[test]
fn sine_and_cosine_landmarks() {
    assert_eq!(sin_fx(0), 0);
    assert_eq!(sin_fx(HALF_PI_FX), 1_000_000);
    assert_eq!(cos_fx(0), 1_000_000);
    assert_eq!(tan_fx(0), 0);
    assert!(sin_fx(PI_FX + HALF_PI_FX) < 0);
}

#[test]
fn vector_dot_and_cross() {
    let a: Vec3 = Vec3::new(1_000_000, 0, 0);
    let b: Vec3 = Vec3::new(0, 1_000_000, 0);
    assert_eq!(a.dot(&b), 0);
    assert_eq!(a.dot(&a), 1_000_000);
    assert_eq!(a.cross(&b), Vec3::new(0, 0, 1_000_000));
    let c: Vec3 = Vec3::new(2_000_000, 3_000_000, 4_000_000);
    assert_eq!(c.dot(&c), 29_000_000);
}

#[test]
fn vector_normalize_axis_is_exact() {
    let up: Vec3 = Vec3::new(0, 1_000_000, 0);
    assert_eq!(up.normalize(), up);
    let down: Vec3 = Vec3::new(0, -1_000_000, 0);
    assert_eq!(down.normalize(), down);
    assert_eq!(Vec3::new(0, 3_000_000, 0).normalize(), up);
}

#[test]
fn vector_lerp_endpoints() {
    let a: Vec3 = Vec3::new(1_000_000, 1_000_000, 1_000_000);
    let b: Vec3 = Vec3::new(500_000, 700_000, 1_000_000);
    assert_eq!(a.lerp(&b, 0), a);
    assert_eq!(a.lerp(&b, SCALE), b);
    assert_eq!(a.lerp(&b, 500_000), Vec3::new(750_000, 850_000, 1_000_000));
}

#[test]
fn random_source_clamps_and_cycles() {
    let mut rng: RandomSource = RandomSource::new(vec![0, 500_000, 2_000_000, -5]);
    assert_eq!(rng.next_unit(), 0);
    assert_eq!(rng.next_unit(), 500_000);
    assert_eq!(rng.next_unit(), 999_999);
    assert_eq!(rng.next_unit(), 0);
    assert_eq!(rng.next_unit(), 0);
    assert_eq!(rng.next_unit(), 500_000);
}

#[test]
fn random_source_empty_is_zero() {
    let mut rng: RandomSource = RandomSource::new(Vec::new());
    assert_eq!(rng.next_unit(), 0);
    assert_eq!(rng.next_unit(), 0);
}
