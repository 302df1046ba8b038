use pathtracer::camera::Camera;
use pathtracer::geometric_objects::{GeometricObject, MovingSphere, Sphere};
use pathtracer::materials::{
    generate_reflect_probability, reflected_vector, refracted_vector, Material, Texture,
};
use pathtracer::ray::Ray;
use pathtracer::render::{gamma_channel, pack_rgba8, radiance, render, sky_color};
use pathtracer::rng::RandomSource;
use pathtracer::vec3::Vec3;
use pathtracer::world::World;

#[test]
fn reflect_about_axis_normal_is_involutive() {
    let n: Vec3 = Vec3::new(0, 1_000_000, 0);
    let v: Vec3 = Vec3::new(123_456, -654_321, 999_999);
    let once: Vec3 = reflected_vector(&v, &n);
    assert_eq!(once, Vec3::new(123_456, 654_321, 999_999));
    let twice: Vec3 = reflected_vector(&once, &n);
    assert_eq!(twice, v);
}

#[test]
fn reflectance_at_normal_incidence_is_r0() {
    // n = 1.5: r0 = ((1 - 1.5) / (1 + 1.5))^2 = 0.04 exactly.
    assert_eq!(generate_reflect_probability(1_000_000, 1_500_000), 40_000);
}

#[test]
fn refraction_bends_and_reports_total_internal_reflection() {
    let v: Vec3 = Vec3::new(1_000_000, 0, 0);
    let n: Vec3 = Vec3::new(0, 1_000_000, 0);
    assert_eq!(refracted_vector(&v, &n, 2_000_000), None);
    assert_eq!(
        refracted_vector(&v, &n, 500_000),
        Some(Vec3::new(500_000, -866_025, 0))
    );
}

#[test]
fn texture_constant_and_checkerboard() {
    let red: Vec3 = Vec3::new(1_000_000, 0, 0);
    let green: Vec3 = Vec3::new(0, 1_000_000, 0);
    let plain: Texture = Texture::Constant { color: red };
    assert_eq!(plain.value(0, 0, &Vec3::new(7, 8, 9)), red);

    let checker: Texture = Texture::Checkerboard {
        left: Box::new(Texture::Constant { color: red }),
        right: Box::new(Texture::Constant { color: green }),
    };
    // At the origin every sine is zero, so the product is not negative: right.
    assert_eq!(checker.value(0, 0, &Vec3::new(0, 0, 0)), green);
    // 10 x in (pi, 2 pi) makes one factor negative and the others positive: left.
    let p: Vec3 = Vec3::new(471_239, 157_079, 157_079);
    assert_eq!(checker.value(0, 0, &p), red);
}

#[test]
fn sphere_hit_returns_near_root_and_unit_normal() {
    let material: Material = Material::Metallic { r: 800_000, g: 800_000, b: 800_000 };
    let sphere: Sphere = Sphere::new(Vec3::new(0, 0, 0), 1_000_000, material);
    let ray: Ray = Ray::new(Vec3::new(0, 0, 5_000_000), Vec3::new(0, 0, -1_000_000), 0);
    let rec = sphere.hit(&ray, 1_000, 1_000_000_000).unwrap();
    assert_eq!(rec.intersect_parameter, 4_000_000);
    assert_eq!(rec.local_hit_point, Vec3::new(0, 0, 1_000_000));
    assert_eq!(rec.normal, Vec3::new(0, 0, 1_000_000));
}

#[test]
fn sphere_hit_misses_behind_the_ray() {
    let material: Material = Material::Dielectric { refractive_index: 1_500_000 };
    let sphere: Sphere = Sphere::new(Vec3::new(0, 0, 0), 1_000_000, material);
    let ray: Ray = Ray::new(Vec3::new(0, 0, 5_000_000), Vec3::new(0, 0, 1_000_000), 0);
    assert!(sphere.hit(&ray, 1_000, 1_000_000_000).is_none());
}

#[test]
fn moving_sphere_center_interpolates() {
    let material: Material = Material::Dielectric { refractive_index: 1_500_000 };
    let sphere: MovingSphere = MovingSphere::new(
        Vec3::new(0, 0, 0),
        Vec3::new(0, 1_000_000, 0),
        0,
        1_000_000,
        250_000,
        material,
    );
    assert_eq!(sphere.center(0), Vec3::new(0, 0, 0));
    assert_eq!(sphere.center(500_000), Vec3::new(0, 500_000, 0));
    assert_eq!(sphere.center(1_000_000), Vec3::new(0, 1_000_000, 0));
}

#[test]
fn trace_returns_nearer_sphere_in_either_order() {
    let near_mat: Material = Material::Metallic { r: 1_000_000, g: 0, b: 0 };
    let far_mat: Material = Material::Metallic { r: 0, g: 1_000_000, b: 0 };
    let near_sphere = GeometricObject::Sphere(Sphere::new(
        Vec3::new(0, 0, -2_000_000),
        500_000,
        near_mat.clone(),
    ));
    let far_sphere = GeometricObject::Sphere(Sphere::new(
        Vec3::new(0, 0, -4_000_000),
        500_000,
        far_mat.clone(),
    ));
    let ray: Ray = Ray::new(Vec3::new(0, 0, 0), Vec3::new(0, 0, -1_000_000), 0);

    let mut ab: World = World::new();
    ab.add_object(near_sphere);
    ab.add_object(far_sphere);
    let rec_ab = ab.trace(&ray).unwrap();

    let near_sphere2 = GeometricObject::Sphere(Sphere::new(
        Vec3::new(0, 0, -2_000_000),
        500_000,
        near_mat,
    ));
    let far_sphere2 = GeometricObject::Sphere(Sphere::new(
        Vec3::new(0, 0, -4_000_000),
        500_000,
        far_mat,
    ));
    let mut ba: World = World::new();
    ba.add_object(far_sphere2);
    ba.add_object(near_sphere2);
    let rec_ba = ba.trace(&ray).unwrap();

    assert_eq!(rec_ab.intersect_parameter, 1_500_000);
    assert_eq!(rec_ba.intersect_parameter, 1_500_000);
    let red_ab: bool = matches!(rec_ab.material, Material::Metallic { r: 1_000_000, .. });
    let red_ba: bool = matches!(rec_ba.material, Material::Metallic { r: 1_000_000, .. });
    assert!(red_ab);
    assert!(red_ba);
}

#[test]
fn trace_empty_world_is_none() {
    let world: World = World::new();
    let ray: Ray = Ray::new(Vec3::new(0, 0, 0), Vec3::new(0, 0, -1_000_000), 0);
    assert!(world.trace(&ray).is_none());
}

#[test]
fn sky_gradient_poles() {
    let up: Ray = Ray::new(Vec3::new(0, 0, 0), Vec3::new(0, 1_000_000, 0), 0);
    assert_eq!(sky_color(&up), Vec3::new(500_000, 700_000, 1_000_000));
    let down: Ray = Ray::new(Vec3::new(0, 0, 0), Vec3::new(0, -1_000_000, 0), 0);
    assert_eq!(sky_color(&down), Vec3::new(1_000_000, 1_000_000, 1_000_000));
}

#[test]
fn radiance_of_missing_ray_is_the_sky() {
    let world: World = World::new();
    let mut rng: RandomSource = RandomSource::new(vec![500_000]);
    let up: Ray = Ray::new(Vec3::new(0, 0, 0), Vec3::new(0, 1_000_000, 0), 0);
    assert_eq!(radiance(&up, &world, 0, &mut rng), Vec3::new(500_000, 700_000, 1_000_000));
}

#[test]
fn radiance_at_depth_budget_is_black() {
    let mut world: World = World::new();
    world.add_object(GeometricObject::Sphere(Sphere::new(
        Vec3::new(0, 0, -1_000_000),
        500_000,
        Material::Metallic { r: 900_000, g: 900_000, b: 900_000 },
    )));
    let mut rng: RandomSource = RandomSource::new(vec![1, 2, 3]);
    let ray: Ray = Ray::new(Vec3::new(0, 0, 0), Vec3::new(0, 0, -1_000_000), 0);
    assert_eq!(radiance(&ray, &world, 50, &mut rng), Vec3::new(0, 0, 0));
    assert_eq!(radiance(&ray, &world, 51, &mut rng), Vec3::new(0, 0, 0));
}

#[test]
fn camera_center_ray_points_at_the_target() {
    let camera: Camera = Camera::new(
        Vec3::new(0, 0, 0),
        Vec3::new(0, 0, -1_000_000),
        Vec3::new(0, 1_000_000, 0),
        90_000_000,
        1_000_000,
        0,
        1_000_000,
        0,
        0,
    );
    let mut rng: RandomSource = RandomSource::new(vec![500_000]);
    let ray: Ray = camera.get_ray(500_000, 500_000, &mut rng);
    assert_eq!(ray.origin, Vec3::new(0, 0, 0));
    assert_eq!(ray.direction, Vec3::new(0, 0, -1_000_000));
    assert_eq!(ray.time, 0);
}

#[test]
fn gamma_and_packing() {
    assert_eq!(gamma_channel(1_000_000), 255);
    assert_eq!(gamma_channel(0), 0);
    assert_eq!(gamma_channel(250_000), 127);
    assert_eq!(gamma_channel(-5), 0);
    assert_eq!(gamma_channel(2_000_000), 255);
    assert_eq!(pack_rgba8(1, 2, 3, 255), 4_278_387_201);
    assert_eq!(pack_rgba8(0, 0, 0, 0), 0);
}

#[test]
fn render_single_lambertian_sphere_two_by_two() {
    let mut world: World = World::new();
    world.add_object(GeometricObject::Sphere(Sphere::new(
        Vec3::new(0, 0, -1_000_000),
        500_000,
        Material::Lambertian {
            texture: Texture::Constant { color: Vec3::new(500_000, 500_000, 500_000) },
        },
    )));
    let camera: Camera = Camera::new(
        Vec3::new(0, 0, 0),
        Vec3::new(0, 0, -1_000_000),
        Vec3::new(0, 1_000_000, 0),
        90_000_000,
        1_000_000,
        0,
        1_000_000,
        0,
        0,
    );
    let mut rng: RandomSource = RandomSource::new(vec![999_999]);
    let image: Vec<u32> = render(2, 2, 1, &camera, &world, &mut rng);
    assert_eq!(image.len(), 4);
    for px in &image {
        // Alpha is fixed at 255; every channel is a byte by construction.
        assert_eq!(px >> 24, 255);
    }
    // The top-left sample is jittered onto the view axis and hits the
    // sphere; the opposite corner misses and shows pure sky.  Their red
    // channels differ clearly.
    let hit_red: i32 = (image[0] & 255) as i32;
    let miss_red: i32 = (image[3] & 255) as i32;
    assert!((hit_red - miss_red).abs() > 20);
}
