use ray_tracing::colour::Colour;
use ray_tracing::hittable::HitRecord;
use ray_tracing::material::{
    dielectric_direction, metal_direction, scatter_direction,
    Dielectric, Lambertian, Material, Metal,
};
use ray_tracing::util::{reflect, refract};
use ray_tracing::{Point3, Ray, Vec3, SCALE};

#[test]
fn metal_fuzz_clamped_at_construction() {
    let albedo = Colour::new(SCALE, SCALE, SCALE);
    assert_eq!(Metal::new(&albedo, 2 * SCALE).fuzz, SCALE);
    assert_eq!(Metal::new(&albedo, -SCALE).fuzz, 0);
    assert_eq!(Metal::new(&albedo, SCALE / 4).fuzz, SCALE / 4);
}

#[test]
fn lambertian_degenerate_direction_falls_back_to_normal() {
    // A sample exactly opposite the normal cancels to zero; the scatter
    // direction falls back to the normal itself.
    let normal = Vec3::new(0, SCALE, 0);
    let sample = Vec3::new(0, -SCALE, 0);
    assert_eq!(scatter_direction(&normal, &sample), normal);
    // A generic sample is simply added to the normal.
    let tilted = Vec3::new(SCALE, 0, 0);
    assert_eq!(scatter_direction(&normal, &tilted), Vec3::new(SCALE, SCALE, 0));
}

#[test]
fn metal_direction_mirrors_without_fuzz() {
    // A 45-degree incoming ray leaves at 45 degrees, normalized.
    let incoming = Vec3::new(SCALE, -SCALE, 0);
    let normal = Vec3::new(0, SCALE, 0);
    let zero_sample = Vec3::new(0, 0, 0);
    let out = metal_direction(&incoming, &normal, 0, &zero_sample);
    assert_eq!(out, Vec3::new(46341, 46341, 0));
}

#[test]
fn dielectric_total_internal_reflection() {
    // At a ratio of 1.5 and 45 degrees of incidence the sine condition
    // exceeds one: the ray must reflect, whatever the draw.
    let unit_in = Vec3::new(46340, 46340, 0);
    let normal = Vec3::new(0, -SCALE, 0);
    let ratio = 3 * SCALE / 2;
    let out = dielectric_direction(&unit_in, &normal, ratio, SCALE);
    assert_eq!(out, reflect(&unit_in, &normal));
}

#[test]
fn dielectric_refracts_on_a_high_draw() {
    // Entering the denser medium at 45 degrees: no total internal
    // reflection, and a draw above the reflectance refracts by Snell's law.
    let unit_in = Vec3::new(46340, 46340, 0);
    let normal = Vec3::new(0, -SCALE, 0);
    let ratio = 43690; // two thirds: air into glass
    let out = dielectric_direction(&unit_in, &normal, ratio, SCALE);
    assert_eq!(out, refract(&unit_in, &normal, ratio));
    assert_ne!(out, reflect(&unit_in, &normal));
}

fn record_at(p: Point3, normal: Vec3, front_face: bool) -> HitRecord {
    let mut rec = HitRecord::default();
    rec.p = p;
    rec.normal = normal;
    rec.front_face = front_face;
    rec
}

#[test]
fn lambertian_always_scatters_with_albedo() {
    let albedo = Colour::new(SCALE / 2, SCALE / 4, SCALE);
    let material = Material::Lambertian(Lambertian::new(&albedo));
    let ray = Ray::new(Point3::new(0, 0, 0), Vec3::new(0, 0, -SCALE));
    let rec = record_at(Point3::new(0, 0, -2 * SCALE), Vec3::new(0, 0, SCALE), true);
    let scatter = material.scatter(&ray, &rec).unwrap();
    assert_eq!(scatter.attenuation, albedo);
    assert_eq!(*scatter.scattered.origin(), rec.p);
}

#[test]
fn metal_always_scatters_with_albedo() {
    let albedo = Colour::new(SCALE, SCALE / 2, 0);
    let material = Material::Metal(Metal::new(&albedo, SCALE / 2));
    let ray = Ray::new(Point3::new(0, 0, 0), Vec3::new(0, 0, -SCALE));
    let rec = record_at(Point3::new(0, 0, -2 * SCALE), Vec3::new(0, 0, SCALE), true);
    let scatter = material.scatter(&ray, &rec).unwrap();
    assert_eq!(scatter.attenuation, albedo);
    assert_eq!(*scatter.scattered.origin(), rec.p);
}

#[test]
fn dielectric_attenuates_nothing() {
    let material = Material::Dielectric(Dielectric::new(3 * SCALE / 2));
    let ray = Ray::new(Point3::new(0, 0, 0), Vec3::new(0, 0, -SCALE));
    let rec = record_at(Point3::new(0, 0, -2 * SCALE), Vec3::new(0, 0, SCALE), true);
    let scatter = material.scatter(&ray, &rec).unwrap();
    assert_eq!(scatter.attenuation, Colour::new(SCALE, SCALE, SCALE));
    assert_eq!(*scatter.scattered.origin(), rec.p);
}
