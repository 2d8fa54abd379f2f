use ray_tracing::interval::Interval;
use ray_tracing::util::{degrees_to_radians, is_vec3_near_zero, reflect, refract};
use ray_tracing::{Point3, Ray, Vec3, SCALE};

#[test]
fn ray_at_zero_vec_origin() {
    let ray = Ray::new(Point3::new(0, 0, 0), Vec3::new(SCALE, SCALE, 0));
    assert_eq!(ray.at(0), Vec3::new(0, 0, 0));
    assert_eq!(ray.at(SCALE / 2), Vec3::new(SCALE / 2, SCALE / 2, 0));
    assert_eq!(ray.at(SCALE), Vec3::new(SCALE, SCALE, 0));
    assert_eq!(ray.at(2 * SCALE), Vec3::new(2 * SCALE, 2 * SCALE, 0));
    assert_eq!(ray.at(-2 * SCALE), Vec3::new(-2 * SCALE, -2 * SCALE, 0));
}

#[test]
fn ray_at_zero_vec_dir() {
    let ray = Ray::new(Point3::new(0, 0, 0), Vec3::new(0, 0, 0));
    assert_eq!(ray.at(0), Vec3::new(0, 0, 0));
    assert_eq!(ray.at(SCALE / 2), Vec3::new(0, 0, 0));
    assert_eq!(ray.at(SCALE), Vec3::new(0, 0, 0));
    assert_eq!(ray.at(-SCALE), Vec3::new(0, 0, 0));
}

#[test]
fn ray_at() {
    let ray = Ray::new(Point3::new(SCALE, 2 * SCALE, 3 * SCALE), Vec3::new(SCALE, SCALE, SCALE));
    assert_eq!(ray.at(0), Vec3::new(SCALE, 2 * SCALE, 3 * SCALE));
    assert_eq!(
        ray.at(SCALE / 2),
        Vec3::new(3 * SCALE / 2, 5 * SCALE / 2, 7 * SCALE / 2),
    );
    assert_eq!(ray.at(SCALE), Vec3::new(2 * SCALE, 3 * SCALE, 4 * SCALE));
    assert_eq!(ray.at(-SCALE), Vec3::new(0, SCALE, 2 * SCALE));
}

#[test]
fn interval_queries() {
    let interval = Interval::new(0, 10 * SCALE);
    assert_eq!(interval.size(), 10 * SCALE);
    assert!(interval.contains(5 * SCALE));
    assert!(interval.contains(0));
    assert!(interval.contains(10 * SCALE));
    assert!(!interval.contains(15 * SCALE));
    assert!(interval.surrounds(5 * SCALE));
    assert!(!interval.surrounds(0));
    assert!(!interval.surrounds(10 * SCALE));
    assert_eq!(interval.clamp(5 * SCALE), 5 * SCALE);
    assert_eq!(interval.clamp(-5 * SCALE), 0);
    assert_eq!(interval.clamp(15 * SCALE), 10 * SCALE);
    // Clamping is idempotent.
    assert_eq!(interval.clamp(interval.clamp(-5 * SCALE)), 0);
}

#[test]
fn reflect_mirrors_about_normal() {
    let reflected = reflect(&Vec3::new(SCALE, 0, 0), &Vec3::new(-SCALE, -SCALE, 0));
    assert_eq!(reflected, Vec3::new(-SCALE, -2 * SCALE, 0));
}

#[test]
fn refract_straight_through_at_unit_ratio() {
    // A ray along the inward normal passes straight through at ratio one.
    let refracted = refract(&Vec3::new(0, -SCALE, 0), &Vec3::new(0, SCALE, 0), SCALE);
    assert_eq!(refracted, Vec3::new(0, -SCALE, 0));
}

#[test]
fn near_zero_detects_only_zero() {
    assert!(is_vec3_near_zero(Vec3::new(0, 0, 0)));
    assert!(!is_vec3_near_zero(Vec3::new(SCALE, 0, 0)));
    assert!(!is_vec3_near_zero(Vec3::new(0, -1, 0)));
}

#[test]
fn degrees_to_radians_quarter_turn() {
    // Ninety degrees is pi / 2: half of the fixed-point pi, rounded down.
    assert_eq!(degrees_to_radians(90 * SCALE), 102943);
}

#[test]
fn random_unit_vector_near_unit_length() {
    for _ in 0..32 {
        let v = ray_tracing::random::random_unit_vector();
        let lensq = v.length_squared();
        assert!(SCALE - 16 <= lensq && lensq <= SCALE + 21);
    }
}

#[test]
fn normalize_unit_length() {
    let v = Vec3::new(3 * SCALE, 4 * SCALE, 0);
    let u = v.normalize();
    // The classic 3-4-5 triangle: the unit vector is (0.6, 0.8, 0).
    assert_eq!(u, Vec3::new(39321, 52428, 0));
}
