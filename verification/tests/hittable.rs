use ray_tracing::camera::{RAY_T_MAX, RAY_T_MIN};
use ray_tracing::colour::Colour;
use ray_tracing::hittable::{HitRecord, Hittable, HittableList};
use ray_tracing::interval::Interval;
use ray_tracing::material::{Lambertian, Material};
use ray_tracing::{Point3, Ray, Sphere, Vec3, SCALE};

fn blue_lambertian() -> Material {
    Material::Lambertian(Lambertian::new(&Colour::new(0, 0, SCALE)))
}

fn unit_sphere_at(center: Point3) -> Sphere {
    Sphere::new(center, SCALE, blue_lambertian())
}

#[test]
fn hittable_list_empty() {
    let list = HittableList::default();
    assert_eq!(list.len(), 0);
}

#[test]
fn hittable_list_single_element() {
    let mut list = HittableList::default();
    list.add(unit_sphere_at(Point3::new(-SCALE, 0, -SCALE)));
    assert_eq!(list.len(), 1);
}

#[test]
fn hittable_list_multiple_elements() {
    let mut list = HittableList::default();
    list.add(unit_sphere_at(Point3::new(-SCALE, 0, -SCALE)));
    list.add(unit_sphere_at(Point3::new(-SCALE, 0, -SCALE)));
    assert_eq!(list.len(), 2);
}

#[test]
fn hittable_list_trailing() {
    let mut list = HittableList::default();
    list.add(unit_sphere_at(Point3::new(-SCALE, 0, -SCALE)));
    list.add(unit_sphere_at(Point3::new(-SCALE, 0, -SCALE)));
    list.clear();
    list.add(unit_sphere_at(Point3::new(-SCALE, 0, -SCALE)));
    list.add(unit_sphere_at(Point3::new(-SCALE, 0, -SCALE)));
    assert_eq!(list.len(), 2);
}

#[test]
fn sphere_center_aimed_ray_hits() {
    // A ray aimed straight at the center from three units away strikes the
    // front face at distance two, with the normal against the ray.
    let sphere = unit_sphere_at(Point3::new(0, 0, -3 * SCALE));
    let ray = Ray::new(Point3::new(0, 0, 0), Vec3::new(0, 0, -3 * SCALE));
    let mut rec = HitRecord::default();
    assert!(sphere.hit(&ray, Interval::new(RAY_T_MIN, RAY_T_MAX), &mut rec));
    assert!(rec.front_face);
    // t = 2/3 of the direction's length: the surface sits two units out.
    assert_eq!(rec.t, 43690);
    // The normal points back along the ray: (0, 0, 1), within the rounding
    // of the truncated root.
    assert_eq!(rec.normal, Vec3::new(0, 0, SCALE + 2));
    assert!(ray.direction().dot(&rec.normal) < 0);
}

#[test]
fn sphere_tangent_ray_single_root() {
    // A ray grazing the sphere at exactly one radius of closest approach:
    // the discriminant vanishes and a single root at t = 5 is accepted.
    let sphere = unit_sphere_at(Point3::new(0, 0, -2 * SCALE));
    let ray = Ray::new(
        Point3::new(-5 * SCALE, SCALE, -2 * SCALE),
        Vec3::new(SCALE, 0, 0),
    );
    let mut rec = HitRecord::default();
    assert!(sphere.hit(&ray, Interval::new(RAY_T_MIN, RAY_T_MAX), &mut rec));
    assert_eq!(rec.t, 5 * SCALE);
    // The grazing point is on the equatorial tangent plane.
    assert_eq!(rec.p, Vec3::new(0, SCALE, -2 * SCALE));
}

#[test]
fn sphere_miss_leaves_record_unchanged() {
    let sphere = unit_sphere_at(Point3::new(0, 0, -5 * SCALE));
    let ray = Ray::new(Point3::new(0, 0, 0), Vec3::new(0, 0, SCALE));
    let mut rec = HitRecord::default();
    assert!(!sphere.hit(&ray, Interval::new(RAY_T_MIN, RAY_T_MAX), &mut rec));
    assert_eq!(rec.t, 0);
}

#[test]
fn list_returns_nearest_hit() {
    // Two spheres along the ray: the nearer one wins regardless of order.
    let near = unit_sphere_at(Point3::new(0, 0, -3 * SCALE));
    let far = unit_sphere_at(Point3::new(0, 0, -9 * SCALE));
    let ray = Ray::new(Point3::new(0, 0, 0), Vec3::new(0, 0, -SCALE));

    let mut list = HittableList::default();
    list.add(far);
    list.add(near);
    let mut rec = HitRecord::default();
    assert!(list.hit(&ray, Interval::new(RAY_T_MIN, RAY_T_MAX), &mut rec));
    assert_eq!(rec.t, 2 * SCALE);
    assert!(rec.mat.is_some());

    let mut list2 = HittableList::default();
    list2.add(near);
    list2.add(far);
    let mut rec2 = HitRecord::default();
    assert!(list2.hit(&ray, Interval::new(RAY_T_MIN, RAY_T_MAX), &mut rec2));
    assert_eq!(rec2.t, 2 * SCALE);
}
