use ray_tracing::camera::{Camera, CameraBuilder};
use ray_tracing::colour::Colour;
use ray_tracing::hittable::HittableList;
use ray_tracing::material::{Lambertian, Material};
use ray_tracing::{Point3, Ray, Sphere, Vec3, SCALE};

fn default_camera() -> Camera {
    CameraBuilder::default().build()
}

#[test]
fn exhausted_depth_is_black() {
    // A fully absorbing query: with no bounces left the result is black,
    // whatever the scene holds.
    let camera = default_camera();
    let mut world = HittableList::default();
    world.add(Sphere::new(
        Point3::new(0, 0, -3 * SCALE),
        SCALE,
        Material::Lambertian(Lambertian::new(&Colour::new(SCALE, 0, 0))),
    ));
    let ray = Ray::new(Point3::new(0, 0, 0), Vec3::new(0, 0, -SCALE));
    let colour = camera.ray_colour(&ray, 0, &world);
    assert_eq!(colour, Colour::new(0, 0, 0));
}

#[test]
fn empty_scene_background_extremes() {
    // With no primitives every ray returns the background gradient: pure
    // white looking straight down, the sky colour looking straight up.
    let camera = default_camera();
    let world = HittableList::default();

    let down = Ray::new(Point3::new(0, 0, 0), Vec3::new(0, -SCALE, 0));
    assert_eq!(camera.ray_colour(&down, 10, &world), Colour::new(SCALE, SCALE, SCALE));

    let up = Ray::new(Point3::new(0, 0, 0), Vec3::new(0, SCALE, 0));
    assert_eq!(camera.ray_colour(&up, 10, &world), Colour::new(SCALE / 2, 45875, SCALE));
}

#[test]
fn empty_scene_mixed_direction_blends() {
    // A horizontal ray sits halfway up the gradient: the even blend of
    // white and sky.
    let camera = default_camera();
    let world = HittableList::default();
    let level = Ray::new(Point3::new(0, 0, 0), Vec3::new(SCALE, 0, 0));
    let colour = camera.ray_colour(&level, 10, &world);
    // Half of white plus half of (0.5, 0.7, 1.0).
    assert_eq!(colour, Colour::new(49152, 55705, SCALE));
}

#[test]
fn two_spheres_image_shape() {
    // Two touching spheres of radius cos(45 degrees) on either side of the
    // axis, rendered at 400 pixels wide and 16:9: the header names the
    // 400 by 225 geometry and every pixel produces exactly one line.
    let radius = 46341; // cos of a quarter turn's half, in fixed point
    let blue = Material::Lambertian(Lambertian::new(&Colour::new(0, 0, SCALE)));
    let red = Material::Lambertian(Lambertian::new(&Colour::new(SCALE, 0, 0)));
    let mut world = HittableList::default();
    world.add(Sphere::new(Point3::new(-radius, 0, -SCALE), radius, blue));
    world.add(Sphere::new(Point3::new(radius, 0, -SCALE), radius, red));

    let camera = CameraBuilder::default()
        .aspect_ratio(16 * SCALE / 9)
        .image_width(400)
        .samples_per_pixel(1)
        .max_depth(50)
        .vfov(20 * SCALE)
        .build();

    let lines = camera.render(&world);
    assert_eq!(lines.len(), 3 + 400 * 225);
    assert_eq!(lines[0], "P3");
    assert_eq!(lines[1], "400 225");
    assert_eq!(lines[2], "255");
    for line in lines.iter().skip(3) {
        let bytes: Vec<i64> = line
            .split(' ')
            .map(|part| part.parse::<i64>().expect("a decimal byte"))
            .collect();
        assert_eq!(bytes.len(), 3);
        assert!(bytes.iter().all(|b| (0..=255).contains(b)));
    }
}

#[test]
fn off_axis_camera_with_defocus_renders() {
    // The full geometry path: an off-axis viewpoint, a tilted basis, and a
    // positive defocus angle, so rays originate on the lens disk.
    let radius = 46341;
    let blue = Material::Lambertian(Lambertian::new(&Colour::new(0, 0, SCALE)));
    let red = Material::Lambertian(Lambertian::new(&Colour::new(SCALE, 0, 0)));
    let mut world = HittableList::default();
    world.add(Sphere::new(Point3::new(-radius, 0, -SCALE), radius, blue));
    world.add(Sphere::new(Point3::new(radius, 0, -SCALE), radius, red));

    let camera = CameraBuilder::default()
        .aspect_ratio(16 * SCALE / 9)
        .image_width(32)
        .samples_per_pixel(2)
        .max_depth(8)
        .vfov(20 * SCALE)
        .lookfrom(Vec3::new(-2 * SCALE, 2 * SCALE, SCALE))
        .lookat(Vec3::new(0, 0, -SCALE))
        .vup(Vec3::new(0, SCALE, 0))
        .defocus_angle(10 * SCALE)
        .focus_dist(222822) // 3.4 units
        .build();

    let lines = camera.render(&world);
    assert_eq!(lines.len(), 3 + 32 * 18);
    assert_eq!(lines[1], "32 18");
}

#[test]
fn header_of_single_pixel_image() {
    let camera = CameraBuilder::default()
        .image_width(1)
        .samples_per_pixel(1)
        .max_depth(1)
        .build();
    let world = HittableList::default();
    let lines = camera.render(&world);
    assert_eq!(lines.len(), 4);
    assert_eq!(lines[0], "P3");
    assert_eq!(lines[1], "1 1");
    assert_eq!(lines[2], "255");
}
