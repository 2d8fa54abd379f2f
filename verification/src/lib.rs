//! A recursive, stochastic ray tracer over fixed-point arithmetic.
//!
//! Scenes of spheres with diffuse, metallic and refractive materials are
//! rendered by Monte Carlo path sampling into a plain-text pixmap. Every
//! scalar is a fixed-point number (`SCALE` steps per unit), so the whole
//! rendering pipeline is verified integer arithmetic; randomness enters
//! only through a trusted draw from the `rand` crate.

pub mod camera;
pub mod colour;
pub mod fixed;
pub mod hittable;
pub mod interval;
pub mod material;
pub mod random;
pub mod ray;
pub mod sphere;
pub mod util;
pub mod vec3;

pub use colour::Colour;
pub use fixed::SCALE;
pub use ray::Ray;
pub use sphere::Sphere;
pub use vec3::{Point3, Vec3};
