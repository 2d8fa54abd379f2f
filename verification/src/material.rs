//! Surface materials and their scattering behaviour.
//!
//! Scattering is split in two layers: deterministic direction functions with
//! exact contracts, and `Material::scatter`, which draws the random samples
//! and feeds them to those functions.

use vstd::prelude::*;
use crate::colour::{Colour, C3, c3_unit_range};
use crate::fixed::{fx_add, fx_sub, fx_mul, fx_div, fx_sqrt, fx_wf, add_fx, sub_fx, mul_fx, div_fx, sqrt_fx, SCALE};
use crate::hittable::HitRecord;
use crate::random::{random_unit_vector, random_fx, safe_ball_point};
use crate::ray::Ray;
use crate::util::{reflect, reflect_s, refract, refract_s, cos_theta_s, is_vec3_near_zero, v3_near_zero};
use crate::vec3::{Vec3, V3, v3_wf, v3_add, v3_scale, v3_unit};

verus! {

/// A diffuse surface: scatters about the normal, attenuating by its albedo.
#[derive(Clone, Copy, Debug)]
pub struct Lambertian {
    pub albedo: Colour,
}

/// A reflective surface: mirrors the incoming ray, softened by `fuzz`.
#[derive(Clone, Copy, Debug)]
pub struct Metal {
    pub albedo: Colour,
    pub fuzz: i64,
}

/// A refractive surface, transparent with the given refraction index.
#[derive(Clone, Copy, Debug)]
pub struct Dielectric {
    /// Refraction index in vacuum or air, or the ratio of the material's
    /// refraction index over that of the enclosing medium.
    pub refraction_index: i64,
}

/// A surface material: one of the three scattering behaviours.
#[derive(Clone, Copy, Debug)]
pub enum Material {
    Lambertian(Lambertian),
    Metal(Metal),
    Dielectric(Dielectric),
}

/// What a scatter returns: the colour filter and the outgoing ray.
#[derive(Clone, Copy)]
pub struct ScatterResult {
    pub attenuation: Colour,
    pub scattered: Ray,
}

impl Lambertian {
    pub fn new(albedo: &Colour) -> (m: Lambertian)
        requires
            albedo.wf(),
        ensures
            m.albedo == *albedo,
    {
        Lambertian { albedo: *albedo }
    }
}

impl Metal {
    /// The fuzz factor is clamped into `[0, 1]` at construction.
    pub fn new(albedo: &Colour, fuzz: i64) -> (m: Metal)
        requires
            albedo.wf(),
            fx_wf(fuzz as int),
        ensures
            m.albedo == *albedo,
            m.fuzz == (if fuzz > SCALE {
                SCALE as int
            } else if fuzz < 0 {
                0int
            } else {
                fuzz as int
            }),
    {
        Metal {
            albedo: *albedo,
            fuzz: if fuzz > SCALE {
                SCALE
            } else if fuzz < 0 {
                0
            } else {
                fuzz
            },
        }
    }
}

impl Dielectric {
    pub fn new(refraction_index: i64) -> (m: Dielectric)
        requires
            0 < refraction_index,
            fx_wf(refraction_index as int),
        ensures
            m.refraction_index == refraction_index,
    {
        Dielectric { refraction_index }
    }
}

/// The diffuse scatter direction: the surface normal plus a unit sample,
/// falling back to the bare normal where the sum cancels to zero.
pub open spec fn lambertian_dir(normal: V3, sample: V3) -> V3 {
    let d = v3_add(normal, sample);
    if v3_near_zero(d) {
        normal
    } else {
        d
    }
}

/// Compute the diffuse scatter direction from a unit sample.
pub fn scatter_direction(normal: &Vec3, sample: &Vec3) -> (d: Vec3)
    requires
        normal.wf(),
        sample.wf(),
    ensures
        d@ == lambertian_dir(normal@, sample@),
        d.wf(),
{
    let sum: Vec3 = normal.vadd(sample);
    if is_vec3_near_zero(sum) {
        *normal
    } else {
        sum
    }
}

/// The metallic scatter direction: the normalized mirror reflection,
/// perturbed by `fuzz` times a unit sample.
pub open spec fn metal_dir(incoming: V3, normal: V3, fuzz: int, sample: V3) -> V3 {
    v3_add(v3_unit(reflect_s(incoming, normal)), v3_scale(fuzz, sample))
}

/// Compute the metallic scatter direction from a unit sample.
pub fn metal_direction(incoming: &Vec3, normal: &Vec3, fuzz: i64, sample: &Vec3) -> (d: Vec3)
    requires
        incoming.wf(),
        normal.wf(),
        sample.wf(),
        fx_wf(fuzz as int),
    ensures
        d@ == metal_dir(incoming@, normal@, fuzz as int, sample@),
        d.wf(),
{
    let reflected: Vec3 = reflect(incoming, normal);
    reflected.normalize().vadd(&sample.scale(fuzz))
}

/// Schlick's approximation of the reflectance at incidence cosine `cos` for
/// the refraction-index ratio `ri`.
pub open spec fn reflectance_s(cos: int, ri: int) -> int {
    let r0x = fx_div(fx_sub(SCALE as int, ri), fx_add(SCALE as int, ri));
    let r0 = fx_mul(r0x, r0x);
    let p = fx_sub(SCALE as int, cos);
    let p2 = fx_mul(p, p);
    let p5 = fx_mul(fx_mul(p2, p2), p);
    fx_add(r0, fx_mul(fx_sub(SCALE as int, r0), p5))
}

/// Schlick's reflectance approximation.
fn reflectance(cos: i64, ri: i64) -> (r: i64)
    requires
        fx_wf(cos as int),
        0 <= ri,
        fx_wf(ri as int),
    ensures
        r as int == reflectance_s(cos as int, ri as int),
        fx_wf(r as int),
{
    let r0x: i64 = div_fx(sub_fx(SCALE, ri), add_fx(SCALE, ri));
    let r0: i64 = mul_fx(r0x, r0x);
    let p: i64 = sub_fx(SCALE, cos);
    let p2: i64 = mul_fx(p, p);
    let p5: i64 = mul_fx(mul_fx(p2, p2), p);
    add_fx(r0, mul_fx(sub_fx(SCALE, r0), p5))
}

/// The effective refraction-index ratio: inverted when the ray strikes the
/// front face (entering the medium), direct when it leaves.
pub open spec fn dielectric_ratio(ri: int, front_face: bool) -> int {
    if front_face {
        fx_div(SCALE as int, ri)
    } else {
        ri
    }
}

/// The sine of the incidence angle, from its cosine; zero where rounding
/// pushes the squared sine below zero.
pub open spec fn sin_theta_s(cos: int) -> int {
    let k = fx_sub(SCALE as int, fx_mul(cos, cos));
    if k <= 0 {
        0
    } else {
        fx_sqrt(k)
    }
}

/// The dielectric scatter direction, given the uniform draw `u` in `[0, 1]`:
/// total internal reflection forces a mirror reflection; otherwise the draw
/// is compared against the Schlick reflectance to choose between reflection
/// and Snell refraction.
pub open spec fn dielectric_dir(unit_in: V3, normal: V3, ratio: int, u: int) -> V3 {
    let cos = cos_theta_s(unit_in, normal);
    let sin = sin_theta_s(cos);
    let cannot_refract = fx_mul(ratio, sin) > SCALE;
    if cannot_refract || reflectance_s(cos, ratio) > u {
        reflect_s(unit_in, normal)
    } else {
        refract_s(unit_in, normal, ratio)
    }
}

/// Compute the dielectric scatter direction from a uniform draw.
pub fn dielectric_direction(unit_in: &Vec3, normal: &Vec3, ratio: i64, u: i64) -> (d: Vec3)
    requires
        unit_in.wf(),
        normal.wf(),
        0 <= ratio,
        fx_wf(ratio as int),
        fx_wf(u as int),
    ensures
        d@ == dielectric_dir(unit_in@, normal@, ratio as int, u as int),
        d.wf(),
{
    let dn: i64 = unit_in.dot(normal);
    let c0: i64 = sub_fx(0, dn);
    let cos: i64 = if c0 > SCALE {
        SCALE
    } else {
        c0
    };
    let k: i64 = sub_fx(SCALE, mul_fx(cos, cos));
    let sin: i64 = if k <= 0 {
        0
    } else {
        sqrt_fx(k)
    };
    let cannot_refract: bool = mul_fx(ratio, sin) > SCALE;
    if cannot_refract || reflectance(cos, ratio) > u {
        reflect(unit_in, normal)
    } else {
        refract(unit_in, normal, ratio)
    }
}

/// The colour that attenuates nothing.
pub open spec fn c3_white() -> C3 {
    C3 { r: SCALE as int, g: SCALE as int, b: SCALE as int }
}

/// The colour filter a scatter off the material applies: the albedo, or
/// pure white for a dielectric.
pub open spec fn material_attenuation(m: Material) -> C3 {
    match m {
        Material::Lambertian(l) => l.albedo@,
        Material::Metal(mm) => mm.albedo@,
        Material::Dielectric(_) => c3_white(),
    }
}

/// Whether every channel of the material's attenuation stays within `[0, 1]`.
pub open spec fn material_unit(m: Material) -> bool {
    c3_unit_range(material_attenuation(m))
}

/// An optional material that, when present, attenuates within `[0, 1]`.
pub open spec fn opt_material_unit(m: Option<Material>) -> bool {
    m is Some ==> material_unit(m->Some_0)
}

impl Material {
    /// The structural invariant of a material: a well-formed albedo, a fuzz
    /// factor in `[0, 1]`, a positive refraction index.
    pub open spec fn wf(&self) -> bool {
        match *self {
            Material::Lambertian(l) => l.albedo.wf(),
            Material::Metal(m) => m.albedo.wf() && 0 <= m.fuzz <= SCALE,
            Material::Dielectric(d) => 0 < d.refraction_index
                && fx_wf(d.refraction_index as int),
        }
    }

    /// Scatter an incoming ray at an interaction. Every material here always
    /// scatters: the result's ray starts at the hit point, the attenuation
    /// is the albedo (pure white for a dielectric), and the direction is the
    /// material's direction function applied to a random sample.
    pub fn scatter(&self, r_in: &Ray, rec: &HitRecord) -> (res: Option<ScatterResult>)
        requires
            self.wf(),
            r_in.wf(),
            rec.p.wf(),
            rec.normal.wf(),
        ensures
            res is Some,
            (res->Some_0).scattered.orig == rec.p,
            (res->Some_0).scattered.wf(),
            (res->Some_0).attenuation.wf(),
            (res->Some_0).attenuation@ == material_attenuation(*self),
            self is Lambertian ==> {
                &&& (res->Some_0).attenuation == self->Lambertian_0.albedo
                &&& exists|p: V3|
                    safe_ball_point(p) && (res->Some_0).scattered.dir@
                        == lambertian_dir(rec.normal@, v3_unit(p))
            },
            self is Metal ==> {
                &&& (res->Some_0).attenuation == self->Metal_0.albedo
                &&& exists|p: V3|
                    safe_ball_point(p) && (res->Some_0).scattered.dir@
                        == metal_dir(r_in.dir@, rec.normal@, self->Metal_0.fuzz as int, v3_unit(p))
            },
            self is Dielectric ==> {
                &&& (res->Some_0).attenuation@ == c3_white()
                &&& exists|u: int|
                    0 <= u <= SCALE && (res->Some_0).scattered.dir@ == dielectric_dir(
                        v3_unit(r_in.dir@),
                        rec.normal@,
                        dielectric_ratio(self->Dielectric_0.refraction_index as int, rec.front_face),
                        u,
                    )
            },
    {
        match self {
            Material::Lambertian(l) => {
                let sample: Vec3 = random_unit_vector();
                let dir: Vec3 = scatter_direction(&rec.normal, &sample);
                proof {
                    let p = choose|p: V3| safe_ball_point(p) && sample@ == v3_unit(p);
                    assert(safe_ball_point(p)
                        && dir@ == lambertian_dir(rec.normal@, v3_unit(p)));
                }
                Some(ScatterResult { attenuation: l.albedo, scattered: Ray::new(rec.p, dir) })
            },
            Material::Metal(m) => {
                let sample: Vec3 = random_unit_vector();
                let dir: Vec3 = metal_direction(r_in.direction(), &rec.normal, m.fuzz, &sample);
                proof {
                    let p = choose|p: V3| safe_ball_point(p) && sample@ == v3_unit(p);
                    assert(safe_ball_point(p)
                        && dir@ == metal_dir(r_in.dir@, rec.normal@, m.fuzz as int, v3_unit(p)));
                }
                Some(ScatterResult { attenuation: m.albedo, scattered: Ray::new(rec.p, dir) })
            },
            Material::Dielectric(d) => {
                let ratio: i64 = if rec.front_face {
                    div_fx(SCALE, d.refraction_index)
                } else {
                    d.refraction_index
                };
                let unit_in: Vec3 = r_in.direction().normalize();
                let u: i64 = random_fx();
                let dir: Vec3 = dielectric_direction(&unit_in, &rec.normal, ratio, u);
                proof {
                    assert(0 <= u as int <= SCALE && dir@ == dielectric_dir(
                        v3_unit(r_in.dir@),
                        rec.normal@,
                        dielectric_ratio(d.refraction_index as int, rec.front_face),
                        u as int,
                    ));
                }
                Some(ScatterResult {
                    attenuation: Colour::new(SCALE, SCALE, SCALE),
                    scattered: Ray::new(rec.p, dir),
                })
            },
        }
    }
}

} // verus!
