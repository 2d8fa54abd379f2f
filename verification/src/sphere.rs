//! The sphere primitive and its intersection by quadratic root-finding.

use vstd::prelude::*;
use crate::fixed::{
    fx_add, fx_sub, fx_mul, fx_div, fx_sqrt, fx_tdiv, fx_wf,
    add_fx, sub_fx, mul_fx, div_fx, sqrt_fx, SCALE,
};
use crate::hittable::{HitRecord, Hittable, RecModel, rec_model, opt_mat_wf};
use crate::interval::Interval;
use crate::material::{Material, material_unit};
use crate::ray::{Ray, ray_at};
use crate::vec3::{Vec3, Point3, V3, v3_wf, v3_sub, v3_dot, v3_neg, v3_div_scale};

verus! {

/// A sphere in space, defined by its center, radius, and material.
#[derive(Clone, Copy)]
pub struct Sphere {
    /// The center point of the sphere.
    pub center: Point3,
    /// The radius of the sphere.
    pub radius: i64,
    /// The material the sphere is made of.
    pub mat: Material,
}

impl Sphere {
    /// Creates a new sphere with the given center, radius, and material.
    pub fn new(center: Point3, radius: i64, mat: Material) -> (s: Sphere)
        requires
            center.wf(),
            0 < radius,
            fx_wf(radius as int),
            mat.wf(),
        ensures
            s.center == center,
            s.radius == radius,
            s.mat == mat,
            s.wf(),
    {
        Sphere { center, radius, mat }
    }
}

/// The vector from the ray's origin to the sphere's center.
pub open spec fn sphere_oc(s: Sphere, r: Ray) -> V3 {
    v3_sub(s.center@, r.orig@)
}

/// The quadratic's leading coefficient: the squared length of the direction.
pub open spec fn sphere_qa(r: Ray) -> int {
    v3_dot(r.dir@, r.dir@)
}

/// The quadratic's half middle coefficient: direction dotted with `oc`.
pub open spec fn sphere_qh(s: Sphere, r: Ray) -> int {
    v3_dot(r.dir@, sphere_oc(s, r))
}

/// The quadratic's constant coefficient: `|oc|^2 - radius^2`.
pub open spec fn sphere_qc(s: Sphere, r: Ray) -> int {
    fx_sub(v3_dot(sphere_oc(s, r), sphere_oc(s, r)), fx_mul(s.radius as int, s.radius as int))
}

/// The half-form discriminant `h^2 - a c`; the ray misses where negative.
pub open spec fn sphere_disc(s: Sphere, r: Ray) -> int {
    fx_sub(fx_mul(sphere_qh(s, r), sphere_qh(s, r)), fx_mul(sphere_qa(r), sphere_qc(s, r)))
}

/// The accepted root of the sphere quadratic, if any: the smaller root where
/// it lies strictly inside `(tmin, tmax)`, else the larger root under the
/// same test, else nothing. A nonpositive leading coefficient (a direction
/// whose squared length rounds to zero) is a miss.
pub open spec fn sphere_root(s: Sphere, r: Ray, tmin: int, tmax: int) -> Option<int> {
    let a = sphere_qa(r);
    let h = sphere_qh(s, r);
    let disc = sphere_disc(s, r);
    if disc < 0 {
        None
    } else if a <= 0 {
        None
    } else {
        let sq = fx_sqrt(disc);
        let r1 = fx_div(fx_sub(h, sq), a);
        if tmin < r1 < tmax {
            Some(r1)
        } else {
            let r2 = fx_div(fx_add(h, sq), a);
            if tmin < r2 < tmax {
                Some(r2)
            } else {
                None
            }
        }
    }
}

/// What a sphere intersection returns: the record at the accepted root, its
/// outward normal `(p - center) / radius` oriented against the ray, and the
/// material field carried through unchanged.
pub open spec fn sphere_hit_model(
    s: Sphere,
    r: Ray,
    tmin: int,
    tmax: int,
    mat0: Option<Material>,
) -> Option<RecModel> {
    match sphere_root(s, r, tmin, tmax) {
        Option::None => Option::None,
        Option::Some(t) => {
            let p = ray_at(r.orig@, r.dir@, t);
            let outward = v3_div_scale(v3_sub(p, s.center@), s.radius as int);
            let ff = v3_dot(r.dir@, outward) < 0;
            Option::Some(RecModel {
                p,
                normal: if ff {
                    outward
                } else {
                    v3_neg(outward)
                },
                mat: mat0,
                t,
                front_face: ff,
            })
        },
    }
}

impl Hittable for Sphere {
    /// A well-formed center, a positive well-formed radius, and a
    /// well-formed material.
    open spec fn wf(&self) -> bool {
        v3_wf(self.center@) && 0 < self.radius && fx_wf(self.radius as int) && self.mat.wf()
    }

    /// The sphere's one material attenuates within `[0, 1]`.
    open spec fn unit_albedos(&self) -> bool {
        material_unit(self.mat)
    }

    open spec fn hit_model(&self, r: Ray, tmin: int, tmax: int, mat0: Option<Material>)
        -> Option<RecModel> {
        sphere_hit_model(*self, r, tmin, tmax, mat0)
    }

    open spec fn mat_spec(&self) -> Option<Material> {
        Some(self.mat)
    }

    /// Solve `|origin + t dir - center|^2 = radius^2` in half-angle form and
    /// accept the nearest root strictly inside the search interval.
    fn hit(&self, r: &Ray, ray_t: Interval, rec: &mut HitRecord) -> (b: bool) {
        let oc: Vec3 = self.center.vsub(r.origin());
        let a: i64 = r.direction().length_squared();
        let h: i64 = r.direction().dot(&oc);
        let c: i64 = sub_fx(oc.length_squared(), mul_fx(self.radius, self.radius));

        let disc: i64 = sub_fx(mul_fx(h, h), mul_fx(a, c));
        if disc < 0 {
            return false;
        }
        if a <= 0 {
            return false;
        }

        let sqrtd: i64 = sqrt_fx(disc);

        // Find the nearest root that lies in the acceptable range.
        let mut root: i64 = div_fx(sub_fx(h, sqrtd), a);
        if !ray_t.surrounds(root) {
            root = div_fx(add_fx(h, sqrtd), a);
            if !ray_t.surrounds(root) {
                return false;
            }
        }

        rec.t = root;
        rec.p = r.at(root);
        let outward: Vec3 = rec.p.vsub(&self.center).div_scale(self.radius);
        rec.set_face_normal(r, &outward);

        true
    }

    fn mat(&self) -> (m: Option<Material>) {
        Some(self.mat)
    }
}

/// An accepted root lies strictly inside the search window.
pub proof fn lemma_sphere_root_in_window(s: Sphere, r: Ray, tmin: int, tmax: int)
    ensures
        sphere_root(s, r, tmin, tmax) is Some ==> tmin < sphere_root(s, r, tmin, tmax)->Some_0
            < tmax,
{
}

/// The smaller candidate root of the quadratic never exceeds the larger one.
proof fn lemma_sphere_roots_ordered(s: Sphere, r: Ray)
    requires
        sphere_disc(s, r) >= 0,
        sphere_qa(r) > 0,
    ensures
        fx_div(fx_sub(sphere_qh(s, r), fx_sqrt(sphere_disc(s, r))), sphere_qa(r)) <= fx_div(
            fx_add(sphere_qh(s, r), fx_sqrt(sphere_disc(s, r))),
            sphere_qa(r),
        ),
{
    let h = sphere_qh(s, r);
    let disc = sphere_disc(s, r);
    let sq = fx_sqrt(disc);
    crate::fixed::lemma_int_sqrt_bounds(disc * SCALE);
    assert(sq >= 0);
    crate::fixed::lemma_fx_div_monotone(fx_sub(h, sq), fx_add(h, sq), sphere_qa(r));
}

/// Narrowing the upper search bound to `cmax` keeps exactly the full
/// window's accepted root when it falls below `cmax`, and rejects the
/// primitive otherwise.
pub proof fn lemma_sphere_root_window(s: Sphere, r: Ray, tmin: int, cmax: int, tmax0: int)
    requires
        cmax <= tmax0,
    ensures
        sphere_root(s, r, tmin, cmax) == (match sphere_root(s, r, tmin, tmax0) {
            Option::Some(t) => if t < cmax {
                Option::Some(t)
            } else {
                Option::<int>::None
            },
            Option::None => Option::<int>::None,
        }),
{
    let a = sphere_qa(r);
    let disc = sphere_disc(s, r);
    if disc >= 0 && a > 0 {
        lemma_sphere_roots_ordered(s, r);
    }
}

/// Narrowing the upper search bound keeps exactly the full window's hit
/// record where its parameter falls below `cmax`.
pub proof fn lemma_sphere_model_window(
    s: Sphere,
    r: Ray,
    tmin: int,
    cmax: int,
    tmax0: int,
    mat0: Option<Material>,
)
    requires
        cmax <= tmax0,
    ensures
        sphere_hit_model(s, r, tmin, cmax, mat0) is Some <==> (sphere_root(s, r, tmin, tmax0)
            is Some && sphere_root(s, r, tmin, tmax0)->Some_0 < cmax),
        sphere_hit_model(s, r, tmin, cmax, mat0) is Some ==> sphere_hit_model(
            s,
            r,
            tmin,
            cmax,
            mat0,
        ) == sphere_hit_model(s, r, tmin, tmax0, mat0),
{
    lemma_sphere_root_window(s, r, tmin, cmax, tmax0);
}

/// A vanishing discriminant admits at most one root value: the two
/// candidates of the quadratic coincide, so an accepted hit can only be at
/// that single parameter.
pub proof fn lemma_vanishing_discriminant_single_root(s: Sphere, r: Ray)
    requires
        sphere_disc(s, r) == 0,
    ensures
        ({
            let h = sphere_qh(s, r);
            let a = sphere_qa(r);
            let sq = fx_sqrt(sphere_disc(s, r));
            fx_div(fx_sub(h, sq), a) == fx_div(fx_add(h, sq), a)
        }),
{
    crate::fixed::lemma_int_sqrt_unique(0, 0);
    assert(fx_sqrt(0) == 0);
    let h = sphere_qh(s, r);
    assert(fx_wf(h)) by {
        assert(h == crate::fixed::fx_clip(
            crate::fixed::fx_clip(
                fx_mul(r.dir@.x, sphere_oc(s, r).x) + fx_mul(r.dir@.y, sphere_oc(s, r).y),
            ) + fx_mul(r.dir@.z, sphere_oc(s, r).z),
        ));
    }
    assert(fx_sub(h, 0) == h);
    assert(fx_add(h, 0) == h);
}

/// After any accepted sphere hit the stored normal points against the
/// incoming ray: their dot product is never positive.
pub proof fn lemma_hit_normal_antiparallel(
    s: Sphere,
    r: Ray,
    tmin: int,
    tmax: int,
    mat0: Option<Material>,
)
    ensures
        sphere_hit_model(s, r, tmin, tmax, mat0) is Some ==> v3_dot(
            r.dir@,
            (sphere_hit_model(s, r, tmin, tmax, mat0)->Some_0).normal,
        ) <= 0,
{
    if sphere_hit_model(s, r, tmin, tmax, mat0) is Some {
        let t = sphere_root(s, r, tmin, tmax)->Some_0;
        let p = ray_at(r.orig@, r.dir@, t);
        let outward = v3_div_scale(v3_sub(p, s.center@), s.radius as int);
        assert(v3_wf(outward));
        if !(v3_dot(r.dir@, outward) < 0) {
            crate::vec3::lemma_dot_neg(outward, r.dir@);
            lemma_dot_comm(outward, r.dir@);
            lemma_dot_comm(v3_neg(outward), r.dir@);
        }
    }
}

/// A ray aimed exactly at a sphere's center always hits it, provided the
/// origin stands at least two units from the center, the squared radius
/// registers at the fixed-point resolution, and it is at most half the
/// squared distance; the hit's normal points against the ray direction.
pub proof fn lemma_center_aimed_ray_hits(
    s: Sphere,
    r: Ray,
    tmin: int,
    tmax: int,
    mat0: Option<Material>,
)
    requires
        r.dir@ == sphere_oc(s, r),
        4 * SCALE <= sphere_qa(r),
        sphere_qa(r) <= 0x20_0000_0000,
        1 <= fx_mul(s.radius as int, s.radius as int),
        2 * fx_mul(s.radius as int, s.radius as int) <= sphere_qa(r),
        0 <= tmin <= 66,
        SCALE < tmax,
    ensures
        sphere_hit_model(s, r, tmin, tmax, mat0) is Some,
        v3_dot(r.dir@, (sphere_hit_model(s, r, tmin, tmax, mat0)->Some_0).normal) <= 0,
{
    let sc = SCALE as int;
    let fm = crate::fixed::FX_MAX as int;
    let a = sphere_qa(r);
    let q = fx_mul(s.radius as int, s.radius as int);
    let h = sphere_qh(s, r);
    assert(h == a);
    assert(v3_dot(sphere_oc(s, r), sphere_oc(s, r)) == a);

    // The constant coefficient is exactly a - q: no saturation applies.
    let c = sphere_qc(s, r);
    assert(c == a - q);

    // The two rescaled products of the discriminant, unsaturated.
    assert(0 <= a * a <= fm * sc) by (nonlinear_arith)
        requires
            0 <= a <= 0x20_0000_0000,
            fm == 0x0400_0000_0000_0000,
            sc == 0x10000,
    {
    }
    let m1v = (a * a) / sc;
    crate::fixed::lemma_floor_div_bounds(a * a, sc);
    assert(fx_mul(h, h) == m1v);

    let p2 = a * (a - q);
    assert(0 <= p2 <= a * a && a * a - p2 == a * q) by (nonlinear_arith)
        requires
            p2 == a * (a - q),
            0 <= a,
            1 <= q,
            q <= a,
    {
    }
    let m2v = p2 / sc;
    crate::fixed::lemma_floor_div_bounds(p2, sc);
    assert(fx_mul(a, c) == m2v);

    // The discriminant is positive: the products bracket a*q, which is at
    // least four units.
    let disc = sphere_disc(s, r);
    assert(a * q >= 4 * sc) by (nonlinear_arith)
        requires
            a >= 4 * sc,
            q >= 1,
            sc > 0,
    {
    }
    assert(m1v - m2v >= 0);
    assert(disc == m1v - m2v);
    assert(disc * sc > a * q - sc);
    assert(disc * sc <= a * q + sc - 1);
    assert(disc > 0);

    // The square root of the discriminant is small against a: its square is
    // at most a*q + sc, which the magnitude conditions keep far below
    // (a * (sc - 68))^2 / sc^2.
    crate::fixed::lemma_fx_sqrt_bounds(disc);
    let t = fx_sqrt(disc);
    assert(t * t * (sc * sc) <= (a * q + sc) * (sc * sc)) by (nonlinear_arith)
        requires
            t * t <= a * q + sc - 1,
            sc > 0,
    {
    }
    assert((a * q + sc) * (sc * sc) < a * (sc - 68) * (a * (sc - 68))) by (nonlinear_arith)
        requires
            a >= 4 * sc,
            2 * q <= a,
            1 <= q,
            sc == 0x10000,
    {
    }
    assert(t * sc <= a * (sc - 68)) by (nonlinear_arith)
        requires
            t * t * (sc * sc) < a * (sc - 68) * (a * (sc - 68)),
            0 <= t,
            0 <= a * (sc - 68),
            sc > 0,
    {
    }
    assert(t <= a);
    assert(0 <= a - t <= fm);
    assert(fx_sub(h, t) == a - t);

    // The nearer root lands strictly inside the search interval.
    let num = a - t;
    assert(num * sc >= 68 * a) by (nonlinear_arith)
        requires
            num == a - t,
            t * sc <= a * (sc - 68),
            sc > 0,
    {
    }
    let root1 = (num * sc) / a;
    crate::fixed::lemma_floor_div_bounds(num * sc, a);
    assert(0 <= num * sc);
    vstd::arithmetic::div_mod::lemma_div_pos_is_pos(num * sc, a);
    assert(fx_tdiv(num * sc, a) == root1);
    assert(num * sc <= a * sc) by (nonlinear_arith)
        requires
            num <= a,
            sc > 0,
    {
    }
    vstd::arithmetic::div_mod::lemma_div_is_ordered(num * sc, a * sc, a);
    vstd::arithmetic::div_mod::lemma_div_by_multiple(sc, a);
    assert((sc * a) / a == sc) by {
        vstd::arithmetic::div_mod::lemma_div_multiples_vanish(sc, a);
    }
    assert(a * sc == sc * a) by (nonlinear_arith) {}
    assert(root1 <= sc);
    assert(fx_div(fx_sub(h, t), a) == root1);
    assert(a * root1 + a > 68 * a);
    assert(root1 > 67) by (nonlinear_arith)
        requires
            a * root1 + a > 68 * a,
            a > 0,
    {
    }
    assert(tmin < root1 < tmax);
    assert(sphere_root(s, r, tmin, tmax) is Some);
    assert(sphere_hit_model(s, r, tmin, tmax, mat0) is Some);
    lemma_hit_normal_antiparallel(s, r, tmin, tmax, mat0);
}

/// The dot product is symmetric in its arguments.
proof fn lemma_dot_comm(a: V3, b: V3)
    ensures
        v3_dot(a, b) == v3_dot(b, a),
{
    assert(a.x * b.x == b.x * a.x) by (nonlinear_arith) {}
    assert(a.y * b.y == b.y * a.y) by (nonlinear_arith) {}
    assert(a.z * b.z == b.z * a.z) by (nonlinear_arith) {}
}

} // verus!
