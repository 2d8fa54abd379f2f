//! Intersectable geometry: the interaction record, the intersection
//! interface, and the composite list of primitives.

use vstd::prelude::*;
use crate::interval::Interval;
use crate::material::{Material, material_unit, opt_material_unit};
use crate::ray::Ray;
use crate::sphere::{Sphere, sphere_hit_model};
use crate::vec3::{Vec3, Point3, V3, v3_wf, v3_dot, v3_neg, v3_zero};

verus! {

/// The result of a successful intersection: hit point, oriented unit normal,
/// the material hit, the ray parameter, and which face was struck.
#[derive(Clone, Copy)]
pub struct HitRecord {
    pub p: Point3,
    pub normal: Vec3,
    pub mat: Option<Material>,
    pub t: i64,
    pub front_face: bool,
}

/// Mathematical model of an interaction record.
pub struct RecModel {
    pub p: V3,
    pub normal: V3,
    pub mat: Option<Material>,
    pub t: int,
    pub front_face: bool,
}

/// The model of a concrete record.
pub open spec fn rec_model(rec: HitRecord) -> RecModel {
    RecModel {
        p: rec.p@,
        normal: rec.normal@,
        mat: rec.mat,
        t: rec.t as int,
        front_face: rec.front_face,
    }
}

/// An optional material that, when present, is well formed.
pub open spec fn opt_mat_wf(m: Option<Material>) -> bool {
    m is Some ==> (m->Some_0).wf()
}

impl HitRecord {
    /// Orients `outward_normal` against the incoming ray and records which
    /// face was struck: the normal always points against the ray.
    pub fn set_face_normal(&mut self, r: &Ray, outward_normal: &Vec3)
        requires
            r.wf(),
            outward_normal.wf(),
        ensures
            final(self).front_face == (v3_dot(r.dir@, outward_normal@) < 0),
            final(self).normal@ == (if v3_dot(r.dir@, outward_normal@) < 0 {
                outward_normal@
            } else {
                v3_neg(outward_normal@)
            }),
            final(self).normal.wf(),
            final(self).p == old(self).p,
            final(self).mat == old(self).mat,
            final(self).t == old(self).t,
    {
        self.front_face = r.direction().dot(outward_normal) < 0;
        self.normal = if self.front_face {
            *outward_normal
        } else {
            outward_normal.vneg()
        };
    }
}

impl Default for HitRecord {
    /// An empty record: everything zero, no material.
    fn default() -> (r: HitRecord)
        ensures
            r.p@ == v3_zero(),
            r.normal@ == v3_zero(),
            r.mat is None,
            r.t == 0,
            !r.front_face,
    {
        HitRecord {
            p: Vec3::zero(),
            normal: Vec3::zero(),
            mat: None,
            t: 0,
            front_face: false,
        }
    }
}

/// Anything a ray can intersect.
pub trait Hittable {
    /// The structural invariant of the geometry.
    spec fn wf(&self) -> bool;

    /// Whether every material the object can hand out attenuates within
    /// `[0, 1]` on each channel.
    spec fn unit_albedos(&self) -> bool;

    /// What an intersection query returns: the interaction record for the
    /// nearest accepted hit strictly inside `(tmin, tmax)`, or nothing.
    /// `mat0` is the material field the query starts from.
    spec fn hit_model(&self, r: Ray, tmin: int, tmax: int, mat0: Option<Material>)
        -> Option<RecModel>;

    /// The material the whole object reports, if any.
    spec fn mat_spec(&self) -> Option<Material>;

    /// Intersect a ray with the object over the search interval, filling
    /// `rec` on a hit.
    fn hit(&self, r: &Ray, ray_t: Interval, rec: &mut HitRecord) -> (b: bool)
        requires
            self.wf(),
            r.wf(),
            opt_mat_wf(old(rec).mat),
        ensures
            b == (self.hit_model(*r, ray_t.min as int, ray_t.max as int, old(rec).mat)
                is Some),
            b ==> rec_model(*final(rec))
                == self.hit_model(*r, ray_t.min as int, ray_t.max as int, old(rec).mat)
                    ->Some_0,
            b ==> v3_wf(final(rec).p@) && v3_wf(final(rec).normal@)
                && opt_mat_wf(final(rec).mat),
            b && self.unit_albedos() && opt_material_unit(old(rec).mat)
                ==> opt_material_unit(final(rec).mat),
            !b ==> *final(rec) == *old(rec),
    ;

    fn mat(&self) -> (m: Option<Material>)
        ensures
            m == self.mat_spec(),
    ;
}

/// An ordered collection of primitives, intersected as one object.
#[derive(Clone)]
pub struct HittableList {
    pub objects: Vec<Sphere>,
}

/// The fold that a scan of the list from index `k` onward computes: `acc`
/// holds the nearest hit so far, and each later primitive is accepted only
/// strictly inside `(tmin, nearest-so-far)`.
pub open spec fn list_hit_from(
    objs: Seq<Sphere>,
    k: int,
    r: Ray,
    tmin: int,
    tmax0: int,
    acc: Option<RecModel>,
) -> Option<RecModel>
    decreases objs.len() - k,
{
    if k < 0 || k >= objs.len() {
        acc
    } else {
        let cmax = if acc is Some {
            (acc->Some_0).t
        } else {
            tmax0
        };
        let sub = sphere_hit_model(objs[k], r, tmin, cmax, None);
        let acc2 = if sub is Some {
            let m = sub->Some_0;
            Some(RecModel {
                p: m.p,
                normal: m.normal,
                mat: Some(objs[k].mat),
                t: m.t,
                front_face: m.front_face,
            })
        } else {
            acc
        };
        list_hit_from(objs, k + 1, r, tmin, tmax0, acc2)
    }
}

impl HittableList {
    /// Append a primitive to the scene.
    pub fn add(&mut self, object: Sphere)
        ensures
            final(self).objects@ == old(self).objects@.push(object),
    {
        self.objects.push(object);
    }

    /// Remove every primitive.
    pub fn clear(&mut self)
        ensures
            final(self).objects@.len() == 0,
    {
        self.objects.clear();
    }

    /// How many primitives the scene holds.
    pub fn len(&self) -> (n: usize)
        ensures
            n == self.objects@.len(),
    {
        self.objects.len()
    }
}

impl Default for HittableList {
    /// The empty scene.
    fn default() -> (l: HittableList)
        ensures
            l.objects@.len() == 0,
    {
        HittableList { objects: Vec::new() }
    }
}

impl Hittable for HittableList {
    /// Every primitive in the list is well formed.
    open spec fn wf(&self) -> bool {
        forall|i: int| 0 <= i < self.objects@.len() ==> (#[trigger] self.objects@[i]).wf()
    }

    /// Every primitive's material attenuates within `[0, 1]`.
    open spec fn unit_albedos(&self) -> bool {
        forall|i: int| 0 <= i < self.objects@.len()
            ==> material_unit((#[trigger] self.objects@[i]).mat)
    }

    open spec fn hit_model(&self, r: Ray, tmin: int, tmax: int, mat0: Option<Material>)
        -> Option<RecModel> {
        list_hit_from(self.objects@, 0, r, tmin, tmax, None)
    }

    open spec fn mat_spec(&self) -> Option<Material> {
        None
    }

    /// Linear scan for the nearest hit: the upper search bound shrinks to
    /// each accepted hit's parameter, so later primitives are accepted only
    /// if strictly closer.
    fn hit(&self, r: &Ray, ray_t: Interval, rec: &mut HitRecord) -> (b: bool) {
        let mut temp_rec: HitRecord = HitRecord::default();
        let mut hit_anything: bool = false;
        let mut closest_so_far: i64 = ray_t.max;
        let mut idx: usize = 0;
        while idx < self.objects.len()
            invariant
                self.wf(),
                r.wf(),
                idx <= self.objects@.len(),
                opt_mat_wf(temp_rec.mat),
                closest_so_far as int == (if hit_anything {
                    rec.t as int
                } else {
                    ray_t.max as int
                }),
                list_hit_from(
                    self.objects@,
                    idx as int,
                    *r,
                    ray_t.min as int,
                    ray_t.max as int,
                    if hit_anything {
                        Some(rec_model(*rec))
                    } else {
                        None
                    },
                ) == list_hit_from(
                    self.objects@,
                    0,
                    *r,
                    ray_t.min as int,
                    ray_t.max as int,
                    None,
                ),
                hit_anything ==> v3_wf(rec.p@) && v3_wf(rec.normal@)
                    && opt_mat_wf(rec.mat),
                hit_anything && self.unit_albedos() ==> opt_material_unit(rec.mat),
                !hit_anything ==> *rec == *old(rec),
            decreases self.objects@.len() - idx,
        {
            let obj: &Sphere = &self.objects[idx];
            let sub_t: Interval = Interval::new(ray_t.min, closest_so_far);
            let ghost temp_before = temp_rec;
            if obj.hit(r, sub_t, &mut temp_rec) {
                proof {
                    lemma_sphere_hit_model_mat(
                        *obj,
                        *r,
                        ray_t.min as int,
                        closest_so_far as int,
                        temp_before.mat,
                    );
                }
                hit_anything = true;
                closest_so_far = temp_rec.t;
                *rec = temp_rec;
                rec.mat = obj.mat();
            }
            idx = idx + 1;
        }
        hit_anything
    }

    fn mat(&self) -> (m: Option<Material>) {
        None
    }
}

/// The models of one sphere query differ only in the carried material field,
/// whatever material the query starts from.
proof fn lemma_sphere_hit_model_mat(
    s: Sphere,
    r: Ray,
    tmin: int,
    tmax: int,
    m0: Option<Material>,
)
    ensures
        sphere_hit_model(s, r, tmin, tmax, m0) is Some
            == sphere_hit_model(s, r, tmin, tmax, None) is Some,
        sphere_hit_model(s, r, tmin, tmax, m0) is Some ==> {
            let a = sphere_hit_model(s, r, tmin, tmax, m0)->Some_0;
            let b = sphere_hit_model(s, r, tmin, tmax, None)->Some_0;
            a.p == b.p && a.normal == b.normal && a.t == b.t
                && a.front_face == b.front_face && a.mat == m0 && b.mat is None
        },
{
}

/// The full-window hit of one primitive, its material filled in.
#[verifier::opaque]
pub open spec fn sphere_full_hit(s: Sphere, r: Ray, tmin: int, tmax0: int) -> Option<RecModel> {
    match sphere_hit_model(s, r, tmin, tmax0, None) {
        Option::None => Option::None,
        Option::Some(m) => Option::Some(
            RecModel { p: m.p, normal: m.normal, mat: Some(s.mat), t: m.t, front_face: m.front_face },
        ),
    }
}

/// Whether `res` is the nearest full-window hit over the primitives: a miss
/// exactly when every primitive misses, else the record of a struck
/// primitive whose parameter no other struck primitive undercuts.
pub open spec fn is_nearest_hit(
    objs: Seq<Sphere>,
    r: Ray,
    tmin: int,
    tmax0: int,
    res: Option<RecModel>,
) -> bool {
    match res {
        Option::None => forall|j: int|
            0 <= j < objs.len() ==> #[trigger] sphere_full_hit(objs[j], r, tmin, tmax0) is None,
        Option::Some(m) => {
            &&& exists|j: int|
                0 <= j < objs.len() && #[trigger] sphere_full_hit(objs[j], r, tmin, tmax0)
                    == Some(m)
            &&& forall|j: int|
                0 <= j < objs.len() && #[trigger] sphere_full_hit(objs[j], r, tmin, tmax0)
                    is Some ==> m.t <= (sphere_full_hit(objs[j], r, tmin, tmax0)->Some_0).t
        },
    }
}

/// A scan of the primitives from index `k` onward extends the
/// nearest-so-far accumulator to the nearest hit over the whole list.
#[verifier::rlimit(100)]
proof fn lemma_list_hit_from_nearest(
    objs: Seq<Sphere>,
    k: int,
    r: Ray,
    tmin: int,
    tmax0: int,
    acc: Option<RecModel>,
)
    requires
        0 <= k <= objs.len(),
        acc is Some ==> exists|j: int|
            0 <= j < k && #[trigger] sphere_full_hit(objs[j], r, tmin, tmax0) == Some(
                acc->Some_0,
            ),
        acc is Some ==> forall|j: int|
            0 <= j < k && #[trigger] sphere_full_hit(objs[j], r, tmin, tmax0) is Some ==> (
            acc->Some_0).t <= (sphere_full_hit(objs[j], r, tmin, tmax0)->Some_0).t,
        acc is None ==> forall|j: int|
            0 <= j < k ==> #[trigger] sphere_full_hit(objs[j], r, tmin, tmax0) is None,
        acc is Some ==> tmin < (acc->Some_0).t < tmax0,
    ensures
        is_nearest_hit(objs, r, tmin, tmax0, list_hit_from(objs, k, r, tmin, tmax0, acc)),
    decreases objs.len() - k,
{
    reveal(sphere_full_hit);
    if k >= objs.len() {
        assert(list_hit_from(objs, k, r, tmin, tmax0, acc) == acc);
    } else {
        let cmax = if acc is Some {
            (acc->Some_0).t
        } else {
            tmax0
        };
        let sub = sphere_hit_model(objs[k], r, tmin, cmax, None);
        crate::sphere::lemma_sphere_model_window(objs[k], r, tmin, cmax, tmax0, None);
        crate::sphere::lemma_sphere_root_in_window(objs[k], r, tmin, tmax0);
        let acc2 = if sub is Some {
            let m = sub->Some_0;
            Some(
                RecModel {
                    p: m.p,
                    normal: m.normal,
                    mat: Some(objs[k].mat),
                    t: m.t,
                    front_face: m.front_face,
                },
            )
        } else {
            acc
        };
        if sub is Some {
            assert(sphere_full_hit(objs[k], r, tmin, tmax0) == acc2);
            assert((acc2->Some_0).t < cmax);
        } else {
            if sphere_full_hit(objs[k], r, tmin, tmax0) is Some {
                assert((sphere_full_hit(objs[k], r, tmin, tmax0)->Some_0).t >= cmax);
                assert(acc is Some);
            }
        }
        lemma_list_hit_from_nearest(objs, k + 1, r, tmin, tmax0, acc2);
    }
}

/// An intersection query on a scene returns the nearest full-window hit
/// over its primitives.
pub proof fn lemma_list_hit_is_nearest(
    l: HittableList,
    r: Ray,
    tmin: int,
    tmax0: int,
    mat0: Option<Material>,
)
    ensures
        is_nearest_hit(l.objects@, r, tmin, tmax0, l.hit_model(r, tmin, tmax0, mat0)),
{
    lemma_list_hit_from_nearest(l.objects@, 0, r, tmin, tmax0, None);
}

/// A member of one sequence is a member of any sequence holding the same
/// multiset of elements.
proof fn lemma_multiset_member_transfer(s1: Seq<Sphere>, s2: Seq<Sphere>, x: Sphere)
    requires
        s1.to_multiset() == s2.to_multiset(),
        s1.contains(x),
    ensures
        s2.contains(x),
{
    s1.to_multiset_ensures();
    s2.to_multiset_ensures();
    assert(s1.to_multiset().count(x) > 0);
    assert(s2.to_multiset().count(x) > 0);
}

/// No two distinct primitives are struck at exactly the same parameter.
pub open spec fn distinct_hit_params(objs: Seq<Sphere>, r: Ray, tmin: int, tmax0: int) -> bool {
    forall|i: int, j: int|
        0 <= i < objs.len() && 0 <= j < objs.len() && i != j && #[trigger] sphere_full_hit(
            objs[i],
            r,
            tmin,
            tmax0,
        ) is Some && #[trigger] sphere_full_hit(objs[j], r, tmin, tmax0) is Some ==> (
        sphere_full_hit(objs[i], r, tmin, tmax0)->Some_0).t != (sphere_full_hit(
            objs[j],
            r,
            tmin,
            tmax0,
        )->Some_0).t
}

/// Insertion order is irrelevant to an intersection query: two scenes
/// holding the same primitives return the same record, provided no two
/// distinct primitives are struck at exactly the same parameter (geometric
/// ties carry no such guarantee: at a tie, whichever primitive is scanned
/// first wins).
#[verifier::rlimit(100)]
pub proof fn lemma_list_hit_order_irrelevant(
    l1: HittableList,
    l2: HittableList,
    r: Ray,
    tmin: int,
    tmax0: int,
    m1: Option<Material>,
    m2: Option<Material>,
)
    requires
        l1.objects@.to_multiset() == l2.objects@.to_multiset(),
        distinct_hit_params(l1.objects@, r, tmin, tmax0),
    ensures
        l1.hit_model(r, tmin, tmax0, m1) == l2.hit_model(r, tmin, tmax0, m2),
{
    let objs1 = l1.objects@;
    let objs2 = l2.objects@;
    lemma_list_hit_is_nearest(l1, r, tmin, tmax0, m1);
    lemma_list_hit_is_nearest(l2, r, tmin, tmax0, m2);
    objs1.to_multiset_ensures();
    objs2.to_multiset_ensures();
    let res1 = l1.hit_model(r, tmin, tmax0, m1);
    let res2 = l2.hit_model(r, tmin, tmax0, m2);
    if res1 is Some && res2 is None {
        let j1 = choose|j: int|
            0 <= j < objs1.len() && #[trigger] sphere_full_hit(objs1[j], r, tmin, tmax0) == Some(
                res1->Some_0,
            );
        assert(objs1.contains(objs1[j1]));
        lemma_multiset_member_transfer(objs1, objs2, objs1[j1]);
        let i2 = choose|i: int| 0 <= i < objs2.len() && objs2[i] == objs1[j1];
        assert(sphere_full_hit(objs2[i2], r, tmin, tmax0) is Some);
        assert(false);
    }
    if res1 is None && res2 is Some {
        let j2 = choose|j: int|
            0 <= j < objs2.len() && #[trigger] sphere_full_hit(objs2[j], r, tmin, tmax0) == Some(
                res2->Some_0,
            );
        assert(objs2.contains(objs2[j2]));
        lemma_multiset_member_transfer(objs2, objs1, objs2[j2]);
        let i1 = choose|i: int| 0 <= i < objs1.len() && objs1[i] == objs2[j2];
        assert(sphere_full_hit(objs1[i1], r, tmin, tmax0) is Some);
        assert(false);
    }
    if res1 is Some && res2 is Some {
        let a = res1->Some_0;
        let b = res2->Some_0;
        let j1 = choose|j: int|
            0 <= j < objs1.len() && #[trigger] sphere_full_hit(objs1[j], r, tmin, tmax0) == Some(
                a,
            );
        let j2 = choose|j: int|
            0 <= j < objs2.len() && #[trigger] sphere_full_hit(objs2[j], r, tmin, tmax0) == Some(
                b,
            );
        // Map each witness into the other list: same sphere, same hit.
        assert(objs2.contains(objs2[j2]));
        lemma_multiset_member_transfer(objs2, objs1, objs2[j2]);
        let i1 = choose|i: int| 0 <= i < objs1.len() && objs1[i] == objs2[j2];
        assert(sphere_full_hit(objs1[i1], r, tmin, tmax0) == Some(b));
        assert(a.t <= b.t);
        assert(objs1.contains(objs1[j1]));
        lemma_multiset_member_transfer(objs1, objs2, objs1[j1]);
        let i2 = choose|i: int| 0 <= i < objs2.len() && objs2[i] == objs1[j1];
        assert(sphere_full_hit(objs2[i2], r, tmin, tmax0) == Some(a));
        assert(b.t <= a.t);
        // With equal parameters, distinctness makes the witnesses one index.
        if i1 != j1 {
            assert((sphere_full_hit(objs1[i1], r, tmin, tmax0)->Some_0).t != (sphere_full_hit(
                objs1[j1],
                r,
                tmin,
                tmax0,
            )->Some_0).t);
            assert(false);
        }
        assert(Some(a) == Some(b));
    }
}

/// An empty scene intersects nothing: every query over it misses.
pub proof fn lemma_empty_scene_misses(
    l: HittableList,
    r: Ray,
    tmin: int,
    tmax: int,
    mat0: Option<Material>,
)
    requires
        l.objects@.len() == 0,
    ensures
        l.hit_model(r, tmin, tmax, mat0) is None,
{
}

} // verus!
