//! A ray of light: an origin and a direction, evaluated along a parameter.

use vstd::prelude::*;
use crate::fixed::{fx_wf, fx_mul, fx_add, fx_clip};
use crate::vec3::{Vec3, Point3, V3, v3_wf, v3_add, v3_scale, v3_zero};

verus! {

/// A ray of light: the half-line `origin + t * direction` for `t >= 0`.
#[derive(Clone, Copy, Debug, PartialEq, Eq, Structural)]
pub struct Ray {
    pub orig: Point3,
    pub dir: Vec3,
}

/// The point a ray reaches at parameter `t`.
pub open spec fn ray_at(orig: V3, dir: V3, t: int) -> V3 {
    v3_add(orig, v3_scale(t, dir))
}

impl Ray {
    pub open spec fn wf(&self) -> bool {
        v3_wf(self.orig@) && v3_wf(self.dir@)
    }

    /// Build a ray from its origin and direction.
    pub fn new(origin: Point3, direction: Vec3) -> (r: Ray)
        ensures
            r.orig == origin,
            r.dir == direction,
    {
        Ray { orig: origin, dir: direction }
    }

    /// The origin point of the ray.
    pub fn origin(&self) -> (r: &Point3)
        ensures
            *r == self.orig,
    {
        &self.orig
    }

    /// The direction vector of the ray.
    pub fn direction(&self) -> (r: &Vec3)
        ensures
            *r == self.dir,
    {
        &self.dir
    }

    /// The point at parameter `t` along the ray: `origin + t * direction`.
    pub fn at(&self, t: i64) -> (p: Point3)
        requires
            self.wf(),
            fx_wf(t as int),
        ensures
            p@ == ray_at(self.orig@, self.dir@, t as int),
            v3_wf(p@),
    {
        self.orig.vadd(&self.dir.scale(t))
    }
}

impl Default for Ray {
    /// The degenerate ray resting at the origin.
    fn default() -> (r: Ray)
        ensures
            r.orig@ == v3_zero(),
            r.dir@ == v3_zero(),
            r.wf(),
    {
        Ray { orig: Vec3::zero(), dir: Vec3::zero() }
    }
}

/// At parameter zero a ray is at its own origin, whatever its direction.
pub proof fn lemma_ray_at_zero(orig: V3, dir: V3)
    requires
        v3_wf(orig),
    ensures
        ray_at(orig, dir, 0) == orig,
{
    assert(fx_mul(0, dir.x) == 0);
    assert(fx_mul(0, dir.y) == 0);
    assert(fx_mul(0, dir.z) == 0);
    assert(fx_add(orig.x, 0) == orig.x);
    assert(fx_add(orig.y, 0) == orig.y);
    assert(fx_add(orig.z, 0) == orig.z);
}

} // verus!
