//! Three-component fixed-point vectors.

use vstd::prelude::*;
use crate::fixed::{
    fx_add, fx_sub, fx_mul, fx_div, fx_sqrt, fx_wf, fx_clip,
    add_fx, sub_fx, mul_fx, div_fx, sqrt_fx, SCALE, FX_MAX,
};

verus! {

/// Mathematical model of a vector: unbounded fixed-point coordinates.
pub struct V3 {
    pub x: int,
    pub y: int,
    pub z: int,
}

/// A vector of three fixed-point scalars.
#[derive(Clone, Copy, Debug, PartialEq, Eq, Structural)]
pub struct Vec3 {
    pub x: i64,
    pub y: i64,
    pub z: i64,
}

/// A point in space is a vector from the origin.
pub type Point3 = Vec3;

impl View for Vec3 {
    type V = V3;

    open spec fn view(&self) -> V3 {
        V3 { x: self.x as int, y: self.y as int, z: self.z as int }
    }
}

/// All three coordinates are well-formed scalars.
pub open spec fn v3_wf(v: V3) -> bool {
    fx_wf(v.x) && fx_wf(v.y) && fx_wf(v.z)
}

pub open spec fn v3_zero() -> V3 {
    V3 { x: 0, y: 0, z: 0 }
}

pub open spec fn v3_add(a: V3, b: V3) -> V3 {
    V3 { x: fx_add(a.x, b.x), y: fx_add(a.y, b.y), z: fx_add(a.z, b.z) }
}

pub open spec fn v3_sub(a: V3, b: V3) -> V3 {
    V3 { x: fx_sub(a.x, b.x), y: fx_sub(a.y, b.y), z: fx_sub(a.z, b.z) }
}

pub open spec fn v3_neg(a: V3) -> V3 {
    V3 { x: fx_sub(0, a.x), y: fx_sub(0, a.y), z: fx_sub(0, a.z) }
}

/// Scale every coordinate by the fixed-point factor `t`.
pub open spec fn v3_scale(t: int, a: V3) -> V3 {
    V3 { x: fx_mul(t, a.x), y: fx_mul(t, a.y), z: fx_mul(t, a.z) }
}

/// The dot product: three rescaled products, summed left to right.
pub open spec fn v3_dot(a: V3, b: V3) -> int {
    fx_add(fx_add(fx_mul(a.x, b.x), fx_mul(a.y, b.y)), fx_mul(a.z, b.z))
}

pub open spec fn v3_cross(a: V3, b: V3) -> V3 {
    V3 {
        x: fx_sub(fx_mul(a.y, b.z), fx_mul(a.z, b.y)),
        y: fx_sub(fx_mul(a.z, b.x), fx_mul(a.x, b.z)),
        z: fx_sub(fx_mul(a.x, b.y), fx_mul(a.y, b.x)),
    }
}

/// Divide every coordinate by the positive fixed-point scalar `t`.
pub open spec fn v3_div_scale(a: V3, t: int) -> V3 {
    V3 { x: fx_div(a.x, t), y: fx_div(a.y, t), z: fx_div(a.z, t) }
}

/// The length of a vector: the fixed-point root of its squared length.
pub open spec fn v3_len(a: V3) -> int {
    fx_sqrt(v3_dot(a, a))
}

/// The unit vector along `a`; the zero vector where the length rounds to zero.
pub open spec fn v3_unit(a: V3) -> V3 {
    let n = v3_len(a);
    if n <= 0 {
        v3_zero()
    } else {
        V3 { x: fx_div(a.x, n), y: fx_div(a.y, n), z: fx_div(a.z, n) }
    }
}

/// A fixed-point square is never negative.
pub proof fn lemma_fx_square_nonneg(x: int)
    ensures
        fx_mul(x, x) >= 0,
{
    assert(x * x >= 0) by (nonlinear_arith) {}
}

/// Negating one side of a dot product negates the product.
pub proof fn lemma_dot_neg(a: V3, b: V3)
    requires
        v3_wf(a),
    ensures
        v3_dot(v3_neg(a), b) == -v3_dot(a, b),
{
    assert((-a.x) * b.x == -(a.x * b.x)) by (nonlinear_arith) {}
    assert((-a.y) * b.y == -(a.y * b.y)) by (nonlinear_arith) {}
    assert((-a.z) * b.z == -(a.z * b.z)) by (nonlinear_arith) {}
}

/// A dot product of a vector with itself is never negative.
pub proof fn lemma_self_dot_nonneg(a: V3)
    ensures
        v3_dot(a, a) >= 0,
{
    lemma_fx_square_nonneg(a.x);
    lemma_fx_square_nonneg(a.y);
    lemma_fx_square_nonneg(a.z);
}

impl Vec3 {
    /// Build a vector from three well-formed fixed-point coordinates.
    pub fn new(x: i64, y: i64, z: i64) -> (v: Vec3)
        requires
            fx_wf(x as int),
            fx_wf(y as int),
            fx_wf(z as int),
        ensures
            v@ == (V3 { x: x as int, y: y as int, z: z as int }),
            v3_wf(v@),
    {
        Vec3 { x, y, z }
    }

    pub open spec fn wf(&self) -> bool {
        v3_wf(self@)
    }

    pub fn zero() -> (v: Vec3)
        ensures
            v@ == v3_zero(),
            v3_wf(v@),
    {
        Vec3 { x: 0, y: 0, z: 0 }
    }

    pub fn vadd(&self, o: &Vec3) -> (r: Vec3)
        requires
            self.wf(),
            o.wf(),
        ensures
            r@ == v3_add(self@, o@),
            r.wf(),
    {
        Vec3 { x: add_fx(self.x, o.x), y: add_fx(self.y, o.y), z: add_fx(self.z, o.z) }
    }

    pub fn vsub(&self, o: &Vec3) -> (r: Vec3)
        requires
            self.wf(),
            o.wf(),
        ensures
            r@ == v3_sub(self@, o@),
            r.wf(),
    {
        Vec3 { x: sub_fx(self.x, o.x), y: sub_fx(self.y, o.y), z: sub_fx(self.z, o.z) }
    }

    pub fn vneg(&self) -> (r: Vec3)
        requires
            self.wf(),
        ensures
            r@ == v3_neg(self@),
            r.wf(),
    {
        Vec3 { x: sub_fx(0, self.x), y: sub_fx(0, self.y), z: sub_fx(0, self.z) }
    }

    /// Scale by a fixed-point factor.
    pub fn scale(&self, t: i64) -> (r: Vec3)
        requires
            self.wf(),
            fx_wf(t as int),
        ensures
            r@ == v3_scale(t as int, self@),
            r.wf(),
    {
        Vec3 { x: mul_fx(t, self.x), y: mul_fx(t, self.y), z: mul_fx(t, self.z) }
    }

    /// Divide every coordinate by a positive fixed-point scalar.
    pub fn div_scale(&self, t: i64) -> (r: Vec3)
        requires
            self.wf(),
            0 < t,
        ensures
            r@ == v3_div_scale(self@, t as int),
            r.wf(),
    {
        Vec3 { x: div_fx(self.x, t), y: div_fx(self.y, t), z: div_fx(self.z, t) }
    }

    pub fn dot(&self, o: &Vec3) -> (r: i64)
        requires
            self.wf(),
            o.wf(),
        ensures
            r as int == v3_dot(self@, o@),
            fx_wf(r as int),
    {
        add_fx(add_fx(mul_fx(self.x, o.x), mul_fx(self.y, o.y)), mul_fx(self.z, o.z))
    }

    pub fn cross(&self, o: &Vec3) -> (r: Vec3)
        requires
            self.wf(),
            o.wf(),
        ensures
            r@ == v3_cross(self@, o@),
            r.wf(),
    {
        Vec3 {
            x: sub_fx(mul_fx(self.y, o.z), mul_fx(self.z, o.y)),
            y: sub_fx(mul_fx(self.z, o.x), mul_fx(self.x, o.z)),
            z: sub_fx(mul_fx(self.x, o.y), mul_fx(self.y, o.x)),
        }
    }

    /// The squared length, as a fixed-point scalar.
    pub fn length_squared(&self) -> (r: i64)
        requires
            self.wf(),
        ensures
            r as int == v3_dot(self@, self@),
            r >= 0,
            fx_wf(r as int),
    {
        proof {
            lemma_self_dot_nonneg(self@);
        }
        self.dot(self)
    }

    /// The length, as a fixed-point scalar.
    pub fn length(&self) -> (r: i64)
        requires
            self.wf(),
        ensures
            r as int == v3_len(self@),
            r >= 0,
            fx_wf(r as int),
    {
        sqrt_fx(self.length_squared())
    }

    /// The unit vector along `self`; zero where the length rounds to zero.
    pub fn normalize(&self) -> (r: Vec3)
        requires
            self.wf(),
        ensures
            r@ == v3_unit(self@),
            r.wf(),
    {
        let n: i64 = self.length();
        if n <= 0 {
            Vec3::zero()
        } else {
            Vec3 { x: div_fx(self.x, n), y: div_fx(self.y, n), z: div_fx(self.z, n) }
        }
    }
}

} // verus!
