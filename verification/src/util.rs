//! Geometric helpers: angle conversion, reflection, refraction, and the
//! fixed-point trigonometry the camera needs.

use vstd::prelude::*;
use crate::fixed::{
    fx_add, fx_sub, fx_mul, fx_div, fx_sqrt, fx_wf,
    add_fx, sub_fx, mul_fx, div_fx, sqrt_fx, SCALE, FX_MAX,
};
use crate::vec3::{Vec3, V3, v3_add, v3_sub, v3_scale, v3_dot};

verus! {

/// One half turn, in fixed-point radians.
pub const PI_FX: i64 = 205887;

/// One half turn, in fixed-point degrees.
pub const HALF_TURN_DEG_FX: i64 = 180 * 65536;

/// What `degrees_to_radians` returns: `degrees * pi / 180` in fixed point.
pub open spec fn deg_to_rad(d: int) -> int {
    fx_div(fx_mul(d, PI_FX as int), HALF_TURN_DEG_FX as int)
}

/// Converts fixed-point degrees to fixed-point radians.
pub fn degrees_to_radians(degrees: i64) -> (r: i64)
    requires
        fx_wf(degrees as int),
    ensures
        r as int == deg_to_rad(degrees as int),
        fx_wf(r as int),
{
    div_fx(mul_fx(degrees, PI_FX), HALF_TURN_DEG_FX)
}

/// The mirror image of `v` about the plane with normal `n`: `v - 2 (v.n) n`.
pub open spec fn reflect_s(v: V3, n: V3) -> V3 {
    let d = v3_dot(v, n);
    v3_sub(v, v3_scale(fx_add(d, d), n))
}

/// Reflects a vector off a surface with the given normal.
pub fn reflect(v: &Vec3, n: &Vec3) -> (r: Vec3)
    requires
        v.wf(),
        n.wf(),
    ensures
        r@ == reflect_s(v@, n@),
        r.wf(),
{
    let d: i64 = v.dot(n);
    v.vsub(&n.scale(add_fx(d, d)))
}

/// The incidence cosine used by refraction: `-uv.n`, capped at one.
pub open spec fn cos_theta_s(uv: V3, n: V3) -> int {
    let c = fx_sub(0, v3_dot(uv, n));
    if c > SCALE {
        SCALE as int
    } else {
        c
    }
}

/// Snell refraction of the unit vector `uv` through a surface with normal `n`,
/// by perpendicular/parallel decomposition.
pub open spec fn refract_s(uv: V3, n: V3, etai_over_etat: int) -> V3 {
    let cos = cos_theta_s(uv, n);
    let out_perp = v3_scale(etai_over_etat, v3_add(uv, v3_scale(cos, n)));
    let k = fx_sub(SCALE as int, v3_dot(out_perp, out_perp));
    let kabs = if k < 0 {
        fx_sub(0, k)
    } else {
        k
    };
    let out_parallel = v3_scale(fx_sub(0, fx_sqrt(kabs)), n);
    v3_add(out_perp, out_parallel)
}

/// Refracts a vector through a surface with the given normal and
/// refraction-index ratio.
pub fn refract(uv: &Vec3, n: &Vec3, etai_over_etat: i64) -> (r: Vec3)
    requires
        uv.wf(),
        n.wf(),
        fx_wf(etai_over_etat as int),
    ensures
        r@ == refract_s(uv@, n@, etai_over_etat as int),
        r.wf(),
{
    let d: i64 = uv.dot(n);
    let c0: i64 = sub_fx(0, d);
    let cos: i64 = if c0 > SCALE {
        SCALE
    } else {
        c0
    };
    let out_perp: Vec3 = uv.vadd(&n.scale(cos)).scale(etai_over_etat);
    let lensq: i64 = out_perp.length_squared();
    let k: i64 = sub_fx(SCALE, lensq);
    let kabs: i64 = if k < 0 {
        sub_fx(0, k)
    } else {
        k
    };
    let out_parallel: Vec3 = n.scale(sub_fx(0, sqrt_fx(kabs)));
    out_perp.vadd(&out_parallel)
}

/// Whether a vector is within one fixed-point step of zero in every
/// dimension; at this resolution that means exactly zero.
pub open spec fn v3_near_zero(v: V3) -> bool {
    v.x == 0 && v.y == 0 && v.z == 0
}

/// Checks if a vector is near zero in all dimensions.
pub fn is_vec3_near_zero(v: Vec3) -> (r: bool)
    ensures
        r == v3_near_zero(v@),
{
    -1 < v.x && v.x < 1 && -1 < v.y && v.y < 1 && -1 < v.z && v.z < 1
}

/// The sine Taylor polynomial, in fixed point, through the eleventh power.
pub open spec fn sin_poly(x: int) -> int {
    let x2 = fx_mul(x, x);
    let t1 = x;
    let t2 = fx_div(fx_mul(t1, x2), 6 * SCALE);
    let t3 = fx_div(fx_mul(t2, x2), 20 * SCALE);
    let t4 = fx_div(fx_mul(t3, x2), 42 * SCALE);
    let t5 = fx_div(fx_mul(t4, x2), 72 * SCALE);
    let t6 = fx_div(fx_mul(t5, x2), 110 * SCALE);
    fx_sub(fx_add(fx_sub(fx_add(fx_sub(t1, t2), t3), t4), t5), t6)
}

/// The cosine Taylor polynomial, in fixed point, through the tenth power.
pub open spec fn cos_poly(x: int) -> int {
    let x2 = fx_mul(x, x);
    let t1 = fx_div(x2, 2 * SCALE);
    let t2 = fx_div(fx_mul(t1, x2), 12 * SCALE);
    let t3 = fx_div(fx_mul(t2, x2), 30 * SCALE);
    let t4 = fx_div(fx_mul(t3, x2), 56 * SCALE);
    let t5 = fx_div(fx_mul(t4, x2), 90 * SCALE);
    fx_sub(fx_add(fx_sub(fx_add(fx_sub(SCALE as int, t1), t2), t3), t4), t5)
}

/// The tangent of a fixed-point angle in radians, from the two Taylor
/// polynomials; saturates where the cosine estimate is not positive.
pub open spec fn tan_s(x: int) -> int {
    let c = cos_poly(x);
    if c <= 0 {
        FX_MAX as int
    } else {
        fx_div(sin_poly(x), c)
    }
}

/// The sine of a fixed-point angle in radians, by Taylor polynomial.
pub fn sin_fx(x: i64) -> (r: i64)
    requires
        fx_wf(x as int),
    ensures
        r as int == sin_poly(x as int),
        fx_wf(r as int),
{
    let x2: i64 = mul_fx(x, x);
    let t1: i64 = x;
    let t2: i64 = div_fx(mul_fx(t1, x2), 6 * SCALE);
    let t3: i64 = div_fx(mul_fx(t2, x2), 20 * SCALE);
    let t4: i64 = div_fx(mul_fx(t3, x2), 42 * SCALE);
    let t5: i64 = div_fx(mul_fx(t4, x2), 72 * SCALE);
    let t6: i64 = div_fx(mul_fx(t5, x2), 110 * SCALE);
    sub_fx(add_fx(sub_fx(add_fx(sub_fx(t1, t2), t3), t4), t5), t6)
}

/// The cosine of a fixed-point angle in radians, by Taylor polynomial.
pub fn cos_fx(x: i64) -> (r: i64)
    requires
        fx_wf(x as int),
    ensures
        r as int == cos_poly(x as int),
        fx_wf(r as int),
{
    let x2: i64 = mul_fx(x, x);
    let t1: i64 = div_fx(x2, 2 * SCALE);
    let t2: i64 = div_fx(mul_fx(t1, x2), 12 * SCALE);
    let t3: i64 = div_fx(mul_fx(t2, x2), 30 * SCALE);
    let t4: i64 = div_fx(mul_fx(t3, x2), 56 * SCALE);
    let t5: i64 = div_fx(mul_fx(t4, x2), 90 * SCALE);
    sub_fx(add_fx(sub_fx(add_fx(sub_fx(SCALE, t1), t2), t3), t4), t5)
}

/// The tangent of a fixed-point angle in radians.
pub fn tan_fx(x: i64) -> (r: i64)
    requires
        fx_wf(x as int),
    ensures
        r as int == tan_s(x as int),
        fx_wf(r as int),
{
    let c: i64 = cos_fx(x);
    if c <= 0 {
        FX_MAX
    } else {
        div_fx(sin_fx(x), c)
    }
}

} // verus!
