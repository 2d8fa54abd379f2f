//! Sources of randomness for sampling.
//!
//! All randomness enters through one trusted draw from the `rand` crate; the
//! derived samplers are verified against the bounds of that draw.

use vstd::prelude::*;
use crate::fixed::{
    fx_clip, fx_mul, fx_div, fx_sqrt, fx_tdiv, fx_wf,
    lemma_int_sqrt_bounds, lemma_floor_div_bounds, SCALE, FX_MAX,
};
use crate::vec3::{
    Vec3, V3, v3_wf, v3_dot, v3_len, v3_unit, v3_neg, lemma_dot_neg, lemma_fx_square_nonneg,
};

verus! {

/// How many rejected draws a rejection sampler accepts before it settles
/// for a fixed fallback value.
pub const MAX_REJECTIONS: u64 = 1000;

/// Relies on `rand::rng` and `rand::RngExt::random_range`: a uniform draw
/// from the half-open range `0..n`, which panics only on an empty range.
#[verifier::external_body]
fn rand_below(n: u64) -> (r: u64)
    requires
        n > 0,
    ensures
        r < n,
{
    let mut rng = rand::rng();
    rand::RngExt::random_range(&mut rng, 0..n)
}

/// A uniformly random scalar in `[0, 1]`, both bounds included.
pub fn random_fx() -> (r: i64)
    ensures
        0 <= r <= SCALE,
        fx_wf(r as int),
{
    rand_below((SCALE as u64) + 1) as i64
}

/// A uniformly random scalar in the half-open range `[min, max)`.
pub fn random_fx_bounded(min: i64, max: i64) -> (r: i64)
    requires
        fx_wf(min as int),
        fx_wf(max as int),
        min < max,
    ensures
        min <= r < max,
        fx_wf(r as int),
{
    let width: u64 = (max - min) as u64;
    let draw: u64 = rand_below(width);
    min + (draw as i64)
}

/// A random vector with every coordinate in `[0, 1]`.
pub fn random_vec3() -> (v: Vec3)
    ensures
        v.wf(),
        0 <= v@.x <= SCALE,
        0 <= v@.y <= SCALE,
        0 <= v@.z <= SCALE,
{
    Vec3::new(random_fx(), random_fx(), random_fx())
}

/// A random vector with every coordinate in `[min, max)`.
pub fn random_vec3_bounded(min: i64, max: i64) -> (v: Vec3)
    requires
        fx_wf(min as int),
        fx_wf(max as int),
        min < max,
    ensures
        v.wf(),
        min <= v@.x < max,
        min <= v@.y < max,
        min <= v@.z < max,
{
    Vec3::new(
        random_fx_bounded(min, max),
        random_fx_bounded(min, max),
        random_fx_bounded(min, max),
    )
}

/// A ball point whose normalization is numerically safe: its squared length
/// lies between a quarter and one, so dividing by its length keeps the
/// result near unit length.
pub open spec fn safe_ball_point(p: V3) -> bool {
    v3_wf(p) && SCALE / 4 <= v3_dot(p, p) <= SCALE
}

/// A random vector of roughly unit length: a rejection-sampled point of the
/// unit ball, normalized. Points whose squared length falls below a quarter
/// are rejected, so the normalization never divides by a tiny length.
pub fn random_unit_vector() -> (v: Vec3)
    ensures
        v.wf(),
        exists|p: V3| safe_ball_point(p) && v@ == v3_unit(p),
        SCALE - 16 <= v3_dot(v@, v@) <= SCALE + 21,
{
    let mut tries: u64 = 0;
    while tries < MAX_REJECTIONS
        decreases MAX_REJECTIONS - tries,
    {
        let p: Vec3 = random_vec3_bounded(-SCALE, SCALE);
        let lensq: i64 = p.length_squared();
        if SCALE / 4 <= lensq && lensq <= SCALE {
            let u: Vec3 = p.normalize();
            proof {
                assert(safe_ball_point(p@) && u@ == v3_unit(p@));
                lemma_safe_normalization_near_unit(p@);
            }
            return u;
        }
        tries = tries + 1;
    }
    // Rejection is overwhelmingly unlikely to persist; settle for a fixed
    // unit vector, which is its own normalization.
    let fallback: Vec3 = Vec3::new(SCALE, 0, 0);
    let u: Vec3 = fallback.normalize();
    proof {
        assert(safe_ball_point(fallback@) && u@ == v3_unit(fallback@));
        lemma_safe_normalization_near_unit(fallback@);
    }
    u
}

/// One coordinate scaled and divided by the positive length `n`: the
/// magnitude of the quotient is pinned between the two sides of the
/// flooring division.
proof fn lemma_component_div_bounds(x: int, n: int)
    requires
        0 < n,
    ensures
        n * vstd::math::abs(fx_tdiv(x * SCALE, n)) <= vstd::math::abs(x) * SCALE,
        vstd::math::abs(x) * SCALE < n * (vstd::math::abs(fx_tdiv(x * SCALE, n)) + 1),
{
    let s = SCALE as int;
    if x >= 0 {
        let q = (x * s) / n;
        assert(x * s >= 0) by (nonlinear_arith)
            requires
                x >= 0,
                s > 0,
        {
        }
        lemma_floor_div_bounds(x * s, n);
        vstd::arithmetic::div_mod::lemma_div_pos_is_pos(x * s, n);
        assert(fx_tdiv(x * s, n) == q);
        assert(n * (q + 1) == n * q + n) by (nonlinear_arith) {}
        assert(vstd::math::abs(x) * s == x * s);
    } else {
        assert(x * s < 0) by (nonlinear_arith)
            requires
                x < 0,
                s > 0,
        {
        }
        let m = -(x * s);
        let q = m / n;
        lemma_floor_div_bounds(m, n);
        vstd::arithmetic::div_mod::lemma_div_pos_is_pos(m, n);
        assert(fx_tdiv(x * s, n) == -q);
        assert(vstd::math::abs(fx_tdiv(x * s, n)) == q);
        assert(vstd::math::abs(x) * s == m) by (nonlinear_arith)
            requires
                x < 0,
                m == -(x * s),
        {
        }
        assert(n * (q + 1) == n * q + n) by (nonlinear_arith) {}
    }
}

/// Normalizing a safe ball point yields a vector whose squared length is
/// within a few fixed-point steps of one.
#[verifier::rlimit(100)]
pub proof fn lemma_safe_normalization_near_unit(p: V3)
    requires
        safe_ball_point(p),
    ensures
        SCALE - 16 <= v3_dot(v3_unit(p), v3_unit(p)),
        v3_dot(v3_unit(p), v3_unit(p)) <= SCALE + 21,
{
    let s = SCALE as int;
    let fm = FX_MAX as int;
    let d = v3_dot(p, p);
    let m1 = fx_mul(p.x, p.x);
    let m2 = fx_mul(p.y, p.y);
    let m3 = fx_mul(p.z, p.z);
    lemma_fx_square_nonneg(p.x);
    lemma_fx_square_nonneg(p.y);
    lemma_fx_square_nonneg(p.z);

    // The dot product is the plain sum of the three squares: saturation
    // would push it past one, against the safe-point bound.
    if m1 + m2 > fm {
        assert(fx_clip(m1 + m2) == fm);
        assert(d == fx_clip(fm + m3));
        assert(false);
    }
    if m1 + m2 + m3 > fm {
        assert(false);
    }
    assert(d == m1 + m2 + m3);
    assert(0 <= m1 <= d && 0 <= m2 <= d && 0 <= m3 <= d);

    // Each square is the floor of the exact square over one.
    assert(p.x * p.x >= 0 && p.y * p.y >= 0 && p.z * p.z >= 0) by (nonlinear_arith) {}
    assert(m1 == fx_clip((p.x * p.x) / s));
    lemma_floor_div_bounds(p.x * p.x, s);
    lemma_floor_div_bounds(p.y * p.y, s);
    lemma_floor_div_bounds(p.z * p.z, s);
    vstd::arithmetic::div_mod::lemma_div_pos_is_pos(p.x * p.x, s);
    vstd::arithmetic::div_mod::lemma_div_pos_is_pos(p.y * p.y, s);
    vstd::arithmetic::div_mod::lemma_div_pos_is_pos(p.z * p.z, s);
    if (p.x * p.x) / s > fm {
        assert(false);
    }
    if (p.y * p.y) / s > fm {
        assert(false);
    }
    if (p.z * p.z) / s > fm {
        assert(false);
    }
    assert(m1 == (p.x * p.x) / s && m2 == (p.y * p.y) / s && m3 == (p.z * p.z) / s);
    let pp = p.x * p.x + p.y * p.y + p.z * p.z;
    assert(s * d <= pp && pp < s * d + 3 * s);

    // No coordinate exceeds one in magnitude.
    assert(p.x * p.x < s * s + 2 * s);
    let ax = vstd::math::abs(p.x) as int;
    let ay = vstd::math::abs(p.y) as int;
    let az = vstd::math::abs(p.z) as int;
    assert(ax <= s && ax * ax == p.x * p.x) by (nonlinear_arith)
        requires
            p.x * p.x < s * s + 2 * s,
            s == 0x10000,
            ax == vstd::math::abs(p.x),
    {
    }
    assert(ay <= s && ay * ay == p.y * p.y) by (nonlinear_arith)
        requires
            p.y * p.y < s * s + 2 * s,
            s == 0x10000,
            ay == vstd::math::abs(p.y),
    {
    }
    assert(az <= s && az * az == p.z * p.z) by (nonlinear_arith)
        requires
            p.z * p.z < s * s + 2 * s,
            s == 0x10000,
            az == vstd::math::abs(p.z),
    {
    }

    // The fixed-point length lies between one half and one.
    lemma_int_sqrt_bounds(d * s);
    let n = fx_sqrt(d);
    assert(n * n <= d * s && d * s < (n + 1) * (n + 1) && 0 <= n);
    assert(s / 2 <= n && n <= s) by (nonlinear_arith)
        requires
            0 <= n,
            n * n <= d * s,
            d * s < (n + 1) * (n + 1),
            s / 4 <= d <= s,
            s == 0x10000,
    {
    }
    let u = v3_unit(p);
    assert(v3_len(p) == n);
    assert(u == (V3 { x: fx_div(p.x, n), y: fx_div(p.y, n), z: fx_div(p.z, n) }));

    // Per coordinate: the quotient is clip-free and its magnitude is at
    // most two.
    lemma_component_div_bounds(p.x, n);
    lemma_component_div_bounds(p.y, n);
    lemma_component_div_bounds(p.z, n);
    let vx = fx_tdiv(p.x * s, n);
    let vy = fx_tdiv(p.y * s, n);
    let vz = fx_tdiv(p.z * s, n);
    let avx = vstd::math::abs(vx) as int;
    let avy = vstd::math::abs(vy) as int;
    let avz = vstd::math::abs(vz) as int;
    assert(avx <= 2 * s) by (nonlinear_arith)
        requires
            n * avx <= ax * s,
            ax <= s,
            s / 2 <= n,
            0 <= avx,
            s == 0x10000,
    {
    }
    assert(avy <= 2 * s) by (nonlinear_arith)
        requires
            n * avy <= ay * s,
            ay <= s,
            s / 2 <= n,
            0 <= avy,
            s == 0x10000,
    {
    }
    assert(avz <= 2 * s) by (nonlinear_arith)
        requires
            n * avz <= az * s,
            az <= s,
            s / 2 <= n,
            0 <= avz,
            s == 0x10000,
    {
    }
    assert(u.x == vx && u.y == vy && u.z == vz);

    // Square the per-coordinate bounds.
    assert(n * n * (avx * avx) <= (ax * ax) * (s * s) && (ax * ax) * (s * s) < n * n * ((avx
        + 1) * (avx + 1))) by (nonlinear_arith)
        requires
            n * avx <= ax * s,
            ax * s < n * (avx + 1),
            0 <= avx,
            0 <= ax,
            0 < n,
            0 < s,
    {
    }
    assert(n * n * (avy * avy) <= (ay * ay) * (s * s) && (ay * ay) * (s * s) < n * n * ((avy
        + 1) * (avy + 1))) by (nonlinear_arith)
        requires
            n * avy <= ay * s,
            ay * s < n * (avy + 1),
            0 <= avy,
            0 <= ay,
            0 < n,
            0 < s,
    {
    }
    assert(n * n * (avz * avz) <= (az * az) * (s * s) && (az * az) * (s * s) < n * n * ((avz
        + 1) * (avz + 1))) by (nonlinear_arith)
        requires
            n * avz <= az * s,
            az * s < n * (avz + 1),
            0 <= avz,
            0 <= az,
            0 < n,
            0 < s,
    {
    }

    // Sum the squared bounds over the three coordinates.
    let xx = avx * avx + avy * avy + avz * avz;
    let yy = avx + avy + avz;
    let ww = (avx + 1) * (avx + 1) + (avy + 1) * (avy + 1) + (avz + 1) * (avz + 1);
    assert(n * n * xx == n * n * (avx * avx) + n * n * (avy * avy) + n * n * (avz * avz))
        by (nonlinear_arith)
        requires
            xx == avx * avx + avy * avy + avz * avz,
    {
    }
    assert(n * n * ww == n * n * ((avx + 1) * (avx + 1)) + n * n * ((avy + 1) * (avy + 1)) + n
        * n * ((avz + 1) * (avz + 1))) by (nonlinear_arith)
        requires
            ww == (avx + 1) * (avx + 1) + (avy + 1) * (avy + 1) + (avz + 1) * (avz + 1),
    {
    }
    assert(ww == xx + 2 * yy + 3) by (nonlinear_arith)
        requires
            ww == (avx + 1) * (avx + 1) + (avy + 1) * (avy + 1) + (avz + 1) * (avz + 1),
            xx == avx * avx + avy * avy + avz * avz,
            yy == avx + avy + avz,
    {
    }
    assert(pp * (s * s) == (ax * ax) * (s * s) + (ay * ay) * (s * s) + (az * az) * (s * s))
        by (nonlinear_arith)
        requires
            pp == ax * ax + ay * ay + az * az,
    {
    }
    assert(n * n * xx <= pp * (s * s));
    assert(pp * (s * s) < n * n * ww);

    // The upper bound: the squared coordinates sum to at most one plus a
    // small slack.
    assert(n * n >= d * s - 2 * s) by (nonlinear_arith)
        requires
            d * s < (n + 1) * (n + 1),
            0 <= n <= s,
            s == 0x10000,
    {
    }
    assert(xx <= s * s + 21 * s) by (nonlinear_arith)
        requires
            d * s - 2 * s <= n * n,
            n * n * xx <= pp * (s * s),
            pp < s * d + 3 * s,
            s / 4 <= d <= s,
            0 <= xx,
            s == 0x10000,
    {
    }

    // The lower bound: they sum to at least one minus a small slack.
    assert(yy <= 6 * s);
    assert((s * d) * (s * s) <= pp * (s * s)) by (nonlinear_arith)
        requires
            s * d <= pp,
            0 < s,
    {
    }
    assert(xx >= s * s - 12 * s - 2) by (nonlinear_arith)
        requires
            (s * d) * (s * s) < n * n * ww,
            n * n <= d * s,
            ww == xx + 2 * yy + 3,
            yy <= 6 * s,
            s / 4 <= d <= s,
            s == 0x10000,
    {
    }

    // Translate the exact squared sum into the fixed-point dot product.
    let q1 = fx_mul(vx, vx);
    let q2 = fx_mul(vy, vy);
    let q3 = fx_mul(vz, vz);
    assert(vx * vx == avx * avx && vy * vy == avy * avy && vz * vz == avz * avz)
        by (nonlinear_arith)
        requires
            avx == vstd::math::abs(vx),
            avy == vstd::math::abs(vy),
            avz == vstd::math::abs(vz),
    {
    }
    assert(vx * vx >= 0 && vy * vy >= 0 && vz * vz >= 0);
    lemma_floor_div_bounds(vx * vx, s);
    lemma_floor_div_bounds(vy * vy, s);
    lemma_floor_div_bounds(vz * vz, s);
    vstd::arithmetic::div_mod::lemma_div_pos_is_pos(vx * vx, s);
    vstd::arithmetic::div_mod::lemma_div_pos_is_pos(vy * vy, s);
    vstd::arithmetic::div_mod::lemma_div_pos_is_pos(vz * vz, s);
    assert(avx * avx <= 4 * s * s && avy * avy <= 4 * s * s && avz * avz <= 4 * s * s)
        by (nonlinear_arith)
        requires
            0 <= avx <= 2 * s,
            0 <= avy <= 2 * s,
            0 <= avz <= 2 * s,
    {
    }
    assert(q1 == (vx * vx) / s && q2 == (vy * vy) / s && q3 == (vz * vz) / s);
    let dd = v3_dot(u, u);
    assert(0 <= q1 <= 4 * s && 0 <= q2 <= 4 * s && 0 <= q3 <= 4 * s);
    assert(dd == q1 + q2 + q3);
    assert(s * dd <= xx && xx < s * dd + 3 * s);
    assert(s * dd <= s * s + 21 * s);
    assert(s * dd > s * s - 15 * s - 2);
    assert(dd <= s + 21 && dd >= s - 16) by (nonlinear_arith)
        requires
            s * dd <= s * s + 21 * s,
            s * dd > s * s - 15 * s - 2,
            s == 0x10000,
    {
    }
}

/// A random unit-length vector on the hemisphere around `normal`.
pub fn random_on_hemisphere(normal: &Vec3) -> (v: Vec3)
    requires
        normal.wf(),
    ensures
        v.wf(),
        v3_dot(v@, normal@) >= 0,
{
    let on_unit_sphere: Vec3 = random_unit_vector();
    if on_unit_sphere.dot(normal) > 0 {
        on_unit_sphere
    } else {
        proof {
            lemma_dot_neg(on_unit_sphere@, normal@);
        }
        on_unit_sphere.vneg()
    }
}

/// A rejection-sampled random point strictly inside the unit disk of the
/// `x`/`y` plane.
pub fn random_in_unit_disk() -> (v: Vec3)
    ensures
        v.wf(),
        v@.z == 0,
        v3_dot(v@, v@) < SCALE,
{
    let mut tries: u64 = 0;
    while tries < MAX_REJECTIONS
        decreases MAX_REJECTIONS - tries,
    {
        let p: Vec3 = Vec3::new(
            random_fx_bounded(-SCALE, SCALE),
            random_fx_bounded(-SCALE, SCALE),
            0,
        );
        if p.length_squared() < SCALE {
            return p;
        }
        tries = tries + 1;
    }
    // Rejection is overwhelmingly unlikely to persist; settle for the center
    // of the disk.
    Vec3::zero()
}

} // verus!
