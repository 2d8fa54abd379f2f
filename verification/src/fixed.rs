//! Fixed-point scalar arithmetic.
//!
//! A scalar holds `value * SCALE` in an `i64`. Multiplication and division
//! rescale with truncating (round-toward-zero) division, and every operation
//! saturates at `FX_MAX`, so all operations are total over well-formed
//! scalars and never overflow.

use vstd::prelude::*;

verus! {

/// Number of fixed-point steps per unit: a scalar `s` stands for `s / SCALE`.
pub const SCALE: i64 = 65536;

/// Largest magnitude a scalar may take; arithmetic saturates here.
pub const FX_MAX: i64 = 0x0400_0000_0000_0000;

/// A scalar is well formed when its magnitude is at most `FX_MAX`.
pub open spec fn fx_wf(x: int) -> bool {
    -FX_MAX <= x <= FX_MAX
}

/// Saturate an unbounded integer into the representable scalar range.
pub open spec fn fx_clip(x: int) -> int {
    if x > FX_MAX {
        FX_MAX as int
    } else if x < -FX_MAX {
        -(FX_MAX as int)
    } else {
        x
    }
}

/// Truncating (round-toward-zero) division, for a positive divisor.
pub open spec fn fx_tdiv(a: int, b: int) -> int {
    if a >= 0 {
        a / b
    } else {
        -((-a) / b)
    }
}

/// Saturating scalar addition.
pub open spec fn fx_add(a: int, b: int) -> int {
    fx_clip(a + b)
}

/// Saturating scalar subtraction.
pub open spec fn fx_sub(a: int, b: int) -> int {
    fx_clip(a - b)
}

/// Saturating fixed-point multiplication: `a * b` rescaled by `SCALE`.
pub open spec fn fx_mul(a: int, b: int) -> int {
    fx_clip(fx_tdiv(a * b, SCALE as int))
}

/// Saturating fixed-point division: `a / b` rescaled by `SCALE`.
pub open spec fn fx_div(a: int, b: int) -> int {
    fx_clip(fx_tdiv(a * SCALE, b))
}

/// The integer square root: the unique `r >= 0` with `r * r <= n < (r+1) * (r+1)`.
pub open spec fn int_sqrt(n: int) -> int {
    choose|r: int| 0 <= r && #[trigger] (r * r) <= n < (r + 1) * (r + 1)
}

/// Fixed-point square root of a nonnegative scalar.
pub open spec fn fx_sqrt(x: int) -> int {
    int_sqrt(x * SCALE)
}

/// The integer square root is pinned down by its bounding squares.
pub proof fn lemma_int_sqrt_unique(n: int, r: int)
    requires
        0 <= r,
        r * r <= n,
        n < (r + 1) * (r + 1),
    ensures
        int_sqrt(n) == r,
{
    assert(0 <= r && r * r <= n < (r + 1) * (r + 1));
    let c = int_sqrt(n);
    assert(0 <= c && c * c <= n < (c + 1) * (c + 1));
    if c < r {
        assert((c + 1) * (c + 1) <= r * r) by (nonlinear_arith)
            requires
                0 <= c + 1,
                c + 1 <= r,
        {
        }
        assert(false);
    }
    if r < c {
        assert((r + 1) * (r + 1) <= c * c) by (nonlinear_arith)
            requires
                0 <= r + 1,
                r + 1 <= c,
        {
        }
        assert(false);
    }
}

/// Every nonnegative integer has an integer square root: `int_sqrt` sits
/// between the two bounding squares.
pub proof fn lemma_int_sqrt_bounds(n: int)
    requires
        0 <= n,
    ensures
        0 <= int_sqrt(n),
        int_sqrt(n) * int_sqrt(n) <= n,
        n < (int_sqrt(n) + 1) * (int_sqrt(n) + 1),
    decreases n,
{
    if n == 0 {
        assert(0 <= 0 && #[trigger] (0int * 0int) <= 0 < (0 + 1) * (0 + 1));
        assert(exists|r: int| 0 <= r && #[trigger] (r * r) <= n < (r + 1) * (r + 1));
    } else {
        lemma_int_sqrt_bounds(n - 1);
        let p = int_sqrt(n - 1);
        if n == (p + 1) * (p + 1) {
            assert(n < (p + 2) * (p + 2)) by (nonlinear_arith)
                requires
                    0 <= p,
                    n == (p + 1) * (p + 1),
            {
            }
            assert(0 <= p + 1 && (p + 1) * (p + 1) <= n < (p + 2) * (p + 2));
            assert(exists|r: int| 0 <= r && #[trigger] (r * r) <= n < (r + 1) * (r + 1));
        } else {
            assert(0 <= p && p * p <= n < (p + 1) * (p + 1));
            assert(exists|r: int| 0 <= r && #[trigger] (r * r) <= n < (r + 1) * (r + 1));
        }
    }
}

/// The fixed-point square root of a nonnegative scalar sits between the two
/// bounding squares of the rescaled value.
pub proof fn lemma_fx_sqrt_bounds(x: int)
    requires
        0 <= x,
    ensures
        0 <= fx_sqrt(x),
        fx_sqrt(x) * fx_sqrt(x) <= x * SCALE,
        x * SCALE < (fx_sqrt(x) + 1) * (fx_sqrt(x) + 1),
{
    assert(0 <= x * SCALE) by (nonlinear_arith)
        requires
            0 <= x,
    {
    }
    lemma_int_sqrt_bounds(x * SCALE);
}

/// The rescaled product of two unit-range scalars is unit-range, and is
/// bounded by each factor.
pub proof fn lemma_fx_mul_unit(x: int, y: int)
    requires
        0 <= x <= SCALE,
        0 <= y <= SCALE,
    ensures
        0 <= fx_mul(x, y) <= x,
        fx_mul(x, y) <= y,
{
    assert(0 <= x * y && x * y <= x * SCALE && x * y <= y * SCALE) by (nonlinear_arith)
        requires
            0 <= x <= SCALE,
            0 <= y <= SCALE,
    {
    }
    vstd::arithmetic::div_mod::lemma_div_is_ordered(x * y, x * SCALE, SCALE as int);
    vstd::arithmetic::div_mod::lemma_div_is_ordered(x * y, y * SCALE, SCALE as int);
    vstd::arithmetic::div_mod::lemma_div_by_multiple(x, SCALE as int);
    vstd::arithmetic::div_mod::lemma_div_by_multiple(y, SCALE as int);
    vstd::arithmetic::div_mod::lemma_div_pos_is_pos(x * y, SCALE as int);
}

/// Truncating division by a positive divisor is monotone in the dividend.
pub proof fn lemma_fx_tdiv_monotone(x1: int, x2: int, b: int)
    requires
        x1 <= x2,
        0 < b,
    ensures
        fx_tdiv(x1, b) <= fx_tdiv(x2, b),
{
    if x1 >= 0 {
        vstd::arithmetic::div_mod::lemma_div_is_ordered(x1, x2, b);
    } else if x2 >= 0 {
        vstd::arithmetic::div_mod::lemma_div_pos_is_pos(x2, b);
        vstd::arithmetic::div_mod::lemma_div_pos_is_pos(-x1, b);
    } else {
        vstd::arithmetic::div_mod::lemma_div_is_ordered(-x2, -x1, b);
    }
}

/// Saturating fixed-point division by a positive divisor is monotone in the
/// dividend.
pub proof fn lemma_fx_div_monotone(x1: int, x2: int, b: int)
    requires
        x1 <= x2,
        0 < b,
    ensures
        fx_div(x1, b) <= fx_div(x2, b),
{
    lemma_fx_tdiv_monotone(x1 * SCALE, x2 * SCALE, b);
}

/// The two sides a flooring division pins its dividend between.
pub proof fn lemma_floor_div_bounds(x: int, d: int)
    requires
        0 < d,
    ensures
        d * (x / d) <= x,
        x < d * (x / d) + d,
{
    vstd::arithmetic::div_mod::lemma_fundamental_div_mod(x, d);
    vstd::arithmetic::div_mod::lemma_mod_division_less_than_divisor(x, d);
}

/// Saturate an `i64` into the scalar range.
pub fn clamp_fx(x: i64) -> (r: i64)
    ensures
        r as int == fx_clip(x as int),
        fx_wf(r as int),
{
    if x > FX_MAX {
        FX_MAX
    } else if x < -FX_MAX {
        -FX_MAX
    } else {
        x
    }
}

/// Saturate an `i128` into the scalar range.
fn clamp_fx_wide(x: i128) -> (r: i64)
    ensures
        r as int == fx_clip(x as int),
        fx_wf(r as int),
{
    if x > FX_MAX as i128 {
        FX_MAX
    } else if x < -(FX_MAX as i128) {
        -FX_MAX
    } else {
        x as i64
    }
}

/// Truncating division of a wide intermediate by a positive divisor.
fn tdiv_wide(a: i128, d: i128) -> (r: i128)
    requires
        d > 0,
        a != i128::MIN,
    ensures
        r as int == fx_tdiv(a as int, d as int),
{
    if a >= 0 {
        ((a as u128) / (d as u128)) as i128
    } else {
        let m: u128 = (-a) as u128;
        let q: u128 = m / (d as u128);
        -(q as i128)
    }
}

/// Saturating scalar addition.
pub fn add_fx(a: i64, b: i64) -> (r: i64)
    requires
        fx_wf(a as int),
        fx_wf(b as int),
    ensures
        r as int == fx_add(a as int, b as int),
        fx_wf(r as int),
{
    clamp_fx(a + b)
}

/// Saturating scalar subtraction.
pub fn sub_fx(a: i64, b: i64) -> (r: i64)
    requires
        fx_wf(a as int),
        fx_wf(b as int),
    ensures
        r as int == fx_sub(a as int, b as int),
        fx_wf(r as int),
{
    clamp_fx(a - b)
}

/// Saturating fixed-point multiplication.
pub fn mul_fx(a: i64, b: i64) -> (r: i64)
    requires
        fx_wf(a as int),
        fx_wf(b as int),
    ensures
        r as int == fx_mul(a as int, b as int),
        fx_wf(r as int),
{
    proof {
        assert(-(FX_MAX as int) * FX_MAX <= a as int * b as int <= FX_MAX as int * FX_MAX)
            by (nonlinear_arith)
            requires
                fx_wf(a as int),
                fx_wf(b as int),
        {
        }
    }
    let p: i128 = (a as i128) * (b as i128);
    let q: i128 = tdiv_wide(p, SCALE as i128);
    clamp_fx_wide(q)
}

/// Saturating fixed-point division by a positive scalar.
pub fn div_fx(a: i64, b: i64) -> (r: i64)
    requires
        fx_wf(a as int),
        0 < b,
    ensures
        r as int == fx_div(a as int, b as int),
        fx_wf(r as int),
{
    let p: i128 = (a as i128) * (SCALE as i128);
    let q: i128 = tdiv_wide(p, b as i128);
    clamp_fx_wide(q)
}

/// The integer square root of a wide unsigned value, by bisection.
pub fn isqrt_wide(n: u128) -> (r: u128)
    ensures
        r * r <= n,
        n < (r + 1) * (r + 1),
        r as int == int_sqrt(n as int),
{
    let mut lo: u128 = 0;
    let mut hi: u128 = 0x1_0000_0000_0000_0000u128;
    assert(n < hi * hi) by (nonlinear_arith)
        requires
            hi == 0x1_0000_0000_0000_0000u128,
            n <= u128::MAX,
    {
    }
    while lo + 1 < hi
        invariant
            lo < hi,
            hi <= 0x1_0000_0000_0000_0000u128,
            lo * lo <= n,
            n < hi * hi,
        decreases hi - lo,
    {
        let mid: u128 = lo + (hi - lo) / 2;
        assert(lo < mid < hi);
        assert(mid * mid <= u128::MAX) by (nonlinear_arith)
            requires
                mid < 0x1_0000_0000_0000_0000u128,
        {
        }
        if mid * mid <= n {
            lo = mid;
        } else {
            hi = mid;
        }
    }
    proof {
        lemma_int_sqrt_unique(n as int, lo as int);
    }
    lo
}

/// Fixed-point square root of a nonnegative scalar.
pub fn sqrt_fx(x: i64) -> (r: i64)
    requires
        0 <= x,
        fx_wf(x as int),
    ensures
        r as int == fx_sqrt(x as int),
        0 <= r,
        fx_wf(r as int),
{
    let n: u128 = (x as u128) * (SCALE as u128);
    let r: u128 = isqrt_wide(n);
    assert(r < 0x100_0000_0000u128) by (nonlinear_arith)
        requires
            r * r <= n,
            n < 0x10000_0000_0000_0000_0000u128,
    {
    }
    r as i64
}

} // verus!
