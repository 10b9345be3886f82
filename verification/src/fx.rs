//! 16.16 fixed-point arithmetic.
//!
//! Every coordinate, attribute and depth in the pipeline is an `i64` holding
//! a real value scaled by [`FX_ONE`].  Multiplication and division rescale
//! with round-to-nearest (ties away from zero), which keeps the end-to-end
//! pixel results on the grid a float pipeline would land on.

use vstd::prelude::*;

verus! {

/// The fixed-point scale: the representation of the real number 1.
pub const FX_ONE: i64 = 65536;

/// Largest magnitude accepted by [`rdiv_i128`]'s intermediate arithmetic.
pub const RDIV_LIMIT: i128 = 0x1000000000000000000000000000000;

/// Bound on every vertex attribute, screen coordinate and color component:
/// 4096.0 in 16.16 fixed point.
pub const FX_VAL_MAX: i64 = 0x10000000;

/// Bound on reciprocal-w values and perspective-correction factors: the
/// largest magnitude `FX_ONE / w` can reach for a nonzero `w`.
pub const FX_REC_MAX: i64 = 0x100000000;

/// Magnitude of an integer.
pub open spec fn fx_abs(a: int) -> int {
    if a < 0 {
        -a
    } else {
        a
    }
}

/// Division rounded to the nearest integer, ties away from zero.
/// Unspecified when `b == 0`.
pub open spec fn spec_rdiv(a: int, b: int) -> int {
    let m = (2 * fx_abs(a) + fx_abs(b)) / (2 * fx_abs(b));
    if (a < 0) == (b < 0) {
        m
    } else {
        -m
    }
}

/// Fixed-point product: `a * b` rescaled back to 16.16.
pub open spec fn spec_fx_mul(a: int, b: int) -> int {
    spec_rdiv(a * b, FX_ONE as int)
}

/// Fixed-point quotient: `a / b` kept in 16.16.
pub open spec fn spec_fx_div(a: int, b: int) -> int {
    spec_rdiv(a * (FX_ONE as int), b)
}

/// The magnitude of a rounded quotient is bounded by any `k` with
/// `|a| <= k * |b|`.
pub proof fn lemma_rdiv_quot_bound(a: int, b: int, k: int)
    requires
        b != 0,
        0 <= k,
        fx_abs(a) <= k * fx_abs(b),
    ensures
        0 <= fx_abs(spec_rdiv(a, b)) <= k,
{
    let am = fx_abs(a);
    let bm = fx_abs(b);
    assert(2 * am + bm < (2 * bm) * (k + 1)) by (nonlinear_arith)
        requires
            0 <= am,
            1 <= bm,
            0 <= k,
            am <= k * bm,
    ;
    vstd::arithmetic::div_mod::lemma_multiply_divide_lt(2 * am + bm, 2 * bm, k + 1);
    vstd::arithmetic::div_mod::lemma_div_pos_is_pos(2 * am + bm, 2 * bm);
}

/// Dividing an exact multiple reproduces the factor: `rdiv(a * b, b) == a`.
pub proof fn lemma_rdiv_mul_cancel(a: int, b: int)
    requires
        b > 0,
    ensures
        spec_rdiv(a * b, b) == a,
{
    let am = fx_abs(a);
    assert(fx_abs(a * b) == am * b) by (nonlinear_arith)
        requires
            b > 0,
            am == fx_abs(a),
    ;
    assert((a * b < 0) == (a < 0)) by (nonlinear_arith)
        requires
            b > 0,
    ;
    assert(2 * (am * b) + b == am * (2 * b) + b) by (nonlinear_arith);
    vstd::arithmetic::div_mod::lemma_fundamental_div_mod_converse(
        2 * (am * b) + b,
        2 * b,
        am,
        b,
    );
}

/// A quotient whose operands do not have opposite signs is nonnegative.
pub proof fn lemma_rdiv_nonneg(a: int, b: int)
    requires
        b != 0,
        a * b >= 0,
    ensures
        spec_rdiv(a, b) >= 0,
{
    vstd::arithmetic::div_mod::lemma_div_pos_is_pos(2 * fx_abs(a) + fx_abs(b), 2 * fx_abs(b));
    if a == 0 {
        vstd::arithmetic::div_mod::lemma_basic_div(fx_abs(b), 2 * fx_abs(b));
    } else {
        assert((a < 0) == (b < 0)) by (nonlinear_arith)
            requires
                a != 0,
                b != 0,
                a * b >= 0,
        ;
    }
}

/// `|x * y| <= mx * my` whenever `|x| <= mx` and `|y| <= my`.
pub proof fn lemma_mag_mul_bound(x: int, y: int, mx: int, my: int)
    requires
        fx_abs(x) <= mx,
        fx_abs(y) <= my,
    ensures
        fx_abs(x * y) <= mx * my,
{
    assert(fx_abs(x * y) <= mx * my) by (nonlinear_arith)
        requires
            fx_abs(x) <= mx,
            fx_abs(y) <= my,
    ;
}

/// Rounded division on wide integers; the workhorse behind every fixed-point
/// multiply and divide.
pub fn rdiv_i128(a: i128, b: i128) -> (r: i128)
    requires
        b != 0,
        fx_abs(a as int) < RDIV_LIMIT as int,
        fx_abs(b as int) < RDIV_LIMIT as int,
    ensures
        r as int == spec_rdiv(a as int, b as int),
        fx_abs(r as int) <= fx_abs(a as int),
{
    proof {
        assert(fx_abs(a as int) <= fx_abs(a as int) * fx_abs(b as int)) by (nonlinear_arith)
            requires
                fx_abs(b as int) >= 1,
                fx_abs(a as int) >= 0,
        ;
        lemma_rdiv_quot_bound(a as int, b as int, fx_abs(a as int));
    }
    let neg: bool = (a < 0) != (b < 0);
    let am: u128 = if a < 0 {
        (-a) as u128
    } else {
        a as u128
    };
    let bm: u128 = if b < 0 {
        (-b) as u128
    } else {
        b as u128
    };
    let m: u128 = (2 * am + bm) / (2 * bm);
    if neg {
        -(m as i128)
    } else {
        m as i128
    }
}

/// Full-width product of two 64-bit values.
pub fn wide_mul(a: i64, b: i64) -> (r: i128)
    ensures
        r as int == (a as int) * (b as int),
{
    proof {
        lemma_mag_mul_bound(a as int, b as int, 0x8000000000000000, 0x8000000000000000);
    }
    (a as i128) * (b as i128)
}

/// Fixed-point multiply with round-to-nearest rescaling.
pub fn fx_mul(a: i64, b: i64) -> (r: i64)
    requires
        fx_abs((a as int) * (b as int)) <= 0x40000000000000000000,
    ensures
        r as int == spec_fx_mul(a as int, b as int),
{
    let p: i128 = (a as i128) * (b as i128);
    proof {
        lemma_rdiv_quot_bound(p as int, FX_ONE as int, 0x4000000000000000);
    }
    let r: i128 = rdiv_i128(p, FX_ONE as i128);
    r as i64
}

/// Fixed-point divide with round-to-nearest rescaling.
///
/// The magnitude precondition keeps the result inside `i64` even for the
/// smallest divisor magnitude of one.
pub fn fx_div(a: i64, b: i64) -> (r: i64)
    requires
        b != 0,
        fx_abs(a as int) <= 0x400000000000,
    ensures
        r as int == spec_fx_div(a as int, b as int),
        fx_abs(r as int) <= fx_abs(a as int) * 65536,
{
    let p: i128 = (a as i128) * (FX_ONE as i128);
    proof {
        assert(p as int == (a as int) * 65536);
        assert(fx_abs(p as int) <= 0x4000000000000000);
    }
    let r: i128 = rdiv_i128(p, b as i128);
    r as i64
}

/// Euclidean remainder by a positive modulus; the result is in `[0, m)`.
pub fn emod_i64(a: i64, m: i64) -> (r: i64)
    requires
        m > 0,
        a > i64::MIN,
    ensures
        r as int == (a as int) % (m as int),
        0 <= r < m,
{
    if a >= 0 {
        let r: u64 = (a as u64) % (m as u64);
        r as i64
    } else {
        let na: u64 = (-a) as u64;
        let r0: u64 = na % (m as u64);
        if r0 == 0 {
            proof {
                let q0: int = (na as int) / (m as int);
                vstd::arithmetic::div_mod::lemma_fundamental_div_mod(na as int, m as int);
                assert(a as int == (-q0) * (m as int) + 0) by (nonlinear_arith)
                    requires
                        na as int == (m as int) * q0,
                        a as int == -(na as int),
                ;
                vstd::arithmetic::div_mod::lemma_fundamental_div_mod_converse(
                    a as int,
                    m as int,
                    -q0,
                    0,
                );
            }
            0
        } else {
            proof {
                let q0: int = (na as int) / (m as int);
                vstd::arithmetic::div_mod::lemma_fundamental_div_mod(na as int, m as int);
                assert(a as int == (-q0 - 1) * (m as int) + ((m as int) - (r0 as int)))
                    by (nonlinear_arith)
                    requires
                        na as int == (m as int) * q0 + (r0 as int),
                        a as int == -(na as int),
                ;
                vstd::arithmetic::div_mod::lemma_fundamental_div_mod_converse(
                    a as int,
                    m as int,
                    -q0 - 1,
                    (m as int) - (r0 as int),
                );
            }
            m - (r0 as i64)
        }
    }
}

/// Floor (Euclidean) division by a positive divisor, any sign of
/// dividend.
pub fn ediv_i64(a: i64, m: i64) -> (r: i64)
    requires
        0 < m <= 0x1000000000000,
        fx_abs(a as int) <= 0x1000000000000,
    ensures
        r as int == (a as int) / (m as int),
{
    let rm: i64 = emod_i64(a, m);
    proof {
        vstd::arithmetic::div_mod::lemma_fundamental_div_mod(a as int, m as int);
        assert((rm as int) - (a as int) == (m as int) * (-((a as int) / (m as int))))
            by (nonlinear_arith)
            requires
                a as int == (m as int) * ((a as int) / (m as int)) + rm as int,
        ;
    }
    if a >= rm {
        proof {
            vstd::arithmetic::div_mod::lemma_div_multiples_vanish(
                (a as int) / (m as int),
                m as int,
            );
        }
        ediv_nonneg(a - rm, m)
    } else {
        proof {
            vstd::arithmetic::div_mod::lemma_div_multiples_vanish(
                -((a as int) / (m as int)),
                m as int,
            );
        }
        let q: i64 = ediv_nonneg(rm - a, m);
        -q
    }
}

/// Floor division of a nonnegative value by a positive divisor.
pub fn ediv_nonneg(a: i64, m: i64) -> (r: i64)
    requires
        a >= 0,
        m > 0,
    ensures
        r as int == (a as int) / (m as int),
        0 <= r <= a,
{
    proof {
        vstd::arithmetic::div_mod::lemma_div_nonincreasing(a as int, m as int);
        vstd::arithmetic::div_mod::lemma_div_pos_is_pos(a as int, m as int);
    }
    let r: u64 = (a as u64) / (m as u64);
    r as i64
}

/// Fixed-point multiply on wide intermediates, for the pixel programs whose
/// running values outgrow `i64` before the final byte conversion.
pub fn fx_mul_wide(a: i128, b: i128) -> (r: i128)
    requires
        fx_abs(a as int) <= 0x400000000000000000,
        fx_abs(b as int) <= 0x2000000000000,
    ensures
        r as int == spec_fx_mul(a as int, b as int),
{
    proof {
        lemma_mag_mul_bound(a as int, b as int, 0x400000000000000000, 0x2000000000000);
    }
    let p: i128 = a * b;
    rdiv_i128(p, FX_ONE as i128)
}

/// Linear interpolation `a + t * (b - a)` in 16.16 fixed point.
pub open spec fn spec_lerp(a: int, b: int, t: int) -> int {
    a + spec_fx_mul(t, b - a)
}

/// For `t` in `[0, 1]` the interpolant stays between its endpoints.
pub proof fn lemma_lerp_range(a: int, b: int, t: int)
    requires
        0 <= t <= FX_ONE as int,
    ensures
        a <= b ==> a <= spec_lerp(a, b, t) <= b,
        b <= a ==> b <= spec_lerp(a, b, t) <= a,
{
    let d = b - a;
    if d >= 0 {
        assert(0 <= t * d <= d * 65536) by (nonlinear_arith)
            requires
                0 <= t <= 65536,
                d >= 0,
        ;
        lemma_rdiv_quot_bound(t * d, 65536, d);
        assert((t * d) * 65536 >= 0);
        lemma_rdiv_nonneg(t * d, 65536);
    } else {
        assert(0 <= t * (-d) <= (-d) * 65536) by (nonlinear_arith)
            requires
                0 <= t <= 65536,
                d < 0,
        ;
        assert(fx_abs(t * d) == t * (-d)) by (nonlinear_arith)
            requires
                0 <= t,
                d < 0,
        ;
        assert(t * d <= 0) by (nonlinear_arith)
            requires
                0 <= t,
                d < 0,
        ;
        lemma_rdiv_quot_bound(t * d, 65536, -d);
        if t * d == 0 {
            vstd::arithmetic::div_mod::lemma_basic_div(65536int, 131072int);
            assert(spec_rdiv(t * d, 65536) == 0);
        } else {
            vstd::arithmetic::div_mod::lemma_div_pos_is_pos(
                2 * fx_abs(t * d) + 65536,
                131072int,
            );
            assert(spec_rdiv(t * d, 65536) <= 0);
        }
    }
}

/// Exec counterpart of [`spec_lerp`], for attribute-sized operands.
pub fn lerp_fx(a: i64, b: i64, t: i64) -> (r: i64)
    requires
        0 <= t <= FX_ONE,
        fx_abs(a as int) <= FX_VAL_MAX as int,
        fx_abs(b as int) <= FX_VAL_MAX as int,
    ensures
        r as int == spec_lerp(a as int, b as int, t as int),
        fx_abs(r as int) <= FX_VAL_MAX as int,
{
    proof {
        lemma_mag_mul_bound(t as int, (b - a) as int, FX_ONE as int, 2 * FX_VAL_MAX as int);
        lemma_lerp_range(a as int, b as int, t as int);
    }
    let m: i64 = fx_mul(t, b - a);
    a + m
}

/// Truncate a fixed-point value to a color byte, saturating to `[0, 255]`.
pub open spec fn spec_fx_to_byte(v: int) -> int {
    if v < 0 {
        0
    } else if v / (FX_ONE as int) > 255 {
        255
    } else {
        v / (FX_ONE as int)
    }
}

/// Exec counterpart of [`spec_fx_to_byte`].
pub fn fx_to_byte(v: i64) -> (r: u8)
    ensures
        r as int == spec_fx_to_byte(v as int),
{
    if v < 0 {
        0
    } else {
        let q: i64 = ediv_nonneg(v, FX_ONE);
        if q > 255 {
            255
        } else {
            q as u8
        }
    }
}

/// Saturate a fixed-point value into the pipeline's attribute range.
pub open spec fn spec_clamp_val(v: int) -> int {
    if v < -(FX_VAL_MAX as int) {
        -(FX_VAL_MAX as int)
    } else if v > FX_VAL_MAX as int {
        FX_VAL_MAX as int
    } else {
        v
    }
}

/// Exec counterpart of [`spec_clamp_val`].
pub fn clamp_val(v: i64) -> (r: i64)
    ensures
        r as int == spec_clamp_val(v as int),
        fx_abs(r as int) <= FX_VAL_MAX as int,
{
    if v < -FX_VAL_MAX {
        -FX_VAL_MAX
    } else if v > FX_VAL_MAX {
        FX_VAL_MAX
    } else {
        v
    }
}

/// The smaller of two values.
pub fn min_i64(a: i64, b: i64) -> (r: i64)
    ensures
        r == if a <= b { a } else { b },
{
    if a <= b {
        a
    } else {
        b
    }
}

/// The larger of two values.
pub fn max_i64(a: i64, b: i64) -> (r: i64)
    ensures
        r == if a >= b { a } else { b },
{
    if a >= b {
        a
    } else {
        b
    }
}

/// A fixed-point color channel in `[0, 1]` scaled by 255 and truncated to a
/// byte, saturating outside that range.
pub open spec fn spec_fx255_byte(v: int) -> int {
    spec_fx_to_byte(v * 255)
}

/// Exec counterpart of [`spec_fx255_byte`], on wide pixel intermediates.
pub fn fx255_byte(v: i128) -> (r: u8)
    ensures
        r as int == spec_fx255_byte(v as int),
{
    if v < 0 {
        0
    } else if v >= FX_ONE as i128 {
        proof {
            vstd::arithmetic::div_mod::lemma_div_multiples_vanish(255, 65536);
            vstd::arithmetic::div_mod::lemma_div_is_ordered(
                255int * 65536,
                (v as int) * 255,
                65536,
            );
        }
        255
    } else {
        let q: u64 = ((v as u64) * 255) / (FX_ONE as u64);
        proof {
            vstd::arithmetic::div_mod::lemma_multiply_divide_lt((v as int) * 255, 65536, 255);
        }
        q as u8
    }
}

} // verus!
