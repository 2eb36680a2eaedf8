//! Interpolation between two envelope values with an adjustable curve bias.
//!
//! The position `t` inside a segment is bent by an exponent derived from the
//! curve bias (`t ^ exp`) before the two values are blended linearly. A
//! fractional power is not integer arithmetic: where it is needed, the
//! caller supplies it and the rest is done here.

use vstd::prelude::*;
use crate::UNIT;

verus! {

/// The exponent applied to the position, as the fraction `num / den`.
#[derive(Clone, Copy, Debug, PartialEq, Eq, Structural)]
pub struct Exponent {
    pub num: u32,
    pub den: u32,
}

/// A curve bias lies in `[-UNIT, UNIT]` (that is, `[-1, 1]`).
pub open spec fn curve_valid(curve: int) -> bool {
    -(UNIT as int) <= curve <= UNIT as int
}

/// The exponent for a curve bias `c` (scaled by `UNIT`):
/// `0` at `c == -1`, `1 - c` for `c > 0`, and `1 / (1 - |c|)` otherwise.
pub open spec fn exponent_of(curve: int) -> (int, int) {
    if curve == -(UNIT as int) {
        (0, 1)
    } else if curve > 0 {
        (UNIT as int - curve, UNIT as int)
    } else {
        (UNIT as int, UNIT as int + curve)
    }
}

/// Computes the exponent that a curve bias applies to the segment position.
pub fn curve_exponent(curve: i32) -> (r: Exponent)
    requires
        curve_valid(curve as int),
    ensures
        (r.num as int, r.den as int) == exponent_of(curve as int),
        r.den > 0,
{
    let unit = UNIT as i32;
    if curve == -unit {
        Exponent { num: 0, den: 1 }
    } else if curve > 0 {
        Exponent { num: (unit - curve) as u32, den: UNIT }
    } else {
        Exponent { num: UNIT, den: (unit + curve) as u32 }
    }
}

/// The bent position wherever it follows without a fractional power: the
/// ends of the segment stay put, a bias of `-1` holds the start until the
/// very end (a step), a bias of `1` leaves the start at once, and a bias of
/// `0` is linear.
pub open spec fn exact_shape(t: int, curve: int) -> Option<int> {
    if t == 0 {
        Some(0)
    } else if t == UNIT as int {
        Some(UNIT as int)
    } else if curve == -(UNIT as int) {
        Some(0)
    } else if curve == UNIT as int {
        Some(UNIT as int)
    } else if curve == 0 {
        Some(t)
    } else {
        None
    }
}

/// Linear blend of `a` and `b` at position `t` (scaled by `UNIT`), rounded
/// down: `(a * (1 - t) + b * t)`.
pub open spec fn lerp_spec(a: int, b: int, t: int) -> int {
    (a * (UNIT as int - t) + b * t) / (UNIT as int)
}

/// The interpolated value, where `powered` is `t ^ exp` as the caller
/// computed it; it is used only where `exact_shape` leaves the position open.
pub open spec fn interpolate_spec(a: int, b: int, t: int, curve: int, powered: int) -> int {
    let shaped = match exact_shape(t, curve) {
        Some(s) => s,
        None => powered,
    };
    lerp_spec(a, b, shaped)
}

/// Computes `exact_shape`.
pub fn shape_position(t: u32, curve: i32) -> (r: Option<u32>)
    requires
        t <= UNIT,
        curve_valid(curve as int),
    ensures
        r matches Some(s) ==> exact_shape(t as int, curve as int) == Some(s as int),
        r is None ==> exact_shape(t as int, curve as int) is None,
{
    let unit = UNIT as i32;
    if t == 0 {
        Some(0)
    } else if t == UNIT {
        Some(UNIT)
    } else if curve == -unit {
        Some(0)
    } else if curve == unit {
        Some(UNIT)
    } else if curve == 0 {
        Some(t)
    } else {
        None
    }
}

/// Blends `a` and `b` linearly at position `t`.
pub fn lerp(a: u32, b: u32, t: u32) -> (r: u32)
    requires
        t <= UNIT,
    ensures
        r as int == lerp_spec(a as int, b as int, t as int),
        r <= a || r <= b,
        a <= b ==> a <= r <= b,
        b <= a ==> b <= r <= a,
{
    let u = UNIT as u64;
    proof {
        let m: int = if a <= b { b as int } else { a as int };
        let l: int = if a <= b { a as int } else { b as int };
        assert(l * (u - t) + l * t <= a * (u - t) + b * t <= m * (u - t) + m * t) by (nonlinear_arith)
            requires l <= a <= m, l <= b <= m, 0 <= t <= u;
        assert(l * (u - t) + l * t == l * u) by (nonlinear_arith);
        assert(m * (u - t) + m * t == m * u) by (nonlinear_arith);
        assert(a * (u - t) + b * t <= 4294967295 * (u as int)) by (nonlinear_arith)
            requires a * (u - t) + b * t <= m * u, m <= 4294967295, u > 0;
        vstd::arithmetic::div_mod::lemma_div_is_ordered(l * u, a * (u - t) + b * t, u as int);
        vstd::arithmetic::div_mod::lemma_div_is_ordered(a * (u - t) + b * t, m * u, u as int);
        vstd::arithmetic::div_mod::lemma_div_multiples_vanish(l, u as int);
        vstd::arithmetic::div_mod::lemma_div_multiples_vanish(m, u as int);
        assert(l * u == u * l && m * u == u * m) by (nonlinear_arith);
    }
    let sum: u64 = a as u64 * (u - t as u64) + b as u64 * t as u64;
    (sum / u) as u32
}

/// Interpolates from `a` to `b` at position `t` with curve bias `curve`.
/// `powered` is `t ^ exp` (see `curve_exponent`), scaled by `UNIT`; it is read
/// only where the bent position needs a fractional power.
pub fn interpolate(a: u32, b: u32, t: u32, curve: i32, powered: u32) -> (r: u32)
    requires
        t <= UNIT,
        curve_valid(curve as int),
        powered <= UNIT,
    ensures
        r as int == interpolate_spec(a as int, b as int, t as int, curve as int, powered as int),
        a <= b ==> a <= r <= b,
        b <= a ==> b <= r <= a,
{
    let shaped = match shape_position(t, curve) {
        Some(s) => s,
        None => powered,
    };
    lerp(a, b, shaped)
}

/// At the start of a segment the value is the start value, and at its end the
/// end value, whatever the curve bias.
pub proof fn interpolate_hits_both_ends(a: int, b: int, curve: int, powered: int)
    requires
        curve_valid(curve),
    ensures
        interpolate_spec(a, b, 0, curve, powered) == a,
        interpolate_spec(a, b, UNIT as int, curve, powered) == b,
{
    let u = UNIT as int;
    assert(a * (u - 0) + b * 0 == a * u) by (nonlinear_arith);
    assert(a * (u - u) + b * u == b * u) by (nonlinear_arith);
    assert((a * u) / u == a) by (nonlinear_arith) requires u > 0;
    assert((b * u) / u == b) by (nonlinear_arith) requires u > 0;
}

/// A curve bias of `-1` is a step: the start value everywhere before the end
/// of the segment, the end value exactly at its end.
pub proof fn full_negative_bias_is_a_step(a: int, b: int, t: int, powered: int)
    requires
        0 <= t <= UNIT as int,
    ensures
        interpolate_spec(a, b, t, -(UNIT as int), powered) == if t == UNIT as int { b } else { a },
{
    interpolate_hits_both_ends(a, b, -(UNIT as int), powered);
}

/// A curve bias of `0` blends linearly: the position is not bent.
pub proof fn zero_bias_is_linear(a: int, b: int, t: int, powered: int)
    requires
        0 <= t <= UNIT as int,
    ensures
        interpolate_spec(a, b, t, 0, powered) == lerp_spec(a, b, t),
{
}

} // verus!
