//! Fixed-point trigonometry for the camera's field of view and for rotations.
//!
//! `sin`, `cos` and `tan` evaluate degree-nine (respectively degree-eight)
//! polynomial approximations after folding the argument into `[-pi, pi]`;
//! arguments beyond a full turn in either direction are first clamped to
//! `[-2 pi, 2 pi]`. Each function's contract pins the result to the spec
//! mirror of exactly that evaluation, so callers reason about the rounded
//! polynomial value, not about an idealized real sine.

use vstd::prelude::*;

verus! {

use crate::fixed::{Fx, add_v, sub_v, neg_v, mul_v, div_v, int_v, ratio_v};

/// `pi` in raw fixed-point units.
pub const PI_RAW: i64 = 3454217652358;

/// `2 pi` in raw fixed-point units.
pub const TWO_PI_RAW: i64 = 6908435304715;

/// `pi / 2` in raw fixed-point units.
pub const HALF_PI_RAW: i64 = 1727108826179;

/// Clamp an angle into `[-2 pi, 2 pi]`.
pub open spec fn clamp_turn_v(x: int) -> int {
    if x > TWO_PI_RAW as int {
        TWO_PI_RAW as int
    } else if x < -(TWO_PI_RAW as int) {
        -(TWO_PI_RAW as int)
    } else {
        x
    }
}

/// Fold a clamped angle into `[-pi, pi]` by one full-turn shift.
pub open spec fn fold_pi_v(x: int) -> int {
    if x > PI_RAW as int {
        sub_v(x, TWO_PI_RAW as int)
    } else if x < -(PI_RAW as int) {
        add_v(x, TWO_PI_RAW as int)
    } else {
        x
    }
}

/// The sine polynomial on `[0, pi / 2]`:
/// `x (1 - x^2/6 (1 - x^2/20 (1 - x^2/42 (1 - x^2/72))))`.
pub open spec fn sin_poly_v(x: int) -> int {
    let x2 = mul_v(x, x);
    let t4 = sub_v(int_v(1), mul_v(x2, ratio_v(1, 72)));
    let t3 = sub_v(int_v(1), mul_v(mul_v(x2, ratio_v(1, 42)), t4));
    let t2 = sub_v(int_v(1), mul_v(mul_v(x2, ratio_v(1, 20)), t3));
    let t1 = sub_v(int_v(1), mul_v(mul_v(x2, ratio_v(1, 6)), t2));
    mul_v(x, t1)
}

/// The cosine polynomial on `[0, pi / 2]`:
/// `1 - x^2/2 (1 - x^2/12 (1 - x^2/30 (1 - x^2/56)))`.
pub open spec fn cos_poly_v(x: int) -> int {
    let x2 = mul_v(x, x);
    let u4 = sub_v(int_v(1), mul_v(x2, ratio_v(1, 56)));
    let u3 = sub_v(int_v(1), mul_v(mul_v(x2, ratio_v(1, 30)), u4));
    let u2 = sub_v(int_v(1), mul_v(mul_v(x2, ratio_v(1, 12)), u3));
    sub_v(int_v(1), mul_v(mul_v(x2, ratio_v(1, 2)), u2))
}

/// Sine on `[0, pi]`, mirrored about `pi / 2`.
pub open spec fn sin_half_v(w: int) -> int {
    if w > HALF_PI_RAW as int {
        sin_poly_v(sub_v(PI_RAW as int, w))
    } else {
        sin_poly_v(w)
    }
}

/// The fixed-point sine of an angle in radians.
pub open spec fn sin_v(x: int) -> int {
    let w = fold_pi_v(clamp_turn_v(x));
    if w < 0 {
        neg_v(sin_half_v(-w))
    } else {
        sin_half_v(w)
    }
}

/// The fixed-point cosine of an angle in radians.
pub open spec fn cos_v(x: int) -> int {
    let w = fold_pi_v(clamp_turn_v(x));
    let a = if w < 0 {
        -w
    } else {
        w
    };
    if a > HALF_PI_RAW as int {
        neg_v(cos_poly_v(sub_v(PI_RAW as int, a)))
    } else {
        cos_poly_v(a)
    }
}

/// The fixed-point tangent: `sin / cos`, with the division saturating where
/// the cosine rounds to zero.
pub open spec fn tan_v(x: int) -> int {
    div_v(sin_v(x), cos_v(x))
}

/// Degrees to radians: `d * pi / 180`.
pub open spec fn rad_v(d: int) -> int {
    div_v(mul_v(d, PI_RAW as int), int_v(180))
}

/// Clamp an angle into `[-2 pi, 2 pi]` and fold it into `[-pi, pi]`.
fn fold_angle(x: Fx) -> (w: Fx)
    ensures
        w.val() == fold_pi_v(clamp_turn_v(x.val())),
{
    let two_pi = Fx::from_raw(TWO_PI_RAW);
    let pi = Fx::from_raw(PI_RAW);
    let c = if two_pi.lt(x) {
        two_pi
    } else if x.lt(two_pi.neg()) {
        two_pi.neg()
    } else {
        x
    };
    if pi.lt(c) {
        c.sub(two_pi)
    } else if c.lt(pi.neg()) {
        c.add(two_pi)
    } else {
        c
    }
}

/// The sine polynomial on `[0, pi / 2]`.
fn sin_poly(x: Fx) -> (r: Fx)
    ensures
        r.val() == sin_poly_v(x.val()),
{
    let x2 = x.mul(x);
    let t4 = Fx::one().sub(x2.mul(Fx::from_ratio(1, 72)));
    let t3 = Fx::one().sub(x2.mul(Fx::from_ratio(1, 42)).mul(t4));
    let t2 = Fx::one().sub(x2.mul(Fx::from_ratio(1, 20)).mul(t3));
    let t1 = Fx::one().sub(x2.mul(Fx::from_ratio(1, 6)).mul(t2));
    x.mul(t1)
}

/// The cosine polynomial on `[0, pi / 2]`.
fn cos_poly(x: Fx) -> (r: Fx)
    ensures
        r.val() == cos_poly_v(x.val()),
{
    let x2 = x.mul(x);
    let u4 = Fx::one().sub(x2.mul(Fx::from_ratio(1, 56)));
    let u3 = Fx::one().sub(x2.mul(Fx::from_ratio(1, 30)).mul(u4));
    let u2 = Fx::one().sub(x2.mul(Fx::from_ratio(1, 12)).mul(u3));
    Fx::one().sub(x2.mul(Fx::from_ratio(1, 2)).mul(u2))
}

/// The fixed-point sine of an angle in radians.
pub fn sin(x: Fx) -> (r: Fx)
    ensures
        r.val() == sin_v(x.val()),
{
    let w = fold_angle(x);
    let half_pi = Fx::from_raw(HALF_PI_RAW);
    let pi = Fx::from_raw(PI_RAW);
    if w.lt(Fx::zero()) {
        let a = w.neg();
        if half_pi.lt(a) {
            sin_poly(pi.sub(a)).neg()
        } else {
            sin_poly(a).neg()
        }
    } else {
        if half_pi.lt(w) {
            sin_poly(pi.sub(w))
        } else {
            sin_poly(w)
        }
    }
}

/// The fixed-point cosine of an angle in radians.
pub fn cos(x: Fx) -> (r: Fx)
    ensures
        r.val() == cos_v(x.val()),
{
    let w = fold_angle(x);
    let a = w.abs();
    let half_pi = Fx::from_raw(HALF_PI_RAW);
    let pi = Fx::from_raw(PI_RAW);
    if half_pi.lt(a) {
        cos_poly(pi.sub(a)).neg()
    } else {
        cos_poly(a)
    }
}

/// The fixed-point tangent of an angle in radians.
pub fn tan(x: Fx) -> (r: Fx)
    ensures
        r.val() == tan_v(x.val()),
{
    sin(x).div(cos(x))
}

/// Degrees to radians.
pub fn to_radians(d: Fx) -> (r: Fx)
    ensures
        r.val() == rad_v(d.val()),
{
    d.mul(Fx::from_raw(PI_RAW)).div(Fx::from_int(180))
}

} // verus!
