//! Colors: an `(r, g, b)` triple over the fixed-point scalar, built on the
//! same vector algebra as positions. Channels range freely (they may exceed
//! one transiently) and are clamped only at the final 8-bit quantization.

use vstd::prelude::*;

verus! {

use crate::fixed::{Fx, mul_v};
use crate::vec3::{V3, Vec3, v3_zero, add_vv, scale_vv};

/// Componentwise product of two triples, each channel rounded onto the grid.
pub open spec fn cmul_vv(a: V3, b: V3) -> V3 {
    V3 { x: mul_v(a.x, b.x), y: mul_v(a.y, b.y), z: mul_v(a.z, b.z) }
}

/// An `(r, g, b)` color triple.
#[derive(Clone, Copy, Debug, PartialEq, Eq, Structural)]
pub struct Color(pub Vec3);

impl View for Color {
    type V = V3;

    open spec fn view(&self) -> V3 {
        self.0@
    }
}

impl Color {
    pub fn new(r: Fx, g: Fx, b: Fx) -> (c: Color)
        ensures
            c@ == (V3 { x: r.val(), y: g.val(), z: b.val() }),
    {
        Color(Vec3 { x: r, y: g, z: b })
    }

    pub fn black() -> (c: Color)
        ensures
            c@ == v3_zero(),
    {
        Color(Vec3::zero())
    }

    pub fn white() -> (c: Color)
        ensures
            c@ == (V3 {
                x: crate::fixed::SCALE as int,
                y: crate::fixed::SCALE as int,
                z: crate::fixed::SCALE as int,
            }),
    {
        Color(Vec3 { x: Fx::one(), y: Fx::one(), z: Fx::one() })
    }

    /// The loud diagnostic color substituted for unresolvable material tags.
    pub fn purple() -> (c: Color)
        ensures
            c@ == (V3 { x: crate::fixed::SCALE as int, y: 0, z: crate::fixed::SCALE as int }),
    {
        Color(Vec3 { x: Fx::one(), y: Fx::zero(), z: Fx::one() })
    }

    pub fn r(&self) -> (v: Fx)
        ensures
            v.val() == self@.x,
    {
        self.0.x
    }

    pub fn g(&self) -> (v: Fx)
        ensures
            v.val() == self@.y,
    {
        self.0.y
    }

    pub fn b(&self) -> (v: Fx)
        ensures
            v.val() == self@.z,
    {
        self.0.z
    }

    pub fn add(self, other: Color) -> (c: Color)
        ensures
            c@ == add_vv(self@, other@),
    {
        Color(self.0.add(other.0))
    }

    /// Componentwise product of two colors.
    pub fn mul(self, other: Color) -> (c: Color)
        ensures
            c@ == cmul_vv(self@, other@),
    {
        Color(Vec3 {
            x: self.0.x.mul(other.0.x),
            y: self.0.y.mul(other.0.y),
            z: self.0.z.mul(other.0.z),
        })
    }

    /// Every channel multiplied by the scalar `k`.
    pub fn scale(self, k: Fx) -> (c: Color)
        ensures
            c@ == scale_vv(self@, k.val()),
    {
        Color(self.0.scale(k))
    }
}

} // verus!
