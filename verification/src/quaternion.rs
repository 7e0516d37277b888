//! Quaternions, used to rotate query points in the distance-field algebra.

use vstd::prelude::*;

verus! {

use crate::fixed::{Fx, int_v, div_v, mul_v, sub_v};
use crate::trig::{sin_v, cos_v};
use crate::vec3::{V3, Vec3, UnitVec3, Point3, add_vv, neg_vv, scale_vv, cross_v, dot_v};

/// Mathematical view of a quaternion: scalar part and vector part.
pub struct QuatV {
    pub a: int,
    pub v: V3,
}

/// The rotation quaternion for `angle` radians about `axis`:
/// `(cos(angle/2), axis * sin(angle/2))`.
pub open spec fn for_rotation_v(angle: int, axis: V3) -> QuatV {
    let half = div_v(angle, int_v(2));
    QuatV { a: cos_v(half), v: scale_vv(axis, sin_v(half)) }
}

pub open spec fn conjugate_v(q: QuatV) -> QuatV {
    QuatV { a: q.a, v: neg_vv(q.v) }
}

/// The Hamilton product:
/// `(a1 a2 - v1 . v2, v2 a1 + v1 a2 + v1 x v2)`.
pub open spec fn quat_mul_v(p: QuatV, q: QuatV) -> QuatV {
    QuatV {
        a: sub_v(mul_v(p.a, q.a), dot_v(p.v, q.v)),
        v: add_vv(add_vv(scale_vv(q.v, p.a), scale_vv(p.v, q.a)), cross_v(p.v, q.v)),
    }
}

/// Rotation of the point `p` by the quaternion sandwich `q * (0, p) * conj(q)`.
pub open spec fn rotate_point_v(q: QuatV, p: V3) -> V3 {
    quat_mul_v(quat_mul_v(q, QuatV { a: 0, v: p }), conjugate_v(q)).v
}

#[derive(Clone, Copy, Debug, PartialEq, Eq, Structural)]
pub struct Quaternion {
    pub a: Fx,
    pub v: Vec3,
}

impl View for Quaternion {
    type V = QuatV;

    open spec fn view(&self) -> QuatV {
        QuatV { a: self.a.val(), v: self.v@ }
    }
}

impl Quaternion {
    /// The rotation quaternion for `angle` radians about `axis`.
    pub fn for_rotation(angle: Fx, axis: UnitVec3) -> (q: Quaternion)
        ensures
            q@ == for_rotation_v(angle.val(), axis@),
    {
        let half = angle.div(Fx::from_int(2));
        Quaternion { a: crate::trig::cos(half), v: axis.as_vec().scale(crate::trig::sin(half)) }
    }

    pub fn new(a: Fx, v: Vec3) -> (q: Quaternion)
        ensures
            q@ == (QuatV { a: a.val(), v: v@ }),
    {
        Quaternion { a, v }
    }

    pub fn conjugate(&self) -> (q: Quaternion)
        ensures
            q@ == conjugate_v(self@),
    {
        Quaternion { a: self.a, v: self.v.neg() }
    }

    pub fn vec(&self) -> (v: Vec3)
        ensures
            v@ == self@.v,
    {
        self.v
    }

    /// The Hamilton product.
    pub fn mul(self, rhs: Quaternion) -> (q: Quaternion)
        ensures
            q@ == quat_mul_v(self@, rhs@),
    {
        Quaternion {
            a: self.a.mul(rhs.a).sub(self.v.dot(rhs.v)),
            v: rhs.v.scale(self.a).add(self.v.scale(rhs.a)).add(self.v.cross(rhs.v)),
        }
    }

    /// Rotate the point `p` by this quaternion's sandwich product.
    pub fn rotate_point(&self, p: Point3) -> (r: Point3)
        ensures
            r@ == rotate_point_v(self@, p@),
    {
        let qv = Quaternion::new(Fx::zero(), p.as_vec());
        Point3(self.mul(qv).mul(self.conjugate()).vec())
    }
}

} // verus!
