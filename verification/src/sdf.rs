//! The distance-field algebra: a capability that maps a position to a signed
//! distance (negative inside a solid, zero on the boundary, positive outside)
//! together with an optional material tag.
//!
//! Primitive shapes, combinators (union, intersection, difference),
//! positioners (translate, uniform scale, rotate) and a material-tagging
//! wrapper all implement the `Sdf` trait; a scene's geometry is a tree of
//! these values evaluated by structural recursion. Every implementation pins
//! `value_at` to its two spec functions, so the sphere tracer's contract can
//! speak about the exact field it walks.

use vstd::prelude::*;

verus! {

use crate::fixed::{Fx, FX_MAX_RAW, abs_v, add_v, sub_v, neg_v, mul_v, min_v, max_v, ratio_v, SCALE};
use crate::material::MaterialIndex;
use crate::quaternion::{Quaternion, for_rotation_v, rotate_point_v};
use crate::trig::rad_v;
use crate::vec3::{
    V3, Vec3, UnitVec3, Point3, v3_zero, abs_vv, sub_vv, max_vv, maxcomp_v, dot_v, len_v,
    unit_vv, unscale_vv,
};

/// The offset used for central-difference normal estimation.
pub open spec fn normal_eps_v() -> int {
    ratio_v(1, 100000)
}

/// The normalized gradient assembled from six central-difference samples.
pub open spec fn normal_from_v(dxp: int, dxm: int, dyp: int, dym: int, dzp: int, dzm: int) -> V3 {
    unit_vv(V3 { x: sub_v(dxp, dxm), y: sub_v(dyp, dym), z: sub_v(dzp, dzm) })
}

/// A signed distance field with optional material tags.
pub trait Sdf: Sized {
    /// The signed distance this field reports at the point `p`.
    spec fn dist_at(self, p: V3) -> int;

    /// The material tag this field reports at the point `p`.
    spec fn mat_at(self, p: V3) -> Option<MaterialIndex>;

    /// Evaluate the field at a point: the signed distance to the nearest
    /// surface, and the material tag attached to the winning shape.
    fn value_at(&self, p: &Point3) -> (r: (Fx, Option<MaterialIndex>))
        ensures
            r.0.val() == self.dist_at(p@),
            r.1 == self.mat_at(p@),
    ;
}

/// Estimate the surface normal of the field `sdf` near `p` by a six-point
/// central difference; meaningful only where the distance is close to zero.
pub fn estimate_normal<S: Sdf>(sdf: &S, p: &Point3) -> (n: UnitVec3)
    ensures
        n@ == normal_v(*sdf, p@),
{
    let eps = Fx::from_ratio(1, 100000);
    let dx = sdf.value_at(&Point3(Vec3 { x: p.0.x.add(eps), y: p.0.y, z: p.0.z })).0.sub(
        sdf.value_at(&Point3(Vec3 { x: p.0.x.sub(eps), y: p.0.y, z: p.0.z })).0,
    );
    let dy = sdf.value_at(&Point3(Vec3 { x: p.0.x, y: p.0.y.add(eps), z: p.0.z })).0.sub(
        sdf.value_at(&Point3(Vec3 { x: p.0.x, y: p.0.y.sub(eps), z: p.0.z })).0,
    );
    let dz = sdf.value_at(&Point3(Vec3 { x: p.0.x, y: p.0.y, z: p.0.z.add(eps) })).0.sub(
        sdf.value_at(&Point3(Vec3 { x: p.0.x, y: p.0.y, z: p.0.z.sub(eps) })).0,
    );
    Vec3 { x: dx, y: dy, z: dz }.unit()
}

/// The normalized central-difference gradient of the field `s` at `p`: what
/// `estimate_normal` returns.
pub open spec fn normal_v<S: Sdf>(s: S, p: V3) -> V3 {
    normal_from_v(
        s.dist_at(V3 { x: add_v(p.x, normal_eps_v()), y: p.y, z: p.z }),
        s.dist_at(V3 { x: sub_v(p.x, normal_eps_v()), y: p.y, z: p.z }),
        s.dist_at(V3 { x: p.x, y: add_v(p.y, normal_eps_v()), z: p.z }),
        s.dist_at(V3 { x: p.x, y: sub_v(p.y, normal_eps_v()), z: p.z }),
        s.dist_at(V3 { x: p.x, y: p.y, z: add_v(p.z, normal_eps_v()) }),
        s.dist_at(V3 { x: p.x, y: p.y, z: sub_v(p.z, normal_eps_v()) }),
    )
}

/// The signed distance of the unit sphere at the origin: `|p| - 1`.
pub open spec fn unit_sphere_dist_v(p: V3) -> int {
    sub_v(len_v(p), SCALE as int)
}

/// The unit sphere centered at the origin.
#[derive(Clone, Copy, Debug, PartialEq, Eq, Structural)]
pub struct UnitSphere;

impl Sdf for UnitSphere {
    open spec fn dist_at(self, p: V3) -> int {
        unit_sphere_dist_v(p)
    }

    open spec fn mat_at(self, p: V3) -> Option<MaterialIndex> {
        None
    }

    fn value_at(&self, p: &Point3) -> (r: (Fx, Option<MaterialIndex>)) {
        (p.as_vec().length().sub(Fx::one()), None)
    }
}

/// The exterior/interior split distance of an axis-aligned box with
/// half-extents `h` centered at the origin, queried at offset `d0`:
/// `min(max_component(d), 0) + |max(d, 0)|` where `d = |d0| - (h, h, h)`.
pub open spec fn box_dist_v(d0: V3, h: int) -> int {
    let d = sub_vv(abs_vv(d0), V3 { x: h, y: h, z: h });
    add_v(min_v(maxcomp_v(d), 0), len_v(max_vv(d, v3_zero())))
}

/// The cube with side length two centered at the origin.
#[derive(Clone, Copy, Debug, PartialEq, Eq, Structural)]
pub struct UnitCube;

impl Sdf for UnitCube {
    open spec fn dist_at(self, p: V3) -> int {
        box_dist_v(p, SCALE as int)
    }

    open spec fn mat_at(self, p: V3) -> Option<MaterialIndex> {
        None
    }

    fn value_at(&self, p: &Point3) -> (r: (Fx, Option<MaterialIndex>)) {
        let one = Fx::one();
        let d = p.as_vec().abs().sub(Vec3 { x: one, y: one, z: one });
        let inside_distance = d.max_component().min(Fx::zero());
        let outside_distance = d.max(Vec3::zero()).length();
        (inside_distance.add(outside_distance), None)
    }
}

/// A sphere of arbitrary radius and center.
#[derive(Clone, Copy, Debug, PartialEq, Eq, Structural)]
pub struct Sphere {
    pub radius: Fx,
    pub center: Point3,
}

impl Sphere {
    pub fn new(radius: Fx, center: Point3) -> (s: Sphere)
        ensures
            s.radius == radius,
            s.center == center,
    {
        Sphere { radius, center }
    }
}

impl Default for Sphere {
    /// The unit sphere at the origin.
    fn default() -> (s: Sphere)
        ensures
            s.radius.val() == SCALE as int,
            s.center@ == v3_zero(),
    {
        Sphere::new(Fx::one(), Point3::origin())
    }
}

impl Sdf for Sphere {
    open spec fn dist_at(self, p: V3) -> int {
        sub_v(len_v(sub_vv(p, self.center@)), self.radius.val())
    }

    open spec fn mat_at(self, p: V3) -> Option<MaterialIndex> {
        None
    }

    fn value_at(&self, p: &Point3) -> (r: (Fx, Option<MaterialIndex>)) {
        (p.sub(self.center).length().sub(self.radius), None)
    }
}

/// An axis-aligned cube of arbitrary side length and center.
#[derive(Clone, Copy, Debug, PartialEq, Eq, Structural)]
pub struct Cube {
    pub half_side_length: Fx,
    pub center: Point3,
}

impl Cube {
    pub fn new(side_length: Fx, center: Point3) -> (c: Cube)
        ensures
            c.half_side_length.val() == crate::fixed::div_v(side_length.val(), crate::fixed::int_v(
                2,
            )),
            c.center == center,
    {
        Cube::new_half_side(side_length.div(Fx::from_int(2)), center)
    }

    pub fn new_half_side(half_side_length: Fx, center: Point3) -> (c: Cube)
        ensures
            c.half_side_length == half_side_length,
            c.center == center,
    {
        Cube { half_side_length, center }
    }
}

impl Default for Cube {
    /// The cube with side length two at the origin.
    fn default() -> (c: Cube)
        ensures
            c.half_side_length.val() == SCALE as int,
            c.center@ == v3_zero(),
    {
        Cube::new(Fx::from_int(2), Point3::origin())
    }
}

impl Sdf for Cube {
    open spec fn dist_at(self, p: V3) -> int {
        box_dist_v(sub_vv(p, self.center@), self.half_side_length.val())
    }

    open spec fn mat_at(self, p: V3) -> Option<MaterialIndex> {
        None
    }

    fn value_at(&self, p: &Point3) -> (r: (Fx, Option<MaterialIndex>)) {
        let h = self.half_side_length;
        let d = p.sub(self.center).abs().sub(Vec3 { x: h, y: h, z: h });
        let inside_distance = d.max_component().min(Fx::zero());
        let outside_distance = d.max(Vec3::zero()).length();
        (inside_distance.add(outside_distance), None)
    }
}

/// The half-space of negative `y`: the distance is the `y` coordinate itself.
#[derive(Clone, Copy, Debug, PartialEq, Eq, Structural)]
pub struct NegY;

impl Sdf for NegY {
    open spec fn dist_at(self, p: V3) -> int {
        p.y
    }

    open spec fn mat_at(self, p: V3) -> Option<MaterialIndex> {
        None
    }

    fn value_at(&self, p: &Point3) -> (r: (Fx, Option<MaterialIndex>)) {
        (p.0.y, None)
    }
}

/// The union of two fields: the closer surface wins, and its tag follows.
#[derive(Clone, Copy, Debug)]
pub struct Union<A, B> {
    pub a: A,
    pub b: B,
}

impl<A, B> Union<A, B> {
    pub fn new(a: A, b: B) -> (r: Union<A, B>)
        ensures
            r.a == a,
            r.b == b,
    {
        Union { a, b }
    }
}

impl<A: Sdf, B: Sdf> Sdf for Union<A, B> {
    /// The smaller of the two child distances.
    open spec fn dist_at(self, p: V3) -> int {
        if self.a.dist_at(p) < self.b.dist_at(p) {
            self.a.dist_at(p)
        } else {
            self.b.dist_at(p)
        }
    }

    /// The tag of the closer child.
    open spec fn mat_at(self, p: V3) -> Option<MaterialIndex> {
        if self.a.dist_at(p) < self.b.dist_at(p) {
            self.a.mat_at(p)
        } else {
            self.b.mat_at(p)
        }
    }

    fn value_at(&self, p: &Point3) -> (r: (Fx, Option<MaterialIndex>)) {
        let da = self.a.value_at(p);
        let db = self.b.value_at(p);
        if da.0.lt(db.0) {
            da
        } else {
            db
        }
    }
}

/// The intersection of two fields: the farther surface limits, and its tag
/// follows.
#[derive(Clone, Copy, Debug)]
pub struct Intersect<A, B> {
    pub a: A,
    pub b: B,
}

impl<A, B> Intersect<A, B> {
    pub fn new(a: A, b: B) -> (r: Intersect<A, B>)
        ensures
            r.a == a,
            r.b == b,
    {
        Intersect { a, b }
    }
}

impl<A: Sdf, B: Sdf> Sdf for Intersect<A, B> {
    /// The larger of the two child distances.
    open spec fn dist_at(self, p: V3) -> int {
        if self.a.dist_at(p) > self.b.dist_at(p) {
            self.a.dist_at(p)
        } else {
            self.b.dist_at(p)
        }
    }

    /// The tag of the limiting child.
    open spec fn mat_at(self, p: V3) -> Option<MaterialIndex> {
        if self.a.dist_at(p) > self.b.dist_at(p) {
            self.a.mat_at(p)
        } else {
            self.b.mat_at(p)
        }
    }

    fn value_at(&self, p: &Point3) -> (r: (Fx, Option<MaterialIndex>)) {
        let da = self.a.value_at(p);
        let db = self.b.value_at(p);
        if db.0.lt(da.0) {
            da
        } else {
            db
        }
    }
}

/// The difference of two fields: the solid of `b` carved out of `a`.
/// Compares `a`'s distance against the negation of `b`'s; the rejected
/// branch returns `(-b_distance, b_tag)`.
#[derive(Clone, Copy, Debug)]
pub struct Difference<A, B> {
    pub a: A,
    pub b: B,
}

impl<A, B> Difference<A, B> {
    pub fn new(a: A, b: B) -> (r: Difference<A, B>)
        ensures
            r.a == a,
            r.b == b,
    {
        Difference { a, b }
    }
}

impl<A: Sdf, B: Sdf> Sdf for Difference<A, B> {
    open spec fn dist_at(self, p: V3) -> int {
        if neg_v(self.b.dist_at(p)) < self.a.dist_at(p) {
            self.a.dist_at(p)
        } else {
            neg_v(self.b.dist_at(p))
        }
    }

    open spec fn mat_at(self, p: V3) -> Option<MaterialIndex> {
        if neg_v(self.b.dist_at(p)) < self.a.dist_at(p) {
            self.a.mat_at(p)
        } else {
            self.b.mat_at(p)
        }
    }

    fn value_at(&self, p: &Point3) -> (r: (Fx, Option<MaterialIndex>)) {
        let da = self.a.value_at(p);
        let db = self.b.value_at(p);
        let nb = db.0.neg();
        if nb.lt(da.0) {
            da
        } else {
            (nb, db.1)
        }
    }
}

/// A field moved by the vector `v`: the child is evaluated at `p - v`.
#[derive(Clone, Copy, Debug)]
pub struct Translate<A> {
    pub a: A,
    pub v: Vec3,
}

impl<A> Translate<A> {
    pub fn new(a: A, v: Vec3) -> (r: Translate<A>)
        ensures
            r.a == a,
            r.v == v,
    {
        Translate { a, v }
    }
}

impl<A: Sdf> Sdf for Translate<A> {
    open spec fn dist_at(self, p: V3) -> int {
        self.a.dist_at(sub_vv(p, self.v@))
    }

    open spec fn mat_at(self, p: V3) -> Option<MaterialIndex> {
        self.a.mat_at(sub_vv(p, self.v@))
    }

    fn value_at(&self, p: &Point3) -> (r: (Fx, Option<MaterialIndex>)) {
        self.a.value_at(&p.sub_vec(self.v))
    }
}

/// A field scaled uniformly by `f`: the child is evaluated at `p / f` and
/// the returned distance is rescaled by `f`. The scaling must be uniform so
/// that the result remains a distance bound.
#[derive(Clone, Copy, Debug)]
pub struct ScaleUniform<A> {
    pub a: A,
    pub f: Fx,
}

impl<A> ScaleUniform<A> {
    pub fn new(a: A, f: Fx) -> (r: ScaleUniform<A>)
        ensures
            r.a == a,
            r.f == f,
    {
        ScaleUniform { a, f }
    }
}

impl<A: Sdf> Sdf for ScaleUniform<A> {
    open spec fn dist_at(self, p: V3) -> int {
        mul_v(self.a.dist_at(unscale_vv(p, self.f.val())), self.f.val())
    }

    open spec fn mat_at(self, p: V3) -> Option<MaterialIndex> {
        self.a.mat_at(unscale_vv(p, self.f.val()))
    }

    fn value_at(&self, p: &Point3) -> (r: (Fx, Option<MaterialIndex>)) {
        let q = Point3(p.as_vec().unscale(self.f));
        let (d, m) = self.a.value_at(&q);
        (d.mul(self.f), m)
    }
}

/// A field rotated about an axis: the query point is rotated by the inverse
/// rotation before delegating, so the shape appears rotated forward.
#[derive(Clone, Copy, Debug)]
pub struct Rotate<A> {
    pub a: A,
    pub q: Quaternion,
}

impl<A> Rotate<A> {
    /// Rotation by `angle` radians about `axis`. Angles are taken modulo a
    /// clamp to `[-2 pi, 2 pi]` by the trigonometry; see `crate::trig`.
    pub fn new(a: A, angle: Fx, axis: UnitVec3) -> (r: Rotate<A>)
        ensures
            r.a == a,
            r.q@ == for_rotation_v(neg_v(angle.val()), axis@),
    {
        Rotate { a, q: Quaternion::for_rotation(angle.neg(), axis) }
    }

    /// Rotation by `angle` degrees about `axis`.
    pub fn new_degrees(a: A, angle: Fx, axis: UnitVec3) -> (r: Rotate<A>)
        ensures
            r.a == a,
            r.q@ == for_rotation_v(neg_v(rad_v(angle.val())), axis@),
    {
        Rotate::new(a, crate::trig::to_radians(angle), axis)
    }
}

impl<A: Sdf> Sdf for Rotate<A> {
    open spec fn dist_at(self, p: V3) -> int {
        self.a.dist_at(rotate_point_v(self.q@, p))
    }

    open spec fn mat_at(self, p: V3) -> Option<MaterialIndex> {
        self.a.mat_at(rotate_point_v(self.q@, p))
    }

    fn value_at(&self, p: &Point3) -> (r: (Fx, Option<MaterialIndex>)) {
        let p_new = self.q.rotate_point(*p);
        self.a.value_at(&p_new)
    }
}

/// A field whose distance passes through unchanged while the material tag is
/// set (or overridden) to `m`.
#[derive(Clone, Copy, Debug)]
pub struct WithMaterial<A> {
    pub a: A,
    pub m: MaterialIndex,
}

impl<A> WithMaterial<A> {
    pub fn new(a: A, m: MaterialIndex) -> (r: WithMaterial<A>)
        ensures
            r.a == a,
            r.m == m,
    {
        WithMaterial { a, m }
    }
}

impl<A: Sdf> Sdf for WithMaterial<A> {
    open spec fn dist_at(self, p: V3) -> int {
        self.a.dist_at(p)
    }

    open spec fn mat_at(self, p: V3) -> Option<MaterialIndex> {
        Some(self.m)
    }

    fn value_at(&self, p: &Point3) -> (r: (Fx, Option<MaterialIndex>)) {
        (self.a.value_at(p).0, Some(self.m))
    }
}

/// For a query offset strictly inside an axis-aligned box (every coordinate
/// closer to the center than the half-extent), the box distance is negative,
/// and it equals the negative of the distance to the nearest face.
pub proof fn lemma_box_inside(d0: V3, h: int)
    requires
        0 < h <= FX_MAX_RAW as int,
        abs_v(d0.x) < h,
        abs_v(d0.y) < h,
        abs_v(d0.z) < h,
    ensures
        box_dist_v(d0, h) < 0,
        box_dist_v(d0, h) == -min_v(h - abs_v(d0.x), min_v(h - abs_v(d0.y), h - abs_v(d0.z))),
{
    let d = sub_vv(abs_vv(d0), V3 { x: h, y: h, z: h });
    assert(d.x == abs_v(d0.x) - h);
    assert(d.y == abs_v(d0.y) - h);
    assert(d.z == abs_v(d0.z) - h);
    assert(maxcomp_v(d) < 0);
    assert(max_vv(d, v3_zero()) == v3_zero());
    assert(len_v(v3_zero()) == 0) by {
        vstd::arithmetic::div_mod::lemma_div_of0(SCALE as int);
        assert(mul_v(0, 0) == 0);
        assert(dot_v(v3_zero(), v3_zero()) == 0);
    }
    assert(box_dist_v(d0, h) == min_v(maxcomp_v(d), 0));
}

/// The union of two fields reports the minimum of their distances.
pub proof fn lemma_union_dist<A: Sdf, B: Sdf>(u: Union<A, B>, p: V3)
    ensures
        u.dist_at(p) == min_v(u.a.dist_at(p), u.b.dist_at(p)),
{
}

/// The intersection of two fields reports the maximum of their distances.
pub proof fn lemma_intersect_dist<A: Sdf, B: Sdf>(u: Intersect<A, B>, p: V3)
    ensures
        u.dist_at(p) == max_v(u.a.dist_at(p), u.b.dist_at(p)),
{
}

/// The difference of two fields reports the maximum of the first distance
/// and the negated second distance.
pub proof fn lemma_difference_dist<A: Sdf, B: Sdf>(u: Difference<A, B>, p: V3)
    ensures
        u.dist_at(p) == max_v(u.a.dist_at(p), neg_v(u.b.dist_at(p))),
{
}

} // verus!
