//! Three-component vectors, points and unit vectors over the fixed-point
//! scalar, together with the exact algebraic laws of the dot and cross
//! products.
//!
//! Each executable operation is pinned to a spec function over `V3`, the
//! mathematical view of a vector (its raw components as unbounded integers).
//! The laws at the end of the file come in two forms. Over the exact
//! (unrounded) products `dot_exact` and `cross_exact`, bilinearity,
//! anticommutativity, the Jacobi identity and the cyclic triple product hold
//! as identities; `dot_v` itself is commutative and `cross_v` of a vector
//! with itself is the zero vector even after rounding. And for inputs up to
//! sixteen whole units, the rounded operations satisfy bilinearity, the
//! Jacobi identity and the cyclic triple product to within `1 / 100000` of
//! a unit, by the bracketing lemmas that confine every rounded product to
//! one grid cell around its exact value.

use vstd::prelude::*;

verus! {

use crate::fixed::{Fx, SCALE};
use crate::fixed::{add_v, sub_v, neg_v, abs_v, max_v, mul_v, div_v, sqrt_v, int_v, ratio_v, fdiv};

/// Mathematical view of a vector: the raw fixed-point components.
pub struct V3 {
    pub x: int,
    pub y: int,
    pub z: int,
}

pub open spec fn v3_zero() -> V3 {
    V3 { x: 0, y: 0, z: 0 }
}

pub open spec fn add_vv(a: V3, b: V3) -> V3 {
    V3 { x: add_v(a.x, b.x), y: add_v(a.y, b.y), z: add_v(a.z, b.z) }
}

pub open spec fn sub_vv(a: V3, b: V3) -> V3 {
    V3 { x: sub_v(a.x, b.x), y: sub_v(a.y, b.y), z: sub_v(a.z, b.z) }
}

pub open spec fn neg_vv(a: V3) -> V3 {
    V3 { x: neg_v(a.x), y: neg_v(a.y), z: neg_v(a.z) }
}

pub open spec fn abs_vv(a: V3) -> V3 {
    V3 { x: abs_v(a.x), y: abs_v(a.y), z: abs_v(a.z) }
}

pub open spec fn max_vv(a: V3, b: V3) -> V3 {
    V3 { x: max_v(a.x, b.x), y: max_v(a.y, b.y), z: max_v(a.z, b.z) }
}

/// Componentwise scaling by a fixed-point factor.
pub open spec fn scale_vv(a: V3, k: int) -> V3 {
    V3 { x: mul_v(a.x, k), y: mul_v(a.y, k), z: mul_v(a.z, k) }
}

/// Componentwise division by a fixed-point factor.
pub open spec fn unscale_vv(a: V3, k: int) -> V3 {
    V3 { x: div_v(a.x, k), y: div_v(a.y, k), z: div_v(a.z, k) }
}

/// The exact dot product of the raw components, before grid rounding.
pub open spec fn dot_exact(a: V3, b: V3) -> int {
    a.x * b.x + a.y * b.y + a.z * b.z
}

/// The fixed-point dot product: each product rounded onto the grid, then summed.
pub open spec fn dot_v(a: V3, b: V3) -> int {
    add_v(add_v(mul_v(a.x, b.x), mul_v(a.y, b.y)), mul_v(a.z, b.z))
}

/// The exact cross product of the raw components, before grid rounding.
pub open spec fn cross_exact(a: V3, b: V3) -> V3 {
    V3 {
        x: a.y * b.z - a.z * b.y,
        y: a.z * b.x - a.x * b.z,
        z: a.x * b.y - a.y * b.x,
    }
}

/// The fixed-point cross product, each component rounded onto the grid.
pub open spec fn cross_v(a: V3, b: V3) -> V3 {
    V3 {
        x: sub_v(mul_v(a.y, b.z), mul_v(a.z, b.y)),
        y: sub_v(mul_v(a.z, b.x), mul_v(a.x, b.z)),
        z: sub_v(mul_v(a.x, b.y), mul_v(a.y, b.x)),
    }
}

pub open spec fn maxcomp_v(a: V3) -> int {
    max_v(a.x, max_v(a.y, a.z))
}

pub open spec fn len_v(a: V3) -> int {
    sqrt_v(dot_v(a, a))
}

/// Normalization: each component divided by the length. The zero vector
/// (whose length is zero) normalizes to the zero vector.
pub open spec fn unit_vv(a: V3) -> V3 {
    V3 { x: div_v(a.x, len_v(a)), y: div_v(a.y, len_v(a)), z: div_v(a.z, len_v(a)) }
}

/// Mirror reflection of `a` about the unit normal `n`: `a - n * 2 * (a . n)`.
pub open spec fn reflect_v(a: V3, n: V3) -> V3 {
    sub_vv(a, scale_vv(scale_vv(n, int_v(2)), dot_v(a, n)))
}

/// A free vector.
#[derive(Clone, Copy, Debug, PartialEq, Eq, Structural)]
pub struct Vec3 {
    pub x: Fx,
    pub y: Fx,
    pub z: Fx,
}

impl View for Vec3 {
    type V = V3;

    open spec fn view(&self) -> V3 {
        V3 { x: self.x.val(), y: self.y.val(), z: self.z.val() }
    }
}

impl Vec3 {
    pub fn new(x: Fx, y: Fx, z: Fx) -> (r: Vec3)
        ensures
            r@ == (V3 { x: x.val(), y: y.val(), z: z.val() }),
    {
        Vec3 { x, y, z }
    }

    pub fn zero() -> (r: Vec3)
        ensures
            r@ == v3_zero(),
    {
        Vec3 { x: Fx::zero(), y: Fx::zero(), z: Fx::zero() }
    }

    pub fn add(self, other: Vec3) -> (r: Vec3)
        ensures
            r@ == add_vv(self@, other@),
    {
        Vec3 { x: self.x.add(other.x), y: self.y.add(other.y), z: self.z.add(other.z) }
    }

    pub fn sub(self, other: Vec3) -> (r: Vec3)
        ensures
            r@ == sub_vv(self@, other@),
    {
        Vec3 { x: self.x.sub(other.x), y: self.y.sub(other.y), z: self.z.sub(other.z) }
    }

    pub fn neg(self) -> (r: Vec3)
        ensures
            r@ == neg_vv(self@),
    {
        Vec3 { x: self.x.neg(), y: self.y.neg(), z: self.z.neg() }
    }

    /// Multiply every component by the scalar `k`.
    pub fn scale(self, k: Fx) -> (r: Vec3)
        ensures
            r@ == scale_vv(self@, k.val()),
    {
        Vec3 { x: self.x.mul(k), y: self.y.mul(k), z: self.z.mul(k) }
    }

    /// Divide every component by the scalar `k`.
    pub fn unscale(self, k: Fx) -> (r: Vec3)
        ensures
            r@ == unscale_vv(self@, k.val()),
    {
        Vec3 { x: self.x.div(k), y: self.y.div(k), z: self.z.div(k) }
    }

    pub fn dot(self, other: Vec3) -> (r: Fx)
        ensures
            r.val() == dot_v(self@, other@),
    {
        self.x.mul(other.x).add(self.y.mul(other.y)).add(self.z.mul(other.z))
    }

    pub fn cross(self, other: Vec3) -> (r: Vec3)
        ensures
            r@ == cross_v(self@, other@),
    {
        Vec3 {
            x: self.y.mul(other.z).sub(self.z.mul(other.y)),
            y: self.z.mul(other.x).sub(self.x.mul(other.z)),
            z: self.x.mul(other.y).sub(self.y.mul(other.x)),
        }
    }

    pub fn length_squared(self) -> (r: Fx)
        ensures
            r.val() == dot_v(self@, self@),
    {
        self.dot(self)
    }

    pub fn length(self) -> (r: Fx)
        ensures
            r.val() == len_v(self@),
    {
        self.length_squared().sqrt()
    }

    pub fn unit(self) -> (r: UnitVec3)
        ensures
            r@ == unit_vv(self@),
    {
        let len = self.length();
        UnitVec3(Vec3 { x: self.x.div(len), y: self.y.div(len), z: self.z.div(len) })
    }

    pub fn abs(self) -> (r: Vec3)
        ensures
            r@ == abs_vv(self@),
    {
        Vec3 { x: self.x.abs(), y: self.y.abs(), z: self.z.abs() }
    }

    pub fn max_component(self) -> (r: Fx)
        ensures
            r.val() == maxcomp_v(self@),
    {
        self.x.max(self.y.max(self.z))
    }

    pub fn max(self, other: Vec3) -> (r: Vec3)
        ensures
            r@ == max_vv(self@, other@),
    {
        Vec3 { x: self.x.max(other.x), y: self.y.max(other.y), z: self.z.max(other.z) }
    }

    /// Mirror reflection about the unit normal `n`.
    pub fn reflect(self, n: UnitVec3) -> (r: Vec3)
        ensures
            r@ == reflect_v(self@, n@),
    {
        let d = self.dot(n.0);
        self.sub(n.0.scale(Fx::from_int(2)).scale(d))
    }
}

/// A vector produced by normalization or by reflecting a unit vector; used
/// for ray directions and surface normals.
#[derive(Clone, Copy, Debug, PartialEq, Eq, Structural)]
pub struct UnitVec3(pub Vec3);

impl View for UnitVec3 {
    type V = V3;

    open spec fn view(&self) -> V3 {
        self.0@
    }
}

impl UnitVec3 {
    pub fn as_vec(self) -> (r: Vec3)
        ensures
            r@ == self@,
    {
        self.0
    }
}

/// A position in world space; distinct from a free vector.
#[derive(Clone, Copy, Debug, PartialEq, Eq, Structural)]
pub struct Point3(pub Vec3);

impl View for Point3 {
    type V = V3;

    open spec fn view(&self) -> V3 {
        self.0@
    }
}

impl Point3 {
    pub fn new(x: Fx, y: Fx, z: Fx) -> (r: Point3)
        ensures
            r@ == (V3 { x: x.val(), y: y.val(), z: z.val() }),
    {
        Point3(Vec3 { x, y, z })
    }

    pub fn origin() -> (r: Point3)
        ensures
            r@ == v3_zero(),
    {
        Point3(Vec3::zero())
    }

    pub fn as_vec(self) -> (r: Vec3)
        ensures
            r@ == self@,
    {
        self.0
    }

    /// Subtracting two points yields the free vector from `other` to `self`.
    pub fn sub(self, other: Point3) -> (r: Vec3)
        ensures
            r@ == sub_vv(self@, other@),
    {
        self.0.sub(other.0)
    }

    /// A point plus a free vector is a point.
    pub fn add_vec(self, v: Vec3) -> (r: Point3)
        ensures
            r@ == add_vv(self@, v@),
    {
        Point3(self.0.add(v))
    }

    /// A point minus a free vector is a point.
    pub fn sub_vec(self, v: Vec3) -> (r: Point3)
        ensures
            r@ == sub_vv(self@, v@),
    {
        Point3(self.0.sub(v))
    }
}

/// One rounded product brackets the exact product: for components small
/// enough that no saturation occurs, `mul_v(x, y)` is the exact product
/// scaled down by `SCALE`, rounded toward negative infinity.
proof fn lemma_mul_v_brackets(x: int, y: int)
    requires
        -0x4000000000000 <= x <= 0x4000000000000,
        -0x4000000000000 <= y <= 0x4000000000000,
    ensures
        (SCALE as int) * mul_v(x, y) <= x * y < (SCALE as int) * mul_v(x, y) + SCALE as int,
        -0x1000000000000000 <= mul_v(x, y) <= 0x1000000000000000,
{
    let q = fdiv(x * y, SCALE as int);
    vstd::arithmetic::div_mod::lemma_fundamental_div_mod(x * y, SCALE as int);
    vstd::arithmetic::div_mod::lemma_mod_bound(x * y, SCALE as int);
    assert((SCALE as int) * q <= x * y < (SCALE as int) * q + SCALE as int);
    assert(-0x1000000000000000 <= q <= 0x1000000000000000) by (nonlinear_arith)
        requires
            -0x4000000000000 <= x <= 0x4000000000000,
            -0x4000000000000 <= y <= 0x4000000000000,
            (SCALE as int) * q <= x * y < (SCALE as int) * q + SCALE as int,
            SCALE == 1099511627776i64,
    ;
}

/// The rounded dot product brackets the exact one: for components up to
/// `2^50` in raw magnitude (about a thousand whole units) no saturation
/// occurs, and `dot_v` is the exact dot product scaled down by `SCALE`, up
/// to the three rounded products' loss of strictly less than one unit each.
pub proof fn lemma_dot_close_to_exact(a: V3, b: V3)
    requires
        -0x4000000000000 <= a.x <= 0x4000000000000,
        -0x4000000000000 <= a.y <= 0x4000000000000,
        -0x4000000000000 <= a.z <= 0x4000000000000,
        -0x4000000000000 <= b.x <= 0x4000000000000,
        -0x4000000000000 <= b.y <= 0x4000000000000,
        -0x4000000000000 <= b.z <= 0x4000000000000,
    ensures
        (SCALE as int) * dot_v(a, b) <= dot_exact(a, b),
        dot_exact(a, b) < (SCALE as int) * dot_v(a, b) + 3 * (SCALE as int),
{
    lemma_mul_v_brackets(a.x, b.x);
    lemma_mul_v_brackets(a.y, b.y);
    lemma_mul_v_brackets(a.z, b.z);
    let q1 = mul_v(a.x, b.x);
    let q2 = mul_v(a.y, b.y);
    let q3 = mul_v(a.z, b.z);
    assert(dot_v(a, b) == q1 + q2 + q3);
    assert((SCALE as int) * (q1 + q2 + q3) == (SCALE as int) * q1 + (SCALE as int) * q2 + (
    SCALE as int) * q3) by (nonlinear_arith);
}

/// Each component of the rounded cross product is within one unit of the
/// exact one scaled down by `SCALE`, for components up to `2^50` in raw
/// magnitude.
pub proof fn lemma_cross_close_to_exact(a: V3, b: V3)
    requires
        -0x4000000000000 <= a.x <= 0x4000000000000,
        -0x4000000000000 <= a.y <= 0x4000000000000,
        -0x4000000000000 <= a.z <= 0x4000000000000,
        -0x4000000000000 <= b.x <= 0x4000000000000,
        -0x4000000000000 <= b.y <= 0x4000000000000,
        -0x4000000000000 <= b.z <= 0x4000000000000,
    ensures
        (SCALE as int) * cross_v(a, b).x - (SCALE as int) < cross_exact(a, b).x,
        cross_exact(a, b).x < (SCALE as int) * cross_v(a, b).x + SCALE as int,
        (SCALE as int) * cross_v(a, b).y - (SCALE as int) < cross_exact(a, b).y,
        cross_exact(a, b).y < (SCALE as int) * cross_v(a, b).y + SCALE as int,
        (SCALE as int) * cross_v(a, b).z - (SCALE as int) < cross_exact(a, b).z,
        cross_exact(a, b).z < (SCALE as int) * cross_v(a, b).z + SCALE as int,
{
    lemma_mul_v_brackets(a.y, b.z);
    lemma_mul_v_brackets(a.z, b.y);
    lemma_mul_v_brackets(a.z, b.x);
    lemma_mul_v_brackets(a.x, b.z);
    lemma_mul_v_brackets(a.x, b.y);
    lemma_mul_v_brackets(a.y, b.x);
    assert forall|p: int, q: int| #[trigger] ((SCALE as int) * (p - q)) == (SCALE as int) * p - (
    SCALE as int) * q by {
        vstd::arithmetic::mul::lemma_mul_is_distributive_sub(SCALE as int, p, q);
    }
}

/// Error propagation through one rounded product: if `v` approximates
/// `big / SCALE` within `e` raw units, then `mul_v(x, v)` approximates
/// `x * big / SCALE^2` within `1 + 16 e` raw units, for `x` up to sixteen
/// whole units.
proof fn lemma_mul_close(x: int, v: int, big: int, e: int)
    requires
        -17592186044416 <= x <= 17592186044416,
        -0x4000000000000 <= v <= 0x4000000000000,
        0 <= e <= 8,
        (SCALE as int) * v - big < e * (SCALE as int),
        big - (SCALE as int) * v < e * (SCALE as int),
    ensures
        (SCALE as int) * (SCALE as int) * mul_v(x, v) - x * big < (1 + 16 * e) * (SCALE as int)
            * (SCALE as int),
        x * big - (SCALE as int) * (SCALE as int) * mul_v(x, v) < (1 + 16 * e) * (SCALE as int)
            * (SCALE as int),
        -0x1000000000000000 <= mul_v(x, v) <= 0x1000000000000000,
{
    lemma_mul_v_brackets(x, v);
    let q = mul_v(x, v);
    assert((SCALE as int) * (SCALE as int) * q - x * big < (1 + 16 * e) * (SCALE as int) * (
    SCALE as int) && x * big - (SCALE as int) * (SCALE as int) * q < (1 + 16 * e) * (SCALE as int)
        * (SCALE as int)) by (nonlinear_arith)
        requires
            (SCALE as int) * q <= x * v < (SCALE as int) * q + SCALE as int,
            (SCALE as int) * v - big < e * (SCALE as int),
            big - (SCALE as int) * v < e * (SCALE as int),
            -17592186044416 <= x <= 17592186044416,
            0 <= e <= 8,
            SCALE == 1099511627776i64,
    ;
}

/// The executable (rounded) dot product is bilinear to within the stated
/// tolerance: for vectors and a scalar up to sixteen whole units in
/// magnitude, `a . (b * k + c)` computed on the grid differs from
/// `k * (a . b) + (a . c)` computed on the grid by less than `1 / 100000`
/// of a unit.
pub proof fn lemma_dot_bilinear_rounded(a: V3, b: V3, c: V3, k: int)
    requires
        -17592186044416 <= a.x <= 17592186044416,
        -17592186044416 <= a.y <= 17592186044416,
        -17592186044416 <= a.z <= 17592186044416,
        -17592186044416 <= b.x <= 17592186044416,
        -17592186044416 <= b.y <= 17592186044416,
        -17592186044416 <= b.z <= 17592186044416,
        -17592186044416 <= c.x <= 17592186044416,
        -17592186044416 <= c.y <= 17592186044416,
        -17592186044416 <= c.z <= 17592186044416,
        -17592186044416 <= k <= 17592186044416,
    ensures
        ({
            let lhs = dot_v(a, add_vv(scale_vv(b, k), c));
            let rhs = add_v(mul_v(k, dot_v(a, b)), dot_v(a, c));
            abs_v(lhs - rhs) < ratio_v(1, 100000)
        }),
{
    let s = SCALE as int;
    let exact = k * dot_exact(a, b) + s * dot_exact(a, c);

    // the scaled-and-shifted vector: each component rounds once
    lemma_mul_v_brackets(b.x, k);
    lemma_mul_v_brackets(b.y, k);
    lemma_mul_v_brackets(b.z, k);
    let sx = mul_v(b.x, k);
    let sy = mul_v(b.y, k);
    let sz = mul_v(b.z, k);
    assert(-281474976710657 <= sx <= 281474976710657) by (nonlinear_arith)
        requires
            s * sx <= b.x * k < s * sx + s,
            -17592186044416 <= b.x <= 17592186044416,
            -17592186044416 <= k <= 17592186044416,
            s == 1099511627776int,
    ;
    assert(-281474976710657 <= sy <= 281474976710657) by (nonlinear_arith)
        requires
            s * sy <= b.y * k < s * sy + s,
            -17592186044416 <= b.y <= 17592186044416,
            -17592186044416 <= k <= 17592186044416,
            s == 1099511627776int,
    ;
    assert(-281474976710657 <= sz <= 281474976710657) by (nonlinear_arith)
        requires
            s * sz <= b.z * k < s * sz + s,
            -17592186044416 <= b.z <= 17592186044416,
            -17592186044416 <= k <= 17592186044416,
            s == 1099511627776int,
    ;
    let w = add_vv(scale_vv(b, k), c);
    assert(w.x == sx + c.x && w.y == sy + c.y && w.z == sz + c.z);
    assert(-0x4000000000000 <= w.x <= 0x4000000000000);
    assert(-0x4000000000000 <= w.y <= 0x4000000000000);
    assert(-0x4000000000000 <= w.z <= 0x4000000000000);

    // each component of the shifted vector is close to its exact value
    let wex = b.x * k + s * c.x;
    let wey = b.y * k + s * c.y;
    let wez = b.z * k + s * c.z;
    lemma_mul_close(a.x, w.x, wex, 1);
    lemma_mul_close(a.y, w.y, wey, 1);
    lemma_mul_close(a.z, w.z, wez, 1);

    // the three a-products sum to the exact bilinear value
    assert(a.x * wex == k * (a.x * b.x) + s * (a.x * c.x)) by (nonlinear_arith)
        requires
            wex == b.x * k + s * c.x,
    ;
    assert(a.y * wey == k * (a.y * b.y) + s * (a.y * c.y)) by (nonlinear_arith)
        requires
            wey == b.y * k + s * c.y,
    ;
    assert(a.z * wez == k * (a.z * b.z) + s * (a.z * c.z)) by (nonlinear_arith)
        requires
            wez == b.z * k + s * c.z,
    ;
    assert(k * (a.x * b.x) + k * (a.y * b.y) + k * (a.z * b.z) == k * dot_exact(a, b))
        by (nonlinear_arith)
        requires
            dot_exact(a, b) == a.x * b.x + a.y * b.y + a.z * b.z,
    ;
    assert(s * (a.x * c.x) + s * (a.y * c.y) + s * (a.z * c.z) == s * dot_exact(a, c))
        by (nonlinear_arith)
        requires
            dot_exact(a, c) == a.x * c.x + a.y * c.y + a.z * c.z,
    ;
    assert(a.x * wex + a.y * wey + a.z * wez == exact);

    let px = mul_v(a.x, w.x);
    let py = mul_v(a.y, w.y);
    let pz = mul_v(a.z, w.z);
    let lhs = dot_v(a, w);
    assert(lhs == px + py + pz);
    assert(s * s * lhs - exact < 51 * s * s && exact - s * s * lhs < 51 * s * s)
        by (nonlinear_arith)
        requires
            lhs == px + py + pz,
            s * s * px - a.x * wex < 17 * s * s,
            a.x * wex - s * s * px < 17 * s * s,
            s * s * py - a.y * wey < 17 * s * s,
            a.y * wey - s * s * py < 17 * s * s,
            s * s * pz - a.z * wez < 17 * s * s,
            a.z * wez - s * s * pz < 17 * s * s,
            exact == a.x * wex + a.y * wey + a.z * wez,
            s == 1099511627776int,
    ;

    // the right-hand side: two rounded dots and one rounded product
    lemma_dot_close_to_exact(a, b);
    lemma_dot_close_to_exact(a, c);
    let dab = dot_v(a, b);
    let dac = dot_v(a, c);
    assert(-928455029464035206174343168 <= dot_exact(a, b) <= 928455029464035206174343168)
        by (nonlinear_arith)
        requires
            dot_exact(a, b) == a.x * b.x + a.y * b.y + a.z * b.z,
            -17592186044416 <= a.x <= 17592186044416,
            -17592186044416 <= a.y <= 17592186044416,
            -17592186044416 <= a.z <= 17592186044416,
            -17592186044416 <= b.x <= 17592186044416,
            -17592186044416 <= b.y <= 17592186044416,
            -17592186044416 <= b.z <= 17592186044416,
    ;
    assert(-0x4000000000000 <= dab <= 0x4000000000000) by (nonlinear_arith)
        requires
            s * dab <= dot_exact(a, b) < s * dab + 3 * s,
            -928455029464035206174343168 <= dot_exact(a, b) <= 928455029464035206174343168,
            s == 1099511627776int,
    ;
    lemma_mul_close(k, dab, dot_exact(a, b), 3);
    let t1 = mul_v(k, dab);
    let rhs = add_v(t1, dac);
    assert(rhs == t1 + dac);
    assert(s * s * rhs - exact < 52 * s * s && exact - s * s * rhs < 52 * s * s)
        by (nonlinear_arith)
        requires
            rhs == t1 + dac,
            s * s * t1 - k * dot_exact(a, b) < 49 * s * s,
            k * dot_exact(a, b) - s * s * t1 < 49 * s * s,
            s * dac <= dot_exact(a, c) < s * dac + 3 * s,
            exact == k * dot_exact(a, b) + s * dot_exact(a, c),
            s == 1099511627776int,
    ;

    // combine both sides and divide the error by SCALE^2
    assert(lhs - rhs < 103 && rhs - lhs < 103) by (nonlinear_arith)
        requires
            s * s * lhs - exact < 51 * s * s,
            exact - s * s * lhs < 51 * s * s,
            s * s * rhs - exact < 52 * s * s,
            exact - s * s * rhs < 52 * s * s,
            s == 1099511627776int,
    ;
    assert(ratio_v(1, 100000) == 10995116) by {
        vstd::arithmetic::div_mod::lemma_fundamental_div_mod_converse(
            1099511627776, 100000, 10995116, 27776);
    }
}

/// The rounded scalar triple product `a . (b x c)` approximates the exact
/// one within `51` raw units, for components up to sixteen whole units.
proof fn lemma_dot_cross_close(a: V3, b: V3, c: V3)
    requires
        -17592186044416 <= a.x <= 17592186044416,
        -17592186044416 <= a.y <= 17592186044416,
        -17592186044416 <= a.z <= 17592186044416,
        -17592186044416 <= b.x <= 17592186044416,
        -17592186044416 <= b.y <= 17592186044416,
        -17592186044416 <= b.z <= 17592186044416,
        -17592186044416 <= c.x <= 17592186044416,
        -17592186044416 <= c.y <= 17592186044416,
        -17592186044416 <= c.z <= 17592186044416,
    ensures
        (SCALE as int) * (SCALE as int) * dot_v(a, cross_v(b, c)) - dot_exact(
            a,
            cross_exact(b, c),
        ) < 51 * (SCALE as int) * (SCALE as int),
        dot_exact(a, cross_exact(b, c)) - (SCALE as int) * (SCALE as int) * dot_v(
            a,
            cross_v(b, c),
        ) < 51 * (SCALE as int) * (SCALE as int),
{
    let s = SCALE as int;
    lemma_cross_close_to_exact(b, c);
    let cv = cross_v(b, c);
    let ce = cross_exact(b, c);
    assert(-618970019642690137449562112 <= ce.x <= 618970019642690137449562112
        && -618970019642690137449562112 <= ce.y <= 618970019642690137449562112
        && -618970019642690137449562112 <= ce.z <= 618970019642690137449562112)
        by (nonlinear_arith)
        requires
            ce.x == b.y * c.z - b.z * c.y,
            ce.y == b.z * c.x - b.x * c.z,
            ce.z == b.x * c.y - b.y * c.x,
            -17592186044416 <= b.x <= 17592186044416,
            -17592186044416 <= b.y <= 17592186044416,
            -17592186044416 <= b.z <= 17592186044416,
            -17592186044416 <= c.x <= 17592186044416,
            -17592186044416 <= c.y <= 17592186044416,
            -17592186044416 <= c.z <= 17592186044416,
    ;
    assert(-0x4000000000000 <= cv.x <= 0x4000000000000 && -0x4000000000000 <= cv.y
        <= 0x4000000000000 && -0x4000000000000 <= cv.z <= 0x4000000000000) by (nonlinear_arith)
        requires
            s * cv.x - s < ce.x < s * cv.x + s,
            s * cv.y - s < ce.y < s * cv.y + s,
            s * cv.z - s < ce.z < s * cv.z + s,
            -618970019642690137449562112 <= ce.x <= 618970019642690137449562112,
            -618970019642690137449562112 <= ce.y <= 618970019642690137449562112,
            -618970019642690137449562112 <= ce.z <= 618970019642690137449562112,
            s == 1099511627776int,
    ;
    lemma_mul_close(a.x, cv.x, ce.x, 1);
    lemma_mul_close(a.y, cv.y, ce.y, 1);
    lemma_mul_close(a.z, cv.z, ce.z, 1);
    let d = dot_v(a, cv);
    assert(d == mul_v(a.x, cv.x) + mul_v(a.y, cv.y) + mul_v(a.z, cv.z));
    assert(dot_exact(a, ce) == a.x * ce.x + a.y * ce.y + a.z * ce.z);
    assert(s * s * d - dot_exact(a, ce) < 51 * s * s && dot_exact(a, ce) - s * s * d < 51 * s
        * s) by (nonlinear_arith)
        requires
            d == mul_v(a.x, cv.x) + mul_v(a.y, cv.y) + mul_v(a.z, cv.z),
            dot_exact(a, ce) == a.x * ce.x + a.y * ce.y + a.z * ce.z,
            s * s * mul_v(a.x, cv.x) - a.x * ce.x < 17 * s * s,
            a.x * ce.x - s * s * mul_v(a.x, cv.x) < 17 * s * s,
            s * s * mul_v(a.y, cv.y) - a.y * ce.y < 17 * s * s,
            a.y * ce.y - s * s * mul_v(a.y, cv.y) < 17 * s * s,
            s * s * mul_v(a.z, cv.z) - a.z * ce.z < 17 * s * s,
            a.z * ce.z - s * s * mul_v(a.z, cv.z) < 17 * s * s,
            s == 1099511627776int,
    ;
}

/// The executable (rounded) scalar triple product is invariant under cyclic
/// rotation of its arguments to within the stated tolerance: for components
/// up to sixteen whole units, any two of `a . (b x c)`, `b . (c x a)` and
/// `c . (a x b)` computed on the grid differ by less than `1 / 100000` of a
/// unit.
pub proof fn lemma_triple_product_cyclic_rounded(a: V3, b: V3, c: V3)
    requires
        -17592186044416 <= a.x <= 17592186044416,
        -17592186044416 <= a.y <= 17592186044416,
        -17592186044416 <= a.z <= 17592186044416,
        -17592186044416 <= b.x <= 17592186044416,
        -17592186044416 <= b.y <= 17592186044416,
        -17592186044416 <= b.z <= 17592186044416,
        -17592186044416 <= c.x <= 17592186044416,
        -17592186044416 <= c.y <= 17592186044416,
        -17592186044416 <= c.z <= 17592186044416,
    ensures
        abs_v(dot_v(a, cross_v(b, c)) - dot_v(b, cross_v(c, a))) < ratio_v(1, 100000),
        abs_v(dot_v(b, cross_v(c, a)) - dot_v(c, cross_v(a, b))) < ratio_v(1, 100000),
{
    let s = SCALE as int;
    lemma_dot_cross_close(a, b, c);
    lemma_dot_cross_close(b, c, a);
    lemma_dot_cross_close(c, a, b);
    lemma_triple_product_cyclic(a, b, c);
    let d1 = dot_v(a, cross_v(b, c));
    let d2 = dot_v(b, cross_v(c, a));
    let d3 = dot_v(c, cross_v(a, b));
    let e1 = dot_exact(a, cross_exact(b, c));
    assert(d1 - d2 < 102 && d2 - d1 < 102 && d2 - d3 < 102 && d3 - d2 < 102)
        by (nonlinear_arith)
        requires
            s * s * d1 - e1 < 51 * s * s,
            e1 - s * s * d1 < 51 * s * s,
            s * s * d2 - e1 < 51 * s * s,
            e1 - s * s * d2 < 51 * s * s,
            s * s * d3 - e1 < 51 * s * s,
            e1 - s * s * d3 < 51 * s * s,
            s == 1099511627776int,
    ;
    assert(ratio_v(1, 100000) == 10995116) by {
        vstd::arithmetic::div_mod::lemma_fundamental_div_mod_converse(
            1099511627776, 100000, 10995116, 27776);
    }
}

/// One arm of the Jacobi sum: each component of the rounded
/// `a x (b x c)` approximates the exact one within `34` raw units and is at
/// most about sixteen-thousand units in magnitude, for components up to
/// sixteen whole units.
proof fn lemma_cross_cross_close(a: V3, b: V3, c: V3)
    requires
        -17592186044416 <= a.x <= 17592186044416,
        -17592186044416 <= a.y <= 17592186044416,
        -17592186044416 <= a.z <= 17592186044416,
        -17592186044416 <= b.x <= 17592186044416,
        -17592186044416 <= b.y <= 17592186044416,
        -17592186044416 <= b.z <= 17592186044416,
        -17592186044416 <= c.x <= 17592186044416,
        -17592186044416 <= c.y <= 17592186044416,
        -17592186044416 <= c.z <= 17592186044416,
    ensures
        ({
            let o = cross_v(a, cross_v(b, c));
            let oe = cross_exact(a, cross_exact(b, c));
            &&& (SCALE as int) * (SCALE as int) * o.x - oe.x < 34 * (SCALE as int) * (
            SCALE as int)
            &&& oe.x - (SCALE as int) * (SCALE as int) * o.x < 34 * (SCALE as int) * (
            SCALE as int)
            &&& (SCALE as int) * (SCALE as int) * o.y - oe.y < 34 * (SCALE as int) * (
            SCALE as int)
            &&& oe.y - (SCALE as int) * (SCALE as int) * o.y < 34 * (SCALE as int) * (
            SCALE as int)
            &&& (SCALE as int) * (SCALE as int) * o.z - oe.z < 34 * (SCALE as int) * (
            SCALE as int)
            &&& oe.z - (SCALE as int) * (SCALE as int) * o.z < 34 * (SCALE as int) * (
            SCALE as int)
            &&& -18014398509482019 <= o.x <= 18014398509482019
            &&& -18014398509482019 <= o.y <= 18014398509482019
            &&& -18014398509482019 <= o.z <= 18014398509482019
        }),
{
    let s = SCALE as int;
    lemma_cross_close_to_exact(b, c);
    let cv = cross_v(b, c);
    let ce = cross_exact(b, c);
    assert(-618970019642690137449562112 <= ce.x <= 618970019642690137449562112
        && -618970019642690137449562112 <= ce.y <= 618970019642690137449562112
        && -618970019642690137449562112 <= ce.z <= 618970019642690137449562112)
        by (nonlinear_arith)
        requires
            ce.x == b.y * c.z - b.z * c.y,
            ce.y == b.z * c.x - b.x * c.z,
            ce.z == b.x * c.y - b.y * c.x,
            -17592186044416 <= b.x <= 17592186044416,
            -17592186044416 <= b.y <= 17592186044416,
            -17592186044416 <= b.z <= 17592186044416,
            -17592186044416 <= c.x <= 17592186044416,
            -17592186044416 <= c.y <= 17592186044416,
            -17592186044416 <= c.z <= 17592186044416,
    ;
    assert(-0x4000000000000 <= cv.x <= 0x4000000000000 && -0x4000000000000 <= cv.y
        <= 0x4000000000000 && -0x4000000000000 <= cv.z <= 0x4000000000000) by (nonlinear_arith)
        requires
            s * cv.x - s < ce.x < s * cv.x + s,
            s * cv.y - s < ce.y < s * cv.y + s,
            s * cv.z - s < ce.z < s * cv.z + s,
            -618970019642690137449562112 <= ce.x <= 618970019642690137449562112,
            -618970019642690137449562112 <= ce.y <= 618970019642690137449562112,
            -618970019642690137449562112 <= ce.z <= 618970019642690137449562112,
            s == 1099511627776int,
    ;
    lemma_mul_close(a.y, cv.z, ce.z, 1);
    lemma_mul_close(a.z, cv.y, ce.y, 1);
    lemma_mul_close(a.z, cv.x, ce.x, 1);
    lemma_mul_close(a.x, cv.z, ce.z, 1);
    lemma_mul_close(a.x, cv.y, ce.y, 1);
    lemma_mul_close(a.y, cv.x, ce.x, 1);
    let o = cross_v(a, cv);
    let oe = cross_exact(a, ce);
    assert(o.x == mul_v(a.y, cv.z) - mul_v(a.z, cv.y));
    assert(o.y == mul_v(a.z, cv.x) - mul_v(a.x, cv.z));
    assert(o.z == mul_v(a.x, cv.y) - mul_v(a.y, cv.x));
    assert(oe.x == a.y * ce.z - a.z * ce.y);
    assert(oe.y == a.z * ce.x - a.x * ce.z);
    assert(oe.z == a.x * ce.y - a.y * ce.x);
    assert(-21778071482940061661655974875633165533184 <= oe.x
        <= 21778071482940061661655974875633165533184
        && -21778071482940061661655974875633165533184 <= oe.y
        <= 21778071482940061661655974875633165533184
        && -21778071482940061661655974875633165533184 <= oe.z
        <= 21778071482940061661655974875633165533184) by (nonlinear_arith)
        requires
            oe.x == a.y * ce.z - a.z * ce.y,
            oe.y == a.z * ce.x - a.x * ce.z,
            oe.z == a.x * ce.y - a.y * ce.x,
            -17592186044416 <= a.x <= 17592186044416,
            -17592186044416 <= a.y <= 17592186044416,
            -17592186044416 <= a.z <= 17592186044416,
            -618970019642690137449562112 <= ce.x <= 618970019642690137449562112,
            -618970019642690137449562112 <= ce.y <= 618970019642690137449562112,
            -618970019642690137449562112 <= ce.z <= 618970019642690137449562112,
    ;
    assert(s * s * o.x - oe.x < 34 * s * s && oe.x - s * s * o.x < 34 * s * s && s * s * o.y
        - oe.y < 34 * s * s && oe.y - s * s * o.y < 34 * s * s && s * s * o.z - oe.z < 34 * s * s
        && oe.z - s * s * o.z < 34 * s * s) by (nonlinear_arith)
        requires
            o.x == mul_v(a.y, cv.z) - mul_v(a.z, cv.y),
            o.y == mul_v(a.z, cv.x) - mul_v(a.x, cv.z),
            o.z == mul_v(a.x, cv.y) - mul_v(a.y, cv.x),
            oe.x == a.y * ce.z - a.z * ce.y,
            oe.y == a.z * ce.x - a.x * ce.z,
            oe.z == a.x * ce.y - a.y * ce.x,
            s * s * mul_v(a.y, cv.z) - a.y * ce.z < 17 * s * s,
            a.y * ce.z - s * s * mul_v(a.y, cv.z) < 17 * s * s,
            s * s * mul_v(a.z, cv.y) - a.z * ce.y < 17 * s * s,
            a.z * ce.y - s * s * mul_v(a.z, cv.y) < 17 * s * s,
            s * s * mul_v(a.z, cv.x) - a.z * ce.x < 17 * s * s,
            a.z * ce.x - s * s * mul_v(a.z, cv.x) < 17 * s * s,
            s * s * mul_v(a.x, cv.z) - a.x * ce.z < 17 * s * s,
            a.x * ce.z - s * s * mul_v(a.x, cv.z) < 17 * s * s,
            s * s * mul_v(a.x, cv.y) - a.x * ce.y < 17 * s * s,
            a.x * ce.y - s * s * mul_v(a.x, cv.y) < 17 * s * s,
            s * s * mul_v(a.y, cv.x) - a.y * ce.x < 17 * s * s,
            a.y * ce.x - s * s * mul_v(a.y, cv.x) < 17 * s * s,
            s == 1099511627776int,
    ;
    assert(-18014398509482019 <= o.x <= 18014398509482019 && -18014398509482019 <= o.y
        <= 18014398509482019 && -18014398509482019 <= o.z <= 18014398509482019)
        by (nonlinear_arith)
        requires
            s * s * o.x - oe.x < 34 * s * s,
            oe.x - s * s * o.x < 34 * s * s,
            s * s * o.y - oe.y < 34 * s * s,
            oe.y - s * s * o.y < 34 * s * s,
            s * s * o.z - oe.z < 34 * s * s,
            oe.z - s * s * o.z < 34 * s * s,
            -21778071482940061661655974875633165533184 <= oe.x
                <= 21778071482940061661655974875633165533184,
            -21778071482940061661655974875633165533184 <= oe.y
                <= 21778071482940061661655974875633165533184,
            -21778071482940061661655974875633165533184 <= oe.z
                <= 21778071482940061661655974875633165533184,
            s == 1099511627776int,
    ;
}

/// The executable (rounded) cross product satisfies the Jacobi identity to
/// within the stated tolerance: for components up to sixteen whole units,
/// every component of `a x (b x c) + b x (c x a) + c x (a x b)` computed on
/// the grid is less than `1 / 100000` of a unit in magnitude.
pub proof fn lemma_cross_jacobi_rounded(a: V3, b: V3, c: V3)
    requires
        -17592186044416 <= a.x <= 17592186044416,
        -17592186044416 <= a.y <= 17592186044416,
        -17592186044416 <= a.z <= 17592186044416,
        -17592186044416 <= b.x <= 17592186044416,
        -17592186044416 <= b.y <= 17592186044416,
        -17592186044416 <= b.z <= 17592186044416,
        -17592186044416 <= c.x <= 17592186044416,
        -17592186044416 <= c.y <= 17592186044416,
        -17592186044416 <= c.z <= 17592186044416,
    ensures
        ({
            let total = add_vv(
                add_vv(cross_v(a, cross_v(b, c)), cross_v(b, cross_v(c, a))),
                cross_v(c, cross_v(a, b)),
            );
            abs_v(total.x) < ratio_v(1, 100000) && abs_v(total.y) < ratio_v(1, 100000)
                && abs_v(total.z) < ratio_v(1, 100000)
        }),
{
    let s = SCALE as int;
    lemma_cross_cross_close(a, b, c);
    lemma_cross_cross_close(b, c, a);
    lemma_cross_cross_close(c, a, b);
    lemma_cross_jacobi(a, b, c);
    let o1 = cross_v(a, cross_v(b, c));
    let o2 = cross_v(b, cross_v(c, a));
    let o3 = cross_v(c, cross_v(a, b));
    let e1 = cross_exact(a, cross_exact(b, c));
    let e2 = cross_exact(b, cross_exact(c, a));
    let e3 = cross_exact(c, cross_exact(a, b));
    let total = add_vv(add_vv(o1, o2), o3);
    assert(total.x == o1.x + o2.x + o3.x);
    assert(total.y == o1.y + o2.y + o3.y);
    assert(total.z == o1.z + o2.z + o3.z);
    assert(total.x < 102 && -total.x < 102 && total.y < 102 && -total.y < 102 && total.z < 102
        && -total.z < 102) by (nonlinear_arith)
        requires
            total.x == o1.x + o2.x + o3.x,
            total.y == o1.y + o2.y + o3.y,
            total.z == o1.z + o2.z + o3.z,
            e1.x + e2.x + e3.x == 0,
            e1.y + e2.y + e3.y == 0,
            e1.z + e2.z + e3.z == 0,
            s * s * o1.x - e1.x < 34 * s * s,
            e1.x - s * s * o1.x < 34 * s * s,
            s * s * o1.y - e1.y < 34 * s * s,
            e1.y - s * s * o1.y < 34 * s * s,
            s * s * o1.z - e1.z < 34 * s * s,
            e1.z - s * s * o1.z < 34 * s * s,
            s * s * o2.x - e2.x < 34 * s * s,
            e2.x - s * s * o2.x < 34 * s * s,
            s * s * o2.y - e2.y < 34 * s * s,
            e2.y - s * s * o2.y < 34 * s * s,
            s * s * o2.z - e2.z < 34 * s * s,
            e2.z - s * s * o2.z < 34 * s * s,
            s * s * o3.x - e3.x < 34 * s * s,
            e3.x - s * s * o3.x < 34 * s * s,
            s * s * o3.y - e3.y < 34 * s * s,
            e3.y - s * s * o3.y < 34 * s * s,
            s * s * o3.z - e3.z < 34 * s * s,
            e3.z - s * s * o3.z < 34 * s * s,
            s == 1099511627776int,
    ;
    assert(ratio_v(1, 100000) == 10995116) by {
        vstd::arithmetic::div_mod::lemma_fundamental_div_mod_converse(
            1099511627776, 100000, 10995116, 27776);
    }
}

/// The dot product is commutative, even after grid rounding.
pub proof fn lemma_dot_commutative(a: V3, b: V3)
    ensures
        dot_v(a, b) == dot_v(b, a),
{
    assert(a.x * b.x == b.x * a.x) by (nonlinear_arith);
    assert(a.y * b.y == b.y * a.y) by (nonlinear_arith);
    assert(a.z * b.z == b.z * a.z) by (nonlinear_arith);
}

/// The dot product is bilinear in its exact form: against the sum of a scaled
/// vector and another vector it distributes into `k * (a . b) + (a . c)`.
pub proof fn lemma_dot_bilinear(a: V3, b: V3, c: V3, k: int)
    ensures
        dot_exact(
            a,
            V3 { x: b.x * k + c.x, y: b.y * k + c.y, z: b.z * k + c.z },
        ) == k * dot_exact(a, b) + dot_exact(a, c),
{
    assert(a.x * (b.x * k + c.x) == k * (a.x * b.x) + a.x * c.x) by (nonlinear_arith);
    assert(a.y * (b.y * k + c.y) == k * (a.y * b.y) + a.y * c.y) by (nonlinear_arith);
    assert(a.z * (b.z * k + c.z) == k * (a.z * b.z) + a.z * c.z) by (nonlinear_arith);
    assert(k * (a.x * b.x) + k * (a.y * b.y) + k * (a.z * b.z) == k * (a.x * b.x + a.y * b.y
        + a.z * b.z)) by (nonlinear_arith);
}

/// The cross product is anticommutative in its exact form.
pub proof fn lemma_cross_anticommutative(a: V3, b: V3)
    ensures
        cross_exact(a, b) == (V3 {
            x: -cross_exact(b, a).x,
            y: -cross_exact(b, a).y,
            z: -cross_exact(b, a).z,
        }),
{
    assert(a.y * b.z == b.z * a.y) by (nonlinear_arith);
    assert(a.z * b.y == b.y * a.z) by (nonlinear_arith);
    assert(a.z * b.x == b.x * a.z) by (nonlinear_arith);
    assert(a.x * b.z == b.z * a.x) by (nonlinear_arith);
    assert(a.x * b.y == b.y * a.x) by (nonlinear_arith);
    assert(a.y * b.x == b.x * a.y) by (nonlinear_arith);
}

/// The cross product of a vector with itself is the zero vector, even after
/// grid rounding.
pub proof fn lemma_cross_self_zero(a: V3)
    ensures
        cross_v(a, a) == v3_zero(),
{
    assert(a.y * a.z == a.z * a.y) by (nonlinear_arith);
    assert(a.z * a.x == a.x * a.z) by (nonlinear_arith);
    assert(a.x * a.y == a.y * a.x) by (nonlinear_arith);
    assert(fdiv(0, SCALE as int) == 0) by {
        vstd::arithmetic::div_mod::lemma_div_of0(SCALE as int);
    }
}

/// A product of three factors may be rotated into any leading factor.
proof fn lemma_rot3(x: int, y: int, z: int)
    ensures
        x * (y * z) == y * (z * x),
        x * (y * z) == z * (x * y),
{
    assert(x * (y * z) == y * (z * x)) by (nonlinear_arith);
    assert(x * (y * z) == z * (x * y)) by (nonlinear_arith);
}

/// The cross product satisfies the Jacobi identity in its exact form:
/// `a x (b x c) + b x (c x a) + c x (a x b) == 0`.
pub proof fn lemma_cross_jacobi(a: V3, b: V3, c: V3)
    ensures
        ({
            let p = cross_exact(a, cross_exact(b, c));
            let q = cross_exact(b, cross_exact(c, a));
            let r = cross_exact(c, cross_exact(a, b));
            p.x + q.x + r.x == 0 && p.y + q.y + r.y == 0 && p.z + q.z + r.z == 0
        }),
{
    broadcast use vstd::arithmetic::mul::group_mul_is_distributive;

    // x component
    lemma_rot3(b.y, c.x, a.y);
    lemma_rot3(b.y, c.y, a.x);
    lemma_rot3(b.z, c.z, a.x);
    lemma_rot3(b.z, c.x, a.z);
    lemma_rot3(c.y, a.x, b.y);
    lemma_rot3(c.y, a.y, b.x);
    lemma_rot3(c.z, a.z, b.x);
    lemma_rot3(c.z, a.x, b.z);
    // y component
    lemma_rot3(b.z, c.y, a.z);
    lemma_rot3(b.z, c.z, a.y);
    lemma_rot3(b.x, c.x, a.y);
    lemma_rot3(b.x, c.y, a.x);
    lemma_rot3(c.z, a.y, b.z);
    lemma_rot3(c.z, a.z, b.y);
    lemma_rot3(c.x, a.x, b.y);
    lemma_rot3(c.x, a.y, b.x);
    // z component
    lemma_rot3(b.x, c.z, a.x);
    lemma_rot3(b.x, c.x, a.z);
    lemma_rot3(b.y, c.y, a.z);
    lemma_rot3(b.y, c.z, a.y);
    lemma_rot3(c.x, a.z, b.x);
    lemma_rot3(c.x, a.x, b.z);
    lemma_rot3(c.y, a.y, b.z);
    lemma_rot3(c.y, a.z, b.y);
}

/// The scalar triple product is invariant under cyclic rotation of its
/// arguments, in its exact form.
pub proof fn lemma_triple_product_cyclic(a: V3, b: V3, c: V3)
    ensures
        dot_exact(a, cross_exact(b, c)) == dot_exact(b, cross_exact(c, a)),
        dot_exact(b, cross_exact(c, a)) == dot_exact(c, cross_exact(a, b)),
{
    broadcast use vstd::arithmetic::mul::group_mul_is_distributive;

    lemma_rot3(b.x, c.y, a.z);
    lemma_rot3(b.x, c.z, a.y);
    lemma_rot3(b.y, c.z, a.x);
    lemma_rot3(b.y, c.x, a.z);
    lemma_rot3(b.z, c.x, a.y);
    lemma_rot3(b.z, c.y, a.x);
    lemma_rot3(c.x, a.y, b.z);
    lemma_rot3(c.x, a.z, b.y);
    lemma_rot3(c.y, a.z, b.x);
    lemma_rot3(c.y, a.x, b.z);
    lemma_rot3(c.z, a.x, b.y);
    lemma_rot3(c.z, a.y, b.x);
}

} // verus!
