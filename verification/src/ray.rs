//! Rays and the sphere tracer.
//!
//! `find_target` advances a ray by the signed distance the field reports,
//! stopping at the first sample whose distance magnitude drops below the hit
//! epsilon, at the travel limit `t_max`, or when the step budget runs out.
//! The walk always steps by the raw signed distance (never its magnitude):
//! approaching a surface decelerates naturally, and a sample inside a solid
//! steps backward.
//!
//! `soft_shadow` walks the same way but accumulates the running minimum of
//! `hardness * distance / traveled` into a penumbra factor, short-circuiting
//! to zero when a step's signed distance drops below the epsilon. Both loops
//! are pinned to the recursive spec functions `march_v` and `shadow_v` that
//! replay the walk step for step.

use vstd::prelude::*;

verus! {

use crate::fixed::{Fx, SCALE, abs_v, add_v, sub_v, mul_v, div_v, min_v, int_v};
use crate::material::MaterialIndex;
use crate::sdf::Sdf;
use crate::vec3::{V3, Vec3, UnitVec3, Point3, add_vv, scale_vv, unit_vv};

/// The stopping rules of one trace: departure depth, travel limit, hit
/// epsilon, and the step budget that truncates the otherwise unbounded walk.
#[derive(Clone, Copy, Debug)]
pub struct FindTargetSettings {
    pub t_min: Fx,
    pub t_max: Fx,
    pub epsilon: Fx,
    pub max_steps: u32,
}

impl FindTargetSettings {
    pub fn new(t_min: Fx, t_max: Fx, epsilon: Fx, max_steps: u32) -> (r: FindTargetSettings)
        ensures
            r.t_min == t_min,
            r.t_max == t_max,
            r.epsilon == epsilon,
            r.max_steps == max_steps,
    {
        FindTargetSettings { t_min, t_max, epsilon, max_steps }
    }
}

/// A hit: the point reached and the material tag the field reported there.
#[derive(Clone, Copy, Debug)]
pub struct FindTargetResult {
    pub point: Point3,
    pub material_index: Option<MaterialIndex>,
}

/// The point `o + d * t` on a ray.
pub open spec fn ray_at_v(o: V3, d: V3, t: int) -> V3 {
    add_vv(o, scale_vv(d, t))
}

/// The sphere-tracing walk: from depth `t`, either the magnitude of the
/// field's distance at the current point is below `eps` (a hit at depth
/// `t`), or the walk advances by the raw signed distance, until the depth
/// reaches `t_max` or the fuel runs out (a miss either way).
pub open spec fn march_v<S: Sdf>(s: S, o: V3, d: V3, t: int, eps: int, t_max: int, fuel: nat)
    -> Option<int>
    decreases fuel,
{
    if fuel == 0 {
        None
    } else if t >= t_max {
        None
    } else {
        let dist = s.dist_at(ray_at_v(o, d, t));
        if abs_v(dist) < eps {
            Some(t)
        } else {
            march_v(s, o, d, add_v(t, dist), eps, t_max, (fuel - 1) as nat)
        }
    }
}

/// What `find_target` returns: the hit point and its material tag, or `None`
/// exactly when the walk misses.
pub open spec fn find_target_v<S: Sdf>(
    s: S,
    o: V3,
    d: V3,
    t_min: int,
    eps: int,
    t_max: int,
    fuel: nat,
) -> Option<(V3, Option<MaterialIndex>)> {
    match march_v(s, o, d, t_min, eps, t_max, fuel) {
        Some(t) => Some((ray_at_v(o, d, t), s.mat_at(ray_at_v(o, d, t)))),
        None => None,
    }
}

/// The soft-shadow walk: like `march_v`, but a step below `eps` means the
/// light is occluded (factor zero), and every other step lowers the factor
/// to at most `hardness * distance / depth`. Running out of road or fuel
/// returns the factor accumulated so far.
pub open spec fn shadow_v<S: Sdf>(
    s: S,
    o: V3,
    d: V3,
    t: int,
    eps: int,
    t_max: int,
    k: int,
    acc: int,
    fuel: nat,
) -> int
    decreases fuel,
{
    if fuel == 0 {
        acc
    } else if t >= t_max {
        acc
    } else {
        let dist = s.dist_at(ray_at_v(o, d, t));
        if dist < eps {
            0
        } else {
            shadow_v(
                s,
                o,
                d,
                add_v(t, dist),
                eps,
                t_max,
                k,
                min_v(acc, div_v(mul_v(k, dist), t)),
                (fuel - 1) as nat,
            )
        }
    }
}

/// The travel limit of a shadow ray, pulled in by `1 - 3 eps` so the walk
/// does not rediscover the surface the ray departs from.
pub open spec fn corrected_t_max_v(t_max: int, eps: int) -> int {
    mul_v(t_max, sub_v(int_v(1), mul_v(int_v(3), eps)))
}

/// What `soft_shadow` returns for a ray with the given settings and
/// hardness `k`: the shadow walk from `t_min`, starting fully lit.
pub open spec fn soft_shadow_v<S: Sdf>(s: S, o: V3, d: V3, fts: FindTargetSettings, k: int)
    -> int {
    shadow_v(
        s,
        o,
        d,
        fts.t_min.val(),
        fts.epsilon.val(),
        corrected_t_max_v(fts.t_max.val(), fts.epsilon.val()),
        k,
        int_v(1),
        fts.max_steps as nat,
    )
}

/// A ray: an origin and a unit direction, immutable once constructed.
#[derive(Clone, Copy, Debug)]
pub struct Ray {
    pub origin: Point3,
    pub direction: UnitVec3,
}

impl Ray {
    pub fn new(origin: Point3, direction: UnitVec3) -> (r: Ray)
        ensures
            r.origin == origin,
            r.direction == direction,
    {
        Ray { origin, direction }
    }

    /// Build a ray from an arbitrary direction vector, normalizing it.
    pub fn new_unnormalized(origin: Point3, unnormalized_direction: Vec3) -> (r: Ray)
        ensures
            r.origin == origin,
            r.direction@ == unit_vv(unnormalized_direction@),
    {
        Ray { origin, direction: unnormalized_direction.unit() }
    }

    pub fn origin(&self) -> (p: Point3)
        ensures
            p == self.origin,
    {
        self.origin
    }

    pub fn direction(&self) -> (d: UnitVec3)
        ensures
            d == self.direction,
    {
        self.direction
    }

    /// Sphere-trace this ray through the field. Returns the first hit —
    /// the sample whose reported distance has magnitude below the epsilon,
    /// with its material tag — or `None` exactly when the walk reaches
    /// `t_max` or exhausts its step budget first. The walk steps by the raw
    /// signed distance, so it backs out of any solid it starts inside of.
    #[verifier::loop_isolation(false)]
    pub fn find_target<S: Sdf>(&self, find_target_settings: &FindTargetSettings, sdf: &S) -> (r:
        Option<FindTargetResult>)
        ensures
            match r {
                Some(ftr) => find_target_v(
                    *sdf,
                    self.origin@,
                    self.direction@,
                    find_target_settings.t_min.val(),
                    find_target_settings.epsilon.val(),
                    find_target_settings.t_max.val(),
                    find_target_settings.max_steps as nat,
                ) == Some((ftr.point@, ftr.material_index)),
                None => find_target_v(
                    *sdf,
                    self.origin@,
                    self.direction@,
                    find_target_settings.t_min.val(),
                    find_target_settings.epsilon.val(),
                    find_target_settings.t_max.val(),
                    find_target_settings.max_steps as nat,
                ) is None,
            },
    {
        let ghost full = march_v(
            *sdf,
            self.origin@,
            self.direction@,
            find_target_settings.t_min.val(),
            find_target_settings.epsilon.val(),
            find_target_settings.t_max.val(),
            find_target_settings.max_steps as nat,
        );
        let mut t: Fx = find_target_settings.t_min;
        let mut fuel: u32 = find_target_settings.max_steps;
        while fuel > 0
            invariant
                march_v(
                    *sdf,
                    self.origin@,
                    self.direction@,
                    t.val(),
                    find_target_settings.epsilon.val(),
                    find_target_settings.t_max.val(),
                    fuel as nat,
                ) == full,
            decreases fuel,
        {
            if !t.lt(find_target_settings.t_max) {
                return None;
            }
            let point = self.origin.add_vec(self.direction.as_vec().scale(t));
            let (dist, mat_idx) = sdf.value_at(&point);
            if dist.abs().lt(find_target_settings.epsilon) {
                return Some(FindTargetResult { point, material_index: mat_idx });
            }
            t = t.add(dist);
            fuel = fuel - 1;
        }
        None
    }

    /// Trace this ray toward a light and accumulate a penumbra factor: the
    /// running minimum of `k * distance / depth` over the walk, zero if the
    /// walk grazes a surface before reaching the (slightly shortened)
    /// target distance.
    #[verifier::loop_isolation(false)]
    pub fn soft_shadow<S: Sdf>(&self, find_target_settings: &FindTargetSettings, sdf: &S, k: Fx)
        -> (r: Fx)
        ensures
            r.val() == soft_shadow_v(
                *sdf,
                self.origin@,
                self.direction@,
                *find_target_settings,
                k.val(),
            ),
    {
        let corrected_t_max = find_target_settings.t_max.mul(
            Fx::one().sub(Fx::from_int(3).mul(find_target_settings.epsilon)),
        );
        let ghost full = soft_shadow_v(
            *sdf,
            self.origin@,
            self.direction@,
            *find_target_settings,
            k.val(),
        );
        let mut acc: Fx = Fx::one();
        let mut t: Fx = find_target_settings.t_min;
        let mut fuel: u32 = find_target_settings.max_steps;
        while fuel > 0
            invariant
                corrected_t_max.val() == corrected_t_max_v(
                    find_target_settings.t_max.val(),
                    find_target_settings.epsilon.val(),
                ),
                shadow_v(
                    *sdf,
                    self.origin@,
                    self.direction@,
                    t.val(),
                    find_target_settings.epsilon.val(),
                    corrected_t_max.val(),
                    k.val(),
                    acc.val(),
                    fuel as nat,
                ) == full,
            decreases fuel,
        {
            if !t.lt(corrected_t_max) {
                return acc;
            }
            let point = self.origin.add_vec(self.direction.as_vec().scale(t));
            let (dist, _) = sdf.value_at(&point);
            if dist.lt(find_target_settings.epsilon) {
                return Fx::zero();
            }
            acc = acc.min(k.mul(dist).div(t));
            t = t.add(dist);
            fuel = fuel - 1;
        }
        acc
    }
}

/// A hit reported by the sphere-tracing walk is genuine: at the returned
/// depth the field's distance has magnitude below the epsilon, and the depth
/// is still short of the travel limit.
pub proof fn lemma_march_hit<S: Sdf>(
    s: S,
    o: V3,
    d: V3,
    t: int,
    eps: int,
    t_max: int,
    fuel: nat,
    t_hit: int,
)
    requires
        march_v(s, o, d, t, eps, t_max, fuel) == Some(t_hit),
    ensures
        abs_v(s.dist_at(ray_at_v(o, d, t_hit))) < eps,
        t_hit < t_max,
    decreases fuel,
{
    if fuel == 0 {
    } else if t >= t_max {
    } else {
        let dist = s.dist_at(ray_at_v(o, d, t));
        if abs_v(dist) < eps {
        } else {
            lemma_march_hit(s, o, d, add_v(t, dist), eps, t_max, (fuel - 1) as nat, t_hit);
        }
    }
}

/// Every step of the shadow walk keeps the accumulated factor within
/// `[0, 1]`: each new candidate `k * dist / t` is nonnegative, and the
/// minimum never rises.
proof fn lemma_shadow_step_bounds<S: Sdf>(
    s: S,
    o: V3,
    d: V3,
    t: int,
    eps: int,
    t_max: int,
    k: int,
    acc: int,
    fuel: nat,
)
    requires
        0 <= t,
        0 < eps,
        0 <= k,
        0 <= acc <= SCALE as int,
    ensures
        0 <= shadow_v(s, o, d, t, eps, t_max, k, acc, fuel) <= SCALE as int,
    decreases fuel,
{
    if fuel == 0 {
    } else if t >= t_max {
    } else {
        let dist = s.dist_at(ray_at_v(o, d, t));
        if dist < eps {
        } else {
            let m = mul_v(k, dist);
            assert(0 <= m) by {
                vstd::arithmetic::mul::lemma_mul_nonnegative(k, dist);
                vstd::arithmetic::div_mod::lemma_div_pos_is_pos(k * dist, SCALE as int);
            }
            let f = div_v(m, t);
            assert(0 <= f) by {
                if t != 0 {
                    vstd::arithmetic::mul::lemma_mul_nonnegative(m, SCALE as int);
                    vstd::arithmetic::div_mod::lemma_div_pos_is_pos(m * (SCALE as int), t);
                }
            }
            lemma_shadow_step_bounds(
                s,
                o,
                d,
                add_v(t, dist),
                eps,
                t_max,
                k,
                min_v(acc, f),
                (fuel - 1) as nat,
            );
        }
    }
}

/// The penumbra factor is conceptually a visibility: for a shadow ray that
/// departs at a nonnegative depth, with a positive epsilon and a nonnegative
/// hardness, `soft_shadow` always lands in `[0, 1]` — zero when fully
/// occluded, one when fully lit.
pub proof fn lemma_soft_shadow_unit_interval<S: Sdf>(
    s: S,
    o: V3,
    d: V3,
    fts: FindTargetSettings,
    k: int,
)
    requires
        fts.t_min.val() >= 0,
        fts.epsilon.val() > 0,
        k >= 0,
    ensures
        0 <= soft_shadow_v(s, o, d, fts, k) <= SCALE as int,
{
    lemma_shadow_step_bounds(
        s,
        o,
        d,
        fts.t_min.val(),
        fts.epsilon.val(),
        corrected_t_max_v(fts.t_max.val(), fts.epsilon.val()),
        k,
        int_v(1),
        fts.max_steps as nat,
    );
}

} // verus!
