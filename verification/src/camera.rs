//! The camera: an orthonormal basis built from look-from / look-at / up, a
//! vertical field of view and an aspect ratio, mapping normalized pixel
//! coordinates `(u, v)` in `[0, 1]` to primary rays.
//!
//! A degenerate configuration (an `up` vector parallel to the view
//! direction, or a field of view at or beyond a straight angle) is not
//! rejected: normalization of a zero cross product yields the zero vector
//! and the saturating arithmetic carries it through, which mirrors silent
//! degeneration rather than a construction failure.

use vstd::prelude::*;

verus! {

use crate::fixed::{Fx, div_v, mul_v, int_v};
use crate::ray::Ray;
use crate::trig::{rad_v, tan_v};
use crate::vec3::{V3, Vec3, Point3, add_vv, sub_vv, scale_vv, unscale_vv, cross_v, unit_vv};

/// The view-space half-height of the viewport: `tan(to_radians(vfov) / 2)`.
pub open spec fn half_height_v(vfov: int) -> int {
    tan_v(div_v(rad_v(vfov), int_v(2)))
}

/// The back vector of the camera basis: from the target toward the eye.
pub open spec fn basis_w_v(look_from: V3, look_at: V3) -> V3 {
    unit_vv(sub_vv(look_from, look_at))
}

/// The right vector of the camera basis.
pub open spec fn basis_u_v(up: V3, w: V3) -> V3 {
    unit_vv(cross_v(up, w))
}

/// The true-up vector of the camera basis.
pub open spec fn basis_v_v(w: V3, u: V3) -> V3 {
    unit_vv(cross_v(w, u))
}

/// The direction of the primary ray through normalized coordinates
/// `(u, v)`: from the origin toward the matching viewport point.
pub open spec fn ray_dir_v(c: Camera, u: int, v: int) -> V3 {
    unit_vv(
        sub_vv(
            add_vv(
                add_vv(c.lower_left_corner@, scale_vv(c.horizontal@, u)),
                scale_vv(c.vertical@, v),
            ),
            c.origin@,
        ),
    )
}

/// A camera: eye position, viewport corner, and viewport spanning vectors.
#[derive(Clone, Copy, Debug)]
pub struct Camera {
    pub origin: Point3,
    pub lower_left_corner: Point3,
    pub horizontal: Vec3,
    pub vertical: Vec3,
}

impl Camera {
    /// Build the camera basis. `vfov` is the vertical field of view in
    /// degrees; `aspect_ratio` is width over height.
    pub fn new(look_at: Point3, look_from: Point3, up: Vec3, vfov: Fx, aspect_ratio: Fx) -> (c:
        Camera)
        ensures
            c.origin == look_from,
            ({
                let w = basis_w_v(look_from@, look_at@);
                let u = basis_u_v(up@, w);
                let v = basis_v_v(w, u);
                let viewport_height = mul_v(int_v(2), half_height_v(vfov.val()));
                let viewport_width = mul_v(aspect_ratio.val(), viewport_height);
                &&& c.horizontal@ == scale_vv(u, viewport_width)
                &&& c.vertical@ == scale_vv(v, viewport_height)
                &&& c.lower_left_corner@ == sub_vv(
                    sub_vv(
                        sub_vv(look_from@, unscale_vv(c.horizontal@, int_v(2))),
                        unscale_vv(c.vertical@, int_v(2)),
                    ),
                    w,
                )
            }),
    {
        let theta = crate::trig::to_radians(vfov);
        let h = crate::trig::tan(theta.div(Fx::from_int(2)));
        let viewport_height = Fx::from_int(2).mul(h);
        let viewport_width = aspect_ratio.mul(viewport_height);

        let w = look_from.sub(look_at).unit();
        let u = up.cross(w.as_vec()).unit();
        let v = w.as_vec().cross(u.as_vec()).unit();

        let horizontal = u.as_vec().scale(viewport_width);
        let vertical = v.as_vec().scale(viewport_height);

        let two = Fx::from_int(2);
        let lower_left_corner = Point3(
            look_from.as_vec().sub(horizontal.unscale(two)).sub(vertical.unscale(two)).sub(
                w.as_vec(),
            ),
        );

        Camera { origin: look_from, lower_left_corner, horizontal, vertical }
    }

    /// The primary ray through normalized viewport coordinates `(u, v)`.
    pub fn get_ray(&self, u: Fx, v: Fx) -> (r: Ray)
        ensures
            r.origin == self.origin,
            r.direction@ == ray_dir_v(*self, u.val(), v.val()),
    {
        let direction = self.lower_left_corner.as_vec().add(self.horizontal.scale(u)).add(
            self.vertical.scale(v),
        ).sub(self.origin.as_vec());
        Ray::new_unnormalized(self.origin, direction)
    }
}

} // verus!
