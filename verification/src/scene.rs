//! Scenes: a camera, the geometry tree with its materials and lights, and a
//! background that colors the rays that miss everything.

use vstd::prelude::*;

verus! {

use crate::camera::Camera;
use crate::color::Color;
use crate::fixed::{Fx, SCALE, add_v, sub_v, mul_v, ratio_v};
use crate::lights::{AmbientLight, Light};
use crate::material::MaterialList;
use crate::ray::Ray;
use crate::vec3::{V3, add_vv, scale_vv, unit_vv};

/// The geometry of a scene: the distance-field root, the material registry,
/// and the lights.
pub struct SceneMap<S> {
    pub sdf: S,
    pub materials: MaterialList,
    pub ambient_light: AmbientLight,
    pub lights: Vec<Light>,
}

/// A full scene: camera, geometry, background. Read-only during rendering.
pub struct Scene<S, B> {
    pub camera: Camera,
    pub scene_map: SceneMap<S>,
    pub background: B,
}

/// What a ray that misses every surface resolves to.
pub trait Background: Sized {
    /// The color this background gives a ray with origin `o` and unit
    /// direction `d`.
    spec fn color_at(self, o: V3, d: V3) -> V3;

    fn value_at(&self, r: &Ray) -> (c: Color)
        ensures
            c@ == self.color_at(r.origin@, r.direction@),
    ;
}

/// A vertical gradient: interpolates between two colors by the ray
/// direction's vertical component, mapped from `[-1, 1]` to `[0, 1]`.
pub struct VerticalGradientBackground {
    pub from: Color,
    pub to: Color,
}

impl Background for VerticalGradientBackground {
    open spec fn color_at(self, o: V3, d: V3) -> V3 {
        let t = mul_v(ratio_v(1, 2), add_v(unit_vv(d).y, SCALE as int));
        add_vv(scale_vv(self.from@, sub_v(SCALE as int, t)), scale_vv(self.to@, t))
    }

    fn value_at(&self, r: &Ray) -> (c: Color) {
        let t = Fx::from_ratio(1, 2).mul(r.direction.as_vec().unit().as_vec().y.add(Fx::one()));
        self.from.scale(Fx::one().sub(t)).add(self.to.scale(t))
    }
}

/// A flat background color.
pub struct ConstantBackground {
    pub color: Color,
}

impl Background for ConstantBackground {
    open spec fn color_at(self, o: V3, d: V3) -> V3 {
        self.color@
    }

    fn value_at(&self, r: &Ray) -> (c: Color) {
        self.color
    }
}

} // verus!
