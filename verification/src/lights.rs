//! Light sources: a scene-wide ambient light and point lights with diffuse
//! and specular colors, a strength multiplier, and a shadow-hardness
//! coefficient that controls how sharply the soft-shadow penumbra falls off.

use vstd::prelude::*;

verus! {

use crate::color::Color;
use crate::fixed::Fx;
use crate::vec3::Point3;

/// The scene-wide ambient light color.
#[derive(Clone, Copy, Debug, PartialEq, Eq, Structural)]
pub struct AmbientLight(pub Color);

impl AmbientLight {
    pub fn new(c: Color) -> (r: AmbientLight)
        ensures
            r.0 == c,
    {
        AmbientLight(c)
    }
}

/// A point light.
#[derive(Clone, Copy, Debug, PartialEq, Eq, Structural)]
pub struct Light {
    pub location: Point3,
    pub specular: Color,
    pub diffuse: Color,
    pub strength: Fx,
    pub shadow_hardness: Fx,
}

} // verus!
