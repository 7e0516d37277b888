//! A signed-distance-field ray-marching renderer.
//!
//! A scene is a composable implicit-surface expression (primitives,
//! combinators, positioners, material tags), a camera, lights and materials;
//! `render` sphere-traces one ray per pixel through the field and evaluates
//! a Phong illumination model with soft shadows and bounded mirror
//! recursion at the surface it finds.
//!
//! All arithmetic runs over the saturating fixed-point scalar of
//! `crate::fixed`, and every function's contract pins its result to a spec
//! mirror of the computation, down to grid rounding.

#![allow(unused_imports)]
use vstd::prelude::*;

pub mod camera;
pub mod color;
pub mod fixed;
pub mod lights;
pub mod material;
pub mod quaternion;
pub mod ray;
pub mod render;
pub mod scene;
pub mod sdf;
pub mod trig;
pub mod vec3;

pub use color::Color;
pub use ray::Ray;
pub use render::render;
pub use vec3::{Point3, UnitVec3, Vec3};

verus! {

use crate::fixed::{Fx, SCALE, fdiv, mul_v, ratio_v};
use crate::material::MaterialIndex;
use crate::ray::FindTargetSettings;

/// The frame's pixel dimensions.
#[derive(Clone, Copy, Debug, PartialEq, Eq, Structural)]
pub struct ImageSettings {
    pub width: usize,
    pub height: usize,
}

impl ImageSettings {
    pub fn new(width: usize, height: usize) -> (r: ImageSettings)
        ensures
            r.width == width,
            r.height == height,
    {
        ImageSettings { width, height }
    }
}

/// Everything that tunes one render: the tracer's stopping rules, the
/// mirror-recursion cap, and an optional material override that replaces
/// every hit's tag (a debugging aid).
#[derive(Clone, Copy, Debug)]
pub struct RenderSettings {
    pub find_target_settings: FindTargetSettings,
    pub max_recursions: u32,
    pub material_override: Option<MaterialIndex>,
}

impl RenderSettings {
    pub fn new(
        t_min: Fx,
        t_max: Fx,
        epsilon: Fx,
        max_marching_steps: u32,
        max_light_recursions: u32,
        material_override: Option<MaterialIndex>,
    ) -> (r: RenderSettings)
        ensures
            r.find_target_settings.t_min == t_min,
            r.find_target_settings.t_max == t_max,
            r.find_target_settings.epsilon == epsilon,
            r.find_target_settings.max_steps == max_marching_steps,
            r.max_recursions == max_light_recursions,
            r.material_override == material_override,
    {
        RenderSettings {
            find_target_settings: FindTargetSettings::new(t_min, t_max, epsilon, max_marching_steps),
            max_recursions: max_light_recursions,
            material_override,
        }
    }
}

/// The image dimensions and the render settings of one frame.
#[derive(Clone, Copy, Debug)]
pub struct Config {
    pub image_settings: ImageSettings,
    pub render_settings: RenderSettings,
}

impl Config {
    pub fn new(image_settings: ImageSettings, render_settings: RenderSettings) -> (r: Config)
        ensures
            r.image_settings == image_settings,
            r.render_settings == render_settings,
    {
        Config { image_settings, render_settings }
    }
}

/// The 8-bit quantization of one color channel: the channel scaled by
/// `255.999`, truncated to a whole number, and clamped into `0..=255`.
pub open spec fn byte_v(x: int) -> int {
    let whole = fdiv(mul_v(x, ratio_v(255999, 1000)), SCALE as int);
    if whole > 255 {
        255
    } else if whole < 0 {
        0
    } else {
        whole
    }
}

/// A quantized 8-bit-per-channel color, ready for an image writer.
#[derive(Clone, Copy, Debug, PartialEq, Eq, Structural)]
pub struct RGBColor {
    pub r: u8,
    pub g: u8,
    pub b: u8,
}

impl RGBColor {
    /// Quantize one channel to a byte.
    pub fn convert_to_rgb_byte(f: Fx) -> (b: u8)
        ensures
            b as int == byte_v(f.val()),
    {
        let res = f.mul(Fx::from_ratio(255999, 1000));
        let whole = res.to_int_floor();
        if whole > 255 {
            255
        } else if whole < 0 {
            0
        } else {
            whole as u8
        }
    }

    /// Quantize a color to three bytes.
    pub fn from_color(c: Color) -> (r: RGBColor)
        ensures
            r.r as int == byte_v(c@.x),
            r.g as int == byte_v(c@.y),
            r.b as int == byte_v(c@.z),
    {
        RGBColor {
            r: RGBColor::convert_to_rgb_byte(c.r()),
            g: RGBColor::convert_to_rgb_byte(c.g()),
            b: RGBColor::convert_to_rgb_byte(c.b()),
        }
    }
}

} // verus!
