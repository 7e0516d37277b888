//! The frame driver and the illumination model.
//!
//! `render` walks the image top row first, left to right, one shaded color
//! per pixel; `generate_pixel` traces a primary ray and recurses for mirror
//! reflection with a hard depth counter; `phong` sums the ambient term and
//! each light's shadow-attenuated diffuse and specular terms. Every function
//! is pinned to a spec mirror, so the color of each pixel in the returned
//! sequence is determined by the scene alone.

use vstd::prelude::*;

verus! {

use vstd::arithmetic::div_mod::lemma_fundamental_div_mod_converse;
use vstd::arithmetic::mul::{lemma_mul_is_commutative, lemma_mul_is_distributive_sub_other_way};
use crate::color::{Color, cmul_vv};
use crate::fixed::{Fx, int_v, mul_v, div_v, pow_v};
use crate::lights::{AmbientLight, Light};
use crate::material::{Material, MaterialIndex, MaterialV, default_material_v};
use crate::camera::{Camera, ray_dir_v};
use crate::ray::{Ray, FindTargetSettings, find_target_v, shadow_v, corrected_t_max_v};
use crate::scene::{Background, Scene};
use crate::sdf::{Sdf, estimate_normal, normal_v};
use crate::vec3::{V3, Point3, v3_zero, add_vv, sub_vv, scale_vv, dot_v, len_v, unit_vv,
    reflect_v};
use crate::{Config, RenderSettings};

/// The material a hit shades with: the override if one is configured, else
/// the hit's own tag, resolved against the registry; unresolvable tags fall
/// back to the diagnostic default.
pub open spec fn resolve_material_v(
    materials: Seq<Material>,
    override_m: Option<MaterialIndex>,
    hit_m: Option<MaterialIndex>,
) -> MaterialV {
    let midx = if override_m is Some {
        override_m
    } else {
        hit_m
    };
    match midx {
        Some(m) => if m.0 < materials.len() {
            materials[m.0 as int]@
        } else {
            default_material_v()
        },
        None => default_material_v(),
    }
}

/// One light's shadow attenuation at `pt`: its strength times the soft
/// shadow of the ray from `pt` toward the light, traced with the trace
/// settings' departure depth and epsilon but with the travel limit set to
/// the (corrected) distance to the light.
pub open spec fn light_factor_v<S: Sdf>(s: S, l: Light, pt: V3, fts: FindTargetSettings) -> int {
    let dir = sub_vv(l.location@, pt);
    mul_v(
        l.strength.val(),
        shadow_v(
            s,
            pt,
            unit_vv(dir),
            fts.t_min.val(),
            fts.epsilon.val(),
            corrected_t_max_v(len_v(dir), fts.epsilon.val()),
            l.shadow_hardness.val(),
            int_v(1),
            fts.max_steps as nat,
        ),
    )
}

/// One light's contribution at `pt`: the diffuse and specular Phong terms,
/// each zero when its cosine is not positive, scaled by the light's shadow
/// attenuation.
pub open spec fn light_term_v<S: Sdf>(
    s: S,
    l: Light,
    pt: V3,
    normal: V3,
    view_dir: V3,
    mat: MaterialV,
    fts: FindTargetSettings,
) -> V3 {
    let factor = light_factor_v(s, l, pt, fts);
    let l_unit = unit_vv(sub_vv(l.location@, pt));
    let ldn = dot_v(l_unit, normal);
    let refl = sub_vv(scale_vv(normal, mul_v(int_v(2), ldn)), l_unit);
    let diffuse = if ldn > 0 {
        scale_vv(cmul_vv(mat.diffuse, l.diffuse@), ldn)
    } else {
        v3_zero()
    };
    let sd = dot_v(refl, view_dir);
    let specular = if sd > 0 && ldn > 0 {
        scale_vv(cmul_vv(mat.specular, l.specular@), pow_v(sd, mat.shininess))
    } else {
        v3_zero()
    };
    scale_vv(add_vv(diffuse, specular), factor)
}

/// The sum of the first `n` lights' contributions, in order.
pub open spec fn lights_sum_v<S: Sdf>(
    s: S,
    lights: Seq<Light>,
    n: nat,
    pt: V3,
    normal: V3,
    view_dir: V3,
    mat: MaterialV,
    fts: FindTargetSettings,
) -> V3
    decreases n,
{
    if n == 0 {
        v3_zero()
    } else {
        add_vv(
            lights_sum_v(s, lights, (n - 1) as nat, pt, normal, view_dir, mat, fts),
            light_term_v(s, lights[n - 1], pt, normal, view_dir, mat, fts),
        )
    }
}

/// The Phong illumination at `pt`: the ambient product plus every light's
/// shadow-attenuated contribution, with the normal estimated from the field
/// and the view direction taken from the camera origin.
pub open spec fn phong_v<S: Sdf>(
    s: S,
    camera: Camera,
    ambient_light: AmbientLight,
    lights: Seq<Light>,
    mat: MaterialV,
    pt: V3,
    fts: FindTargetSettings,
) -> V3 {
    let normal = normal_v(s, pt);
    let view_dir = unit_vv(sub_vv(camera.origin@, pt));
    add_vv(
        cmul_vv(ambient_light.0@, mat.ambient),
        lights_sum_v(s, lights, lights.len(), pt, normal, view_dir, mat, fts),
    )
}

/// The color of the ray `(o, d)`: black once the recursion budget is spent;
/// the background where the trace misses; otherwise the Phong contribution
/// of the hit plus, for reflective materials, the recursive color of the
/// mirror child ray scaled by the reflectivity.
pub open spec fn pixel_v<S: Sdf, B: Background>(
    scene: Scene<S, B>,
    rs: RenderSettings,
    o: V3,
    d: V3,
    depth: nat,
) -> V3
    decreases depth,
{
    if depth == 0 {
        v3_zero()
    } else {
        match find_target_v(
            scene.scene_map.sdf,
            o,
            d,
            rs.find_target_settings.t_min.val(),
            rs.find_target_settings.epsilon.val(),
            rs.find_target_settings.t_max.val(),
            rs.find_target_settings.max_steps as nat,
        ) {
            None => scene.background.color_at(o, d),
            Some(hit) => {
                let pt = hit.0;
                let mat = resolve_material_v(
                    scene.scene_map.materials@,
                    rs.material_override,
                    hit.1,
                );
                let ph = phong_v(
                    scene.scene_map.sdf,
                    scene.camera,
                    scene.scene_map.ambient_light,
                    scene.scene_map.lights@,
                    mat,
                    pt,
                    rs.find_target_settings,
                );
                let refl = if mat.reflectivity > 0 {
                    let child_d = unit_vv(reflect_v(d, normal_v(scene.scene_map.sdf, pt)));
                    scale_vv(pixel_v(scene, rs, pt, child_d, (depth - 1) as nat), mat.reflectivity)
                } else {
                    v3_zero()
                };
                add_vv(ph, refl)
            },
        }
    }
}

/// The color of the pixel in row `j` from the bottom, column `i`: the pixel's
/// normalized viewport coordinates are `i / (width - 1)` and
/// `j / (height - 1)`, and its primary ray leaves the camera through them.
pub open spec fn pixel_coord_v<S: Sdf, B: Background>(
    config: Config,
    scene: Scene<S, B>,
    j: int,
    i: int,
) -> V3 {
    let u = div_v(int_v(i), int_v(config.image_settings.width as int - 1));
    let v = div_v(int_v(j), int_v(config.image_settings.height as int - 1));
    let d = ray_dir_v(scene.camera, u, v);
    pixel_v(
        scene,
        config.render_settings,
        scene.camera.origin@,
        d,
        config.render_settings.max_recursions as nat,
    )
}

/// The shadow attenuation of every light at `p`, in the lights' order.
pub fn find_light_factors<S: Sdf>(
    lights: &Vec<Light>,
    p: &Point3,
    sdf: &S,
    find_target_settings: &FindTargetSettings,
) -> (factors: Vec<Fx>)
    ensures
        factors@.len() == lights@.len(),
        forall|i: int|
            0 <= i < lights@.len() ==> (#[trigger] factors@[i]).val() == light_factor_v(
                *sdf,
                lights@[i],
                p@,
                *find_target_settings,
            ),
{
    let mut factors: Vec<Fx> = Vec::new();
    let mut i: usize = 0;
    while i < lights.len()
        invariant
            i <= lights@.len(),
            factors@.len() == i,
            forall|m: int|
                0 <= m < i ==> (#[trigger] factors@[m]).val() == light_factor_v(
                    *sdf,
                    lights@[m],
                    p@,
                    *find_target_settings,
                ),
        decreases lights@.len() - i,
    {
        let l = lights[i];
        let direction = l.location.sub(*p);
        let settings = FindTargetSettings::new(
            find_target_settings.t_min,
            direction.length(),
            find_target_settings.epsilon,
            find_target_settings.max_steps,
        );
        let r = Ray::new(*p, direction.unit());
        factors.push(l.strength.mul(r.soft_shadow(&settings, sdf, l.shadow_hardness)));
        i = i + 1;
    }
    factors
}

/// The Phong illumination of the point `point`, seen from the camera of
/// `scene`, under every light of the scene.
#[verifier::loop_isolation(false)]
pub fn phong<S: Sdf, B: Background>(
    _ray: &Ray,
    material: &Material,
    scene: &Scene<S, B>,
    point: &Point3,
    find_target_settings: &FindTargetSettings,
) -> (c: Color)
    ensures
        c@ == phong_v(
            scene.scene_map.sdf,
            scene.camera,
            scene.scene_map.ambient_light,
            scene.scene_map.lights@,
            material@,
            point@,
            *find_target_settings,
        ),
{
    let normal = estimate_normal(&scene.scene_map.sdf, point);
    let view_dir = scene.camera.origin.sub(*point).unit();
    let factors = find_light_factors(
        &scene.scene_map.lights,
        point,
        &scene.scene_map.sdf,
        find_target_settings,
    );
    let ambient_contribution = scene.scene_map.ambient_light.0.mul(material.ambient());

    let mut total = Color::black();
    let mut i: usize = 0;
    while i < scene.scene_map.lights.len()
        invariant
            i <= scene.scene_map.lights@.len(),
            total@ == lights_sum_v(
                scene.scene_map.sdf,
                scene.scene_map.lights@,
                i as nat,
                point@,
                normal@,
                view_dir@,
                material@,
                *find_target_settings,
            ),
        decreases scene.scene_map.lights@.len() - i,
    {
        let l = scene.scene_map.lights[i];
        let factor = factors[i];
        let l_unit = l.location.sub(*point).unit();
        let l_dot_normal = l_unit.as_vec().dot(normal.as_vec());
        let refl = normal.as_vec().scale(Fx::from_int(2).mul(l_dot_normal)).sub(l_unit.as_vec());
        let diffuse = if Fx::zero().lt(l_dot_normal) {
            material.diffuse().mul(l.diffuse).scale(l_dot_normal)
        } else {
            Color::black()
        };
        let specular_dot = refl.dot(view_dir.as_vec());
        let specular = if Fx::zero().lt(specular_dot) && Fx::zero().lt(l_dot_normal) {
            material.specular().mul(l.specular).scale(specular_dot.powi(material.shininess()))
        } else {
            Color::black()
        };
        total = total.add(diffuse.add(specular).scale(factor));
        i = i + 1;
    }
    ambient_contribution.add(total)
}

/// The color seen along `ray`: background on a miss, Phong plus bounded
/// mirror recursion on a hit, black when the recursion budget is spent.
pub fn generate_pixel<S: Sdf, B: Background>(
    ray: &Ray,
    render_settings: &RenderSettings,
    scene: &Scene<S, B>,
    remaining_depth: u32,
) -> (c: Color)
    ensures
        c@ == pixel_v(
            *scene,
            *render_settings,
            ray.origin@,
            ray.direction@,
            remaining_depth as nat,
        ),
    decreases remaining_depth,
{
    if remaining_depth == 0 {
        return Color::black();
    }
    match ray.find_target(&render_settings.find_target_settings, &scene.scene_map.sdf) {
        None => scene.background.value_at(ray),
        Some(ftr) => {
            let mat_idx = if render_settings.material_override.is_some() {
                render_settings.material_override
            } else {
                ftr.material_index
            };
            let material = match mat_idx {
                Some(m) => match scene.scene_map.materials.get(m) {
                    Some(found) => *found,
                    None => Material::default(),
                },
                None => Material::default(),
            };

            let phong_contribution = phong(
                ray,
                &material,
                scene,
                &ftr.point,
                &render_settings.find_target_settings,
            );

            let reflection_contribution = if Fx::zero().lt(material.reflectivity()) {
                match material.child_ray(&scene.scene_map.sdf, &ftr.point, ray) {
                    Some(child) => generate_pixel(
                        &child,
                        render_settings,
                        scene,
                        remaining_depth - 1,
                    ).scale(material.reflectivity()),
                    None => Color::black(),
                }
            } else {
                Color::black()
            };

            phong_contribution.add(reflection_contribution)
        },
    }
}

/// Render the whole frame: one color per pixel, rows emitted top to bottom
/// and columns left to right, so the pixel at index `k` is the one in row
/// `height - 1 - k / width` from the bottom, column `k % width`.
#[verifier::loop_isolation(false)]
pub fn render<S: Sdf, B: Background>(config: &Config, scene: &Scene<S, B>) -> (pixels: Vec<Color>)
    requires
        config.image_settings.width < 0x8000000000000000,
        config.image_settings.height < 0x8000000000000000,
    ensures
        pixels@.len() == config.image_settings.width * config.image_settings.height,
        forall|k: int|
            0 <= k < pixels@.len() ==> (#[trigger] pixels@[k])@ == pixel_coord_v(
                *config,
                *scene,
                config.image_settings.height - 1 - k / (config.image_settings.width as int),
                k % (config.image_settings.width as int),
            ),
{
    let width = config.image_settings.width;
    let height = config.image_settings.height;
    let mut pixels: Vec<Color> = Vec::new();
    proof {
        lemma_mul_is_commutative(width as int, height as int);
    }
    let mut row: usize = height;
    while row > 0
        invariant
            row <= height,
            pixels@.len() == (height - row) * (width as int),
            forall|k: int|
                0 <= k < pixels@.len() ==> (#[trigger] pixels@[k])@ == pixel_coord_v(
                    *config,
                    *scene,
                    config.image_settings.height - 1 - k / (config.image_settings.width as int),
                    k % (config.image_settings.width as int),
                ),
        decreases row,
    {
        let j = row - 1;
        let mut i: usize = 0;
        while i < width
            invariant
                i <= width,
                1 <= row <= height,
                j == row - 1,
                pixels@.len() == (height - row) * (width as int) + i,
                forall|k: int|
                    0 <= k < pixels@.len() ==> (#[trigger] pixels@[k])@ == pixel_coord_v(
                        *config,
                        *scene,
                        config.image_settings.height - 1 - k / (config.image_settings.width as int),
                        k % (config.image_settings.width as int),
                    ),
            decreases width - i,
        {
            let u = Fx::from_int(i as i64).div(Fx::from_int((width - 1) as i64));
            let v = Fx::from_int(j as i64).div(Fx::from_int((height - 1) as i64));
            let ray = scene.camera.get_ray(u, v);
            let c = generate_pixel(
                &ray,
                &config.render_settings,
                scene,
                config.render_settings.max_recursions,
            );
            pixels.push(c);
            proof {
                let w = width as int;
                let k = pixels@.len() - 1;
                assert(k == (height - row) * w + i);
                assert((height - row) * w == (height - 1 - j) * w);
                lemma_fundamental_div_mod_converse(k, w, height - 1 - j, i as int);
                assert(c@ == pixel_coord_v(*config, *scene, height - 1 - k / w, k % w));
            }
            i = i + 1;
        }
        proof {
            lemma_mul_is_distributive_sub_other_way(
                width as int,
                height - row + 1,
                height - row,
            );
            vstd::arithmetic::mul::lemma_mul_basics(width as int);
        }
        row = row - 1;
    }
    pixels
}

} // verus!
