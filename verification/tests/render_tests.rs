use raymarcher_rs::camera::Camera;
use raymarcher_rs::fixed::Fx;
use raymarcher_rs::trig::{cos, sin, to_radians};
use raymarcher_rs::lights::{AmbientLight, Light};
use raymarcher_rs::material::{Material, MaterialList};
use raymarcher_rs::render::generate_pixel;
use raymarcher_rs::scene::{ConstantBackground, Scene, SceneMap, VerticalGradientBackground};
use raymarcher_rs::sdf::{Sphere, WithMaterial};
use raymarcher_rs::vec3::{Point3, Vec3};
use raymarcher_rs::{render, Color, Config, ImageSettings, Ray, RGBColor, RenderSettings};
use raymarcher_rs::scene::Background;

fn fx(n: i64, d: i64) -> Fx {
    Fx::from_ratio(n, d)
}

#[test]
fn convert_to_byte_clamps_and_truncates() {
    assert_eq!(RGBColor::convert_to_rgb_byte(fx(-1, 2)), 0);
    assert_eq!(RGBColor::convert_to_rgb_byte(Fx::from_int(2)), 255);
    assert_eq!(RGBColor::convert_to_rgb_byte(fx(1, 2)), 127);
    assert_eq!(RGBColor::convert_to_rgb_byte(Fx::zero()), 0);
    assert_eq!(RGBColor::convert_to_rgb_byte(Fx::one()), 255);
}

#[test]
fn from_color_quantizes_each_channel() {
    let c = Color::new(fx(-1, 2), fx(1, 2), Fx::from_int(3));
    let q = RGBColor::from_color(c);
    assert_eq!(q.r, 0);
    assert_eq!(q.g, 127);
    assert_eq!(q.b, 255);
}

#[test]
fn camera_center_ray_points_at_the_target() {
    let camera = Camera::new(
        Point3::origin(),
        Point3::new(Fx::zero(), Fx::zero(), Fx::from_int(5)),
        Vec3::new(Fx::zero(), Fx::one(), Fx::zero()),
        Fx::from_int(90),
        Fx::from_int(1),
    );
    let ray = camera.get_ray(fx(1, 2), fx(1, 2));
    assert_eq!(
        ray.direction().as_vec(),
        Vec3::new(Fx::zero(), Fx::zero(), Fx::from_int(-1)),
    );
}

#[test]
fn gradient_background_interpolates_by_height() {
    let bg = VerticalGradientBackground {
        from: Color::new(Fx::one(), Fx::one(), Fx::one()),
        to: Color::new(fx(1, 2), fx(7, 10), Fx::one()),
    };
    let up = Ray::new(
        Point3::origin(),
        Vec3::new(Fx::zero(), Fx::one(), Fx::zero()).unit(),
    );
    let down = Ray::new(
        Point3::origin(),
        Vec3::new(Fx::zero(), Fx::from_int(-1), Fx::zero()).unit(),
    );
    assert_eq!(bg.value_at(&up), bg.to);
    assert_eq!(bg.value_at(&down), bg.from);
}

fn test_scene() -> (Config, Scene<WithMaterial<Sphere>, ConstantBackground>) {
    let mut materials = MaterialList::new();
    let red = materials.insert(Material::new(
        Color::new(fx(5, 10), fx(5, 10), fx(5, 10)),
        Color::new(fx(9, 10), fx(1, 10), fx(1, 10)),
        Color::new(fx(9, 10), fx(1, 10), fx(1, 10)),
        10,
        fx(3, 10),
    ));

    let config = Config::new(
        ImageSettings::new(11, 11),
        RenderSettings::new(
            fx(1, 1000),
            Fx::from_int(100),
            fx(1, 10000),
            200,
            5,
            None,
        ),
    );

    let camera = Camera::new(
        Point3::origin(),
        Point3::new(Fx::zero(), Fx::zero(), Fx::from_int(5)),
        Vec3::new(Fx::zero(), Fx::one(), Fx::zero()),
        Fx::from_int(90),
        Fx::from_int(1),
    );

    let sdf = WithMaterial::new(Sphere::new(Fx::one(), Point3::origin()), red);

    let lights = vec![Light {
        location: Point3::new(Fx::from_int(5), Fx::from_int(5), Fx::from_int(5)),
        specular: Color::new(fx(4, 10), fx(4, 10), fx(4, 10)),
        diffuse: Color::new(fx(6, 10), fx(6, 10), fx(6, 10)),
        strength: Fx::from_int(2),
        shadow_hardness: Fx::from_int(8),
    }];

    let scene = Scene {
        camera,
        scene_map: SceneMap {
            sdf,
            materials,
            ambient_light: AmbientLight::new(Color::new(fx(2, 10), fx(2, 10), fx(2, 10))),
            lights,
        },
        background: ConstantBackground { color: Color::new(fx(1, 10), fx(2, 10), fx(8, 10)) },
    };

    (config, scene)
}

#[test]
fn end_to_end_scene_center_differs_from_background() {
    let (config, scene) = test_scene();
    let pixels = render(&config, &scene);
    assert_eq!(pixels.len(), 121);

    // the corner ray misses the sphere and lands on the background
    let corner = pixels[0];
    assert_eq!(corner, Color::new(fx(1, 10), fx(2, 10), fx(8, 10)));

    // the center ray (row 5 from the bottom of an 11-row frame, column 5)
    // hits the sphere and shades differently
    let center = pixels[(11 - 1 - 5) * 11 + 5];
    assert_ne!(center, corner);
}

#[test]
fn generate_pixel_miss_returns_background() {
    let (config, scene) = test_scene();
    let ray = Ray::new(
        Point3::new(Fx::zero(), Fx::zero(), Fx::from_int(5)),
        Vec3::new(Fx::zero(), Fx::one(), Fx::zero()).unit(),
    );
    let c = generate_pixel(&ray, &config.render_settings, &scene, 5);
    assert_eq!(c, scene.background.color);
}

#[test]
fn generate_pixel_depth_zero_is_black() {
    let (config, scene) = test_scene();
    let ray = Ray::new(
        Point3::new(Fx::zero(), Fx::zero(), Fx::from_int(5)),
        Vec3::new(Fx::zero(), Fx::zero(), Fx::from_int(-1)).unit(),
    );
    let c = generate_pixel(&ray, &config.render_settings, &scene, 0);
    assert_eq!(c, Color::black());
}

#[test]
fn material_override_forces_every_hit() {
    let (config, scene) = test_scene();
    let mut materials = MaterialList::new();
    let _ = materials.insert(Material::default());
    // an override pointing past the registry shades with the magenta default
    let rs = RenderSettings::new(
        config.render_settings.find_target_settings.t_min,
        config.render_settings.find_target_settings.t_max,
        config.render_settings.find_target_settings.epsilon,
        200,
        1,
        Some(raymarcher_rs::material::MaterialIndex(99)),
    );
    let ray = Ray::new(
        Point3::new(Fx::zero(), Fx::zero(), Fx::from_int(5)),
        Vec3::new(Fx::zero(), Fx::zero(), Fx::from_int(-1)).unit(),
    );
    let with_override = generate_pixel(&ray, &rs, &scene, 1);
    let without = generate_pixel(&ray, &config.render_settings, &scene, 1);
    assert_ne!(with_override, without);
}

#[test]
fn trig_matches_known_points() {
    let margin = fx(1, 1000);
    assert_eq!(sin(Fx::zero()), Fx::zero());
    assert_eq!(cos(Fx::zero()), Fx::one());
    let right_angle = to_radians(Fx::from_int(90));
    assert!(sin(right_angle).sub(Fx::one()).abs().le(margin));
    assert!(cos(right_angle).abs().le(margin));
    let half_turn = to_radians(Fx::from_int(180));
    assert!(sin(half_turn).abs().le(margin));
    assert!(cos(half_turn).add(Fx::one()).abs().le(margin));
}
