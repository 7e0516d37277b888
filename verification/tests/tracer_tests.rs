use raymarcher_rs::fixed::Fx;
use raymarcher_rs::material::{Material, MaterialList};
use raymarcher_rs::ray::{FindTargetSettings, Ray};
use raymarcher_rs::sdf::{Sphere, WithMaterial};
use raymarcher_rs::vec3::{Point3, Vec3};

fn p(x: i64, y: i64, z: i64) -> Point3 {
    Point3::new(Fx::from_int(x), Fx::from_int(y), Fx::from_int(z))
}

fn v(x: i64, y: i64, z: i64) -> Vec3 {
    Vec3::new(Fx::from_int(x), Fx::from_int(y), Fx::from_int(z))
}

fn settings() -> FindTargetSettings {
    FindTargetSettings::new(
        Fx::from_int(0),
        Fx::from_int(100),
        Fx::from_ratio(1, 100000),
        100,
    )
}

#[test]
fn evaluate_sdf_hit() {
    let ray = Ray::new(p(-10, 0, 0), v(1, 0, 0).unit());

    let sdf = Sphere::default();

    let ftr = ray.find_target(&settings(), &sdf).unwrap();

    assert_eq!(ftr.point, p(-1, 0, 0));
}

#[test]
fn evaluate_sdf_miss() {
    let ray = Ray::new(p(-10, 0, 0), v(0, 1, 0).unit());

    let sdf = Sphere::default();

    assert!(ray.find_target(&settings(), &sdf).is_none());
}

#[test]
fn hit_carries_the_material_tag() {
    let mut mats = MaterialList::new();
    let idx = mats.insert(Material::default());
    let sdf = WithMaterial::new(Sphere::default(), idx);
    let ray = Ray::new(p(-10, 0, 0), v(1, 0, 0).unit());
    let ftr = ray.find_target(&settings(), &sdf).unwrap();
    assert_eq!(ftr.material_index, Some(idx));
}

#[test]
fn soft_shadow_fully_blocked_is_zero() {
    // the ray toward the light runs straight into an opaque sphere
    let occluder = Sphere::new(Fx::one(), p(5, 0, 0));
    let ray = Ray::new(Point3::origin(), v(1, 0, 0).unit());
    let fts = FindTargetSettings::new(
        Fx::from_int(0),
        Fx::from_int(10),
        Fx::from_ratio(1, 100000),
        100,
    );
    let factor = ray.soft_shadow(&fts, &occluder, Fx::from_int(8));
    assert_eq!(factor, Fx::zero());
}

#[test]
fn soft_shadow_unobstructed_is_one() {
    // nothing comes anywhere near the ray: the factor stays fully lit
    let far_away = Sphere::new(Fx::one(), p(0, 50, 0));
    let ray = Ray::new(Point3::origin(), v(1, 0, 0).unit());
    let fts = FindTargetSettings::new(
        Fx::from_int(0),
        Fx::from_int(10),
        Fx::from_ratio(1, 100000),
        100,
    );
    let factor = ray.soft_shadow(&fts, &far_away, Fx::from_int(8));
    assert_eq!(factor, Fx::one());
}

#[test]
fn soft_shadow_penumbra_between_zero_and_one() {
    // a near miss: the ray grazes the occluder and keeps a partial factor
    let occluder = Sphere::new(Fx::one(), p(5, 2, 0));
    let ray = Ray::new(Point3::origin(), v(1, 0, 0).unit());
    let fts = FindTargetSettings::new(
        Fx::from_ratio(1, 100),
        Fx::from_int(10),
        Fx::from_ratio(1, 100000),
        100,
    );
    let factor = ray.soft_shadow(&fts, &occluder, Fx::one());
    assert!(Fx::zero().lt(factor));
    assert!(factor.lt(Fx::one()));
}
