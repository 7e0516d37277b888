use raymarcher_rs::fixed::Fx;
use raymarcher_rs::material::{Material, MaterialIndex, MaterialList};
use raymarcher_rs::sdf::{
    estimate_normal, Cube, Difference, Intersect, NegY, Rotate, ScaleUniform, Sdf, Sphere,
    Translate, Union, UnitCube, UnitSphere, WithMaterial,
};
use raymarcher_rs::vec3::{Point3, Vec3};
use raymarcher_rs::Color;

fn p(x: i64, y: i64, z: i64) -> Point3 {
    Point3::new(Fx::from_int(x), Fx::from_int(y), Fx::from_int(z))
}

#[test]
fn unit_sphere_distance_is_length_minus_one() {
    let s = UnitSphere;
    // a 3-4-5 triple keeps the length exact on the grid
    let (d, m) = s.value_at(&p(3, 4, 0));
    assert_eq!(d, Fx::from_int(4));
    assert!(m.is_none());
    let (d, _) = s.value_at(&p(0, 0, 2));
    assert_eq!(d, Fx::from_int(1));
    // inside: negative distance
    let (d, _) = s.value_at(&Point3::origin());
    assert_eq!(d, Fx::from_int(-1));
}

#[test]
fn unit_cube_inside_distance_is_negative_nearest_face() {
    let c = UnitCube;
    let inside = Point3::new(Fx::from_ratio(1, 2), Fx::from_ratio(-1, 4), Fx::from_ratio(1, 4));
    let (d, _) = c.value_at(&inside);
    // the nearest face is half a unit away along x
    assert_eq!(d, Fx::from_ratio(-1, 2));
    assert!(d.lt(Fx::zero()));
}

#[test]
fn unit_cube_on_face_distance_is_zero() {
    let c = UnitCube;
    let (d, _) = c.value_at(&p(1, 0, 0));
    assert_eq!(d, Fx::zero());
}

#[test]
fn union_of_disjoint_spheres_takes_minimum() {
    let left = Sphere::new(Fx::one(), p(-2, 0, 0));
    let right = Sphere::new(Fx::one(), p(2, 0, 0));
    let origin = Point3::origin();
    let da = left.value_at(&origin).0;
    let db = right.value_at(&origin).0;
    assert_eq!(da, Fx::from_int(1));
    assert_eq!(db, Fx::from_int(1));
    let u = Union::new(left, right);
    let (d, _) = u.value_at(&origin);
    assert_eq!(d, da.min(db));
    assert_eq!(d, Fx::from_int(1));
}

#[test]
fn intersect_takes_maximum() {
    let left = Sphere::new(Fx::one(), p(-2, 0, 0));
    let right = Sphere::new(Fx::one(), p(2, 0, 0));
    let at = p(-2, 0, 0);
    let i = Intersect::new(left, right);
    let (d, _) = i.value_at(&at);
    // left reports -1 there, right reports 3: the intersection is empty,
    // and the larger distance wins
    assert_eq!(d, Fx::from_int(3));
}

#[test]
fn difference_negates_the_carved_solid() {
    let outer = Sphere::new(Fx::from_int(2), Point3::origin());
    let carved = Sphere::new(Fx::one(), Point3::origin());
    let diff = Difference::new(outer, carved);
    // at the center, the carved solid dominates: -(-1) = 1
    let (d, _) = diff.value_at(&Point3::origin());
    assert_eq!(d, Fx::from_int(1));
    // well outside both, the outer surface wins
    let (d, _) = diff.value_at(&p(5, 0, 0));
    assert_eq!(d, Fx::from_int(3));
}

#[test]
fn union_material_follows_the_closer_child() {
    let mut mats = MaterialList::new();
    let red = mats.insert(Material::default());
    let blue = mats.insert(Material::default());
    let left = WithMaterial::new(Sphere::new(Fx::one(), p(-2, 0, 0)), red);
    let right = WithMaterial::new(Sphere::new(Fx::one(), p(2, 0, 0)), blue);
    let u = Union::new(left, right);
    let near_left = Point3::new(Fx::from_ratio(-3, 2), Fx::zero(), Fx::zero());
    let (d, m) = u.value_at(&near_left);
    assert_eq!(d, Fx::from_ratio(-1, 2));
    assert_eq!(m, Some(red));
    let near_right = Point3::new(Fx::from_ratio(3, 2), Fx::zero(), Fx::zero());
    let (_, m) = u.value_at(&near_right);
    assert_eq!(m, Some(blue));
}

#[test]
fn with_material_passes_distance_through() {
    let mut mats = MaterialList::new();
    let idx = mats.insert(Material::default());
    let s = WithMaterial::new(UnitSphere, idx);
    let (d, m) = s.value_at(&p(3, 4, 0));
    assert_eq!(d, Fx::from_int(4));
    assert_eq!(m, Some(idx));
}

#[test]
fn translate_moves_the_field() {
    let t = Translate::new(UnitSphere, Vec3::new(Fx::from_int(2), Fx::zero(), Fx::zero()));
    let (d, _) = t.value_at(&Point3::origin());
    assert_eq!(d, Fx::from_int(1));
    let (d, _) = t.value_at(&p(2, 0, 0));
    assert_eq!(d, Fx::from_int(-1));
}

#[test]
fn scale_uniform_rescales_the_distance() {
    let s = ScaleUniform::new(UnitSphere, Fx::from_int(2));
    let (d, _) = s.value_at(&p(4, 0, 0));
    // the sphere's radius doubles to 2, so the point at 4 is 2 away
    assert_eq!(d, Fx::from_int(2));
}

#[test]
fn rotate_by_zero_is_identity() {
    let axis = Vec3::new(Fx::zero(), Fx::one(), Fx::zero()).unit();
    let r = Rotate::new(UnitCube, Fx::zero(), axis);
    let at = Point3::new(Fx::from_int(2), Fx::from_ratio(1, 2), Fx::from_int(-1));
    assert_eq!(r.value_at(&at).0, UnitCube.value_at(&at).0);
}

#[test]
fn neg_y_half_space_reports_height() {
    let (d, m) = NegY.value_at(&p(5, -3, 2));
    assert_eq!(d, Fx::from_int(-3));
    assert!(m.is_none());
}

#[test]
fn cube_matches_unit_cube_at_default_size() {
    let c = Cube::new_half_side(Fx::one(), Point3::origin());
    let at = Point3::new(Fx::from_ratio(1, 2), Fx::from_ratio(-1, 4), Fx::from_ratio(1, 4));
    assert_eq!(c.value_at(&at).0, UnitCube.value_at(&at).0);
}

#[test]
fn material_list_lookup() {
    let mut mats = MaterialList::new();
    let a = mats.insert(Material::new(
        Color::black(),
        Color::white(),
        Color::black(),
        4,
        Fx::zero(),
    ));
    assert!(mats.get(a).is_some());
    assert_eq!(mats.get(a).unwrap().shininess(), 4);
    assert!(mats.get(MaterialIndex(7)).is_none());
}

#[test]
fn estimate_normal_of_sphere_points_outward() {
    let n = estimate_normal(&UnitSphere, &p(0, 0, 1)).as_vec();
    assert_eq!(n.x, Fx::zero());
    assert_eq!(n.y, Fx::zero());
    // the offset is small relative to the grid, so the normalized gradient's
    // length is only accurate to about a percent
    let margin = Fx::from_ratio(1, 100);
    assert!(n.z.sub(Fx::one()).abs().le(margin));
}

#[test]
fn default_material_is_magenta() {
    let m = Material::default();
    assert_eq!(m.ambient(), Color::purple());
    assert_eq!(m.diffuse(), Color::purple());
    assert_eq!(m.specular(), Color::purple());
    assert_eq!(m.reflectivity(), Fx::zero());
}
