use raymarcher_rs::fixed::Fx;
use raymarcher_rs::vec3::Vec3;

fn v(x: i64, y: i64, z: i64) -> Vec3 {
    Vec3::new(Fx::from_int(x), Fx::from_int(y), Fx::from_int(z))
}

#[test]
fn dot_product_commutative_concrete() {
    let a = v(1, 2, -3);
    let b = v(-10, 8, 4);
    assert_eq!(a.dot(b), b.dot(a));
}

#[test]
fn dot_product_bilinear_concrete() {
    let a = v(1, 2, -3);
    let b = v(-10, 8, 4);
    let c = v(2, -7, 5);
    let k = Fx::from_int(3);
    // whole-unit components stay exact on the fixed-point grid
    assert_eq!(a.dot(b.scale(k).add(c)), k.mul(a.dot(b)).add(a.dot(c)));
    assert_eq!(a.dot(b.add(c)), a.dot(b).add(a.dot(c)));
}

#[test]
fn cross_product_self_is_zero() {
    let a = v(4, -9, 13);
    assert_eq!(a.cross(a), Vec3::zero());
}

#[test]
fn cross_product_anticommutative_concrete() {
    let a = v(1, 2, -3);
    let b = v(-10, 8, 4);
    assert_eq!(a.cross(b), b.cross(a).neg());
}

#[test]
fn cross_product_jacobi_concrete() {
    let a = v(1, 2, -3);
    let b = v(-10, 8, 4);
    let c = v(2, -7, 5);
    let total = a.cross(b.cross(c)).add(b.cross(c.cross(a))).add(c.cross(a.cross(b)));
    assert_eq!(total, Vec3::zero());
}

#[test]
fn scalar_triple_product_cyclic_concrete() {
    let a = v(1, 2, -3);
    let b = v(-10, 8, 4);
    let c = v(2, -7, 5);
    let first = a.dot(b.cross(c));
    let second = b.dot(c.cross(a));
    let third = c.dot(a.cross(b));
    assert_eq!(first, second);
    assert_eq!(second, third);
}

#[test]
fn dot_product_distributive_failures() {
    let margin = Fx::from_ratio(1, 100000);
    let a = Vec3::new(
        Fx::from_int(0),
        Fx::from_ratio(-8921582397006445, 1000000000000000),
        Fx::from_ratio(7573710202022724, 1000000000000000),
    );
    let b = Vec3::new(
        Fx::from_int(0),
        Fx::from_ratio(-6876151810718301, 1000000000000000),
        Fx::from_ratio(-1414153466732282, 1000000000000000),
    );
    let c = Vec3::new(
        Fx::from_int(0),
        Fx::from_ratio(3484237948533316, 1000000000000000),
        Fx::from_ratio(-2883751323894730, 1000000000000000),
    );
    let diff = a.dot(b.add(c)).sub(a.dot(b).add(a.dot(c))).abs();
    assert!(diff.le(margin));

    let a = Vec3::new(
        Fx::from_ratio(8645810033587026, 1000000000000000),
        Fx::from_ratio(-8633742886820283, 1000000000000000),
        Fx::from_ratio(6564002568600472, 1000000000000000),
    );
    let b = Vec3::new(
        Fx::from_ratio(4388393866612459, 1000000000000000),
        Fx::from_ratio(-1128526180901801, 10000000000000000),
        Fx::from_ratio(6320195101647585, 1000000000000000),
    );
    let c = Vec3::new(
        Fx::from_ratio(-7565850100949318, 1000000000000000),
        Fx::from_ratio(8369558824873508, 1000000000000000),
        Fx::from_ratio(8620789029486183, 1000000000000000),
    );
    let diff = a.dot(b.add(c)).sub(a.dot(b).add(a.dot(c))).abs();
    assert!(diff.le(margin));
}

#[test]
fn length_and_unit_exact_on_grid() {
    let a = v(3, 4, 0);
    assert_eq!(a.length(), Fx::from_int(5));
    let u = v(2, 0, 0).unit();
    assert_eq!(u.as_vec(), v(1, 0, 0));
    // the zero vector normalizes to the zero vector
    assert_eq!(Vec3::zero().unit().as_vec(), Vec3::zero());
}

#[test]
fn reflect_about_axis() {
    // reflecting (1, -1, 0) about the y axis normal flips the y component
    let n = v(0, 1, 0).unit();
    let r = v(1, -1, 0).reflect(n);
    assert_eq!(r, v(1, 1, 0));
}
