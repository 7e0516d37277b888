use raymarcher_rs::fixed::{Fx, FX_MAX_RAW, SCALE};

#[test]
fn from_ratio_rounds_toward_negative_infinity() {
    assert_eq!(Fx::from_ratio(1, 2).to_int_floor(), 0);
    assert_eq!(Fx::from_ratio(-1, 2).to_int_floor(), -1);
    assert_eq!(Fx::from_ratio(3, 1), Fx::from_int(3));
    assert_eq!(Fx::from_ratio(-6, 2), Fx::from_int(-3));
}

#[test]
fn arithmetic_on_whole_units_is_exact() {
    let a = Fx::from_int(7);
    let b = Fx::from_int(-3);
    assert_eq!(a.add(b), Fx::from_int(4));
    assert_eq!(a.sub(b), Fx::from_int(10));
    assert_eq!(a.mul(b), Fx::from_int(-21));
    assert_eq!(Fx::from_int(-21).div(b), a);
    assert_eq!(b.abs(), Fx::from_int(3));
    assert_eq!(b.neg(), Fx::from_int(3));
    assert_eq!(a.min(b), b);
    assert_eq!(a.max(b), a);
}

#[test]
fn sqrt_of_perfect_squares_is_exact() {
    assert_eq!(Fx::from_int(4).sqrt(), Fx::from_int(2));
    assert_eq!(Fx::from_int(25).sqrt(), Fx::from_int(5));
    assert_eq!(Fx::zero().sqrt(), Fx::zero());
    assert_eq!(Fx::from_int(-9).sqrt(), Fx::zero());
}

#[test]
fn powi_repeated_product() {
    assert_eq!(Fx::from_int(3).powi(0), Fx::one());
    assert_eq!(Fx::from_int(3).powi(4), Fx::from_int(81));
    assert_eq!(Fx::from_ratio(1, 2).powi(2), Fx::from_ratio(1, 4));
}

#[test]
fn division_by_zero_saturates_toward_the_sign() {
    assert_eq!(Fx::one().div(Fx::zero()), Fx::from_raw(FX_MAX_RAW));
    assert_eq!(Fx::from_int(-1).div(Fx::zero()), Fx::from_raw(-FX_MAX_RAW));
    assert_eq!(Fx::zero().div(Fx::zero()), Fx::zero());
}

#[test]
fn overflowing_values_clamp_to_the_admitted_range() {
    // 2^22 whole units is the largest representable magnitude
    let max_units: i64 = FX_MAX_RAW / SCALE;
    let big = Fx::from_int(max_units + 10);
    assert_eq!(big, Fx::from_raw(FX_MAX_RAW));
    assert_eq!(big.add(Fx::one()), big);
}
