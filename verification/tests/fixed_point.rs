use engine2d::fixed::{Fx, FX_SCALE};

#[test]
fn scale_is_one_million() {
    assert_eq!(FX_SCALE, 1_000_000);
    assert_eq!(Fx::one().to_raw(), 1_000_000);
    assert_eq!(Fx::zero().to_raw(), 0);
}

#[test]
fn from_int_scales() {
    assert_eq!(Fx::from_int(5).to_raw(), 5_000_000);
    assert_eq!(Fx::from_int(-3).to_raw(), -3_000_000);
    assert_eq!(Fx::from_int(0).to_raw(), 0);
}

#[test]
fn add_sub_neg_are_exact() {
    let a = Fx::from_raw(1_500_000);
    let b = Fx::from_raw(-700_000);
    assert_eq!(a.add(b).to_raw(), 800_000);
    assert_eq!(a.sub(b).to_raw(), 2_200_000);
    assert_eq!(b.neg().to_raw(), 700_000);
}

#[test]
fn mul_rounds_toward_negative_infinity() {
    // 1.5 * 1.5 = 2.25 exactly.
    let x = Fx::from_raw(1_500_000);
    assert_eq!(x.mul(x).to_raw(), 2_250_000);
    // (-1 raw) * (1 raw) = -1 / 10^12 of a unit, which floors to -1 raw.
    assert_eq!(Fx::from_raw(-1).mul(Fx::from_raw(1_000_000)).to_raw(), -1);
    assert_eq!(Fx::from_raw(-1).mul(Fx::from_raw(1)).to_raw(), -1);
    assert_eq!(Fx::from_raw(1).mul(Fx::from_raw(1)).to_raw(), 0);
}

#[test]
fn div_floors() {
    // 1 / 3 = 0.333333 floored at the sixth decimal.
    assert_eq!(Fx::from_int(1).div(Fx::from_int(3)).to_raw(), 333_333);
    assert_eq!(Fx::from_int(-1).div(Fx::from_int(3)).to_raw(), -333_334);
    assert_eq!(Fx::from_int(4).div(Fx::from_int(2)).to_raw(), 2_000_000);
}

#[test]
fn half_floors() {
    assert_eq!(Fx::from_raw(7).half().to_raw(), 3);
    assert_eq!(Fx::from_raw(-3).half().to_raw(), -2);
    assert_eq!(Fx::from_int(10).half().to_raw(), 5_000_000);
}

#[test]
fn comparisons_follow_values() {
    let a = Fx::from_int(2);
    let b = Fx::from_int(3);
    assert!(a.lt(b));
    assert!(a.le(b));
    assert!(b.gt(a));
    assert!(b.ge(a));
    assert!(a.le(a));
    assert!(!a.lt(a));
    assert_eq!(a.min(b), a);
    assert_eq!(a.max(b), b);
}
