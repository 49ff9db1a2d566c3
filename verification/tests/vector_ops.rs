use engine2d::fixed::Fx;
use engine2d::vec2::Vec2;

fn v(x: i32, y: i32) -> Vec2 {
    Vec2::new(Fx::from_int(x), Fx::from_int(y))
}

#[test]
fn direction_constants() {
    assert_eq!(Vec2::zero().x.to_raw(), 0);
    assert_eq!(Vec2::one().y.to_raw(), 1_000_000);
    assert_eq!(Vec2::up().y.to_raw(), 1_000_000);
    assert_eq!(Vec2::down().y.to_raw(), -1_000_000);
    assert_eq!(Vec2::left().x.to_raw(), -1_000_000);
    assert_eq!(Vec2::right().x.to_raw(), 1_000_000);
}

#[test]
fn componentwise_sum_and_difference() {
    let a = v(3, -2);
    let b = v(-1, 5);
    let s = a.add(b);
    assert_eq!(s.x.to_raw(), 2_000_000);
    assert_eq!(s.y.to_raw(), 3_000_000);
    let d = a.sub(b);
    assert_eq!(d.x.to_raw(), 4_000_000);
    assert_eq!(d.y.to_raw(), -7_000_000);
}

#[test]
fn scaling() {
    let r = v(3, -2).scale(Fx::from_raw(500_000));
    assert_eq!(r.x.to_raw(), 1_500_000);
    assert_eq!(r.y.to_raw(), -1_000_000);
}

#[test]
fn dot_product_and_squared_length() {
    assert_eq!(v(3, 4).dot(v(2, -1)).to_raw(), 2_000_000);
    assert_eq!(v(3, 4).length_squared().to_raw(), 25_000_000);
    assert_eq!(v(1, 1).distance_squared(v(4, 5)).to_raw(), 25_000_000);
}

#[test]
fn lerp_clamps_its_parameter() {
    let a = v(0, 0);
    let b = v(10, 10);
    let mid = Vec2::lerp(a, b, Fx::from_raw(500_000));
    assert_eq!(mid.x.to_raw(), 5_000_000);
    assert_eq!(mid.y.to_raw(), 5_000_000);
    let over = Vec2::lerp(a, b, Fx::from_int(2));
    assert_eq!(over.x.to_raw(), 10_000_000);
    let under = Vec2::lerp(a, b, Fx::from_int(-1));
    assert_eq!(under.x.to_raw(), 0);
}

#[test]
fn reflection_about_a_unit_normal() {
    // A falling diagonal vector bounces off a horizontal floor.
    let r = v(1, -1).reflect(Vec2::up());
    assert_eq!(r.x.to_raw(), 1_000_000);
    assert_eq!(r.y.to_raw(), 1_000_000);
}
