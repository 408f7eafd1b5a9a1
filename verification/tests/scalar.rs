use character_controller::scalar::{Scalar, SCALE};
use character_controller::vector::{Vec2, Vec3};

fn s(micros: i64) -> Scalar {
    Scalar::new(micros)
}

#[test]
fn scale_is_one_million() {
    assert_eq!(SCALE, 1_000_000);
}

#[test]
fn new_keeps_the_number_of_millionths() {
    assert_eq!(s(-42).micros, -42);
    assert_eq!(Scalar::zero().micros, 0);
}

#[test]
fn from_units_counts_whole_units() {
    assert_eq!(Scalar::from_units(5), s(5_000_000));
    assert_eq!(Scalar::from_units(-3), s(-3_000_000));
    assert_eq!(Scalar::from_units(0), s(0));
    assert_eq!(Scalar::from_units(i32::MAX).micros, 2_147_483_647_000_000);
    assert_eq!(Scalar::from_units(i32::MIN).micros, -2_147_483_648_000_000);
}

#[test]
fn plus_and_minus_are_exact_within_range() {
    assert_eq!(s(1_500_000).plus(s(250_000)), s(1_750_000));
    assert_eq!(s(1_500_000).minus(s(2_000_000)), s(-500_000));
    assert_eq!(s(-7).plus(s(7)), s(0));
}

#[test]
fn plus_stops_at_the_ends_of_the_range() {
    assert_eq!(s(i64::MAX).plus(s(1)), s(i64::MAX));
    assert_eq!(s(i64::MAX).plus(s(i64::MAX)), s(i64::MAX));
    assert_eq!(s(i64::MIN).plus(s(-1)), s(i64::MIN));
    assert_eq!(s(i64::MIN).plus(s(i64::MAX)), s(-1));
}

#[test]
fn minus_stops_at_the_ends_of_the_range() {
    assert_eq!(s(i64::MIN).minus(s(1)), s(i64::MIN));
    assert_eq!(s(i64::MAX).minus(s(-1)), s(i64::MAX));
    assert_eq!(s(0).minus(s(i64::MIN)), s(i64::MAX));
    assert_eq!(s(-1).minus(s(i64::MIN)), s(i64::MAX));
}

#[test]
fn times_multiplies_units() {
    assert_eq!(s(5_000_000).times(s(100_000)), s(500_000));
    assert_eq!(s(9_810_000).times(s(100_000)), s(981_000));
    assert_eq!(s(-2_500_000).times(s(4_000_000)), s(-10_000_000));
    assert_eq!(s(-2_500_000).times(s(-4_000_000)), s(10_000_000));
    assert_eq!(s(123_456_789).times(s(SCALE)), s(123_456_789));
    assert_eq!(s(123_456_789).times(s(0)), s(0));
}

#[test]
fn times_rounds_toward_zero() {
    assert_eq!(s(7).times(s(500_000)), s(3));
    assert_eq!(s(-7).times(s(500_000)), s(-3));
    assert_eq!(s(7).times(s(-500_000)), s(-3));
    assert_eq!(s(1).times(s(999_999)), s(0));
    assert_eq!(s(-1).times(s(999_999)), s(0));
    assert_eq!(s(9_810_000).times(s(16_667)), s(163_503));
}

#[test]
fn times_stops_at_the_ends_of_the_range() {
    assert_eq!(s(i64::MAX).times(Scalar::from_units(2)), s(i64::MAX));
    assert_eq!(s(i64::MIN).times(Scalar::from_units(2)), s(i64::MIN));
    assert_eq!(s(i64::MAX).times(Scalar::from_units(-3)), s(i64::MIN));
    assert_eq!(s(i64::MIN).times(s(i64::MIN)), s(i64::MAX));
    assert_eq!(s(i64::MIN).times(s(SCALE)), s(i64::MIN));
    assert_eq!(s(i64::MIN).times(s(-SCALE)), s(i64::MAX));
}

#[test]
fn clamp_holds_a_value_between_its_bounds() {
    assert_eq!(s(5).clamp(s(-10), s(10)), s(5));
    assert_eq!(s(-11).clamp(s(-10), s(10)), s(-10));
    assert_eq!(s(11).clamp(s(-10), s(10)), s(10));
    assert_eq!(s(-10).clamp(s(-10), s(10)), s(-10));
    assert_eq!(s(10).clamp(s(-10), s(10)), s(10));
    assert_eq!(s(3).clamp(s(4), s(4)), s(4));
}

#[test]
fn lerp_covers_the_given_share_of_the_way() {
    assert_eq!(s(0).lerp(s(10_000_000), s(100_000)), s(1_000_000));
    assert_eq!(s(10_000_000).lerp(s(0), s(100_000)), s(9_000_000));
    assert_eq!(s(-4_000_000).lerp(s(4_000_000), s(250_000)), s(-2_000_000));
    assert_eq!(s(2_000_000).lerp(s(2_000_000), s(700_000)), s(2_000_000));
}

#[test]
fn lerp_rounds_the_step_toward_zero() {
    assert_eq!(s(0).lerp(s(9), s(100_000)), s(0));
    assert_eq!(s(0).lerp(s(-9), s(100_000)), s(0));
    assert_eq!(s(0).lerp(s(19), s(100_000)), s(1));
    assert_eq!(s(0).lerp(s(-19), s(100_000)), s(-1));
}

#[test]
fn lerp_with_the_whole_share_arrives() {
    assert_eq!(s(123).lerp(s(-987_654_321), s(SCALE)), s(-987_654_321));
    assert_eq!(s(i64::MIN).lerp(s(i64::MAX), s(SCALE)), s(i64::MAX));
    assert_eq!(s(i64::MAX).lerp(s(i64::MIN), s(SCALE)), s(i64::MIN));
}

#[test]
fn lerp_with_no_share_stays() {
    assert_eq!(s(123).lerp(s(-987_654_321), s(0)), s(123));
    assert_eq!(s(i64::MIN).lerp(s(i64::MAX), s(0)), s(i64::MIN));
}

#[test]
fn lerp_across_the_whole_range_loses_nothing() {
    assert_eq!(s(i64::MIN).lerp(s(i64::MAX), s(500_000)), s(-1));
    assert_eq!(s(i64::MAX).lerp(s(i64::MIN), s(500_000)), s(0));
}

#[test]
fn lerp_beyond_the_end_stops_at_the_range() {
    assert_eq!(s(0).lerp(s(10), s(2_000_000)), s(20));
    assert_eq!(s(0).lerp(s(10), s(-1_000_000)), s(-10));
    assert_eq!(s(0).lerp(s(i64::MAX), s(2_000_000)), s(i64::MAX));
    assert_eq!(s(0).lerp(s(i64::MAX), s(-2_000_000)), s(i64::MIN));
}

#[test]
fn vec2_adds_by_component() {
    let a = Vec2::new(s(1), s(-2));
    let b = Vec2::new(s(10), s(20));
    assert_eq!(a.plus(b), Vec2 { x: s(11), y: s(18) });
    assert_eq!(Vec2::zero(), Vec2 { x: s(0), y: s(0) });
    let far = Vec2::new(s(i64::MAX), s(0));
    assert_eq!(far.plus(Vec2::new(s(1), s(1))), Vec2 { x: s(i64::MAX), y: s(1) });
}

#[test]
fn vec3_works_by_component() {
    let a = Vec3::new(s(1_000_000), s(-2_000_000), s(3_000_000));
    let b = Vec3::new(s(500_000), s(500_000), s(-500_000));
    assert_eq!(a.plus(b), Vec3 { x: s(1_500_000), y: s(-1_500_000), z: s(2_500_000) });
    assert_eq!(a.minus(b), Vec3 { x: s(500_000), y: s(-2_500_000), z: s(3_500_000) });
    assert_eq!(a.scaled(s(500_000)), Vec3 { x: s(500_000), y: s(-1_000_000), z: s(1_500_000) });
    assert_eq!(a.lerp(b, s(500_000)), Vec3 { x: s(750_000), y: s(-750_000), z: s(1_250_000) });
    assert_eq!(Vec3::zero(), Vec3 { x: s(0), y: s(0), z: s(0) });
}

#[test]
fn clamp_with_crossed_bounds_tries_the_lower_bound_first() {
    assert_eq!(s(0).clamp(s(10), s(-10)), s(10));
    assert_eq!(s(20).clamp(s(10), s(-10)), s(-10));
    assert_eq!(s(10).clamp(s(10), s(-10)), s(-10));
}
