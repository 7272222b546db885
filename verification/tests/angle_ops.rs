//! Tests of the normalized angle arithmetic, in thousandths of a degree.

use doom_core::angle::Angle;

#[test]
fn overload_add() {
    assert_eq!(Angle::new(11_200).add(Angle::new(800)), Angle::new(12_000));
}

#[test]
fn overload_add_assign() {
    let mut angle = Angle::new(350_000);
    angle.add_assign(Angle::new(11_200).add(Angle::new(800)));
    assert_eq!(angle, Angle::new(2_000));
}

#[test]
fn overload_sub() {
    assert_eq!(Angle::new(5_100).sub(Angle::new(100)), Angle::new(5_000));
}

#[test]
fn overload_sub_assign() {
    let mut angle = Angle::new(-2_000);
    angle.sub_assign(Angle::new(11_200).sub(Angle::new(800)));
    assert_eq!(angle, Angle::new(347_600));
}

#[test]
fn overload_neg() {
    let angle = Angle::new(45_000);
    assert_eq!(angle.neg(), Angle::new(315_000));
}

#[test]
fn overload_partial_eq() {
    let angle_a = Angle::new(10_100);
    let angle_b = Angle::new(10_100);
    assert_eq!(angle_a == angle_b, true);
}

#[test]
fn overload_partial_ord() {
    let angle_a = Angle::new(10_100);
    let angle_b = Angle::new(10_200);
    assert!(angle_a < angle_b);
    assert!(angle_a <= angle_b);
    assert!(angle_b > angle_a);
    assert!(angle_b >= angle_a);
}

#[test]
fn new_normalizes_into_range() {
    assert_eq!(Angle::new(360_000), Angle::new(0));
    assert_eq!(Angle::new(-90_000), Angle::new(270_000));
    assert_eq!(Angle::new(725_000), Angle::new(5_000));
    assert_eq!(Angle::new(-720_000), Angle::new(0));
    assert!(Angle::new(-1).millidegrees() < 360_000);
    assert_eq!(Angle::new(-1).millidegrees(), 359_999);
}

#[test]
fn neg_of_zero_wraps_to_zero() {
    assert_eq!(Angle::new(0).neg(), Angle::new(0));
}

#[test]
fn update_replaces_and_normalizes() {
    let mut angle = Angle::new(10_000);
    angle.update(-350_000);
    assert_eq!(angle, Angle::new(10_000));
    angle.update(400_000);
    assert_eq!(angle.millidegrees(), 40_000);
}

#[test]
fn normalize_is_identity_on_constructed_angles() {
    let mut angle = Angle::new(123_456);
    angle.normalize();
    assert_eq!(angle.millidegrees(), 123_456);
}

#[test]
fn add_then_sub_returns_original() {
    let cases: [(i64, i64); 5] = [
        (11_200, 800),
        (350_000, 20_000),
        (-5_000, 721_000),
        (0, 0),
        (359_999, 1),
    ];
    for (a, b) in cases {
        assert_eq!(Angle::new(a + b).sub(Angle::new(b)), Angle::new(a));
    }
}
