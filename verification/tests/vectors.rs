use woids::fixed::SCALE;
use woids::vector::{Rotation2, Vector2};

#[test]
fn new_and_zero() {
    let v = Vector2::new(3, -4);
    assert_eq!(v.x, 3);
    assert_eq!(v.y, -4);
    assert_eq!(Vector2::zero(), Vector2 { x: 0, y: 0 });
}

#[test]
fn plus_and_minus_are_componentwise() {
    let a = Vector2::new(10, -20);
    let b = Vector2::new(-3, 7);
    assert_eq!(a.plus(b), Vector2::new(7, -13));
    assert_eq!(a.minus(b), Vector2::new(13, -27));
}

#[test]
fn scaled_multiplies_each_component() {
    let v = Vector2::new(1_500_000, -7);
    assert_eq!(v.scaled(400_000), Vector2::new(600_000, -2));
}

#[test]
fn is_within_tests_both_components() {
    let v = Vector2::new(5, -9);
    assert!(v.is_within(9));
    assert!(!v.is_within(8));
    assert!(Vector2::zero().is_within(0));
}

#[test]
fn norm_squared_and_length() {
    let v = Vector2::new(-3_000_000, 4_000_000);
    assert_eq!(v.norm_squared(), 25_000_000_000_000);
    assert_eq!(v.length(), 5_000_000);
    assert_eq!(Vector2::zero().length(), 0);
    assert_eq!(Vector2::new(1, 1).length(), 1);
}

#[test]
fn rescaled_keeps_direction_and_sets_length() {
    assert_eq!(Vector2::new(3, 4).rescaled(5_000_000), Vector2::new(3_000_000, 4_000_000));
    assert_eq!(Vector2::new(-3_000_000, 4_000_000).rescaled(SCALE), Vector2::new(-600_000, 800_000));
}

#[test]
fn rescaled_initial_velocity_to_cruise_speed() {
    let v = Vector2::new(10_000_000, 1_000_000).rescaled(150_000_000);
    assert_eq!(v, Vector2::new(149_255_587, 14_925_558));
}

#[test]
fn rescaled_leaves_zero_vector_alone() {
    assert_eq!(Vector2::zero().rescaled(150_000_000), Vector2::zero());
}

#[test]
fn rescaled_to_zero_speed_is_zero() {
    assert_eq!(Vector2::new(12, -5).rescaled(0), Vector2::zero());
}

#[test]
fn identity_rotation() {
    let r = Rotation2::identity();
    assert_eq!(r, Rotation2 { cos: SCALE, sin: 0 });
    assert!(r.is_valid());
    assert_eq!(r.rotate(Vector2::new(20_000, -50_000)), Vector2::new(20_000, -50_000));
}

#[test]
fn rotation_validity() {
    assert!(Rotation2 { cos: -SCALE, sin: SCALE }.is_valid());
    assert!(!Rotation2 { cos: SCALE + 1, sin: 0 }.is_valid());
    assert!(!Rotation2 { cos: 0, sin: -SCALE - 1 }.is_valid());
}

#[test]
fn facing_up_is_identity() {
    let r = Rotation2::facing(Vector2::new(0, 5), Rotation2 { cos: 0, sin: SCALE });
    assert_eq!(r, Rotation2::identity());
}

#[test]
fn facing_right_is_a_clockwise_quarter_turn() {
    let r = Rotation2::facing(Vector2::new(7, 0), Rotation2::identity());
    assert_eq!(r, Rotation2 { cos: 0, sin: -SCALE });
}

#[test]
fn facing_a_three_four_five_direction() {
    let r = Rotation2::facing(Vector2::new(-3_000_000, -4_000_000), Rotation2::identity());
    assert_eq!(r, Rotation2 { cos: -800_000, sin: 600_000 });
}

#[test]
fn facing_zero_keeps_the_fallback() {
    let fallback = Rotation2 { cos: 600_000, sin: -800_000 };
    assert_eq!(Rotation2::facing(Vector2::zero(), fallback), fallback);
}

#[test]
fn facing_maps_up_onto_the_direction() {
    let v = Vector2::new(-3_000_000, 4_000_000);
    let r = Rotation2::facing(v, Rotation2::identity());
    let up = Vector2::new(0, SCALE);
    assert_eq!(r.rotate(up), Vector2::new(-600_000, 800_000));
}

#[test]
fn rotate_by_quarter_turn() {
    let r = Rotation2 { cos: 0, sin: SCALE };
    assert_eq!(r.rotate(Vector2::new(20_000, -50_000)), Vector2::new(50_000, 20_000));
}

#[test]
fn rotate_by_a_three_four_five_angle() {
    let r = Rotation2 { cos: 600_000, sin: -800_000 };
    assert_eq!(r.rotate(Vector2::new(20_000, -50_000)), Vector2::new(-28_000, -46_000));
    assert_eq!(r.rotate(Vector2::new(0, 50_000)), Vector2::new(40_000, 30_000));
    assert_eq!(r.rotate(Vector2::new(-20_000, -50_000)), Vector2::new(-52_000, -14_000));
}

#[test]
fn length_of_the_largest_vector() {
    let v = Vector2::new(i64::MIN, i64::MIN);
    assert_eq!(v.norm_squared(), 1u128 << 127);
    assert_eq!(v.length(), 13_043_817_825_332_782_212);
}

#[test]
fn rescaled_of_the_largest_vector() {
    let v = Vector2::new(i64::MAX, i64::MIN);
    assert_eq!(v.rescaled(1_000_000), Vector2::new(707_106, -707_106));
}

#[test]
fn scaled_at_the_ends_of_the_range() {
    let v = Vector2::new(i64::MAX, i64::MIN);
    assert_eq!(v.scaled(SCALE), v);
}
