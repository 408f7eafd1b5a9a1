use character_controller::bounding::{BoundingBox, GroundCollision};
use character_controller::scalar::Scalar;
use character_controller::transform::Transform;
use character_controller::vector::Vec3;

fn s(micros: i64) -> Scalar {
    Scalar::new(micros)
}

fn cube(half_height: i64) -> BoundingBox {
    BoundingBox::Cube(Vec3::new(s(300_000), s(half_height), s(700_000)))
}

fn at_height(y: i64) -> Transform {
    Transform::from_xyz(s(1_000_000), s(y), s(-2_000_000))
}

#[test]
fn resting_height_of_a_cube_is_its_half_height() {
    assert_eq!(cube(500_000).object_on_ground_y_world_coord(), s(500_000));
    assert_eq!(cube(0).object_on_ground_y_world_coord(), s(0));
    assert_eq!(cube(2_250_000).object_on_ground_y_world_coord(), s(2_250_000));
}

#[test]
fn bottom_is_the_origin_less_the_resting_height() {
    assert_eq!(cube(500_000).object_bottom_y_world_coord(&at_height(500_000)), s(0));
    assert_eq!(cube(500_000).object_bottom_y_world_coord(&at_height(1_750_000)), s(1_250_000));
    assert_eq!(cube(500_000).object_bottom_y_world_coord(&at_height(200_000)), s(-300_000));
    assert_eq!(cube(500_000).object_bottom_y_world_coord(&at_height(-1_000_000)), s(-1_500_000));
}

#[test]
fn bottom_stops_at_the_ends_of_the_range() {
    assert_eq!(cube(i64::MAX).object_bottom_y_world_coord(&at_height(i64::MIN)), s(i64::MIN));
    assert_eq!(cube(-5).object_bottom_y_world_coord(&at_height(i64::MAX)), s(i64::MAX));
}

#[test]
fn grounded_at_and_below_the_ground_only() {
    assert!(cube(500_000).object_is_grounded(&at_height(500_000)));
    assert!(cube(500_000).object_is_grounded(&at_height(499_999)));
    assert!(cube(500_000).object_is_grounded(&at_height(-3_000_000)));
    assert!(!cube(500_000).object_is_grounded(&at_height(500_001)));
    assert!(!cube(500_000).object_is_grounded(&at_height(9_000_000)));
}

#[test]
fn grounded_agrees_with_the_sign_of_the_bottom() {
    let heights = [i64::MIN, -1_000_000, -1, 0, 1, 499_999, 500_000, 500_001, i64::MAX];
    let halves = [0, 1, 500_000, 2_000_000, i64::MAX];
    for half in halves {
        for y in heights {
            let volume = cube(half);
            let transform = at_height(y);
            let bottom = volume.object_bottom_y_world_coord(&transform);
            assert_eq!(volume.object_is_grounded(&transform), bottom.micros <= 0);
            assert_eq!(volume.object_is_grounded(&transform), y <= half);
        }
    }
}

#[test]
fn grounded_below_half_the_resting_height_outside_the_band() {
    // Half height 1.0: the band in which the two statements differ is (0.5, 1.0].
    let volume = cube(1_000_000);
    for y in [-2_000_000, 0, 499_999, 500_000] {
        assert!(volume.object_is_grounded(&at_height(y)));
        assert!(y <= 1_000_000 / 2);
    }
    for y in [1_000_001, 1_500_000, 40_000_000] {
        assert!(!volume.object_is_grounded(&at_height(y)));
        assert!(y > 1_000_000 / 2);
    }
    // Inside the band the cube is grounded although its origin is above 0.5.
    assert!(volume.object_is_grounded(&at_height(750_000)));
    assert!(volume.object_is_grounded(&at_height(1_000_000)));
}

#[test]
fn a_placement_starts_facing_down_the_negative_z_axis() {
    let transform = Transform::from_translation(Vec3::new(s(1), s(2), s(3)));
    assert_eq!(transform.translation, Vec3 { x: s(1), y: s(2), z: s(3) });
    assert_eq!(transform.forward, Vec3 { x: s(0), y: s(0), z: s(-1_000_000) });
    assert_eq!(Transform::from_xyz(s(1), s(2), s(3)), transform);
}

#[test]
fn looking_at_a_point_faces_it_from_where_one_stands() {
    let transform = Transform::from_xyz(s(1_000_000), s(2_000_000), s(3_000_000));
    let target = Vec3::new(s(0), s(500_000), s(5_000_000));
    let turned = transform.looking_at(target);
    assert_eq!(turned.translation, transform.translation);
    assert_eq!(turned.forward, Vec3 { x: s(-1_000_000), y: s(-1_500_000), z: s(2_000_000) });
    let mut in_place = transform;
    in_place.look_at(target);
    assert_eq!(in_place, turned);
}
