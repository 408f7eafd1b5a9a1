use character_controller::bounding::BoundingBox;
use character_controller::constants::Constants;
use character_controller::movement_system::{
    apply_gravity, apply_velocity, integrate_velocity, resolve_gravity, GravityAffected,
    MovementSystemPlugin, Physics, Time, Velocity,
};
use character_controller::scalar::Scalar;
use character_controller::schedule::Schedule;
use character_controller::transform::Transform;
use character_controller::vector::Vec3;
use character_controller::world::{Entity, World};

fn s(micros: i64) -> Scalar {
    Scalar::new(micros)
}

fn v(x: i64, y: i64, z: i64) -> Vec3 {
    Vec3::new(s(x), s(y), s(z))
}

fn half_unit_cube() -> Physics {
    Physics { bounding_box: BoundingBox::Cube(v(500_000, 500_000, 500_000)) }
}

fn tenth_of_a_second() -> Time {
    Time { delta_secs: s(100_000) }
}

fn earth() -> Constants {
    Constants::new(s(9_810_000), s(1_000_000))
}

/// Gravity of the earth on one entity for a tenth of a second.
fn pull(velocity: &mut Velocity, transform: &mut Transform) {
    resolve_gravity(velocity, transform, &half_unit_cube(), &tenth_of_a_second(), &earth());
}

fn body(y: i64, velocity: Vec3) -> Entity {
    Entity {
        transform: Transform::from_xyz(s(0), s(y), s(0)),
        velocity: Some(Velocity(velocity)),
        physics: Some(half_unit_cube()),
        gravity_affected: Some(GravityAffected),
        player: None,
        camera: None,
    }
}

#[test]
fn gravity_slows_an_entity_above_the_ground() {
    let mut velocity = Velocity(v(1_000_000, 5_000_000, -1_000_000));
    let mut transform = Transform::from_xyz(s(0), s(1_000_000), s(0));
    pull(&mut velocity, &mut transform);
    assert_eq!(velocity, Velocity(v(1_000_000, 4_019_000, -1_000_000)));
    assert_eq!(transform, Transform::from_xyz(s(0), s(1_000_000), s(0)));
}

#[test]
fn gravity_takes_the_same_amount_in_every_tick_in_the_air() {
    let mut velocity = Velocity(v(0, 0, 0));
    let mut transform = Transform::from_xyz(s(0), s(50_000_000), s(0));
    let mut expected = 0;
    for _ in 0..5 {
        pull(&mut velocity, &mut transform);
        expected -= 981_000;
        assert_eq!(velocity.0.y, s(expected));
    }
    assert_eq!(velocity.0.y, s(-4_905_000));
}

#[test]
fn gravity_follows_the_time_scale_and_the_elapsed_time() {
    let mut velocity = Velocity(v(0, 0, 0));
    let mut transform = Transform::from_xyz(s(0), s(3_000_000), s(0));
    let doubled = Constants::new(s(9_810_000), s(2_000_000));
    resolve_gravity(
        &mut velocity,
        &mut transform,
        &half_unit_cube(),
        &tenth_of_a_second(),
        &doubled,
    );
    assert_eq!(velocity.0.y, s(-1_962_000));

    let mut velocity = Velocity(v(0, 0, 0));
    let sixtieth = Time { delta_secs: s(16_667) };
    resolve_gravity(&mut velocity, &mut transform, &half_unit_cube(), &sixtieth, &earth());
    assert_eq!(velocity.0.y, s(-163_503));
}

#[test]
fn gravity_lifts_an_entity_out_of_the_ground_and_stops_it() {
    let mut velocity = Velocity(v(1_000_000, -7_500_000, 250_000));
    let mut transform = Transform::from_xyz(s(3_000_000), s(200_000), s(-4_000_000));
    pull(&mut velocity, &mut transform);
    assert_eq!(velocity, Velocity(v(1_000_000, 0, 250_000)));
    assert_eq!(transform, Transform::from_xyz(s(3_000_000), s(500_000), s(-4_000_000)));
}

#[test]
fn gravity_leaves_an_entity_exactly_on_the_ground_alone() {
    let mut velocity = Velocity(v(1_000_000, -7_500_000, 250_000));
    let mut transform = Transform::from_xyz(s(3_000_000), s(500_000), s(-4_000_000));
    pull(&mut velocity, &mut transform);
    assert_eq!(velocity, Velocity(v(1_000_000, -7_500_000, 250_000)));
    assert_eq!(transform, Transform::from_xyz(s(3_000_000), s(500_000), s(-4_000_000)));
}

#[test]
fn gravity_cannot_slow_below_the_lowest_speed() {
    let mut velocity = Velocity(v(0, i64::MIN, 0));
    let mut transform = Transform::from_xyz(s(0), s(3_000_000), s(0));
    pull(&mut velocity, &mut transform);
    assert_eq!(velocity.0.y, s(i64::MIN));
}

#[test]
fn velocity_moves_an_entity_and_stays_what_it_was() {
    let velocity = Velocity(v(1_000_000, 4_019_000, -1_000_000));
    let mut transform = Transform::from_xyz(s(0), s(1_000_000), s(2_000_000));
    integrate_velocity(&velocity, &mut transform, &tenth_of_a_second(), &earth());
    assert_eq!(transform, Transform::from_xyz(s(100_000), s(1_401_900), s(1_900_000)));
    assert_eq!(velocity, Velocity(v(1_000_000, 4_019_000, -1_000_000)));
}

#[test]
fn velocity_follows_the_time_scale() {
    let velocity = Velocity(v(1_000_000, 0, 0));
    let mut transform = Transform::from_xyz(s(0), s(0), s(0));
    let fast = Constants::new(s(9_810_000), s(500_000_000));
    integrate_velocity(&velocity, &mut transform, &tenth_of_a_second(), &fast);
    assert_eq!(transform.translation, v(50_000_000, 0, 0));
}

#[test]
fn velocity_does_not_turn_an_entity() {
    let velocity = Velocity(v(1_000_000, 1_000_000, 1_000_000));
    let mut transform = Transform::from_xyz(s(0), s(0), s(0)).looking_at(v(1, 2, 3));
    integrate_velocity(&velocity, &mut transform, &tenth_of_a_second(), &earth());
    assert_eq!(transform.forward, v(1, 2, 3));
}

#[test]
fn gravity_acts_on_marked_entities_with_velocity_and_volume_only() {
    let mut world = World::new();
    let falling = body(3_000_000, v(0, 0, 0));
    let unmarked = Entity { gravity_affected: None, ..falling };
    let shapeless = Entity { physics: None, ..falling };
    let still = Entity { velocity: None, ..falling };
    let sunk = body(100_000, v(0, -2_000_000, 0));
    for entity in [falling, unmarked, shapeless, still, sunk] {
        assert!(world.spawn(entity).is_ok());
    }
    apply_gravity(&mut world, &tenth_of_a_second(), &earth());
    assert_eq!(world.len(), 5);
    let slowed = Entity { velocity: Some(Velocity(v(0, -981_000, 0))), ..falling };
    assert_eq!(world.get(0), Some(slowed));
    assert_eq!(world.get(1), Some(unmarked));
    assert_eq!(world.get(2), Some(shapeless));
    assert_eq!(world.get(3), Some(still));
    assert_eq!(world.get(4), Some(body(500_000, v(0, 0, 0))));
}

#[test]
fn velocity_moves_every_entity_that_has_one() {
    let mut world = World::new();
    let falling = body(3_000_000, v(0, -1_000_000, 2_000_000));
    let unmarked = Entity { gravity_affected: None, physics: None, ..falling };
    let still = Entity { velocity: None, ..falling };
    for entity in [falling, unmarked, still] {
        assert!(world.spawn(entity).is_ok());
    }
    apply_velocity(&mut world, &tenth_of_a_second(), &earth());
    let moved = Transform::from_xyz(s(0), s(2_900_000), s(200_000));
    assert_eq!(world.get(0), Some(Entity { transform: moved, ..falling }));
    assert_eq!(world.get(1), Some(Entity { transform: moved, ..unmarked }));
    assert_eq!(world.get(2), Some(still));
}

#[test]
fn stages_on_an_empty_scene_do_nothing() {
    let mut world = World::new();
    apply_gravity(&mut world, &tenth_of_a_second(), &earth());
    apply_velocity(&mut world, &tenth_of_a_second(), &earth());
    assert_eq!(world.len(), 0);
    assert_eq!(world.get(0), None);
}

#[test]
fn movement_plugin_enters_gravity_and_velocity() {
    let mut schedule = Schedule::new();
    MovementSystemPlugin.build(&mut schedule);
    assert_eq!(schedule, Schedule { gravity: true, velocity: true, ..Schedule::new() });
}

#[test]
fn penetrating_tick_ends_on_the_ground_at_rest() {
    let mut world = World::new();
    assert!(world.spawn(body(-250_000, v(0, -9_000_000, 0))).is_ok());
    apply_gravity(&mut world, &tenth_of_a_second(), &earth());
    apply_velocity(&mut world, &tenth_of_a_second(), &earth());
    assert_eq!(world.get(0), Some(body(500_000, v(0, 0, 0))));
}

#[test]
fn a_fast_fall_sinks_in_before_it_is_put_back() {
    let mut world = World::new();
    assert!(world.spawn(body(1_500_000, v(0, -30_000_000, 0))).is_ok());
    apply_gravity(&mut world, &tenth_of_a_second(), &earth());
    apply_velocity(&mut world, &tenth_of_a_second(), &earth());
    // The bottom was one unit up; within the tick it went down to 2.0981 below.
    assert_eq!(world.get(0), Some(body(-1_598_100, v(0, -30_981_000, 0))));
    apply_gravity(&mut world, &tenth_of_a_second(), &earth());
    apply_velocity(&mut world, &tenth_of_a_second(), &earth());
    assert_eq!(world.get(0), Some(body(500_000, v(0, 0, 0))));
}
