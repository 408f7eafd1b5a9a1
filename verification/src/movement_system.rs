//! Gravity against the ground plane, and the integration of velocity into
//! position.

use vstd::prelude::*;
use crate::bounding::{bottom_y, BoundingBox, GroundCollision};
use crate::constants::Constants;
use crate::scalar::Scalar;
use crate::schedule::Schedule;
use crate::transform::Transform;
use crate::vector::Vec3;
use crate::world::{Entity, World};

verus! {

/// The motion of an entity in units per second. An entity without it does
/// not move.
#[derive(Clone, Copy, Debug, PartialEq, Eq, Structural)]
pub struct Velocity(pub Vec3);

/// Marks an entity that gravity acts on.
#[derive(Clone, Copy, Debug, PartialEq, Eq, Structural)]
pub struct GravityAffected;

/// Couples an entity to the volume that it occupies.
#[derive(Clone, Copy, Debug, PartialEq, Eq, Structural)]
pub struct Physics {
    pub bounding_box: BoundingBox,
}

/// The time that has passed since the previous tick.
#[derive(Clone, Copy, Debug, PartialEq, Eq, Structural)]
pub struct Time {
    pub delta_secs: Scalar,
}

/// Enters gravity and movement into a schedule.
#[derive(Clone, Copy, Debug, PartialEq, Eq, Structural)]
pub struct MovementSystemPlugin;

impl MovementSystemPlugin {
    /// Enters the stages of this plug-in into `schedule`.
    pub fn build(&self, schedule: &mut Schedule)
        ensures
            *final(schedule) == (Schedule { gravity: true, velocity: true, ..*old(schedule) }),
    {
        schedule.gravity = true;
        schedule.velocity = true;
    }
}

/// The speed that an entity in free fall loses during one tick:
/// gravity, times the elapsed time, times the time scale.
pub open spec fn gravity_pull(time: Time, constants: Constants) -> Scalar {
    constants.gravity.times(time.delta_secs).times(constants.game_speed)
}

/// The velocity that gravity leaves to an entity.
///
/// Above the ground the entity loses `pull` of its vertical speed. Below the
/// ground its vertical speed is cleared. Exactly on the ground nothing
/// changes.
pub open spec fn velocity_after_gravity(
    velocity: Velocity,
    transform: Transform,
    physics: Physics,
    pull: Scalar,
) -> Velocity {
    let bottom = bottom_y(&physics.bounding_box, &transform);
    if bottom@ > 0 {
        Velocity(Vec3 { y: velocity.0.y.minus(pull), ..velocity.0 })
    } else if bottom@ < 0 {
        Velocity(Vec3 { y: Scalar { micros: 0 }, ..velocity.0 })
    } else {
        velocity
    }
}

/// The placement that gravity leaves to an entity: one that has sunk into
/// the ground is lifted to rest on it.
pub open spec fn transform_after_gravity(transform: Transform, physics: Physics) -> Transform {
    if bottom_y(&physics.bounding_box, &transform)@ < 0 {
        Transform {
            translation: Vec3 {
                y: physics.bounding_box.ground_offset(),
                ..transform.translation
            },
            ..transform
        }
    } else {
        transform
    }
}

/// The way that `velocity` carries an entity during one tick:
/// the velocity, times the elapsed time, times the time scale.
pub open spec fn displacement(velocity: Velocity, time: Time, constants: Constants) -> Vec3 {
    velocity.0.scaled(time.delta_secs).scaled(constants.game_speed)
}

/// The placement of an entity after it has moved with `velocity` for one tick.
pub open spec fn transform_after_velocity(
    transform: Transform,
    velocity: Velocity,
    time: Time,
    constants: Constants,
) -> Transform {
    Transform {
        translation: transform.translation.plus(displacement(velocity, time, constants)),
        ..transform
    }
}

/// Lets gravity act on one entity for one tick.
pub fn resolve_gravity(
    velocity: &mut Velocity,
    transform: &mut Transform,
    physics: &Physics,
    time: &Time,
    constants: &Constants,
)
    ensures
        *final(velocity) == velocity_after_gravity(
            *old(velocity),
            *old(transform),
            *physics,
            gravity_pull(*time, *constants),
        ),
        *final(transform) == transform_after_gravity(*old(transform), *physics),
{
    let bottom_y_level = physics.bounding_box.object_bottom_y_world_coord(transform);
    if bottom_y_level.micros > 0 {
        let pull = constants.gravity.times(time.delta_secs).times(constants.game_speed);
        velocity.0.y = velocity.0.y.minus(pull);
    }
    if bottom_y_level.micros < 0 {
        transform.translation.y = physics.bounding_box.object_on_ground_y_world_coord();
        velocity.0.y = Scalar::zero();
    }
}

/// Moves one entity with its velocity for one tick. The velocity itself is
/// left as it is.
pub fn integrate_velocity(
    velocity: &Velocity,
    transform: &mut Transform,
    time: &Time,
    constants: &Constants,
)
    ensures
        *final(transform) == transform_after_velocity(
            *old(transform),
            *velocity,
            *time,
            *constants,
        ),
{
    let step = velocity.0.scaled(time.delta_secs).scaled(constants.game_speed);
    transform.translation = transform.translation.plus(step);
}

/// The entity after gravity has acted on it for one tick. Gravity acts on an
/// entity that is marked for it and has a velocity and a volume, and on no
/// other.
pub open spec fn entity_after_gravity(entity: Entity, pull: Scalar) -> Entity {
    if entity.gravity_affected is Some && entity.velocity is Some && entity.physics is Some {
        Entity {
            velocity: Some(
                velocity_after_gravity(
                    entity.velocity->0,
                    entity.transform,
                    entity.physics->0,
                    pull,
                ),
            ),
            transform: transform_after_gravity(entity.transform, entity.physics->0),
            ..entity
        }
    } else {
        entity
    }
}

/// The entity after it has moved for one tick. An entity moves if it has a
/// velocity, whether gravity acts on it or not.
pub open spec fn entity_after_velocity(entity: Entity, time: Time, constants: Constants) -> Entity {
    if entity.velocity is Some {
        Entity {
            transform: transform_after_velocity(
                entity.transform,
                entity.velocity->0,
                time,
                constants,
            ),
            ..entity
        }
    } else {
        entity
    }
}

/// The entities after gravity has acted on each of them for one tick.
pub open spec fn entities_after_gravity(entities: Seq<Entity>, pull: Scalar) -> Seq<Entity> {
    Seq::new(entities.len(), |id: int| entity_after_gravity(entities[id], pull))
}

/// The entities after each of them has moved for one tick.
pub open spec fn entities_after_velocity(
    entities: Seq<Entity>,
    time: Time,
    constants: Constants,
) -> Seq<Entity> {
    Seq::new(entities.len(), |id: int| entity_after_velocity(entities[id], time, constants))
}

/// Lets gravity act for one tick on every entity that is subject to it.
pub fn apply_gravity(world: &mut World, time: &Time, constants: &Constants)
    ensures
        final(world)@ == entities_after_gravity(old(world)@, gravity_pull(*time, *constants)),
{
    let count = world.len();
    let mut id: usize = 0;
    while id < count
        invariant
            id <= count,
            count == old(world)@.len(),
            world@.len() == count,
            forall|done: int|
                0 <= done < id ==> #[trigger] world@[done] == entity_after_gravity(
                    old(world)@[done],
                    gravity_pull(*time, *constants),
                ),
            forall|ahead: int|
                id <= ahead < count ==> #[trigger] world@[ahead] == old(world)@[ahead],
        decreases count - id,
    {
        if let Some(entity) = world.get(id) {
            if let (Some(velocity), Some(physics), Some(_)) = (
                entity.velocity,
                entity.physics,
                entity.gravity_affected,
            ) {
                let mut velocity = velocity;
                let mut transform = entity.transform;
                resolve_gravity(&mut velocity, &mut transform, &physics, time, constants);
                let moved = Entity { velocity: Some(velocity), transform, ..entity };
                world.replace(id, moved);
            }
        }
        id = id + 1;
    }
}

/// Moves every entity that has a velocity for one tick.
pub fn apply_velocity(world: &mut World, time: &Time, constants: &Constants)
    ensures
        final(world)@ == entities_after_velocity(old(world)@, *time, *constants),
{
    let count = world.len();
    let mut id: usize = 0;
    while id < count
        invariant
            id <= count,
            count == old(world)@.len(),
            world@.len() == count,
            forall|done: int|
                0 <= done < id ==> #[trigger] world@[done] == entity_after_velocity(
                    old(world)@[done],
                    *time,
                    *constants,
                ),
            forall|ahead: int|
                id <= ahead < count ==> #[trigger] world@[ahead] == old(world)@[ahead],
        decreases count - id,
    {
        if let Some(entity) = world.get(id) {
            if let Some(velocity) = entity.velocity {
                let mut transform = entity.transform;
                integrate_velocity(&velocity, &mut transform, time, constants);
                let moved = Entity { transform, ..entity };
                world.replace(id, moved);
            }
        }
        id = id + 1;
    }
}

} // verus!
