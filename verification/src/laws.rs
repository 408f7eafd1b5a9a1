//! What holds of the stages of a tick whatever the scene and the input.

use vstd::prelude::*;
use crate::bounding::{bottom_y, is_grounded};
use crate::constants::Constants;
use crate::cursor_control::Window;
use crate::movement_system::{
    entity_after_gravity, entity_after_velocity, gravity_pull, transform_after_gravity,
    velocity_after_gravity, Physics, Time, Velocity,
};
use crate::player::{
    entity_after_input, entity_after_landing, velocity_after_input, JumpSystem, Player,
    PlayerCamera, PlayerInput, FRAC_PI_2,
};
use crate::schedule::Schedule;
use crate::scalar::{lemma_lerp_share, lemma_lerp_whole, scaled_product, Scalar, SCALE};
use crate::transform::Transform;
use crate::vector::{Vec2, Vec3};
use crate::world::Entity;

verus! {

/// What one tick means to the budget of jumps.
pub struct JumpTick {
    /// The actor stands on the ground.
    pub grounded: bool,
    /// The jump key went down.
    pub pressed: bool,
}

/// The budget after a run of ticks: in each tick the budget is first filled up
/// if the actor stands on the ground, and then a jump is taken out of it if
/// the jump key went down and a jump is left.
pub open spec fn budget_after(budget: JumpSystem, ticks: Seq<JumpTick>) -> JumpSystem
    decreases ticks.len(),
{
    if ticks.len() == 0 {
        budget
    } else {
        budget_after(budget, ticks.drop_last()).spec_landed(ticks.last().grounded).spec_pressed(
            ticks.last().pressed,
        )
    }
}

/// Whatever happens, in whatever order, the jumps that are left never exceed
/// the budget and never fall below zero, and the budget itself stays what it
/// was.
pub proof fn lemma_budget_stays_in_bounds(budget: JumpSystem, ticks: Seq<JumpTick>)
    requires
        budget.wf(),
    ensures
        0 <= budget_after(budget, ticks).jumps_remaining <= budget_after(budget, ticks).max_jumps,
        budget_after(budget, ticks).max_jumps == budget.max_jumps,
    decreases ticks.len(),
{
    if ticks.len() > 0 {
        lemma_budget_stays_in_bounds(budget, ticks.drop_last());
    }
}

/// An actor found at or below the ground has its budget of jumps full after
/// the tick has taken note of its footing.
pub proof fn lemma_grounded_actor_has_full_budget(entity: Entity)
    requires
        entity.player is Some,
        entity.physics is Some,
        is_grounded(&(entity.physics->0).bounding_box, &entity.transform),
    ensures
        (entity_after_landing(entity).player->0).jump_system.jumps_remaining == (
        entity.player->0).jump_system.max_jumps,
{
}

/// Taking note of the footing twice is the same as taking note of it once,
/// for every entity.
pub proof fn lemma_landing_is_idempotent(entity: Entity)
    ensures
        entity_after_landing(entity_after_landing(entity)) == entity_after_landing(entity),
{
}

/// Gravity takes `pull` from the vertical speed of an entity above the ground
/// and leaves the rest of it alone.
///
/// The speed after is lower by exactly `pull` wherever that is a speed that
/// can be held, and strictly lower for every positive `pull` unless the speed
/// is already the lowest that can be held.
pub proof fn lemma_airborne_loses_speed(
    velocity: Velocity,
    transform: Transform,
    physics: Physics,
    pull: Scalar,
)
    requires
        bottom_y(&physics.bounding_box, &transform)@ > 0,
    ensures
        ({
            let after = velocity_after_gravity(velocity, transform, physics, pull);
            &&& after.0.y == velocity.0.y.minus(pull)
            &&& after.0.x == velocity.0.x
            &&& after.0.z == velocity.0.z
            &&& i64::MIN <= velocity.0.y@ - pull@ <= i64::MAX ==> after.0.y@ == velocity.0.y@
                - pull@
            &&& pull@ > 0 && velocity.0.y@ > i64::MIN ==> after.0.y@ < velocity.0.y@
        }),
        transform_after_gravity(transform, physics) == transform,
{
}

/// A tick without a jump leaves the vertical speed to gravity: the keys do
/// not touch it.
pub proof fn lemma_input_without_jump_keeps_vertical_speed(
    velocity: Velocity,
    player: Player,
    input: PlayerInput,
)
    requires
        !player.jump_system.jumps(input.jump),
    ensures
        velocity_after_input(velocity, player, input).0.y == velocity.0.y,
{
}

/// The entity after the stages of one tick that act on an entity by itself:
/// the budget of jumps, the keys, gravity, and movement, in this order.
pub open spec fn entity_after_tick(
    entity: Entity,
    input: PlayerInput,
    time: Time,
    constants: Constants,
) -> Entity {
    entity_after_velocity(
        entity_after_gravity(
            entity_after_input(entity_after_landing(entity), input),
            gravity_pull(time, constants),
        ),
        time,
        constants,
    )
}

/// Whether the tick makes `entity` jump: it is an actor with a velocity, the
/// jump key went down, and a jump is left after its footing has been taken
/// note of.
pub open spec fn jumps_in_tick(entity: Entity, input: PlayerInput) -> bool {
    let landed = entity_after_landing(entity);
    landed.player is Some && landed.velocity is Some && (landed.player->0).jump_system.jumps(
        input.jump,
    )
}

/// An entity above the ground that does not jump ends the tick with its
/// vertical speed lower by what gravity takes in one tick, and with its
/// speeds along the ground as the keys want them or as they were.
pub proof fn lemma_airborne_tick_loses_speed(
    entity: Entity,
    input: PlayerInput,
    time: Time,
    constants: Constants,
)
    requires
        entity.physics is Some,
        entity.velocity is Some,
        entity.gravity_affected is Some,
        bottom_y(&(entity.physics->0).bounding_box, &entity.transform)@ > 0,
        !jumps_in_tick(entity, input),
    ensures
        ({
            let before = (entity.velocity->0).0.y;
            let after = (entity_after_tick(entity, input, time, constants).velocity->0).0.y;
            let pull = gravity_pull(time, constants);
            &&& after == before.minus(pull)
            &&& i64::MIN <= before@ - pull@ <= i64::MAX ==> after@ == before@ - pull@
            &&& pull@ > 0 && before@ > i64::MIN ==> after@ < before@
        }),
{
}

/// An entity that starts a tick sunk into the ground ends it standing exactly
/// on the ground and without vertical speed, whatever the keys.
pub proof fn lemma_penetration_is_corrected(
    entity: Entity,
    input: PlayerInput,
    time: Time,
    constants: Constants,
)
    requires
        entity.physics is Some,
        entity.velocity is Some,
        entity.gravity_affected is Some,
        bottom_y(&(entity.physics->0).bounding_box, &entity.transform)@ < 0,
    ensures
        ({
            let after = entity_after_tick(entity, input, time, constants);
            &&& bottom_y(&(after.physics->0).bounding_box, &after.transform)@ == 0
            &&& (after.velocity->0).0.y@ == 0
        }),
{
    let steered = entity_after_input(entity_after_landing(entity), input);
    let pulled = entity_after_gravity(steered, gravity_pull(time, constants));
    assert(steered.transform == entity.transform);
    assert(steered.physics == entity.physics);
    assert((pulled.velocity->0).0.y@ == 0);
    assert(scaled_product(0, time.delta_secs@) == 0) by {
        assert(0 * time.delta_secs@ == 0);
    }
    assert(scaled_product(0, constants.game_speed@) == 0) by {
        assert(0 * constants.game_speed@ == 0);
    }
}

/// An actor that starts a tick sunk into the ground has its budget of jumps
/// filled up in that tick, ends the tick standing exactly on the ground, and
/// has its budget filled up again by the tick that follows.
pub proof fn lemma_landing_refills_budget(
    entity: Entity,
    input: PlayerInput,
    time: Time,
    constants: Constants,
)
    requires
        entity.player is Some,
        entity.physics is Some,
        entity.velocity is Some,
        entity.gravity_affected is Some,
        bottom_y(&(entity.physics->0).bounding_box, &entity.transform)@ < 0,
    ensures
        ({
            let budget = (entity.player->0).jump_system.max_jumps;
            let after = entity_after_tick(entity, input, time, constants);
            &&& (entity_after_landing(entity).player->0).jump_system.jumps_remaining == budget
            &&& !input.jump ==> (after.player->0).jump_system.jumps_remaining == budget
            &&& bottom_y(&(after.physics->0).bounding_box, &after.transform)@ == 0
            &&& (entity_after_landing(after).player->0).jump_system.jumps_remaining == budget
        }),
{
    lemma_penetration_is_corrected(entity, input, time, constants);
}

/// Gravity sees every entity where the tick found it: neither the budget of
/// jumps nor the keys move or reshape an entity, so a jump shows in the
/// position only through the movement that ends the tick.
pub proof fn lemma_gravity_sees_the_start_of_the_tick(entity: Entity, input: PlayerInput)
    ensures
        entity_after_input(entity_after_landing(entity), input).transform == entity.transform,
        entity_after_input(entity_after_landing(entity), input).physics == entity.physics,
        entity_after_input(entity_after_landing(entity), input).gravity_affected
            == entity.gravity_affected,
{
}

/// A tick leaves the jumps of an actor within its budget, and makes no entity
/// an actor that was none.
pub proof fn lemma_tick_keeps_budget_in_bounds(
    entity: Entity,
    input: PlayerInput,
    time: Time,
    constants: Constants,
)
    requires
        entity.player is Some ==> (entity.player->0).jump_system.wf(),
    ensures
        ({
            let after = entity_after_tick(entity, input, time, constants);
            &&& after.player is Some <==> entity.player is Some
            &&& after.player is Some ==> (after.player->0).jump_system.wf()
            &&& after.player is Some ==> (after.player->0).jump_system.max_jumps == (
            entity.player->0).jump_system.max_jumps
        }),
{
}

/// Whether `schedule` runs all the stages that act on an entity by itself.
pub open spec fn runs_every_entity_stage(schedule: Schedule) -> bool {
    schedule.jump && schedule.player_keyboard && schedule.gravity && schedule.velocity
}

/// The stages of a tick do to every entity but the camera what
/// `entity_after_tick` says, whatever else is in the scene.
pub proof fn lemma_update_acts_on_each_entity(
    schedule: Schedule,
    entities: Seq<Entity>,
    window: Option<Window>,
    input: PlayerInput,
    motion: Vec2,
    vertical_sensitivity: Scalar,
    horizontal_sensitivity: Scalar,
    time: Time,
    constants: Constants,
    id: int,
)
    requires
        runs_every_entity_stage(schedule),
        0 <= id < entities.len(),
        entities[id].camera is None,
    ensures
        ({
            let after = schedule.after_update(
                entities,
                window,
                input,
                motion,
                vertical_sensitivity,
                horizontal_sensitivity,
                time,
                constants,
            );
            &&& after.len() == entities.len()
            &&& after[id] == entity_after_tick(entities[id], input, time, constants)
        }),
{
}

/// In a scene that runs all its stages, an entity that starts a tick sunk
/// into the ground ends it standing exactly on the ground and without
/// vertical speed.
pub proof fn lemma_update_corrects_penetration(
    schedule: Schedule,
    entities: Seq<Entity>,
    window: Option<Window>,
    input: PlayerInput,
    motion: Vec2,
    vertical_sensitivity: Scalar,
    horizontal_sensitivity: Scalar,
    time: Time,
    constants: Constants,
    id: int,
)
    requires
        runs_every_entity_stage(schedule),
        0 <= id < entities.len(),
        entities[id].camera is None,
        entities[id].physics is Some,
        entities[id].velocity is Some,
        entities[id].gravity_affected is Some,
        bottom_y(&(entities[id].physics->0).bounding_box, &entities[id].transform)@ < 0,
    ensures
        ({
            let after = schedule.after_update(
                entities,
                window,
                input,
                motion,
                vertical_sensitivity,
                horizontal_sensitivity,
                time,
                constants,
            )[id];
            &&& bottom_y(&(after.physics->0).bounding_box, &after.transform)@ == 0
            &&& (after.velocity->0).0.y@ == 0
        }),
{
    lemma_update_acts_on_each_entity(
        schedule,
        entities,
        window,
        input,
        motion,
        vertical_sensitivity,
        horizontal_sensitivity,
        time,
        constants,
        id,
    );
    lemma_penetration_is_corrected(entities[id], input, time, constants);
}

/// The camera after the pointer has moved in one tick after another.
pub open spec fn camera_after_motions(
    camera: PlayerCamera,
    motions: Seq<Vec2>,
    vertical_sensitivity: Scalar,
    horizontal_sensitivity: Scalar,
) -> PlayerCamera
    decreases motions.len(),
{
    if motions.len() == 0 {
        camera
    } else {
        camera_after_motions(
            camera,
            motions.drop_last(),
            vertical_sensitivity,
            horizontal_sensitivity,
        ).spec_rotated(motions.last(), vertical_sensitivity, horizontal_sensitivity)
    }
}

/// However the pointer moves, and for however long, the pitch of a camera
/// stays within a quarter of a turn either way, and its lag and its distance
/// stay what they were.
pub proof fn lemma_pitch_stays_in_range(
    camera: PlayerCamera,
    motions: Seq<Vec2>,
    vertical_sensitivity: Scalar,
    horizontal_sensitivity: Scalar,
)
    requires
        -FRAC_PI_2 <= camera.pitch@ <= FRAC_PI_2,
    ensures
        ({
            let after = camera_after_motions(
                camera,
                motions,
                vertical_sensitivity,
                horizontal_sensitivity,
            );
            &&& -FRAC_PI_2 <= after.pitch@ <= FRAC_PI_2
            &&& after.lag_amount == camera.lag_amount
            &&& after.orbit_distance == camera.orbit_distance
        }),
    decreases motions.len(),
{
    if motions.len() > 0 {
        lemma_pitch_stays_in_range(
            camera,
            motions.drop_last(),
            vertical_sensitivity,
            horizontal_sensitivity,
        );
    }
}

/// A camera whose lag is the whole of the way is at its place in orbit after
/// one tick.
pub proof fn lemma_full_lag_reaches_orbit(
    camera: PlayerCamera,
    transform: Transform,
    origin: Vec3,
    boresight: Vec3,
)
    requires
        camera.lag_amount@ == SCALE,
    ensures
        camera.spec_followed(transform, origin, boresight).translation
            == camera.spec_orbit_translation(origin, boresight),
{
    let target = camera.spec_orbit_translation(origin, boresight);
    lemma_lerp_whole(transform.translation.x, target.x);
    lemma_lerp_whole(transform.translation.y, target.y);
    lemma_lerp_whole(transform.translation.z, target.z);
}

/// Whether `between` lies between `from` and `to`, no further from `from`
/// than the share `t` of the way.
pub open spec fn within_share(from: Scalar, between: Scalar, to: Scalar, t: Scalar) -> bool {
    if from@ <= to@ {
        from@ <= between@ <= to@ && (between@ - from@) * SCALE <= (to@ - from@) * t@
    } else {
        from@ >= between@ >= to@ && (from@ - between@) * SCALE <= (from@ - to@) * t@
    }
}

/// In one tick a camera covers no more than the share `lag_amount` of the way
/// to its place in orbit, along each axis, and does not pass it. A camera
/// without lag to cover stays where it is.
pub proof fn lemma_lag_bounds_step(
    camera: PlayerCamera,
    transform: Transform,
    origin: Vec3,
    boresight: Vec3,
)
    requires
        0 <= camera.lag_amount@ <= SCALE,
    ensures
        ({
            let target = camera.spec_orbit_translation(origin, boresight);
            let after = camera.spec_followed(transform, origin, boresight).translation;
            &&& within_share(transform.translation.x, after.x, target.x, camera.lag_amount)
            &&& within_share(transform.translation.y, after.y, target.y, camera.lag_amount)
            &&& within_share(transform.translation.z, after.z, target.z, camera.lag_amount)
            &&& camera.lag_amount@ == 0 ==> after == transform.translation
        }),
{
    let target = camera.spec_orbit_translation(origin, boresight);
    lemma_lerp_share(transform.translation.x, target.x, camera.lag_amount);
    lemma_lerp_share(transform.translation.y, target.y, camera.lag_amount);
    lemma_lerp_share(transform.translation.z, target.z, camera.lag_amount);
}

} // verus!
