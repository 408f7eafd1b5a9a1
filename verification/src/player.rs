//! The actor that a person steers, its budget of jumps, and the camera that
//! orbits it.

use vstd::prelude::*;
use crate::bounding::{is_grounded, BoundingBox, GroundCollision};
use crate::constants::JUMP_SPEED;
use crate::cursor_control::Window;
use crate::keybinds::KeyBinds;
use crate::movement_system::{GravityAffected, Physics, Velocity};
use crate::scalar::{Scalar, SCALE};
use crate::schedule::Schedule;
use crate::transform::Transform;
use crate::utils::is_window_grabbed;
use crate::vector::{Vec2, Vec3};
use crate::world::{
    camera_slot, lemma_camera_slot, lemma_player_slot, player_slot, Entity, SpawnError, World,
};

verus! {

/// A quarter of a turn, in millionths of a radian and rounded toward zero:
/// the steepest pitch of the camera, up or down.
pub const FRAC_PI_2: i64 = 1_570_796;

/// How many jumps an actor may make before it has to touch the ground again.
#[derive(Clone, Copy, Debug, PartialEq, Eq, Structural)]
pub struct JumpSystem {
    pub max_jumps: u8,
    pub jumps_remaining: u8,
}

/// Marks the entity that a person steers.
#[derive(Clone, Copy, Debug, PartialEq, Eq, Structural)]
pub struct Player {
    pub jump_system: JumpSystem,
}

/// The movement keys as they stand during one tick.
#[derive(Clone, Copy, Debug, PartialEq, Eq, Structural)]
pub struct PlayerInput {
    /// Held down during this tick.
    pub move_forward: bool,
    /// Held down during this tick.
    pub move_backwards: bool,
    /// Held down during this tick.
    pub move_left: bool,
    /// Held down during this tick.
    pub move_right: bool,
    /// Went down in this tick, having been up in the one before.
    pub jump: bool,
}

/// A camera that orbits an actor at a fixed distance.
#[derive(Clone, Copy, Debug, PartialEq, Eq, Structural)]
pub struct PlayerCamera {
    /// The share of the remaining way that the camera covers in one tick.
    pub lag_amount: Scalar,
    /// The distance that the camera keeps from the actor.
    pub orbit_distance: Scalar,
    /// The turn about the camera's own X axis, in radians.
    pub pitch: Scalar,
    /// The turn about the world's Y axis, in radians.
    pub yaw: Scalar,
}

/// Enters the actor, its keys and its camera into a schedule.
#[derive(Clone, Copy, Debug, PartialEq, Eq, Structural)]
pub struct PlayerPlugin;

impl PlayerPlugin {
    /// Enters the stages of this plug-in into `schedule`.
    pub fn build(&self, schedule: &mut Schedule)
        ensures
            *final(schedule) == (Schedule {
                spawn_player: true,
                spawn_camera: true,
                jump: true,
                player_keyboard: true,
                camera_movement: true,
                ..*old(schedule)
            }),
    {
        schedule.spawn_player = true;
        schedule.spawn_camera = true;
        schedule.jump = true;
        schedule.player_keyboard = true;
        schedule.camera_movement = true;
    }
}

impl JumpSystem {
    /// No more jumps are left than the budget allows.
    pub open spec fn wf(self) -> bool {
        self.jumps_remaining <= self.max_jumps
    }

    /// The budget filled up again.
    pub open spec fn spec_refilled(self) -> JumpSystem {
        JumpSystem { max_jumps: self.max_jumps, jumps_remaining: self.max_jumps }
    }

    /// The budget after `grounded` has been taken note of: filled up again on
    /// the ground, unchanged in the air.
    pub open spec fn spec_landed(self, grounded: bool) -> JumpSystem {
        if grounded {
            self.spec_refilled()
        } else {
            self
        }
    }

    /// Whether a press of the jump key makes the actor jump.
    pub open spec fn jumps(self, pressed: bool) -> bool {
        pressed && self.jumps_remaining > 0
    }

    /// The budget after a press of the jump key, or none.
    pub open spec fn spec_pressed(self, pressed: bool) -> JumpSystem {
        if self.jumps(pressed) {
            JumpSystem {
                max_jumps: self.max_jumps,
                jumps_remaining: (self.jumps_remaining - 1) as u8,
            }
        } else {
            self
        }
    }

    /// A full budget of `max_jumps` jumps.
    pub fn new(max_jumps: u8) -> (r: JumpSystem)
        ensures
            r == (JumpSystem { max_jumps, jumps_remaining: max_jumps }),
            r.wf(),
    {
        JumpSystem { max_jumps, jumps_remaining: max_jumps }
    }

    /// Takes note of whether the actor stands on the ground, and fills the
    /// budget up if it does.
    pub fn land(&mut self, grounded: bool)
        ensures
            *final(self) == old(self).spec_landed(grounded),
            grounded ==> final(self).wf(),
            old(self).wf() ==> final(self).wf(),
    {
        if grounded {
            self.jumps_remaining = self.max_jumps;
        }
    }

    /// Takes a jump out of the budget if the jump key was pressed and a jump
    /// is left, and says whether it did.
    pub fn press(&mut self, pressed: bool) -> (jumped: bool)
        ensures
            jumped == old(self).jumps(pressed),
            *final(self) == old(self).spec_pressed(pressed),
            old(self).wf() ==> final(self).wf(),
    {
        if pressed && self.jumps_remaining > 0 {
            self.jumps_remaining = self.jumps_remaining - 1;
            true
        } else {
            false
        }
    }
}

/// The speed along one axis that two opposed keys ask for: one unit per
/// second toward the key that is held alone, none when both or neither are
/// held.
pub open spec fn axis_intent(positive: bool, negative: bool) -> Scalar {
    if positive && !negative {
        Scalar { micros: SCALE }
    } else if negative && !positive {
        Scalar::saturated(-SCALE)
    } else {
        Scalar { micros: 0 }
    }
}

/// Computes [`axis_intent`].
pub fn axis(positive: bool, negative: bool) -> (r: Scalar)
    ensures
        r == axis_intent(positive, negative),
{
    if positive && !negative {
        Scalar::new(SCALE)
    } else if negative && !positive {
        Scalar::new(-SCALE)
    } else {
        Scalar::zero()
    }
}

/// The velocity of an actor after its keys have been read.
///
/// The speed to the right and the speed backwards follow the keys that are
/// held, whatever they were before. The vertical speed becomes the jump speed
/// if the actor jumps, and is left alone if not.
pub open spec fn velocity_after_input(
    velocity: Velocity,
    player: Player,
    input: PlayerInput,
) -> Velocity {
    Velocity(
        Vec3 {
            x: axis_intent(input.move_right, input.move_left),
            y: if player.jump_system.jumps(input.jump) {
                Scalar { micros: JUMP_SPEED }
            } else {
                velocity.0.y
            },
            z: axis_intent(input.move_backwards, input.move_forward),
        },
    )
}

/// The actor after its keys have been read: a jump is taken out of its budget
/// if it jumps.
pub open spec fn player_after_input(player: Player, input: PlayerInput) -> Player {
    Player { jump_system: player.jump_system.spec_pressed(input.jump) }
}

/// Reads the keys of one tick into the velocity and the jump budget of an
/// actor.
pub fn steer(velocity: &mut Velocity, player: &mut Player, input: &PlayerInput)
    ensures
        *final(velocity) == velocity_after_input(*old(velocity), *old(player), *input),
        *final(player) == player_after_input(*old(player), *input),
        old(player).jump_system.wf() ==> final(player).jump_system.wf(),
{
    velocity.0.x = axis(input.move_right, input.move_left);
    velocity.0.z = axis(input.move_backwards, input.move_forward);
    if player.jump_system.press(input.jump) {
        velocity.0.y = Scalar::new(JUMP_SPEED);
    }
}

impl PlayerCamera {
    /// The lag is a share above nothing and up to the whole, the distance is
    /// positive, and the pitch is no steeper than a quarter of a turn.
    pub open spec fn wf(self) -> bool {
        &&& 0 < self.lag_amount@ <= SCALE
        &&& 0 < self.orbit_distance@
        &&& -FRAC_PI_2 <= self.pitch@ <= FRAC_PI_2
    }

    /// The camera that a scene starts with: ten units away, covering a tenth
    /// of the way in each tick, pitched forty degrees down and yawed
    /// forty-five degrees.
    pub open spec fn spec_default() -> PlayerCamera {
        PlayerCamera {
            lag_amount: Scalar { micros: 100_000 },
            orbit_distance: Scalar { micros: 10_000_000 },
            pitch: Scalar::saturated(-698_132),
            yaw: Scalar { micros: 785_398 },
        }
    }

    /// The camera after the pointer has moved by `motion`.
    ///
    /// A movement to the right turns the yaw down, a movement downward
    /// turns the pitch down, each by its sensitivity. The pitch stops at a
    /// quarter of a turn either way.
    pub open spec fn spec_rotated(
        self,
        motion: Vec2,
        vertical_sensitivity: Scalar,
        horizontal_sensitivity: Scalar,
    ) -> PlayerCamera {
        PlayerCamera {
            yaw: self.yaw.minus(motion.x.times(horizontal_sensitivity)),
            pitch: self.pitch.minus(motion.y.times(vertical_sensitivity)).clamp(
                Scalar::saturated(-FRAC_PI_2),
                Scalar { micros: FRAC_PI_2 },
            ),
            ..self
        }
    }

    /// The point at which the camera wants to be: away from `origin` by the
    /// orbit distance, in the direction `boresight`.
    pub open spec fn spec_orbit_translation(self, origin: Vec3, boresight: Vec3) -> Vec3 {
        origin.plus(boresight.scaled(self.orbit_distance))
    }

    /// The placement at which the camera wants to be, looking at `origin`.
    pub open spec fn spec_orbit_transform(self, origin: Vec3, boresight: Vec3) -> Transform {
        Transform::from_translation(self.spec_orbit_translation(origin, boresight)).looking_at(
            origin,
        )
    }

    /// The placement of the camera after one tick of following `origin`.
    ///
    /// The camera covers the share `lag_amount` of the way to the point at
    /// which it wants to be, and then looks at `origin` itself.
    pub open spec fn spec_followed(
        self,
        transform: Transform,
        origin: Vec3,
        boresight: Vec3,
    ) -> Transform {
        Transform {
            translation: transform.translation.lerp(
                self.spec_orbit_translation(origin, boresight),
                self.lag_amount,
            ),
            ..transform
        }.looking_at(origin)
    }

    /// The point at which the camera wants to be when it orbits `origin`.
    ///
    /// `boresight` is the direction from the actor to the camera: the unit
    /// vector along the orbit axis, turned first by the pitch about its own X
    /// axis and then by the yaw about the world's Y axis.
    pub fn get_orbit_translation(&self, origin: &Vec3, boresight: &Vec3) -> (r: Vec3)
        ensures
            r == self.spec_orbit_translation(*origin, *boresight),
    {
        let orbit_pos = boresight.scaled(self.orbit_distance);
        origin.plus(orbit_pos)
    }

    /// The placement at which the camera wants to be when it orbits
    /// `origin`, turned to look at `origin`.
    pub fn orbit_and_look_at_origin_transformation(
        &self,
        origin: &Vec3,
        boresight: &Vec3,
    ) -> (r: Transform)
        ensures
            r == self.spec_orbit_transform(*origin, *boresight),
    {
        Transform::from_translation(self.get_orbit_translation(origin, boresight)).looking_at(
            *origin,
        )
    }

    /// Moves the camera for one tick toward the point at which it wants to
    /// be, and turns it to look at `origin`.
    pub fn follow(&self, transform: &mut Transform, origin: &Vec3, boresight: &Vec3)
        ensures
            *final(transform) == self.spec_followed(*old(transform), *origin, *boresight),
    {
        let target_pos = self.get_orbit_translation(origin, boresight);
        transform.translation = transform.translation.lerp(target_pos, self.lag_amount);
        transform.look_at(*origin);
    }
}

impl Default for PlayerCamera {
    /// A camera ten units away that covers a tenth of the way in each tick,
    /// pitched forty degrees down and yawed forty-five degrees.
    fn default() -> (r: PlayerCamera)
        ensures
            r == PlayerCamera::spec_default(),
            r.wf(),
    {
        PlayerCamera {
            lag_amount: Scalar::new(100_000),
            orbit_distance: Scalar::new(10_000_000),
            pitch: Scalar::new(-698_132),
            yaw: Scalar::new(785_398),
        }
    }
}

/// Turns the camera by the movement of the pointer during one tick.
pub fn adjust_camera_rotation(
    camera: &mut PlayerCamera,
    motion: Vec2,
    vertical_sensitivity: Scalar,
    horizontal_sensitivity: Scalar,
)
    ensures
        *final(camera) == old(camera).spec_rotated(
            motion,
            vertical_sensitivity,
            horizontal_sensitivity,
        ),
        -FRAC_PI_2 <= final(camera).pitch@ <= FRAC_PI_2,
        old(camera).wf() ==> final(camera).wf(),
{
    camera.yaw = camera.yaw.minus(motion.x.times(horizontal_sensitivity));
    camera.pitch = camera.pitch.minus(motion.y.times(vertical_sensitivity)).clamp(
        Scalar::new(-FRAC_PI_2),
        Scalar::new(FRAC_PI_2),
    );
}

/// The actor that a scene starts with: half a unit above the ground, at
/// rest, in a box one unit wide, with a budget of two jumps.
pub open spec fn player_bundle() -> Entity {
    let half = Scalar { micros: 500_000 };
    let zero = Scalar { micros: 0 };
    Entity {
        transform: Transform::from_translation(Vec3 { x: zero, y: half, z: zero }),
        velocity: Some(Velocity(Vec3 { x: zero, y: zero, z: zero })),
        physics: Some(
            Physics { bounding_box: BoundingBox::Cube(Vec3 { x: half, y: half, z: half }) },
        ),
        gravity_affected: Some(GravityAffected),
        player: Some(Player { jump_system: JumpSystem { max_jumps: 2, jumps_remaining: 2 } }),
        camera: None,
    }
}

/// The camera that a scene starts with, in orbit of `origin`.
pub open spec fn camera_bundle(origin: Vec3, boresight: Vec3) -> Entity {
    let zero = Scalar { micros: 0 };
    Entity {
        transform: PlayerCamera::spec_default().spec_orbit_transform(origin, boresight),
        velocity: Some(Velocity(Vec3 { x: zero, y: zero, z: zero })),
        physics: None,
        gravity_affected: None,
        player: None,
        camera: Some(PlayerCamera::spec_default()),
    }
}

/// Puts the actor into the scene and gives its slot. A scene that has an
/// actor keeps it and takes no second one.
pub fn spawn_player(world: &mut World) -> (r: Result<usize, SpawnError>)
    ensures
        match r {
            Ok(id) => {
                &&& player_slot(old(world)@) is None
                &&& id == old(world)@.len()
                &&& final(world)@ == old(world)@.push(player_bundle())
            },
            Err(e) => {
                &&& player_slot(old(world)@) is Some
                &&& e == SpawnError::SecondPlayer
                &&& final(world)@ == old(world)@
            },
        },
{
    let half = Scalar::new(500_000);
    let entity = Entity {
        transform: Transform::from_xyz(Scalar::zero(), half, Scalar::zero()),
        velocity: Some(Velocity(Vec3::zero())),
        physics: Some(Physics { bounding_box: BoundingBox::Cube(Vec3::new(half, half, half)) }),
        gravity_affected: Some(GravityAffected),
        player: Some(Player { jump_system: JumpSystem::new(2) }),
        camera: None,
    };
    world.spawn(entity)
}

/// Puts the camera into the scene, in orbit of the actor, and gives its slot.
///
/// Without an actor there is nothing to orbit, and no camera is made. A scene
/// that has a camera keeps it and takes no second one. `boresight` is the
/// direction from the actor to the camera for the pitch and the yaw that a
/// camera starts with.
pub fn spawn_camera(world: &mut World, boresight: &Vec3) -> (r: Result<Option<usize>, SpawnError>)
    ensures
        match r {
            Ok(Some(id)) => {
                &&& player_slot(old(world)@) is Some
                &&& camera_slot(old(world)@) is None
                &&& id == old(world)@.len()
                &&& final(world)@ == old(world)@.push(
                    camera_bundle(
                        old(world)@[player_slot(old(world)@)->0].transform.translation,
                        *boresight,
                    ),
                )
            },
            Ok(None) => {
                &&& player_slot(old(world)@) is None
                &&& final(world)@ == old(world)@
            },
            Err(e) => {
                &&& player_slot(old(world)@) is Some
                &&& camera_slot(old(world)@) is Some
                &&& e == SpawnError::SecondCamera
                &&& final(world)@ == old(world)@
            },
        },
{
    let player_id = world.player_id();
    if let Some(player_id) = player_id {
        if let Some(player) = world.get(player_id) {
            let player_camera = PlayerCamera::default();
            let entity = Entity {
                transform: player_camera.orbit_and_look_at_origin_transformation(
                    &player.transform.translation,
                    boresight,
                ),
                velocity: Some(Velocity(Vec3::zero())),
                physics: None,
                gravity_affected: None,
                player: None,
                camera: Some(player_camera),
            };
            return match world.spawn(entity) {
                Ok(id) => Ok(Some(id)),
                Err(e) => Err(e),
            };
        }
    }
    Ok(None)
}

/// The entity after its footing has been taken note of: an actor with a
/// volume that stands on the ground has its budget of jumps filled up.
pub open spec fn entity_after_landing(entity: Entity) -> Entity {
    if entity.player is Some && entity.physics is Some {
        Entity {
            player: Some(
                Player {
                    jump_system: (entity.player->0).jump_system.spec_landed(
                        is_grounded(&(entity.physics->0).bounding_box, &entity.transform),
                    ),
                },
            ),
            ..entity
        }
    } else {
        entity
    }
}

/// The entity after the keys of one tick have been read: an actor with a
/// velocity is steered by them.
pub open spec fn entity_after_input(entity: Entity, input: PlayerInput) -> Entity {
    if entity.player is Some && entity.velocity is Some {
        Entity {
            velocity: Some(velocity_after_input(entity.velocity->0, entity.player->0, input)),
            player: Some(player_after_input(entity.player->0, input)),
            ..entity
        }
    } else {
        entity
    }
}

/// The entities after the footing of each has been taken note of.
pub open spec fn entities_after_landing(entities: Seq<Entity>) -> Seq<Entity> {
    Seq::new(entities.len(), |id: int| entity_after_landing(entities[id]))
}

/// The entities after the keys of one tick have been read.
pub open spec fn entities_after_input(entities: Seq<Entity>, input: PlayerInput) -> Seq<Entity> {
    Seq::new(entities.len(), |id: int| entity_after_input(entities[id], input))
}

/// Fills up the budget of jumps of the actor if it stands on the ground.
/// This happens in every tick that finds the actor on the ground, not only
/// in the one in which it lands.
pub fn jump_system(world: &mut World)
    ensures
        final(world)@ == entities_after_landing(old(world)@),
{
    let player_id = world.player_id();
    proof {
        lemma_player_slot(world@);
    }
    if let Some(player_id) = player_id {
        if let Some(entity) = world.get(player_id) {
            if let (Some(player), Some(physics)) = (entity.player, entity.physics) {
                let mut player = player;
                let grounded = physics.bounding_box.object_is_grounded(&entity.transform);
                player.jump_system.land(grounded);
                world.replace(player_id, Entity { player: Some(player), ..entity });
            }
        }
    }
}

/// Reads the keys of one tick into the velocity and the budget of jumps of
/// the actor. Without an actor nothing happens.
pub fn player_keyboard_event_system(world: &mut World, input: &PlayerInput)
    ensures
        final(world)@ == entities_after_input(old(world)@, *input),
{
    let player_id = world.player_id();
    proof {
        lemma_player_slot(world@);
    }
    if let Some(player_id) = player_id {
        if let Some(entity) = world.get(player_id) {
            if let (Some(player), Some(velocity)) = (entity.player, entity.velocity) {
                let mut player = player;
                let mut velocity = velocity;
                steer(&mut velocity, &mut player, input);
                world.replace(
                    player_id,
                    Entity { velocity: Some(velocity), player: Some(player), ..entity },
                );
            }
        }
    }
}

/// The whole movement of the pointer during one tick: its steps added up in
/// the order in which they came.
pub open spec fn motion_sum(steps: Seq<Vec2>) -> Vec2
    decreases steps.len(),
{
    if steps.len() == 0 {
        Vec2 { x: Scalar { micros: 0 }, y: Scalar { micros: 0 } }
    } else {
        motion_sum(steps.drop_last()).plus(steps.last())
    }
}

/// Adds up the steps that the pointer made during one tick.
pub fn total_mouse_motion(steps: &Vec<Vec2>) -> (total: Vec2)
    ensures
        total == motion_sum(steps@),
{
    let mut total = Vec2::zero();
    let mut taken: usize = 0;
    while taken < steps.len()
        invariant
            taken <= steps.len(),
            total == motion_sum(steps@.take(taken as int)),
        decreases steps.len() - taken,
    {
        assert(steps@.take(taken + 1).drop_last() == steps@.take(taken as int));
        total = total.plus(steps[taken]);
        taken = taken + 1;
    }
    assert(steps@.take(taken as int) == steps@);
    total
}

/// Whether the camera has all that it needs to work: a window, an actor to
/// orbit, and itself.
pub open spec fn camera_ready(entities: Seq<Entity>, window: Option<Window>) -> bool {
    window is Some && player_slot(entities) is Some && camera_slot(entities) is Some
}

/// The entities after the pointer has turned the camera.
///
/// The camera turns only while the window holds the pointer. While it does
/// not, the movement of the pointer is dropped.
pub open spec fn entities_after_rotation(
    entities: Seq<Entity>,
    window: Option<Window>,
    motion: Vec2,
    vertical_sensitivity: Scalar,
    horizontal_sensitivity: Scalar,
) -> Seq<Entity> {
    if camera_ready(entities, window) && is_window_grabbed(&window->0) {
        let slot = camera_slot(entities)->0;
        entities.update(
            slot,
            Entity {
                camera: Some(
                    (entities[slot].camera->0).spec_rotated(
                        motion,
                        vertical_sensitivity,
                        horizontal_sensitivity,
                    ),
                ),
                ..entities[slot]
            },
        )
    } else {
        entities
    }
}

/// The entities after the camera has followed the actor for one tick.
pub open spec fn entities_after_follow(
    entities: Seq<Entity>,
    window: Option<Window>,
    boresight: Vec3,
) -> Seq<Entity> {
    if camera_ready(entities, window) {
        let slot = camera_slot(entities)->0;
        let origin = entities[player_slot(entities)->0].transform.translation;
        entities.update(
            slot,
            Entity {
                transform: (entities[slot].camera->0).spec_followed(
                    entities[slot].transform,
                    origin,
                    boresight,
                ),
                ..entities[slot]
            },
        )
    } else {
        entities
    }
}

/// Turns the camera by the steps that the pointer made during one tick,
/// while the window holds the pointer.
///
/// Without a window, an actor or a camera nothing happens.
pub fn camera_rotation_system<K, B>(
    world: &mut World,
    window: &Option<Window>,
    mouse_motion: &Vec<Vec2>,
    keybinds: &KeyBinds<K, B>,
)
    ensures
        final(world)@ == entities_after_rotation(
            old(world)@,
            *window,
            motion_sum(mouse_motion@),
            keybinds.vertical_sensitivity,
            keybinds.horizontal_sensitivity,
        ),
{
    let player_id = world.player_id();
    let camera_id = world.camera_id();
    proof {
        lemma_camera_slot(world@);
    }
    if let (Some(window), Some(_), Some(camera_id)) = (*window, player_id, camera_id) {
        if is_window_grabbed(&window) {
            if let Some(entity) = world.get(camera_id) {
                if let Some(camera) = entity.camera {
                    let mut camera = camera;
                    let total_mouse_motion = total_mouse_motion(mouse_motion);
                    adjust_camera_rotation(
                        &mut camera,
                        total_mouse_motion,
                        keybinds.vertical_sensitivity,
                        keybinds.horizontal_sensitivity,
                    );
                    world.replace(camera_id, Entity { camera: Some(camera), ..entity });
                }
            }
        }
    }
}

/// Moves the camera for one tick toward its place in orbit of the actor and
/// turns it to look at the actor where the actor stands now.
///
/// `boresight` is the direction from the actor to the camera for the pitch
/// and the yaw that the camera has now. Without a window, an actor or a
/// camera nothing happens.
pub fn camera_movement_system(world: &mut World, window: &Option<Window>, boresight: &Vec3)
    ensures
        final(world)@ == entities_after_follow(old(world)@, *window, *boresight),
{
    let player_id = world.player_id();
    let camera_id = world.camera_id();
    proof {
        lemma_camera_slot(world@);
        lemma_player_slot(world@);
    }
    if let (Some(_), Some(player_id), Some(camera_id)) = (*window, player_id, camera_id) {
        if let (Some(player), Some(entity)) = (world.get(player_id), world.get(camera_id)) {
            if let Some(camera) = entity.camera {
                let mut transform = entity.transform;
                camera.follow(&mut transform, &player.transform.translation, boresight);
                world.replace(camera_id, Entity { transform, ..entity });
            }
        }
    }
}

} // verus!
