//! The stages of a scene in the order in which they run.
//!
//! A scene is put together once: each plug-in enters its stages into the
//! [`Schedule`]. From then on the stages that were entered run in a fixed
//! order, whatever the order in which they were entered. A stage reads what
//! the stages before it have left, so the order is part of what a tick means.

use vstd::prelude::*;
use crate::constants::Constants;
use crate::cursor_control::{
    control_cursor_grab_system, grab_cursor_at_startup_system, window_after_input,
    window_grabbed, CursorInput, Window,
};
use crate::keybinds::KeyBinds;
use crate::movement_system::{
    apply_gravity, apply_velocity, entities_after_gravity, entities_after_velocity, gravity_pull,
    Time,
};
use crate::player::{
    camera_bundle, camera_movement_system, camera_rotation_system, entities_after_follow,
    entities_after_input, entities_after_landing, entities_after_rotation, jump_system,
    motion_sum, player_bundle, player_keyboard_event_system, spawn_camera, spawn_player,
    PlayerInput,
};
use crate::scalar::Scalar;
use crate::vector::{Vec2, Vec3};
use crate::world::{camera_slot, player_slot, Entity, SpawnError, World};

verus! {

/// Which stages a scene runs.
#[derive(Clone, Copy, Debug, PartialEq, Eq, Structural)]
pub struct Schedule {
    /// At the start: capture the pointer.
    pub grab_cursor_at_startup: bool,
    /// At the start: make the actor.
    pub spawn_player: bool,
    /// At the start, after the actor: make the camera.
    pub spawn_camera: bool,
    /// In each tick: capture and release the pointer by the keys.
    pub control_cursor_grab: bool,
    /// In each tick: fill up the budget of jumps on the ground.
    pub jump: bool,
    /// In each tick: steer the actor by the keys.
    pub player_keyboard: bool,
    /// In each tick: let gravity act.
    pub gravity: bool,
    /// In each tick: move what has a velocity.
    pub velocity: bool,
    /// In each tick: turn the camera and let it follow the actor.
    pub camera_movement: bool,
}

/// What a person did during one tick.
pub struct TickInput {
    pub player: PlayerInput,
    pub cursor: CursorInput,
    /// The steps of the pointer, in the order in which they came.
    pub mouse_motion: Vec<Vec2>,
}

/// The entities after an actor has been asked for, and why it was refused,
/// if it was: there is one entity more, unless there is an actor already.
pub open spec fn after_spawn_player(entities: Seq<Entity>) -> (Seq<Entity>, Option<SpawnError>) {
    if player_slot(entities) is Some {
        (entities, Some(SpawnError::SecondPlayer))
    } else {
        (entities.push(player_bundle()), None)
    }
}

/// The entities after a camera has been asked for, and why it was refused,
/// if it was: there is one entity more if there is an actor to orbit and no
/// camera yet.
pub open spec fn after_spawn_camera(entities: Seq<Entity>, boresight: Vec3) -> (
    Seq<Entity>,
    Option<SpawnError>,
) {
    if player_slot(entities) is None {
        (entities, None)
    } else if camera_slot(entities) is Some {
        (entities, Some(SpawnError::SecondCamera))
    } else {
        let origin = entities[player_slot(entities)->0].transform.translation;
        (entities.push(camera_bundle(origin, boresight)), None)
    }
}

impl Schedule {
    /// The window after the start of the scene.
    pub open spec fn window_after_startup(self, window: Option<Window>) -> Option<Window> {
        if self.grab_cursor_at_startup {
            window_grabbed(window)
        } else {
            window
        }
    }

    /// The entities after the start of the scene, and why it broke off, if
    /// it did: first the actor is made, then the camera, and the start breaks
    /// off at the first of the two that is refused.
    pub open spec fn after_startup(self, entities: Seq<Entity>, boresight: Vec3) -> (
        Seq<Entity>,
        Option<SpawnError>,
    ) {
        let first = if self.spawn_player {
            after_spawn_player(entities)
        } else {
            (entities, None)
        };
        if first.1 is None && self.spawn_camera {
            after_spawn_camera(first.0, boresight)
        } else {
            first
        }
    }

    /// The window after the keys of one tick.
    pub open spec fn window_after_update(
        self,
        window: Option<Window>,
        input: CursorInput,
    ) -> Option<Window> {
        if self.control_cursor_grab {
            window_after_input(window, input)
        } else {
            window
        }
    }

    /// The entities after the budget of jumps has been seen to.
    pub open spec fn after_jump(self, entities: Seq<Entity>) -> Seq<Entity> {
        if self.jump {
            entities_after_landing(entities)
        } else {
            entities
        }
    }

    /// The entities after the actor has been steered.
    pub open spec fn after_player_keyboard(
        self,
        entities: Seq<Entity>,
        input: PlayerInput,
    ) -> Seq<Entity> {
        if self.player_keyboard {
            entities_after_input(entities, input)
        } else {
            entities
        }
    }

    /// The entities after gravity has acted.
    pub open spec fn after_gravity(self, entities: Seq<Entity>, pull: Scalar) -> Seq<Entity> {
        if self.gravity {
            entities_after_gravity(entities, pull)
        } else {
            entities
        }
    }

    /// The entities after they have moved.
    pub open spec fn after_velocity(
        self,
        entities: Seq<Entity>,
        time: Time,
        constants: Constants,
    ) -> Seq<Entity> {
        if self.velocity {
            entities_after_velocity(entities, time, constants)
        } else {
            entities
        }
    }

    /// The entities after the pointer has turned the camera.
    pub open spec fn after_camera_rotation(
        self,
        entities: Seq<Entity>,
        window: Option<Window>,
        motion: Vec2,
        vertical_sensitivity: Scalar,
        horizontal_sensitivity: Scalar,
    ) -> Seq<Entity> {
        if self.camera_movement {
            entities_after_rotation(
                entities,
                window,
                motion,
                vertical_sensitivity,
                horizontal_sensitivity,
            )
        } else {
            entities
        }
    }

    /// The entities after the camera has followed the actor.
    pub open spec fn after_camera_follow(
        self,
        entities: Seq<Entity>,
        window: Option<Window>,
        boresight: Vec3,
    ) -> Seq<Entity> {
        if self.camera_movement {
            entities_after_follow(entities, window, boresight)
        } else {
            entities
        }
    }

    /// The entities after the stages of one tick, up to the turning of the
    /// camera: the budget of jumps, the keys, gravity, movement, and the
    /// pointer, in this order. `window` is the window as the keys of this
    /// tick have left it.
    pub open spec fn after_update(
        self,
        entities: Seq<Entity>,
        window: Option<Window>,
        input: PlayerInput,
        motion: Vec2,
        vertical_sensitivity: Scalar,
        horizontal_sensitivity: Scalar,
        time: Time,
        constants: Constants,
    ) -> Seq<Entity> {
        let landed = self.after_jump(entities);
        let steered = self.after_player_keyboard(landed, input);
        let pulled = self.after_gravity(steered, gravity_pull(time, constants));
        let moved = self.after_velocity(pulled, time, constants);
        self.after_camera_rotation(
            moved,
            window,
            motion,
            vertical_sensitivity,
            horizontal_sensitivity,
        )
    }

    /// A schedule without stages.
    pub fn new() -> (r: Schedule)
        ensures
            r == (Schedule {
                grab_cursor_at_startup: false,
                spawn_player: false,
                spawn_camera: false,
                control_cursor_grab: false,
                jump: false,
                player_keyboard: false,
                gravity: false,
                velocity: false,
                camera_movement: false,
            }),
    {
        Schedule {
            grab_cursor_at_startup: false,
            spawn_player: false,
            spawn_camera: false,
            control_cursor_grab: false,
            jump: false,
            player_keyboard: false,
            gravity: false,
            velocity: false,
            camera_movement: false,
        }
    }

    /// Runs the stages of the start of a scene: the pointer is captured, the
    /// actor is made, and then the camera.
    ///
    /// `boresight` is the direction from the actor to the camera for the
    /// pitch and the yaw that a camera starts with. A scene that holds an
    /// actor or a camera already was put together wrongly: the start breaks
    /// off and says so.
    pub fn run_startup(
        &self,
        world: &mut World,
        window: &mut Option<Window>,
        boresight: &Vec3,
    ) -> (r: Result<(), SpawnError>)
        ensures
            *final(window) == self.window_after_startup(*old(window)),
            final(world)@ == self.after_startup(old(world)@, *boresight).0,
            match r {
                Ok(_) => self.after_startup(old(world)@, *boresight).1 is None,
                Err(e) => self.after_startup(old(world)@, *boresight).1 == Some(e),
            },
    {
        if self.grab_cursor_at_startup {
            grab_cursor_at_startup_system(window);
        }
        if self.spawn_player {
            match spawn_player(world) {
                Ok(_) => {},
                Err(e) => {
                    return Err(e);
                },
            }
        }
        if self.spawn_camera {
            match spawn_camera(world, boresight) {
                Ok(_) => {},
                Err(e) => {
                    return Err(e);
                },
            }
        }
        Ok(())
    }

    /// Runs the stages of one tick, up to the turning of the camera.
    ///
    /// What is left of the tick is for the camera to follow the actor:
    /// [`run_camera`](Self::run_camera), which needs to be told where the
    /// camera points after this turn.
    pub fn run_update<K, B>(
        &self,
        world: &mut World,
        window: &mut Option<Window>,
        input: &TickInput,
        keybinds: &KeyBinds<K, B>,
        time: &Time,
        constants: &Constants,
    )
        ensures
            *final(window) == self.window_after_update(*old(window), input.cursor),
            final(world)@ == self.after_update(
                old(world)@,
                *final(window),
                input.player,
                motion_sum(input.mouse_motion@),
                keybinds.vertical_sensitivity,
                keybinds.horizontal_sensitivity,
                *time,
                *constants,
            ),
    {
        if self.control_cursor_grab {
            control_cursor_grab_system(&input.cursor, window);
        }
        if self.jump {
            jump_system(world);
        }
        if self.player_keyboard {
            player_keyboard_event_system(world, &input.player);
        }
        if self.gravity {
            apply_gravity(world, time, constants);
        }
        if self.velocity {
            apply_velocity(world, time, constants);
        }
        if self.camera_movement {
            camera_rotation_system(world, window, &input.mouse_motion, keybinds);
        }
    }

    /// Ends a tick: the camera follows the actor.
    ///
    /// `boresight` is the direction from the actor to the camera for the
    /// pitch and the yaw that the camera has now.
    pub fn run_camera(&self, world: &mut World, window: &Option<Window>, boresight: &Vec3)
        ensures
            final(world)@ == self.after_camera_follow(old(world)@, *window, *boresight),
    {
        if self.camera_movement {
            camera_movement_system(world, window, boresight);
        }
    }
}

} // verus!
