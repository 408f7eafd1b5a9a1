//! Movement, grounding and camera following for one controllable actor.
//!
//! A scene is a [`world::World`] of entities. In each tick a
//! [`schedule::Schedule`] runs its stages over it in a fixed order: the budget
//! of jumps is filled up on the ground, the keys steer the actor, gravity acts
//! against the ground plane, every velocity moves its entity, and the camera
//! turns with the pointer and follows the actor.
//!
//! All quantities are fixed-point numbers ([`scalar::Scalar`]), so that every
//! stage has an exact result. Sines and cosines are not among them: the one
//! place that needs them, the direction in which the camera stands off from
//! the actor, takes that direction from the caller.

pub mod bounding;
pub mod constants;
pub mod cursor_control;
pub mod keybinds;
pub mod laws;
pub mod movement_system;
pub mod player;
pub mod scalar;
pub mod schedule;
pub mod transform;
pub mod utils;
pub mod vector;
pub mod world;
