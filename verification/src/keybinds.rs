//! Which key stands for which action, and how fast the pointer turns the
//! camera.

use vstd::prelude::*;
use crate::scalar::Scalar;

verus! {

/// The sensitivity of a pointer that has not been tuned, in millionths of a
/// radian for each step of the pointer: a twentieth of a radian.
pub const DEFAULT_SENSITIVITY: i64 = 50_000;

/// The bindings of the actions to keys of type `K` and to buttons of the
/// pointer of type `B`, and the two sensitivities of the pointer.
///
/// The bindings are made once and only read from then on.
pub struct KeyBinds<K, B> {
    pub move_forward: K,
    pub move_left: K,
    pub move_right: K,
    pub move_backwards: K,
    pub jump: K,
    pub exit: K,
    pub primary_click: B,
    pub secondary_click: B,
    /// Radians of pitch for each step of the pointer up or down.
    pub vertical_sensitivity: Scalar,
    /// Radians of yaw for each step of the pointer to the side.
    pub horizontal_sensitivity: Scalar,
}

impl<K, B> KeyBinds<K, B> {
    /// The given bindings, with a pointer that has not been tuned.
    pub fn with_default_sensitivity(
        move_forward: K,
        move_left: K,
        move_right: K,
        move_backwards: K,
        jump: K,
        exit: K,
        primary_click: B,
        secondary_click: B,
    ) -> (r: KeyBinds<K, B>)
        ensures
            r.move_forward == move_forward,
            r.move_left == move_left,
            r.move_right == move_right,
            r.move_backwards == move_backwards,
            r.jump == jump,
            r.exit == exit,
            r.primary_click == primary_click,
            r.secondary_click == secondary_click,
            r.vertical_sensitivity@ == DEFAULT_SENSITIVITY,
            r.horizontal_sensitivity@ == DEFAULT_SENSITIVITY,
    {
        KeyBinds {
            move_forward,
            move_left,
            move_right,
            move_backwards,
            jump,
            exit,
            primary_click,
            secondary_click,
            vertical_sensitivity: Scalar::new(DEFAULT_SENSITIVITY),
            horizontal_sensitivity: Scalar::new(DEFAULT_SENSITIVITY),
        }
    }
}

} // verus!
