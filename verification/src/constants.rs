//! The physical constants of a simulation.

use vstd::prelude::*;
use crate::scalar::Scalar;

verus! {

/// The upward speed that a jump gives, in millionths of a unit per second:
/// five units per second.
pub const JUMP_SPEED: i64 = 5_000_000;

/// The constants that a simulation is run with. They are chosen once and
/// handed to every tick by reference.
#[derive(Clone, Copy, Debug, PartialEq, Eq, Structural)]
pub struct Constants {
    /// The downward acceleration of an entity in free fall.
    pub gravity: Scalar,
    /// The factor by which every elapsed time is stretched.
    pub game_speed: Scalar,
}

impl Constants {
    /// The constants with the given gravity and time scale.
    pub fn new(gravity: Scalar, game_speed: Scalar) -> (r: Constants)
        ensures
            r == (Constants { gravity, game_speed }),
    {
        Constants { gravity, game_speed }
    }
}

} // verus!
