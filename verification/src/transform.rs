//! Where an entity stands and which way it faces.

use vstd::prelude::*;
use crate::scalar::{Scalar, SCALE};
use crate::vector::Vec3;

verus! {

/// The placement of an entity in the scene.
///
/// The facing is kept as the direction `forward` in which the entity looks,
/// of any length, with the world's Y axis as the up reference.
#[derive(Clone, Copy, Debug, PartialEq, Eq, Structural)]
pub struct Transform {
    pub translation: Vec3,
    pub forward: Vec3,
}

impl Transform {
    /// The direction in which an entity looks until it is turned: along the
    /// negative Z axis.
    pub open spec fn default_forward() -> Vec3 {
        Vec3 {
            x: Scalar { micros: 0 },
            y: Scalar { micros: 0 },
            z: Scalar::saturated(-SCALE),
        }
    }

    /// The placement at `translation` that has not been turned.
    pub open spec fn spec_from_translation(translation: Vec3) -> Transform {
        Transform { translation, forward: Transform::default_forward() }
    }

    /// The same position, turned to look at `target`.
    pub open spec fn spec_looking_at(self, target: Vec3) -> Transform {
        Transform { translation: self.translation, forward: target.minus(self.translation) }
    }

    /// Places an entity at `translation` without turning it.
    #[verifier::when_used_as_spec(spec_from_translation)]
    pub fn from_translation(translation: Vec3) -> (r: Transform)
        ensures
            r == Transform::spec_from_translation(translation),
    {
        let forward = Vec3 { x: Scalar::zero(), y: Scalar::zero(), z: Scalar::new(-SCALE) };
        Transform { translation, forward }
    }

    /// Places an entity at the point with the given coordinates without
    /// turning it.
    pub fn from_xyz(x: Scalar, y: Scalar, z: Scalar) -> (r: Transform)
        ensures
            r == Transform::spec_from_translation(Vec3 { x, y, z }),
    {
        Transform::from_translation(Vec3 { x, y, z })
    }

    /// Turns the entity where it stands so that it looks at `target`.
    pub fn look_at(&mut self, target: Vec3)
        ensures
            *final(self) == old(self).spec_looking_at(target),
    {
        self.forward = target.minus(self.translation);
    }

    /// The same placement, turned to look at `target`.
    #[verifier::when_used_as_spec(spec_looking_at)]
    pub fn looking_at(self, target: Vec3) -> (r: Transform)
        ensures
            r == self.spec_looking_at(target),
    {
        Transform { translation: self.translation, forward: target.minus(self.translation) }
    }
}

} // verus!
