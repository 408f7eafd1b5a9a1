//! Bounding volumes and their relation to the ground plane at height zero.

use vstd::prelude::*;
use crate::scalar::Scalar;
use crate::transform::Transform;
use crate::vector::Vec3;

verus! {

/// The volume that an entity occupies around its origin.
#[derive(Clone, Copy, Debug, PartialEq, Eq, Structural)]
pub enum BoundingBox {
    /// An axis-aligned box, given by half of its size along each axis.
    Cube(Vec3),
}

/// What a volume has to answer so that its entity can be kept on the ground.
pub trait GroundCollision {
    /// The height of the origin above the lowest point of the volume: the
    /// height at which the entity rests exactly on the ground.
    spec fn ground_offset(&self) -> Scalar;

    /// Computes [`ground_offset`](Self::ground_offset).
    fn object_on_ground_y_world_coord(&self) -> (r: Scalar)
        ensures
            r == self.ground_offset(),
    ;

    /// The height of the lowest point of the volume when its entity is placed
    /// by `transform`.
    fn object_bottom_y_world_coord(&self, transform: &Transform) -> (r: Scalar)
        ensures
            r == transform.translation.y.minus(self.ground_offset()),
    ;

    /// Whether the lowest point of the volume is at or below the ground.
    fn object_is_grounded(&self, transform: &Transform) -> (r: bool)
        ensures
            r <==> transform.translation.y.minus(self.ground_offset())@ <= 0,
    ;
}

/// The height of the lowest point of `volume` for an entity placed by
/// `transform`.
pub open spec fn bottom_y<V: GroundCollision + ?Sized>(
    volume: &V,
    transform: &Transform,
) -> Scalar {
    transform.translation.y.minus(volume.ground_offset())
}

/// Whether the lowest point of `volume` is at or below the ground.
pub open spec fn is_grounded<V: GroundCollision + ?Sized>(
    volume: &V,
    transform: &Transform,
) -> bool {
    bottom_y(volume, transform)@ <= 0
}

impl GroundCollision for BoundingBox {
    open spec fn ground_offset(&self) -> Scalar {
        match self {
            BoundingBox::Cube(half_extents) => half_extents.y,
        }
    }

    fn object_on_ground_y_world_coord(&self) -> (r: Scalar) {
        match self {
            BoundingBox::Cube(half_extents) => half_extents.y,
        }
    }

    fn object_bottom_y_world_coord(&self, transform: &Transform) -> (r: Scalar) {
        match self {
            BoundingBox::Cube(half_extents) => transform.translation.y.minus(half_extents.y),
        }
    }

    fn object_is_grounded(&self, transform: &Transform) -> (r: bool) {
        transform.translation.y.micros <= self.object_on_ground_y_world_coord().micros
    }
}

/// A volume is grounded exactly when its origin is no higher than its resting
/// height.
pub proof fn lemma_grounded_iff_at_or_below_rest<V: GroundCollision>(
    volume: &V,
    transform: &Transform,
)
    ensures
        is_grounded(volume, transform) <==> transform.translation.y@ <= volume.ground_offset()@,
{
}

/// A box whose half height is `h`, with `h >= 0`, is grounded exactly when its
/// origin is no higher than `h / 2`, for every height `y` of the origin outside
/// the band `h / 2 < y <= h`. Inside that band the box is grounded although
/// its origin is higher than `h / 2`.
pub proof fn lemma_cube_grounded_below_half_offset(half_extents: Vec3, transform: Transform)
    requires
        half_extents.y@ >= 0,
        transform.translation.y@ <= half_extents.y@ / 2 || transform.translation.y@
            > half_extents.y@,
    ensures
        is_grounded(&BoundingBox::Cube(half_extents), &transform) <==> transform.translation.y@
            <= half_extents.y@ / 2,
{
}

} // verus!
