//! Vectors of fixed-point components.

use vstd::prelude::*;
use crate::scalar::Scalar;

verus! {

/// A pair of scalars, such as a pointer movement across the screen.
#[derive(Clone, Copy, Debug, PartialEq, Eq, Structural)]
pub struct Vec2 {
    pub x: Scalar,
    pub y: Scalar,
}

/// A point or a direction in space.
#[derive(Clone, Copy, Debug, PartialEq, Eq, Structural)]
pub struct Vec3 {
    pub x: Scalar,
    pub y: Scalar,
    pub z: Scalar,
}

impl Vec2 {
    /// The component-wise sum.
    pub open spec fn spec_plus(self, other: Vec2) -> Vec2 {
        Vec2 { x: self.x.plus(other.x), y: self.y.plus(other.y) }
    }

    /// The vector with the given components.
    pub fn new(x: Scalar, y: Scalar) -> (r: Vec2)
        ensures
            r == (Vec2 { x, y }),
    {
        Vec2 { x, y }
    }

    /// The vector whose components are zero.
    pub fn zero() -> (r: Vec2)
        ensures
            r.x@ == 0,
            r.y@ == 0,
    {
        Vec2 { x: Scalar::zero(), y: Scalar::zero() }
    }

    /// Adds `other` component by component.
    #[verifier::when_used_as_spec(spec_plus)]
    pub fn plus(self, other: Vec2) -> (r: Vec2)
        ensures
            r == self.spec_plus(other),
    {
        Vec2 { x: self.x.plus(other.x), y: self.y.plus(other.y) }
    }
}

impl Vec3 {
    /// The component-wise sum.
    pub open spec fn spec_plus(self, other: Vec3) -> Vec3 {
        Vec3 { x: self.x.plus(other.x), y: self.y.plus(other.y), z: self.z.plus(other.z) }
    }

    /// The component-wise difference.
    pub open spec fn spec_minus(self, other: Vec3) -> Vec3 {
        Vec3 { x: self.x.minus(other.x), y: self.y.minus(other.y), z: self.z.minus(other.z) }
    }

    /// Every component multiplied by `factor`.
    pub open spec fn spec_scaled(self, factor: Scalar) -> Vec3 {
        Vec3 { x: self.x.times(factor), y: self.y.times(factor), z: self.z.times(factor) }
    }

    /// The point that lies the share `t` of the way from `self` to `to`.
    pub open spec fn spec_lerp(self, to: Vec3, t: Scalar) -> Vec3 {
        Vec3 { x: self.x.lerp(to.x, t), y: self.y.lerp(to.y, t), z: self.z.lerp(to.z, t) }
    }

    /// The vector with the given components.
    pub fn new(x: Scalar, y: Scalar, z: Scalar) -> (r: Vec3)
        ensures
            r == (Vec3 { x, y, z }),
    {
        Vec3 { x, y, z }
    }

    /// The vector whose components are zero.
    pub fn zero() -> (r: Vec3)
        ensures
            r.x@ == 0,
            r.y@ == 0,
            r.z@ == 0,
    {
        Vec3 { x: Scalar::zero(), y: Scalar::zero(), z: Scalar::zero() }
    }

    /// Adds `other` component by component.
    #[verifier::when_used_as_spec(spec_plus)]
    pub fn plus(self, other: Vec3) -> (r: Vec3)
        ensures
            r == self.spec_plus(other),
    {
        Vec3 { x: self.x.plus(other.x), y: self.y.plus(other.y), z: self.z.plus(other.z) }
    }

    /// Subtracts `other` component by component.
    #[verifier::when_used_as_spec(spec_minus)]
    pub fn minus(self, other: Vec3) -> (r: Vec3)
        ensures
            r == self.spec_minus(other),
    {
        Vec3 { x: self.x.minus(other.x), y: self.y.minus(other.y), z: self.z.minus(other.z) }
    }

    /// Multiplies every component by `factor`.
    #[verifier::when_used_as_spec(spec_scaled)]
    pub fn scaled(self, factor: Scalar) -> (r: Vec3)
        ensures
            r == self.spec_scaled(factor),
    {
        Vec3 { x: self.x.times(factor), y: self.y.times(factor), z: self.z.times(factor) }
    }

    /// Moves the share `t` of the way from `self` toward `to`, component by
    /// component.
    #[verifier::when_used_as_spec(spec_lerp)]
    pub fn lerp(self, to: Vec3, t: Scalar) -> (r: Vec3)
        ensures
            r == self.spec_lerp(to, t),
    {
        Vec3 { x: self.x.lerp(to.x, t), y: self.y.lerp(to.y, t), z: self.z.lerp(to.z, t) }
    }
}

} // verus!
