//! Three-component vectors.
use vstd::prelude::*;
use crate::scalar::{finite, is_finite, Scalar};

verus! {

/// A vector of three scalars.
#[derive(Clone, Copy, Debug, PartialEq, Eq, Structural)]
pub struct Vector3 {
    pub x: Scalar,
    pub y: Scalar,
    pub z: Scalar,
}

impl Vector3 {
    /// Whether all three components are finite numbers.
    pub open spec fn all_finite(self) -> bool {
        is_finite(self.x) && is_finite(self.y) && is_finite(self.z)
    }

    /// The vector with the given components.
    pub fn new(x: Scalar, y: Scalar, z: Scalar) -> (v: Vector3)
        ensures
            v == (Vector3 { x, y, z }),
    {
        Vector3 { x, y, z }
    }

    /// The vector whose three components all equal `value`.
    pub fn fill(value: Scalar) -> (v: Vector3)
        ensures
            v == (Vector3 { x: value, y: value, z: value }),
    {
        Vector3 { x: value, y: value, z: value }
    }

    /// Whether all three components are finite numbers.
    pub fn is_finite(&self) -> (yes: bool)
        ensures
            yes == self.all_finite(),
    {
        finite(self.x) && finite(self.y) && finite(self.z)
    }

    /// The components in the order x, y, z.
    pub fn as_array(self) -> (a: [Scalar; 3])
        ensures
            a@ == seq![self.x, self.y, self.z],
    {
        [self.x, self.y, self.z]
    }
}

} // verus!
