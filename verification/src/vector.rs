//! A plain triple of scalars.
use vstd::prelude::*;
use crate::scalar::Scalar;

verus! {

/// Three scalars with no algebra attached.
#[derive(Clone, Copy)]
pub struct Vector {
    pub x: Scalar,
    pub y: Scalar,
    pub z: Scalar,
}

impl Vector {
    /// The triple with the given components.
    pub fn new(x: Scalar, y: Scalar, z: Scalar) -> (v: Vector)
        ensures
            v == (Vector { x, y, z }),
    {
        Vector { x, y, z }
    }

    /// The components in the order x, y, z.
    pub fn as_array(&self) -> (a: [Scalar; 3])
        ensures
            a@ == seq![self.x, self.y, self.z],
    {
        [self.x, self.y, self.z]
    }
}

} // verus!
