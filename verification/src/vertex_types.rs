//! The vertex format of the vertex buffer.
use vstd::prelude::*;
use crate::vector3::Vector3;

verus! {

/// One entry of a vertex buffer: a position and the normal that goes with it.
///
/// Two entries are equal exactly when all six scalars have the same bits.
#[derive(Clone, Copy, Debug, PartialEq, Eq, Structural)]
pub struct VertexPN {
    pub position: Vector3,
    pub normal: Vector3,
}

impl VertexPN {
    /// Whether this entry holds exactly the given position and normal.
    pub fn matches(&self, position: &Vector3, normal: &Vector3) -> (same: bool)
        ensures
            same == (self.position == *position && self.normal == *normal),
    {
        self.position == *position && self.normal == *normal
    }
}

} // verus!
