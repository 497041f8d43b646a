//! The orientation and per-axis scale of a transform.
use vstd::prelude::*;
use crate::scalar::{ONE, ZERO};
use crate::vector3::Vector3;

verus! {

/// Three axis vectors: the rows of a 3x3 matrix that holds orientation and
/// per-axis scale.
pub struct Basis {
    elements: [Vector3; 3],
}

impl Basis {
    /// The three axis vectors, in order.
    pub closed spec fn axes(&self) -> Seq<Vector3> {
        self.elements@
    }

    /// The axes of the unit matrix: (1,0,0), (0,1,0), (0,0,1).
    pub open spec fn unit_axes() -> Seq<Vector3> {
        seq![
            Vector3 { x: ONE, y: ZERO, z: ZERO },
            Vector3 { x: ZERO, y: ONE, z: ZERO },
            Vector3 { x: ZERO, y: ZERO, z: ONE },
        ]
    }

    /// The identity basis.
    pub fn new() -> (b: Basis)
        ensures
            b.axes() == Basis::unit_axes(),
    {
        Basis::unit_matrix()
    }

    /// The identity basis: orthonormal unit axes.
    pub fn unit_matrix() -> (b: Basis)
        ensures
            b.axes() == Basis::unit_axes(),
    {
        let b = Basis {
            elements: [
                Vector3::new(ONE, ZERO, ZERO),
                Vector3::new(ZERO, ONE, ZERO),
                Vector3::new(ZERO, ZERO, ONE),
            ],
        };
        assert(b.axes() =~= Basis::unit_axes());
        b
    }

    /// The basis with the given axis vectors.
    pub fn from_elements(elements: [Vector3; 3]) -> (b: Basis)
        ensures
            b.axes() == elements@,
    {
        Basis { elements }
    }

    /// The three axis vectors.
    pub fn get_elements(&self) -> (elements: &[Vector3; 3])
        ensures
            elements@ == self.axes(),
    {
        &self.elements
    }
}

} // verus!
