//! The placement of an object in the world.
use vstd::prelude::*;
use crate::basis::Basis;
use crate::math::{affine_matrix, affine_rows, identity_rows, rows, Matrix4};
use crate::scalar::{Scalar, ZERO};
use crate::vector3::Vector3;

verus! {

/// A basis and an origin. A transform stands alone: it has no parent.
pub struct Transform {
    basis: Basis,
    origin: Vector3,
}

impl Transform {
    /// The axis vectors of the basis.
    pub closed spec fn axes(&self) -> Seq<Vector3> {
        self.basis.axes()
    }

    /// The origin.
    pub closed spec fn position(&self) -> Vector3 {
        self.origin
    }

    /// The rows of the model matrix: the three axis vectors, each followed
    /// by zero, then the origin followed by one.
    pub open spec fn matrix_rows(&self) -> Seq<Seq<Scalar>> {
        affine_rows(self.axes()[0], self.axes()[1], self.axes()[2], self.position())
    }

    /// The identity transform: unit axes and the origin at zero.
    pub fn new() -> (t: Transform)
        ensures
            t.axes() == Basis::unit_axes(),
            t.position() == (Vector3 { x: ZERO, y: ZERO, z: ZERO }),
            t.matrix_rows() == identity_rows(),
    {
        let t = Transform { basis: Basis::unit_matrix(), origin: Vector3::new(ZERO, ZERO, ZERO) };
        assert(t.matrix_rows() =~~= identity_rows());
        t
    }

    /// The basis.
    pub fn get_basis(&self) -> (basis: &Basis)
        ensures
            basis.axes() == self.axes(),
    {
        &self.basis
    }

    /// The origin.
    pub fn get_position(&self) -> (origin: Vector3)
        ensures
            origin == self.position(),
    {
        self.origin
    }

    /// Replaces the basis and leaves the origin as it is.
    pub fn set_basis(&mut self, basis: Basis)
        ensures
            final(self).axes() == basis.axes(),
            final(self).position() == old(self).position(),
    {
        self.basis = basis;
    }

    /// Overwrites the origin and leaves the basis as it is.
    pub fn set_position(&mut self, position: Vector3)
        ensures
            final(self).position() == position,
            final(self).axes() == old(self).axes(),
    {
        self.origin = position;
    }

    /// The row-major model matrix. Rows 0 to 2 are the axis vectors with a
    /// last column of zero; row 3 is the origin followed by one.
    pub fn form_matrix(&self) -> (m: Matrix4)
        ensures
            rows(m) == self.matrix_rows(),
    {
        let basis_elements = self.basis.get_elements();
        affine_matrix(basis_elements[0], basis_elements[1], basis_elements[2], self.origin)
    }
}

} // verus!
