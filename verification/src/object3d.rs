//! Scene objects.
use vstd::prelude::*;
use crate::math::identity_rows;
use crate::mesh::Mesh;
use crate::transform::Transform;

verus! {

/// A mesh placed in the scene.
pub struct Object3D<S> {
    pub mesh: Mesh<S>,
    pub transform: Transform,
}

impl<S> Object3D<S> {
    /// The object that shows `mesh`, with the identity transform.
    pub fn new(mesh: Mesh<S>) -> (object: Object3D<S>)
        ensures
            object.mesh == mesh,
            object.transform.matrix_rows() == identity_rows(),
    {
        Object3D { mesh, transform: Transform::new() }
    }
}

} // verus!
