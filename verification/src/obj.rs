//! Raw indexed geometry, in the shape a Wavefront object parser produces it.
use vstd::prelude::*;
use crate::vector3::Vector3;

verus! {

/// One corner of a face: an index into the positions, an optional index into
/// the texture coordinates, and an optional index into the normals.
pub type VTNIndex = (usize, Option<usize>, Option<usize>);

/// A face: a point, a line or a triangle, given by its corners.
#[derive(Clone, Copy, Debug)]
pub enum Primitive {
    Point(VTNIndex),
    Line(VTNIndex, VTNIndex),
    Triangle(VTNIndex, VTNIndex, VTNIndex),
}

/// A surface group: the faces that are drawn with one material.
#[derive(Debug)]
pub struct Geometry {
    pub shapes: Vec<Primitive>,
}

/// A mesh object as read from a model file.
#[derive(Debug)]
pub struct Object {
    /// The positions that the faces refer to.
    pub vertices: Vec<Vector3>,
    /// The normals that the faces refer to.
    pub normals: Vec<Vector3>,
    /// The surface groups, in the order of the file.
    pub geometry: Vec<Geometry>,
}

/// The corners of a face, in order.
pub open spec fn primitive_indices(p: Primitive) -> Seq<VTNIndex> {
    match p {
        Primitive::Point(a) => seq![a],
        Primitive::Line(a, b) => seq![a, b],
        Primitive::Triangle(a, b, c) => seq![a, b, c],
    }
}

/// The corners of all faces of a group, face after face.
pub open spec fn shape_indices(shapes: Seq<Primitive>) -> Seq<VTNIndex> {
    shapes.map_values(|p: Primitive| primitive_indices(p)).flatten()
}

/// The faces of each surface group of an object.
pub open spec fn object_shapes(object: Object) -> Seq<Seq<Primitive>> {
    object.geometry@.map_values(|g: Geometry| g.shapes@)
}

/// The face corners of each surface group of an object.
pub open spec fn object_indices(object: Object) -> Seq<Seq<VTNIndex>> {
    object.geometry@.map_values(|g: Geometry| shape_indices(g.shapes@))
}

} // verus!
