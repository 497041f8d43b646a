//! The mesh builder: from raw indexed faces to one vertex buffer without
//! repeats and one index list per surface group.
use vstd::prelude::*;
use crate::dedup::{first_occurrences, lemma_first_occurrences_push};
use crate::material::Material;
use crate::math::identity_rows;
use crate::mesh_laws::{deduplicated, lemma_built_deduplicates, lemma_built_fits};
use crate::obj::{
    object_indices, object_shapes, primitive_indices, Object, Primitive, VTNIndex,
};
use crate::transform::Transform;
use crate::vector3::Vector3;
use crate::vertex_types::VertexPN;

verus! {

/// The most entries a vertex buffer may hold: indices into it are 16 bits wide.
pub const MAX_VERTICES: usize = 65536;

/// How the indices of an index buffer are grouped into primitives.
#[derive(Clone, Copy, Debug, PartialEq, Eq, Structural)]
pub enum PrimitiveType {
    /// Each index is a point.
    Points,
    /// Every two indices are a line.
    LinesList,
    /// Every three indices are a triangle.
    TrianglesList,
}

/// Why a mesh cannot be built from the given geometry.
#[derive(Clone, Copy, Debug, PartialEq, Eq, Structural)]
pub enum MeshError {
    /// A face corner names a position that the object does not have.
    PositionIndexOutOfRange,
    /// A face corner carries no normal index.
    MissingNormalIndex,
    /// A face corner names a normal that the object does not have.
    NormalIndexOutOfRange,
    /// The faces refer to more distinct vertices than a 16-bit index can address.
    TooManyVertices,
}

/// The kind of index list that a face belongs in.
pub open spec fn primitive_kind(p: Primitive) -> PrimitiveType {
    match p {
        Primitive::Point(_) => PrimitiveType::Points,
        Primitive::Line(_, _) => PrimitiveType::LinesList,
        Primitive::Triangle(_, _, _) => PrimitiveType::TrianglesList,
    }
}

/// The primitive type of a mesh with the given faces, listed in input order
/// over all surface groups: the kind of the last face. A mesh without faces
/// is a list of triangles.
pub open spec fn last_kind(faces: Seq<Primitive>) -> PrimitiveType {
    if faces.len() == 0 {
        PrimitiveType::TrianglesList
    } else {
        primitive_kind(faces.last())
    }
}

/// What is wrong with the indices of one face corner, taken by itself.
pub open spec fn index_fault(positions: nat, normals: nat, corner: VTNIndex) -> Option<MeshError> {
    if corner.0 >= positions {
        Some(MeshError::PositionIndexOutOfRange)
    } else if corner.2 is None {
        Some(MeshError::MissingNormalIndex)
    } else if corner.2->0 >= normals {
        Some(MeshError::NormalIndexOutOfRange)
    } else {
        None
    }
}

/// The vertex that a face corner refers to.
pub open spec fn vertex_at(
    positions: Seq<Vector3>,
    normals: Seq<Vector3>,
    corner: VTNIndex,
) -> VertexPN {
    VertexPN { position: positions[corner.0 as int], normal: normals[corner.2->0 as int] }
}

/// The vertices that a list of face corners refers to, corner by corner.
pub open spec fn resolved(
    positions: Seq<Vector3>,
    normals: Seq<Vector3>,
    corners: Seq<VTNIndex>,
) -> Seq<VertexPN> {
    corners.map_values(|c: VTNIndex| vertex_at(positions, normals, c))
}

/// What stops the builder at corner `k`, if anything does: bad indices, or
/// one distinct vertex too many among the corners up to and including `k`.
pub open spec fn fault_at(
    positions: Seq<Vector3>,
    normals: Seq<Vector3>,
    corners: Seq<VTNIndex>,
    k: int,
) -> Option<MeshError> {
    match index_fault(positions.len(), normals.len(), corners[k]) {
        Some(e) => Some(e),
        None => if first_occurrences(resolved(positions, normals, corners.take(k + 1))).len()
            > MAX_VERTICES {
            Some(MeshError::TooManyVertices)
        } else {
            None
        },
    }
}

/// Corner `k` is the first one at which the builder stops, and it stops with `e`.
pub open spec fn is_first_fault(
    positions: Seq<Vector3>,
    normals: Seq<Vector3>,
    corners: Seq<VTNIndex>,
    k: int,
    e: MeshError,
) -> bool {
    &&& 0 <= k < corners.len()
    &&& fault_at(positions, normals, corners, k) == Some(e)
    &&& forall|j: int| 0 <= j < k ==> fault_at(positions, normals, corners, j) is None
}

/// Entry `index` of `vertices` is the vertex `v`.
pub open spec fn points_at(vertices: Seq<VertexPN>, index: u16, v: VertexPN) -> bool {
    index < vertices.len() && vertices[index as int] == v
}

/// `vertices` and `indices` are what the builder makes of the surface groups
/// `groups`: no corner is at fault, the vertex buffer holds the referenced
/// vertices once each in first-appearance order, and each index list names,
/// corner by corner, the buffer entry of that corner's vertex.
pub open spec fn built(
    positions: Seq<Vector3>,
    normals: Seq<Vector3>,
    groups: Seq<Seq<VTNIndex>>,
    vertices: Seq<VertexPN>,
    indices: Seq<Seq<u16>>,
) -> bool {
    &&& forall|k: int|
        0 <= k < groups.flatten().len() ==> fault_at(positions, normals, groups.flatten(), k)
            is None
    &&& vertices == first_occurrences(resolved(positions, normals, groups.flatten()))
    &&& indices.len() == groups.len()
    &&& forall|g: int| 0 <= g < groups.len() ==> (#[trigger] indices[g]).len() == groups[g].len()
    &&& forall|g: int, i: int|
        0 <= g < groups.len() && 0 <= i < groups[g].len() ==> points_at(
            vertices,
            #[trigger] indices[g][i],
            vertex_at(positions, normals, groups[g][i]),
        )
}

/// The builder refuses the surface groups `groups` with `e`: that is the
/// fault of the first corner, in input order, at which anything is wrong.
pub open spec fn rejected(
    positions: Seq<Vector3>,
    normals: Seq<Vector3>,
    groups: Seq<Seq<VTNIndex>>,
    e: MeshError,
) -> bool {
    exists|k: int| is_first_fault(positions, normals, groups.flatten(), k, e)
}

/// The corner lists of surface groups, as sequences.
pub open spec fn group_views(groups: Seq<Vec<VTNIndex>>) -> Seq<Seq<VTNIndex>> {
    groups.map_values(|g: Vec<VTNIndex>| g@)
}

/// The index lists of a mesh, as sequences.
pub open spec fn index_views(indices: Seq<Vec<u16>>) -> Seq<Seq<u16>> {
    indices.map_values(|l: Vec<u16>| l@)
}

/// The corners of the first `g` groups and of the first `i` corners of
/// group `g` are the first corners of all groups taken together.
proof fn lemma_flatten_prefix<A>(groups: Seq<Seq<A>>, g: int, i: int)
    requires
        0 <= g < groups.len(),
        0 <= i <= groups[g].len(),
    ensures
        groups.take(g).flatten().len() + i <= groups.flatten().len(),
        groups.flatten().take(groups.take(g).flatten().len() + i) == groups.take(g).flatten()
            + groups[g].take(i),
{
    let rest = groups.skip(g);
    vstd::seq_lib::lemma_flatten_concat(groups.take(g), rest);
    assert(groups.take(g) + rest =~= groups);
    assert(rest.first() == groups[g]);
    assert(rest.flatten() == groups[g] + rest.drop_first().flatten());
    assert(groups.flatten().take(groups.take(g).flatten().len() + i) =~= groups.take(g).flatten()
        + groups[g].take(i));
}

/// A fault depends only on the corners up to the one it is about.
proof fn lemma_fault_of_prefix(
    positions: Seq<Vector3>,
    normals: Seq<Vector3>,
    corners: Seq<VTNIndex>,
    n: int,
    k: int,
)
    requires
        0 <= k < n <= corners.len(),
    ensures
        fault_at(positions, normals, corners.take(n), k) == fault_at(
            positions,
            normals,
            corners,
            k,
        ),
{
    assert(corners.take(n).take(k + 1) =~= corners.take(k + 1));
}

/// Looks for the vertex with the given position and normal among `vertices`.
/// Returns the index of its first occurrence, or `None` if there is none.
pub fn find_same_vertex(
    position: Vector3,
    normal: Vector3,
    vertices: &[VertexPN],
) -> (found: Option<u16>)
    requires
        vertices.len() <= MAX_VERTICES,
    ensures
        match found {
            Some(i) => {
                &&& points_at(vertices@, i, VertexPN { position, normal })
                &&& forall|j: int| 0 <= j < i ==> vertices[j] != (VertexPN { position, normal })
            },
            None => !vertices@.contains(VertexPN { position, normal }),
        },
{
    let mut i: usize = 0;
    while i < vertices.len()
        invariant
            i <= vertices.len() <= MAX_VERTICES,
            forall|j: int| 0 <= j < i ==> vertices[j] != (VertexPN { position, normal }),
        decreases vertices.len() - i,
    {
        if vertices[i].matches(&position, &normal) {
            return Some(i as u16);
        }
        i += 1;
    }
    None
}

/// Builds the vertex buffer and the index lists of a mesh.
///
/// `raw_indices` holds one list of face corners per surface group. The
/// corners are taken in input order. A corner whose vertex (position and
/// normal, compared bit for bit) was seen before gets the index of that
/// vertex; any other vertex is appended to the vertex buffer and the corner
/// gets the new index. The result is the vertex buffer and, per surface
/// group, the list of indices of its corners.
///
/// Fails at the first corner whose position index is out of range, that has
/// no normal index, whose normal index is out of range, or whose vertex would
/// be entry number 65537 of the vertex buffer, with the matching error.
pub fn correct_input(
    raw_positions: &[Vector3],
    raw_normals: &[Vector3],
    raw_indices: &Vec<Vec<VTNIndex>>,
) -> (result: Result<(Vec<VertexPN>, Vec<Vec<u16>>), MeshError>)
    ensures
        match result {
            Ok((vertices, indices)) => {
                &&& built(
                    raw_positions@,
                    raw_normals@,
                    group_views(raw_indices@),
                    vertices@,
                    index_views(indices@),
                )
                &&& deduplicated(
                    raw_positions@,
                    raw_normals@,
                    group_views(raw_indices@),
                    vertices@,
                    index_views(indices@),
                )
            },
            Err(e) => rejected(raw_positions@, raw_normals@, group_views(raw_indices@), e),
        },
{
    let ghost positions = raw_positions@;
    let ghost normals = raw_normals@;
    let ghost groups = group_views(raw_indices@);
    let ghost all = groups.flatten();
    let mut vertices: Vec<VertexPN> = Vec::new();
    let mut indices: Vec<Vec<u16>> = Vec::new();
    let ghost mut done: Seq<VTNIndex> = Seq::empty();
    let mut g: usize = 0;
    assert(groups.take(0) =~= Seq::<Seq<VTNIndex>>::empty());
    while g < raw_indices.len()
        invariant
            positions == raw_positions@,
            normals == raw_normals@,
            groups == group_views(raw_indices@),
            all == groups.flatten(),
            0 <= g <= raw_indices.len(),
            done == groups.take(g as int).flatten(),
            forall|k: int| 0 <= k < done.len() ==> fault_at(positions, normals, done, k) is None,
            vertices@ == first_occurrences(resolved(positions, normals, done)),
            vertices.len() <= MAX_VERTICES,
            indices.len() == g,
            forall|h: int| 0 <= h < g ==> (#[trigger] indices[h]).len() == groups[h].len(),
            forall|h: int, i: int|
                0 <= h < g && 0 <= i < groups[h].len() ==> points_at(
                    vertices@,
                    #[trigger] indices[h][i],
                    vertex_at(positions, normals, groups[h][i]),
                ),
        decreases raw_indices.len() - g,
    {
        let group = &raw_indices[g];
        let ghost before = done;
        let mut inner_indices: Vec<u16> = Vec::new();
        let mut i: usize = 0;
        assert(groups[g as int].take(0) =~= Seq::<VTNIndex>::empty());
        assert(before + Seq::<VTNIndex>::empty() =~= before);
        while i < group.len()
            invariant
                positions == raw_positions@,
                normals == raw_normals@,
                groups == group_views(raw_indices@),
                all == groups.flatten(),
                0 <= g < raw_indices.len(),
                group@ == groups[g as int],
                0 <= i <= group.len(),
                before == groups.take(g as int).flatten(),
                done == before + groups[g as int].take(i as int),
                forall|k: int| 0 <= k < done.len() ==> fault_at(positions, normals, done, k) is None,
                vertices@ == first_occurrences(resolved(positions, normals, done)),
                vertices.len() <= MAX_VERTICES,
                indices.len() == g,
                forall|h: int| 0 <= h < g ==> (#[trigger] indices[h]).len() == groups[h].len(),
                forall|h: int, j: int|
                    0 <= h < g && 0 <= j < groups[h].len() ==> points_at(
                        vertices@,
                        #[trigger] indices[h][j],
                        vertex_at(positions, normals, groups[h][j]),
                    ),
                inner_indices.len() == i,
                forall|j: int|
                    0 <= j < i ==> points_at(
                        vertices@,
                        #[trigger] inner_indices[j],
                        vertex_at(positions, normals, groups[g as int][j]),
                    ),
            decreases group.len() - i,
        {
            let corner = group[i];
            let ghost next = done.push(corner);
            proof {
                lemma_flatten_prefix(groups, g as int, i as int + 1);
                assert(groups[g as int].take(i as int + 1) =~= groups[g as int].take(i as int).push(
                    corner,
                ));
                assert(before + groups[g as int].take(i as int + 1) =~= next);
                assert(all.take(next.len() as int) == next);
                assert(next.take(done.len() as int) =~= done);
                assert(next.take(next.len() as int) =~= next);
                assert forall|k: int| 0 <= k < done.len() implies fault_at(
                    positions,
                    normals,
                    next,
                    k,
                ) is None by {
                    lemma_fault_of_prefix(positions, normals, next, done.len() as int, k);
                }
                assert forall|k: int| 0 <= k < next.len() implies fault_at(
                    positions,
                    normals,
                    all,
                    k,
                ) == fault_at(positions, normals, next, k) by {
                    lemma_fault_of_prefix(positions, normals, all, next.len() as int, k);
                }
                assert(resolved(positions, normals, next) =~= resolved(positions, normals, done).push(
                    vertex_at(positions, normals, corner),
                ));
                lemma_first_occurrences_push(
                    resolved(positions, normals, done),
                    vertex_at(positions, normals, corner),
                );
            }
            if corner.0 >= raw_positions.len() {
                assert(is_first_fault(
                    positions,
                    normals,
                    all,
                    done.len() as int,
                    MeshError::PositionIndexOutOfRange,
                ));
                return Err(MeshError::PositionIndexOutOfRange);
            }
            let normal_index = match corner.2 {
                Some(n) => n,
                None => {
                    assert(is_first_fault(
                        positions,
                        normals,
                        all,
                        done.len() as int,
                        MeshError::MissingNormalIndex,
                    ));
                    return Err(MeshError::MissingNormalIndex);
                },
            };
            if normal_index >= raw_normals.len() {
                assert(is_first_fault(
                    positions,
                    normals,
                    all,
                    done.len() as int,
                    MeshError::NormalIndexOutOfRange,
                ));
                return Err(MeshError::NormalIndexOutOfRange);
            }
            let position = raw_positions[corner.0];
            let normal = raw_normals[normal_index];
            match find_same_vertex(position, normal, vertices.as_slice()) {
                Some(v) => {
                    inner_indices.push(v);
                },
                None => {
                    if vertices.len() >= MAX_VERTICES {
                        assert(is_first_fault(
                            positions,
                            normals,
                            all,
                            done.len() as int,
                            MeshError::TooManyVertices,
                        ));
                        return Err(MeshError::TooManyVertices);
                    }
                    vertices.push(VertexPN { position, normal });
                    inner_indices.push((vertices.len() - 1) as u16);
                },
            }
            proof {
                done = next;
            }
            i += 1;
        }
        indices.push(inner_indices);
        proof {
            assert(groups[g as int].take(i as int) =~= groups[g as int]);
            assert(groups.take(g as int + 1) =~= groups.take(g as int).push(groups[g as int]));
            groups.take(g as int).lemma_flatten_push(groups[g as int]);
        }
        g += 1;
    }
    proof {
        assert(groups.take(g as int) =~= groups);
        assert(index_views(indices@).len() == groups.len());
        lemma_built_deduplicates(positions, normals, groups, vertices@, index_views(indices@));
    }
    Ok((vertices, indices))
}

/// A drawable mesh: one vertex buffer without repeats that all surfaces
/// share, one index buffer per surface group, and the materials of the
/// surfaces.
///
/// Material `i` belongs to index buffer `i`. There may be fewer materials
/// than index buffers; a surface without a material is not drawn.
pub struct Mesh<S> {
    pub transform: Transform,
    pub vertex_buffer: Vec<VertexPN>,
    pub index_buffers: Vec<Vec<u16>>,
    /// The primitive type of every index buffer of the mesh.
    pub draw_type: PrimitiveType,
    pub materials: Vec<Material<S>>,
}

impl<S> Mesh<S> {
    /// The buffers fit together: the vertex buffer holds at most 65536
    /// vertices, and every index of every index buffer names one of them.
    pub open spec fn well_formed(&self) -> bool {
        &&& self.vertex_buffer@.len() <= MAX_VERTICES
        &&& forall|g: int, i: int|
            0 <= g < self.index_buffers@.len() && 0 <= i < self.index_buffers@[g]@.len()
                ==> (#[trigger] self.index_buffers@[g]@[i]) < self.vertex_buffer@.len()
    }

    /// Builds the mesh of an object.
    ///
    /// Each surface group of the object becomes one index buffer, in group
    /// order; the vertex buffer is shared and holds every referenced vertex
    /// once (see [`correct_input`]). The primitive type of the mesh is the
    /// kind of the last face of the object, over all groups in input order.
    /// The mesh starts with the identity transform and without materials.
    pub fn new(object: &Object) -> (result: Result<Mesh<S>, MeshError>)
        ensures
            match result {
                Ok(mesh) => {
                    &&& built(
                        object.vertices@,
                        object.normals@,
                        object_indices(*object),
                        mesh.vertex_buffer@,
                        index_views(mesh.index_buffers@),
                    )
                    &&& deduplicated(
                        object.vertices@,
                        object.normals@,
                        object_indices(*object),
                        mesh.vertex_buffer@,
                        index_views(mesh.index_buffers@),
                    )
                    &&& mesh.well_formed()
                    &&& mesh.draw_type == last_kind(object_shapes(*object).flatten())
                    &&& mesh.materials@.len() == 0
                    &&& mesh.transform.matrix_rows() == identity_rows()
                },
                Err(e) => rejected(object.vertices@, object.normals@, object_indices(*object), e),
            },
    {
        let ghost shapes_of = object_shapes(*object);
        let ghost corners_of = object_indices(*object);
        let mut draw_type = PrimitiveType::TrianglesList;
        let mut indices_vec: Vec<Vec<VTNIndex>> = Vec::new();
        let mut g: usize = 0;
        assert(shapes_of.take(0) =~= Seq::<Seq<Primitive>>::empty());
        while g < object.geometry.len()
            invariant
                shapes_of == object_shapes(*object),
                corners_of == object_indices(*object),
                0 <= g <= object.geometry.len(),
                indices_vec.len() == g,
                forall|h: int| 0 <= h < g ==> (#[trigger] indices_vec[h])@ == corners_of[h],
                draw_type == last_kind(shapes_of.take(g as int).flatten()),
            decreases object.geometry.len() - g,
        {
            let shapes = &object.geometry[g].shapes;
            let ghost faces_before = shapes_of.take(g as int).flatten();
            let ghost corner_lists = shapes@.map_values(|p: Primitive| primitive_indices(p));
            let mut raw_indices: Vec<VTNIndex> = Vec::new();
            let mut i: usize = 0;
            assert(shapes@.take(0) =~= Seq::<Primitive>::empty());
            assert(faces_before + shapes@.take(0) =~= faces_before);
            assert(corner_lists.take(0) =~= Seq::<Seq<VTNIndex>>::empty());
            while i < shapes.len()
                invariant
                    shapes_of == object_shapes(*object),
                    0 <= g < object.geometry.len(),
                    shapes@ == shapes_of[g as int],
                    corner_lists == shapes@.map_values(|p: Primitive| primitive_indices(p)),
                    0 <= i <= shapes.len(),
                    raw_indices@ == corner_lists.take(i as int).flatten(),
                    draw_type == last_kind(faces_before + shapes@.take(i as int)),
                decreases shapes.len() - i,
            {
                match shapes[i] {
                    Primitive::Triangle(v1, v2, v3) => {
                        draw_type = PrimitiveType::TrianglesList;
                        raw_indices.push(v1);
                        raw_indices.push(v2);
                        raw_indices.push(v3);
                    },
                    Primitive::Line(v1, v2) => {
                        draw_type = PrimitiveType::LinesList;
                        raw_indices.push(v1);
                        raw_indices.push(v2);
                    },
                    Primitive::Point(v1) => {
                        draw_type = PrimitiveType::Points;
                        raw_indices.push(v1);
                    },
                }
                proof {
                    assert(corner_lists.take(i as int + 1) =~= corner_lists.take(i as int).push(
                        corner_lists[i as int],
                    ));
                    corner_lists.take(i as int).lemma_flatten_push(corner_lists[i as int]);
                    assert(raw_indices@ =~= corner_lists.take(i as int).flatten()
                        + primitive_indices(shapes@[i as int]));
                    assert(shapes@.take(i as int + 1) =~= shapes@.take(i as int).push(
                        shapes@[i as int],
                    ));
                    assert((faces_before + shapes@.take(i as int + 1)).last() == shapes@[i as int]);
                }
                i += 1;
            }
            proof {
                assert(corner_lists.take(i as int) =~= corner_lists);
                assert(shapes@.take(i as int) =~= shapes@);
                assert(shapes_of.take(g as int + 1) =~= shapes_of.take(g as int).push(
                    shapes_of[g as int],
                ));
                shapes_of.take(g as int).lemma_flatten_push(shapes_of[g as int]);
            }
            indices_vec.push(raw_indices);
            g += 1;
        }
        proof {
            assert(shapes_of.take(g as int) =~= shapes_of);
            assert(group_views(indices_vec@) =~= corners_of);
        }
        match correct_input(object.vertices.as_slice(), object.normals.as_slice(), &indices_vec) {
            Ok((vertices, indices)) => {
                proof {
                    lemma_built_fits(
                        object.vertices@,
                        object.normals@,
                        corners_of,
                        vertices@,
                        index_views(indices@),
                    );
                    assert forall|g: int, i: int|
                        0 <= g < indices@.len() && 0 <= i < indices@[g]@.len() implies (
                        #[trigger] indices@[g]@[i]) < vertices@.len() by {
                        assert(index_views(indices@)[g][i] == indices@[g]@[i]);
                    }
                }
                Ok(
                    Mesh {
                        transform: Transform::new(),
                        vertex_buffer: vertices,
                        index_buffers: indices,
                        draw_type,
                        materials: Vec::new(),
                    },
                )
            },
            Err(e) => Err(e),
        }
    }
}

} // verus!
