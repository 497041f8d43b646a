//! What holds of every mesh that the builder makes.
use vstd::prelude::*;
use crate::dedup::{
    first_occurrences, is_first_position, lemma_first_occurrences_elements,
    lemma_first_occurrences_len, lemma_first_occurrences_no_duplicates,
    lemma_first_occurrences_order,
};
use crate::mesh::{
    built, fault_at, is_first_fault, rejected, resolved, vertex_at, MeshError, MAX_VERTICES,
};
use crate::obj::VTNIndex;
use crate::vector3::Vector3;
use crate::vertex_types::VertexPN;

verus! {

/// `outcome` is what the builder makes of the surface groups `groups`: a
/// vertex buffer with index lists, or the error it refuses them with.
pub open spec fn is_outcome(
    positions: Seq<Vector3>,
    normals: Seq<Vector3>,
    groups: Seq<Seq<VTNIndex>>,
    outcome: Result<(Seq<VertexPN>, Seq<Seq<u16>>), MeshError>,
) -> bool {
    match outcome {
        Ok((vertices, indices)) => built(positions, normals, groups, vertices, indices),
        Err(e) => rejected(positions, normals, groups, e),
    }
}

/// The vertex buffer holds the referenced vertices with repeats removed and
/// nothing else changed.
///
/// It never holds more vertices than the faces have corners, holds no
/// vertex twice, and holds only vertices that some corner refers to. Two
/// corners have the same index exactly when their vertices are the same,
/// bit for bit. The vertices stand in the order in which the corners, taken
/// in input order, refer to them for the first time.
pub open spec fn deduplicated(
    positions: Seq<Vector3>,
    normals: Seq<Vector3>,
    groups: Seq<Seq<VTNIndex>>,
    vertices: Seq<VertexPN>,
    indices: Seq<Seq<u16>>,
) -> bool {
    let referenced = resolved(positions, normals, groups.flatten());
    &&& vertices.len() <= groups.flatten().len()
    &&& vertices.no_duplicates()
    &&& forall|i: int| 0 <= i < vertices.len() ==> referenced.contains(#[trigger] vertices[i])
    &&& forall|g: int, i: int, h: int, j: int|
        0 <= g < groups.len() && 0 <= i < groups[g].len() && 0 <= h < groups.len() && 0 <= j
            < groups[h].len() ==> (#[trigger] indices[g][i] == #[trigger] indices[h][j]
            <==> vertex_at(positions, normals, groups[g][i]) == vertex_at(
            positions,
            normals,
            groups[h][j],
        ))
    &&& forall|i: int, j: int, a: int, b: int|
        0 <= i < j < vertices.len() && #[trigger] is_first_position(referenced, vertices[i], a)
            && #[trigger] is_first_position(referenced, vertices[j], b) ==> a < b
}

/// Whatever the builder makes is deduplicated.
pub proof fn lemma_built_deduplicates(
    positions: Seq<Vector3>,
    normals: Seq<Vector3>,
    groups: Seq<Seq<VTNIndex>>,
    vertices: Seq<VertexPN>,
    indices: Seq<Seq<u16>>,
)
    requires
        built(positions, normals, groups, vertices, indices),
    ensures
        deduplicated(positions, normals, groups, vertices, indices),
{
    let referenced = resolved(positions, normals, groups.flatten());
    lemma_first_occurrences_len(referenced);
    lemma_first_occurrences_no_duplicates(referenced);
    lemma_first_occurrences_elements(referenced);
    assert forall|i: int| 0 <= i < vertices.len() implies referenced.contains(
        #[trigger] vertices[i],
    ) by {
        assert(first_occurrences(referenced).contains(vertices[i]));
    }
    assert forall|i: int, j: int, a: int, b: int|
        0 <= i < j < vertices.len() && #[trigger] is_first_position(referenced, vertices[i], a)
            && #[trigger] is_first_position(referenced, vertices[j], b) implies a < b by {
        lemma_first_occurrences_order(referenced, i, j, a, b);
    }
}

/// Whatever the builder makes fits indices of 16 bits: the vertex buffer
/// holds at most 65536 vertices, and every index names one of them.
pub proof fn lemma_built_fits(
    positions: Seq<Vector3>,
    normals: Seq<Vector3>,
    groups: Seq<Seq<VTNIndex>>,
    vertices: Seq<VertexPN>,
    indices: Seq<Seq<u16>>,
)
    requires
        built(positions, normals, groups, vertices, indices),
    ensures
        vertices.len() <= MAX_VERTICES,
        forall|g: int, i: int|
            0 <= g < indices.len() && 0 <= i < indices[g].len() ==> (#[trigger] indices[g][i])
                < vertices.len(),
{
    let corners = groups.flatten();
    if corners.len() > 0 {
        assert(fault_at(positions, normals, corners, corners.len() - 1) is None);
        assert(corners.take(corners.len() as int) =~= corners);
    }
}

/// Building is deterministic: whatever the builder makes of one input, it
/// makes of it every time, the same vertex buffer and index lists or the
/// same error.
pub proof fn lemma_build_deterministic(
    positions: Seq<Vector3>,
    normals: Seq<Vector3>,
    groups: Seq<Seq<VTNIndex>>,
    first: Result<(Seq<VertexPN>, Seq<Seq<u16>>), MeshError>,
    second: Result<(Seq<VertexPN>, Seq<Seq<u16>>), MeshError>,
)
    requires
        is_outcome(positions, normals, groups, first),
        is_outcome(positions, normals, groups, second),
    ensures
        first == second,
{
    let corners = groups.flatten();
    match (first, second) {
        (Ok((v1, i1)), Ok((v2, i2))) => {
            lemma_first_occurrences_no_duplicates(resolved(positions, normals, corners));
            assert forall|g: int| 0 <= g < groups.len() implies i1[g] =~= i2[g] by {
                assert(i1[g].len() == groups[g].len());
                assert(i2[g].len() == groups[g].len());
                assert forall|i: int| 0 <= i < groups[g].len() implies i1[g][i] == i2[g][i] by {
                    assert(v1[i1[g][i] as int] == vertex_at(positions, normals, groups[g][i]));
                    assert(v2[i2[g][i] as int] == vertex_at(positions, normals, groups[g][i]));
                }
            }
            assert(i1 =~= i2);
        },
        (Ok(_), Err(e)) => {
            let k = choose|k: int| is_first_fault(positions, normals, corners, k, e);
            assert(fault_at(positions, normals, corners, k) is None);
        },
        (Err(e), Ok(_)) => {
            let k = choose|k: int| is_first_fault(positions, normals, corners, k, e);
            assert(fault_at(positions, normals, corners, k) is None);
        },
        (Err(e1), Err(e2)) => {
            let k1 = choose|k: int| is_first_fault(positions, normals, corners, k, e1);
            let k2 = choose|k: int| is_first_fault(positions, normals, corners, k, e2);
            if k1 < k2 {
                assert(fault_at(positions, normals, corners, k1) is None);
            } else if k2 < k1 {
                assert(fault_at(positions, normals, corners, k2) is None);
            }
        },
    }
}

} // verus!
