//! Four-by-four matrices and the camera matrices.
//!
//! Matrices are row-major and points are row vectors: a point is multiplied
//! from the left, so the translation of an affine matrix is its last row.
//!
//! The numbers that go into a camera matrix are computed by the caller. This
//! module checks the parameters of a projection, refuses numbers that are
//! not finite, and puts each number in its place.
use vstd::prelude::*;
use crate::scalar::{
    finite, is_finite, is_less, is_same_number, less_than, same_number, Scalar, ONE, PI, ZERO,
};
use crate::vector3::Vector3;

verus! {

/// A row-major 4x4 matrix.
pub type Matrix4 = [[Scalar; 4]; 4];

/// Why a camera matrix cannot be made.
#[derive(Clone, Copy, Debug, PartialEq, Eq, Structural)]
pub enum CameraError {
    /// The far and the near plane are the same number.
    EqualPlanes,
    /// The field of view does not lie strictly between zero and pi.
    DegenerateFov,
    /// A camera axis or the translation holds something that is not a
    /// finite number. That is what comes of a direction or an up vector
    /// without length, and of a direction and an up vector that are
    /// parallel.
    DegenerateView,
    /// An entry of the perspective matrix is not a finite number.
    DegeneratePerspective,
}

/// The rows of a matrix.
pub open spec fn rows(m: Matrix4) -> Seq<Seq<Scalar>> {
    Seq::new(4, |i: int| m[i]@)
}

/// The rows of the identity matrix.
pub open spec fn identity_rows() -> Seq<Seq<Scalar>> {
    seq![
        seq![ONE, ZERO, ZERO, ZERO],
        seq![ZERO, ONE, ZERO, ZERO],
        seq![ZERO, ZERO, ONE, ZERO],
        seq![ZERO, ZERO, ZERO, ONE],
    ]
}

/// The rows of the affine matrix whose first three rows are the vectors
/// `row0`, `row1`, `row2`, each followed by zero, and whose last row is
/// `translation` followed by one.
pub open spec fn affine_rows(
    row0: Vector3,
    row1: Vector3,
    row2: Vector3,
    translation: Vector3,
) -> Seq<Seq<Scalar>> {
    seq![
        seq![row0.x, row0.y, row0.z, ZERO],
        seq![row1.x, row1.y, row1.z, ZERO],
        seq![row2.x, row2.y, row2.z, ZERO],
        seq![translation.x, translation.y, translation.z, ONE],
    ]
}

/// The rows of the view matrix of a camera with the given axes. The axes
/// stand in the columns: column 0 is `right`, column 1 is `up`, column 2 is
/// `front`. The last row is the translation followed by one.
pub open spec fn view_rows(
    right: Vector3,
    up: Vector3,
    front: Vector3,
    translation: Vector3,
) -> Seq<Seq<Scalar>> {
    seq![
        seq![right.x, up.x, front.x, ZERO],
        seq![right.y, up.y, front.y, ZERO],
        seq![right.z, up.z, front.z, ZERO],
        seq![translation.x, translation.y, translation.z, ONE],
    ]
}

/// The rows of the perspective matrix with the given entries. Entry (2, 3)
/// is one, so that the depth of a point becomes its fourth coordinate.
pub open spec fn perspective_rows(
    x_scale: Scalar,
    y_scale: Scalar,
    z_scale: Scalar,
    z_offset: Scalar,
) -> Seq<Seq<Scalar>> {
    seq![
        seq![x_scale, ZERO, ZERO, ZERO],
        seq![ZERO, y_scale, ZERO, ZERO],
        seq![ZERO, ZERO, z_scale, ONE],
        seq![ZERO, ZERO, z_offset, ZERO],
    ]
}

/// What is wrong with the parameters of a perspective projection, if
/// anything: the planes are looked at first, then the field of view.
pub open spec fn perspective_fault(
    fov: Scalar,
    zfar: Scalar,
    znear: Scalar,
) -> Option<CameraError> {
    if is_same_number(zfar, znear) {
        Some(CameraError::EqualPlanes)
    } else if !(is_less(ZERO, fov) && is_less(fov, PI)) {
        Some(CameraError::DegenerateFov)
    } else {
        None
    }
}

/// Whether the four vectors that make up a view matrix hold finite numbers
/// only.
pub open spec fn view_is_finite(
    right: Vector3,
    up: Vector3,
    front: Vector3,
    translation: Vector3,
) -> bool {
    right.all_finite() && up.all_finite() && front.all_finite() && translation.all_finite()
}

/// Whether the four entries that make up a perspective matrix are finite
/// numbers.
pub open spec fn perspective_is_finite(
    x_scale: Scalar,
    y_scale: Scalar,
    z_scale: Scalar,
    z_offset: Scalar,
) -> bool {
    is_finite(x_scale) && is_finite(y_scale) && is_finite(z_scale) && is_finite(z_offset)
}

/// The affine matrix with the given first three rows and translation row.
pub fn affine_matrix(
    row0: Vector3,
    row1: Vector3,
    row2: Vector3,
    translation: Vector3,
) -> (m: Matrix4)
    ensures
        rows(m) == affine_rows(row0, row1, row2, translation),
{
    let m = [
        [row0.x, row0.y, row0.z, ZERO],
        [row1.x, row1.y, row1.z, ZERO],
        [row2.x, row2.y, row2.z, ZERO],
        [translation.x, translation.y, translation.z, ONE],
    ];
    assert(rows(m) =~~= affine_rows(row0, row1, row2, translation));
    m
}

/// Checks the parameters of a perspective projection: the far and the near
/// plane must differ, and the field of view must lie strictly between zero
/// and pi.
pub fn check_perspective(
    fov: Scalar,
    zfar: Scalar,
    znear: Scalar,
) -> (result: Result<(), CameraError>)
    ensures
        match result {
            Ok(_) => perspective_fault(fov, zfar, znear) is None,
            Err(e) => perspective_fault(fov, zfar, znear) == Some(e),
        },
{
    if same_number(zfar, znear) {
        Err(CameraError::EqualPlanes)
    } else if !(less_than(ZERO, fov) && less_than(fov, PI)) {
        Err(CameraError::DegenerateFov)
    } else {
        Ok(())
    }
}

/// Lays out the view matrix of a camera.
///
/// `right`, `up` and `front` are the camera's axes in world space and
/// `translation` holds, for each axis, the negated dot product of the eye
/// position with it. Fails if any of the twelve scalars is not a finite
/// number, and only then.
pub fn view_matrix(
    right: Vector3,
    up: Vector3,
    front: Vector3,
    translation: Vector3,
) -> (result: Result<Matrix4, CameraError>)
    ensures
        match result {
            Ok(m) => {
                &&& view_is_finite(right, up, front, translation)
                &&& rows(m) == view_rows(right, up, front, translation)
            },
            Err(e) => {
                &&& !view_is_finite(right, up, front, translation)
                &&& e == CameraError::DegenerateView
            },
        },
{
    if !(right.is_finite() && up.is_finite() && front.is_finite() && translation.is_finite()) {
        return Err(CameraError::DegenerateView);
    }
    let m = [
        [right.x, up.x, front.x, ZERO],
        [right.y, up.y, front.y, ZERO],
        [right.z, up.z, front.z, ZERO],
        [translation.x, translation.y, translation.z, ONE],
    ];
    assert(rows(m) =~~= view_rows(right, up, front, translation));
    Ok(m)
}

/// Lays out the perspective matrix of a camera.
///
/// `x_scale` and `y_scale` are the focal factors of the two screen axes,
/// `z_scale` is `(far + near) / (far - near)` and `z_offset` is
/// `-(2 * far * near) / (far - near)`. Fails if any of the four is not a
/// finite number, and only then.
pub fn perspective_matrix(
    x_scale: Scalar,
    y_scale: Scalar,
    z_scale: Scalar,
    z_offset: Scalar,
) -> (result: Result<Matrix4, CameraError>)
    ensures
        match result {
            Ok(m) => {
                &&& perspective_is_finite(x_scale, y_scale, z_scale, z_offset)
                &&& rows(m) == perspective_rows(x_scale, y_scale, z_scale, z_offset)
            },
            Err(e) => {
                &&& !perspective_is_finite(x_scale, y_scale, z_scale, z_offset)
                &&& e == CameraError::DegeneratePerspective
            },
        },
{
    if !(finite(x_scale) && finite(y_scale) && finite(z_scale) && finite(z_offset)) {
        return Err(CameraError::DegeneratePerspective);
    }
    let m = [
        [x_scale, ZERO, ZERO, ZERO],
        [ZERO, y_scale, ZERO, ZERO],
        [ZERO, ZERO, z_scale, ONE],
        [ZERO, ZERO, z_offset, ZERO],
    ];
    assert(rows(m) =~~= perspective_rows(x_scale, y_scale, z_scale, z_offset));
    Ok(m)
}

} // verus!
