use game_engine::math::{check_perspective, perspective_matrix, view_matrix, CameraError, Matrix4};
use game_engine::vector3::Vector3;

fn v3(x: f32, y: f32, z: f32) -> Vector3 {
    Vector3::new(x.to_bits(), y.to_bits(), z.to_bits())
}

fn numbers(m: Matrix4) -> [[f32; 4]; 4] {
    m.map(|row| row.map(f32::from_bits))
}

fn length(v: [f32; 3]) -> f32 {
    (v[0] * v[0] + v[1] * v[1] + v[2] * v[2]).sqrt()
}

fn normalized(v: [f32; 3]) -> [f32; 3] {
    let l = length(v);
    [v[0] / l, v[1] / l, v[2] / l]
}

fn cross(a: [f32; 3], b: [f32; 3]) -> [f32; 3] {
    [a[1] * b[2] - a[2] * b[1], a[2] * b[0] - a[0] * b[2], a[0] * b[1] - a[1] * b[0]]
}

fn dot(a: [f32; 3], b: [f32; 3]) -> f32 {
    a[0] * b[0] + a[1] * b[1] + a[2] * b[2]
}

// The camera frame of an eye, a direction and an up vector, handed to the
// layout as a caller does.
fn look(eye: [f32; 3], direction: [f32; 3], up: [f32; 3]) -> Result<Matrix4, CameraError> {
    let front = normalized(direction);
    let right = normalized(cross(up, front));
    let true_up = cross(front, right);
    view_matrix(
        v3(right[0], right[1], right[2]),
        v3(true_up[0], true_up[1], true_up[2]),
        v3(front[0], front[1], front[2]),
        v3(-dot(eye, right), -dot(eye, true_up), -dot(eye, front)),
    )
}

fn project(frame: (u32, u32), fov: f32, zfar: f32, znear: f32) -> Result<Matrix4, CameraError> {
    check_perspective(fov.to_bits(), zfar.to_bits(), znear.to_bits())?;
    let aspect = frame.1 as f32 / frame.0 as f32;
    let f = 1.0 / (fov / 2.0).tan();
    perspective_matrix(
        (f * aspect).to_bits(),
        f.to_bits(),
        ((zfar + znear) / (zfar - znear)).to_bits(),
        (-(2.0 * zfar * znear) / (zfar - znear)).to_bits(),
    )
}

#[test]
fn the_view_matrix_holds_the_camera_axes_in_its_columns() {
    let right = v3(1.0, 2.0, 3.0);
    let up = v3(4.0, 5.0, 6.0);
    let front = v3(7.0, 8.0, 9.0);
    let translation = v3(-1.5, -2.5, -3.5);
    assert_eq!(
        numbers(view_matrix(right, up, front, translation).unwrap()),
        [
            [1.0, 4.0, 7.0, 0.0],
            [2.0, 5.0, 8.0, 0.0],
            [3.0, 6.0, 9.0, 0.0],
            [-1.5, -2.5, -3.5, 1.0],
        ]
    );
}

#[test]
fn a_camera_at_zero_looking_down_z_has_the_identity_view_matrix() {
    let m = numbers(look([0.0, 0.0, 0.0], [0.0, 0.0, 1.0], [0.0, 1.0, 0.0]).unwrap());
    // Column 0 is right, column 1 the true up, column 2 front.
    assert_eq!([m[0][0], m[1][0], m[2][0]], [1.0, 0.0, 0.0]);
    assert_eq!([m[0][1], m[1][1], m[2][1]], [0.0, 1.0, 0.0]);
    assert_eq!([m[0][2], m[1][2], m[2][2]], [0.0, 0.0, 1.0]);
    assert_eq!(m[3], [0.0, 0.0, 0.0, 1.0]);
    assert_eq!([m[0][3], m[1][3], m[2][3]], [0.0, 0.0, 0.0]);
}

#[test]
fn the_translation_row_moves_the_eye_to_the_origin() {
    let m = numbers(look([0.0, 0.0, -2.0], [0.0, 0.0, 1.0], [0.0, 1.0, 0.0]).unwrap());
    assert_eq!(m[3], [0.0, 0.0, 2.0, 1.0]);
}

#[test]
fn a_direction_without_length_is_refused() {
    assert_eq!(
        look([0.0, 0.0, 0.0], [0.0, 0.0, 0.0], [0.0, 1.0, 0.0]),
        Err(CameraError::DegenerateView)
    );
}

#[test]
fn an_up_vector_without_length_is_refused() {
    assert_eq!(
        look([1.0, 2.0, 3.0], [0.0, 0.0, 1.0], [0.0, 0.0, 0.0]),
        Err(CameraError::DegenerateView)
    );
}

#[test]
fn parallel_direction_and_up_are_refused() {
    assert_eq!(
        look([0.0, 0.0, 0.0], [0.0, 2.0, 0.0], [0.0, 1.0, 0.0]),
        Err(CameraError::DegenerateView)
    );
    assert_eq!(
        look([0.0, 0.0, 0.0], [1.0, 1.0, 1.0], [-3.0, -3.0, -3.0]),
        Err(CameraError::DegenerateView)
    );
}

#[test]
fn every_scalar_of_the_view_matrix_must_be_finite() {
    let good = v3(1.0, 0.0, 0.0);
    let bad = [
        v3(f32::NAN, 0.0, 0.0),
        v3(0.0, f32::INFINITY, 0.0),
        v3(0.0, 0.0, f32::NEG_INFINITY),
    ];
    for b in bad {
        assert_eq!(view_matrix(b, good, good, good), Err(CameraError::DegenerateView));
        assert_eq!(view_matrix(good, b, good, good), Err(CameraError::DegenerateView));
        assert_eq!(view_matrix(good, good, b, good), Err(CameraError::DegenerateView));
        assert_eq!(view_matrix(good, good, good, b), Err(CameraError::DegenerateView));
    }
    assert!(view_matrix(good, good, good, v3(f32::MAX, f32::MIN, -0.0)).is_ok());
}

#[test]
fn the_perspective_matrix_of_a_square_frame() {
    let m = numbers(project((600, 600), std::f32::consts::PI / 3.0, 1024.0, 0.1).unwrap());
    assert!((m[0][0] - 1.7320508).abs() < 1e-5);
    assert!((m[1][1] - 1.7320508).abs() < 1e-5);
    assert!((m[2][2] - 1024.1 / 1023.9).abs() < 1e-5);
    assert!((m[3][2] + 204.8 / 1023.9).abs() < 1e-5);
    assert_eq!(m[0], [m[0][0], 0.0, 0.0, 0.0]);
    assert_eq!(m[1], [0.0, m[1][1], 0.0, 0.0]);
    assert_eq!(m[2], [0.0, 0.0, m[2][2], 1.0]);
    assert_eq!(m[3], [0.0, 0.0, m[3][2], 0.0]);
}

#[test]
fn the_perspective_matrix_lays_out_its_four_entries() {
    let m = perspective_matrix(2.0f32.to_bits(), 3.0f32.to_bits(), 4.0f32.to_bits(), (-5.0f32).to_bits());
    assert_eq!(
        numbers(m.unwrap()),
        [
            [2.0, 0.0, 0.0, 0.0],
            [0.0, 3.0, 0.0, 0.0],
            [0.0, 0.0, 4.0, 1.0],
            [0.0, 0.0, -5.0, 0.0],
        ]
    );
}

#[test]
fn equal_planes_are_refused() {
    let fov = (std::f32::consts::PI / 3.0).to_bits();
    assert_eq!(check_perspective(fov, 10.0f32.to_bits(), 10.0f32.to_bits()), Err(CameraError::EqualPlanes));
    // The two zeros are one number.
    assert_eq!(check_perspective(fov, 0.0f32.to_bits(), (-0.0f32).to_bits()), Err(CameraError::EqualPlanes));
    assert_eq!(project((600, 600), 1.0, 0.1, 0.1), Err(CameraError::EqualPlanes));
    assert_eq!(check_perspective(fov, 1024.0f32.to_bits(), 0.1f32.to_bits()), Ok(()));
    assert_eq!(check_perspective(fov, 0.1f32.to_bits(), 1024.0f32.to_bits()), Ok(()));
}

#[test]
fn a_field_of_view_outside_zero_to_pi_is_refused() {
    let (zfar, znear) = (1024.0f32.to_bits(), 0.1f32.to_bits());
    let pi = std::f32::consts::PI;
    for fov in [0.0, -0.0, -1.0, pi, 4.0, f32::INFINITY, f32::NEG_INFINITY, f32::NAN] {
        assert_eq!(
            check_perspective(fov.to_bits(), zfar, znear),
            Err(CameraError::DegenerateFov),
            "field of view {}",
            fov
        );
    }
    for fov in [f32::MIN_POSITIVE, 0.001, 1.0, pi / 3.0, pi / 2.0, 3.0, 3.141592] {
        assert_eq!(check_perspective(fov.to_bits(), zfar, znear), Ok(()), "field of view {}", fov);
    }
    // The largest number below pi is still in range.
    assert_eq!(check_perspective(pi.to_bits() - 1, zfar, znear), Ok(()));
}

#[test]
fn the_planes_are_looked_at_before_the_field_of_view() {
    assert_eq!(
        check_perspective(0.0f32.to_bits(), 1.0f32.to_bits(), 1.0f32.to_bits()),
        Err(CameraError::EqualPlanes)
    );
}

#[test]
fn every_entry_of_the_perspective_matrix_must_be_finite() {
    let one = 1.0f32.to_bits();
    for bad in [f32::NAN, f32::INFINITY, f32::NEG_INFINITY] {
        let b = bad.to_bits();
        assert_eq!(perspective_matrix(b, one, one, one), Err(CameraError::DegeneratePerspective));
        assert_eq!(perspective_matrix(one, b, one, one), Err(CameraError::DegeneratePerspective));
        assert_eq!(perspective_matrix(one, one, b, one), Err(CameraError::DegeneratePerspective));
        assert_eq!(perspective_matrix(one, one, one, b), Err(CameraError::DegeneratePerspective));
    }
}
