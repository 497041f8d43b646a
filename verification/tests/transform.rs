use game_engine::basis::Basis;
use game_engine::color::Color;
use game_engine::math::{affine_matrix, Matrix4};
use game_engine::transform::Transform;
use game_engine::vector::Vector;
use game_engine::vector3::Vector3;

fn v3(x: f32, y: f32, z: f32) -> Vector3 {
    Vector3::new(x.to_bits(), y.to_bits(), z.to_bits())
}

fn numbers(m: Matrix4) -> [[f32; 4]; 4] {
    let mut out = [[0.0f32; 4]; 4];
    for i in 0..4 {
        for j in 0..4 {
            out[i][j] = f32::from_bits(m[i][j]);
        }
    }
    out
}

#[test]
fn a_new_transform_forms_the_identity_matrix() {
    assert_eq!(
        numbers(Transform::new().form_matrix()),
        [
            [1.0, 0.0, 0.0, 0.0],
            [0.0, 1.0, 0.0, 0.0],
            [0.0, 0.0, 1.0, 0.0],
            [0.0, 0.0, 0.0, 1.0],
        ]
    );
}

#[test]
fn a_new_transform_has_unit_axes_and_sits_at_zero() {
    let transform = Transform::new();
    assert_eq!(
        *transform.get_basis().get_elements(),
        [v3(1.0, 0.0, 0.0), v3(0.0, 1.0, 0.0), v3(0.0, 0.0, 1.0)]
    );
    assert_eq!(transform.get_position(), v3(0.0, 0.0, 0.0));
}

#[test]
fn the_unit_basis_has_orthonormal_axes() {
    let expected = [v3(1.0, 0.0, 0.0), v3(0.0, 1.0, 0.0), v3(0.0, 0.0, 1.0)];
    assert_eq!(*Basis::new().get_elements(), expected);
    assert_eq!(*Basis::unit_matrix().get_elements(), expected);
}

#[test]
fn a_basis_keeps_the_axes_it_is_made_of() {
    let axes = [v3(2.0, 0.5, 0.0), v3(-1.0, 3.0, 0.25), v3(0.0, 0.0, 4.0)];
    assert_eq!(*Basis::from_elements(axes).get_elements(), axes);
}

#[test]
fn the_matrix_rows_are_the_axes_and_the_origin() {
    let mut transform = Transform::new();
    transform.set_basis(Basis::from_elements([
        v3(2.0, 0.1, 0.2),
        v3(0.3, 3.0, 0.4),
        v3(0.5, 0.6, 4.0),
    ]));
    transform.set_position(v3(7.0, 8.0, 9.0));
    assert_eq!(
        numbers(transform.form_matrix()),
        [
            [2.0, 0.1, 0.2, 0.0],
            [0.3, 3.0, 0.4, 0.0],
            [0.5, 0.6, 4.0, 0.0],
            [7.0, 8.0, 9.0, 1.0],
        ]
    );
}

#[test]
fn set_position_overwrites_the_origin_and_keeps_the_basis() {
    let mut transform = Transform::new();
    let axes = [v3(2.0, 0.0, 0.0), v3(0.0, 3.0, 0.0), v3(0.0, 0.0, 4.0)];
    transform.set_basis(Basis::from_elements(axes));
    transform.set_position(v3(1.0, 2.0, 3.0));
    transform.set_position(v3(-4.0, 5.0, 0.5));
    assert_eq!(transform.get_position(), v3(-4.0, 5.0, 0.5));
    assert_eq!(*transform.get_basis().get_elements(), axes);
}

#[test]
fn set_basis_replaces_the_axes_and_keeps_the_origin() {
    let mut transform = Transform::new();
    transform.set_position(v3(1.0, 2.0, 3.0));
    let axes = [v3(0.0, 1.0, 0.0), v3(-1.0, 0.0, 0.0), v3(0.0, 0.0, 1.0)];
    transform.set_basis(Basis::from_elements(axes));
    assert_eq!(*transform.get_basis().get_elements(), axes);
    assert_eq!(transform.get_position(), v3(1.0, 2.0, 3.0));
}

#[test]
fn forming_the_matrix_does_not_change_the_transform() {
    let mut transform = Transform::new();
    transform.set_position(v3(1.0, 2.0, 3.0));
    let first = transform.form_matrix();
    let second = transform.form_matrix();
    assert_eq!(first, second);
    assert_eq!(transform.get_position(), v3(1.0, 2.0, 3.0));
}

#[test]
fn an_affine_matrix_has_the_translation_in_its_last_row() {
    let m = affine_matrix(v3(1.0, 2.0, 3.0), v3(4.0, 5.0, 6.0), v3(7.0, 8.0, 9.0), v3(10.0, 11.0, 12.0));
    assert_eq!(
        numbers(m),
        [
            [1.0, 2.0, 3.0, 0.0],
            [4.0, 5.0, 6.0, 0.0],
            [7.0, 8.0, 9.0, 0.0],
            [10.0, 11.0, 12.0, 1.0],
        ]
    );
}

#[test]
fn a_vector_keeps_its_components_in_order() {
    let v = Vector3::new(1, 2, 3);
    assert_eq!((v.x, v.y, v.z), (1, 2, 3));
    assert_eq!(v.as_array(), [1, 2, 3]);
    assert_eq!(Vector3::fill(9).as_array(), [9, 9, 9]);
    assert_eq!(v3(0.5, -2.0, 8.0).as_array().map(f32::from_bits), [0.5, -2.0, 8.0]);
    let plain = Vector::new(4, 5, 6);
    assert_eq!((plain.x, plain.y, plain.z), (4, 5, 6));
    assert_eq!(plain.as_array(), [4, 5, 6]);
}

#[test]
fn a_colour_lists_its_channels_with_and_without_alpha() {
    let c = Color::new(
        0.075f32.to_bits(),
        0.04f32.to_bits(),
        0.01f32.to_bits(),
        1.0f32.to_bits(),
    );
    assert_eq!(c.as_array_rgba().map(f32::from_bits), [0.075, 0.04, 0.01, 1.0]);
    assert_eq!(c.as_array_rgb().map(f32::from_bits), [0.075, 0.04, 0.01]);
    // Channels are not clamped.
    let bright = Color::new(2.5f32.to_bits(), (-1.0f32).to_bits(), 0, 0);
    assert_eq!(bright.as_array_rgb().map(f32::from_bits), [2.5, -1.0, 0.0]);
}
