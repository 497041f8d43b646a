use game_engine::scalar::{finite, less_than, same_number, INFINITY, ONE, PI, SIGN, ZERO};
use game_engine::vector3::Vector3;

fn samples() -> Vec<f32> {
    let mut all = vec![
        0.0,
        -0.0,
        1.0,
        -1.0,
        0.1,
        -0.1,
        0.5,
        2.0,
        3.0,
        1024.0,
        -1024.0,
        std::f32::consts::PI,
        f32::MIN_POSITIVE,
        -f32::MIN_POSITIVE,
        f32::MAX,
        f32::MIN,
        f32::EPSILON,
        f32::INFINITY,
        f32::NEG_INFINITY,
        f32::NAN,
        -f32::NAN,
        f32::from_bits(1),
        f32::from_bits(0x8000_0001),
        f32::from_bits(0x007F_FFFF),
        f32::from_bits(0x7F7F_FFFF),
        f32::from_bits(0x7F80_0001),
        f32::from_bits(0xFFFF_FFFF),
    ];
    // A spread of patterns over the whole range.
    let mut bits: u32 = 0x1234_5678;
    for _ in 0..200 {
        bits = bits.wrapping_mul(1_664_525).wrapping_add(1_013_904_223);
        all.push(f32::from_bits(bits));
    }
    all
}

#[test]
fn the_constants_are_the_bits_of_their_numbers() {
    assert_eq!(ZERO, 0.0f32.to_bits());
    assert_eq!(ONE, 1.0f32.to_bits());
    assert_eq!(PI, std::f32::consts::PI.to_bits());
    assert_eq!(INFINITY, f32::INFINITY.to_bits());
    assert_eq!(SIGN, (-0.0f32).to_bits());
}

#[test]
fn finite_agrees_with_the_numbers() {
    for x in samples() {
        assert_eq!(finite(x.to_bits()), x.is_finite(), "{:?}", x);
    }
}

#[test]
fn same_number_agrees_with_the_numbers() {
    for a in samples() {
        for b in samples() {
            assert_eq!(same_number(a.to_bits(), b.to_bits()), a == b, "{:?} {:?}", a, b);
        }
    }
}

#[test]
fn less_than_agrees_with_the_numbers() {
    for a in samples() {
        for b in samples() {
            assert_eq!(less_than(a.to_bits(), b.to_bits()), a < b, "{:?} {:?}", a, b);
        }
    }
}

#[test]
fn the_two_zeros_are_one_number_and_not_a_number_equals_nothing() {
    assert!(same_number(0.0f32.to_bits(), (-0.0f32).to_bits()));
    assert!(!less_than((-0.0f32).to_bits(), 0.0f32.to_bits()));
    assert!(!same_number(f32::NAN.to_bits(), f32::NAN.to_bits()));
    assert!(!less_than(f32::NAN.to_bits(), 1.0f32.to_bits()));
    assert!(!less_than(1.0f32.to_bits(), f32::NAN.to_bits()));
    assert!(less_than(f32::NEG_INFINITY.to_bits(), f32::MIN.to_bits()));
    assert!(less_than(f32::MAX.to_bits(), f32::INFINITY.to_bits()));
}

#[test]
fn a_vector_is_finite_when_all_its_components_are() {
    let finite_vector = Vector3::new(1.0f32.to_bits(), (-2.5f32).to_bits(), 0.0f32.to_bits());
    assert!(finite_vector.is_finite());
    for bad in [f32::NAN, f32::INFINITY, f32::NEG_INFINITY] {
        assert!(!Vector3::new(bad.to_bits(), ONE, ONE).is_finite());
        assert!(!Vector3::new(ONE, bad.to_bits(), ONE).is_finite());
        assert!(!Vector3::new(ONE, ONE, bad.to_bits()).is_finite());
    }
}
