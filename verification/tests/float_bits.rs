use crook_plugin::float_bits::{F32Bits, F64Bits};
use crook_plugin::vocabulary::{Cell, Node, Tone};

#[test]
fn a_carried_float_compares_as_the_float_does() {
    let half = F32Bits(0.5f32.to_bits());
    assert_eq!(half, F32Bits(0.5f32.to_bits()));
    assert_ne!(half, F32Bits(0.25f32.to_bits()));
    // A NaN equals nothing, not even itself.
    assert_ne!(F32Bits(f32::NAN.to_bits()), F32Bits(f32::NAN.to_bits()));
    // And the two zeros are one number.
    assert_eq!(F32Bits(0.0f32.to_bits()), F32Bits((-0.0f32).to_bits()));
    // Infinity is a number like any other.
    assert_eq!(F32Bits(f32::INFINITY.to_bits()), F32Bits(f32::INFINITY.to_bits()));

    assert_eq!(F64Bits(1284.0f64.to_bits()), F64Bits(1284.0f64.to_bits()));
    assert_ne!(F64Bits(f64::NAN.to_bits()), F64Bits(f64::NAN.to_bits()));
    assert_eq!(F64Bits(0.0f64.to_bits()), F64Bits((-0.0f64).to_bits()));
    assert_ne!(F64Bits(1.0f64.to_bits()), F64Bits(2.0f64.to_bits()));
}

#[test]
fn a_tree_with_a_number_in_it_compares_as_its_numbers_do() {
    let meter = |fraction: f32| Node::Meter {
        fraction: F32Bits(fraction.to_bits()),
        tone: Tone::Success,
    };
    assert_eq!(meter(0.47), meter(0.47));
    assert_eq!(meter(0.0), meter(-0.0));
    assert_ne!(meter(f32::NAN), meter(f32::NAN));
    assert_ne!(
        Cell::Number(F64Bits(f64::NAN.to_bits())),
        Cell::Number(F64Bits(f64::NAN.to_bits()))
    );
}
