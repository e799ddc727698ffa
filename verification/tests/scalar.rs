use triangles::scalar::{bits_is_nan, bits_less_than, INFINITY_BITS, SIGN_BIT};

fn samples() -> Vec<f32> {
    let mut v = vec![
        0.0,
        -0.0,
        1.0,
        -1.0,
        0.5,
        -0.5,
        2.0,
        1.0e-45,
        -1.0e-45,
        1.17549435e-38,
        3.4028235e38,
        -3.4028235e38,
        f32::INFINITY,
        f32::NEG_INFINITY,
        f32::NAN,
        -f32::NAN,
        f32::from_bits(0x7f80_0001),
        f32::from_bits(0xffff_ffff),
        f32::EPSILON,
        123456.79,
        -123456.79,
    ];
    let mut x = 0x1234_5678u32;
    for _ in 0..200 {
        x = x.wrapping_mul(1664525).wrapping_add(1013904223);
        v.push(f32::from_bits(x));
    }
    v
}

#[test]
fn the_constants_are_those_of_single_precision() {
    assert_eq!(SIGN_BIT, (-0.0f32).to_bits());
    assert_eq!(INFINITY_BITS, f32::INFINITY.to_bits());
}

#[test]
fn nan_patterns_are_told_apart() {
    for x in samples() {
        assert_eq!(bits_is_nan(x.to_bits()), x.is_nan(), "{:#x}", x.to_bits());
    }
}

#[test]
fn patterns_compare_as_their_numbers() {
    let all = samples();
    for a in all.iter() {
        for b in all.iter() {
            assert_eq!(
                bits_less_than(a.to_bits(), b.to_bits()),
                a < b,
                "{:#x} < {:#x}",
                a.to_bits(),
                b.to_bits()
            );
        }
    }
}

#[test]
fn the_two_zeros_are_equal() {
    assert!(!bits_less_than(0x8000_0000, 0));
    assert!(!bits_less_than(0, 0x8000_0000));
}

#[test]
fn nothing_compares_with_nan() {
    let nan = f32::NAN.to_bits();
    assert!(!bits_less_than(nan, 1.0f32.to_bits()));
    assert!(!bits_less_than(1.0f32.to_bits(), nan));
    assert!(!bits_less_than(nan, nan));
}
