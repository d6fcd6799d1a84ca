use particle_fountain::scalar::Scalar;
use particle_fountain::vector::Vec2;

fn sc(value: f32) -> Scalar {
    Scalar::from_bits(value.to_bits())
}

fn samples() -> Vec<f32> {
    vec![
        0.0,
        -0.0,
        1.0,
        -1.0,
        0.5,
        2.0,
        0.1,
        -1.1,
        -1.2,
        0.05,
        -0.05,
        0.02,
        20.0,
        1.0 / 60.0,
        3.1415927,
        -123456.79,
        1.0e-40,
        -1.0e-40,
        1.17549435e-38,
        3.4028235e38,
        -3.4028235e38,
        f32::INFINITY,
        f32::NEG_INFINITY,
        f32::NAN,
        f32::from_bits(0xFFC0_0001),
        f32::from_bits(0x0000_0001),
        f32::from_bits(0x8000_0001),
        16777216.0,
        0.3,
        1.5e-45,
    ]
}

fn same_number(expected: f32, got: Scalar) -> bool {
    if expected.is_nan() {
        got.is_nan()
    } else {
        expected.to_bits() == got.to_bits()
    }
}

#[test]
fn bits_round_trip() {
    for value in samples() {
        assert_eq!(sc(value).to_bits(), value.to_bits());
        assert_eq!(sc(value).bits, value.to_bits());
    }
}

#[test]
fn is_nan_agrees_with_hardware() {
    for value in samples() {
        assert_eq!(sc(value).is_nan(), value.is_nan(), "{value}");
    }
    assert!(Scalar::from_bits(0x7F80_0001).is_nan());
    assert!(Scalar::from_bits(0xFF80_0001).is_nan());
    assert!(!Scalar::from_bits(0x7F80_0000).is_nan());
    assert!(!Scalar::from_bits(0xFF80_0000).is_nan());
}

#[test]
fn lt_agrees_with_hardware() {
    for a in samples() {
        for b in samples() {
            assert_eq!(sc(a).lt(sc(b)), a < b, "{a} < {b}");
        }
    }
}

#[test]
fn lt_treats_both_zeros_alike() {
    assert!(!sc(-0.0).lt(sc(0.0)));
    assert!(!sc(0.0).lt(sc(-0.0)));
    assert!(sc(-0.0).lt(sc(1.0e-45)));
    assert!(sc(-1.0e-45).lt(sc(-0.0)));
}

#[test]
fn lt_is_false_on_nan() {
    let nan = sc(f32::NAN);
    assert!(!nan.lt(sc(1.0)));
    assert!(!sc(1.0).lt(nan));
    assert!(!nan.lt(nan));
    assert!(!sc(f32::NEG_INFINITY).lt(nan));
}

#[test]
fn neg_agrees_with_hardware() {
    for value in samples() {
        assert_eq!(sc(value).neg().to_bits(), (-value).to_bits(), "{value}");
    }
    assert_eq!(sc(0.0).neg().to_bits(), 0x8000_0000);
    assert_eq!(sc(-0.0).neg().to_bits(), 0);
}

#[test]
fn plus_agrees_with_hardware() {
    for a in samples() {
        for b in samples() {
            assert!(same_number(a + b, sc(a).plus(sc(b))), "{a} + {b}");
        }
    }
}

#[test]
fn times_agrees_with_hardware() {
    for a in samples() {
        for b in samples() {
            assert!(same_number(a * b, sc(a).times(sc(b))), "{a} * {b}");
        }
    }
}

#[test]
fn plus_and_times_exact_values() {
    assert_eq!(sc(1.0).plus(sc(2.0)).to_bits(), 0x4040_0000);
    assert_eq!(sc(0.1).plus(sc(0.2)).to_bits(), (0.1f32 + 0.2f32).to_bits());
    assert_eq!(sc(1.5).times(sc(2.0)).to_bits(), 0x4040_0000);
    assert_eq!(sc(0.1).times(sc(0.5)).to_bits(), 0.05f32.to_bits());
    assert_eq!(sc(3.0).times(sc(0.0)).to_bits(), 0);
    assert_eq!(sc(-3.0).times(sc(0.0)).to_bits(), 0x8000_0000);
}

#[test]
fn times_half_is_division_by_two() {
    for value in samples() {
        assert!(same_number(value / 2.0, sc(value).times(sc(0.5))), "{value}");
    }
}

#[test]
fn clamp_keeps_what_is_inside() {
    assert_eq!(sc(1.0).clamp(sc(0.5), sc(2.0)), sc(1.0));
    assert_eq!(sc(0.5).clamp(sc(0.5), sc(2.0)), sc(0.5));
    assert_eq!(sc(2.0).clamp(sc(0.5), sc(2.0)), sc(2.0));
    assert_eq!(sc(-0.0).clamp(sc(0.0), sc(1.0)), sc(-0.0));
}

#[test]
fn clamp_brings_back_what_is_outside() {
    assert_eq!(sc(0.25).clamp(sc(0.5), sc(2.0)), sc(0.5));
    assert_eq!(sc(2.5).clamp(sc(0.5), sc(2.0)), sc(2.0));
    assert_eq!(sc(f32::INFINITY).clamp(sc(0.5), sc(2.0)), sc(2.0));
    assert_eq!(sc(f32::NEG_INFINITY).clamp(sc(0.5), sc(2.0)), sc(0.5));
    assert_eq!(sc(f32::NAN).clamp(sc(0.5), sc(2.0)), sc(0.5));
}

#[test]
fn vector_arithmetic_is_componentwise() {
    let a = Vec2::new(sc(1.0), sc(-2.0));
    let b = Vec2::new(sc(0.25), sc(0.5));
    assert_eq!(a.plus(b), Vec2::new(sc(1.25), sc(-1.5)));
    assert_eq!(a.scaled(sc(3.0)), Vec2::new(sc(3.0), sc(-6.0)));
    assert_eq!(Vec2::zero(), Vec2::new(sc(0.0), sc(0.0)));
    assert_eq!(Vec2::new(sc(7.0), sc(8.0)).x, sc(7.0));
    assert_eq!(Vec2::new(sc(7.0), sc(8.0)).y, sc(8.0));
}
