use porcupine::sensitivity::DEFAULT_SENSITIVITY_BITS;
use porcupine::Sensitivity;

fn accepted(value: f32) -> bool {
    Sensitivity::from_bits(value.to_bits()).is_valid()
}

#[test]
fn default_sensitivity_is_one_half() {
    assert_eq!(DEFAULT_SENSITIVITY_BITS, 0.5f32.to_bits());
    assert_eq!(Sensitivity::default_value().to_bits(), 0.5f32.to_bits());
    assert!(Sensitivity::default_value().is_valid());
}

#[test]
fn bits_are_kept() {
    for bits in [0u32, 1, 0x3F00_0000, 0x3F80_0000, 0x8000_0000, 0xFFFF_FFFF] {
        assert_eq!(Sensitivity::from_bits(bits).to_bits(), bits);
        assert_eq!(Sensitivity::from_bits(bits), Sensitivity { bits });
    }
}

#[test]
fn the_ends_of_the_interval_are_accepted() {
    assert!(accepted(0.0));
    assert!(accepted(-0.0));
    assert!(accepted(1.0));
    assert!(accepted(0.5));
    assert!(accepted(f32::MIN_POSITIVE));
    assert!(accepted(f32::from_bits(1)));
    assert!(accepted(f32::from_bits(0x3F7F_FFFF)));
}

#[test]
fn values_outside_the_interval_are_refused() {
    assert!(!accepted(f32::from_bits(0x3F80_0001)));
    assert!(!accepted(1.5));
    assert!(!accepted(2.0));
    assert!(!accepted(-0.5));
    assert!(!accepted(-1.0));
    assert!(!accepted(-f32::MIN_POSITIVE));
    assert!(!accepted(f32::from_bits(0x8000_0001)));
    assert!(!accepted(f32::MAX));
    assert!(!accepted(f32::MIN));
    assert!(!accepted(f32::INFINITY));
    assert!(!accepted(f32::NEG_INFINITY));
    assert!(!accepted(f32::NAN));
    assert!(!accepted(f32::from_bits(0xFFC0_0000)));
    assert!(!accepted(f32::from_bits(0x7F80_0001)));
}

#[test]
fn the_bit_test_agrees_with_the_comparison_of_the_numbers() {
    let mut bits: u32 = 0;
    loop {
        let value = f32::from_bits(bits);
        assert_eq!(accepted(value), (0.0..=1.0).contains(&value), "bits {:#x}", bits);
        match bits.checked_add(0x0000_FFF1) {
            Some(next) => bits = next,
            None => break,
        }
    }
    for exponent in 0u32..=255 {
        for sign in 0u32..=1 {
            for fraction in [0u32, 1, 0x40_0000, 0x7F_FFFF] {
                let bits = (sign << 31) | (exponent << 23) | fraction;
                let value = f32::from_bits(bits);
                assert_eq!(accepted(value), (0.0..=1.0).contains(&value), "bits {:#x}", bits);
            }
        }
    }
}
