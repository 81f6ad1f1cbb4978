//! Tests for unsigned arbitrary-width values.

use std::collections::HashSet;
use bitpiece::ubits::UBits;
use bitpiece::width::select_storage_width;

// =============================================================================
// Construction tests
// =============================================================================

#[test]
fn b_type_new_valid_values() {
    // width 1: 0-1
    assert_eq!(UBits::new(1, 0).get(), 0);
    assert_eq!(UBits::new(1, 1).get(), 1);

    // width 3: 0-7
    assert_eq!(UBits::new(3, 0).get(), 0);
    assert_eq!(UBits::new(3, 5).get(), 5);
    assert_eq!(UBits::new(3, 7).get(), 7);

    // width 8: 0-255
    assert_eq!(UBits::new(8, 0).get(), 0);
    assert_eq!(UBits::new(8, 128).get(), 128);
    assert_eq!(UBits::new(8, 255).get(), 255);

    // width 16: 0-65535
    assert_eq!(UBits::new(16, 0).get(), 0);
    assert_eq!(UBits::new(16, 32768).get(), 32768);
    assert_eq!(UBits::new(16, 65535).get(), 65535);

    // width 32: 0-4294967295
    assert_eq!(UBits::new(32, 0).get(), 0);
    assert_eq!(UBits::new(32, 2147483648).get(), 2147483648);
    assert_eq!(UBits::new(32, 4294967295).get(), 4294967295);

    // width 64: 0-u64::MAX
    assert_eq!(UBits::new(64, 0).get(), 0);
    assert_eq!(UBits::new(64, u64::MAX / 2).get(), u64::MAX / 2);
    assert_eq!(UBits::new(64, u64::MAX).get(), u64::MAX);
}

#[test]
fn b_type_new_panics_on_overflow() {
    // The checked constructor refuses a value that does not fit the width.
    assert!(UBits::try_new(1, 2).is_none());
    assert!(UBits::try_new(3, 8).is_none());
    assert!(UBits::try_new(7, 128).is_none());
}

#[test]
fn b_type_try_new_valid_values() {
    assert_eq!(UBits::try_new(1, 0), Some(UBits::new(1, 0)));
    assert_eq!(UBits::try_new(1, 1), Some(UBits::new(1, 1)));
    assert_eq!(UBits::try_new(3, 7), Some(UBits::new(3, 7)));
    assert_eq!(UBits::try_new(8, 255), Some(UBits::new(8, 255)));
}

#[test]
fn b_type_try_new_invalid_values() {
    assert_eq!(UBits::try_new(1, 2), None);
    assert_eq!(UBits::try_new(3, 8), None);
    assert_eq!(UBits::try_new(7, 128), None);
    assert_eq!(UBits::try_new(9, 512), None);
}

#[test]
fn b_type_from_bits_valid() {
    assert_eq!(UBits::from_bits(3, 0b101), UBits::new(3, 5));
    assert_eq!(UBits::from_bits(8, 0xFF), UBits::new(8, 255));
    assert_eq!(UBits::from_bits(16, 0xABCD), UBits::new(16, 0xABCD));
}

#[test]
fn b_type_from_bits_panics_on_overflow() {
    // The checked decode refuses bits that do not fit the width.
    assert!(UBits::try_from_bits(3, 0b1000).is_none());
    assert!(UBits::try_from_bits(3, 0b10001011).is_none());
}

#[test]
fn b_type_try_from_bits() {
    assert_eq!(UBits::try_from_bits(1, 0), Some(UBits::new(1, 0)));
    assert_eq!(UBits::try_from_bits(1, 1), Some(UBits::new(1, 1)));
    assert_eq!(UBits::try_from_bits(1, 2), None);

    assert_eq!(UBits::try_from_bits(6, 17), Some(UBits::new(6, 17)));
    assert_eq!(UBits::try_from_bits(6, 63), Some(UBits::new(6, 63)));
    assert_eq!(UBits::try_from_bits(6, 64), None);
    assert_eq!(UBits::try_from_bits(6, 241), None);
}

#[test]
fn b_type_to_bits() {
    assert_eq!(UBits::new(3, 5).to_bits(), 5);
    assert_eq!(UBits::new(8, 200).to_bits(), 200);
    assert_eq!(UBits::new(16, 0xABCD).to_bits(), 0xABCD);
}

// =============================================================================
// Constants tests
// =============================================================================

#[test]
fn b_type_bits_constant() {
    assert_eq!(UBits::zeroes(1).width(), 1);
    assert_eq!(UBits::zeroes(3).width(), 3);
    assert_eq!(UBits::zeroes(8).width(), 8);
    assert_eq!(UBits::zeroes(16).width(), 16);
    assert_eq!(UBits::zeroes(32).width(), 32);
    assert_eq!(UBits::zeroes(64).width(), 64);
}

#[test]
fn b_type_zeroes_constant() {
    assert_eq!(UBits::zeroes(1).get(), 0);
    assert_eq!(UBits::zeroes(3).get(), 0);
    assert_eq!(UBits::zeroes(8).get(), 0);
    assert_eq!(UBits::zeroes(16).get(), 0);
    assert_eq!(UBits::zeroes(32).get(), 0);
    assert_eq!(UBits::zeroes(64).get(), 0);
}

#[test]
fn b_type_ones_constant() {
    assert_eq!(UBits::ones(1).get(), 1);
    assert_eq!(UBits::ones(3).get(), 0b111);
    assert_eq!(UBits::ones(8).get(), 0xFF);
    assert_eq!(UBits::ones(16).get(), 0xFFFF);
    assert_eq!(UBits::ones(32).get(), 0xFFFFFFFF);
    assert_eq!(UBits::ones(64).get(), u64::MAX);
}

#[test]
fn b_type_min_constant() {
    // For unsigned values, the minimum is zero.
    assert_eq!(UBits::min_value(1).get(), 0);
    assert_eq!(UBits::min_value(3).get(), 0);
    assert_eq!(UBits::min_value(8).get(), 0);
    assert_eq!(UBits::min_value(64).get(), 0);
}

#[test]
fn b_type_max_constant() {
    // For unsigned values, the maximum is all bits set.
    assert_eq!(UBits::max_value(1).get(), 1);
    assert_eq!(UBits::max_value(3).get(), 0b111);
    assert_eq!(UBits::max_value(8).get(), u8::MAX as u64);
    assert_eq!(UBits::max_value(16).get(), u16::MAX as u64);
    assert_eq!(UBits::max_value(32).get(), u32::MAX as u64);
    assert_eq!(UBits::max_value(64).get(), u64::MAX);
}

// =============================================================================
// Odd bit widths tests
// =============================================================================

#[test]
fn b_type_odd_widths() {
    // width 5: 0-31
    assert_eq!(UBits::max_value(5).get(), 31);
    assert_eq!(UBits::new(5, 31).get(), 31);
    assert!(UBits::try_new(5, 32).is_none());

    // width 13: 0-8191
    assert_eq!(UBits::max_value(13).get(), 8191);
    assert_eq!(UBits::new(13, 8191).get(), 8191);
    assert!(UBits::try_new(13, 8192).is_none());

    // width 27: 0-134217727
    assert_eq!(UBits::max_value(27).get(), 134217727);
    assert_eq!(UBits::new(27, 134217727).get(), 134217727);
    assert!(UBits::try_new(27, 134217728).is_none());

    // width 63: 0-(2^63-1)
    assert_eq!(UBits::max_value(63).get(), (1u64 << 63) - 1);
    assert_eq!(UBits::new(63, (1u64 << 63) - 1).get(), (1u64 << 63) - 1);
    assert!(UBits::try_new(63, 1u64 << 63).is_none());
}

// =============================================================================
// Comparison and ordering tests
// =============================================================================

#[test]
fn b_type_equality() {
    assert_eq!(UBits::new(3, 5), UBits::new(3, 5));
    assert_ne!(UBits::new(3, 5), UBits::new(3, 6));
}

#[test]
fn b_type_ordering() {
    assert!(UBits::new(3, 3) < UBits::new(3, 5));
    assert!(UBits::new(3, 7) > UBits::new(3, 2));
    assert!(UBits::new(3, 4) <= UBits::new(3, 4));
    assert!(UBits::new(3, 4) >= UBits::new(3, 4));
}

#[test]
fn b_type_hash() {
    let mut set: HashSet<_> = HashSet::new();
    set.insert(UBits::new(3, 1));
    set.insert(UBits::new(3, 2));
    set.insert(UBits::new(3, 1)); // duplicate
    assert_eq!(set.len(), 2);
}

// =============================================================================
// Clone and Copy tests
// =============================================================================

#[test]
fn b_type_clone_copy() {
    let a = UBits::new(8, 42);
    let b = a; // Copy
    let c = a.clone(); // Clone
    assert_eq!(a, b);
    assert_eq!(a, c);
}

// =============================================================================
// const_eq tests
// =============================================================================

#[test]
fn b_type_const_eq() {
    assert!(UBits::const_eq(UBits::new(3, 5), UBits::new(3, 5)));
    assert!(!UBits::const_eq(UBits::new(3, 5), UBits::new(3, 6)));
}

// =============================================================================
// Storage type tests
// =============================================================================

#[test]
fn b_type_storage_types() {
    // widths 1-8 are stored in 8 bits
    assert_eq!(select_storage_width(1), Some(8));
    assert_eq!(select_storage_width(8), Some(8));

    // widths 9-16 are stored in 16 bits
    assert_eq!(select_storage_width(9), Some(16));
    assert_eq!(select_storage_width(16), Some(16));

    // widths 17-32 are stored in 32 bits
    assert_eq!(select_storage_width(17), Some(32));
    assert_eq!(select_storage_width(32), Some(32));

    // widths 33-64 are stored in 64 bits
    assert_eq!(select_storage_width(33), Some(64));
    assert_eq!(select_storage_width(64), Some(64));
}

// =============================================================================
// Trusting constructor tests
// =============================================================================

#[test]
fn b_type_new_unchecked() {
    let val = UBits::new(3, 5);
    assert_eq!(val.get(), 5);
}

// =============================================================================
// Roundtrip tests
// =============================================================================

#[test]
fn b_type_roundtrip() {
    // Decoding an encoded value gives the value back.
    let values = [0u64, 1, 127, 255];
    for &v in &values {
        let b = UBits::new(8, v);
        assert_eq!(UBits::from_bits(8, b.to_bits()), b);
    }

    // Various bit widths.
    assert_eq!(UBits::from_bits(3, UBits::new(3, 5).to_bits()), UBits::new(3, 5));
    assert_eq!(
        UBits::from_bits(16, UBits::new(16, 1000).to_bits()),
        UBits::new(16, 1000)
    );
    assert_eq!(
        UBits::from_bits(32, UBits::new(32, 123456).to_bits()),
        UBits::new(32, 123456)
    );
}

// =============================================================================
// Boundary value tests
// =============================================================================

#[test]
fn b_type_boundary_values() {
    assert_eq!(UBits::new(8, 0).get(), 0);
    assert_eq!(UBits::new(8, 255).get(), 255);

    assert_eq!(UBits::new(16, 0).get(), 0);
    assert_eq!(UBits::new(16, 65535).get(), 65535);

    assert_eq!(UBits::new(32, 0).get(), 0);
    assert_eq!(UBits::new(32, u32::MAX as u64).get(), u32::MAX as u64);

    assert_eq!(UBits::new(64, 0).get(), 0);
    assert_eq!(UBits::new(64, u64::MAX).get(), u64::MAX);
}

// =============================================================================
// All widths existence test
// =============================================================================

#[test]
fn all_b_types_exist() {
    // Every width from 1 to 64 is representable and reports itself.
    for w in 1..=64usize {
        assert_eq!(UBits::zeroes(w).width(), w);
    }
    assert_eq!(UBits::zeroes(1).width(), 1);
    assert_eq!(UBits::zeroes(2).width(), 2);
    assert_eq!(UBits::zeroes(3).width(), 3);
    assert_eq!(UBits::zeroes(16).width(), 16);
    assert_eq!(UBits::zeroes(32).width(), 32);
    assert_eq!(UBits::zeroes(63).width(), 63);
    assert_eq!(UBits::zeroes(64).width(), 64);
}

// =============================================================================
// Formatting tests
// =============================================================================

#[test]
fn b_type_display() {
    // A value displays as its held integer.
    assert_eq!(format!("{}", UBits::new(3, 5).get()), "5");
    assert_eq!(format!("{}", UBits::new(8, 255).get()), "255");
    assert_eq!(format!("{}", UBits::new(16, 1000).get()), "1000");
}

#[test]
fn b_type_debug() {
    assert_eq!(format!("{:?}", UBits::new(3, 5).get()), "5");
    assert_eq!(format!("{:?}", UBits::new(8, 255).get()), "255");
}

// =============================================================================
// Default value tests
// =============================================================================

#[test]
fn b_type_default() {
    // The default value of a width is zero.
    assert_eq!(UBits::zeroes(3), UBits::new(3, 0));
    assert_eq!(UBits::zeroes(8), UBits::new(8, 0));
    assert_eq!(UBits::zeroes(64), UBits::new(64, 0));
}
