//! Concrete checks of the engine's stated properties and of every failure
//! mode of schema construction.

use bitpiece::bits::{extract_bits, extract_bits_noshift, modify_bits};
use bitpiece::enums::EnumDiscriminants;
use bitpiece::fields::FieldValue;
use bitpiece::sbits::SBits;
use bitpiece::schema::{FieldSpec, PieceSchema};
use bitpiece::width::select_storage_width;
use bitpiece::window::PieceWindow;

fn uf(name: &str, w: usize) -> FieldSpec {
    FieldSpec::unsigned(name.to_string(), w).unwrap()
}

fn ef(name: &str, values: &[u64]) -> FieldSpec {
    FieldSpec::enumeration(name.to_string(), EnumDiscriminants::new(values.to_vec()).unwrap())
}

// =============================================================================
// Idempotent extraction: reading back a just-written range gives the
// written value, truncated to the range's mask
// =============================================================================

#[test]
fn extract_after_modify_reads_written_value() {
    // In-range writes read back exactly.
    assert_eq!(extract_bits(modify_bits(0xABCD, 4, 8, 0x7E), 4, 8), 0x7E);
    assert_eq!(extract_bits(modify_bits(0, 0, 64, 0xDEADBEEF), 0, 64), 0xDEADBEEF);
    assert_eq!(extract_bits(modify_bits(u64::MAX, 60, 4, 0b0101), 60, 4), 0b0101);

    // An oversized write is truncated to the range's mask.
    assert_eq!(extract_bits(modify_bits(0, 8, 4, 0xFF), 8, 4), 0xF);
    assert_eq!(extract_bits(modify_bits(0, 0, 3, 0b101101), 0, 3), 0b101);
}

#[test]
fn modify_masks_oversized_values() {
    // The bits above the range are never touched by an oversized write.
    assert_eq!(modify_bits(0, 0, 4, 0xFF), 0x0F);
    assert_eq!(modify_bits(0xF0, 0, 4, 0xFF), 0xFF);
}

// =============================================================================
// Sign-extension correctness: a pattern with the top bit set denotes the
// pattern minus two to the width
// =============================================================================

#[test]
fn sign_extension_formula() {
    // width 5, 0b10000 (16) -> 16 - 32 = -16
    assert_eq!(SBits::from_bits(5, 0b10000).get(), 16 - 32);
    // width 5, 0b01111 (15) -> 15
    assert_eq!(SBits::from_bits(5, 0b01111).get(), 15);
    // width 7, 120 -> 120 - 128 = -8
    assert_eq!(SBits::from_bits(7, 120).get(), 120 - 128);
}

// =============================================================================
// Window mutation isolation: a write through a window leaves every bit
// outside the written range unchanged
// =============================================================================

#[test]
fn window_write_leaves_outside_bits_unchanged() {
    let s = PieceSchema::new(vec![uf("a", 3), uf("b", 5), uf("c", 8)]).unwrap();
    let mut val = s.from_bits(0b10110101_11010_011);
    {
        let w = PieceWindow::new(&s, 0);
        w.set_uint(&mut val, 1, 0b00101);
    }
    // Bits of fields a and c are exactly as before.
    assert_eq!(s.get_uint(val, 0), 0b011);
    assert_eq!(s.get_uint(val, 2), 0b10110101);
    assert_eq!(val, 0b10110101_00101_011);
}

// =============================================================================
// Layout determinism for the two-field example schema
// =============================================================================

#[test]
fn layout_determinism_example() {
    let s = PieceSchema::new(vec![uf("a", 3), uf("b", 5)]).unwrap();
    assert_eq!(s.field_offset(0), 0);
    assert_eq!(s.field_len(0), 3);
    assert_eq!(s.field_offset(1), 3);
    assert_eq!(s.field_len(1), 5);
    assert_eq!(s.total_bits(), 8);
    assert_eq!(s.storage_width(), 8);
    assert_eq!(s.get_uint(0b11111_010, 1), 0b11111);
    assert_eq!(s.get_uint(0b11111_010, 0), 0b010);
}

// =============================================================================
// The storage width selector picks the smallest sufficient width
// =============================================================================

#[test]
fn storage_width_selector_is_minimal() {
    assert_eq!(select_storage_width(1), Some(8));
    assert_eq!(select_storage_width(8), Some(8));
    assert_eq!(select_storage_width(9), Some(16));
    assert_eq!(select_storage_width(16), Some(16));
    assert_eq!(select_storage_width(17), Some(32));
    assert_eq!(select_storage_width(32), Some(32));
    assert_eq!(select_storage_width(33), Some(64));
    assert_eq!(select_storage_width(64), Some(64));
}

#[test]
fn storage_width_selector_rejects_bad_counts() {
    // A bit count of zero or above 64 is a schema error.
    assert_eq!(select_storage_width(0), None);
    assert_eq!(select_storage_width(65), None);
    assert_eq!(select_storage_width(1000), None);
}

// =============================================================================
// Schema construction failure modes
// =============================================================================

#[test]
fn schema_rejects_overwide_total() {
    // 33 + 32 = 65 bits is over the 64-bit ceiling.
    let r = PieceSchema::new(vec![uf("a", 33), uf("b", 32)]);
    assert!(r.is_none());

    // 64 bits exactly is fine.
    let r = PieceSchema::new(vec![uf("a", 32), uf("b", 32)]);
    assert!(r.is_some());
}

#[test]
fn schema_rejects_empty_field_list() {
    // A schema must hold at least one bit.
    let r = PieceSchema::new(vec![]);
    assert!(r.is_none());
}

#[test]
fn field_spec_rejects_bad_widths() {
    assert!(FieldSpec::unsigned("a".to_string(), 0).is_none());
    assert!(FieldSpec::unsigned("a".to_string(), 65).is_none());
    assert!(FieldSpec::signed("a".to_string(), 0).is_none());
    assert!(FieldSpec::signed("a".to_string(), 65).is_none());
    assert!(FieldSpec::unsigned("a".to_string(), 64).is_some());
    assert!(FieldSpec::signed("a".to_string(), 1).is_some());
}

#[test]
fn enum_discriminants_reject_bad_declarations() {
    // No values declared.
    assert!(EnumDiscriminants::new(vec![]).is_none());
    assert!(EnumDiscriminants::with_width(vec![], 4).is_none());

    // A declared value that does not fit the explicit width.
    assert!(EnumDiscriminants::with_width(vec![0, 16], 4).is_none());
    assert!(EnumDiscriminants::with_width(vec![0, 15], 4).is_some());

    // A width outside 1 to 64.
    assert!(EnumDiscriminants::with_width(vec![0], 0).is_none());
    assert!(EnumDiscriminants::with_width(vec![0], 65).is_none());
}

// =============================================================================
// Field list rebuild failure modes
// =============================================================================

#[test]
fn from_fields_rejects_mismatched_values() {
    let s = PieceSchema::new(vec![uf("a", 4), ef("e", &[0, 9])]).unwrap();

    // Wrong length.
    assert!(s.from_fields(&vec![FieldValue::Unsigned(1)]).is_none());

    // Wrong kind.
    assert!(s
        .from_fields(&vec![FieldValue::Boolean(true), FieldValue::Enumeration(9)])
        .is_none());

    // Unsigned value out of range.
    assert!(s
        .from_fields(&vec![FieldValue::Unsigned(16), FieldValue::Enumeration(9)])
        .is_none());

    // Undeclared enum discriminant.
    assert!(s
        .from_fields(&vec![FieldValue::Unsigned(1), FieldValue::Enumeration(5)])
        .is_none());

    // A matching list is accepted.
    assert!(s
        .from_fields(&vec![FieldValue::Unsigned(1), FieldValue::Enumeration(9)])
        .is_some());
}

#[test]
fn from_fields_rejects_out_of_range_signed() {
    let s = PieceSchema::new(vec![FieldSpec::signed("a".to_string(), 4).unwrap()]).unwrap();
    assert!(s.from_fields(&vec![FieldValue::Signed(8)]).is_none());
    assert!(s.from_fields(&vec![FieldValue::Signed(-9)]).is_none());
    assert!(s.from_fields(&vec![FieldValue::Signed(7)]).is_some());
    assert!(s.from_fields(&vec![FieldValue::Signed(-8)]).is_some());
}

#[test]
fn from_fields_rejects_invalid_nested_bits() {
    let inner = PieceSchema::new(vec![ef("e", &[0, 9])]).unwrap();
    let outer =
        PieceSchema::new(vec![FieldSpec::nested("inner".to_string(), inner), uf("x", 4)]).unwrap();

    // 5 is not a declared discriminant of the nested enum.
    assert!(outer
        .from_fields(&vec![FieldValue::Nested(5), FieldValue::Unsigned(1)])
        .is_none());

    // 9 is declared.
    assert!(outer
        .from_fields(&vec![FieldValue::Nested(9), FieldValue::Unsigned(1)])
        .is_some());
}

// =============================================================================
// Whole-piece round trips through field values
// =============================================================================

#[test]
fn piece_round_trip_through_fields() {
    let inner = PieceSchema::new(vec![uf("x", 2), ef("e", &[0, 2])]).unwrap();
    let s = PieceSchema::new(vec![
        FieldSpec::nested("inner".to_string(), inner),
        FieldSpec::signed("v".to_string(), 5).unwrap(),
        FieldSpec::boolean("f".to_string()),
    ])
    .unwrap();

    // Decompose a valid packed value and rebuild it.
    for bits in [0u64, 0b1_10111_1011, 0b0_01000_1000] {
        let v = s.try_from_bits(bits).expect("pattern should validate");
        let fields = s.to_fields(v);
        assert_eq!(s.from_fields(&fields).unwrap(), v);
    }
}

#[test]
fn noshift_is_shifted_extract() {
    // The in-place getter reads the same bits as the plain getter, left in
    // position.
    assert_eq!(extract_bits_noshift(0xABCD, 4, 8), extract_bits(0xABCD, 4, 8) << 4);
    assert_eq!(extract_bits_noshift(0xF0F0, 8, 8), 0xF000);
}
