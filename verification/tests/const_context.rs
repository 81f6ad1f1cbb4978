//! Tests mirroring compile-time usage: fixed configuration values computed
//! once and inspected field by field.

use bitpiece::convert::BitPieceBoolConverter;
use bitpiece::enums::EnumDiscriminants;
use bitpiece::fields::FieldValue;
use bitpiece::sbits::SBits;
use bitpiece::schema::{FieldSpec, PieceSchema};
use bitpiece::ubits::UBits;

fn uf(name: &str, w: usize) -> FieldSpec {
    FieldSpec::unsigned(name.to_string(), w).unwrap()
}

fn bf(name: &str) -> FieldSpec {
    FieldSpec::boolean(name.to_string())
}

fn ef(name: &str, values: &[u64]) -> FieldSpec {
    FieldSpec::enumeration(name.to_string(), EnumDiscriminants::new(values.to_vec()).unwrap())
}

fn nf(name: &str, schema: PieceSchema) -> FieldSpec {
    FieldSpec::nested(name.to_string(), schema)
}

/// 8 bits: mode: 2-bit, speed: 3-bit, enabled: bool, reserved: 2-bit.
fn config() -> PieceSchema {
    PieceSchema::new(vec![uf("mode", 2), uf("speed", 3), bf("enabled"), uf("reserved", 2)])
        .unwrap()
}

fn default_config() -> u64 {
    config().from_bits(0b00_1_101_01)
}

#[test]
fn const_from_bits() {
    let s = config();
    let c = default_config();
    assert_eq!(s.get_uint(c, 0), 1);
    assert_eq!(s.get_uint(c, 1), 5);
    assert_eq!(s.get_bool(c, 2), true);
    assert_eq!(s.get_uint(c, 3), 0);
}

#[test]
fn const_constants() {
    let s = config();
    assert_eq!(s.zeroes(), 0);
    assert_eq!(s.ones(), 0xFF);
    assert_eq!(s.zeroes(), 0);
    assert_eq!(s.ones(), 0xFF);
}

#[test]
fn const_field_access() {
    let s = config();
    let c = default_config();
    let default_mode = s.get_uint(c, 0);
    let default_speed = s.get_uint(c, 1);
    let is_enabled = s.get_bool(c, 2);
    assert_eq!(default_mode, 1);
    assert_eq!(default_speed, 5);
    assert_eq!(is_enabled, true);
}

#[test]
fn const_with_methods() {
    let s = config();

    let mut disabled_config = default_config();
    s.set_bool(&mut disabled_config, 2, false);
    assert_eq!(s.get_bool(disabled_config, 2), false);
    assert_eq!(s.get_uint(disabled_config, 0), 1); // unchanged

    let mut fast_config = default_config();
    s.set_uint(&mut fast_config, 1, 7);
    assert_eq!(s.get_uint(fast_config, 1), 7);
    assert_eq!(s.get_uint(fast_config, 0), 1); // unchanged

    let mut modified_config = default_config();
    s.set_uint(&mut modified_config, 0, 3);
    s.set_uint(&mut modified_config, 1, 0);
    s.set_bool(&mut modified_config, 2, false);
    assert_eq!(s.get_uint(modified_config, 0), 3);
    assert_eq!(s.get_uint(modified_config, 1), 0);
    assert_eq!(s.get_bool(modified_config, 2), false);
}

fn create_config(mode: u64, speed: u64, enabled: bool) -> u64 {
    let s = config();
    let mut c = s.zeroes();
    s.set_uint(&mut c, 0, mode);
    s.set_uint(&mut c, 1, speed);
    s.set_bool(&mut c, 2, enabled);
    c
}

#[test]
fn const_function() {
    let s = config();
    let custom_config = create_config(2, 5, true);
    assert_eq!(s.get_uint(custom_config, 0), 2);
    assert_eq!(s.get_uint(custom_config, 1), 5);
    assert_eq!(s.get_bool(custom_config, 2), true);
}

#[test]
fn const_to_bits() {
    let config_bits = default_config();
    assert_eq!(config_bits, 0b00_1_101_01);
}

#[test]
fn const_try_from_bits() {
    let s = config();
    let maybe_config = s.try_from_bits(0xFF);
    assert!(maybe_config.is_some());
    assert_eq!(maybe_config.unwrap(), 0xFF);
}

#[test]
fn const_const_eq() {
    let s = config();
    let mut disabled_config = default_config();
    s.set_bool(&mut disabled_config, 2, false);
    let are_equal = default_config() == default_config();
    let are_not_equal = default_config() == disabled_config;
    assert!(are_equal);
    assert!(!are_not_equal);
}

#[test]
fn const_b_type_operations() {
    let b3_val = UBits::new(3, 5);
    let b3_bits = b3_val.to_bits();
    let b3_get = b3_val.get();
    let b3_from = UBits::from_bits(3, 5);
    let b3_try = UBits::try_new(3, 5);
    let b3_try_invalid = UBits::try_new(3, 8);
    let b3_eq = UBits::const_eq(b3_val, b3_from);

    assert_eq!(b3_bits, 5);
    assert_eq!(b3_get, 5);
    assert_eq!(b3_from, UBits::new(3, 5));
    assert!(b3_try.is_some());
    assert!(b3_try_invalid.is_none());
    assert!(b3_eq);
}

#[test]
fn const_sb_type_operations() {
    let sb5_val = SBits::new(5, -10);
    let sb5_bits = sb5_val.to_bits();
    let sb5_get = sb5_val.get();
    let sb5_from = SBits::from_bits(5, sb5_bits);
    let sb5_try = SBits::try_new(5, -10);
    let sb5_try_invalid = SBits::try_new(5, -20);
    let sb5_eq = SBits::const_eq(sb5_val, sb5_from);

    assert_eq!(sb5_get, -10);
    assert_eq!(sb5_from, SBits::new(5, -10));
    assert!(sb5_try.is_some());
    assert!(sb5_try_invalid.is_none());
    assert!(sb5_eq);
}

#[test]
fn const_enum_operations() {
    // values Low=0, Medium=1, High=2, Critical=3.
    let d = EnumDiscriminants::new(vec![0, 1, 2, 3]).unwrap();
    let priority_bits = d.value_at(2);
    let priority_from = d.validate(2);
    let priority_try = d.validate(2);
    let priority_try_invalid = d.validate(5);

    assert_eq!(priority_bits, 2);
    assert_eq!(priority_from, Some(2));
    assert!(priority_try.is_some());
    assert!(priority_try_invalid.is_none());
    assert!(priority_from == priority_try);
}

#[test]
fn const_nested_operations() {
    // 4 bits: x: 2-bit, y: 2-bit.
    let si = PieceSchema::new(vec![uf("x", 2), uf("y", 2)]).unwrap();
    // 8 bits: inner, extra: 4-bit.
    let so = PieceSchema::new(vec![
        nf("inner", PieceSchema::new(vec![uf("x", 2), uf("y", 2)]).unwrap()),
        uf("extra", 4),
    ])
    .unwrap();

    let inner_val = si.from_bits(0b1001);
    let mut outer_val = so.zeroes();
    so.set_nested(&mut outer_val, 0, inner_val);
    so.set_uint(&mut outer_val, 1, 15);
    let outer_inner = so.get_nested(outer_val, 0);
    let outer_inner_x = si.get_uint(outer_inner, 0);

    assert_eq!(si.get_uint(inner_val, 0), 1);
    assert_eq!(si.get_uint(inner_val, 1), 2);
    assert_eq!(so.get_uint(outer_val, 1), 15);
    assert_eq!(outer_inner_x, 1);
}

#[test]
fn const_from_to_fields() {
    let s = config();
    let config_fields = vec![
        FieldValue::Unsigned(2),
        FieldValue::Unsigned(4),
        FieldValue::Boolean(true),
        FieldValue::Unsigned(1),
    ];
    let config_from_fields = s.from_fields(&config_fields).unwrap();
    let config_to_fields = s.to_fields(config_from_fields);

    assert_eq!(s.get_uint(config_from_fields, 0), 2);
    assert_eq!(s.get_uint(config_from_fields, 1), 4);
    assert_eq!(s.get_bool(config_from_fields, 2), true);
    assert_eq!(s.get_uint(config_from_fields, 3), 1);

    assert_eq!(config_to_fields[0], FieldValue::Unsigned(2));
    assert_eq!(config_to_fields[1], FieldValue::Unsigned(4));
}

#[test]
fn const_noshift() {
    let s = config();
    let config_mode_noshift = s.get_noshift(default_config(), 0);
    let config_speed_noshift = s.get_noshift(default_config(), 1);

    // mode is at offset 0, so noshift == regular
    assert_eq!(config_mode_noshift, 0b01);

    // speed is at offset 2, so noshift keeps bits at position
    assert_eq!(config_speed_noshift, 0b101_00);
}

#[test]
fn const_array() {
    let s = config();
    let config_array = [s.from_bits(0x00), s.from_bits(0x55), s.from_bits(0xFF)];
    assert_eq!(config_array[0], 0x00);
    assert_eq!(config_array[1], 0x55);
    assert_eq!(config_array[2], 0xFF);
}

#[test]
fn static_config() {
    let s = config();
    let static_config = s.from_bits(0xAB);
    assert_eq!(static_config, 0xAB);
}

#[test]
fn const_primitive_operations() {
    let bool_from = BitPieceBoolConverter::from_bits(1);
    let bool_to = BitPieceBoolConverter::to_bits(true);
    let bool_eq = BitPieceBoolConverter::const_eq(true, true);

    let u8_from = UBits::from_bits(8, 42).get();
    let u8_to = UBits::new(8, 42).to_bits();
    let u8_eq = UBits::const_eq(UBits::new(8, 42), UBits::new(8, 42));

    let i8_from = SBits::from_bits(8, 0xFF).get();
    let i8_to = SBits::new(8, -1).to_bits();
    let i8_eq = SBits::const_eq(SBits::new(8, -1), SBits::new(8, -1));

    assert_eq!(bool_from, true);
    assert_eq!(bool_to, 1);
    assert!(bool_eq);

    assert_eq!(u8_from, 42);
    assert_eq!(u8_to, 42);
    assert!(u8_eq);

    assert_eq!(i8_from, -1);
    assert_eq!(i8_to, 0xFF);
    assert!(i8_eq);
}

#[test]
fn const_bit_len() {
    let s = config();
    let config_bits_trait = s.total_bits();
    assert_eq!(s.total_bits(), 8);
    assert_eq!(config_bits_trait, 8);
}

fn compute_checksum(c: u64) -> u64 {
    let s = config();
    let mode = s.get_uint(c, 0);
    let speed = s.get_uint(c, 1);
    let enabled = if s.get_bool(c, 2) { 1 } else { 0 };
    mode ^ speed ^ enabled
}

#[test]
fn const_complex_expression() {
    // mode=1, speed=5, enabled=1 -> 1 ^ 5 ^ 1 = 5
    let checksum = compute_checksum(default_config());
    assert_eq!(checksum, 5);
}

fn extract_and_modify(configs: [u64; 3], idx: usize) -> u64 {
    let s = config();
    let mut c = configs[idx];
    s.set_bool(&mut c, 2, false);
    c
}

#[test]
fn const_generic_like() {
    let s = config();
    let config_array = [s.from_bits(0x00), s.from_bits(0x55), s.from_bits(0xFF)];
    let modified_from_array = extract_and_modify(config_array, 1);
    assert_eq!(s.get_bool(modified_from_array, 2), false);
    // Original value at index 1 was 0x55
    assert_eq!(modified_from_array & !0b00100000, 0x55 & !0b00100000);
}
