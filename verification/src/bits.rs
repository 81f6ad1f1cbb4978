//! The bit codec: extraction and modification of a contiguous bit range
//! inside a 64-bit-normalized unsigned value.
//!
//! These two primitives are the only place where raw bit arithmetic happens;
//! every higher-level operation of the crate is expressed in terms of them.

use vstd::prelude::*;

verus! {

/// A mask with the `len` low bits set.
pub open spec fn mask_spec(len: usize) -> u64 {
    if len >= 64 {
        0xffff_ffff_ffff_ffffu64
    } else {
        ((1u64 << (len as u64)) - 1) as u64
    }
}

/// The `len` bits of `value` starting at bit `offset`, shifted down to bit 0.
pub open spec fn extract_spec(value: u64, offset: usize, len: usize) -> u64 {
    (value >> (offset as u64)) & mask_spec(len)
}

/// `value` with only the `len` bits starting at bit `offset` kept, in place.
pub open spec fn extract_noshift_spec(value: u64, offset: usize, len: usize) -> u64 {
    value & (mask_spec(len) << (offset as u64))
}

/// `value` with the `len` bits starting at bit `offset` replaced by the low
/// `len` bits of `new_value`.
pub open spec fn modify_spec(value: u64, offset: usize, len: usize, new_value: u64) -> u64 {
    (value & !(mask_spec(len) << (offset as u64))) | ((new_value & mask_spec(len)) << (offset
        as u64))
}

/// Relates the mask for `len` to a plain bit-vector characterization, so that
/// the bit-vector solver can be handed the mask as a free 64-bit variable.
pub proof fn lemma_mask_chara(len: usize)
    requires
        len <= 64,
    ensures
        len < 64 ==> mask_spec(len) == (1u64 << (len as u64)) - 1,
        len == 64 ==> mask_spec(len) == 0xffff_ffff_ffff_ffffu64,
{
    let l = len as u64;
    assert(l < 64 ==> ((1u64 << l) - 1) as u64 == (1u64 << l) - 1) by (bit_vector);
}

/// Mask with the `len` low bits set.
pub(crate) fn extract_bits_mask(len: usize) -> (r: u64)
    requires
        1 <= len <= 64,
    ensures
        r == mask_spec(len),
{
    let shift: usize = 64 - len;
    let r = u64::MAX >> (shift as u64);
    proof {
        let l = len as u64;
        lemma_mask_chara(len);
        assert(0 < l < 64 ==> (0xffff_ffff_ffff_ffffu64 >> ((64 - l) as u64)) == (1u64 << l)
            - 1) by (bit_vector);
        assert(l == 64 ==> (0xffff_ffff_ffff_ffffu64 >> ((64 - l) as u64))
            == 0xffff_ffff_ffff_ffffu64) by (bit_vector);
    }
    r
}

/// Extracts `len` bits starting at bit `offset` from `value`.
pub fn extract_bits(value: u64, offset: usize, len: usize) -> (r: u64)
    requires
        offset + len <= 64,
        1 <= len,
    ensures
        r == extract_spec(value, offset, len),
{
    let mask = extract_bits_mask(len);
    (value >> (offset as u64)) & mask
}

/// Extracts `len` bits starting at bit `offset` from `value`, keeping them in
/// place (mask only, no shift).
pub fn extract_bits_noshift(value: u64, offset: usize, len: usize) -> (r: u64)
    requires
        offset + len <= 64,
        1 <= len,
    ensures
        r == extract_noshift_spec(value, offset, len),
{
    let mask = extract_bits_mask(len);
    value & (mask << (offset as u64))
}

/// Returns `value` with the `len` bits starting at bit `offset` replaced by
/// the low `len` bits of `new_value`.
pub fn modify_bits(value: u64, offset: usize, len: usize, new_value: u64) -> (r: u64)
    requires
        offset + len <= 64,
        1 <= len,
    ensures
        r == modify_spec(value, offset, len, new_value),
{
    let mask = extract_bits_mask(len);
    let shifted_mask = mask << (offset as u64);
    let without_original_bits = value & !shifted_mask;
    let shifted_new_value = (new_value & mask) << (offset as u64);
    without_original_bits | shifted_new_value
}

/// A value that fits under a mask is unchanged by it.
pub proof fn lemma_mask_absorb(value: u64, len: usize)
    requires
        value <= mask_spec(len),
    ensures
        value & mask_spec(len) == value,
{
    let m = mask_spec(len);
    if len >= 64 {
        assert(value & 0xffff_ffff_ffff_ffffu64 == value) by (bit_vector);
    } else {
        let l = len as u64;
        lemma_mask_chara(len);
        assert((l < 64 && m == (1u64 << l) - 1 && value <= m) ==> value & m == value)
            by (bit_vector);
    }
}

/// An extracted bit range always fits in its own mask.
pub proof fn lemma_extract_fits(value: u64, offset: usize, len: usize)
    ensures
        extract_spec(value, offset, len) <= mask_spec(len),
        extract_spec(value, offset, len) & mask_spec(len) == extract_spec(value, offset, len),
{
    let o = offset as u64;
    let m = mask_spec(len);
    assert(((value >> o) & m) & m == (value >> o) & m) by (bit_vector);
    assert(((value >> o) & m) <= m) by (bit_vector);
}

/// Extracting the range just written by `modify` reads back the written
/// value, truncated to the range's mask.
pub proof fn lemma_extract_modify_same(value: u64, offset: usize, len: usize, new_value: u64)
    requires
        offset + len <= 64,
    ensures
        extract_spec(modify_spec(value, offset, len, new_value), offset, len) == new_value
            & mask_spec(len),
{
    let o = offset as u64;
    let l = len as u64;
    let m = mask_spec(len);
    lemma_mask_chara(len);
    assert((((value & !(m << o)) | ((new_value & m) << o)) >> o) & m == new_value & m)
        by (bit_vector)
        requires
            o + l <= 64,
            l < 64 ==> m == (1u64 << l) - 1,
            l == 64 ==> m == 0xffff_ffff_ffff_ffffu64,
    ;
}

/// Modifying one bit range leaves every disjoint bit range unchanged.
pub proof fn lemma_modify_disjoint(
    value: u64,
    offset: usize,
    len: usize,
    new_value: u64,
    offset2: usize,
    len2: usize,
)
    requires
        offset + len <= 64,
        offset2 + len2 <= 64,
        offset2 + len2 <= offset || offset + len <= offset2,
    ensures
        extract_spec(modify_spec(value, offset, len, new_value), offset2, len2) == extract_spec(
            value,
            offset2,
            len2,
        ),
{
    let o = offset as u64;
    let l = len as u64;
    let o2 = offset2 as u64;
    let l2 = len2 as u64;
    let m = mask_spec(len);
    let m2 = mask_spec(len2);
    lemma_mask_chara(len);
    lemma_mask_chara(len2);
    assert((((value & !(m << o)) | ((new_value & m) << o)) >> o2) & m2 == (value >> o2) & m2)
        by (bit_vector)
        requires
            o + l <= 64,
            o2 + l2 <= 64,
            o2 + l2 <= o || o + l <= o2,
            l < 64 ==> m == (1u64 << l) - 1,
            l == 64 ==> m == 0xffff_ffff_ffff_ffffu64,
            l2 < 64 ==> m2 == (1u64 << l2) - 1,
            l2 == 64 ==> m2 == 0xffff_ffff_ffff_ffffu64,
    ;
}

/// Writing back the bits a range already holds leaves the value unchanged.
pub proof fn lemma_modify_extract_same(value: u64, offset: usize, len: usize)
    requires
        offset + len <= 64,
    ensures
        modify_spec(value, offset, len, extract_spec(value, offset, len)) == value,
{
    let o = offset as u64;
    let l = len as u64;
    let m = mask_spec(len);
    lemma_mask_chara(len);
    assert((value & !(m << o)) | ((((value >> o) & m) & m) << o) == value) by (bit_vector)
        requires
            o + l <= 64,
            l < 64 ==> m == (1u64 << l) - 1,
            l == 64 ==> m == 0xffff_ffff_ffff_ffffu64,
    ;
}

/// Extracting a sub-range of an extracted range reads the same bits as one
/// extraction at the combined offset.
#[verifier::rlimit(100)]
pub proof fn lemma_extract_compose(
    value: u64,
    offset: usize,
    len: usize,
    offset2: usize,
    len2: usize,
)
    requires
        offset + len <= 64,
        offset2 + len2 <= len,
    ensures
        extract_spec(extract_spec(value, offset, len), offset2, len2) == extract_spec(
            value,
            (offset + offset2) as usize,
            len2,
        ),
{
    let o = offset as u64;
    let l = len as u64;
    let o2 = offset2 as u64;
    let l2 = len2 as u64;
    let m = mask_spec(len);
    let m2 = mask_spec(len2);
    lemma_mask_chara(len);
    lemma_mask_chara(len2);
    assert(((((value >> o) & m) >> o2) & m2) == ((value >> (o + o2) as u64) & m2)) by (bit_vector)
        requires
            o + l <= 64,
            o2 + l2 <= l,
            l < 64 ==> m == (1u64 << l) - 1,
            l == 64 ==> m == 0xffff_ffff_ffff_ffffu64,
            l2 < 64 ==> m2 == (1u64 << l2) - 1,
            l2 == 64 ==> m2 == 0xffff_ffff_ffff_ffffu64,
    ;
}

/// The in-place extraction is the shifted form of the plain extraction.
pub proof fn lemma_noshift_is_shifted_extract(value: u64, offset: usize, len: usize)
    requires
        offset + len <= 64,
    ensures
        extract_noshift_spec(value, offset, len) == (extract_spec(value, offset, len) << (offset
            as u64)),
{
    let o = offset as u64;
    let l = len as u64;
    let m = mask_spec(len);
    lemma_mask_chara(len);
    assert(value & (m << o) == ((value >> o) & m) << o) by (bit_vector)
        requires
            o + l <= 64,
            l < 64 ==> m == (1u64 << l) - 1,
            l == 64 ==> m == 0xffff_ffff_ffff_ffffu64,
    ;
}


/// A longer mask covers a shorter one.
pub proof fn lemma_mask_monotone(len1: usize, len2: usize)
    requires
        len1 <= len2,
    ensures
        mask_spec(len1) <= mask_spec(len2),
{
    let l1 = len1 as u64;
    let l2 = len2 as u64;
    let m1 = mask_spec(len1);
    let m2 = mask_spec(len2);
    lemma_mask_chara(if len1 <= 64 { len1 } else { 64 });
    lemma_mask_chara(if len2 <= 64 { len2 } else { 64 });
    if len1 < 64 && len2 < 64 {
        assert((l1 <= l2 && l2 < 64 && m1 == (1u64 << l1) - 1 && m2 == (1u64 << l2) - 1) ==> m1
            <= m2) by (bit_vector);
    } else if len1 < 64 {
        assert(m1 <= 0xffff_ffff_ffff_ffffu64) by (bit_vector);
    }
}

/// Modifying a range just above the set bits of a value yields a value
/// confined to the combined range.
pub proof fn lemma_modify_grow(value: u64, offset: usize, len: usize, new_value: u64)
    requires
        offset + len <= 64,
        value <= mask_spec(offset),
    ensures
        modify_spec(value, offset, len, new_value) <= mask_spec((offset + len) as usize),
{
    let o = offset as u64;
    let l = len as u64;
    let mo = mask_spec(offset);
    let m = mask_spec(len);
    let mt = mask_spec((offset + len) as usize);
    lemma_mask_chara(offset);
    lemma_mask_chara(len);
    lemma_mask_chara((offset + len) as usize);
    assert((o + l <= 64 && value <= mo && (o < 64 ==> mo == (1u64 << o) - 1) && (o == 64 ==> mo
        == 0xffff_ffff_ffff_ffffu64) && (l < 64 ==> m == (1u64 << l) - 1) && (l == 64 ==> m
        == 0xffff_ffff_ffff_ffffu64) && (o + l < 64 ==> mt == (1u64 << ((o + l) as u64)) - 1) && (o
        + l == 64 ==> mt == 0xffff_ffff_ffff_ffffu64)) ==> ((value & !(m << o)) | ((new_value & m)
        << o)) <= mt) by (bit_vector);
}

/// Two values confined to a range and equal on a prefix and on the range
/// above it are equal on the combined range.
pub proof fn lemma_extend_equal_prefix(a: u64, b: u64, offset: usize, len: usize)
    requires
        offset + len <= 64,
        a & mask_spec(offset) == b & mask_spec(offset),
        extract_spec(a, offset, len) == extract_spec(b, offset, len),
    ensures
        a & mask_spec((offset + len) as usize) == b & mask_spec((offset + len) as usize),
{
    let o = offset as u64;
    let l = len as u64;
    let mo = mask_spec(offset);
    let m = mask_spec(len);
    let mt = mask_spec((offset + len) as usize);
    lemma_mask_chara(offset);
    lemma_mask_chara(len);
    lemma_mask_chara((offset + len) as usize);
    assert((o + l <= 64 && a & mo == b & mo && (a >> o) & m == (b >> o) & m && (o < 64 ==> mo == (
    1u64 << o) - 1) && (o == 64 ==> mo == 0xffff_ffff_ffff_ffffu64) && (l < 64 ==> m == (1u64 << l)
        - 1) && (l == 64 ==> m == 0xffff_ffff_ffff_ffffu64) && (o + l < 64 ==> mt == (1u64 << ((o
        + l) as u64)) - 1) && (o + l == 64 ==> mt == 0xffff_ffff_ffff_ffffu64)) ==> a & mt == b
        & mt) by (bit_vector);
}


/// The mask values for the widths that callers name most often, so that a
/// caller with a concrete width can discharge a mask bound directly.
pub proof fn lemma_mask_values()
    ensures
        mask_spec(0) == 0,
        mask_spec(1) == 0x1,
        mask_spec(2) == 0x3,
        mask_spec(3) == 0x7,
        mask_spec(4) == 0xf,
        mask_spec(5) == 0x1f,
        mask_spec(6) == 0x3f,
        mask_spec(7) == 0x7f,
        mask_spec(8) == 0xff,
        mask_spec(12) == 0xfff,
        mask_spec(16) == 0xffff,
        mask_spec(24) == 0xff_ffff,
        mask_spec(32) == 0xffff_ffff,
        mask_spec(48) == 0xffff_ffff_ffff,
        mask_spec(63) == 0x7fff_ffff_ffff_ffff,
        mask_spec(64) == 0xffff_ffff_ffff_ffff,
{
    assert(((1u64 << 0u64) - 1) as u64 == 0 && ((1u64 << 1u64) - 1) as u64 == 0x1 && ((1u64
        << 2u64) - 1) as u64 == 0x3 && ((1u64 << 3u64) - 1) as u64 == 0x7 && ((1u64 << 4u64)
        - 1) as u64 == 0xf && ((1u64 << 5u64) - 1) as u64 == 0x1f && ((1u64 << 6u64) - 1) as u64
        == 0x3f && ((1u64 << 7u64) - 1) as u64 == 0x7f && ((1u64 << 8u64) - 1) as u64 == 0xff && ((
    1u64 << 12u64) - 1) as u64 == 0xfff && ((1u64 << 16u64) - 1) as u64 == 0xffff && ((1u64
        << 24u64) - 1) as u64 == 0xff_ffff && ((1u64 << 32u64) - 1) as u64 == 0xffff_ffff && ((
    1u64 << 48u64) - 1) as u64 == 0xffff_ffff_ffff && ((1u64 << 63u64) - 1) as u64
        == 0x7fff_ffff_ffff_ffff) by (bit_vector);
}

} // verus!
