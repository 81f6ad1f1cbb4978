//! The storage width selector: given a total bit count, picks the smallest
//! supported unsigned integer width (8, 16, 32 or 64) that can hold it.

use vstd::prelude::*;

verus! {

/// The smallest width out of 8, 16, 32 and 64 that holds `bit_length` bits.
pub open spec fn storage_width_spec(bit_length: usize) -> usize {
    if bit_length <= 8 {
        8
    } else if bit_length <= 16 {
        16
    } else if bit_length <= 32 {
        32
    } else {
        64
    }
}

/// The bit length of the smallest supported storage type that holds
/// `bit_length` bits.
pub fn exact_associated_storage_bit_length(bit_length: usize) -> (r: usize)
    requires
        1 <= bit_length <= 64,
    ensures
        r == storage_width_spec(bit_length),
{
    if bit_length <= 8 {
        8
    } else if bit_length <= 16 {
        16
    } else if bit_length <= 32 {
        32
    } else {
        64
    }
}

/// Picks the smallest supported storage width (8, 16, 32 or 64 bits) that
/// holds `total_bits` bits.
///
/// A bit count of zero, or one above 64, is a schema error: no supported
/// storage cell can hold it, and `None` is returned.
pub fn select_storage_width(total_bits: usize) -> (r: Option<usize>)
    ensures
        r is Some <==> 1 <= total_bits <= 64,
        r is Some ==> r->0 == storage_width_spec(total_bits),
{
    if total_bits >= 1 && total_bits <= 64 {
        Some(exact_associated_storage_bit_length(total_bits))
    } else {
        None
    }
}

/// The selected width is itself a supported total width, is large enough,
/// and is the smallest supported width that is large enough.
pub proof fn lemma_storage_width_minimal(bit_length: usize)
    requires
        1 <= bit_length <= 64,
    ensures
        storage_width_spec(bit_length) == 8 || storage_width_spec(bit_length) == 16
            || storage_width_spec(bit_length) == 32 || storage_width_spec(bit_length) == 64,
        bit_length <= storage_width_spec(bit_length),
        storage_width_spec(bit_length) == 8 || bit_length > storage_width_spec(bit_length) / 2,
{
}

} // verus!
