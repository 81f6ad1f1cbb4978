//! Per-kind value conversion helpers: the boolean converter, and small
//! utilities over arrays of discriminant values.

use vstd::prelude::*;

verus! {

/// Converts between the boolean domain value and its raw bit pattern.
///
/// Decoding is deliberately truthy: any nonzero pattern maps to `true`,
/// matching common hardware bit-flag semantics.
pub struct BitPieceBoolConverter;

impl BitPieceBoolConverter {
    /// A boolean's field view is itself.
    pub fn from_fields(fields: bool) -> (r: bool)
        ensures
            r == fields,
    {
        fields
    }

    /// A boolean's field view is itself.
    pub fn to_fields(x: bool) -> (r: bool)
        ensures
            r == x,
    {
        x
    }

    /// Decoding a boolean never fails: any nonzero pattern is `true`.
    pub fn try_from_bits(bits: u8) -> (r: Option<bool>)
        ensures
            r == Some(bits != 0),
    {
        Some(bits != 0)
    }

    /// Any nonzero pattern decodes to `true`.
    pub fn from_bits(bits: u8) -> (r: bool)
        ensures
            r == (bits != 0),
    {
        bits != 0
    }

    /// `true` encodes as one, `false` as zero.
    pub fn to_bits(x: bool) -> (r: u8)
        ensures
            r == (if x {
                1u8
            } else {
                0u8
            }),
    {
        if x {
            1
        } else {
            0
        }
    }

    /// Boolean equality.
    pub fn const_eq(a: bool, b: bool) -> (r: bool)
        ensures
            r <==> a == b,
    {
        a == b
    }
}

/// The largest value in a non-empty array of unsigned values.
pub fn const_array_max_u64(array: &Vec<u64>) -> (r: u64)
    requires
        array@.len() >= 1,
    ensures
        array@.contains(r),
        forall|i: int| 0 <= i < array@.len() ==> array@[i] <= r,
{
    let mut max = array[0];
    let mut i: usize = 1;
    while i < array.len()
        invariant
            1 <= i <= array@.len(),
            array@.contains(max),
            forall|j: int| 0 <= j < i ==> array@[j] <= max,
        decreases array@.len() - i,
    {
        let cur = array[i];
        if cur > max {
            max = cur;
        }
        i = i + 1;
    }
    max
}

/// The smallest value in a non-empty array of unsigned values.
pub fn const_array_min_u64(array: &Vec<u64>) -> (r: u64)
    requires
        array@.len() >= 1,
    ensures
        array@.contains(r),
        forall|i: int| 0 <= i < array@.len() ==> array@[i] >= r,
{
    let mut min = array[0];
    let mut i: usize = 1;
    while i < array.len()
        invariant
            1 <= i <= array@.len(),
            array@.contains(min),
            forall|j: int| 0 <= j < i ==> array@[j] >= min,
        decreases array@.len() - i,
    {
        let cur = array[i];
        if cur < min {
            min = cur;
        }
        i = i + 1;
    }
    min
}

} // verus!
