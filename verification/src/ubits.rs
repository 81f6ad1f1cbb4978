//! Unsigned integers of an arbitrary bit width between 1 and 64.
//!
//! A `UBits` value pairs a bit width with a value known to fit in that many
//! bits. It is the typed domain value for unsigned fields narrower than their
//! storage cell.

use vstd::prelude::*;
use crate::bits::mask_spec;

verus! {

/// An unsigned integer value of a specific bit width between 1 and 64.
#[derive(Clone, Copy, Debug, PartialEq, Eq, Hash, PartialOrd, Ord, Structural)]
pub struct UBits {
    width: usize,
    value: u64,
}

impl UBits {
    /// Every `UBits` value fits in its declared width.
    #[verifier::type_invariant]
    spec fn inv(self) -> bool {
        1 <= self.width <= 64 && self.value <= mask_spec(self.width)
    }

    /// The declared bit width.
    pub closed spec fn width_spec(self) -> usize {
        self.width
    }

    /// The held value.
    pub closed spec fn value_spec(self) -> u64 {
        self.value
    }

    /// Creates a value of the given width. The value must fit.
    pub fn new(width: usize, value: u64) -> (r: UBits)
        requires
            1 <= width <= 64,
            value <= mask_spec(width),
        ensures
            r.width_spec() == width,
            r.value_spec() == value,
    {
        UBits { width, value }
    }

    /// Creates a value of the given width, or `None` exactly when the value
    /// does not fit in that many bits.
    pub fn try_new(width: usize, value: u64) -> (r: Option<UBits>)
        requires
            1 <= width <= 64,
        ensures
            r is Some <==> value <= mask_spec(width),
            r is Some ==> r->0.width_spec() == width && r->0.value_spec() == value,
    {
        let max = crate::bits::extract_bits(u64::MAX, 0, width);
        proof {
            crate::bits::lemma_extract_fits(u64::MAX, 0, width);
            let m = mask_spec(width);
            assert((0xffff_ffff_ffff_ffffu64 >> 0u64) & m == m) by (bit_vector);
        }
        if value <= max {
            Some(UBits { width, value })
        } else {
            None
        }
    }

    /// Creates a value of the given width from raw bits. The bits must fit.
    pub fn from_bits(width: usize, bits: u64) -> (r: UBits)
        requires
            1 <= width <= 64,
            bits <= mask_spec(width),
        ensures
            r.width_spec() == width,
            r.value_spec() == bits,
    {
        UBits::new(width, bits)
    }

    /// Creates a value of the given width from raw bits, or `None` exactly
    /// when the bits do not fit in that many bits.
    pub fn try_from_bits(width: usize, bits: u64) -> (r: Option<UBits>)
        requires
            1 <= width <= 64,
        ensures
            r is Some <==> bits <= mask_spec(width),
            r is Some ==> r->0.width_spec() == width && r->0.value_spec() == bits,
    {
        UBits::try_new(width, bits)
    }

    /// The all-zero value of the given width.
    pub fn zeroes(width: usize) -> (r: UBits)
        requires
            1 <= width <= 64,
        ensures
            r.width_spec() == width,
            r.value_spec() == 0,
    {
        UBits { width, value: 0 }
    }

    /// The all-one value of the given width; also the largest value.
    pub fn ones(width: usize) -> (r: UBits)
        requires
            1 <= width <= 64,
        ensures
            r.width_spec() == width,
            r.value_spec() == mask_spec(width),
    {
        let value = crate::bits::extract_bits(u64::MAX, 0, width);
        proof {
            let m = mask_spec(width);
            assert((0xffff_ffff_ffff_ffffu64 >> 0u64) & m == m) by (bit_vector);
        }
        UBits { width, value }
    }

    /// The smallest value of the given width: zero.
    pub fn min_value(width: usize) -> (r: UBits)
        requires
            1 <= width <= 64,
        ensures
            r.width_spec() == width,
            r.value_spec() == 0,
    {
        UBits::zeroes(width)
    }

    /// The largest value of the given width: all bits set.
    pub fn max_value(width: usize) -> (r: UBits)
        requires
            1 <= width <= 64,
        ensures
            r.width_spec() == width,
            r.value_spec() == mask_spec(width),
    {
        UBits::ones(width)
    }

    /// The held value.
    pub fn get(&self) -> (r: u64)
        ensures
            r == self.value_spec(),
            r <= mask_spec(self.width_spec()),
    {
        proof {
            use_type_invariant(self);
        }
        self.value
    }

    /// The declared bit width.
    pub fn width(&self) -> (r: usize)
        ensures
            r == self.width_spec(),
            1 <= r <= 64,
    {
        proof {
            use_type_invariant(self);
        }
        self.width
    }

    /// The raw bit pattern of the value: the identity for unsigned values.
    pub fn to_bits(&self) -> (r: u64)
        ensures
            r == self.value_spec(),
            r <= mask_spec(self.width_spec()),
    {
        self.get()
    }

    /// Whether two values are equal in both width and value.
    pub fn const_eq(a: UBits, b: UBits) -> (r: bool)
        ensures
            r <==> a == b,
    {
        a.width == b.width && a.value == b.value
    }
}

} // verus!
