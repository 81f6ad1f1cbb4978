//! Signed integers of an arbitrary bit width between 1 and 64, stored as
//! two's-complement bit patterns.
//!
//! The decode direction is sign extension: a raw pattern whose top bit is set
//! denotes the pattern's value minus two to the width.

use vstd::prelude::*;
use crate::bits::mask_spec;

verus! {

/// The largest value representable in `width` signed bits.
pub open spec fn signed_max_spec(width: usize) -> int {
    mask_spec((width - 1) as usize) as int
}

/// The smallest value representable in `width` signed bits.
pub open spec fn signed_min_spec(width: usize) -> int {
    -(mask_spec((width - 1) as usize) as int) - 1
}

/// The signed value denoted by the `width`-bit two's-complement pattern
/// `raw`: the pattern itself if its top bit is clear, else the pattern minus
/// two to the `width`.
pub open spec fn sign_extend_spec(raw: u64, width: usize) -> int {
    if raw <= signed_max_spec(width) {
        raw as int
    } else {
        raw - (mask_spec(width) as int) - 1
    }
}

/// The `width`-bit two's-complement pattern of the signed value `value`.
pub open spec fn signed_to_raw_spec(value: i64, width: usize) -> u64 {
    (value as u64) & mask_spec(width)
}

/// The mask of one fewer bit is the mask shifted right once.
proof fn lemma_mask_half(width: usize)
    requires
        1 <= width <= 64,
    ensures
        mask_spec((width - 1) as usize) == mask_spec(width) >> 1,
{
    let l = width as u64;
    let m = mask_spec(width);
    let h = mask_spec((width - 1) as usize);
    assert(l < 64 ==> mask_spec(width) == (1u64 << l) - 1) by {
        crate::bits::lemma_mask_chara(width);
    }
    assert(l == 64 ==> mask_spec(width) == 0xffff_ffff_ffff_ffffu64) by {
        crate::bits::lemma_mask_chara(width);
    }
    assert(mask_spec((width - 1) as usize) == ((1u64 << ((l - 1) as u64)) - 1) as u64) by {
        crate::bits::lemma_mask_chara((width - 1) as usize);
    }
    assert((1u64 <= l <= 64 && (l < 64 ==> m == (1u64 << l) - 1) && (l == 64 ==> m
        == 0xffff_ffff_ffff_ffffu64) && h == ((1u64 << ((l - 1) as u64)) - 1) as u64) ==> h == m
        >> 1) by (bit_vector);
}

/// Decodes a `width`-bit two's-complement pattern into its signed value.
pub fn sign_extend(raw: u64, width: usize) -> (r: i64)
    requires
        1 <= width <= 64,
        raw <= mask_spec(width),
    ensures
        r as int == sign_extend_spec(raw, width),
        signed_min_spec(width) <= r as int <= signed_max_spec(width),
{
    let m = crate::bits::extract_bits_mask(width);
    let half = m >> 1u64;
    proof {
        lemma_mask_half(width);
    }
    if raw <= half {
        proof {
            assert(raw <= m >> 1u64 ==> raw as i64 == raw) by (bit_vector);
        }
        raw as i64
    } else {
        let extended = raw | !m;
        proof {
            let l = width as u64;
            crate::bits::lemma_mask_chara(width);
            assert(((1u64 <= l <= 64) && (l < 64 ==> m == (1u64 << l) - 1) && (l == 64 ==> m
                == 0xffff_ffff_ffff_ffffu64) && raw <= m && raw > m >> 1u64) ==> ((raw | !m) as i64
                == raw - m - 1 && raw - m - 1 >= -(m >> 1u64) - 1)) by (bit_vector);
        }
        extended as i64
    }
}

/// A signed integer value of a specific bit width between 1 and 64.
#[derive(Clone, Copy, Debug, PartialEq, Eq, Hash, PartialOrd, Ord, Structural)]
pub struct SBits {
    width: usize,
    value: i64,
}

impl SBits {
    /// Every `SBits` value lies in the two's-complement range of its width.
    #[verifier::type_invariant]
    spec fn inv(self) -> bool {
        1 <= self.width <= 64 && signed_min_spec(self.width) <= self.value <= signed_max_spec(
            self.width,
        )
    }

    /// The declared bit width.
    pub closed spec fn width_spec(self) -> usize {
        self.width
    }

    /// The held signed value.
    pub closed spec fn value_spec(self) -> i64 {
        self.value
    }

    /// Creates a value of the given width. The value must lie in range.
    pub fn new(width: usize, value: i64) -> (r: SBits)
        requires
            1 <= width <= 64,
            signed_min_spec(width) <= value <= signed_max_spec(width),
        ensures
            r.width_spec() == width,
            r.value_spec() == value,
    {
        SBits { width, value }
    }

    /// Creates a value of the given width, or `None` exactly when the value
    /// lies outside the two's-complement range of that width.
    pub fn try_new(width: usize, value: i64) -> (r: Option<SBits>)
        requires
            1 <= width <= 64,
        ensures
            r is Some <==> signed_min_spec(width) <= value <= signed_max_spec(width),
            r is Some ==> r->0.width_spec() == width && r->0.value_spec() == value,
    {
        let max = Self::bound_max(width);
        let min = -max - 1;
        if value >= min && value <= max {
            Some(SBits { width, value })
        } else {
            None
        }
    }

    /// The largest value of the given width, as a native signed integer.
    fn bound_max(width: usize) -> (r: i64)
        requires
            1 <= width <= 64,
        ensures
            r as int == signed_max_spec(width),
            r >= 0,
    {
        let m = crate::bits::extract_bits_mask(width);
        let half = m >> 1u64;
        proof {
            lemma_mask_half(width);
            assert((m >> 1u64) as i64 == m >> 1u64 && m >> 1u64 >= 0) by (bit_vector);
        }
        half as i64
    }

    /// Decodes a raw `width`-bit pattern, sign-extending it. The pattern must
    /// fit in `width` bits.
    pub fn from_bits(width: usize, bits: u64) -> (r: SBits)
        requires
            1 <= width <= 64,
            bits <= mask_spec(width),
        ensures
            r.width_spec() == width,
            r.value_spec() as int == sign_extend_spec(bits, width),
    {
        let value = sign_extend(bits, width);
        SBits { width, value }
    }

    /// Decodes a raw pattern, or `None` exactly when the pattern does not fit
    /// in `width` bits.
    pub fn try_from_bits(width: usize, bits: u64) -> (r: Option<SBits>)
        requires
            1 <= width <= 64,
        ensures
            r is Some <==> bits <= mask_spec(width),
            r is Some ==> r->0.width_spec() == width && r->0.value_spec() as int
                == sign_extend_spec(bits, width),
    {
        let m = crate::bits::extract_bits_mask(width);
        if bits <= m {
            Some(SBits::from_bits(width, bits))
        } else {
            None
        }
    }

    /// The all-zero value of the given width.
    pub fn zeroes(width: usize) -> (r: SBits)
        requires
            1 <= width <= 64,
        ensures
            r.width_spec() == width,
            r.value_spec() == 0,
    {
        SBits { width, value: 0 }
    }

    /// The all-one value of the given width: minus one.
    pub fn ones(width: usize) -> (r: SBits)
        requires
            1 <= width <= 64,
        ensures
            r.width_spec() == width,
            r.value_spec() == -1,
    {
        SBits { width, value: -1 }
    }

    /// The smallest value of the given width.
    pub fn min_value(width: usize) -> (r: SBits)
        requires
            1 <= width <= 64,
        ensures
            r.width_spec() == width,
            r.value_spec() as int == signed_min_spec(width),
    {
        let max = Self::bound_max(width);
        SBits { width, value: -max - 1 }
    }

    /// The largest value of the given width.
    pub fn max_value(width: usize) -> (r: SBits)
        requires
            1 <= width <= 64,
        ensures
            r.width_spec() == width,
            r.value_spec() as int == signed_max_spec(width),
    {
        let max = Self::bound_max(width);
        SBits { width, value: max }
    }

    /// The held signed value.
    pub fn get(&self) -> (r: i64)
        ensures
            r == self.value_spec(),
            signed_min_spec(self.width_spec()) <= r as int <= signed_max_spec(self.width_spec()),
    {
        proof {
            use_type_invariant(self);
        }
        self.value
    }

    /// The declared bit width.
    pub fn width(&self) -> (r: usize)
        ensures
            r == self.width_spec(),
            1 <= r <= 64,
    {
        proof {
            use_type_invariant(self);
        }
        self.width
    }

    /// The two's-complement bit pattern of the held value, truncated to the
    /// declared width.
    pub fn to_bits(&self) -> (r: u64)
        ensures
            r == signed_to_raw_spec(self.value_spec(), self.width_spec()),
            r <= mask_spec(self.width_spec()),
    {
        proof {
            use_type_invariant(self);
        }
        let m = crate::bits::extract_bits_mask(self.width);
        proof {
            let v = self.value;
            assert((v as u64) & m <= m) by (bit_vector);
        }
        (self.value as u64) & m
    }

    /// Whether two values are equal in both width and value.
    pub fn const_eq(a: SBits, b: SBits) -> (r: bool)
        ensures
            r <==> a == b,
    {
        a.width == b.width && a.value == b.value
    }
}

/// Decoding the encoding of a representable signed value gives the value
/// back.
pub proof fn lemma_signed_round_trip(value: i64, width: usize)
    requires
        1 <= width <= 64,
        signed_min_spec(width) <= value <= signed_max_spec(width),
    ensures
        sign_extend_spec(signed_to_raw_spec(value, width), width) == value,
{
    let l = width as u64;
    let m = mask_spec(width);
    let h = mask_spec((width - 1) as usize);
    crate::bits::lemma_mask_chara(width);
    lemma_mask_half(width);
    assert(((1u64 <= l <= 64) && (l < 64 ==> m == (1u64 << l) - 1) && (l == 64 ==> m
        == 0xffff_ffff_ffff_ffffu64) && h == m >> 1u64 && -h - 1 <= value <= h) ==> ((value >= 0
        ==> (value as u64) & m == value) && (value < 0 ==> ((value as u64) & m > h && ((value
        as u64) & m) - m - 1 == value)))) by (bit_vector);
}

/// Encoding the decoding of a `width`-bit pattern gives the pattern back.
pub proof fn lemma_raw_round_trip(raw: u64, width: usize)
    requires
        1 <= width <= 64,
        raw <= mask_spec(width),
    ensures
        signed_to_raw_spec((sign_extend_spec(raw, width)) as i64, width) == raw,
{
    let l = width as u64;
    let m = mask_spec(width);
    let h = mask_spec((width - 1) as usize);
    crate::bits::lemma_mask_chara(width);
    lemma_mask_half(width);
    assert(((1u64 <= l <= 64) && (l < 64 ==> m == (1u64 << l) - 1) && (l == 64 ==> m
        == 0xffff_ffff_ffff_ffffu64) && h == m >> 1u64 && raw <= m) ==> ((raw <= h ==> ((raw
        as i64) as u64) & m == raw) && (raw > h ==> (((raw - m - 1) as i64) as u64) & m == raw)))
        by (bit_vector);
}

/// A raw pattern with its top bit set decodes to the pattern minus two to
/// the width; one with its top bit clear decodes to the pattern itself.
pub proof fn lemma_sign_extension_of_top_bit(raw: u64, width: usize)
    requires
        1 <= width <= 64,
        raw <= mask_spec(width),
    ensures
        (raw >> ((width - 1) as u64)) & 1 == 1 ==> sign_extend_spec(raw, width) == raw - (mask_spec(
            width,
        ) as int) - 1,
        (raw >> ((width - 1) as u64)) & 1 == 0 ==> sign_extend_spec(raw, width) == raw,
{
    let l = width as u64;
    let m = mask_spec(width);
    let h = mask_spec((width - 1) as usize);
    crate::bits::lemma_mask_chara(width);
    lemma_mask_half(width);
    assert(((1u64 <= l <= 64) && (l < 64 ==> m == (1u64 << l) - 1) && (l == 64 ==> m
        == 0xffff_ffff_ffff_ffffu64) && h == m >> 1u64 && raw <= m) ==> (((raw >> ((l - 1) as u64))
        & 1 == 1 <==> raw > h))) by (bit_vector);
}

} // verus!
