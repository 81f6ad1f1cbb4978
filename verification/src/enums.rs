//! The enum validator: a declared set of enumeration discriminant values,
//! classified as exhaustive (every bit pattern of the field's width is a
//! declared value) or sparse, with membership testing.
//!
//! Variants are identified here by their position in the declared order; the
//! naming of variants belongs to the schema front end, not to this engine.

use vstd::prelude::*;
use crate::bits::mask_spec;

verus! {

/// The smallest width between 1 and 64 whose mask covers `value`.
pub open spec fn bits_needed_ok(value: u64, width: usize) -> bool {
    &&& 1 <= width <= 64
    &&& value <= mask_spec(width)
    &&& (width == 1 || value > mask_spec((width - 1) as usize))
}

/// The smallest bit width between 1 and 64 that can hold `value`.
pub fn bits_for_value(value: u64) -> (r: usize)
    ensures
        bits_needed_ok(value, r),
{
    let mut w: usize = 1;
    loop
        invariant
            1 <= w <= 64,
            w == 1 || value > mask_spec((w - 1) as usize),
        decreases 64 - w,
    {
        let m = crate::bits::extract_bits_mask(w);
        if value <= m {
            return w;
        }
        proof {
            crate::bits::lemma_mask_chara(w);
            assert(w == 64 ==> mask_spec(w) == 0xffff_ffff_ffff_ffffu64);
        }
        w = w + 1;
    }
}

/// An ordered set of declared enumeration discriminant values, together with
/// the bit width of the field that holds them.
#[derive(Debug, PartialEq, Eq)]
pub struct EnumDiscriminants {
    values: Vec<u64>,
    width: usize,
}

impl EnumDiscriminants {
    /// Every discriminant set is non-empty and every value fits the width.
    #[verifier::type_invariant]
    pub open spec fn inv(self) -> bool {
        &&& 1 <= self.width_spec() <= 64
        &&& self.values_spec().len() >= 1
        &&& forall|i: int|
            0 <= i < self.values_spec().len() ==> self.values_spec()[i] <= mask_spec(
                self.width_spec(),
            )
    }

    /// The declared values, in declaration order.
    pub closed spec fn values_spec(self) -> Seq<u64> {
        self.values@
    }

    /// The bit width of the field holding a discriminant.
    pub closed spec fn width_spec(self) -> usize {
        self.width
    }

    /// Whether a discriminant set is exhaustive: every pattern of the width
    /// is a declared value.
    pub open spec fn exhaustive_spec(self) -> bool {
        forall|raw: u64| raw <= mask_spec(self.width_spec()) ==> self.values_spec().contains(raw)
    }

    /// Builds a discriminant set, deriving the width as the smallest number
    /// of bits that holds the largest declared value. Fails exactly when no
    /// value is declared.
    pub fn new(values: Vec<u64>) -> (r: Option<EnumDiscriminants>)
        ensures
            r is Some <==> values@.len() >= 1,
            r is Some ==> r->0.values_spec() == values@,
            r is Some ==> 1 <= r->0.width_spec() <= 64,
            r is Some ==> forall|i: int|
                0 <= i < values@.len() ==> values@[i] <= mask_spec(r->0.width_spec()),
            r is Some ==> (r->0.width_spec() == 1 || exists|i: int|
                0 <= i < values@.len() && values@[i] > mask_spec((r->0.width_spec() - 1) as usize)),
    {
        if values.len() == 0 {
            return None;
        }
        let max = crate::convert::const_array_max_u64(&values);
        let width = bits_for_value(max);
        proof {
            if width != 1 {
                let j = choose|j: int| 0 <= j < values@.len() && values@[j] == max;
                assert(0 <= j < values@.len() && values@[j] > mask_spec((width - 1) as usize));
            }
        }
        Some(EnumDiscriminants { values, width })
    }

    /// Builds a discriminant set with an explicitly supplied width. Fails
    /// exactly when no value is declared, the width is not between 1 and 64,
    /// or some declared value does not fit the width.
    pub fn with_width(values: Vec<u64>, width: usize) -> (r: Option<EnumDiscriminants>)
        ensures
            r is Some <==> values@.len() >= 1 && 1 <= width <= 64 && (forall|i: int|
                0 <= i < values@.len() ==> values@[i] <= mask_spec(width)),
            r is Some ==> r->0.values_spec() == values@ && r->0.width_spec() == width,
    {
        if values.len() == 0 || width < 1 || width > 64 {
            return None;
        }
        let m = crate::bits::extract_bits_mask(width);
        let mut i: usize = 0;
        while i < values.len()
            invariant
                0 <= i <= values@.len(),
                m == mask_spec(width),
                forall|j: int| 0 <= j < i ==> values@[j] <= mask_spec(width),
            decreases values@.len() - i,
        {
            if values[i] > m {
                return None;
            }
            i = i + 1;
        }
        Some(EnumDiscriminants { values, width })
    }

    /// The number of declared values.
    pub fn len(&self) -> (r: usize)
        ensures
            r == self.values_spec().len(),
            r >= 1,
    {
        proof {
            use_type_invariant(self);
        }
        self.values.len()
    }

    /// The bit width of the field holding a discriminant.
    pub fn width(&self) -> (r: usize)
        ensures
            r == self.width_spec(),
            1 <= r <= 64,
    {
        proof {
            use_type_invariant(self);
        }
        self.width
    }

    /// The declared value of the variant at `index` in declaration order.
    pub fn value_at(&self, index: usize) -> (r: u64)
        requires
            index < self.values_spec().len(),
        ensures
            r == self.values_spec()[index as int],
            r <= mask_spec(self.width_spec()),
    {
        proof {
            use_type_invariant(self);
        }
        self.values[index]
    }

    /// Looks `raw` up among the declared values: the index of the first
    /// declared value equal to `raw`, or `None` exactly when `raw` is not a
    /// declared value.
    pub fn validate(&self, raw: u64) -> (r: Option<usize>)
        ensures
            r is Some <==> self.values_spec().contains(raw),
            r is Some ==> r->0 < self.values_spec().len() && self.values_spec()[r->0 as int] == raw
                && (forall|j: int| 0 <= j < r->0 ==> self.values_spec()[j] != raw),
    {
        proof {
            use_type_invariant(self);
        }
        let mut i: usize = 0;
        while i < self.values.len()
            invariant
                0 <= i <= self.values@.len(),
                forall|j: int| 0 <= j < i ==> self.values@[j] != raw,
            decreases self.values@.len() - i,
        {
            if self.values[i] == raw {
                return Some(i);
            }
            i = i + 1;
        }
        None
    }

    /// Whether `raw` is a declared value.
    pub fn contains(&self, raw: u64) -> (r: bool)
        ensures
            r <==> self.values_spec().contains(raw),
    {
        self.validate(raw).is_some()
    }

    /// Classifies the set: `true` exactly when every bit pattern of the
    /// field's width is a declared value.
    pub fn is_exhaustive(&self) -> (r: bool)
        ensures
            r <==> self.exhaustive_spec(),
    {
        proof {
            use_type_invariant(self);
        }
        let m = crate::bits::extract_bits_mask(self.width);
        let mut raw: u64 = 0;
        loop
            invariant
                raw <= m,
                m == mask_spec(self.width_spec()),
                forall|r2: u64| r2 < raw ==> self.values_spec().contains(r2),
            decreases m - raw,
        {
            if !self.contains(raw) {
                return false;
            }
            if raw == m {
                return true;
            }
            raw = raw + 1;
        }
    }

    /// The smallest declared value.
    pub fn min_declared(&self) -> (r: u64)
        ensures
            self.values_spec().contains(r),
            forall|i: int| 0 <= i < self.values_spec().len() ==> r <= self.values_spec()[i],
    {
        proof {
            use_type_invariant(self);
        }
        crate::convert::const_array_min_u64(&self.values)
    }

    /// The largest declared value.
    pub fn max_declared(&self) -> (r: u64)
        ensures
            self.values_spec().contains(r),
            forall|i: int| 0 <= i < self.values_spec().len() ==> r >= self.values_spec()[i],
    {
        proof {
            use_type_invariant(self);
        }
        crate::convert::const_array_max_u64(&self.values)
    }
}

/// An exhaustive discriminant set accepts every raw pattern of its width:
/// validation cannot fail on extracted bits.
pub proof fn lemma_exhaustive_accepts_all(e: EnumDiscriminants, raw: u64)
    requires
        e.exhaustive_spec(),
        raw <= mask_spec(e.width_spec()),
    ensures
        e.values_spec().contains(raw),
{
}

} // verus!
