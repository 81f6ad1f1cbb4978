//! Decomposing a packed value into typed field values and rebuilding it
//! from them.
//!
//! A nested field's value is carried as the packed bits of the nested group,
//! so that a deeply nested structure decomposes level by level.

use vstd::prelude::*;
use crate::bits::{extract_spec, mask_spec};
use crate::piece::{kind_raw_valid, piece_valid};
use crate::schema::{
    field_len_spec,
    field_offset_spec,
    kind_wf,
    kind_width,
    schema_total_bits,
    schema_wf,
    FieldKind,
    PieceSchema,
};
use crate::sbits::{sign_extend_spec, signed_max_spec, signed_min_spec, signed_to_raw_spec};

verus! {

/// The typed value of one field of a packed value.
#[derive(Clone, Copy, Debug, PartialEq, Eq, Structural)]
pub enum FieldValue {
    /// The value of a boolean field.
    Boolean(bool),
    /// The value of an unsigned integer field.
    Unsigned(u64),
    /// The value of a signed integer field, at native width.
    Signed(i64),
    /// The declared discriminant held by an enumeration field.
    Enumeration(u64),
    /// The packed bits of a nested group.
    Nested(u64),
}

/// Whether `v` is a representable value for a field of kind `k`.
pub open spec fn value_matches(k: FieldKind, v: FieldValue) -> bool {
    match (k, v) {
        (FieldKind::Boolean, FieldValue::Boolean(_)) => true,
        (FieldKind::Unsigned { width }, FieldValue::Unsigned(u)) => u <= mask_spec(width),
        (FieldKind::Signed { width }, FieldValue::Signed(x)) => signed_min_spec(width) <= x
            <= signed_max_spec(width),
        (FieldKind::Enumeration { discriminants }, FieldValue::Enumeration(e)) =>
            discriminants.values_spec().contains(e),
        (FieldKind::Nested { schema }, FieldValue::Nested(b)) => b <= mask_spec(
            schema_total_bits(schema) as usize,
        ) && piece_valid(schema, b),
        _ => false,
    }
}

/// The raw bit pattern that encodes `v` in a field of kind `k`.
pub open spec fn value_to_raw(k: FieldKind, v: FieldValue) -> u64 {
    match (k, v) {
        (FieldKind::Boolean, FieldValue::Boolean(b)) => if b {
            1u64
        } else {
            0u64
        },
        (FieldKind::Unsigned { width }, FieldValue::Unsigned(u)) => u,
        (FieldKind::Signed { width }, FieldValue::Signed(x)) => signed_to_raw_spec(x, width),
        (FieldKind::Enumeration { discriminants }, FieldValue::Enumeration(e)) => e,
        (FieldKind::Nested { schema }, FieldValue::Nested(b)) => b,
        _ => 0,
    }
}

/// The typed value denoted by the raw pattern `raw` in a field of kind `k`.
pub open spec fn kind_to_value(k: FieldKind, raw: u64) -> FieldValue {
    match k {
        FieldKind::Boolean => FieldValue::Boolean(raw != 0),
        FieldKind::Unsigned { .. } => FieldValue::Unsigned(raw),
        FieldKind::Signed { width } => FieldValue::Signed(sign_extend_spec(raw, width) as i64),
        FieldKind::Enumeration { .. } => FieldValue::Enumeration(raw),
        FieldKind::Nested { .. } => FieldValue::Nested(raw),
    }
}

/// The field values of the packed value `bits` of schema `s`, in schema
/// order.
pub open spec fn to_fields_seq(s: PieceSchema, bits: u64) -> Seq<FieldValue> {
    Seq::new(
        s.fields@.len(),
        |i: int|
            kind_to_value(
                s.fields@[i].kind,
                extract_spec(bits, field_offset_spec(s, i) as usize, field_len_spec(s, i) as usize),
            ),
    )
}

/// A representable value encodes to a raw pattern that fits the field, is
/// valid for the field, and decodes back to the value.
pub proof fn lemma_value_round_trip(k: FieldKind, v: FieldValue)
    requires
        kind_wf(k),
        value_matches(k, v),
    ensures
        value_to_raw(k, v) <= mask_spec(kind_width(k) as usize),
        kind_raw_valid(k, value_to_raw(k, v)),
        kind_to_value(k, value_to_raw(k, v)) == v,
{
    match k {
        FieldKind::Boolean => {
            assert(mask_spec(1) >= 1) by {
                assert(((1u64 << 1u64) - 1) as u64 == 1u64) by (bit_vector);
            }
        },
        FieldKind::Unsigned { width } => {},
        FieldKind::Signed { width } => {
            let x = v->Signed_0;
            crate::sbits::lemma_signed_round_trip(x, width);
            crate::bits::lemma_extract_fits(x as u64, 0, width);
            assert(signed_to_raw_spec(x, width) <= mask_spec(width)) by {
                let m = mask_spec(width);
                assert((x as u64) & m <= m) by (bit_vector);
            }
        },
        FieldKind::Enumeration { discriminants } => {},
        FieldKind::Nested { schema } => {},
    }
}

impl PieceSchema {
    /// Decomposes a packed value into the typed values of its fields, in
    /// schema order. Enumeration and nested fields hand back their raw
    /// pattern whether or not it validates; checked callers validate the
    /// whole value first.
    pub fn to_fields(&self, storage: u64) -> (r: Vec<FieldValue>)
        requires
            schema_wf(*self),
        ensures
            r@ == to_fields_seq(*self, storage),
    {
        let mut out: Vec<FieldValue> = Vec::new();
        let mut i: usize = 0;
        while i < self.fields.len()
            invariant
                schema_wf(*self),
                0 <= i <= self.fields@.len(),
                out@.len() == i,
                forall|j: int| 0 <= j < i ==> out@[j] == to_fields_seq(*self, storage)[j],
            decreases self.fields@.len() - i,
        {
            let raw = self.get_raw(storage, i);
            let value = match &self.fields[i].kind {
                FieldKind::Boolean => FieldValue::Boolean(raw != 0),
                FieldKind::Unsigned { .. } => FieldValue::Unsigned(raw),
                FieldKind::Signed { width } => FieldValue::Signed(
                    crate::sbits::sign_extend(raw, *width),
                ),
                FieldKind::Enumeration { .. } => FieldValue::Enumeration(raw),
                FieldKind::Nested { .. } => FieldValue::Nested(raw),
            };
            out.push(value);
            i = i + 1;
        }
        proof {
            assert(out@ =~= to_fields_seq(*self, storage));
        }
        out
    }

    /// Rebuilds a packed value from per-field typed values. Fails exactly
    /// when the value list does not match the schema: a wrong length, a
    /// value of the wrong kind, or a value outside its field's range.
    ///
    /// On success the result is a valid packed value that decomposes back
    /// into exactly the given values.
    pub fn from_fields(&self, values: &Vec<FieldValue>) -> (r: Option<u64>)
        requires
            schema_wf(*self),
        ensures
            r is Some <==> values@.len() == self.fields@.len() && (forall|i: int|
                0 <= i < values@.len() ==> value_matches(
                    (#[trigger] self.fields@[i]).kind,
                    values@[i],
                )),
            r is Some ==> r->0 <= mask_spec(schema_total_bits(*self) as usize) && piece_valid(
                *self,
                r->0,
            ) && to_fields_seq(*self, r->0) == values@,
    {
        if values.len() != self.fields.len() {
            return None;
        }
        let ghost gfields = self.fields@;
        let mut storage: u64 = 0;
        let mut i: usize = 0;
        proof {
            assert(mask_spec(0) == 0) by {
                assert(((1u64 << 0u64) - 1) as u64 == 0u64) by (bit_vector);
            }
        }
        while i < self.fields.len()
            invariant
                schema_wf(*self),
                self.fields@ == gfields,
                values@.len() == gfields.len(),
                0 <= i <= gfields.len(),
                storage <= mask_spec(crate::schema::prefix_bits(gfields, i as int) as usize),
                forall|j: int|
                    0 <= j < i ==> value_matches((#[trigger] gfields[j]).kind, values@[j]),
                forall|j: int|
                    0 <= j < i ==> extract_spec(
                        storage,
                        field_offset_spec(*self, j) as usize,
                        field_len_spec(*self, j) as usize,
                    ) == value_to_raw(gfields[j].kind, values@[j]),
            decreases gfields.len() - i,
        {
            proof {
                crate::schema::lemma_field_in_range(*self, i as int);
            }
            let off = self.field_offset(i);
            let len = self.field_len(i);
            let raw: u64 = match (&self.fields[i].kind, &values[i]) {
                (FieldKind::Boolean, FieldValue::Boolean(b)) => {
                    if *b {
                        1
                    } else {
                        0
                    }
                },
                (FieldKind::Unsigned { width }, FieldValue::Unsigned(u)) => {
                    let m = crate::bits::extract_bits_mask(*width);
                    if *u > m {
                        return None;
                    }
                    *u
                },
                (FieldKind::Signed { width }, FieldValue::Signed(x)) => {
                    match crate::sbits::SBits::try_new(*width, *x) {
                        Some(sb) => sb.to_bits(),
                        None => {
                            return None;
                        },
                    }
                },
                (FieldKind::Enumeration { discriminants }, FieldValue::Enumeration(e)) => {
                    if !discriminants.contains(*e) {
                        return None;
                    }
                    *e
                },
                (FieldKind::Nested { schema }, FieldValue::Nested(b)) => {
                    let m = crate::bits::extract_bits_mask(schema.total_bits());
                    if *b > m {
                        return None;
                    }
                    if !schema.check_bits(*b) {
                        return None;
                    }
                    *b
                },
                _ => {
                    return None;
                },
            };
            proof {
                lemma_value_round_trip(gfields[i as int].kind, values@[i as int]);
            }
            let ghost old_storage = storage;
            storage = crate::bits::modify_bits(storage, off, len, raw);
            proof {
                crate::bits::lemma_modify_grow(old_storage, off, len, raw);
                crate::bits::lemma_extract_modify_same(old_storage, off, len, raw);
                crate::bits::lemma_mask_absorb(raw, len);
                assert forall|j: int| 0 <= j < i implies extract_spec(
                    storage,
                    field_offset_spec(*self, j) as usize,
                    field_len_spec(*self, j) as usize,
                ) == value_to_raw(gfields[j].kind, values@[j]) by {
                    crate::schema::lemma_field_in_range(*self, j);
                    crate::schema::lemma_fields_disjoint(*self, j, i as int);
                    crate::bits::lemma_modify_disjoint(
                        old_storage,
                        off,
                        len,
                        raw,
                        field_offset_spec(*self, j) as usize,
                        field_len_spec(*self, j) as usize,
                    );
                }
            }
            i = i + 1;
        }
        proof {
            assert forall|j: int| 0 <= j < gfields.len() implies kind_raw_valid(
                (#[trigger] gfields[j]).kind,
                extract_spec(
                    storage,
                    field_offset_spec(*self, j) as usize,
                    field_len_spec(*self, j) as usize,
                ),
            ) by {
                lemma_value_round_trip(gfields[j].kind, values@[j]);
            }
            assert forall|j: int| 0 <= j < gfields.len() implies to_fields_seq(*self, storage)[j]
                == values@[j] by {
                lemma_value_round_trip(gfields[j].kind, values@[j]);
            }
            assert(to_fields_seq(*self, storage) =~= values@);
        }
        Some(storage)
    }
}

/// A packed value confined to its schema's total bit length is determined
/// by its field values: two such values that decompose alike are equal.
pub proof fn lemma_fields_determine_bits(s: PieceSchema, a: u64, b: u64)
    requires
        schema_wf(s),
        a <= mask_spec(schema_total_bits(s) as usize),
        b <= mask_spec(schema_total_bits(s) as usize),
        to_fields_seq(s, a) == to_fields_seq(s, b),
    ensures
        a == b,
{
    assert forall|i: int| 0 <= i < s.fields@.len() implies extract_spec(
        a,
        field_offset_spec(s, i) as usize,
        field_len_spec(s, i) as usize,
    ) == extract_spec(b, field_offset_spec(s, i) as usize, field_len_spec(s, i) as usize) by {
        crate::schema::lemma_field_in_range(s, i);
        let offi = field_offset_spec(s, i) as usize;
        let leni = field_len_spec(s, i) as usize;
        let ra = extract_spec(a, offi, leni);
        let rb = extract_spec(b, offi, leni);
        assert(to_fields_seq(s, a)[i] == kind_to_value(s.fields@[i].kind, ra));
        assert(to_fields_seq(s, b)[i] == kind_to_value(s.fields@[i].kind, rb));
        assert(kind_to_value(s.fields@[i].kind, ra) == kind_to_value(s.fields@[i].kind, rb));
        crate::bits::lemma_extract_fits(a, offi, leni);
        crate::bits::lemma_extract_fits(b, offi, leni);
        assert(kind_wf(s.fields@[i].kind));
        match s.fields@[i].kind {
            FieldKind::Boolean => {
                assert(mask_spec(1) == 1) by {
                    assert(((1u64 << 1u64) - 1) as u64 == 1u64) by (bit_vector);
                }
                assert(ra == rb);
            },
            FieldKind::Unsigned { width } => {
                assert(ra == rb);
            },
            FieldKind::Signed { width } => {
                crate::sbits::lemma_raw_round_trip(ra, width);
                crate::sbits::lemma_raw_round_trip(rb, width);
                assert(ra == rb);
            },
            FieldKind::Enumeration { discriminants } => {
                assert(ra == rb);
            },
            FieldKind::Nested { schema } => {
                assert(ra == rb);
            },
        }
    }
    lemma_equal_on_prefix(s, a, b, s.fields@.len() as int);
    crate::bits::lemma_mask_absorb(a, schema_total_bits(s) as usize);
    crate::bits::lemma_mask_absorb(b, schema_total_bits(s) as usize);
}

/// Two packed values whose first `n` fields read alike agree on the bits
/// those fields cover.
proof fn lemma_equal_on_prefix(s: PieceSchema, a: u64, b: u64, n: int)
    requires
        schema_wf(s),
        0 <= n <= s.fields@.len(),
        forall|i: int|
            0 <= i < s.fields@.len() ==> extract_spec(
                a,
                field_offset_spec(s, i) as usize,
                #[trigger] field_len_spec(s, i) as usize,
            ) == extract_spec(b, field_offset_spec(s, i) as usize, field_len_spec(s, i) as usize),
    ensures
        a & mask_spec(crate::schema::prefix_bits(s.fields@, n) as usize) == b & mask_spec(
            crate::schema::prefix_bits(s.fields@, n) as usize,
        ),
    decreases n,
{
    if n == 0 {
        assert(mask_spec(0) == 0) by {
            assert(((1u64 << 0u64) - 1) as u64 == 0u64) by (bit_vector);
        }
        assert(a & 0 == 0 && b & 0 == 0) by (bit_vector);
    } else {
        lemma_equal_on_prefix(s, a, b, n - 1);
        crate::schema::lemma_field_in_range(s, n - 1);
        crate::bits::lemma_extend_equal_prefix(
            a,
            b,
            field_offset_spec(s, n - 1) as usize,
            field_len_spec(s, n - 1) as usize,
        );
    }
}

} // verus!
