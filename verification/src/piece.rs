//! Packed values: reading and writing the fields of a storage cell that is
//! laid out by a `PieceSchema`.
//!
//! A packed value is carried as a 64-bit-normalized storage integer; the
//! schema that describes it is passed alongside. Checked construction
//! validates every field, recursively through nested groups; the trusting
//! constructor demands validity from the caller instead.

use vstd::prelude::*;
use crate::bits::{extract_spec, mask_spec, modify_spec};
use crate::schema::{
    field_len_spec,
    field_offset_spec,
    schema_total_bits,
    schema_wf,
    FieldKind,
    PieceSchema,
};
use crate::sbits::{sign_extend_spec, signed_max_spec, signed_min_spec, signed_to_raw_spec};

verus! {

/// Whether the raw bit pattern `raw` is a valid value for a field of kind
/// `k`. Boolean, unsigned and signed patterns of the field's width are
/// always valid; an enumeration pattern must be a declared discriminant; a
/// nested pattern must be valid for the nested schema, recursively.
pub open spec fn kind_raw_valid(k: FieldKind, raw: u64) -> bool
    decreases k, 1int,
{
    match k {
        FieldKind::Boolean => true,
        FieldKind::Unsigned { .. } => true,
        FieldKind::Signed { .. } => true,
        FieldKind::Enumeration { discriminants } => discriminants.values_spec().contains(raw),
        FieldKind::Nested { schema } => piece_valid(schema, raw),
    }
}

/// Whether `bits` is a valid packed value of schema `s`: every field's
/// extracted bits are valid for that field's kind.
pub open spec fn piece_valid(s: PieceSchema, bits: u64) -> bool
    decreases s, 2int,
{
    forall|i: int|
        0 <= i < s.fields@.len() ==> kind_raw_valid(
            (#[trigger] s.fields@[i]).kind,
            extract_spec(bits, field_offset_spec(s, i) as usize, field_len_spec(s, i) as usize),
        )
}

impl PieceSchema {
    /// Decides whether `bits` is a valid packed value of this schema,
    /// validating every field in schema order and recursing through nested
    /// groups.
    #[verifier::rlimit(100)]
    #[verifier::spinoff_prover]
    pub fn check_bits(&self, bits: u64) -> (r: bool)
        requires
            schema_wf(*self),
        ensures
            r <==> piece_valid(*self, bits),
        decreases *self,
    {
        let mut i: usize = 0;
        while i < self.fields.len()
            invariant
                schema_wf(*self),
                0 <= i <= self.fields@.len(),
                forall|j: int|
                    0 <= j < i ==> kind_raw_valid(
                        (#[trigger] self.fields@[j]).kind,
                        extract_spec(
                            bits,
                            field_offset_spec(*self, j) as usize,
                            field_len_spec(*self, j) as usize,
                        ),
                    ),
            decreases self.fields@.len() - i,
        {
            let off = self.field_offset(i);
            let len = self.field_len(i);
            proof {
                crate::schema::lemma_field_in_range(*self, i as int);
            }
            let raw = crate::bits::extract_bits(bits, off, len);
            let ok = match &self.fields[i].kind {
                FieldKind::Boolean => true,
                FieldKind::Unsigned { .. } => true,
                FieldKind::Signed { .. } => true,
                FieldKind::Enumeration { discriminants } => discriminants.contains(raw),
                FieldKind::Nested { schema } => schema.check_bits(raw),
            };
            if !ok {
                return false;
            }
            i = i + 1;
        }
        true
    }

    /// Checked whole-value construction: accepts `bits` as a packed value
    /// exactly when it fits the storage width and every field validates.
    pub fn try_from_bits(&self, bits: u64) -> (r: Option<u64>)
        requires
            schema_wf(*self),
        ensures
            r is Some <==> bits <= mask_spec(
                crate::width::storage_width_spec(schema_total_bits(*self) as usize),
            ) && piece_valid(*self, bits),
            r is Some ==> r->0 == bits,
    {
        let sw = self.storage_width();
        let m = crate::bits::extract_bits_mask(sw);
        if bits > m {
            return None;
        }
        if self.check_bits(bits) {
            Some(bits)
        } else {
            None
        }
    }

    /// Trusting whole-value construction: the caller asserts that `bits`
    /// fits the storage width and that every field validates.
    pub fn from_bits(&self, bits: u64) -> (r: u64)
        requires
            schema_wf(*self),
            bits <= mask_spec(crate::width::storage_width_spec(schema_total_bits(*self) as usize)),
            piece_valid(*self, bits),
        ensures
            r == bits,
    {
        bits
    }

    /// The packed value with every storage bit zero. The caller asserts
    /// that the all-zero pattern validates, as it does whenever every
    /// enumeration field declares the value zero.
    pub fn zeroes(&self) -> (r: u64)
        requires
            schema_wf(*self),
            piece_valid(*self, 0),
        ensures
            r == 0,
    {
        0
    }

    /// The packed value with every declared bit one; the unused high bits of
    /// the storage cell stay zero. The caller asserts that the all-one
    /// pattern validates.
    pub fn ones(&self) -> (r: u64)
        requires
            schema_wf(*self),
            piece_valid(*self, mask_spec(schema_total_bits(*self) as usize)),
        ensures
            r == mask_spec(schema_total_bits(*self) as usize),
    {
        let t = self.total_bits();
        crate::bits::extract_bits_mask(t)
    }

    /// Reads a boolean field: any nonzero pattern reads as `true`.
    pub fn get_bool(&self, storage: u64, index: usize) -> (r: bool)
        requires
            schema_wf(*self),
            index < self.fields@.len(),
            self.fields@[index as int].kind is Boolean,
        ensures
            r == (extract_spec(
                storage,
                field_offset_spec(*self, index as int) as usize,
                field_len_spec(*self, index as int) as usize,
            ) != 0),
    {
        self.get_raw(storage, index) != 0
    }

    /// Reads an unsigned integer field.
    pub fn get_uint(&self, storage: u64, index: usize) -> (r: u64)
        requires
            schema_wf(*self),
            index < self.fields@.len(),
            self.fields@[index as int].kind is Unsigned,
        ensures
            r == extract_spec(
                storage,
                field_offset_spec(*self, index as int) as usize,
                field_len_spec(*self, index as int) as usize,
            ),
            r <= mask_spec(field_len_spec(*self, index as int) as usize),
    {
        self.get_raw(storage, index)
    }

    /// Reads a signed integer field, sign-extending its two's-complement
    /// pattern to the native width.
    pub fn get_int(&self, storage: u64, index: usize) -> (r: i64)
        requires
            schema_wf(*self),
            index < self.fields@.len(),
            self.fields@[index as int].kind is Signed,
        ensures
            r as int == sign_extend_spec(
                extract_spec(
                    storage,
                    field_offset_spec(*self, index as int) as usize,
                    field_len_spec(*self, index as int) as usize,
                ),
                field_len_spec(*self, index as int) as usize,
            ),
    {
        let len = self.field_len(index);
        let raw = self.get_raw(storage, index);
        proof {
            crate::bits::lemma_extract_fits(
                storage,
                field_offset_spec(*self, index as int) as usize,
                len,
            );
        }
        crate::sbits::sign_extend(raw, len)
    }

    /// Reads an enumeration field through the trusting decode path: the
    /// caller asserts that the stored pattern is a declared discriminant,
    /// and the declared value itself is returned.
    pub fn get_enum(&self, storage: u64, index: usize) -> (r: u64)
        requires
            schema_wf(*self),
            index < self.fields@.len(),
            self.fields@[index as int].kind is Enumeration,
            kind_raw_valid(
                self.fields@[index as int].kind,
                extract_spec(
                    storage,
                    field_offset_spec(*self, index as int) as usize,
                    field_len_spec(*self, index as int) as usize,
                ),
            ),
        ensures
            r == extract_spec(
                storage,
                field_offset_spec(*self, index as int) as usize,
                field_len_spec(*self, index as int) as usize,
            ),
            self.fields@[index as int].kind matches FieldKind::Enumeration { discriminants }
                ==> discriminants.values_spec().contains(r),
    {
        self.get_raw(storage, index)
    }

    /// Reads a nested field: the packed bits of the nested group, shifted
    /// down to bit zero.
    pub fn get_nested(&self, storage: u64, index: usize) -> (r: u64)
        requires
            schema_wf(*self),
            index < self.fields@.len(),
            self.fields@[index as int].kind is Nested,
        ensures
            r == extract_spec(
                storage,
                field_offset_spec(*self, index as int) as usize,
                field_len_spec(*self, index as int) as usize,
            ),
    {
        self.get_raw(storage, index)
    }

    /// Reads any field's raw bits, shifted down to bit zero.
    pub fn get_raw(&self, storage: u64, index: usize) -> (r: u64)
        requires
            schema_wf(*self),
            index < self.fields@.len(),
        ensures
            r == extract_spec(
                storage,
                field_offset_spec(*self, index as int) as usize,
                field_len_spec(*self, index as int) as usize,
            ),
            r <= mask_spec(field_len_spec(*self, index as int) as usize),
    {
        let off = self.field_offset(index);
        let len = self.field_len(index);
        proof {
            crate::schema::lemma_field_in_range(*self, index as int);
            crate::bits::lemma_extract_fits(storage, off, len);
        }
        crate::bits::extract_bits(storage, off, len)
    }

    /// Reads any field's bits in place: masked, not shifted.
    pub fn get_noshift(&self, storage: u64, index: usize) -> (r: u64)
        requires
            schema_wf(*self),
            index < self.fields@.len(),
        ensures
            r == crate::bits::extract_noshift_spec(
                storage,
                field_offset_spec(*self, index as int) as usize,
                field_len_spec(*self, index as int) as usize,
            ),
    {
        let off = self.field_offset(index);
        let len = self.field_len(index);
        proof {
            crate::schema::lemma_field_in_range(*self, index as int);
        }
        crate::bits::extract_bits_noshift(storage, off, len)
    }

    /// Writes any field's raw bits. The value must fit the field's width.
    pub fn set_raw(&self, storage: &mut u64, index: usize, raw: u64)
        requires
            schema_wf(*self),
            index < self.fields@.len(),
            raw <= mask_spec(field_len_spec(*self, index as int) as usize),
        ensures
            *final(storage) == modify_spec(
                *old(storage),
                field_offset_spec(*self, index as int) as usize,
                field_len_spec(*self, index as int) as usize,
                raw,
            ),
    {
        let off = self.field_offset(index);
        let len = self.field_len(index);
        proof {
            crate::schema::lemma_field_in_range(*self, index as int);
        }
        *storage = crate::bits::modify_bits(*storage, off, len, raw);
    }

    /// Writes a boolean field: `true` as one, `false` as zero.
    pub fn set_bool(&self, storage: &mut u64, index: usize, value: bool)
        requires
            schema_wf(*self),
            index < self.fields@.len(),
            self.fields@[index as int].kind is Boolean,
        ensures
            *final(storage) == modify_spec(
                *old(storage),
                field_offset_spec(*self, index as int) as usize,
                field_len_spec(*self, index as int) as usize,
                if value {
                    1u64
                } else {
                    0u64
                },
            ),
    {
        let raw: u64 = if value {
            1
        } else {
            0
        };
        proof {
            crate::schema::lemma_field_in_range(*self, index as int);
            assert(field_len_spec(*self, index as int) == 1);
            assert(mask_spec(1) == 1) by {
                assert(((1u64 << 1u64) - 1) as u64 == 1u64) by (bit_vector);
            }
        }
        self.set_raw(storage, index, raw)
    }

    /// Writes an unsigned integer field. The value must fit the field's
    /// width.
    pub fn set_uint(&self, storage: &mut u64, index: usize, value: u64)
        requires
            schema_wf(*self),
            index < self.fields@.len(),
            self.fields@[index as int].kind is Unsigned,
            value <= mask_spec(field_len_spec(*self, index as int) as usize),
        ensures
            *final(storage) == modify_spec(
                *old(storage),
                field_offset_spec(*self, index as int) as usize,
                field_len_spec(*self, index as int) as usize,
                value,
            ),
    {
        self.set_raw(storage, index, value)
    }

    /// Writes a signed integer field as its two's-complement pattern,
    /// truncated to the field's width. The value must lie in the field's
    /// signed range.
    pub fn set_int(&self, storage: &mut u64, index: usize, value: i64)
        requires
            schema_wf(*self),
            index < self.fields@.len(),
            self.fields@[index as int].kind is Signed,
            signed_min_spec(field_len_spec(*self, index as int) as usize) <= value
                <= signed_max_spec(field_len_spec(*self, index as int) as usize),
        ensures
            *final(storage) == modify_spec(
                *old(storage),
                field_offset_spec(*self, index as int) as usize,
                field_len_spec(*self, index as int) as usize,
                signed_to_raw_spec(value, field_len_spec(*self, index as int) as usize),
            ),
    {
        let len = self.field_len(index);
        let m = crate::bits::extract_bits_mask(len);
        let raw = (value as u64) & m;
        proof {
            assert((value as u64) & m <= m) by (bit_vector);
        }
        self.set_raw(storage, index, raw)
    }

    /// Writes an enumeration field. The value must be a declared
    /// discriminant of the field.
    pub fn set_enum(&self, storage: &mut u64, index: usize, value: u64)
        requires
            schema_wf(*self),
            index < self.fields@.len(),
            self.fields@[index as int].kind is Enumeration,
            kind_raw_valid(self.fields@[index as int].kind, value),
        ensures
            *final(storage) == modify_spec(
                *old(storage),
                field_offset_spec(*self, index as int) as usize,
                field_len_spec(*self, index as int) as usize,
                value,
            ),
    {
        self.set_raw(storage, index, value)
    }

    /// Writes a nested field from the packed bits of the nested group. The
    /// bits must be a valid packed value of the nested schema.
    pub fn set_nested(&self, storage: &mut u64, index: usize, bits: u64)
        requires
            schema_wf(*self),
            index < self.fields@.len(),
            self.fields@[index as int].kind is Nested,
            bits <= mask_spec(field_len_spec(*self, index as int) as usize),
            kind_raw_valid(self.fields@[index as int].kind, bits),
        ensures
            *final(storage) == modify_spec(
                *old(storage),
                field_offset_spec(*self, index as int) as usize,
                field_len_spec(*self, index as int) as usize,
                bits,
            ),
    {
        self.set_raw(storage, index, bits)
    }
}

/// Writing a valid value into one field of a valid packed value keeps the
/// whole packed value valid: every other field's bits are untouched.
#[verifier::rlimit(100)]
pub proof fn lemma_set_preserves_valid(s: PieceSchema, bits: u64, index: int, raw: u64)
    requires
        schema_wf(s),
        0 <= index < s.fields@.len(),
        piece_valid(s, bits),
        raw <= mask_spec(field_len_spec(s, index) as usize),
        kind_raw_valid(s.fields@[index].kind, raw),
    ensures
        piece_valid(
            s,
            modify_spec(
                bits,
                field_offset_spec(s, index) as usize,
                field_len_spec(s, index) as usize,
                raw,
            ),
        ),
{
    let off = field_offset_spec(s, index) as usize;
    let len = field_len_spec(s, index) as usize;
    let modified = modify_spec(bits, off, len, raw);
    crate::schema::lemma_field_in_range(s, index);
    assert forall|j: int| 0 <= j < s.fields@.len() implies kind_raw_valid(
        (#[trigger] s.fields@[j]).kind,
        extract_spec(modified, field_offset_spec(s, j) as usize, field_len_spec(s, j) as usize),
    ) by {
        crate::schema::lemma_field_in_range(s, j);
        let offj = field_offset_spec(s, j) as usize;
        let lenj = field_len_spec(s, j) as usize;
        if j == index {
            crate::bits::lemma_extract_modify_same(bits, off, len, raw);
            crate::bits::lemma_mask_absorb(raw, len);
        } else {
            if j < index {
                crate::schema::lemma_fields_disjoint(s, j, index);
            } else {
                crate::schema::lemma_fields_disjoint(s, index, j);
            }
            crate::bits::lemma_modify_disjoint(bits, off, len, raw, offj, lenj);
        }
    }
}


/// An invalid nested or enumeration pattern in any one field makes the
/// whole packed value invalid: checked construction must reject it.
pub proof fn lemma_invalid_field_propagates(s: PieceSchema, bits: u64, index: int)
    requires
        schema_wf(s),
        0 <= index < s.fields@.len(),
        !kind_raw_valid(
            s.fields@[index].kind,
            extract_spec(
                bits,
                field_offset_spec(s, index) as usize,
                field_len_spec(s, index) as usize,
            ),
        ),
    ensures
        !piece_valid(s, bits),
{
}

/// A field over an exhaustive discriminant set accepts every stored
/// pattern: validation of that field cannot fail, whatever the bits.
pub proof fn lemma_exhaustive_field_accepts(s: PieceSchema, bits: u64, index: int)
    requires
        schema_wf(s),
        0 <= index < s.fields@.len(),
        s.fields@[index].kind matches FieldKind::Enumeration { discriminants }
            && discriminants.exhaustive_spec(),
    ensures
        kind_raw_valid(
            s.fields@[index].kind,
            extract_spec(
                bits,
                field_offset_spec(s, index) as usize,
                field_len_spec(s, index) as usize,
            ),
        ),
{
    crate::schema::lemma_field_in_range(s, index);
    crate::bits::lemma_extract_fits(
        bits,
        field_offset_spec(s, index) as usize,
        field_len_spec(s, index) as usize,
    );
}

} // verus!
