//! The mutable window: an addressable handle denoting a packed group at a
//! cumulative bit offset inside a root storage cell, supporting typed reads
//! and writes of the group's fields and the derivation of child windows for
//! nested groups.
//!
//! The root cell is passed to each operation, so that every write goes
//! straight through to the root and the borrow discipline stays visible in
//! the signatures.

use vstd::prelude::*;
use crate::bits::{extract_noshift_spec, extract_spec, mask_spec, modify_spec};
use crate::piece::{kind_raw_valid, piece_valid};
use crate::schema::{
    field_len_spec,
    field_offset_spec,
    schema_total_bits,
    schema_wf,
    FieldKind,
    PieceSchema,
};
use crate::sbits::{sign_extend_spec, signed_max_spec, signed_min_spec, signed_to_raw_spec};

verus! {

/// A physical storage cell of one of the four supported widths, normalized
/// to 64 bits for the bit codec.
pub enum StorageCell {
    U8(u8),
    U16(u16),
    U32(u32),
    U64(u64),
}

impl StorageCell {
    /// The held bits, normalized to 64 bits.
    pub open spec fn value_spec(self) -> u64 {
        match self {
            StorageCell::U8(x) => x as u64,
            StorageCell::U16(x) => x as u64,
            StorageCell::U32(x) => x as u64,
            StorageCell::U64(x) => x as u64,
        }
    }

    /// The physical width of the cell in bits.
    pub open spec fn width_spec(self) -> usize {
        match self {
            StorageCell::U8(_) => 8,
            StorageCell::U16(_) => 16,
            StorageCell::U32(_) => 32,
            StorageCell::U64(_) => 64,
        }
    }

    /// Reads the cell, normalized to 64 bits.
    pub fn get(&self) -> (r: u64)
        ensures
            r == self.value_spec(),
            r <= mask_spec(self.width_spec()),
    {
        proof {
            assert((0u64 <= 0xffu64) && mask_spec(8) == 0xffu64 && mask_spec(16) == 0xffffu64
                && mask_spec(32) == 0xffff_ffffu64) by {
                assert(((1u64 << 8u64) - 1) as u64 == 0xffu64 && ((1u64 << 16u64) - 1) as u64
                    == 0xffffu64 && ((1u64 << 32u64) - 1) as u64 == 0xffff_ffffu64)
                    by (bit_vector);
            }
        }
        match self {
            StorageCell::U8(x) => *x as u64,
            StorageCell::U16(x) => *x as u64,
            StorageCell::U32(x) => *x as u64,
            StorageCell::U64(x) => *x,
        }
    }

    /// Writes the cell, truncating the new bits to its physical width.
    pub fn set(&mut self, new_value: u64)
        ensures
            final(self).width_spec() == old(self).width_spec(),
            final(self).value_spec() == new_value & mask_spec(old(self).width_spec()),
    {
        proof {
            assert((new_value as u8) as u64 == new_value & (((1u64 << 8u64) - 1) as u64) && (
            new_value as u16) as u64 == new_value & (((1u64 << 16u64) - 1) as u64) && (new_value
                as u32) as u64 == new_value & (((1u64 << 32u64) - 1) as u64) && new_value
                == new_value & 0xffff_ffff_ffff_ffffu64) by (bit_vector);
            assert(mask_spec(8) == ((1u64 << 8u64) - 1) as u64 && mask_spec(16) == ((1u64
                << 16u64) - 1) as u64 && mask_spec(32) == ((1u64 << 32u64) - 1) as u64);
        }
        match self {
            StorageCell::U8(x) => {
                *x = new_value as u8;
            },
            StorageCell::U16(x) => {
                *x = new_value as u16;
            },
            StorageCell::U32(x) => {
                *x = new_value as u32;
            },
            StorageCell::U64(x) => {
                *x = new_value;
            },
        }
    }
}

/// A cursor for reading and writing bit ranges of a storage cell, all
/// shifted by a fixed start bit index.
pub struct BitsMut {
    pub start_bit_index: usize,
}

impl BitsMut {
    /// A cursor starting at the given bit index.
    pub fn new(start_bit_index: usize) -> (r: BitsMut)
        ensures
            r.start_bit_index == start_bit_index,
    {
        BitsMut { start_bit_index }
    }

    /// Reads `len` bits starting at relative bit index `rel_bit_index`.
    pub fn get_bits(&self, storage: &StorageCell, rel_bit_index: usize, len: usize) -> (r: u64)
        requires
            self.start_bit_index + rel_bit_index + len <= 64,
            1 <= len,
        ensures
            r == extract_spec(
                storage.value_spec(),
                (self.start_bit_index + rel_bit_index) as usize,
                len,
            ),
    {
        crate::bits::extract_bits(storage.get(), self.start_bit_index + rel_bit_index, len)
    }

    /// Reads `len` bits starting at relative bit index `rel_bit_index`,
    /// masked in place rather than shifted down.
    pub fn get_bits_noshift(&self, storage: &StorageCell, rel_bit_index: usize, len: usize) -> (r:
        u64)
        requires
            self.start_bit_index + rel_bit_index + len <= 64,
            1 <= len,
        ensures
            r == extract_noshift_spec(
                storage.value_spec(),
                (self.start_bit_index + rel_bit_index) as usize,
                len,
            ),
    {
        crate::bits::extract_bits_noshift(storage.get(), self.start_bit_index + rel_bit_index, len)
    }

    /// Overwrites the `len` bits starting at relative bit index
    /// `rel_bit_index` with `new_value`, truncated to the cell's width.
    pub fn set_bits(&self, storage: &mut StorageCell, rel_bit_index: usize, len: usize, new_value: u64)
        requires
            self.start_bit_index + rel_bit_index + len <= 64,
            1 <= len,
        ensures
            final(storage).width_spec() == old(storage).width_spec(),
            final(storage).value_spec() == modify_spec(
                old(storage).value_spec(),
                (self.start_bit_index + rel_bit_index) as usize,
                len,
                new_value,
            ) & mask_spec(old(storage).width_spec()),
    {
        let modified = crate::bits::modify_bits(
            storage.get(),
            self.start_bit_index + rel_bit_index,
            len,
            new_value,
        );
        storage.set(modified);
    }
}

/// A window onto one packed group: the group's schema and its cumulative
/// bit offset from bit zero of the root storage cell.
pub struct PieceWindow<'a> {
    pub schema: &'a PieceSchema,
    pub base: usize,
}

impl<'a> PieceWindow<'a> {
    /// Whether the window denotes a packed group that lies inside the
    /// 64-bit-normalized root.
    pub open spec fn wf(self) -> bool {
        &&& schema_wf(*self.schema)
        &&& self.base + schema_total_bits(*self.schema) <= 64
    }

    /// A window on a group of the given schema starting at `base_offset`.
    pub fn new(schema: &'a PieceSchema, base_offset: usize) -> (r: PieceWindow<'a>)
        requires
            schema_wf(*schema),
            base_offset + schema_total_bits(*schema) <= 64,
        ensures
            r.schema == schema,
            r.base == base_offset,
            r.wf(),
    {
        PieceWindow { schema, base: base_offset }
    }

    /// Reads the whole packed group out of the root.
    pub fn get(&self, root: u64) -> (r: u64)
        requires
            self.wf(),
        ensures
            r == extract_spec(root, self.base, schema_total_bits(*self.schema) as usize),
            r <= mask_spec(schema_total_bits(*self.schema) as usize),
    {
        let total = self.schema.total_bits();
        proof {
            crate::bits::lemma_extract_fits(root, self.base, total);
        }
        crate::bits::extract_bits(root, self.base, total)
    }

    /// Overwrites the whole packed group in the root. The new bits must be
    /// a valid packed value of the window's schema.
    pub fn set(&self, root: &mut u64, bits: u64)
        requires
            self.wf(),
            bits <= mask_spec(schema_total_bits(*self.schema) as usize),
            piece_valid(*self.schema, bits),
        ensures
            *final(root) == modify_spec(
                *old(root),
                self.base,
                schema_total_bits(*self.schema) as usize,
                bits,
            ),
    {
        let total = self.schema.total_bits();
        *root = crate::bits::modify_bits(*root, self.base, total, bits);
    }

    /// Derives the window for the nested group held by field `index`.
    pub fn child(&self, index: usize) -> (r: PieceWindow<'a>)
        requires
            self.wf(),
            index < self.schema.fields@.len(),
            self.schema.fields@[index as int].kind is Nested,
        ensures
            self.schema.fields@[index as int].kind == (FieldKind::Nested { schema: *r.schema }),
            r.base == self.base + field_offset_spec(*self.schema, index as int),
            r.wf(),
    {
        let off = self.schema.field_offset(index);
        proof {
            crate::schema::lemma_field_in_range(*self.schema, index as int);
        }
        match &self.schema.fields[index].kind {
            FieldKind::Nested { schema } => PieceWindow { schema, base: self.base + off },
            _ => vstd::pervasive::unreached(),
        }
    }

    /// The bit offset of field `index` from bit zero of the root.
    fn root_offset(&self, index: usize) -> (r: usize)
        requires
            self.wf(),
            index < self.schema.fields@.len(),
        ensures
            r == self.base + field_offset_spec(*self.schema, index as int),
            r + field_len_spec(*self.schema, index as int) <= 64,
    {
        proof {
            crate::schema::lemma_field_in_range(*self.schema, index as int);
        }
        self.base + self.schema.field_offset(index)
    }

    /// Reads a boolean field of the group.
    pub fn get_bool(&self, root: u64, index: usize) -> (r: bool)
        requires
            self.wf(),
            index < self.schema.fields@.len(),
            self.schema.fields@[index as int].kind is Boolean,
        ensures
            r == (extract_spec(
                root,
                (self.base + field_offset_spec(*self.schema, index as int)) as usize,
                field_len_spec(*self.schema, index as int) as usize,
            ) != 0),
    {
        self.get_field_raw(root, index) != 0
    }

    /// Reads an unsigned integer field of the group.
    pub fn get_uint(&self, root: u64, index: usize) -> (r: u64)
        requires
            self.wf(),
            index < self.schema.fields@.len(),
            self.schema.fields@[index as int].kind is Unsigned,
        ensures
            r == extract_spec(
                root,
                (self.base + field_offset_spec(*self.schema, index as int)) as usize,
                field_len_spec(*self.schema, index as int) as usize,
            ),
    {
        self.get_field_raw(root, index)
    }

    /// Reads a signed integer field of the group, sign-extended.
    pub fn get_int(&self, root: u64, index: usize) -> (r: i64)
        requires
            self.wf(),
            index < self.schema.fields@.len(),
            self.schema.fields@[index as int].kind is Signed,
        ensures
            r as int == sign_extend_spec(
                extract_spec(
                    root,
                    (self.base + field_offset_spec(*self.schema, index as int)) as usize,
                    field_len_spec(*self.schema, index as int) as usize,
                ),
                field_len_spec(*self.schema, index as int) as usize,
            ),
    {
        let len = self.schema.field_len(index);
        let raw = self.get_field_raw(root, index);
        crate::sbits::sign_extend(raw, len)
    }

    /// Reads an enumeration field of the group through the trusting decode
    /// path: the caller asserts that the stored pattern is declared.
    pub fn get_enum(&self, root: u64, index: usize) -> (r: u64)
        requires
            self.wf(),
            index < self.schema.fields@.len(),
            self.schema.fields@[index as int].kind is Enumeration,
            kind_raw_valid(
                self.schema.fields@[index as int].kind,
                extract_spec(
                    root,
                    (self.base + field_offset_spec(*self.schema, index as int)) as usize,
                    field_len_spec(*self.schema, index as int) as usize,
                ),
            ),
        ensures
            r == extract_spec(
                root,
                (self.base + field_offset_spec(*self.schema, index as int)) as usize,
                field_len_spec(*self.schema, index as int) as usize,
            ),
    {
        self.get_field_raw(root, index)
    }

    /// Reads a nested field of the group as its packed bits.
    pub fn get_nested(&self, root: u64, index: usize) -> (r: u64)
        requires
            self.wf(),
            index < self.schema.fields@.len(),
            self.schema.fields@[index as int].kind is Nested,
        ensures
            r == extract_spec(
                root,
                (self.base + field_offset_spec(*self.schema, index as int)) as usize,
                field_len_spec(*self.schema, index as int) as usize,
            ),
    {
        self.get_field_raw(root, index)
    }

    /// Reads any field's raw bits out of the root, shifted down to bit
    /// zero.
    pub fn get_field_raw(&self, root: u64, index: usize) -> (r: u64)
        requires
            self.wf(),
            index < self.schema.fields@.len(),
        ensures
            r == extract_spec(
                root,
                (self.base + field_offset_spec(*self.schema, index as int)) as usize,
                field_len_spec(*self.schema, index as int) as usize,
            ),
            r <= mask_spec(field_len_spec(*self.schema, index as int) as usize),
    {
        let off = self.root_offset(index);
        let len = self.schema.field_len(index);
        proof {
            crate::bits::lemma_extract_fits(root, off, len);
        }
        crate::bits::extract_bits(root, off, len)
    }

    /// Writes any field's raw bits into the root. The value must fit the
    /// field's width.
    pub fn set_field_raw(&self, root: &mut u64, index: usize, raw: u64)
        requires
            self.wf(),
            index < self.schema.fields@.len(),
            raw <= mask_spec(field_len_spec(*self.schema, index as int) as usize),
        ensures
            *final(root) == modify_spec(
                *old(root),
                (self.base + field_offset_spec(*self.schema, index as int)) as usize,
                field_len_spec(*self.schema, index as int) as usize,
                raw,
            ),
    {
        let off = self.root_offset(index);
        let len = self.schema.field_len(index);
        *root = crate::bits::modify_bits(*root, off, len, raw);
    }

    /// Writes a boolean field of the group.
    pub fn set_bool(&self, root: &mut u64, index: usize, value: bool)
        requires
            self.wf(),
            index < self.schema.fields@.len(),
            self.schema.fields@[index as int].kind is Boolean,
        ensures
            *final(root) == modify_spec(
                *old(root),
                (self.base + field_offset_spec(*self.schema, index as int)) as usize,
                field_len_spec(*self.schema, index as int) as usize,
                if value {
                    1u64
                } else {
                    0u64
                },
            ),
    {
        proof {
            assert(mask_spec(1) == 1) by {
                assert(((1u64 << 1u64) - 1) as u64 == 1u64) by (bit_vector);
            }
        }
        self.set_field_raw(
            root,
            index,
            if value {
                1
            } else {
                0
            },
        )
    }

    /// Writes an unsigned integer field of the group. The value must fit
    /// the field's width.
    pub fn set_uint(&self, root: &mut u64, index: usize, value: u64)
        requires
            self.wf(),
            index < self.schema.fields@.len(),
            self.schema.fields@[index as int].kind is Unsigned,
            value <= mask_spec(field_len_spec(*self.schema, index as int) as usize),
        ensures
            *final(root) == modify_spec(
                *old(root),
                (self.base + field_offset_spec(*self.schema, index as int)) as usize,
                field_len_spec(*self.schema, index as int) as usize,
                value,
            ),
    {
        self.set_field_raw(root, index, value)
    }

    /// Writes a signed integer field of the group as its two's-complement
    /// pattern. The value must lie in the field's signed range.
    pub fn set_int(&self, root: &mut u64, index: usize, value: i64)
        requires
            self.wf(),
            index < self.schema.fields@.len(),
            self.schema.fields@[index as int].kind is Signed,
            signed_min_spec(field_len_spec(*self.schema, index as int) as usize) <= value
                <= signed_max_spec(field_len_spec(*self.schema, index as int) as usize),
        ensures
            *final(root) == modify_spec(
                *old(root),
                (self.base + field_offset_spec(*self.schema, index as int)) as usize,
                field_len_spec(*self.schema, index as int) as usize,
                signed_to_raw_spec(value, field_len_spec(*self.schema, index as int) as usize),
            ),
    {
        let len = self.schema.field_len(index);
        let m = crate::bits::extract_bits_mask(len);
        let raw = (value as u64) & m;
        proof {
            assert((value as u64) & m <= m) by (bit_vector);
        }
        self.set_field_raw(root, index, raw)
    }

    /// Writes an enumeration field of the group. The value must be a
    /// declared discriminant.
    pub fn set_enum(&self, root: &mut u64, index: usize, value: u64)
        requires
            self.wf(),
            index < self.schema.fields@.len(),
            self.schema.fields@[index as int].kind is Enumeration,
            kind_raw_valid(self.schema.fields@[index as int].kind, value),
        ensures
            *final(root) == modify_spec(
                *old(root),
                (self.base + field_offset_spec(*self.schema, index as int)) as usize,
                field_len_spec(*self.schema, index as int) as usize,
                value,
            ),
    {
        self.set_field_raw(root, index, value)
    }

    /// Writes a nested field of the group from the packed bits of the
    /// nested group. The bits must be a valid packed value of the nested
    /// schema.
    pub fn set_nested(&self, root: &mut u64, index: usize, bits: u64)
        requires
            self.wf(),
            index < self.schema.fields@.len(),
            self.schema.fields@[index as int].kind is Nested,
            bits <= mask_spec(field_len_spec(*self.schema, index as int) as usize),
            kind_raw_valid(self.schema.fields@[index as int].kind, bits),
        ensures
            *final(root) == modify_spec(
                *old(root),
                (self.base + field_offset_spec(*self.schema, index as int)) as usize,
                field_len_spec(*self.schema, index as int) as usize,
                bits,
            ),
    {
        self.set_field_raw(root, index, bits)
    }
}

/// Window mutation isolation: writing a field through a window changes no
/// bit of the root outside the field's own bit range.
pub proof fn lemma_window_write_isolated(
    root: u64,
    offset: usize,
    len: usize,
    raw: u64,
    bit: usize,
)
    requires
        offset + len <= 64,
        bit < 64,
        bit < offset || offset + len <= bit,
    ensures
        extract_spec(modify_spec(root, offset, len, raw), bit, 1) == extract_spec(root, bit, 1),
{
    crate::bits::lemma_modify_disjoint(root, offset, len, raw, bit, 1);
}


/// Reading a field through a child window reads the very bits that reading
/// the nested group and then its field would give: deriving a window for a
/// nested field composes offsets and copies nothing.
pub proof fn lemma_child_window_composes(
    s: PieceSchema,
    nested: PieceSchema,
    base: usize,
    index: int,
    j: int,
    root: u64,
)
    requires
        schema_wf(s),
        base + schema_total_bits(s) <= 64,
        0 <= index < s.fields@.len(),
        s.fields@[index].kind == (FieldKind::Nested { schema: nested }),
        0 <= j < nested.fields@.len(),
    ensures
        extract_spec(
            root,
            (base + field_offset_spec(s, index) + field_offset_spec(nested, j)) as usize,
            field_len_spec(nested, j) as usize,
        ) == extract_spec(
            extract_spec(
                root,
                (base + field_offset_spec(s, index)) as usize,
                schema_total_bits(nested) as usize,
            ),
            field_offset_spec(nested, j) as usize,
            field_len_spec(nested, j) as usize,
        ),
{
    crate::schema::lemma_field_in_range(s, index);
    crate::schema::lemma_field_in_range(nested, j);
    crate::bits::lemma_extract_compose(
        root,
        (base + field_offset_spec(s, index)) as usize,
        schema_total_bits(nested) as usize,
        field_offset_spec(nested, j) as usize,
        field_len_spec(nested, j) as usize,
    );
}

} // verus!
