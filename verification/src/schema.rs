//! The schema model and the layout resolver.
//!
//! A `PieceSchema` is an ordered sequence of field declarations. Order is
//! significant: fields are packed contiguously, least-significant field
//! first, with no padding. The layout resolver computes each field's bit
//! offset and length, the schema's total bit length, and its storage width.

use vstd::prelude::*;
use crate::bits::mask_spec;
use crate::enums::EnumDiscriminants;
use crate::width::storage_width_spec;

verus! {

/// The kind of one declared field.
pub enum FieldKind {
    /// A single-bit boolean flag.
    Boolean,
    /// An unsigned integer of the given width.
    Unsigned { width: usize },
    /// A two's-complement signed integer of the given width.
    Signed { width: usize },
    /// An enumeration discriminant.
    Enumeration { discriminants: EnumDiscriminants },
    /// A nested packed group with its own schema.
    Nested { schema: PieceSchema },
}

/// One declared field: a name and a kind. Immutable once declared.
pub struct FieldSpec {
    pub name: String,
    pub kind: FieldKind,
}

/// An ordered sequence of field declarations.
pub struct PieceSchema {
    pub fields: Vec<FieldSpec>,
}

/// The bit width of a field of kind `k`.
pub open spec fn kind_width(k: FieldKind) -> int
    decreases k, 0int,
{
    match k {
        FieldKind::Boolean => 1,
        FieldKind::Unsigned { width } => width as int,
        FieldKind::Signed { width } => width as int,
        FieldKind::Enumeration { discriminants } => discriminants.width_spec() as int,
        FieldKind::Nested { schema } => schema_total_bits(schema),
    }
}

/// The summed bit width of the first `n` fields of `fields`.
pub open spec fn prefix_bits(fields: Seq<FieldSpec>, n: int) -> int
    decreases fields, n,
{
    if n <= 0 || n > fields.len() {
        0
    } else {
        prefix_bits(fields, n - 1) + kind_width(fields[n - 1].kind)
    }
}

/// The total bit length of a schema: the sum of its fields' widths.
pub open spec fn schema_total_bits(s: PieceSchema) -> int
    decreases s, 1int,
{
    prefix_bits(s.fields@, s.fields@.len() as int)
}

/// Well-formedness of a field kind: widths lie between 1 and 64, declared
/// enum values fit their width, and nested schemas are themselves well
/// formed.
pub open spec fn kind_wf(k: FieldKind) -> bool
    decreases k, 0int,
{
    match k {
        FieldKind::Boolean => true,
        FieldKind::Unsigned { width } => 1 <= width <= 64,
        FieldKind::Signed { width } => 1 <= width <= 64,
        FieldKind::Enumeration { discriminants } => {
            &&& 1 <= discriminants.width_spec() <= 64
            &&& discriminants.values_spec().len() >= 1
            &&& forall|i: int|
                0 <= i < discriminants.values_spec().len()
                    ==> discriminants.values_spec()[i] <= mask_spec(discriminants.width_spec())
        },
        FieldKind::Nested { schema } => schema_wf(schema),
    }
}

/// Well-formedness of a schema: every field kind is well formed and the
/// total bit length lies between 1 and 64.
pub open spec fn schema_wf(s: PieceSchema) -> bool
    decreases s, 1int,
{
    &&& forall|i: int| 0 <= i < s.fields@.len() ==> kind_wf(#[trigger] s.fields@[i].kind)
    &&& 1 <= schema_total_bits(s) <= 64
}

/// The bit offset of field `i`: the summed width of the fields before it.
pub open spec fn field_offset_spec(s: PieceSchema, i: int) -> int {
    prefix_bits(s.fields@, i)
}

/// The bit length of field `i`.
pub open spec fn field_len_spec(s: PieceSchema, i: int) -> int {
    kind_width(s.fields@[i].kind)
}

/// A well-formed field kind occupies between 1 and 64 bits.
pub proof fn lemma_kind_width_bounds(k: FieldKind)
    requires
        kind_wf(k),
    ensures
        1 <= kind_width(k) <= 64,
{
}

/// Summed widths grow with the number of fields taken, by at least one bit
/// per well-formed field.
pub proof fn lemma_prefix_bits_monotone(fields: Seq<FieldSpec>, n1: int, n2: int)
    requires
        0 <= n1 <= n2 <= fields.len(),
        forall|i: int| 0 <= i < fields.len() ==> kind_wf(#[trigger] fields[i].kind),
    ensures
        prefix_bits(fields, n1) + (n2 - n1) <= prefix_bits(fields, n2),
        prefix_bits(fields, n1) >= n1,
    decreases n2,
{
    if n2 > 0 {
        lemma_kind_width_bounds(fields[n2 - 1].kind);
        if n1 == n2 {
            lemma_prefix_bits_monotone(fields, n1 - 1, n2 - 1);
        } else {
            lemma_prefix_bits_monotone(fields, n1, n2 - 1);
        }
    }
}

/// In a well-formed schema every field's bit range lies inside the total
/// bit length.
pub proof fn lemma_field_in_range(s: PieceSchema, i: int)
    requires
        schema_wf(s),
        0 <= i < s.fields@.len(),
    ensures
        0 <= field_offset_spec(s, i),
        1 <= field_len_spec(s, i) <= 64,
        field_offset_spec(s, i) + field_len_spec(s, i) <= schema_total_bits(s),
{
    lemma_kind_width_bounds(s.fields@[i].kind);
    lemma_prefix_bits_monotone(s.fields@, 0, i);
    lemma_prefix_bits_monotone(s.fields@, i + 1, s.fields@.len() as int);
}

/// Two distinct fields of a well-formed schema occupy disjoint bit ranges;
/// the earlier field lies wholly below the later one.
pub proof fn lemma_fields_disjoint(s: PieceSchema, i: int, j: int)
    requires
        schema_wf(s),
        0 <= i < j < s.fields@.len(),
    ensures
        field_offset_spec(s, i) + field_len_spec(s, i) <= field_offset_spec(s, j),
{
    lemma_prefix_bits_monotone(s.fields@, i + 1, j);
}

impl FieldSpec {
    /// Declares a single-bit boolean field.
    pub fn boolean(name: String) -> (r: FieldSpec)
        ensures
            r.name == name,
            r.kind == FieldKind::Boolean,
            kind_wf(r.kind),
    {
        FieldSpec { name, kind: FieldKind::Boolean }
    }

    /// Declares an unsigned integer field of the given width. Fails exactly
    /// when the width does not lie between 1 and 64.
    pub fn unsigned(name: String, width: usize) -> (r: Option<FieldSpec>)
        ensures
            r is Some <==> 1 <= width <= 64,
            r is Some ==> r->0.name == name && r->0.kind == (FieldKind::Unsigned { width })
                && kind_wf(r->0.kind),
    {
        if 1 <= width && width <= 64 {
            Some(FieldSpec { name, kind: FieldKind::Unsigned { width } })
        } else {
            None
        }
    }

    /// Declares a signed integer field of the given width. Fails exactly
    /// when the width does not lie between 1 and 64.
    pub fn signed(name: String, width: usize) -> (r: Option<FieldSpec>)
        ensures
            r is Some <==> 1 <= width <= 64,
            r is Some ==> r->0.name == name && r->0.kind == (FieldKind::Signed { width })
                && kind_wf(r->0.kind),
    {
        if 1 <= width && width <= 64 {
            Some(FieldSpec { name, kind: FieldKind::Signed { width } })
        } else {
            None
        }
    }

    /// Declares an enumeration field over the given discriminant set.
    pub fn enumeration(name: String, discriminants: EnumDiscriminants) -> (r: FieldSpec)
        ensures
            r.name == name,
            r.kind == (FieldKind::Enumeration { discriminants }),
            kind_wf(r.kind),
    {
        proof {
            use_type_invariant(&discriminants);
        }
        FieldSpec { name, kind: FieldKind::Enumeration { discriminants } }
    }

    /// Declares a nested field holding a packed group of the given schema.
    pub fn nested(name: String, schema: PieceSchema) -> (r: FieldSpec)
        requires
            schema_wf(schema),
        ensures
            r.name == name,
            r.kind == (FieldKind::Nested { schema }),
            kind_wf(r.kind),
    {
        FieldSpec { name, kind: FieldKind::Nested { schema } }
    }

    /// The declared field name.
    pub fn name(&self) -> (r: &String)
        ensures
            r == self.name,
    {
        &self.name
    }
}

/// The bit width of a field of kind `k`, executably.
pub fn kind_width_of(k: &FieldKind) -> (r: usize)
    requires
        kind_wf(*k),
    ensures
        r == kind_width(*k),
        1 <= r <= 64,
    decreases *k, 0int,
{
    match k {
        FieldKind::Boolean => 1,
        FieldKind::Unsigned { width } => *width,
        FieldKind::Signed { width } => *width,
        FieldKind::Enumeration { discriminants } => discriminants.width(),
        FieldKind::Nested { schema } => schema.total_bits(),
    }
}

impl PieceSchema {
    /// Builds a schema from an ordered field list. Every field kind must be
    /// well formed; construction fails exactly when the summed bit width
    /// lies outside 1 to 64.
    pub fn new(fields: Vec<FieldSpec>) -> (r: Option<PieceSchema>)
        requires
            forall|i: int| 0 <= i < fields@.len() ==> kind_wf(#[trigger] fields@[i].kind),
        ensures
            r is Some <==> 1 <= prefix_bits(fields@, fields@.len() as int) <= 64,
            r is Some ==> r->0.fields == fields && schema_wf(r->0),
    {
        let ghost gfields = fields@;
        let mut sum: usize = 0;
        let mut i: usize = 0;
        while i < fields.len()
            invariant
                0 <= i <= gfields.len(),
                fields@ == gfields,
                sum == prefix_bits(gfields, i as int),
                sum <= 64,
                forall|k: int| 0 <= k < gfields.len() ==> kind_wf(#[trigger] gfields[k].kind),
            decreases gfields.len() - i,
        {
            let w = kind_width_of(&fields[i].kind);
            if sum + w > 64 {
                proof {
                    lemma_prefix_bits_monotone(gfields, i + 1, gfields.len() as int);
                }
                return None;
            }
            sum = sum + w;
            i = i + 1;
        }
        if sum == 0 {
            return None;
        }
        Some(PieceSchema { fields })
    }

    /// The number of declared fields.
    pub fn field_count(&self) -> (r: usize)
        ensures
            r == self.fields@.len(),
    {
        self.fields.len()
    }

    /// The total bit length of the schema: the sum of its fields' widths.
    pub fn total_bits(&self) -> (r: usize)
        requires
            schema_wf(*self),
        ensures
            r == schema_total_bits(*self),
            1 <= r <= 64,
        decreases *self, 1int,
    {
        let ghost gfields = self.fields@;
        let mut sum: usize = 0;
        let mut i: usize = 0;
        proof {
            lemma_prefix_bits_monotone(gfields, 0, gfields.len() as int);
        }
        while i < self.fields.len()
            invariant
                0 <= i <= gfields.len(),
                self.fields@ == gfields,
                schema_wf(*self),
                sum == prefix_bits(gfields, i as int),
            decreases gfields.len() - i,
        {
            proof {
                lemma_prefix_bits_monotone(gfields, i as int, gfields.len() as int);
                assert(prefix_bits(gfields, gfields.len() as int) == schema_total_bits(*self));
            }
            let w = kind_width_of(&self.fields[i].kind);
            sum = sum + w;
            i = i + 1;
            proof {
                lemma_prefix_bits_monotone(gfields, i as int, gfields.len() as int);
            }
        }
        sum
    }

    /// The storage width of the schema: the smallest supported cell width
    /// that holds its total bit length.
    pub fn storage_width(&self) -> (r: usize)
        requires
            schema_wf(*self),
        ensures
            r == storage_width_spec(schema_total_bits(*self) as usize),
            r == 8 || r == 16 || r == 32 || r == 64,
            schema_total_bits(*self) <= r <= 64,
    {
        let t = self.total_bits();
        crate::width::exact_associated_storage_bit_length(t)
    }

    /// The bit offset of field `index`: the summed width of the fields
    /// declared before it.
    pub fn field_offset(&self, index: usize) -> (r: usize)
        requires
            schema_wf(*self),
            index < self.fields@.len(),
        ensures
            r == field_offset_spec(*self, index as int),
            r + field_len_spec(*self, index as int) <= schema_total_bits(*self),
    {
        let ghost gfields = self.fields@;
        let mut sum: usize = 0;
        let mut i: usize = 0;
        proof {
            lemma_field_in_range(*self, index as int);
        }
        while i < index
            invariant
                0 <= i <= index < gfields.len(),
                self.fields@ == gfields,
                schema_wf(*self),
                sum == prefix_bits(gfields, i as int),
            decreases index - i,
        {
            proof {
                lemma_prefix_bits_monotone(gfields, i as int, index as int);
                lemma_field_in_range(*self, index as int);
            }
            let w = kind_width_of(&self.fields[i].kind);
            sum = sum + w;
            i = i + 1;
        }
        sum
    }

    /// The bit length of field `index`.
    pub fn field_len(&self, index: usize) -> (r: usize)
        requires
            schema_wf(*self),
            index < self.fields@.len(),
        ensures
            r == field_len_spec(*self, index as int),
            1 <= r <= 64,
    {
        kind_width_of(&self.fields[index].kind)
    }
}

} // verus!
