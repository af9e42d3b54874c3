use vstd::prelude::*;

verus! {

/// The fields of one variant of a tagged union.
pub enum VariantFields {
    /// Named fields, in declaration order; an empty list is written `V {}`.
    Named(Vec<String>),
    /// Positional fields: their count.
    Unnamed(usize),
    /// No field list at all.
    Unit,
}

/// One variant of a tagged union: its name and its fields.
pub struct VariantShape {
    pub name: String,
    pub fields: VariantFields,
}

/// The structure of a user type, as a front end reads it from the type's
/// declaration.
pub enum TypeShape {
    /// A record: its fields by name (a positional field by its index), in
    /// declaration order.
    Struct { name: String, fields: Vec<String> },
    /// A tagged union: its variants in declaration order.
    Enum { name: String, variants: Vec<VariantShape> },
    /// An untagged union.
    Union { name: String },
}

/// The text of each name in `v`.
pub open spec fn names_view(v: Seq<String>) -> Seq<Seq<char>> {
    v.map_values(|s: String| s@)
}

/// Whether sizes can be generated for a variant: it has at least one field,
/// and its fields are named.
pub open spec fn variant_supported(v: VariantShape) -> bool {
    v.fields matches VariantFields::Named(names) && names@.len() > 0
}

/// Whether every variant of `vs` is supported.
pub open spec fn all_variants_supported(vs: Seq<VariantShape>) -> bool {
    forall|i: int| 0 <= i < vs.len() ==> variant_supported(#[trigger] vs[i])
}

/// Whether `k` is the first unsupported variant of `vs`.
pub open spec fn first_unsupported(vs: Seq<VariantShape>, k: int) -> bool {
    &&& 0 <= k < vs.len()
    &&& !variant_supported(vs[k])
    &&& forall|j: int| 0 <= j < k ==> variant_supported(#[trigger] vs[j])
}

} // verus!
