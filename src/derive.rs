use vstd::prelude::*;

use crate::shape::{
    all_variants_supported, first_unsupported, names_view, variant_supported, TypeShape,
    VariantFields, VariantShape,
};
use crate::size::{add_sizes, capped, lemma_sum_sizes_reordered, sum_sizes};

verus! {

/// Why sizes cannot be generated for a shape.
#[derive(Debug, PartialEq, Eq)]
pub enum DeriveError {
    /// The type is an untagged union.
    Union,
    /// The named variant has positional fields.
    PositionalVariant { variant: String },
    /// The named variant has no field list.
    UnitVariant { variant: String },
    /// The named variant has a field list with no field in it.
    EmptyVariant { variant: String },
}

/// The size formula of one variant: the fields whose sizes are added.
pub struct VariantFormula {
    pub name: String,
    pub fields: Vec<String>,
}

/// How a user type's size is computed from the sizes of its fields.
pub enum SizeFormula {
    /// A record: the sum of the sizes of all its fields.
    Product { name: String, fields: Vec<String> },
    /// A tagged union: the sum of the sizes of the held variant's fields.
    Sum { name: String, variants: Vec<VariantFormula> },
}

/// What a formula reads of a value: the variant it holds (0 for a record) and
/// the size each field of that variant reports, in declaration order.
pub struct HeldFields {
    pub variant: usize,
    pub sizes: Vec<usize>,
}

/// Whether `e` reports the unsupported variant `v`.
pub open spec fn error_names_variant(e: DeriveError, v: VariantShape) -> bool {
    match v.fields {
        VariantFields::Unnamed(_) => e matches DeriveError::PositionalVariant { variant } && variant@
            == v.name@,
        VariantFields::Unit => e matches DeriveError::UnitVariant { variant } && variant@ == v.name@,
        VariantFields::Named(names) => names@.len() == 0 && (e matches DeriveError::EmptyVariant {
            variant,
        } && variant@ == v.name@),
    }
}

/// Whether `f` is the formula of the supported variant `v`.
pub open spec fn variant_formula_of(f: VariantFormula, v: VariantShape) -> bool {
    &&& f.name@ == v.name@
    &&& v.fields matches VariantFields::Named(names) && names_view(f.fields@) == names_view(names@)
}

/// Whether `f` is the formula of a record named `name` with fields `fields`.
pub open spec fn is_product_of(f: SizeFormula, name: Seq<char>, fields: Seq<String>) -> bool {
    f matches SizeFormula::Product { name: n, fields: fs } && n@ == name && names_view(fs@)
        == names_view(fields)
}

/// Whether `f` is the formula of a tagged union named `name` whose variants
/// are `vs`, all supported.
pub open spec fn is_sum_of(f: SizeFormula, name: Seq<char>, vs: Seq<VariantShape>) -> bool {
    f matches SizeFormula::Sum { name: n, variants } && n@ == name && variants@.len() == vs.len()
        && forall|i: int| 0 <= i < vs.len() ==> variant_formula_of(#[trigger] variants@[i], vs[i])
}

impl SizeFormula {
    /// Number of fields of variant `variant` (of the record, for 0), or
    /// `None` where there is no such variant.
    pub open spec fn spec_field_count(&self, variant: int) -> Option<nat> {
        match self {
            SizeFormula::Product { fields, .. } => if variant == 0 {
                Some(fields@.len())
            } else {
                None
            },
            SizeFormula::Sum { variants, .. } => if 0 <= variant < variants@.len() {
                Some(variants@[variant].fields@.len())
            } else {
                None
            },
        }
    }

    /// Whether `value` can be a value of the type: it holds a variant of it,
    /// with one size for each of that variant's fields.
    pub open spec fn spec_accepts(&self, value: HeldFields) -> bool {
        self.spec_field_count(value.variant as int) == Some(value.sizes@.len())
    }

    /// Size of `value`: the sum of the sizes of the held variant's fields.
    pub open spec fn spec_size_of(&self, value: HeldFields) -> nat {
        sum_sizes(value.sizes@.take(self.spec_field_count(value.variant as int).unwrap() as int))
    }

    /// Size of `value` under this formula, saturating at `usize::MAX`.
    pub fn size_of(&self, value: &HeldFields) -> (r: usize)
        requires
            self.spec_accepts(*value),
        ensures
            r as nat == capped(self.spec_size_of(*value)),
    {
        let sizes = &value.sizes;
        proof {
            assert(sizes@.take(sizes@.len() as int) =~= sizes@);
        }
        let mut total: usize = 0;
        let mut i: usize = 0;
        while i < sizes.len()
            invariant
                i <= sizes@.len(),
                total as nat == capped(sum_sizes(sizes@.take(i as int))),
            decreases sizes@.len() - i,
        {
            proof {
                assert(sizes@.take(i + 1).drop_last() =~= sizes@.take(i as int));
            }
            total = add_sizes(total, sizes[i]);
            i = i + 1;
        }
        total
    }
}

/// A copy of each name in `v`.
fn copy_names(v: &Vec<String>) -> (r: Vec<String>)
    ensures
        names_view(r@) == names_view(v@),
{
    let mut r: Vec<String> = Vec::new();
    let mut i: usize = 0;
    while i < v.len()
        invariant
            i <= v@.len(),
            r@.len() == i,
            forall|j: int| 0 <= j < i ==> (#[trigger] r@[j])@ == v@[j]@,
        decreases v@.len() - i,
    {
        r.push(v[i].clone());
        i = i + 1;
    }
    assert(names_view(r@) =~= names_view(v@));
    r
}

/// The formula of a record: the sum of the sizes of all its fields.
fn derive_for_struct(name: &String, fields: &Vec<String>) -> (r: SizeFormula)
    ensures
        is_product_of(r, name@, fields@),
{
    SizeFormula::Product { name: name.clone(), fields: copy_names(fields) }
}

/// The formula of a tagged union, or the error for its first variant whose
/// fields are not named.
fn derive_for_enum(name: &String, variants: &Vec<VariantShape>) -> (r: Result<
    SizeFormula,
    DeriveError,
>)
    ensures
        match r {
            Ok(f) => all_variants_supported(variants@) && is_sum_of(f, name@, variants@),
            Err(e) => exists|k: int|
                first_unsupported(variants@, k) && error_names_variant(e, #[trigger] variants@[k]),
        },
{
    let mut formulas: Vec<VariantFormula> = Vec::new();
    let mut i: usize = 0;
    while i < variants.len()
        invariant
            i <= variants@.len(),
            formulas@.len() == i,
            forall|j: int| 0 <= j < i ==> variant_supported(#[trigger] variants@[j]),
            forall|j: int|
                0 <= j < i ==> variant_formula_of(#[trigger] formulas@[j], variants@[j]),
        decreases variants@.len() - i,
    {
        let v = &variants[i];
        match &v.fields {
            VariantFields::Named(names) => {
                if names.len() == 0 {
                    assert(first_unsupported(variants@, i as int));
                    return Err(DeriveError::EmptyVariant { variant: v.name.clone() });
                }
                formulas.push(VariantFormula { name: v.name.clone(), fields: copy_names(names) });
            },
            VariantFields::Unnamed(_) => {
                assert(first_unsupported(variants@, i as int));
                return Err(DeriveError::PositionalVariant { variant: v.name.clone() });
            },
            VariantFields::Unit => {
                assert(first_unsupported(variants@, i as int));
                return Err(DeriveError::UnitVariant { variant: v.name.clone() });
            },
        }
        i = i + 1;
    }
    Ok(SizeFormula::Sum { name: name.clone(), variants: formulas })
}

/// Generates the size formula of a user type from its shape.
///
/// A record is sized by all its fields, a tagged union by the fields of the
/// variant a value holds. An untagged union, and a tagged union with a variant
/// whose fields are positional, absent or empty, are refused.
pub fn derive_data_size(shape: &TypeShape) -> (r: Result<SizeFormula, DeriveError>)
    ensures
        match *shape {
            TypeShape::Struct { name, fields } => r matches Ok(f) && is_product_of(
                f,
                name@,
                fields@,
            ),
            TypeShape::Enum { name, variants } => match r {
                Ok(f) => all_variants_supported(variants@) && is_sum_of(f, name@, variants@),
                Err(e) => exists|k: int|
                    first_unsupported(variants@, k) && error_names_variant(
                        e,
                        #[trigger] variants@[k],
                    ),
            },
            TypeShape::Union { .. } => r matches Err(DeriveError::Union),
        },
{
    match shape {
        TypeShape::Struct { name, fields } => Ok(derive_for_struct(name, fields)),
        TypeShape::Enum { name, variants } => derive_for_enum(name, variants),
        TypeShape::Union { .. } => Err(DeriveError::Union),
    }
}

/// A record's size does not depend on the order in which its fields are
/// declared: two records with the same fields, each value with the same field
/// sizes, in any order, have the same size.
pub proof fn lemma_product_size_ignores_field_order(
    f: SizeFormula,
    g: SizeFormula,
    a: HeldFields,
    b: HeldFields,
)
    requires
        f is Product,
        g is Product,
        names_view(f->Product_fields@).to_multiset() == names_view(g->Product_fields@).to_multiset(),
        f.spec_accepts(a),
        g.spec_accepts(b),
        a.sizes@.to_multiset() == b.sizes@.to_multiset(),
    ensures
        f.spec_size_of(a) == g.spec_size_of(b),
{
    assert(a.sizes@.take(a.sizes@.len() as int) =~= a.sizes@);
    assert(b.sizes@.take(b.sizes@.len() as int) =~= b.sizes@);
    lemma_sum_sizes_reordered(a.sizes@, b.sizes@);
}

/// A tagged union's size depends only on the variant a value holds: two
/// formulas that agree on that variant's fields give the value the same size,
/// whatever their other variants are.
pub proof fn lemma_sum_size_ignores_other_variants(f: SizeFormula, g: SizeFormula, value: HeldFields)
    requires
        f is Sum,
        g is Sum,
        f.spec_accepts(value),
        value.variant < g->variants@.len(),
        names_view(f->variants@[value.variant as int].fields@) == names_view(
            g->variants@[value.variant as int].fields@,
        ),
    ensures
        g.spec_accepts(value),
        f.spec_size_of(value) == g.spec_size_of(value),
{
    let k = value.variant as int;
    assert(names_view(f->variants@[k].fields@).len() == f->variants@[k].fields@.len());
    assert(names_view(g->variants@[k].fields@).len() == g->variants@[k].fields@.len());
}

} // verus!
