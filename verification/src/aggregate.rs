//! Field aggregation: the engine's one decision point.
//!
//! A product type's fields are walked once, in declaration order, and
//! each contributes one additive term — the sized-capability constant of
//! its declared type — to an accumulation expression. A type with no
//! fields contributes nothing, so its expression is the constant zero.
//! Sum and union types are rejected outright.

use vstd::prelude::*;

use crate::model::{DeriveError, Field, FieldView, TypeKind, field_views};

verus! {

/// An accumulation expression: an ordered sequence of terms, one per
/// field, each the text of that field's declared type. The expression
/// stands for `0 + term_0's constant + term_1's constant + ...`; with no
/// terms it is the constant zero.
#[derive(Debug)]
pub struct SizeExpr {
    pub terms: Vec<String>,
}

impl View for SizeExpr {
    type V = Seq<Seq<char>>;

    open spec fn view(&self) -> Seq<Seq<char>> {
        crate::model::string_views(self.terms@)
    }
}

/// The terms that a field list contributes: the declared type of each
/// field, in declaration order.
pub open spec fn field_terms(fields: Seq<FieldView>) -> Seq<Seq<char>> {
    fields.map_values(|f: FieldView| f.ty)
}

/// What aggregation yields for a given structural kind and field list:
/// one term per field for either product layout, no terms for a fieldless
/// type, and `UnsupportedKind` for a sum or union type.
pub open spec fn agg_terms(kind: TypeKind, fields: Seq<FieldView>) -> Result<
    Seq<Seq<char>>,
    DeriveError,
> {
    match kind {
        TypeKind::Named => Ok(field_terms(fields)),
        TypeKind::Positional => Ok(field_terms(fields)),
        TypeKind::NoFields => Ok(Seq::empty()),
        TypeKind::Sum => Err(DeriveError::UnsupportedKind),
        TypeKind::Union => Err(DeriveError::UnsupportedKind),
    }
}

impl SizeExpr {
    /// The empty accumulation expression: the constant zero.
    pub fn new() -> (r: SizeExpr)
        ensures
            r@ == Seq::<Seq<char>>::empty(),
    {
        let r = SizeExpr { terms: Vec::new() };
        proof {
            assert(r@ =~= Seq::<Seq<char>>::empty());
        }
        r
    }

    /// Append one term for a declared type.
    pub fn add_type(&mut self, ty: &String)
        ensures
            final(self)@ == old(self)@.push(ty@),
    {
        let ghost before = self@;
        self.terms.push(ty.clone());
        proof {
            assert(self@ =~= before.push(ty@));
        }
    }

    /// Append the term for one field: the constant of its declared type.
    pub fn add_field(&mut self, field: &Field)
        ensures
            final(self)@ == old(self)@.push(field@.ty),
    {
        self.add_type(&field.ty);
    }

    /// Append one term per field, in declaration order.
    pub fn add_fields(&mut self, fields: &Vec<Field>)
        ensures
            final(self)@ == old(self)@ + field_terms(field_views(fields@)),
    {
        let ghost fvs = field_views(fields@);
        for i in 0..fields.len()
            invariant
                fvs == field_views(fields@),
                self@ == old(self)@ + field_terms(fvs.take(i as int)),
        {
            self.add_field(&fields[i]);
            proof {
                assert(fvs.take(i + 1 as int) =~= fvs.take(i as int).push(fvs[i as int]));
                assert(field_terms(fvs.take(i + 1 as int)) =~= field_terms(fvs.take(i as int)).push(
                    fvs[i as int].ty,
                ));
                assert(self@ =~= old(self)@ + field_terms(fvs.take(i + 1 as int)));
            }
        }
        proof {
            assert(fvs.take(fields@.len() as int) =~= fvs);
        }
    }
}

/// Walk the type's data layout and build its accumulation expression.
///
/// Either product layout yields one term per field in declaration order;
/// a fieldless type yields the empty (zero) expression; a sum or union
/// type yields `UnsupportedKind` and no expression at all.
pub fn sum_buf_size(kind: &TypeKind, fields: &Vec<Field>) -> (r: Result<SizeExpr, DeriveError>)
    ensures
        match r {
            Ok(e) => agg_terms(*kind, field_views(fields@)) == Ok::<Seq<Seq<char>>, DeriveError>(
                e@,
            ),
            Err(e) => agg_terms(*kind, field_views(fields@)) == Err::<
                Seq<Seq<char>>,
                DeriveError,
            >(e),
        },
        r is Err <==> !crate::model::supported_kind(*kind),
{
    let mut result = SizeExpr::new();
    match kind {
        TypeKind::Named => {
            result.add_fields(fields);
            Ok(result)
        },
        TypeKind::Positional => {
            result.add_fields(fields);
            Ok(result)
        },
        TypeKind::NoFields => Ok(result),
        TypeKind::Sum => Err(DeriveError::UnsupportedKind),
        TypeKind::Union => Err(DeriveError::UnsupportedKind),
    }
}

/// A product type with `N` fields yields exactly `N` additive terms
/// beyond the leading zero, ordered by field declaration order: the
/// `i`-th term is the declared type of the `i`-th field.
pub proof fn lemma_term_per_field(kind: TypeKind, fields: Seq<FieldView>)
    requires
        kind == TypeKind::Named || kind == TypeKind::Positional,
    ensures
        agg_terms(kind, fields) is Ok,
        agg_terms(kind, fields)->Ok_0.len() == fields.len(),
        forall|i: int| 0 <= i < fields.len() ==> agg_terms(kind, fields)->Ok_0[i] == fields[i].ty,
{
}

/// A type with zero fields — fieldless, or a product layout whose field
/// list is empty — yields the accumulation expression with no terms,
/// which renders as the constant zero.
pub proof fn lemma_zero_fields(kind: TypeKind, fields: Seq<FieldView>)
    requires
        crate::model::supported_kind(kind),
        fields.len() == 0,
    ensures
        agg_terms(kind, fields) == Ok::<Seq<Seq<char>>, DeriveError>(Seq::<Seq<char>>::empty()),
        crate::emit::expr_text(Seq::<Seq<char>>::empty()) == "0usize"@,
{
    assert(field_terms(fields) =~= Seq::<Seq<char>>::empty());
}

/// Positional fields are aggregated exactly as named fields are: the
/// terms depend only on each field's declared type and position, never
/// on its name.
pub proof fn lemma_positional_matches_named(fields: Seq<FieldView>)
    ensures
        agg_terms(TypeKind::Positional, fields) == agg_terms(TypeKind::Named, fields),
{
}

/// A sum or union type always yields `UnsupportedKind`, regardless of
/// field contents.
pub proof fn lemma_unsupported_kind(kind: TypeKind, fields: Seq<FieldView>)
    requires
        kind == TypeKind::Sum || kind == TypeKind::Union,
    ensures
        agg_terms(kind, fields) == Err::<Seq<Seq<char>>, DeriveError>(DeriveError::UnsupportedKind),
{
}

} // verus!
