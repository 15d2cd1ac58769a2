//! Derivation engine for a sized capability.
//!
//! Given the definition of a product type, the engine derives an
//! implementation of `::buf_sized::BufSized`, a capability exposing one
//! compile-time constant (`BUF_SIZE`) equal to the type's total fixed
//! size: the sum of the `BUF_SIZE` constants of its field types.
//!
//! The engine is a strictly linear pipeline over a parsed type
//! definition: bound augmentation (every generic type parameter must
//! itself provide the capability), field aggregation (one additive term
//! per field, in declaration order), and emission (the capability
//! implementation as source text). Sum and union types are rejected with
//! [`model::DeriveError::UnsupportedKind`] and produce no output at all.

pub mod aggregate;
pub mod bounds;
pub mod emit;
pub mod model;

use vstd::prelude::*;

use crate::aggregate::{agg_terms, sum_buf_size};
use crate::bounds::{add_trait_bounds, augment_params, capability_bound};
use crate::emit::{
    emit, expr_text, impl_generics_text, impl_text, ty_generics_text, where_text,
};
use crate::model::{DeriveError, TypeDef, TypeDefView, TypeKind, supported_kind};

verus! {

/// What one generation request yields for the definition `d`: the full
/// emitted implementation for a product type — name, augmented generics,
/// `where` clause and accumulation expression — or `UnsupportedKind` and
/// no output at all for a sum or union type.
pub open spec fn generate_text(d: TypeDefView) -> Result<Seq<char>, DeriveError> {
    match agg_terms(d.kind, d.fields) {
        Ok(terms) => Ok(
            impl_text(
                d.name,
                augment_params(d.generics, capability_bound()),
                d.where_clause,
                terms,
            ),
        ),
        Err(e) => Err(e),
    }
}

/// Derive the sized-capability implementation for one parsed type
/// definition.
///
/// For any product layout this succeeds and returns the emitted source
/// text; for a sum or union type it fails with `UnsupportedKind` and
/// returns no output at all.
pub fn buf_sized(input: TypeDef) -> (r: Result<String, DeriveError>)
    ensures
        r is Ok <==> supported_kind(input@.kind),
        match r {
            Ok(s) => generate_text(input@) == Ok::<Seq<char>, DeriveError>(s@),
            Err(e) => generate_text(input@) == Err::<Seq<char>, DeriveError>(e),
        },
{
    let TypeDef { name, generics, where_clause, kind, fields } = input;
    let generics = add_trait_bounds(generics, "::buf_sized::BufSized");
    let expr = match sum_buf_size(&kind, &fields) {
        Ok(e) => e,
        Err(e) => {
            return Err(e);
        },
    };
    Ok(emit(&name, &generics, &where_clause, &expr))
}

/// Generation is deterministic: its outcome is a pure function of the
/// parsed type definition, so repeated generation on identical input
/// yields identical output.
pub proof fn lemma_deterministic(a: TypeDefView, b: TypeDefView)
    requires
        a == b,
    ensures
        generate_text(a) == generate_text(b),
{
}

/// A sum or union type never yields an emitted implementation: whatever
/// its field contents, generation fails with `UnsupportedKind`.
pub proof fn lemma_unsupported_no_output(d: TypeDefView)
    requires
        d.kind == TypeKind::Sum || d.kind == TypeKind::Union,
    ensures
        generate_text(d) == Err::<Seq<char>, DeriveError>(DeriveError::UnsupportedKind),
{
}

/// `needle` occurs in `hay` as one contiguous run of characters.
pub open spec fn contains_seq(hay: Seq<char>, needle: Seq<char>) -> bool {
    exists|i: int|
        0 <= i && i + needle.len() <= hay.len() && #[trigger] hay.subrange(i, i + needle.len())
            == needle
}

proof fn lemma_contains_concat_left(prefix: Seq<char>, needle: Seq<char>)
    ensures
        contains_seq(prefix + needle, needle),
{
    let hay = prefix + needle;
    let i = prefix.len() as int;
    assert(hay.subrange(i, i + needle.len()) =~= needle);
}

proof fn lemma_contains_extend_right(hay: Seq<char>, needle: Seq<char>, suffix: Seq<char>)
    requires
        contains_seq(hay, needle),
    ensures
        contains_seq(hay + suffix, needle),
{
    let i = choose|i: int|
        0 <= i && i + needle.len() <= hay.len() && #[trigger] hay.subrange(i, i + needle.len())
            == needle;
    assert((hay + suffix).subrange(i, i + needle.len()) =~= hay.subrange(i, i + needle.len()));
}

/// The augmented generic signature appears verbatim in the emitted
/// implementation: for any supported type, generation succeeds and the
/// emitted text contains the rendered augmented parameter list — in
/// which, by [`bounds::lemma_augment_keeps_bounds`], every type
/// parameter keeps its original constraints and gains exactly the
/// capability constraint.
pub proof fn lemma_augmented_signature_emitted(d: TypeDefView)
    requires
        supported_kind(d.kind),
    ensures
        generate_text(d) is Ok,
        contains_seq(
            generate_text(d)->Ok_0,
            impl_generics_text(augment_params(d.generics, capability_bound())),
        ),
{
    let aug = augment_params(d.generics, capability_bound());
    let sig = impl_generics_text(aug);
    let terms = agg_terms(d.kind, d.fields)->Ok_0;
    let t2 = "impl"@ + sig;
    lemma_contains_concat_left("impl"@, sig);
    let t3 = t2 + " ::buf_sized::BufSized for "@;
    lemma_contains_extend_right(t2, sig, " ::buf_sized::BufSized for "@);
    let t4 = t3 + d.name;
    lemma_contains_extend_right(t3, sig, d.name);
    let t5 = t4 + ty_generics_text(aug);
    lemma_contains_extend_right(t4, sig, ty_generics_text(aug));
    let t6 = t5 + where_text(d.where_clause);
    lemma_contains_extend_right(t5, sig, where_text(d.where_clause));
    let t7 = t6 + " { const BUF_SIZE: usize = "@;
    lemma_contains_extend_right(t6, sig, " { const BUF_SIZE: usize = "@);
    let t8 = t7 + expr_text(terms);
    lemma_contains_extend_right(t7, sig, expr_text(terms));
    let t9 = t8 + "; }"@;
    lemma_contains_extend_right(t8, sig, "; }"@);
    assert(t9 == impl_text(d.name, aug, d.where_clause, terms));
    assert(generate_text(d)->Ok_0 == t9);
}

} // verus!
