//! Bound augmentation: make recursive composition type-check.
//!
//! Every generic type parameter of the target type may itself appear as
//! a field type, so each one must provide the sized capability too. This
//! stage appends that one constraint to every type parameter and leaves
//! lifetime and const parameters untouched. It is a pure, total
//! transformation: it cannot fail.

use vstd::prelude::*;

use crate::model::{GenericParam, GenericParamView, param_views};

verus! {

/// The path of the sized capability, as it is appended to each type
/// parameter's bounds and named in every emitted term.
pub open spec fn capability_bound() -> Seq<char> {
    "::buf_sized::BufSized"@
}

/// One parameter after augmentation: a type parameter keeps its original
/// bounds and gains `bound` as one more; any other parameter is
/// unchanged.
pub open spec fn augment_param(p: GenericParamView, bound: Seq<char>) -> GenericParamView {
    match p {
        GenericParamView::TypeParam { ident, bounds } => GenericParamView::TypeParam {
            ident,
            bounds: bounds.push(bound),
        },
        _ => p,
    }
}

/// A whole parameter list after augmentation, element by element.
pub open spec fn augment_params(ps: Seq<GenericParamView>, bound: Seq<char>) -> Seq<
    GenericParamView,
> {
    ps.map_values(|p: GenericParamView| augment_param(p, bound))
}

/// Append the capability constraint `trait_name` to every generic type
/// parameter; lifetime and const parameters pass through unchanged.
pub fn add_trait_bounds(generics: Vec<GenericParam>, trait_name: &str) -> (r: Vec<GenericParam>)
    ensures
        param_views(r@) == augment_params(param_views(generics@), trait_name@),
{
    let ghost orig = param_views(generics@);
    let mut rest = generics;
    let mut out: Vec<GenericParam> = Vec::new();
    proof {
        assert(param_views(out@) =~= augment_params(orig.take(0), trait_name@));
        assert(param_views(rest@) =~= orig.skip(0));
    }
    while rest.len() > 0
        invariant
            out@.len() + rest@.len() == orig.len(),
            param_views(out@) == augment_params(orig.take(out@.len() as int), trait_name@),
            param_views(rest@) == orig.skip(out@.len() as int),
        decreases rest.len(),
    {
        let ghost k = out@.len() as int;
        let ghost prev_rest = rest@;
        let p = rest.remove(0);
        proof {
            assert(param_views(prev_rest)[0] == prev_rest[0]@);
            assert(p@ == orig.skip(k)[0]);
            assert(p@ == orig[k]);
            assert forall|i: int| 0 <= i < rest@.len() implies param_views(rest@)[i] == orig.skip(
                k + 1,
            )[i] by {
                assert(rest@[i] == prev_rest[i + 1]);
                assert(param_views(prev_rest)[i + 1] == prev_rest[i + 1]@);
                assert(orig.skip(k)[i + 1] == orig[k + 1 + i]);
            };
            assert(param_views(rest@) =~= orig.skip(k + 1));
        }
        let q = match p {
            GenericParam::TypeParam { ident, bounds } => {
                let mut bs = bounds;
                bs.push(trait_name.to_owned());
                GenericParam::TypeParam { ident, bounds: bs }
            },
            GenericParam::Lifetime { ident, bounds } => GenericParam::Lifetime { ident, bounds },
            GenericParam::ConstParam { ident, ty } => GenericParam::ConstParam { ident, ty },
        };
        proof {
            assert(q@ =~= augment_param(orig[k], trait_name@));
        }
        let ghost prev_out = out@;
        out.push(q);
        proof {
            assert forall|i: int| 0 <= i < out@.len() implies param_views(out@)[i]
                == augment_params(orig.take(k + 1), trait_name@)[i] by {
                assert(augment_params(orig.take(k + 1), trait_name@)[i] == augment_param(
                    orig.take(k + 1)[i],
                    trait_name@,
                ));
                if i < k {
                    assert(out@[i] == prev_out[i]);
                    assert(param_views(prev_out)[i] == prev_out[i]@);
                    assert(augment_params(orig.take(k), trait_name@)[i] == augment_param(
                        orig.take(k)[i],
                        trait_name@,
                    ));
                } else {
                    assert(out@[i] == q);
                }
            };
            assert(param_views(out@) =~= augment_params(orig.take(k + 1), trait_name@));
        }
    }
    proof {
        assert(orig.take(orig.len() as int) =~= orig);
    }
    out
}

/// Augmentation keeps every parameter in place: the list keeps its
/// length and order; each type parameter keeps its original bounds, in
/// order, and gains exactly the capability constraint as one more; every
/// lifetime and const parameter is left untouched.
pub proof fn lemma_augment_keeps_bounds(ps: Seq<GenericParamView>, bound: Seq<char>)
    ensures
        augment_params(ps, bound).len() == ps.len(),
        forall|i: int| 0 <= i < ps.len() ==> augment_params(ps, bound)[i] == augment_param(
            ps[i],
            bound,
        ),
        forall|i: int|
            0 <= i < ps.len() && !(ps[i] is TypeParam) ==> augment_params(ps, bound)[i] == ps[i],
        forall|i: int|
            0 <= i < ps.len() && ps[i] is TypeParam ==> {
                let q = augment_params(ps, bound)[i];
                &&& q is TypeParam
                &&& q->TypeParam_ident == ps[i]->TypeParam_ident
                &&& q->TypeParam_bounds == ps[i]->TypeParam_bounds.push(bound)
            },
{
}

} // verus!
