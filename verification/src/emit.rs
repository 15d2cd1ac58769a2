//! Emission: assemble the capability implementation as source text.
//!
//! The emitted fragment declares one implementation of the sized
//! capability for the exact type name and generic signature it was
//! given: the augmented generics render before the capability path, the
//! type's own parameter names after it, a pre-existing `where` clause is
//! carried verbatim, and the accumulation expression becomes the value
//! of the capability's constant. Emission performs no I/O and cannot
//! fail.

use vstd::prelude::*;
use vstd::string::StringExecFns;

use crate::model::{GenericParam, GenericParamView, param_views, string_views, opt_view};

verus! {

/// `parts` joined with the separator `sep` between neighbours.
pub open spec fn join_text(parts: Seq<Seq<char>>, sep: Seq<char>) -> Seq<char>
    decreases parts.len(),
{
    if parts.len() == 0 {
        Seq::empty()
    } else if parts.len() == 1 {
        parts[0]
    } else {
        join_text(parts.drop_last(), sep) + sep + parts.last()
    }
}

/// One generic parameter as it renders inside the implementation's own
/// parameter list: its identifier with all of its bounds.
pub open spec fn param_impl_text(p: GenericParamView) -> Seq<char> {
    match p {
        GenericParamView::TypeParam { ident, bounds } => if bounds.len() == 0 {
            ident
        } else {
            ident + ": "@ + join_text(bounds, " + "@)
        },
        GenericParamView::Lifetime { ident, bounds } => if bounds.len() == 0 {
            ident
        } else {
            ident + ": "@ + join_text(bounds, " + "@)
        },
        GenericParamView::ConstParam { ident, ty } => "const "@ + ident + ": "@ + ty,
    }
}

/// One generic parameter as it renders after the type's name: its bare
/// identifier.
pub open spec fn param_ty_text(p: GenericParamView) -> Seq<char> {
    match p {
        GenericParamView::TypeParam { ident, .. } => ident,
        GenericParamView::Lifetime { ident, .. } => ident,
        GenericParamView::ConstParam { ident, .. } => ident,
    }
}

/// The implementation's generic parameter list: empty for a type with no
/// generics, otherwise the full parameters in angle brackets.
pub open spec fn impl_generics_text(ps: Seq<GenericParamView>) -> Seq<char> {
    if ps.len() == 0 {
        Seq::empty()
    } else {
        "<"@ + join_text(ps.map_values(|p: GenericParamView| param_impl_text(p)), ", "@) + ">"@
    }
}

/// The parameter list after the type's name: empty for a type with no
/// generics, otherwise the bare parameter names in angle brackets.
pub open spec fn ty_generics_text(ps: Seq<GenericParamView>) -> Seq<char> {
    if ps.len() == 0 {
        Seq::empty()
    } else {
        "<"@ + join_text(ps.map_values(|p: GenericParamView| param_ty_text(p)), ", "@) + ">"@
    }
}

/// One additive term of the accumulation expression: the sized-capability
/// constant of the declared type `ty`.
pub open spec fn term_text(ty: Seq<char>) -> Seq<char> {
    " + <"@ + ty + " as ::buf_sized::BufSized>::BUF_SIZE"@
}

/// The accumulation expression: the literal zero, followed by one
/// additive term per field type, in order.
pub open spec fn expr_text(terms: Seq<Seq<char>>) -> Seq<char>
    decreases terms.len(),
{
    if terms.len() == 0 {
        "0usize"@
    } else {
        expr_text(terms.drop_last()) + term_text(terms.last())
    }
}

/// A pre-existing `where` clause, carried verbatim after the type, or
/// nothing.
pub open spec fn where_text(wc: Option<Seq<char>>) -> Seq<char> {
    match wc {
        Some(w) => " "@ + w,
        None => Seq::empty(),
    }
}

/// The whole emitted implementation for type `name` with (augmented)
/// generic parameters `ps`, optional `where` clause `wc` and
/// accumulation terms `terms`.
pub open spec fn impl_text(
    name: Seq<char>,
    ps: Seq<GenericParamView>,
    wc: Option<Seq<char>>,
    terms: Seq<Seq<char>>,
) -> Seq<char> {
    "impl"@ + impl_generics_text(ps) + " ::buf_sized::BufSized for "@ + name + ty_generics_text(ps)
        + where_text(wc) + " { const BUF_SIZE: usize = "@ + expr_text(terms) + "; }"@
}

/// Join the strings of `parts` with `sep` between neighbours.
fn join_with(parts: &Vec<String>, sep: &str) -> (r: String)
    ensures
        r@ == join_text(string_views(parts@), sep@),
{
    let ghost vs = string_views(parts@);
    let mut r = String::new();
    proof {
        assert(vs.take(0) =~= Seq::<Seq<char>>::empty());
    }
    for i in 0..parts.len()
        invariant
            vs == string_views(parts@),
            r@ == join_text(vs.take(i as int), sep@),
    {
        if i > 0 {
            r.append(sep);
        }
        r.append(parts[i].as_str());
        proof {
            assert(vs[i as int] == parts@[i as int]@);
            if i == 0 {
                assert(vs.take(1)[0] == vs[0]);
                assert(join_text(vs.take(1), sep@) == vs[0]);
            } else {
                assert(vs.take(i + 1).drop_last() =~= vs.take(i as int));
                assert(vs.take(i + 1).last() == vs[i as int]);
            }
        }
    }
    proof {
        assert(vs.take(parts@.len() as int) =~= vs);
    }
    r
}

/// Render one generic parameter with its bounds, for the
/// implementation's parameter list.
fn render_param_impl(p: &GenericParam) -> (r: String)
    ensures
        r@ == param_impl_text(p@),
{
    match p {
        GenericParam::TypeParam { ident, bounds } => {
            let mut r = ident.clone();
            if bounds.len() > 0 {
                r.append(": ");
                let joined = join_with(bounds, " + ");
                r.append(joined.as_str());
            }
            r
        },
        GenericParam::Lifetime { ident, bounds } => {
            let mut r = ident.clone();
            if bounds.len() > 0 {
                r.append(": ");
                let joined = join_with(bounds, " + ");
                r.append(joined.as_str());
            }
            r
        },
        GenericParam::ConstParam { ident, ty } => {
            let mut r = String::from_str("const ");
            r.append(ident.as_str());
            r.append(": ");
            r.append(ty.as_str());
            r
        },
    }
}

/// Render one generic parameter as its bare identifier, for the
/// parameter list after the type's name.
fn render_param_ty(p: &GenericParam) -> (r: String)
    ensures
        r@ == param_ty_text(p@),
{
    match p {
        GenericParam::TypeParam { ident, .. } => ident.clone(),
        GenericParam::Lifetime { ident, .. } => ident.clone(),
        GenericParam::ConstParam { ident, .. } => ident.clone(),
    }
}

/// Render the implementation's generic parameter list.
fn render_impl_generics(ps: &Vec<GenericParam>) -> (r: String)
    ensures
        r@ == impl_generics_text(param_views(ps@)),
{
    let ghost pvs = param_views(ps@);
    if ps.len() == 0 {
        return String::new();
    }
    let mut parts: Vec<String> = Vec::new();
    for i in 0..ps.len()
        invariant
            pvs == param_views(ps@),
            parts@.len() == i,
            forall|j: int| 0 <= j < i ==> string_views(parts@)[j] == param_impl_text(pvs[j]),
    {
        let ghost prev = parts@;
        let part = render_param_impl(&ps[i]);
        parts.push(part);
        proof {
            assert(pvs[i as int] == ps@[i as int]@);
            assert forall|j: int| 0 <= j < i + 1 implies string_views(parts@)[j] == param_impl_text(
                pvs[j],
            ) by {
                if j < i {
                    assert(parts@[j] == prev[j]);
                    assert(string_views(prev)[j] == prev[j]@);
                }
            };
        }
    }
    proof {
        assert(string_views(parts@) =~= pvs.map_values(|p: GenericParamView| param_impl_text(p)));
    }
    let joined = join_with(&parts, ", ");
    let mut r = String::from_str("<");
    r.append(joined.as_str());
    r.append(">");
    r
}

/// Render the parameter list that follows the type's name.
fn render_ty_generics(ps: &Vec<GenericParam>) -> (r: String)
    ensures
        r@ == ty_generics_text(param_views(ps@)),
{
    let ghost pvs = param_views(ps@);
    if ps.len() == 0 {
        return String::new();
    }
    let mut parts: Vec<String> = Vec::new();
    for i in 0..ps.len()
        invariant
            pvs == param_views(ps@),
            parts@.len() == i,
            forall|j: int| 0 <= j < i ==> string_views(parts@)[j] == param_ty_text(pvs[j]),
    {
        let ghost prev = parts@;
        let part = render_param_ty(&ps[i]);
        parts.push(part);
        proof {
            assert(pvs[i as int] == ps@[i as int]@);
            assert forall|j: int| 0 <= j < i + 1 implies string_views(parts@)[j] == param_ty_text(
                pvs[j],
            ) by {
                if j < i {
                    assert(parts@[j] == prev[j]);
                    assert(string_views(prev)[j] == prev[j]@);
                }
            };
        }
    }
    proof {
        assert(string_views(parts@) =~= pvs.map_values(|p: GenericParamView| param_ty_text(p)));
    }
    let joined = join_with(&parts, ", ");
    let mut r = String::from_str("<");
    r.append(joined.as_str());
    r.append(">");
    r
}

/// Render the accumulation expression: the literal zero, then one term
/// per field type, in order.
fn render_expr(expr: &crate::aggregate::SizeExpr) -> (r: String)
    ensures
        r@ == expr_text(expr@),
{
    let ghost ts = expr@;
    let mut r = String::from_str("0usize");
    proof {
        assert(ts.take(0) =~= Seq::<Seq<char>>::empty());
    }
    for i in 0..expr.terms.len()
        invariant
            ts == expr@,
            r@ == expr_text(ts.take(i as int)),
    {
        r.append(" + <");
        r.append(expr.terms[i].as_str());
        r.append(" as ::buf_sized::BufSized>::BUF_SIZE");
        proof {
            assert(ts[i as int] == expr.terms@[i as int]@);
            assert(ts.take(i + 1).drop_last() =~= ts.take(i as int));
            assert(ts.take(i + 1).last() == ts[i as int]);
        }
    }
    proof {
        assert(ts.take(expr.terms@.len() as int) =~= ts);
    }
    r
}

/// Assemble the emitted implementation: the type's name, the augmented
/// generics, a pre-existing `where` clause if any, and the accumulation
/// expression bound to the capability's constant. Always succeeds.
pub fn emit(
    name: &String,
    generics: &Vec<GenericParam>,
    where_clause: &Option<String>,
    expr: &crate::aggregate::SizeExpr,
) -> (r: String)
    ensures
        r@ == impl_text(name@, param_views(generics@), opt_view(*where_clause), expr@),
{
    let mut r = String::from_str("impl");
    let ig = render_impl_generics(generics);
    r.append(ig.as_str());
    r.append(" ::buf_sized::BufSized for ");
    r.append(name.as_str());
    let tg = render_ty_generics(generics);
    r.append(tg.as_str());
    let ghost mid = r@;
    match where_clause {
        Some(w) => {
            r.append(" ");
            r.append(w.as_str());
        },
        None => {
            proof {
                assert(mid + where_text(opt_view(*where_clause)) =~= mid);
            }
        },
    }
    proof {
        assert(r@ == mid + where_text(opt_view(*where_clause)));
    }
    r.append(" { const BUF_SIZE: usize = ");
    let e = render_expr(expr);
    r.append(e.as_str());
    r.append("; }");
    r
}

} // verus!
