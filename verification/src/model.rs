//! Data model of the derivation engine.
//!
//! A parsed type definition arrives here as plain values: the type's name,
//! its generic parameters, its structural kind and its fields, with every
//! identifier and type expression carried as text. The engine only ever
//! reads this data; it never parses or validates syntax.

use vstd::prelude::*;

verus! {

/// One field of a product type: an optional name (present for record
/// fields, absent for positional ones) and the text of its declared type.
#[derive(Debug)]
pub struct Field {
    pub name: Option<String>,
    pub ty: String,
}

/// Mathematical view of a [`Field`]: the same data over sequences of
/// characters.
#[verifier::ext_equal]
pub struct FieldView {
    pub name: Option<Seq<char>>,
    pub ty: Seq<char>,
}

impl View for Field {
    type V = FieldView;

    open spec fn view(&self) -> FieldView {
        FieldView {
            name: match self.name {
                Some(n) => Some(n@),
                None => None,
            },
            ty: self.ty@,
        }
    }
}

/// One generic parameter of the input type. Only type parameters are ever
/// touched by bound augmentation; lifetime and const parameters pass
/// through the engine unchanged.
#[derive(Debug)]
pub enum GenericParam {
    /// A type parameter with its pre-existing bounds, each bound carried
    /// as text.
    TypeParam { ident: String, bounds: Vec<String> },
    /// A lifetime parameter with its pre-existing bounds.
    Lifetime { ident: String, bounds: Vec<String> },
    /// A const parameter and the text of its type.
    ConstParam { ident: String, ty: String },
}

/// Mathematical view of a [`GenericParam`].
#[verifier::ext_equal]
pub enum GenericParamView {
    TypeParam { ident: Seq<char>, bounds: Seq<Seq<char>> },
    Lifetime { ident: Seq<char>, bounds: Seq<Seq<char>> },
    ConstParam { ident: Seq<char>, ty: Seq<char> },
}

impl View for GenericParam {
    type V = GenericParamView;

    open spec fn view(&self) -> GenericParamView {
        match *self {
            GenericParam::TypeParam { ref ident, ref bounds } => GenericParamView::TypeParam {
                ident: ident@,
                bounds: string_views(bounds@),
            },
            GenericParam::Lifetime { ref ident, ref bounds } => GenericParamView::Lifetime {
                ident: ident@,
                bounds: string_views(bounds@),
            },
            GenericParam::ConstParam { ref ident, ref ty } => GenericParamView::ConstParam {
                ident: ident@,
                ty: ty@,
            },
        }
    }
}

/// Structural classification of the input type's data layout.
#[derive(Debug, PartialEq, Eq, Structural, Clone, Copy)]
pub enum TypeKind {
    /// A product type with named (record) fields.
    Named,
    /// A product type with positional (tuple) fields.
    Positional,
    /// A product type with no fields at all.
    NoFields,
    /// A sum type: one of several tagged alternatives. Unsupported.
    Sum,
    /// A union type: alternatives with overlapping storage. Unsupported.
    Union,
}

/// The one failure the engine can report: the input type is a sum or a
/// union type, for which no size can be derived. Generation aborts with
/// no output at all.
#[derive(Debug, PartialEq, Eq, Structural, Clone, Copy)]
pub enum DeriveError {
    UnsupportedKind,
}

/// A parsed type definition, as handed over by the upstream parser:
/// immutable input for one generation request.
#[derive(Debug)]
pub struct TypeDef {
    /// The type's name.
    pub name: String,
    /// Its generic parameters, in declaration order.
    pub generics: Vec<GenericParam>,
    /// A pre-existing `where` clause, carried verbatim, if there is one.
    pub where_clause: Option<String>,
    /// The structural kind of its data layout.
    pub kind: TypeKind,
    /// Its fields, in declaration order.
    pub fields: Vec<Field>,
}

/// Mathematical view of a [`TypeDef`].
#[verifier::ext_equal]
pub struct TypeDefView {
    pub name: Seq<char>,
    pub generics: Seq<GenericParamView>,
    pub where_clause: Option<Seq<char>>,
    pub kind: TypeKind,
    pub fields: Seq<FieldView>,
}

impl View for TypeDef {
    type V = TypeDefView;

    open spec fn view(&self) -> TypeDefView {
        TypeDefView {
            name: self.name@,
            generics: param_views(self.generics@),
            where_clause: opt_view(self.where_clause),
            kind: self.kind,
            fields: field_views(self.fields@),
        }
    }
}

/// The views of a sequence of generic parameters, element by element.
pub open spec fn param_views(ps: Seq<GenericParam>) -> Seq<GenericParamView> {
    ps.map_values(|p: GenericParam| p@)
}

/// The views of a sequence of fields, element by element.
pub open spec fn field_views(fs: Seq<Field>) -> Seq<FieldView> {
    fs.map_values(|f: Field| f@)
}

/// The views of a sequence of strings, element by element.
pub open spec fn string_views(ss: Seq<String>) -> Seq<Seq<char>> {
    ss.map_values(|s: String| s@)
}

/// The view of an optional string.
pub open spec fn opt_view(o: Option<String>) -> Option<Seq<char>> {
    match o {
        Some(s) => Some(s@),
        None => None,
    }
}

/// Whether the engine supports this structural kind: every product layout
/// is supported, sum and union layouts are not.
pub open spec fn supported_kind(kind: TypeKind) -> bool {
    match kind {
        TypeKind::Named => true,
        TypeKind::Positional => true,
        TypeKind::NoFields => true,
        TypeKind::Sum => false,
        TypeKind::Union => false,
    }
}

} // verus!
