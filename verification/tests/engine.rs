use buf_sized::aggregate::sum_buf_size;
use buf_sized::bounds::add_trait_bounds;
use buf_sized::buf_sized;
use buf_sized::model::{DeriveError, Field, GenericParam, TypeDef, TypeKind};

const CAPABILITY: &str = "::buf_sized::BufSized";

fn named_field(name: &str, ty: &str) -> Field {
    Field { name: Some(name.to_string()), ty: ty.to_string() }
}

fn positional_field(ty: &str) -> Field {
    Field { name: None, ty: ty.to_string() }
}

/// The capability constant of a primitive type: its byte width.
fn width(ty: &str) -> usize {
    match ty {
        "u8" | "i8" => 1,
        "u16" | "i16" => 2,
        "u32" | "i32" => 4,
        _ => panic!("no known width for {}", ty),
    }
}

/// Evaluate an accumulation expression's terms: zero plus one width per
/// term.
fn eval_terms(terms: &[String]) -> usize {
    let mut total: usize = 0;
    for t in terms {
        total += width(t);
    }
    total
}

#[test]
fn two_u32_fields_sum_to_eight() {
    let r = sum_buf_size(
        &TypeKind::Named,
        &vec![named_field("x", "u32"), named_field("y", "u32")],
    );
    let expr = r.unwrap();
    assert_eq!(expr.terms.len(), 2);
    assert_eq!(eval_terms(&expr.terms), 8);
}

#[test]
fn positional_widths_one_and_two_sum_to_three() {
    let r = sum_buf_size(
        &TypeKind::Positional,
        &vec![positional_field("u8"), positional_field("u16")],
    );
    let expr = r.unwrap();
    assert_eq!(expr.terms, vec!["u8".to_string(), "u16".to_string()]);
    assert_eq!(eval_terms(&expr.terms), 3);
}

#[test]
fn one_term_per_field_in_declaration_order() {
    let fields = vec![
        named_field("a", "u8"),
        named_field("b", "u16"),
        named_field("c", "u32"),
    ];
    let expr = sum_buf_size(&TypeKind::Named, &fields).unwrap();
    assert_eq!(
        expr.terms,
        vec!["u8".to_string(), "u16".to_string(), "u32".to_string()]
    );
}

#[test]
fn no_fields_yields_constant_zero() {
    let expr = sum_buf_size(&TypeKind::NoFields, &Vec::new()).unwrap();
    assert!(expr.terms.is_empty());
    assert_eq!(eval_terms(&expr.terms), 0);
}

#[test]
fn empty_named_field_list_yields_constant_zero() {
    let expr = sum_buf_size(&TypeKind::Named, &Vec::new()).unwrap();
    assert!(expr.terms.is_empty());
}

#[test]
fn positional_fields_aggregate_like_named_fields() {
    let named = vec![named_field("a", "u16"), named_field("b", "u32")];
    let positional = vec![positional_field("u16"), positional_field("u32")];
    let n = sum_buf_size(&TypeKind::Named, &named).unwrap();
    let p = sum_buf_size(&TypeKind::Positional, &positional).unwrap();
    assert_eq!(n.terms, p.terms);
}

#[test]
fn sum_type_fails_with_unsupported_kind() {
    let r = sum_buf_size(
        &TypeKind::Sum,
        &vec![positional_field("u8"), positional_field("u32")],
    );
    assert!(matches!(r, Err(DeriveError::UnsupportedKind)));
}

#[test]
fn union_type_fails_with_unsupported_kind() {
    let r = sum_buf_size(&TypeKind::Union, &vec![named_field("a", "u32")]);
    assert!(matches!(r, Err(DeriveError::UnsupportedKind)));
}

#[test]
fn sum_type_emits_nothing() {
    let def = TypeDef {
        name: "Either".to_string(),
        generics: Vec::new(),
        where_clause: None,
        kind: TypeKind::Sum,
        fields: vec![positional_field("u8"), positional_field("u16")],
    };
    assert_eq!(buf_sized(def), Err(DeriveError::UnsupportedKind));
}

#[test]
fn type_parameter_gains_capability_bound() {
    let generics = vec![GenericParam::TypeParam {
        ident: "T".to_string(),
        bounds: vec!["Clone".to_string()],
    }];
    let augmented = add_trait_bounds(generics, CAPABILITY);
    assert_eq!(augmented.len(), 1);
    match &augmented[0] {
        GenericParam::TypeParam { ident, bounds } => {
            assert_eq!(ident, "T");
            assert_eq!(bounds, &vec!["Clone".to_string(), CAPABILITY.to_string()]);
        }
        _ => panic!("type parameter changed kind"),
    }
}

#[test]
fn lifetime_and_const_parameters_pass_through() {
    let generics = vec![
        GenericParam::Lifetime { ident: "'a".to_string(), bounds: Vec::new() },
        GenericParam::ConstParam { ident: "N".to_string(), ty: "usize".to_string() },
    ];
    let augmented = add_trait_bounds(generics, CAPABILITY);
    assert_eq!(augmented.len(), 2);
    match &augmented[0] {
        GenericParam::Lifetime { ident, bounds } => {
            assert_eq!(ident, "'a");
            assert!(bounds.is_empty());
        }
        _ => panic!("lifetime parameter changed kind"),
    }
    match &augmented[1] {
        GenericParam::ConstParam { ident, ty } => {
            assert_eq!(ident, "N");
            assert_eq!(ty, "usize");
        }
        _ => panic!("const parameter changed kind"),
    }
}

#[test]
fn plain_product_type_emits_full_implementation() {
    let def = TypeDef {
        name: "Pair".to_string(),
        generics: Vec::new(),
        where_clause: None,
        kind: TypeKind::Named,
        fields: vec![named_field("x", "u32"), named_field("y", "u32")],
    };
    let text = buf_sized(def).unwrap();
    assert_eq!(
        text,
        "impl ::buf_sized::BufSized for Pair { const BUF_SIZE: usize = 0usize \
         + <u32 as ::buf_sized::BufSized>::BUF_SIZE \
         + <u32 as ::buf_sized::BufSized>::BUF_SIZE; }"
    );
}

#[test]
fn generic_wrapper_requires_capability_of_parameter() {
    let def = TypeDef {
        name: "Wrapper".to_string(),
        generics: vec![GenericParam::TypeParam {
            ident: "T".to_string(),
            bounds: Vec::new(),
        }],
        where_clause: None,
        kind: TypeKind::Named,
        fields: vec![named_field("inner", "T")],
    };
    let text = buf_sized(def).unwrap();
    assert_eq!(
        text,
        "impl<T: ::buf_sized::BufSized> ::buf_sized::BufSized for Wrapper<T> \
         { const BUF_SIZE: usize = 0usize + <T as ::buf_sized::BufSized>::BUF_SIZE; }"
    );
}

#[test]
fn fieldless_type_emits_zero_constant() {
    let def = TypeDef {
        name: "Empty".to_string(),
        generics: Vec::new(),
        where_clause: None,
        kind: TypeKind::NoFields,
        fields: Vec::new(),
    };
    let text = buf_sized(def).unwrap();
    assert_eq!(
        text,
        "impl ::buf_sized::BufSized for Empty { const BUF_SIZE: usize = 0usize; }"
    );
}

#[test]
fn existing_bounds_and_where_clause_are_preserved() {
    let def = TypeDef {
        name: "Tagged".to_string(),
        generics: vec![
            GenericParam::Lifetime { ident: "'a".to_string(), bounds: Vec::new() },
            GenericParam::TypeParam {
                ident: "T".to_string(),
                bounds: vec!["Copy".to_string()],
            },
        ],
        where_clause: Some("where T: Send".to_string()),
        kind: TypeKind::Positional,
        fields: vec![positional_field("T"), positional_field("u8")],
    };
    let text = buf_sized(def).unwrap();
    assert_eq!(
        text,
        "impl<'a, T: Copy + ::buf_sized::BufSized> ::buf_sized::BufSized \
         for Tagged<'a, T> where T: Send { const BUF_SIZE: usize = 0usize \
         + <T as ::buf_sized::BufSized>::BUF_SIZE \
         + <u8 as ::buf_sized::BufSized>::BUF_SIZE; }"
    );
}

#[test]
fn const_parameter_renders_in_both_parameter_lists() {
    let def = TypeDef {
        name: "Block".to_string(),
        generics: vec![GenericParam::ConstParam {
            ident: "N".to_string(),
            ty: "usize".to_string(),
        }],
        where_clause: None,
        kind: TypeKind::Named,
        fields: vec![named_field("tag", "u8")],
    };
    let text = buf_sized(def).unwrap();
    assert_eq!(
        text,
        "impl<const N: usize> ::buf_sized::BufSized for Block<N> \
         { const BUF_SIZE: usize = 0usize + <u8 as ::buf_sized::BufSized>::BUF_SIZE; }"
    );
}

#[test]
fn repeated_generation_is_identical() {
    let make = || TypeDef {
        name: "Packet".to_string(),
        generics: vec![GenericParam::TypeParam {
            ident: "P".to_string(),
            bounds: Vec::new(),
        }],
        where_clause: None,
        kind: TypeKind::Named,
        fields: vec![named_field("header", "u32"), named_field("body", "P")],
    };
    let first = buf_sized(make());
    let second = buf_sized(make());
    assert_eq!(first, second);
    assert!(first.is_ok());
}
