use versioned_api::error::GenerateError;
use versioned_api::transform::{
    versioned_api_impl, FunctionDeclaration, IsResultType, Param, ReturnType, TypeExpr,
    Visibility,
};

fn strings(v: &[&str]) -> Vec<String> {
    v.iter().map(|s| s.to_string()).collect()
}

fn sample_declaration(output: ReturnType) -> FunctionDeclaration {
    FunctionDeclaration {
        name: "save_snapshot".to_string(),
        visibility: Visibility::Public,
        params: vec![Param::Typed {
            name: "name".to_string(),
            ty: TypeExpr::Path {
                segments: strings(&["S"]),
            },
        }],
        output,
        generics: strings(&["S"]),
        docs: strings(&["Save a snapshot with a name"]),
    }
}

#[test]
fn derived_names_are_deterministic_transformations_of_the_name() {
    let decl = sample_declaration(ReturnType::Default);
    let w = versioned_api_impl(&decl, &strings(&[">=6.0.173"]), &strings(&[])).unwrap();
    assert_eq!(w.implementation_name, "versioned_save_snapshot");
    assert_eq!(w.enabled_cell_name, "VERSIONED_ENABLED_VERSIONED_SAVE_SNAPSHOT");
    assert_eq!(w.valid_list_name, "VERSIONED_VALID_VERSIONED_SAVE_SNAPSHOT");
    assert_eq!(w.invalid_list_name, "VERSIONED_INVALID_VERSIONED_SAVE_SNAPSHOT");
}

#[test]
fn wrapper_keeps_name_visibility_generics_docs_and_requirements() {
    let decl = sample_declaration(ReturnType::Default);
    let valid = strings(&[">=6.0.173", "<7.0.0"]);
    let invalid = strings(&["=6.0.175"]);
    let w = versioned_api_impl(&decl, &valid, &invalid).unwrap();
    assert_eq!(w.visibility, Visibility::Public);
    assert_eq!(w.generics, strings(&["S"]));
    assert_eq!(w.docs, strings(&["Save a snapshot with a name"]));
    assert_eq!(w.valid, valid);
    assert_eq!(w.invalid, invalid);
    assert_eq!(w.forwarded_args, strings(&["name"]));
}

#[test]
fn plain_return_type_is_wrapped_not_passed_through() {
    let decl = sample_declaration(ReturnType::Type(TypeExpr::Path {
        segments: strings(&["u32"]),
    }));
    let w = versioned_api_impl(&decl, &strings(&[">=7.0.0"]), &strings(&[])).unwrap();
    assert!(!w.passthrough);

    let decl = sample_declaration(ReturnType::Default);
    let w = versioned_api_impl(&decl, &strings(&[">=7.0.0"]), &strings(&[])).unwrap();
    assert!(!w.passthrough);
}

#[test]
fn outcome_return_type_is_passed_through_unchanged() {
    let output = ReturnType::Type(TypeExpr::Path {
        segments: strings(&["crate", "error", "Result"]),
    });
    let decl = sample_declaration(output.clone());
    let w = versioned_api_impl(&decl, &strings(&[">=7.0.0"]), &strings(&[])).unwrap();
    assert!(w.passthrough);
    assert_eq!(w.output, output);
}

#[test]
fn the_result_heuristic_is_purely_name_based() {
    assert!(!ReturnType::Default.is_result_type());
    assert!(ReturnType::Type(TypeExpr::Path {
        segments: strings(&["Result"]),
    })
    .is_result_type());
    assert!(ReturnType::Type(TypeExpr::Path {
        segments: strings(&["some", "unrelated", "Result"]),
    })
    .is_result_type());
    assert!(!ReturnType::Type(TypeExpr::Path {
        segments: strings(&["MyResult"]),
    })
    .is_result_type());
    assert!(!ReturnType::Type(TypeExpr::Other {
        text: "(Result, u8)".to_string(),
    })
    .is_result_type());
}

#[test]
fn receiver_parameters_are_rejected_at_generation_time() {
    let mut decl = sample_declaration(ReturnType::Default);
    decl.params.insert(0, Param::Receiver);
    let e = versioned_api_impl(&decl, &strings(&[]), &strings(&[])).unwrap_err();
    assert_eq!(e, GenerateError::ReceiverNotSupported);
    assert_eq!(e.message(), "Methods with a receiver are not supported");
}

#[test]
fn forwarded_arguments_keep_declaration_order() {
    let mut decl = sample_declaration(ReturnType::Default);
    decl.params = vec![
        Param::Typed {
            name: "alpha".to_string(),
            ty: TypeExpr::Other {
                text: "u8".to_string(),
            },
        },
        Param::Typed {
            name: "beta".to_string(),
            ty: TypeExpr::Other {
                text: "u16".to_string(),
            },
        },
        Param::Typed {
            name: "gamma".to_string(),
            ty: TypeExpr::Other {
                text: "u32".to_string(),
            },
        },
    ];
    let w = versioned_api_impl(&decl, &strings(&[]), &strings(&[])).unwrap();
    assert_eq!(w.forwarded_args, strings(&["alpha", "beta", "gamma"]));
}
