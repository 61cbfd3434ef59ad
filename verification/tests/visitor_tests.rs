use c_bindgen::ast::{
    Declaration, DeclarationSpecifier, Declarator, DeclaratorKind, DerivedDeclarator,
    ExternalDeclaration, InitDeclarator, ParameterDeclaration, SpecifierQualifier,
    StructDeclaration, StructDeclarator, StructField, StructType, TranslationUnit, TypeSpecifier,
};
use c_bindgen::visitor::{RustDeclaration, RustDeclarationType, TypeAndName, VisitError, Visitor};

fn ident(name: &str) -> DeclaratorKind {
    DeclaratorKind::Identifier(name.to_string())
}

fn simple_declarator(name: &str) -> Declarator {
    Declarator { kind: ident(name), derived: vec![] }
}

fn field(ts: TypeSpecifier, name: &str) -> StructDeclaration {
    StructDeclaration::Field(StructField {
        specifiers: vec![SpecifierQualifier::TypeSpecifier(ts)],
        declarators: vec![StructDeclarator { declarator: Some(simple_declarator(name)) }],
    })
}

fn param(ts: TypeSpecifier, name: &str) -> ParameterDeclaration {
    ParameterDeclaration {
        specifiers: vec![DeclarationSpecifier::TypeSpecifier(ts)],
        declarator: Some(simple_declarator(name)),
    }
}

fn struct_ts(tag: &str, members: Option<Vec<StructDeclaration>>) -> TypeSpecifier {
    TypeSpecifier::Struct(StructType {
        identifier: Some(tag.to_string()),
        declarations: members,
    })
}

fn struct_decl(tag: &str, members: Vec<StructDeclaration>) -> ExternalDeclaration {
    ExternalDeclaration::Declaration(Declaration {
        specifiers: vec![DeclarationSpecifier::TypeSpecifier(struct_ts(tag, Some(members)))],
        declarators: vec![],
    })
}

fn fn_decl(
    ret: TypeSpecifier,
    name: &str,
    params: Vec<ParameterDeclaration>,
) -> ExternalDeclaration {
    ExternalDeclaration::Declaration(Declaration {
        specifiers: vec![DeclarationSpecifier::TypeSpecifier(ret)],
        declarators: vec![InitDeclarator {
            declarator: Declarator {
                kind: ident(name),
                derived: vec![DerivedDeclarator::Function(params)],
            },
        }],
    })
}

fn tan(name: &str, param_type: &str) -> TypeAndName {
    TypeAndName { param_type: param_type.to_string(), name: name.to_string() }
}

fn run(unit: TranslationUnit) -> Result<Vec<RustDeclaration>, VisitError> {
    let mut visitor = Visitor::default();
    visitor.visit_translation_unit(&unit)?;
    Ok(visitor.0)
}

#[test]
fn primitive_mappings_are_fixed() {
    let unit = TranslationUnit(vec![fn_decl(
        TypeSpecifier::Void,
        "all_prims",
        vec![
            param(TypeSpecifier::Void, "a"),
            param(TypeSpecifier::Char, "b"),
            param(TypeSpecifier::Short, "c"),
            param(TypeSpecifier::Int, "d"),
            param(TypeSpecifier::Long, "e"),
            param(TypeSpecifier::Float, "f"),
            param(TypeSpecifier::Double, "g"),
            param(TypeSpecifier::Unsigned, "h"),
        ],
    )]);
    let out = run(unit).unwrap();
    assert_eq!(
        out,
        vec![RustDeclaration {
            name: "all_prims".to_string(),
            type_declaration: RustDeclarationType::Function(vec![
                tan("a", "libc::c_void"),
                tan("b", "libc::c_char"),
                tan("c", "libc::c_short"),
                tan("d", "libc::c_int"),
                tan("e", "libc::c_long"),
                tan("f", "libc::c_float"),
                tan("g", "libc::c_double"),
                tan("h", "libc::c_uint"),
            ]),
        }]
    );
}

#[test]
fn struct_point_yields_one_struct_binding() {
    let unit = TranslationUnit(vec![struct_decl(
        "Point",
        vec![field(TypeSpecifier::Int, "x"), field(TypeSpecifier::Int, "y")],
    )]);
    let out = run(unit).unwrap();
    assert_eq!(
        out,
        vec![RustDeclaration {
            name: "Point".to_string(),
            type_declaration: RustDeclarationType::Struct(vec![
                tan("x", "libc::c_int"),
                tan("y", "libc::c_int"),
            ]),
        }]
    );
}

#[test]
fn function_with_two_int_params() {
    let unit = TranslationUnit(vec![fn_decl(
        TypeSpecifier::Int,
        "add",
        vec![param(TypeSpecifier::Int, "a"), param(TypeSpecifier::Int, "b")],
    )]);
    let out = run(unit).unwrap();
    assert_eq!(
        out,
        vec![RustDeclaration {
            name: "add".to_string(),
            type_declaration: RustDeclarationType::Function(vec![
                tan("a", "libc::c_int"),
                tan("b", "libc::c_int"),
            ]),
        }]
    );
}

#[test]
fn void_parameter_yields_no_entry() {
    let unit = TranslationUnit(vec![fn_decl(
        TypeSpecifier::Void,
        "run",
        vec![ParameterDeclaration {
            specifiers: vec![DeclarationSpecifier::TypeSpecifier(TypeSpecifier::Void)],
            declarator: None,
        }],
    )]);
    let out = run(unit).unwrap();
    assert_eq!(
        out,
        vec![RustDeclaration {
            name: "run".to_string(),
            type_declaration: RustDeclarationType::Function(vec![]),
        }]
    );
}

#[test]
fn unsupported_type_specifier_aborts_with_no_output() {
    let unit = TranslationUnit(vec![ExternalDeclaration::Declaration(Declaration {
        specifiers: vec![DeclarationSpecifier::TypeSpecifier(TypeSpecifier::Unsupported)],
        declarators: vec![],
    })]);
    let mut visitor = Visitor::default();
    let r = visitor.visit_translation_unit(&unit);
    assert_eq!(r, Err(VisitError::UnsupportedTypeSpecifier));
    assert!(visitor.0.is_empty());
}

#[test]
fn named_type_reference_passes_through_and_registers_nothing() {
    let unit = TranslationUnit(vec![
        fn_decl(
            TypeSpecifier::Void,
            "take_one",
            vec![param(TypeSpecifier::TypedefName("MyType".to_string()), "a")],
        ),
        fn_decl(
            TypeSpecifier::Void,
            "take_two",
            vec![param(TypeSpecifier::TypedefName("MyType".to_string()), "b")],
        ),
    ]);
    let out = run(unit).unwrap();
    assert_eq!(
        out,
        vec![
            RustDeclaration {
                name: "take_one".to_string(),
                type_declaration: RustDeclarationType::Function(vec![tan("a", "MyType")]),
            },
            RustDeclaration {
                name: "take_two".to_string(),
                type_declaration: RustDeclarationType::Function(vec![tan("b", "MyType")]),
            },
        ]
    );
}

#[test]
fn nested_struct_is_emitted_before_its_revealer_and_later_declarations() {
    let inner = struct_ts("Inner", Some(vec![field(TypeSpecifier::Int, "a")]));
    let outer = ExternalDeclaration::Declaration(Declaration {
        specifiers: vec![DeclarationSpecifier::TypeSpecifier(struct_ts(
            "Outer",
            Some(vec![field(inner, "f")]),
        ))],
        declarators: vec![InitDeclarator { declarator: simple_declarator("o") }],
    });
    let later_fn = fn_decl(TypeSpecifier::Void, "g", vec![]);
    let out = run(TranslationUnit(vec![outer, later_fn])).unwrap();
    assert_eq!(
        out,
        vec![
            RustDeclaration {
                name: "Inner".to_string(),
                type_declaration: RustDeclarationType::Struct(vec![tan("a", "libc::c_int")]),
            },
            RustDeclaration {
                name: "Outer".to_string(),
                type_declaration: RustDeclarationType::Struct(vec![tan("f", "Inner")]),
            },
            RustDeclaration {
                name: "g".to_string(),
                type_declaration: RustDeclarationType::Function(vec![]),
            },
        ]
    );
}

#[test]
fn anonymous_struct_fails() {
    let unit = TranslationUnit(vec![ExternalDeclaration::Declaration(Declaration {
        specifiers: vec![DeclarationSpecifier::TypeSpecifier(TypeSpecifier::Struct(
            StructType {
                identifier: None,
                declarations: Some(vec![field(TypeSpecifier::Int, "x")]),
            },
        ))],
        declarators: vec![],
    })]);
    let mut visitor = Visitor::default();
    assert_eq!(
        visitor.visit_translation_unit(&unit),
        Err(VisitError::AnonymousStruct)
    );
    assert!(visitor.0.is_empty());
}

#[test]
fn abstract_declarator_fails_even_with_skippable_qualifier() {
    let unit = TranslationUnit(vec![ExternalDeclaration::Declaration(Declaration {
        specifiers: vec![DeclarationSpecifier::TypeSpecifier(TypeSpecifier::Int)],
        declarators: vec![InitDeclarator {
            declarator: Declarator {
                kind: DeclaratorKind::Abstract,
                derived: vec![DerivedDeclarator::Pointer],
            },
        }],
    })]);
    assert_eq!(run(unit), Err(VisitError::AbstractDeclarator));
}

#[test]
fn unrecognised_derived_declarator_fails() {
    let unit = TranslationUnit(vec![ExternalDeclaration::Declaration(Declaration {
        specifiers: vec![DeclarationSpecifier::TypeSpecifier(TypeSpecifier::Int)],
        declarators: vec![InitDeclarator {
            declarator: Declarator {
                kind: ident("krf"),
                derived: vec![DerivedDeclarator::Unsupported],
            },
        }],
    })]);
    assert_eq!(run(unit), Err(VisitError::UnsupportedDerivedDeclarator));
}

#[test]
fn non_declaration_top_level_item_fails() {
    let unit = TranslationUnit(vec![ExternalDeclaration::Unsupported]);
    assert_eq!(run(unit), Err(VisitError::UnsupportedTopLevelConstruct));
}

#[test]
fn field_whose_first_specifier_is_not_a_type_fails() {
    let bad_field = StructDeclaration::Field(StructField {
        specifiers: vec![SpecifierQualifier::Other],
        declarators: vec![StructDeclarator { declarator: Some(simple_declarator("x")) }],
    });
    let unit = TranslationUnit(vec![struct_decl("S", vec![bad_field])]);
    assert_eq!(run(unit), Err(VisitError::MalformedFieldOrParameter));
}

#[test]
fn field_without_declarator_fails() {
    let bitfield_only = StructDeclaration::Field(StructField {
        specifiers: vec![SpecifierQualifier::TypeSpecifier(TypeSpecifier::Int)],
        declarators: vec![StructDeclarator { declarator: None }],
    });
    let unit = TranslationUnit(vec![struct_decl("S", vec![bitfield_only])]);
    assert_eq!(run(unit), Err(VisitError::MalformedFieldOrParameter));
}

#[test]
fn field_with_no_declarator_list_fails() {
    let empty_field = StructDeclaration::Field(StructField {
        specifiers: vec![SpecifierQualifier::TypeSpecifier(TypeSpecifier::Int)],
        declarators: vec![],
    });
    let unit = TranslationUnit(vec![struct_decl("S", vec![empty_field])]);
    assert_eq!(run(unit), Err(VisitError::MalformedFieldOrParameter));
}

#[test]
fn parameter_whose_first_specifier_is_not_a_type_fails() {
    let bad_param = ParameterDeclaration {
        specifiers: vec![DeclarationSpecifier::Other],
        declarator: Some(simple_declarator("a")),
    };
    let unit = TranslationUnit(vec![fn_decl(TypeSpecifier::Void, "h", vec![bad_param])]);
    assert_eq!(run(unit), Err(VisitError::MalformedFieldOrParameter));
}

#[test]
fn pointer_and_array_declarators_are_skipped() {
    let unit = TranslationUnit(vec![
        ExternalDeclaration::Declaration(Declaration {
            specifiers: vec![DeclarationSpecifier::TypeSpecifier(TypeSpecifier::Int)],
            declarators: vec![InitDeclarator {
                declarator: Declarator {
                    kind: ident("p"),
                    derived: vec![DerivedDeclarator::Pointer],
                },
            }],
        }),
        ExternalDeclaration::Declaration(Declaration {
            specifiers: vec![DeclarationSpecifier::TypeSpecifier(TypeSpecifier::Int)],
            declarators: vec![InitDeclarator {
                declarator: Declarator {
                    kind: ident("a"),
                    derived: vec![DerivedDeclarator::Array],
                },
            }],
        }),
    ]);
    assert_eq!(run(unit).unwrap(), vec![]);
}

#[test]
fn plain_variable_and_struct_reference_yield_nothing() {
    let unit = TranslationUnit(vec![ExternalDeclaration::Declaration(Declaration {
        specifiers: vec![DeclarationSpecifier::TypeSpecifier(struct_ts("Point", None))],
        declarators: vec![InitDeclarator { declarator: simple_declarator("p") }],
    })]);
    assert_eq!(run(unit).unwrap(), vec![]);
}

#[test]
fn only_first_declarator_of_a_field_is_consulted() {
    let double_field = StructDeclaration::Field(StructField {
        specifiers: vec![SpecifierQualifier::TypeSpecifier(TypeSpecifier::Int)],
        declarators: vec![
            StructDeclarator { declarator: Some(simple_declarator("x")) },
            StructDeclarator { declarator: Some(simple_declarator("y")) },
        ],
    });
    let out = run(TranslationUnit(vec![struct_decl("S", vec![double_field])])).unwrap();
    assert_eq!(
        out,
        vec![RustDeclaration {
            name: "S".to_string(),
            type_declaration: RustDeclarationType::Struct(vec![tan("x", "libc::c_int")]),
        }]
    );
}

#[test]
fn type_only_parameter_is_skipped() {
    let unit = TranslationUnit(vec![fn_decl(
        TypeSpecifier::Void,
        "h",
        vec![ParameterDeclaration {
            specifiers: vec![DeclarationSpecifier::TypeSpecifier(TypeSpecifier::Int)],
            declarator: None,
        }],
    )]);
    let out = run(unit).unwrap();
    assert_eq!(
        out,
        vec![RustDeclaration {
            name: "h".to_string(),
            type_declaration: RustDeclarationType::Function(vec![]),
        }]
    );
}

#[test]
fn parameter_with_no_specifiers_is_skipped() {
    let unit = TranslationUnit(vec![fn_decl(
        TypeSpecifier::Void,
        "h",
        vec![ParameterDeclaration { specifiers: vec![], declarator: None }],
    )]);
    let out = run(unit).unwrap();
    assert_eq!(
        out,
        vec![RustDeclaration {
            name: "h".to_string(),
            type_declaration: RustDeclarationType::Function(vec![]),
        }]
    );
}

#[test]
fn nested_declarator_kind_is_followed_to_the_identifier() {
    let inner = simple_declarator("wrapped");
    let unit = TranslationUnit(vec![ExternalDeclaration::Declaration(Declaration {
        specifiers: vec![DeclarationSpecifier::TypeSpecifier(TypeSpecifier::Int)],
        declarators: vec![InitDeclarator {
            declarator: Declarator {
                kind: DeclaratorKind::Declarator(Box::new(inner)),
                derived: vec![DerivedDeclarator::Function(vec![])],
            },
        }],
    })]);
    let out = run(unit).unwrap();
    assert_eq!(
        out,
        vec![RustDeclaration {
            name: "wrapped".to_string(),
            type_declaration: RustDeclarationType::Function(vec![]),
        }]
    );
}

#[test]
fn default_visitor_has_empty_collection() {
    let visitor = Visitor::default();
    assert!(visitor.0.is_empty());
}

#[test]
fn failure_leaves_earlier_bindings_out_of_the_collection() {
    let good = struct_decl("Good", vec![field(TypeSpecifier::Int, "x")]);
    let bad = ExternalDeclaration::Unsupported;
    let mut visitor = Visitor::default();
    let unit = TranslationUnit(vec![good, bad]);
    assert_eq!(
        visitor.visit_translation_unit(&unit),
        Err(VisitError::UnsupportedTopLevelConstruct)
    );
    assert!(visitor.0.is_empty());
}

#[test]
fn inline_redefinition_registers_once_per_definition() {
    let first = struct_decl("S", vec![field(TypeSpecifier::Int, "x")]);
    let second = struct_decl("S", vec![field(TypeSpecifier::Char, "y")]);
    let out = run(TranslationUnit(vec![first, second])).unwrap();
    assert_eq!(
        out,
        vec![
            RustDeclaration {
                name: "S".to_string(),
                type_declaration: RustDeclarationType::Struct(vec![tan("x", "libc::c_int")]),
            },
            RustDeclaration {
                name: "S".to_string(),
                type_declaration: RustDeclarationType::Struct(vec![tan("y", "libc::c_char")]),
            },
        ]
    );
}

#[test]
fn struct_defined_in_parameter_list_is_emitted_before_the_function() {
    let nested = struct_ts("S", Some(vec![field(TypeSpecifier::Int, "x")]));
    let unit = TranslationUnit(vec![fn_decl(TypeSpecifier::Void, "f", vec![param(nested, "s")])]);
    let out = run(unit).unwrap();
    assert_eq!(
        out,
        vec![
            RustDeclaration {
                name: "S".to_string(),
                type_declaration: RustDeclarationType::Struct(vec![tan("x", "libc::c_int")]),
            },
            RustDeclaration {
                name: "f".to_string(),
                type_declaration: RustDeclarationType::Function(vec![tan("s", "S")]),
            },
        ]
    );
}
