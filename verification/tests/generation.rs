use derive_builder::annotation::{Annotation, Delimiter, Token};
use derive_builder::record::{
    classify, classify_all, ClassifiedField, FieldDefinition, FieldPolicy, RecordDefinition,
    RecordShape,
};
use derive_builder::synth::{
    generate, synthesize, Extraction, GenerationError, InitialValue, SetterAction, SetterDecl,
    SlotDecl,
};
use derive_builder::type_expr::{
    GenericArgument, PathArguments, PathSegment, TypeExpr, TypeForm,
};

fn named(name: &str) -> TypeExpr {
    TypeExpr {
        source: name.to_string(),
        form: TypeForm::Path(vec![PathSegment {
            name: name.to_string(),
            arguments: PathArguments::Plain,
        }]),
    }
}

fn generic(wrapper: &str, inner: TypeExpr) -> TypeExpr {
    TypeExpr {
        source: format!("{}<{}>", wrapper, inner.source),
        form: TypeForm::Path(vec![PathSegment {
            name: wrapper.to_string(),
            arguments: PathArguments::AngleBracketed(vec![GenericArgument::Type(inner)]),
        }]),
    }
}

fn each_setter(name: &str) -> Annotation {
    Annotation {
        path: "builder".to_string(),
        tokens: vec![Token::Group(
            Delimiter::Parenthesis,
            vec![
                Token::Ident("each".to_string()),
                Token::Punct('='),
                Token::Literal(format!("\"{}\"", name)),
            ],
        )],
    }
}

fn field(name: &str, ty: TypeExpr, annotations: Vec<Annotation>) -> FieldDefinition {
    FieldDefinition { name: name.to_string(), ty, annotations }
}

fn command() -> RecordDefinition {
    RecordDefinition {
        name: "Command".to_string(),
        visibility: "pub".to_string(),
        shape: RecordShape::Named(vec![
            field("executable", named("String"), vec![]),
            field("args", generic("Vec", named("String")), vec![each_setter("arg")]),
            field("env", generic("Vec", named("String")), vec![each_setter("env")]),
            field("current_dir", generic("Option", named("String")), vec![]),
        ]),
    }
}

#[test]
fn bare_field_is_required() {
    let f = field("executable", named("String"), vec![]);
    assert_eq!(classify(&f), FieldPolicy::Required(&named("String")));
}

#[test]
fn sequence_field_without_annotation_is_required() {
    let f = field("args", generic("Vec", named("String")), vec![]);
    assert_eq!(classify(&f), FieldPolicy::Required(&generic("Vec", named("String"))));
}

#[test]
fn optional_field_is_optional() {
    let f = field("current_dir", generic("Option", named("String")), vec![]);
    assert_eq!(classify(&f), FieldPolicy::Optional(&named("String")));
}

#[test]
fn annotated_field_is_collected() {
    let f = field("args", generic("Vec", named("String")), vec![each_setter("arg")]);
    assert_eq!(classify(&f), FieldPolicy::Collected(&named("String"), "arg".to_string()));
}

#[test]
fn annotation_comes_before_shape() {
    let f = field("dir", generic("Option", named("String")), vec![each_setter("part")]);
    assert_eq!(
        classify(&f),
        FieldPolicy::Collected(&generic("Option", named("String")), "part".to_string())
    );
}

#[test]
fn collected_field_that_is_no_sequence_keeps_its_whole_type() {
    let f = field("name", named("String"), vec![each_setter("letter")]);
    assert_eq!(classify(&f), FieldPolicy::Collected(&named("String"), "letter".to_string()));
}

#[test]
fn malformed_annotation_leaves_the_shape_to_decide() {
    let mut annotation = each_setter("arg");
    annotation.path = "other".to_string();
    let f = field("args", generic("Vec", named("String")), vec![annotation]);
    assert_eq!(classify(&f), FieldPolicy::Required(&generic("Vec", named("String"))));
    let mut annotation = each_setter("arg");
    annotation.path = "other".to_string();
    let f = field("dir", generic("Option", named("String")), vec![annotation]);
    assert_eq!(classify(&f), FieldPolicy::Optional(&named("String")));
}

#[test]
fn fields_are_classified_in_declaration_order() {
    let record = command();
    let fields = match &record.shape {
        RecordShape::Named(fields) => fields,
        _ => unreachable!(),
    };
    let classified = classify_all(fields);
    assert_eq!(classified.len(), 4);
    assert_eq!(
        classified[0],
        ClassifiedField {
            name: &"executable".to_string(),
            policy: FieldPolicy::Required(&named("String")),
        }
    );
    assert_eq!(
        classified[1],
        ClassifiedField {
            name: &"args".to_string(),
            policy: FieldPolicy::Collected(&named("String"), "arg".to_string()),
        }
    );
    assert_eq!(
        classified[2],
        ClassifiedField {
            name: &"env".to_string(),
            policy: FieldPolicy::Collected(&named("String"), "env".to_string()),
        }
    );
    assert_eq!(
        classified[3],
        ClassifiedField {
            name: &"current_dir".to_string(),
            policy: FieldPolicy::Optional(&named("String")),
        }
    );
}

#[test]
fn tuple_struct_is_refused() {
    let record = RecordDefinition {
        name: "Pair".to_string(),
        visibility: String::new(),
        shape: RecordShape::Tuple,
    };
    assert_eq!(generate(&record), Err(GenerationError::UnsupportedShape));
}

#[test]
fn unit_struct_is_refused() {
    let record = RecordDefinition {
        name: "Marker".to_string(),
        visibility: String::new(),
        shape: RecordShape::Unit,
    };
    assert_eq!(generate(&record), Err(GenerationError::UnsupportedShape));
}

#[test]
fn enum_and_union_are_refused() {
    let record = RecordDefinition {
        name: "Choice".to_string(),
        visibility: "pub".to_string(),
        shape: RecordShape::Enum,
    };
    assert_eq!(generate(&record), Err(GenerationError::UnsupportedShape));
    let record = RecordDefinition {
        name: "Overlay".to_string(),
        visibility: "pub".to_string(),
        shape: RecordShape::Union,
    };
    assert_eq!(generate(&record), Err(GenerationError::UnsupportedShape));
}

#[test]
fn struct_without_fields_in_braces_has_an_empty_builder() {
    let record = RecordDefinition {
        name: "Empty".to_string(),
        visibility: String::new(),
        shape: RecordShape::Named(vec![]),
    };
    let declarations = generate(&record).unwrap();
    assert_eq!(declarations.record_name, "Empty");
    assert_eq!(declarations.builder_name, "EmptyBuilder");
    assert_eq!(declarations.visibility, "");
    assert!(declarations.slots.is_empty());
    assert!(declarations.setters.is_empty());
    assert!(declarations.checks.is_empty());
    assert!(declarations.extractions.is_empty());
}

#[test]
fn builder_is_named_after_the_record() {
    let record = command();
    let declarations = generate(&record).unwrap();
    assert_eq!(declarations.record_name, "Command");
    assert_eq!(declarations.builder_name, "CommandBuilder");
    assert_eq!(declarations.visibility, "pub");
}

#[test]
fn every_field_has_a_slot() {
    let record = command();
    let declarations = generate(&record).unwrap();
    assert_eq!(
        declarations.slots,
        vec![
            SlotDecl {
                name: "executable".to_string(),
                element: &named("String"),
                sequence: false,
                initial: InitialValue::Absent,
            },
            SlotDecl {
                name: "args".to_string(),
                element: &named("String"),
                sequence: true,
                initial: InitialValue::EmptySequence,
            },
            SlotDecl {
                name: "env".to_string(),
                element: &named("String"),
                sequence: true,
                initial: InitialValue::EmptySequence,
            },
            SlotDecl {
                name: "current_dir".to_string(),
                element: &named("String"),
                sequence: false,
                initial: InitialValue::Absent,
            },
        ]
    );
}

#[test]
fn every_field_has_one_setter() {
    let record = command();
    let declarations = generate(&record).unwrap();
    assert_eq!(
        declarations.setters,
        vec![
            SetterDecl {
                name: "executable".to_string(),
                slot: 0,
                parameter: &named("String"),
                action: SetterAction::Store,
            },
            SetterDecl {
                name: "arg".to_string(),
                slot: 1,
                parameter: &named("String"),
                action: SetterAction::Append,
            },
            SetterDecl {
                name: "env".to_string(),
                slot: 2,
                parameter: &named("String"),
                action: SetterAction::Append,
            },
            SetterDecl {
                name: "current_dir".to_string(),
                slot: 3,
                parameter: &named("String"),
                action: SetterAction::Store,
            },
        ]
    );
}

#[test]
fn required_fields_are_checked_in_declaration_order() {
    let record = RecordDefinition {
        name: "Sample".to_string(),
        visibility: "pub(crate)".to_string(),
        shape: RecordShape::Named(vec![
            field("a", generic("Option", named("u8")), vec![]),
            field("b", named("u8"), vec![]),
            field("c", generic("Vec", named("u8")), vec![each_setter("c")]),
            field("d", generic("Vec", named("u8")), vec![]),
            field("e", named("String"), vec![]),
        ]),
    };
    let declarations = generate(&record).unwrap();
    assert_eq!(declarations.visibility, "pub(crate)");
    assert_eq!(declarations.checks, vec![1, 3, 4]);
    assert_eq!(
        declarations.extractions,
        vec![
            Extraction::Optional,
            Extraction::Unwrap,
            Extraction::Sequence,
            Extraction::Unwrap,
            Extraction::Unwrap,
        ]
    );
}

#[test]
fn collected_field_that_is_no_sequence_gets_a_sequence_slot() {
    let record = RecordDefinition {
        name: "Odd".to_string(),
        visibility: String::new(),
        shape: RecordShape::Named(vec![field(
            "name",
            named("String"),
            vec![each_setter("letter")],
        )]),
    };
    let declarations = generate(&record).unwrap();
    assert_eq!(
        declarations.slots,
        vec![SlotDecl {
            name: "name".to_string(),
            element: &named("String"),
            sequence: true,
            initial: InitialValue::EmptySequence,
        }]
    );
    assert_eq!(
        declarations.setters,
        vec![SetterDecl {
            name: "letter".to_string(),
            slot: 0,
            parameter: &named("String"),
            action: SetterAction::Append,
        }]
    );
    assert!(declarations.checks.is_empty());
    assert_eq!(declarations.extractions, vec![Extraction::Sequence]);
}

#[test]
fn element_setter_named_like_its_field_is_the_only_setter() {
    let record = RecordDefinition {
        name: "Env".to_string(),
        visibility: String::new(),
        shape: RecordShape::Named(vec![field(
            "env",
            generic("Vec", named("String")),
            vec![each_setter("env")],
        )]),
    };
    let declarations = generate(&record).unwrap();
    assert_eq!(declarations.setters.len(), 1);
    assert_eq!(declarations.setters[0].name, "env");
    assert_eq!(declarations.setters[0].action, SetterAction::Append);
    assert_eq!(declarations.find_setter("env"), Some(0));
}

#[test]
fn synthesis_follows_the_policies() {
    let ty = named("u8");
    let first = "first".to_string();
    let second = "second".to_string();
    let fields = vec![
        ClassifiedField { name: &first, policy: FieldPolicy::Collected(&ty, "push".to_string()) },
        ClassifiedField { name: &second, policy: FieldPolicy::Required(&ty) },
    ];
    let declarations = synthesize(&"Pair".to_string(), &"pub".to_string(), &fields);
    assert_eq!(declarations.builder_name, "PairBuilder");
    assert_eq!(declarations.slots.len(), 2);
    assert!(declarations.slots[0].sequence);
    assert!(!declarations.slots[1].sequence);
    assert_eq!(declarations.setters[0].name, "push");
    assert_eq!(declarations.setters[1].name, "second");
    assert_eq!(declarations.checks, vec![1]);
    assert_eq!(declarations.extractions, vec![Extraction::Sequence, Extraction::Unwrap]);
}

#[test]
fn setters_are_found_by_name() {
    let record = command();
    let declarations = generate(&record).unwrap();
    assert_eq!(declarations.find_setter("executable"), Some(0));
    assert_eq!(declarations.find_setter("arg"), Some(1));
    assert_eq!(declarations.find_setter("env"), Some(2));
    assert_eq!(declarations.find_setter("current_dir"), Some(3));
    assert_eq!(declarations.find_setter("args"), None);
    assert_eq!(declarations.find_setter(""), None);
}
