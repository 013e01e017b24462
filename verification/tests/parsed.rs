use derive_builder::annotation::{interpret, Annotation, Delimiter, Token};
use derive_builder::record::{
    classify, FieldDefinition, FieldPolicy, RecordDefinition, RecordShape,
};
use derive_builder::runtime::{BuildError, Builder, FieldValue};
use derive_builder::synth::{generate, GenerationError};
use derive_builder::type_expr::{
    match_shape, GenericArgument, PathArguments, PathSegment, TypeExpr, TypeForm, TypeShape,
};
use quote::ToTokens;

fn tokens_of(stream: proc_macro2::TokenStream) -> Vec<Token> {
    let mut tokens = Vec::new();
    for tree in stream {
        tokens.push(match tree {
            proc_macro2::TokenTree::Ident(ident) => Token::Ident(ident.to_string()),
            proc_macro2::TokenTree::Punct(punct) => Token::Punct(punct.as_char()),
            proc_macro2::TokenTree::Literal(literal) => Token::Literal(literal.to_string()),
            proc_macro2::TokenTree::Group(group) => {
                let delimiter = match group.delimiter() {
                    proc_macro2::Delimiter::Parenthesis => Delimiter::Parenthesis,
                    proc_macro2::Delimiter::Brace => Delimiter::Brace,
                    proc_macro2::Delimiter::Bracket => Delimiter::Bracket,
                    proc_macro2::Delimiter::None => Delimiter::Invisible,
                };
                Token::Group(delimiter, tokens_of(group.stream()))
            }
        });
    }
    tokens
}

fn type_of(ty: &syn::Type) -> TypeExpr {
    let form = match ty {
        syn::Type::Path(path) => {
            let mut segments = Vec::new();
            for segment in &path.path.segments {
                let arguments = match &segment.arguments {
                    syn::PathArguments::None => PathArguments::Plain,
                    syn::PathArguments::AngleBracketed(list) => {
                        let mut arguments = Vec::new();
                        for argument in &list.args {
                            arguments.push(match argument {
                                syn::GenericArgument::Type(inner) => {
                                    GenericArgument::Type(type_of(inner))
                                }
                                _ => GenericArgument::Other,
                            });
                        }
                        PathArguments::AngleBracketed(arguments)
                    }
                    syn::PathArguments::Parenthesized(_) => PathArguments::Parenthesized,
                };
                segments.push(PathSegment { name: segment.ident.to_string(), arguments });
            }
            TypeForm::Path(segments)
        }
        _ => TypeForm::Other,
    };
    TypeExpr { source: ty.to_token_stream().to_string(), form }
}

fn field_of(field: &syn::Field) -> FieldDefinition {
    let mut annotations = Vec::new();
    for attribute in &field.attrs {
        annotations.push(Annotation {
            path: attribute.path.to_token_stream().to_string(),
            tokens: tokens_of(attribute.tokens.clone()),
        });
    }
    FieldDefinition {
        name: field.ident.as_ref().unwrap().to_string(),
        ty: type_of(&field.ty),
        annotations,
    }
}

fn record_in(source: &str) -> RecordDefinition {
    let input: syn::DeriveInput = syn::parse_str(source).unwrap();
    let shape = match &input.data {
        syn::Data::Struct(data) => match &data.fields {
            syn::Fields::Named(fields) => {
                let mut described = Vec::new();
                for field in &fields.named {
                    described.push(field_of(field));
                }
                RecordShape::Named(described)
            }
            syn::Fields::Unnamed(_) => RecordShape::Tuple,
            syn::Fields::Unit => RecordShape::Unit,
        },
        syn::Data::Enum(_) => RecordShape::Enum,
        syn::Data::Union(_) => RecordShape::Union,
    };
    RecordDefinition {
        name: input.ident.to_string(),
        visibility: input.vis.to_token_stream().to_string(),
        shape,
    }
}

fn fields_in(record: &RecordDefinition) -> &Vec<FieldDefinition> {
    match &record.shape {
        RecordShape::Named(fields) => fields,
        _ => panic!("no named fields"),
    }
}

const COMMAND: &str = "
    pub struct Command {
        executable: String,
        #[builder(each = \"arg\")]
        args: Vec<String>,
        #[builder(each = \"env\")]
        env: Vec<String>,
        current_dir: Option<String>,
    }
";

#[test]
fn parsed_command_is_classified() {
    let record = record_in(COMMAND);
    assert_eq!(record.name, "Command");
    assert_eq!(record.visibility, "pub");
    let fields = fields_in(&record);
    assert_eq!(fields.len(), 4);
    match classify(&fields[0]) {
        FieldPolicy::Required(ty) => assert_eq!(ty.source, "String"),
        other => panic!("{:?}", other),
    }
    match classify(&fields[1]) {
        FieldPolicy::Collected(ty, setter) => {
            assert_eq!(ty.source, "String");
            assert_eq!(setter, "arg");
        }
        other => panic!("{:?}", other),
    }
    match classify(&fields[2]) {
        FieldPolicy::Collected(ty, setter) => {
            assert_eq!(ty.source, "String");
            assert_eq!(setter, "env");
        }
        other => panic!("{:?}", other),
    }
    match classify(&fields[3]) {
        FieldPolicy::Optional(ty) => assert_eq!(ty.source, "String"),
        other => panic!("{:?}", other),
    }
}

#[test]
fn parsed_command_is_built() {
    let record = record_in(COMMAND);
    let declarations = generate(&record).unwrap();
    assert_eq!(declarations.builder_name, "CommandBuilder");
    let mut builder: Builder<String> = Builder::new(&declarations);
    assert!(builder.set("executable", "cat".to_string()));
    assert!(builder.set("arg", "-".to_string()));
    assert!(builder.set("arg", "file.txt".to_string()));
    assert_eq!(
        builder.build(),
        Ok(vec![
            FieldValue::Plain("cat".to_string()),
            FieldValue::Sequence(vec!["-".to_string(), "file.txt".to_string()]),
            FieldValue::Sequence(vec![]),
            FieldValue::Maybe(None),
        ])
    );
}

#[test]
fn parsed_command_without_executable_is_not_built() {
    let record = record_in(COMMAND);
    let declarations = generate(&record).unwrap();
    let mut builder: Builder<String> = Builder::new(&declarations);
    assert!(builder.set("env", "HOME=/".to_string()));
    assert!(builder.set("current_dir", "..".to_string()));
    assert_eq!(builder.build(), Err(BuildError::FieldNotSet("executable".to_string())));
}

#[test]
fn parsed_shapes_are_matched() {
    let record = record_in(
        "struct Shapes<'a> {
            a: Option<u8>,
            b: Vec<Option<u8>>,
            c: std::option::Option<u8>,
            d: ::std::vec::Vec<u8>,
            e: &'a str,
            f: (u8, u8),
            g: Option<&'a str>,
            h: [u8; 4],
            i: Cow<'a, str>,
            j: fn(u8) -> u8,
        }",
    );
    let fields = fields_in(&record);
    match match_shape(&fields[0].ty) {
        TypeShape::OptionalOf(inner) => assert_eq!(inner.source, "u8"),
        other => panic!("{:?}", other),
    }
    match match_shape(&fields[1].ty) {
        TypeShape::SequenceOf(inner) => {
            assert_eq!(inner, &type_of(&syn::parse_str("Option<u8>").unwrap()))
        }
        other => panic!("{:?}", other),
    }
    assert_eq!(match_shape(&fields[2].ty), TypeShape::Bare(&fields[2].ty));
    assert_eq!(match_shape(&fields[3].ty), TypeShape::Bare(&fields[3].ty));
    assert_eq!(match_shape(&fields[4].ty), TypeShape::Bare(&fields[4].ty));
    assert_eq!(fields[4].ty.form, TypeForm::Other);
    assert_eq!(match_shape(&fields[5].ty), TypeShape::Bare(&fields[5].ty));
    match match_shape(&fields[6].ty) {
        TypeShape::OptionalOf(inner) => assert_eq!(inner.form, TypeForm::Other),
        other => panic!("{:?}", other),
    }
    assert_eq!(match_shape(&fields[7].ty), TypeShape::Bare(&fields[7].ty));
    assert_eq!(match_shape(&fields[8].ty), TypeShape::Bare(&fields[8].ty));
    assert_eq!(match_shape(&fields[9].ty), TypeShape::Bare(&fields[9].ty));
}

#[test]
fn parsed_annotations_are_interpreted() {
    let record = record_in(
        "struct Notes {
            #[builder(each = \"a\")]
            plain: Vec<u8>,
            #[builder(each = r#\"b\"#)]
            raw: Vec<u8>,
            #[builder(each = \"c\",)]
            comma: Vec<u8>,
            /// Documented first.
            #[builder(each = \"d\")]
            documented: Vec<u8>,
            #[builder(each = \"e\")]
            /// Documented second.
            annotated: Vec<u8>,
            #[builder(each = 7)]
            number: Vec<u8>,
            #[builder(each = b\"g\")]
            bytes: Vec<u8>,
            #[builder(every = \"h\")]
            key: Vec<u8>,
            #[builder(each = \"i\", each = \"j\")]
            twice: Vec<u8>,
            #[builder]
            word: Vec<u8>,
            #[builder = \"l\"]
            assigned: Vec<u8>,
            #[builder(each(\"m\"))]
            nested: Vec<u8>,
            #[other(each = \"n\")]
            tag: Vec<u8>,
            #[builder(each = \"\\u{6f}\\n\")]
            escaped: Vec<u8>,
            #[builder{each = \"p\"}]
            braces: Vec<u8>,
            none: Vec<u8>,
        }",
    );
    let fields = fields_in(&record);
    let expected = [
        Some("a"),
        Some("b"),
        Some("c"),
        None,
        Some("e"),
        None,
        None,
        None,
        None,
        None,
        None,
        None,
        None,
        Some("o\n"),
        None,
        None,
    ];
    assert_eq!(fields.len(), expected.len());
    for (field, name) in fields.iter().zip(expected.iter()) {
        assert_eq!(
            interpret(&field.annotations),
            name.map(|text| text.to_string()),
            "field {}",
            field.name
        );
    }
}

#[test]
fn parsed_definitions_of_other_shapes_are_refused() {
    for source in [
        "struct Pair(u8, u8);",
        "struct Marker;",
        "enum Choice { Left, Right }",
        "union Overlay { a: u8, b: i8 }",
    ] {
        assert_eq!(generate(&record_in(source)), Err(GenerationError::UnsupportedShape));
    }
    assert!(generate(&record_in("struct Empty {}")).is_ok());
}
