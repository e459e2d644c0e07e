use syn::{Attribute, Lit, MetaItem, NestedMetaItem, PathParameters, Ty};
use synstructure::Structure;
use yade::derive::{error_derive, error_kind_derive};
use yade::error::GenerationError;
use yade::object::{FieldValue, Object};
use yade::schema::{Annotation, Field, MetaEntry, TypeDefinition, TypeDescriptor, Variant};

fn entry(item: &NestedMetaItem) -> MetaEntry {
    match *item {
        NestedMetaItem::Literal(Lit::Int(i, _)) => MetaEntry::Integer(i),
        NestedMetaItem::MetaItem(MetaItem::Word(ref id)) => MetaEntry::Word(id.to_string()),
        NestedMetaItem::MetaItem(MetaItem::NameValue(ref id, Lit::Str(ref text, _))) => {
            MetaEntry::NameValue(id.to_string(), text.clone())
        }
        _ => MetaEntry::Other,
    }
}

fn annotation(attr: &Attribute) -> Annotation {
    Annotation {
        name: attr.name().to_string(),
        entries: match attr.value {
            MetaItem::List(_, ref list) => Some(list.iter().map(entry).collect()),
            _ => None,
        },
    }
}

fn descriptor(ty: &Ty) -> TypeDescriptor {
    let last = match *ty {
        Ty::Path(_, ref path) => path.segments.last(),
        _ => None,
    };
    match last {
        Some(segment) => TypeDescriptor::Named {
            name: segment.ident.to_string(),
            args: match segment.parameters {
                PathParameters::AngleBracketed(ref data) => {
                    data.types.iter().map(descriptor).collect()
                }
                PathParameters::Parenthesized(_) => Vec::new(),
            },
        },
        None => TypeDescriptor::Unnamed,
    }
}

fn definition(source: &str) -> TypeDefinition {
    let parsed = syn::parse_derive_input(source).unwrap();
    let s = Structure::new(&parsed);
    TypeDefinition {
        name: s.ast().ident.to_string(),
        variants: s
            .variants()
            .iter()
            .map(|v| Variant {
                name: v.ast().ident.to_string(),
                annotations: v.ast().attrs.iter().map(annotation).collect(),
                fields: v
                    .bindings()
                    .iter()
                    .map(|bi| Field {
                        name: bi.ast().ident.as_ref().map(|id| id.to_string()),
                        ty: descriptor(&bi.ast().ty),
                        annotations: bi.ast().attrs.iter().map(annotation).collect(),
                    })
                    .collect(),
            })
            .collect(),
    }
}

const UNIT_STRUCT: &str = "pub struct UnitStruct;";

const TUPLE_STRUCT: &str = "pub struct TupleStruct(i32);";

const KIND_ERROR: &str = r#"
    #[display(msg = "a kind error: {}", kind)]
    pub struct KindError {
        pub kind: KindErrorKind,

        #[cause]
        pub cause: Option<Box<Error>>,
    }
"#;

const KIND_ERROR_KIND: &str = r#"
    pub enum KindErrorKind {
        #[display(msg = "Kind is One")]
        One,

        #[display(msg = "Kind is Two: {}", _0)]
        Two(String),
        Three
    }
"#;

const BOXED_ERROR: &str = r#"
    pub struct BoxedError {
        #[cause]
        pub cause: Box<Error>,
    }
"#;

const ENUM_ERROR: &str = r#"
    enum EnumError {
        #[display(msg = "Some things here")]
        Hello,

        #[display(msg = "cat: {}", cat)]
        More {
            cat: String,
            #[cause] cause: std::io::Error,
        },

        Last(#[cause] std::io::Error),
    }
"#;

fn text(s: &str) -> Object {
    Object::Text(s.to_string())
}

fn io_error(message: &str) -> Object {
    Object::Text(std::io::Error::new(std::io::ErrorKind::Other, message).to_string())
}

fn error_value(source: &str, variant: usize, fields: Vec<FieldValue>) -> Object {
    Object::Instance { behaviour: error_derive(&definition(source)).unwrap(), variant, fields }
}

fn kind_value(variant: usize, fields: Vec<FieldValue>) -> Object {
    Object::Instance {
        behaviour: error_kind_derive(&definition(KIND_ERROR_KIND)).unwrap(),
        variant,
        fields,
    }
}

#[test]
fn struct_is_read_as_its_one_variant() {
    let def = definition(KIND_ERROR);
    assert_eq!(def.name, "KindError");
    assert_eq!(def.variants.len(), 1);
    let only = &def.variants[0];
    assert_eq!(only.name, "KindError");
    assert_eq!(
        only.annotations,
        vec![Annotation {
            name: "display".to_string(),
            entries: Some(vec![
                MetaEntry::NameValue("msg".to_string(), "a kind error: {}".to_string()),
                MetaEntry::Word("kind".to_string()),
            ]),
        }]
    );
    assert_eq!(
        only.fields,
        vec![
            Field {
                name: Some("kind".to_string()),
                ty: TypeDescriptor::Named { name: "KindErrorKind".to_string(), args: vec![] },
                annotations: vec![],
            },
            Field {
                name: Some("cause".to_string()),
                ty: TypeDescriptor::Named {
                    name: "Option".to_string(),
                    args: vec![TypeDescriptor::Named {
                        name: "Box".to_string(),
                        args: vec![TypeDescriptor::Named {
                            name: "Error".to_string(),
                            args: vec![],
                        }],
                    }],
                },
                annotations: vec![Annotation { name: "cause".to_string(), entries: None }],
            },
        ]
    );
}

#[test]
fn enum_is_read_variant_by_variant() {
    let def = definition(ENUM_ERROR);
    assert_eq!(def.name, "EnumError");
    let names: Vec<&str> = def.variants.iter().map(|v| v.name.as_str()).collect();
    assert_eq!(names, vec!["Hello", "More", "Last"]);
    assert_eq!(def.variants[1].fields[1].name, Some("cause".to_string()));
    assert_eq!(def.variants[2].fields[0].name, None);
    assert_eq!(
        def.variants[2].fields[0].ty,
        TypeDescriptor::Named { name: "Error".to_string(), args: vec![] }
    );
}

#[test]
fn unit_struct_from_source() {
    let e = error_value(UNIT_STRUCT, 0, vec![]);
    assert_eq!("UnitStruct", e.to_text().unwrap());
    assert!(e.cause().is_none());
}

#[test]
fn tuple_struct_from_source() {
    let e = error_value(TUPLE_STRUCT, 0, vec![FieldValue::Plain(text(&7i32.to_string()))]);
    assert_eq!("TupleStruct", e.to_text().unwrap());
    assert!(e.cause().is_none());
}

#[test]
fn boxed_error_from_source() {
    let e = error_value(BOXED_ERROR, 0, vec![FieldValue::Boxed(Box::new(io_error(
        "boxed cause",
    )))]);
    assert_eq!("BoxedError", e.to_text().unwrap());
    assert_eq!("boxed cause", e.cause().unwrap().to_text().unwrap());
}

#[test]
fn kind_error_from_source() {
    let two = kind_value(1, vec![FieldValue::Plain(text("Things for free"))]);
    let e = error_value(KIND_ERROR, 0, vec![
        FieldValue::Plain(two),
        FieldValue::OptionalBoxed(Some(Box::new(io_error("for a cause")))),
    ]);
    assert_eq!("a kind error: Kind is Two: Things for free", e.to_text().unwrap());
    assert_eq!("for a cause", e.cause().unwrap().to_text().unwrap());
}

#[test]
fn kind_error_nocause_from_source() {
    let e = error_value(KIND_ERROR, 0, vec![
        FieldValue::Plain(kind_value(0, vec![])),
        FieldValue::OptionalBoxed(None),
    ]);
    assert_eq!("a kind error: Kind is One", e.to_text().unwrap());
    assert!(e.cause().is_none());
}

#[test]
fn kind_without_message_from_source() {
    assert_eq!("Three", kind_value(2, vec![]).to_text().unwrap());
}

#[test]
fn enum_error_from_source() {
    let hello = error_value(ENUM_ERROR, 0, vec![]);
    assert_eq!("Some things here", hello.to_text().unwrap());
    assert!(hello.cause().is_none());
    let more = error_value(ENUM_ERROR, 1, vec![
        FieldValue::Plain(text("is not a dog")),
        FieldValue::Plain(io_error("oh no!")),
    ]);
    assert_eq!("cat: is not a dog", more.to_text().unwrap());
    assert_eq!("oh no!", more.cause().unwrap().to_text().unwrap());
    let last = error_value(ENUM_ERROR, 2, vec![FieldValue::Plain(io_error("gone"))]);
    assert_eq!("Last", last.to_text().unwrap());
    assert_eq!("gone", last.cause().unwrap().to_text().unwrap());
}

#[test]
fn malformed_annotations_from_source() {
    let failure = |source: &str| error_derive(&definition(source)).err();
    assert_eq!(
        failure(r#"#[display(msg = "a")] #[display(msg = "b")] struct E;"#),
        Some(GenerationError::DuplicateAnnotation)
    );
    assert_eq!(failure("#[display] struct E;"), Some(GenerationError::MissingMessageKey));
    assert_eq!(failure(r#"#[display = "a"] struct E;"#), Some(GenerationError::MissingMessageKey));
    assert_eq!(failure("#[display()] struct E;"), Some(GenerationError::MissingMessageKey));
    assert_eq!(failure("#[display(msg = 5)] struct E;"), Some(GenerationError::MissingMessageKey));
    assert_eq!(
        failure(r#"#[display(text = "a")] struct E;"#),
        Some(GenerationError::MissingMessageKey)
    );
    assert_eq!(failure(r#"#[display(msg = "")] struct E;"#), Some(GenerationError::EmptyMessage));
    assert_eq!(
        failure(r#"#[display(msg = "{}", b)] struct E { a: u8 }"#),
        Some(GenerationError::UnresolvedFieldReference)
    );
    assert_eq!(
        failure(r#"#[display(msg = "{}", 1)] struct E(u8);"#),
        Some(GenerationError::UnresolvedFieldReference)
    );
    assert_eq!(
        failure(r#"#[display(msg = "{}", _1)] struct E(u8);"#),
        Some(GenerationError::UnresolvedFieldReference)
    );
    assert_eq!(
        failure(r#"#[display(msg = "{}", "a")] struct E { a: u8 }"#),
        Some(GenerationError::InvalidAnnotationArgument)
    );
    assert_eq!(
        failure(r#"#[display(msg = "{}", 1.5)] struct E { a: u8 }"#),
        Some(GenerationError::InvalidAnnotationArgument)
    );
    assert_eq!(
        failure("struct E { #[cause] c: Option<String> }"),
        Some(GenerationError::InvalidCauseShape)
    );
    assert_eq!(
        failure("struct E { #[cause] c: Option }"),
        Some(GenerationError::InvalidCauseShape)
    );
    assert_eq!(
        failure("struct E<'a> { #[cause] c: &'a Error }"),
        Some(GenerationError::InvalidCauseShape)
    );
    assert_eq!(
        failure("struct E { #[cause] c: (Error, Error) }"),
        Some(GenerationError::InvalidCauseShape)
    );
}

#[test]
fn annotations_of_an_enum_itself_are_not_its_variants() {
    let def = definition(r#"#[display(msg = "whole")] enum E { A, B }"#);
    let a = Object::Instance { behaviour: error_derive(&def).unwrap(), variant: 0, fields: vec![] };
    assert_eq!("A", a.to_text().unwrap());
}
