use yade::derive::{error_derive, error_kind_derive, Behaviour};
use yade::object::{FieldValue, Object};
use yade::schema::{Annotation, Field, MetaEntry, TypeDefinition, TypeDescriptor, Variant};

fn named(name: &str, args: Vec<TypeDescriptor>) -> TypeDescriptor {
    TypeDescriptor::Named { name: name.to_string(), args }
}

fn display(template: &str, args: Vec<MetaEntry>) -> Annotation {
    let mut entries = vec![MetaEntry::NameValue("msg".to_string(), template.to_string())];
    entries.extend(args);
    Annotation { name: "display".to_string(), entries: Some(entries) }
}

fn cause_marker() -> Annotation {
    Annotation { name: "cause".to_string(), entries: None }
}

fn field(name: Option<&str>, ty: TypeDescriptor, annotations: Vec<Annotation>) -> Field {
    Field { name: name.map(|n| n.to_string()), ty, annotations }
}

fn variant(name: &str, annotations: Vec<Annotation>, fields: Vec<Field>) -> Variant {
    Variant { name: name.to_string(), annotations, fields }
}

fn record(name: &str, annotations: Vec<Annotation>, fields: Vec<Field>) -> TypeDefinition {
    TypeDefinition { name: name.to_string(), variants: vec![variant(name, annotations, fields)] }
}

fn io_error(message: &str) -> Object {
    Object::Text(std::io::Error::new(std::io::ErrorKind::Other, message).to_string())
}

// pub struct KindError {
//     pub kind: KindErrorKind,
//     #[cause] pub cause: Option<Box<Error>>,
// }
fn kind_error_behaviour() -> Behaviour {
    let def = record(
        "KindError",
        vec![display("a kind error: {}", vec![MetaEntry::Word("kind".to_string())])],
        vec![
            field(Some("kind"), named("KindErrorKind", vec![]), vec![]),
            field(
                Some("cause"),
                named("Option", vec![named("Box", vec![named("Error", vec![])])]),
                vec![cause_marker()],
            ),
        ],
    );
    error_derive(&def).unwrap()
}

// pub enum KindErrorKind { One, Two(String), Three }
fn kind_error_kind_behaviour() -> Behaviour {
    let def = TypeDefinition {
        name: "KindErrorKind".to_string(),
        variants: vec![
            variant("One", vec![display("Kind is One", vec![])], vec![]),
            variant(
                "Two",
                vec![display("Kind is Two: {}", vec![MetaEntry::Word("_0".to_string())])],
                vec![field(None, named("String", vec![]), vec![])],
            ),
            variant("Three", vec![], vec![]),
        ],
    };
    error_kind_derive(&def).unwrap()
}

// pub struct BoxedError { #[cause] pub cause: Box<Error> }
fn boxed_error_behaviour() -> Behaviour {
    let def = record(
        "BoxedError",
        vec![],
        vec![field(
            Some("cause"),
            named("Box", vec![named("Error", vec![])]),
            vec![cause_marker()],
        )],
    );
    error_derive(&def).unwrap()
}

// enum EnumError { Hello, More { cat: String, #[cause] cause: std::io::Error }, Last(#[cause] std::io::Error) }
fn enum_error_behaviour() -> Behaviour {
    let def = TypeDefinition {
        name: "EnumError".to_string(),
        variants: vec![
            variant("Hello", vec![display("Some things here", vec![])], vec![]),
            variant(
                "More",
                vec![display("cat: {}", vec![MetaEntry::Word("cat".to_string())])],
                vec![
                    field(Some("cat"), named("String", vec![]), vec![]),
                    field(Some("cause"), named("Error", vec![]), vec![cause_marker()]),
                ],
            ),
            variant(
                "Last",
                vec![],
                vec![field(None, named("Error", vec![]), vec![cause_marker()])],
            ),
        ],
    };
    error_derive(&def).unwrap()
}

fn kind_one() -> Object {
    Object::Instance { behaviour: kind_error_kind_behaviour(), variant: 0, fields: vec![] }
}

fn kind_two(text: &str) -> Object {
    Object::Instance {
        behaviour: kind_error_kind_behaviour(),
        variant: 1,
        fields: vec![FieldValue::Plain(Object::Text(text.to_string()))],
    }
}

#[test]
fn boxed_error() {
    let e = Object::Instance {
        behaviour: boxed_error_behaviour(),
        variant: 0,
        fields: vec![FieldValue::Boxed(Box::new(io_error("boxed cause")))],
    };

    assert_eq!("BoxedError", e.to_text().unwrap());
    assert_eq!("boxed cause", e.cause().unwrap().to_text().unwrap());
}

#[test]
fn kind_error() {
    let e = Object::Instance {
        behaviour: kind_error_behaviour(),
        variant: 0,
        fields: vec![
            FieldValue::Plain(kind_two("Things for free")),
            FieldValue::OptionalBoxed(Some(Box::new(io_error("for a cause")))),
        ],
    };

    assert_eq!("a kind error: Kind is Two: Things for free", e.to_text().unwrap());

    assert_eq!("for a cause", e.cause().unwrap().to_text().unwrap());
}

#[test]
fn kind_error_nocause() {
    let e = Object::Instance {
        behaviour: kind_error_behaviour(),
        variant: 0,
        fields: vec![FieldValue::Plain(kind_one()), FieldValue::OptionalBoxed(None)],
    };

    assert_eq!("a kind error: Kind is One", e.to_text().unwrap());

    assert!(e.cause().is_none());
}

#[test]
fn enum_error() {
    let e = Object::Instance {
        behaviour: enum_error_behaviour(),
        variant: 1,
        fields: vec![
            FieldValue::Plain(Object::Text("is not a dog".to_string())),
            FieldValue::Plain(io_error("oh no!")),
        ],
    };

    assert_eq!("cat: is not a dog", e.to_text().unwrap());

    assert_eq!("oh no!", e.cause().unwrap().to_text().unwrap());
}

#[test]
fn tuple_struct_enum() {
    let res: Result<(), Object> = Err(std::io::Error::from_raw_os_error(2)).map_err(|e| {
        Object::Instance {
            behaviour: enum_error_behaviour(),
            variant: 2,
            fields: vec![FieldValue::Plain(Object::Text(e.to_string()))],
        }
    });

    match res {
        Err(err) => {
            assert_eq!("Last", err.to_text().unwrap());
            assert_eq!(
                "No such file or directory (os error 2)",
                err.cause().unwrap().to_text().unwrap()
            );
        }
        _ => panic!("Expected to find an error"),
    };
}
