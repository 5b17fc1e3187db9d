use near_abi_rs::decimal_string;
use near_abi_rs::expand::{Decl, Expander};
use near_abi_rs::generator::Generator;
use near_abi_rs::methods::{synthesize, CallKind};
use near_abi_rs::raw::{classify, RawSchema};
use near_abi_rs::registry::TypeRegistry;
use near_abi_rs::schema::{Error, MethodEntry, Schema};

fn bare_raw() -> RawSchema {
    RawSchema {
        title: None,
        instance_type: None,
        items: None,
        properties: vec![],
        required: vec![],
        enum_values: None,
        reference: None,
    }
}

#[test]
fn decimal_rendering() {
    assert_eq!(decimal_string(0), "0");
    assert_eq!(decimal_string(7), "7");
    assert_eq!(decimal_string(42), "42");
    assert_eq!(decimal_string(1234567890), "1234567890");
    assert_eq!(decimal_string(u64::MAX), "18446744073709551615");
}

#[test]
fn registry_resolves_registered_ids() {
    let mut reg = TypeRegistry::new();
    reg.register(3, String::from("Pair"));
    reg.register(5, String::from("Score"));
    assert_eq!(reg.resolve(3).unwrap(), "Pair");
    assert_eq!(reg.resolve(5).unwrap(), "Score");
    assert!(reg.contains(3));
    assert!(!reg.contains(4));
    match reg.resolve(4) {
        Err(Error::UnknownTypeId { id }) => assert_eq!(id, 4),
        _ => panic!("an unknown id must be reported as such"),
    }
}

#[test]
fn expander_is_idempotent_per_title() {
    let mut exp = Expander::new();
    let schema = Schema::Array {
        title: Some(String::from("Pair")),
        elem: Box::new(Schema::Integer),
    };
    let first = exp.expand(&schema).unwrap();
    let emitted = exp.decls.len();
    let second = exp.expand(&schema).unwrap();
    assert_eq!(first, "Pair");
    assert_eq!(second, "Pair");
    assert_eq!(exp.decls.len(), emitted);
    assert_eq!(emitted, 1);
}

#[test]
fn expander_maps_primitives_without_declaring() {
    let mut exp = Expander::new();
    assert_eq!(exp.expand(&Schema::Integer).unwrap(), "i64");
    assert_eq!(exp.expand(&Schema::Text).unwrap(), "String");
    assert_eq!(exp.expand(&Schema::Boolean).unwrap(), "bool");
    assert_eq!(exp.expand(&Schema::Float).unwrap(), "f64");
    let nested = Schema::Array {
        title: None,
        elem: Box::new(Schema::Optional {
            elem: Box::new(Schema::Integer),
        }),
    };
    assert_eq!(exp.expand(&nested).unwrap(), "Vec<Option<i64>>");
    assert!(exp.decls.is_empty());
}

#[test]
fn synthesizer_distinguishes_calling_conventions() {
    let mut reg = TypeRegistry::new();
    reg.register(1, String::from("Pair"));
    let view = MethodEntry {
        name: String::from("peek"),
        args: vec![1],
        result: Some(1),
        is_view: true,
    };
    let stub = synthesize(&view, &reg).unwrap();
    assert!(matches!(stub.call_kind, CallKind::Query));
    assert_eq!(stub.params.len(), 1);
    assert_eq!(stub.params[0].0, "arg0");
    assert_eq!(stub.params[0].1, "Pair");
    assert_eq!(stub.return_type, "Pair");

    let mutating = MethodEntry {
        is_view: false,
        ..view
    };
    let stub = synthesize(&mutating, &reg).unwrap();
    assert!(matches!(stub.call_kind, CallKind::Transaction));
}

#[test]
fn classify_strips_reference_prefix() {
    let raw = RawSchema {
        reference: Some(String::from("#/definitions/Pair")),
        ..bare_raw()
    };
    match classify(&raw).unwrap() {
        Schema::Reference { target } => assert_eq!(target, "Pair"),
        _ => panic!("a $ref document must classify as a reference"),
    }
    let plain = RawSchema {
        reference: Some(String::from("Pair")),
        ..bare_raw()
    };
    match classify(&plain).unwrap() {
        Schema::Reference { target } => assert_eq!(target, "Pair"),
        _ => panic!("a $ref document must classify as a reference"),
    }
}

#[test]
fn classify_object_wraps_optional_properties() {
    let raw = RawSchema {
        title: Some(String::from("Account")),
        instance_type: Some(String::from("object")),
        properties: vec![
            (
                String::from("balance"),
                RawSchema {
                    instance_type: Some(String::from("integer")),
                    ..bare_raw()
                },
            ),
            (
                String::from("alias"),
                RawSchema {
                    instance_type: Some(String::from("string")),
                    ..bare_raw()
                },
            ),
        ],
        required: vec![String::from("balance")],
        ..bare_raw()
    };
    match classify(&raw).unwrap() {
        Schema::Object { title, fields } => {
            assert_eq!(title.unwrap(), "Account");
            assert_eq!(fields.len(), 2);
            assert_eq!(fields[0].0, "balance");
            assert!(matches!(fields[0].1, Schema::Integer));
            assert_eq!(fields[1].0, "alias");
            assert!(matches!(&fields[1].1, Schema::Optional { elem } if matches!(**elem, Schema::Text)));
        }
        _ => panic!("an object document must classify as an object"),
    }
}

#[test]
fn classify_rejects_unsupported_documents() {
    assert!(matches!(
        classify(&bare_raw()),
        Err(Error::MalformedSchema)
    ));
    let unknown_type = RawSchema {
        instance_type: Some(String::from("tuple")),
        ..bare_raw()
    };
    assert!(matches!(
        classify(&unknown_type),
        Err(Error::MalformedSchema)
    ));
    let array_without_items = RawSchema {
        instance_type: Some(String::from("array")),
        ..bare_raw()
    };
    assert!(matches!(
        classify(&array_without_items),
        Err(Error::MalformedSchema)
    ));
    let empty_reference = RawSchema {
        reference: Some(String::from("#/definitions/")),
        ..bare_raw()
    };
    assert!(matches!(
        classify(&empty_reference),
        Err(Error::MalformedSchema)
    ));
}

#[test]
fn classify_enum_keeps_order() {
    let raw = RawSchema {
        title: Some(String::from("Direction")),
        enum_values: Some(vec![String::from("North"), String::from("East")]),
        ..bare_raw()
    };
    match classify(&raw).unwrap() {
        Schema::Union { title, variants } => {
            assert_eq!(title.unwrap(), "Direction");
            assert_eq!(variants, vec!["North", "East"]);
        }
        _ => panic!("an enum document must classify as a union"),
    }
}

#[test]
fn builder_sets_every_field() {
    let generator = Generator::builder()
        .with_contract_name_str("Adder")
        .with_input_file("adder-metadata.json")
        .with_schemafy_path("::helpers::")
        .build();
    assert_eq!(generator.contract_name, "Adder");
    assert_eq!(generator.input_file, "adder-metadata.json");
    assert_eq!(generator.schemafy_path, "::helpers::");

    let defaults = Generator::builder().build();
    assert_eq!(defaults.contract_name, "");
    assert_eq!(defaults.schemafy_path, "::schemafy_core::");
    assert_eq!(defaults.input_file, "schema.json");
}

#[test]
fn errors_describe_themselves() {
    assert!(Error::MissingTypeName.describe().contains("title"));
    let err = Error::UnresolvedReference {
        target: String::from("Missing"),
    };
    assert!(err.describe().ends_with("Missing"));
    assert!(Error::OutputWriteFailure.describe().contains("written"));
}

#[test]
fn declarations_carry_their_content() {
    let mut exp = Expander::new();
    let schema = Schema::Union {
        title: Some(String::from("Direction")),
        variants: vec![String::from("North"), String::from("East")],
    };
    exp.expand(&schema).unwrap();
    match &exp.decls[0] {
        Decl::Variants { name, variants } => {
            assert_eq!(name, "Direction");
            assert_eq!(variants.len(), 2);
        }
        _ => panic!("a union schema must emit a variants declaration"),
    }
}
