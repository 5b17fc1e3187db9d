use near_abi_rs::generator::{Config, Generator};
use near_abi_rs::schema::{Error, Manifest, MethodEntry, Schema, TypeEntry};

fn pair_schema() -> Schema {
    Schema::Array {
        title: Some(String::from("Pair")),
        elem: Box::new(Schema::Integer),
    }
}

fn adder_manifest() -> Manifest {
    Manifest {
        types: vec![TypeEntry {
            id: 1,
            schema: pair_schema(),
        }],
        methods: vec![MethodEntry {
            name: String::from("add"),
            args: vec![1, 1],
            result: Some(1),
            is_view: true,
        }],
    }
}

#[test]
fn test_compile_abi() {
    let config = Config { out_dir: None };
    let generated = config.compile_manifest(&adder_manifest()).unwrap();
    let decls = "pub type Pair = Vec<i64>;\n";
    let container = "pub struct ExtContract {\n    pub contract: workspaces::Contract,\n}\n";
    let stub = "    pub async fn add(&self, worker: &workspaces::Worker<impl workspaces::Network>, arg0: Pair, arg1: Pair) -> anyhow::Result<Pair> {\n        let result = self.contract.call(worker, \"add\").args_json([arg0, arg1])?.view().await?;\n        result.json::<Pair>()\n    }\n";
    let expected = format!("{}{}impl ExtContract {{\n{}}}\n", decls, container, stub);
    assert_eq!(expected, generated);
}

#[test]
fn compile_is_deterministic() {
    let config = Config { out_dir: None };
    let first = config.compile_manifest(&adder_manifest()).unwrap();
    let second = config.compile_manifest(&adder_manifest()).unwrap();
    assert_eq!(first, second);
}

#[test]
fn duplicate_title_emits_one_declaration() {
    let config = Config { out_dir: None };
    let manifest = Manifest {
        types: vec![
            TypeEntry {
                id: 1,
                schema: pair_schema(),
            },
            TypeEntry {
                id: 2,
                schema: pair_schema(),
            },
        ],
        methods: vec![MethodEntry {
            name: String::from("add"),
            args: vec![1, 2],
            result: Some(2),
            is_view: true,
        }],
    };
    let generated = config.compile_manifest(&manifest).unwrap();
    assert_eq!(generated.matches("pub type Pair").count(), 1);
    assert!(generated.contains("arg0: Pair, arg1: Pair) -> anyhow::Result<Pair>"));
}

#[test]
fn unknown_argument_type_id_fails() {
    let config = Config { out_dir: None };
    let mut manifest = adder_manifest();
    manifest.methods[0].args = vec![1, 99];
    let err = config.compile_manifest(&manifest).unwrap_err();
    assert!(matches!(err, Error::UnknownTypeId { id: 99 }));
}

#[test]
fn missing_result_type_fails() {
    let config = Config { out_dir: None };
    let mut manifest = adder_manifest();
    manifest.methods[0].result = None;
    let err = config.compile_manifest(&manifest).unwrap_err();
    assert!(matches!(err, Error::UnresolvedReturnType));

    let mut manifest = adder_manifest();
    manifest.methods[0].result = Some(7);
    let err = config.compile_manifest(&manifest).unwrap_err();
    assert!(matches!(err, Error::UnresolvedReturnType));
}

#[test]
fn duplicate_type_id_fails() {
    let config = Config { out_dir: None };
    let manifest = Manifest {
        types: vec![
            TypeEntry {
                id: 1,
                schema: pair_schema(),
            },
            TypeEntry {
                id: 1,
                schema: Schema::Integer,
            },
        ],
        methods: vec![],
    };
    let err = config.compile_manifest(&manifest).unwrap_err();
    assert!(matches!(err, Error::MalformedManifest));
}

#[test]
fn object_without_title_fails() {
    let config = Config { out_dir: None };
    let manifest = Manifest {
        types: vec![TypeEntry {
            id: 1,
            schema: Schema::Object {
                title: None,
                fields: vec![],
            },
        }],
        methods: vec![],
    };
    let err = config.compile_manifest(&manifest).unwrap_err();
    assert!(matches!(err, Error::MissingTypeName));
}

#[test]
fn unresolved_reference_fails() {
    let config = Config { out_dir: None };
    let manifest = Manifest {
        types: vec![TypeEntry {
            id: 1,
            schema: Schema::Reference {
                target: String::from("Missing"),
            },
        }],
        methods: vec![],
    };
    let err = config.compile_manifest(&manifest).unwrap_err();
    match err {
        Error::UnresolvedReference { target } => assert_eq!(target, "Missing"),
        other => panic!("unexpected error: {}", other.describe()),
    }
}

#[test]
fn zero_argument_method_uses_empty_marker() {
    let config = Config { out_dir: None };
    let mut manifest = adder_manifest();
    manifest.methods[0].args = vec![];
    let generated = config.compile_manifest(&manifest).unwrap();
    assert!(generated.contains("args_json(())"));
    assert!(!generated.contains("args_json([])"));
}

#[test]
fn transaction_method_takes_budget_and_transfer() {
    let config = Config { out_dir: None };
    let mut manifest = adder_manifest();
    manifest.methods[0].is_view = false;
    let generated = config.compile_manifest(&manifest).unwrap();
    assert!(generated.contains(
        "(&self, worker: &workspaces::Worker<impl workspaces::Network>, \
         gas: near_primitives::types::Gas, deposit: near_primitives::types::Balance, \
         arg0: Pair, arg1: Pair)"
    ));
    assert!(generated.contains(".gas(gas).deposit(deposit).transact().await?;"));
    assert!(!generated.contains(".view()"));
}

#[test]
fn view_method_has_no_budget_or_transfer() {
    let config = Config { out_dir: None };
    let generated = config.compile_manifest(&adder_manifest()).unwrap();
    assert!(!generated.contains("gas"));
    assert!(!generated.contains("deposit"));
}

#[test]
fn nested_types_expand_in_first_expansion_order() {
    let config = Config { out_dir: None };
    let manifest = Manifest {
        types: vec![TypeEntry {
            id: 1,
            schema: Schema::Object {
                title: Some(String::from("Outer")),
                fields: vec![
                    (
                        String::from("inner"),
                        Schema::Object {
                            title: Some(String::from("Inner")),
                            fields: vec![(String::from("flag"), Schema::Boolean)],
                        },
                    ),
                    (
                        String::from("label"),
                        Schema::Optional {
                            elem: Box::new(Schema::Text),
                        },
                    ),
                ],
            },
        }],
        methods: vec![],
    };
    let generated = config.compile_manifest(&manifest).unwrap();
    let inner = generated.find("pub struct Inner {\n    pub flag: bool,\n}\n").unwrap();
    let outer = generated
        .find("pub struct Outer {\n    pub inner: Inner,\n    pub label: Option<String>,\n}\n")
        .unwrap();
    assert!(inner < outer);
}

#[test]
fn self_referential_type_expands() {
    let config = Config { out_dir: None };
    let manifest = Manifest {
        types: vec![TypeEntry {
            id: 1,
            schema: Schema::Object {
                title: Some(String::from("Node")),
                fields: vec![(
                    String::from("children"),
                    Schema::Array {
                        title: None,
                        elem: Box::new(Schema::Reference {
                            target: String::from("Node"),
                        }),
                    },
                )],
            },
        }],
        methods: vec![],
    };
    let generated = config.compile_manifest(&manifest).unwrap();
    assert!(generated.contains("pub struct Node {\n    pub children: Vec<Node>,\n}\n"));
}

#[test]
fn union_keeps_variant_order() {
    let config = Config { out_dir: None };
    let manifest = Manifest {
        types: vec![TypeEntry {
            id: 1,
            schema: Schema::Union {
                title: Some(String::from("Direction")),
                variants: vec![
                    String::from("North"),
                    String::from("East"),
                    String::from("South"),
                ],
            },
        }],
        methods: vec![],
    };
    let generated = config.compile_manifest(&manifest).unwrap();
    assert!(generated.contains(
        "pub enum Direction {\n    North,\n    East,\n    South,\n}\n"
    ));
}

#[test]
fn one_id_resolves_to_one_name_everywhere() {
    let config = Config { out_dir: None };
    let mut manifest = adder_manifest();
    manifest.methods.push(MethodEntry {
        name: String::from("get"),
        args: vec![],
        result: Some(1),
        is_view: true,
    });
    let generated = config.compile_manifest(&manifest).unwrap();
    assert!(generated.contains("pub async fn add(&self, worker: &workspaces::Worker<impl workspaces::Network>, arg0: Pair, arg1: Pair) -> anyhow::Result<Pair>"));
    assert!(generated.contains("pub async fn get(&self, worker: &workspaces::Worker<impl workspaces::Network>) -> anyhow::Result<Pair>"));
}

#[test]
fn generate_emits_trait_client() {
    let generator = Generator::builder()
        .with_contract_name_str("Adder")
        .build();
    let generated = generator.generate(&adder_manifest()).unwrap();
    let expected = "pub type Pair = Vec<i64>;\n#[near_sdk::ext_contract]\npub trait Adder {\n    fn add(&self, arg0: Pair, arg1: Pair) -> Pair;\n}\n";
    assert_eq!(expected, generated);
}

#[test]
fn generate_allows_resultless_methods() {
    let generator = Generator::builder()
        .with_contract_name(String::from("Adder"))
        .build();
    let mut manifest = adder_manifest();
    manifest.methods[0].result = None;
    let generated = generator.generate(&manifest).unwrap();
    assert!(generated.contains("    fn add(&self, arg0: Pair, arg1: Pair);\n"));
}
