use delegate_trait::ast::{GenericArg, Path, PathSegment, TypeExpr};
use delegate_trait::driver::{
    ForwardingBlock, GenerationConfig, InterfaceRef, TargetTypeDescriptor,
};
use delegate_trait::error::GenError;
use delegate_trait::generics::GenericParam;
use delegate_trait::ast::GpKind;
use delegate_trait::decl::{InterfaceDefinition, Method, MethodSig};
use delegate_trait::input::{
    generate, parse_delegation_spec, select_interfaces, try_expand, SpecValue,
};
use delegate_trait::prefix::Prefixer;
use delegate_trait::resolve::{Item, TraitsVisitor};

fn path(segs: &[&str]) -> Path {
    Path {
        leading_colon: false,
        segments: segs
            .iter()
            .map(|s| PathSegment { ident: s.to_string(), args: Vec::new() })
            .collect(),
    }
}

fn plain_config() -> GenerationConfig {
    GenerationConfig {
        prefixer: Prefixer { prefix: path(&[]), crates: Vec::new() },
        renamer: None,
    }
}

fn wrapper_target() -> TargetTypeDescriptor {
    TargetTypeDescriptor {
        ident: "Wrapper".to_string(),
        generics: vec![GenericParam {
            kind: GpKind::Type,
            ident: "T".to_string(),
            bounds: Vec::new(),
        }],
        where_clause: None,
    }
}

fn shape_source() -> Vec<Item> {
    // interface Shape, no generic parameters, one method `area() -> f64`.
    vec![Item::Interface(InterfaceDefinition {
        name: "Shape".to_string(),
        generics: Vec::new(),
        supertraits: Vec::new(),
        methods: vec![Method {
            sig: MethodSig {
                ident: "area".to_string(),
                generics: Vec::new(),
                inputs: Vec::new(),
                output: Some(TypeExpr::Path(path(&["f64"]))),
            },
            default_body: None,
        }],
    })]
}

fn resolve(items: &Vec<Item>) -> Vec<(String, InterfaceDefinition)> {
    let mut visitor = TraitsVisitor::new();
    if visitor.visit_items(items).is_err() {
        panic!("resolution failed");
    }
    visitor.traits
}

#[test]
fn one_interface_yields_one_block_with_one_stub() {
    let traits = resolve(&shape_source());
    let requests = vec![InterfaceRef { path: path(&["Shape"]), generics: Vec::new() }];
    let blocks: Vec<ForwardingBlock> = match generate(
        &plain_config(),
        &wrapper_target(),
        &"self.inner".to_string(),
        &None,
        &None,
        &traits,
        &requests,
    ) {
        Ok(bs) => bs,
        Err(_) => panic!("generation failed"),
    };
    assert_eq!(blocks.len(), 1);
    let block = &blocks[0];
    assert_eq!(block.target_ident, "Wrapper");
    assert_eq!(block.to, "self.inner");
    assert_eq!(block.interface_path.segments.len(), 1);
    assert_eq!(block.interface_path.segments[0].ident, "Shape");
    // The target keeps its own generics; the usage site added none.
    assert_eq!(block.generics.len(), 1);
    assert_eq!(block.generics[0].ident, "T");
    // Exactly one forwarding stub, for `area`, annotated with the interface
    // path.
    assert_eq!(block.stubs.len(), 1);
    assert_eq!(block.stubs[0].sig.ident, "area");
    assert_eq!(block.stubs[0].origin.segments[0].ident, "Shape");
}

#[test]
fn duplicate_target_key_is_reported() {
    let entries = vec![
        ("target".to_string(), SpecValue::Target(wrapper_target())),
        ("to".to_string(), SpecValue::Expr("self.inner".to_string())),
        ("target".to_string(), SpecValue::Target(wrapper_target())),
    ];
    match parse_delegation_spec(entries) {
        Err(GenError::DuplicateKey(key)) => assert_eq!(key, "target"),
        _ => panic!("expected a duplicate-key error naming target"),
    }
}

#[test]
fn unknown_and_missing_keys_are_reported() {
    match parse_delegation_spec(vec![(
        "targets".to_string(),
        SpecValue::Expr("x".to_string()),
    )]) {
        Err(GenError::UnknownKey(key)) => assert_eq!(key, "targets"),
        _ => panic!("expected an unknown-key error"),
    }
    match parse_delegation_spec(vec![(
        "to".to_string(),
        SpecValue::Expr("self.inner".to_string()),
    )]) {
        Err(GenError::MissingKey(key)) => assert_eq!(key, "target"),
        _ => panic!("expected a missing-key error naming target"),
    }
    match parse_delegation_spec(vec![(
        "target".to_string(),
        SpecValue::Expr("not a target".to_string()),
    )]) {
        Err(GenError::WrongValue(key)) => assert_eq!(key, "target"),
        _ => panic!("expected a wrong-value error naming target"),
    }
}

#[test]
fn a_missing_interface_is_reported_by_name() {
    let traits = resolve(&shape_source());
    let requests = vec![InterfaceRef { path: path(&["Foo"]), generics: Vec::new() }];
    match generate(
        &plain_config(),
        &wrapper_target(),
        &"self.inner".to_string(),
        &None,
        &None,
        &traits,
        &requests,
    ) {
        Err(GenError::InterfaceNotFound(name)) => assert_eq!(name, "Foo"),
        _ => panic!("expected an interface-not-found error naming Foo"),
    }
}

#[test]
fn a_repeated_request_is_reported_by_name() {
    let traits = resolve(&shape_source());
    let requests = vec![
        InterfaceRef { path: path(&["Shape"]), generics: Vec::new() },
        InterfaceRef { path: path(&["some_mod", "Shape"]), generics: Vec::new() },
    ];
    match select_interfaces(&traits, &requests) {
        Err(GenError::DuplicateInterface(name)) => assert_eq!(name, "Shape"),
        _ => panic!("expected a duplicate-interface error naming Shape"),
    }
}

#[test]
fn a_request_path_with_arguments_is_refused() {
    let traits = resolve(&shape_source());
    let requests = vec![InterfaceRef {
        path: Path {
            leading_colon: false,
            segments: vec![PathSegment {
                ident: "Shape".to_string(),
                args: vec![GenericArg::Lifetime("a".to_string())],
            }],
        },
        generics: Vec::new(),
    }];
    match select_interfaces(&traits, &requests) {
        Err(GenError::WrongValue(name)) => assert_eq!(name, "Shape"),
        _ => panic!("expected the arguments on the path to be refused"),
    }
}

#[test]
fn arity_mismatch_stops_generation() {
    // The interface declares a lifetime and a type; the usage supplies one
    // parameter only.
    let source = vec![Item::Interface(InterfaceDefinition {
        name: "Iter".to_string(),
        generics: vec![
            GenericParam { kind: GpKind::Lifetime, ident: "a".to_string(), bounds: Vec::new() },
            GenericParam { kind: GpKind::Type, ident: "T".to_string(), bounds: Vec::new() },
        ],
        supertraits: Vec::new(),
        methods: Vec::new(),
    })];
    let traits = resolve(&source);
    let requests = vec![InterfaceRef {
        path: path(&["Iter"]),
        generics: vec![GenericParam {
            kind: GpKind::Lifetime,
            ident: "static".to_string(),
            bounds: Vec::new(),
        }],
    }];
    match generate(
        &plain_config(),
        &wrapper_target(),
        &"self.inner".to_string(),
        &None,
        &None,
        &traits,
        &requests,
    ) {
        Err(GenError::ArityMismatch { expected, actual }) => {
            assert_eq!(expected, 2);
            assert_eq!(actual, 1);
        }
        _ => panic!("expected an arity mismatch"),
    }
}

#[test]
fn dispatch_by_name_matches_the_one_pass_driver() {
    let traits = resolve(&shape_source());
    let requests = vec![InterfaceRef { path: path(&["Shape"]), generics: Vec::new() }];
    let to = "self.inner".to_string();
    let blocks = match generate(
        &plain_config(),
        &wrapper_target(),
        &to,
        &None,
        &None,
        &traits,
        &requests,
    ) {
        Ok(bs) => bs,
        Err(_) => panic!("generation failed"),
    };
    let dispatched = match try_expand(
        &plain_config(),
        &wrapper_target(),
        &to,
        &None,
        &None,
        &traits,
        &requests,
        &"Shape".to_string(),
    ) {
        Ok(b) => b,
        Err(_) => panic!("dispatch failed"),
    };
    assert_eq!(dispatched.stubs.len(), blocks[0].stubs.len());
    assert_eq!(dispatched.stubs[0].sig.ident, blocks[0].stubs[0].sig.ident);
    assert_eq!(dispatched.interface_path.segments[0].ident, "Shape");
}

#[test]
fn dispatch_of_an_unknown_name_is_reported() {
    let traits = resolve(&shape_source());
    let requests = vec![InterfaceRef { path: path(&["Shape"]), generics: Vec::new() }];
    match try_expand(
        &plain_config(),
        &wrapper_target(),
        &"self.inner".to_string(),
        &None,
        &None,
        &traits,
        &requests,
        &"Rect".to_string(),
    ) {
        Err(GenError::InterfaceNotFound(name)) => assert_eq!(name, "Rect"),
        _ => panic!("expected an unknown-interface error"),
    }
}

#[test]
fn substituted_methods_reach_the_stubs() {
    // interface Producer<T> { fn get(&self) -> T; } used as Producer<String>.
    let source = vec![Item::Interface(InterfaceDefinition {
        name: "Producer".to_string(),
        generics: vec![GenericParam {
            kind: GpKind::Type,
            ident: "T".to_string(),
            bounds: Vec::new(),
        }],
        supertraits: Vec::new(),
        methods: vec![Method {
            sig: MethodSig {
                ident: "get".to_string(),
                generics: Vec::new(),
                inputs: Vec::new(),
                output: Some(TypeExpr::Path(path(&["T"]))),
            },
            default_body: None,
        }],
    })];
    let traits = resolve(&source);
    // The usage site writes Producer<U>: its own parameter U replaces T.
    let requests = vec![InterfaceRef {
        path: path(&["Producer"]),
        generics: vec![GenericParam {
            kind: GpKind::Type,
            ident: "U".to_string(),
            bounds: Vec::new(),
        }],
    }];
    let blocks = match generate(
        &plain_config(),
        &wrapper_target(),
        &"self.inner".to_string(),
        &None,
        &None,
        &traits,
        &requests,
    ) {
        Ok(bs) => bs,
        Err(_) => panic!("generation failed"),
    };
    match blocks[0].stubs[0].sig.output.as_ref().unwrap() {
        TypeExpr::Path(p) => assert_eq!(p.segments[0].ident, "U"),
        _ => panic!("expected a path type"),
    }
    // The merged generics hold the target's T and the usage's U.
    let idents: Vec<&str> = blocks[0].generics.iter().map(|g| g.ident.as_str()).collect();
    assert_eq!(idents, vec!["T", "U"]);
}

#[test]
fn the_stable_root_is_crate_then_private() {
    let root = delegate_trait::driver::root_path(&"mycrate".to_string());
    assert!(root.leading_colon);
    let idents: Vec<&str> = root.segments.iter().map(|s| s.ident.as_str()).collect();
    assert_eq!(idents, vec!["mycrate", "__private"]);
    assert!(root.segments.iter().all(|s| s.args.is_empty()));
}
