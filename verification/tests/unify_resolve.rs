use delegate_trait::ast::{GenericArg, GpKind, Path, PathSegment, TypeExpr};
use delegate_trait::error::GenError;
use delegate_trait::generics::GenericParam;
use delegate_trait::subst::{unify, LookupTokenModifier};
use delegate_trait::decl::{InterfaceDefinition, Method, MethodSig};
use delegate_trait::prefix::{PathRootRenamer, Prefixer};
use delegate_trait::resolve::{Item, TraitsVisitor, UseTree};

fn path(segs: &[&str]) -> Path {
    Path {
        leading_colon: false,
        segments: segs
            .iter()
            .map(|s| PathSegment { ident: s.to_string(), args: Vec::new() })
            .collect(),
    }
}

fn param(kind: GpKind, ident: &str) -> GenericParam {
    GenericParam { kind, ident: ident.to_string(), bounds: Vec::new() }
}

#[test]
fn unify_reports_an_arity_mismatch() {
    // The interface declares a lifetime and a type; the usage supplies one
    // lifetime only.
    let params = vec![param(GpKind::Lifetime, "a"), param(GpKind::Type, "T")];
    let args = vec![GenericArg::Lifetime("static".to_string())];
    match unify(&params, &args) {
        Err(GenError::ArityMismatch { expected, actual }) => {
            assert_eq!(expected, 2);
            assert_eq!(actual, 1);
        }
        _ => panic!("expected an arity mismatch"),
    }
}

#[test]
fn unify_reports_a_kind_mismatch_at_the_first_position() {
    let params = vec![param(GpKind::Lifetime, "a"), param(GpKind::Type, "T")];
    let args = vec![
        GenericArg::Lifetime("x".to_string()),
        GenericArg::Lifetime("y".to_string()),
    ];
    match unify(&params, &args) {
        Err(GenError::KindMismatch { position, expected, actual }) => {
            assert_eq!(position, 1);
            assert!(matches!(expected, GpKind::Type));
            assert!(matches!(actual, GpKind::Lifetime));
        }
        _ => panic!("expected a kind mismatch"),
    }
}

#[test]
fn unify_substitutes_a_type_parameter() {
    let params = vec![param(GpKind::Type, "T")];
    let args = vec![GenericArg::Type(TypeExpr::Path(path(&["String"])))];
    let table = match unify(&params, &args) {
        Ok(t) => t,
        Err(_) => panic!("unification failed"),
    };
    let modifier = LookupTokenModifier { table: &table };
    let rewritten = modifier.modify_type(&TypeExpr::Path(path(&["T"])));
    match rewritten {
        TypeExpr::Path(p) => assert_eq!(p.segments[0].ident, "String"),
        _ => panic!("expected a path type"),
    }
}

#[test]
fn renamed_import_resolves_through_its_target() {
    // Inside module m: `use a::b::C as D;`, and an interface whose method
    // takes a `D::method` reference; it must resolve to `a::b::C::method`.
    let iface = InterfaceDefinition {
        name: "I".to_string(),
        generics: Vec::new(),
        supertraits: Vec::new(),
        methods: vec![Method {
            sig: MethodSig {
                ident: "f".to_string(),
                generics: Vec::new(),
                inputs: Vec::new(),
                output: Some(TypeExpr::Path(path(&["D", "method"]))),
            },
            default_body: Some("1".to_string()),
        }],
    };
    let tree = Item::Mod {
        name: "m".to_string(),
        items: vec![
            Item::Use(UseTree::Path {
                ident: "a".to_string(),
                tree: Box::new(UseTree::Path {
                    ident: "b".to_string(),
                    tree: Box::new(UseTree::Rename {
                        ident: "C".to_string(),
                        rename: "D".to_string(),
                    }),
                }),
            }),
            Item::Interface(iface),
        ],
    };
    let mut visitor = TraitsVisitor::new();
    if visitor.visit_items(&vec![tree]).is_err() {
        panic!("resolution failed");
    }
    assert_eq!(visitor.traits.len(), 1);
    let (name, resolved) = &visitor.traits[0];
    assert_eq!(name, "I");
    // The default body is stripped on ingestion.
    assert!(resolved.methods[0].default_body.is_none());
    match resolved.methods[0].sig.output.as_ref().unwrap() {
        TypeExpr::Path(p) => {
            let idents: Vec<&str> = p.segments.iter().map(|s| s.ident.as_str()).collect();
            assert_eq!(idents, vec!["a", "b", "C", "method"]);
        }
        _ => panic!("expected a path type"),
    }
}

#[test]
fn duplicate_interface_names_are_a_hard_error() {
    let mk = |n: &str| {
        Item::Interface(InterfaceDefinition {
            name: n.to_string(),
            generics: Vec::new(),
            supertraits: Vec::new(),
            methods: Vec::new(),
        })
    };
    let mut visitor = TraitsVisitor::new();
    match visitor.visit_items(&vec![mk("I"), mk("I")]) {
        Err(GenError::DuplicateInterface(name)) => assert_eq!(name, "I"),
        _ => panic!("expected a duplicate-interface error"),
    }
}

#[test]
fn build_string_is_formatted() {
    let out = delegate_trait::builds::generate_delegate_build_string(
        &"x".to_string(),
        &"y".to_string(),
    );
    // The formatter reflows the compact template, so the output is not the
    // raw concatenation.
    assert!(out.starts_with("pub use x::y;"));
    assert!(out.contains("pub mod __private"));
    assert!(out.contains('\n'));
}

#[test]
fn alias_splice_keeps_the_head_arguments() {
    // An import of C and a reference `C<T>::Out`: the splice must keep
    // `<T>` on the segment that names C.
    let head = PathSegment {
        ident: "C".to_string(),
        args: vec![GenericArg::Type(TypeExpr::Path(path(&["T"])))],
    };
    let reference = Path {
        leading_colon: false,
        segments: vec![head, PathSegment { ident: "Out".to_string(), args: Vec::new() }],
    };
    let iface = InterfaceDefinition {
        name: "I".to_string(),
        generics: Vec::new(),
        supertraits: Vec::new(),
        methods: vec![Method {
            sig: MethodSig {
                ident: "f".to_string(),
                generics: Vec::new(),
                inputs: Vec::new(),
                output: Some(TypeExpr::Path(reference)),
            },
            default_body: None,
        }],
    };
    let items = vec![
        Item::Use(UseTree::Path {
            ident: "a".to_string(),
            tree: Box::new(UseTree::Name { ident: "C".to_string() }),
        }),
        Item::Interface(iface),
    ];
    let mut visitor = TraitsVisitor::new();
    if visitor.visit_items(&items).is_err() {
        panic!("resolution failed");
    }
    match visitor.traits[0].1.methods[0].sig.output.as_ref().unwrap() {
        TypeExpr::Path(p) => {
            let idents: Vec<&str> = p.segments.iter().map(|s| s.ident.as_str()).collect();
            assert_eq!(idents, vec!["a", "C", "Out"]);
            // The argument list of the head moved onto the segment naming C.
            assert_eq!(p.segments[1].args.len(), 1);
            assert!(p.segments[0].args.is_empty());
        }
        _ => panic!("expected a path type"),
    }
}

#[test]
fn prefixer_splices_the_root_before_known_crates() {
    let prefixer = Prefixer {
        prefix: Path {
            leading_colon: true,
            segments: vec![
                PathSegment { ident: "mycrate".to_string(), args: Vec::new() },
                PathSegment { ident: "__private".to_string(), args: Vec::new() },
            ],
        },
        crates: vec!["serde".to_string()],
    };
    let spliced = prefixer.prefix_path(&path(&["serde", "Serialize"]));
    assert!(spliced.leading_colon);
    let idents: Vec<&str> = spliced.segments.iter().map(|s| s.ident.as_str()).collect();
    assert_eq!(idents, vec!["mycrate", "__private", "serde", "Serialize"]);

    // A reference to an unlisted root is left alone.
    let kept = prefixer.prefix_path(&path(&["std", "fmt", "Debug"]));
    assert!(!kept.leading_colon);
    assert_eq!(kept.segments.len(), 3);
}

#[test]
fn renamer_reanchors_the_package_root() {
    let renamer = PathRootRenamer {
        original: "mypkg".to_string(),
        rename: "crate".to_string(),
        remove_leading_colon: true,
    };
    let renamed = renamer.modify_path(&Path {
        leading_colon: true,
        segments: vec![
            PathSegment { ident: "mypkg".to_string(), args: Vec::new() },
            PathSegment { ident: "util".to_string(), args: Vec::new() },
        ],
    });
    assert!(!renamed.leading_colon);
    let idents: Vec<&str> = renamed.segments.iter().map(|s| s.ident.as_str()).collect();
    assert_eq!(idents, vec!["crate", "util"]);

    // A bare reference to the package name alone is not a rooted path and
    // stays as written.
    let kept = renamer.modify_path(&path(&["mypkg"]));
    assert_eq!(kept.segments[0].ident, "mypkg");
}
