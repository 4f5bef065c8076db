use delegate_trait::ast::{Bound, GpKind, Path, PathSegment};
use delegate_trait::generics::{
    merge_bounds, merge_generics, merge_where_clauses, GenericParam, WherePredicate, WhereClause,
    generic_param_name,
};

fn lifetime_bound(name: &str) -> Bound {
    Bound::Lifetime(name.to_string())
}

fn trait_bound(name: &str) -> Bound {
    Bound::Trait(Path {
        leading_colon: false,
        segments: vec![PathSegment { ident: name.to_string(), args: Vec::new() }],
    })
}

fn param(kind: GpKind, ident: &str, bounds: Vec<Bound>) -> GenericParam {
    GenericParam { kind, ident: ident.to_string(), bounds }
}

#[test]
fn merge_with_empty_addition_changes_nothing() {
    let mut target = vec![
        param(GpKind::Lifetime, "a", vec![]),
        param(GpKind::Type, "T", vec![trait_bound("Clone")]),
    ];
    merge_generics(&mut target, &Vec::new());
    assert_eq!(target.len(), 2);
    assert_eq!(target[0].ident, "a");
    assert_eq!(target[1].ident, "T");
    assert_eq!(target[1].bounds.len(), 1);
}

#[test]
fn merge_of_disjoint_lists_adds_the_lengths() {
    let mut target = vec![param(GpKind::Type, "T", vec![])];
    let addition = vec![
        param(GpKind::Lifetime, "a", vec![]),
        param(GpKind::Type, "U", vec![]),
        param(GpKind::Const, "N", vec![]),
    ];
    merge_generics(&mut target, &addition);
    assert_eq!(target.len(), 4);
    // Lifetimes come first, then types, then consts.
    assert!(matches!(target[0].kind, GpKind::Lifetime));
    assert_eq!(target[0].ident, "a");
    assert_eq!(target[1].ident, "T");
    assert_eq!(target[2].ident, "U");
    assert!(matches!(target[3].kind, GpKind::Const));
}

#[test]
fn merge_on_collision_appends_the_bounds() {
    let mut target = vec![param(GpKind::Type, "T", vec![trait_bound("Clone")])];
    let addition = vec![param(GpKind::Type, "T", vec![trait_bound("Send"), lifetime_bound("a")])];
    merge_generics(&mut target, &addition);
    assert_eq!(target.len(), 1);
    assert_eq!(target[0].bounds.len(), 3);
    assert!(matches!(&target[0].bounds[0], Bound::Trait(p) if p.segments[0].ident == "Clone"));
    assert!(matches!(&target[0].bounds[1], Bound::Trait(p) if p.segments[0].ident == "Send"));
    assert!(matches!(&target[0].bounds[2], Bound::Lifetime(l) if l == "a"));
}

#[test]
fn merge_bounds_appends_in_order() {
    let mut a = param(GpKind::Type, "T", vec![trait_bound("Clone")]);
    let b = param(GpKind::Type, "T", vec![trait_bound("Send")]);
    merge_bounds(&mut a, &b);
    assert_eq!(a.bounds.len(), 2);
}

fn pred(name: &str) -> WherePredicate {
    WherePredicate::Lifetime { lifetime: name.to_string(), outlives: Vec::new() }
}

#[test]
fn merge_where_none_addition_changes_nothing() {
    let mut w = Some(WhereClause { predicates: vec![pred("a")] });
    merge_where_clauses(&mut w, &None);
    assert_eq!(w.as_ref().unwrap().predicates.len(), 1);

    let mut none: Option<WhereClause> = None;
    merge_where_clauses(&mut none, &None);
    assert!(none.is_none());
}

#[test]
fn merge_where_none_target_adopts_addition() {
    let mut w: Option<WhereClause> = None;
    merge_where_clauses(&mut w, &Some(WhereClause { predicates: vec![pred("a"), pred("b")] }));
    assert_eq!(w.as_ref().unwrap().predicates.len(), 2);
}

#[test]
fn merge_where_appends_after_target() {
    let mut w = Some(WhereClause { predicates: vec![pred("a")] });
    merge_where_clauses(&mut w, &Some(WhereClause { predicates: vec![pred("b")] }));
    let got = w.unwrap();
    assert_eq!(got.predicates.len(), 2);
    assert!(matches!(&got.predicates[0], WherePredicate::Lifetime { lifetime, .. } if lifetime == "a"));
    assert!(matches!(&got.predicates[1], WherePredicate::Lifetime { lifetime, .. } if lifetime == "b"));
}

#[test]
fn kind_names() {
    assert_eq!(generic_param_name(&param(GpKind::Lifetime, "a", vec![])), "lifetime");
    assert_eq!(generic_param_name(&param(GpKind::Type, "T", vec![])), "type");
    assert_eq!(generic_param_name(&param(GpKind::Const, "N", vec![])), "const");
}
