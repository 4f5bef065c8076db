//! Generic parameter lists and constraint (where-clause) sets, and the
//! operations that merge them when a forwarding implementation combines the
//! target type's own generics with those a usage site introduces.
//!
//! Merging appends the addition's parameters behind the target's while
//! keeping lifetimes before types before consts; a parameter that is already
//! present (same kind and same identifier) instead has the addition's bounds
//! appended to its own.

use vstd::prelude::*;

use crate::ast::Bound;
use crate::ast::BoundV;
use crate::ast::GpKind;
use crate::ast::TypeExpr;
use crate::ast::TypeV;
use crate::ast::copy_bound;
use crate::ast::copy_bound_vec;
use crate::ast::copy_ty;
use crate::ast::kind_rank;
use crate::ast::view_bound;
use crate::ast::view_bound_slice;
use crate::ast::view_ty;

verus! {

broadcast use vstd::seq::axiom_seq_index_decreases, vstd::std_specs::vec::axiom_vec_decreases_to_view;

/// One declared generic parameter: its kind, identifier and bound list.
pub struct GenericParam {
    pub kind: GpKind,
    pub ident: String,
    pub bounds: Vec<Bound>,
}

/// Mirror of [`GenericParam`].
#[verifier::ext_equal]
pub struct ParamV {
    pub kind: GpKind,
    pub ident: Seq<char>,
    pub bounds: Seq<BoundV>,
}

/// View of a generic parameter.
pub open spec fn view_param(p: GenericParam) -> ParamV {
    ParamV { kind: p.kind, ident: p.ident@, bounds: view_bound_slice(p.bounds@) }
}

/// Elementwise view of a sequence of generic parameters.
pub open spec fn view_param_slice(ps: Seq<GenericParam>) -> Seq<ParamV> {
    Seq::new(
        ps.len(),
        |i: int|
            if 0 <= i < ps.len() {
                view_param(ps[i])
            } else {
                ParamV { kind: GpKind::Type, ident: Seq::empty(), bounds: Seq::empty() }
            },
    )
}

/// One predicate of a where clause.
pub enum WherePredicate {
    Type { ty: TypeExpr, bounds: Vec<Bound> },
    Lifetime { lifetime: String, outlives: Vec<String> },
}

/// Mirror of [`WherePredicate`].
#[verifier::ext_equal]
pub enum PredicateV {
    Type { ty: TypeV, bounds: Seq<BoundV> },
    Lifetime { lifetime: Seq<char>, outlives: Seq<Seq<char>> },
}

/// A where clause: its predicate list.
pub struct WhereClause {
    pub predicates: Vec<WherePredicate>,
}

/// Elementwise view of a sequence of identifiers.
pub open spec fn view_ident_slice(ss: Seq<String>) -> Seq<Seq<char>> {
    Seq::new(ss.len(), |i: int| if 0 <= i < ss.len() { ss[i]@ } else { Seq::empty() })
}

/// View of a where-clause predicate.
pub open spec fn view_predicate(p: WherePredicate) -> PredicateV {
    match p {
        WherePredicate::Type { ty, bounds } => PredicateV::Type {
            ty: view_ty(ty),
            bounds: view_bound_slice(bounds@),
        },
        WherePredicate::Lifetime { lifetime, outlives } => PredicateV::Lifetime {
            lifetime: lifetime@,
            outlives: view_ident_slice(outlives@),
        },
    }
}

/// Elementwise view of a sequence of predicates.
pub open spec fn view_predicate_slice(ps: Seq<WherePredicate>) -> Seq<PredicateV> {
    Seq::new(
        ps.len(),
        |i: int|
            if 0 <= i < ps.len() {
                view_predicate(ps[i])
            } else {
                PredicateV::Lifetime { lifetime: Seq::empty(), outlives: Seq::empty() }
            },
    )
}

/// View of an optional where clause. `None` (no clause at all) is kept apart
/// from an empty predicate list, as the merge treats them alike but callers
/// may not.
pub open spec fn view_opt_where(w: Option<WhereClause>) -> Option<Seq<PredicateV>> {
    match w {
        Some(wc) => Some(view_predicate_slice(wc.predicates@)),
        None => None,
    }
}

// ---------------------------------------------------------------------------
// Copies.
// ---------------------------------------------------------------------------

/// Copies a generic parameter.
pub fn copy_param(p: &GenericParam) -> (r: GenericParam)
    ensures
        view_param(r) == view_param(*p),
{
    GenericParam { kind: p.kind, ident: p.ident.clone(), bounds: copy_bound_vec(&p.bounds) }
}

/// Copies a vector of generic parameters.
pub fn copy_param_vec(ps: &Vec<GenericParam>) -> (r: Vec<GenericParam>)
    ensures
        view_param_slice(r@) == view_param_slice(ps@),
{
    let mut out: Vec<GenericParam> = Vec::new();
    let mut i: usize = 0;
    while i < ps.len()
        invariant
            i <= ps.len(),
            out@.len() == i as int,
            forall|k: int| 0 <= k < i ==> view_param(out@[k]) == view_param(ps@[k]),
        decreases ps.len() - i,
    {
        let c = copy_param(&ps[i]);
        out.push(c);
        i += 1;
    }
    proof {
        assert(view_param_slice(out@) =~= view_param_slice(ps@));
    }
    out
}

/// Copies a where-clause predicate.
pub fn copy_predicate(p: &WherePredicate) -> (r: WherePredicate)
    ensures
        view_predicate(r) == view_predicate(*p),
{
    match p {
        WherePredicate::Type { ty, bounds } => WherePredicate::Type {
            ty: copy_ty(ty),
            bounds: copy_bound_vec(bounds),
        },
        WherePredicate::Lifetime { lifetime, outlives } => {
            let mut out: Vec<String> = Vec::new();
            let mut i: usize = 0;
            while i < outlives.len()
                invariant
                    i <= outlives.len(),
                    out@.len() == i as int,
                    forall|k: int| 0 <= k < i ==> out@[k]@ == outlives@[k]@,
                decreases outlives.len() - i,
            {
                let c = outlives[i].clone();
                out.push(c);
                i += 1;
            }
            proof {
                assert(view_ident_slice(out@) =~= view_ident_slice(outlives@));
            }
            WherePredicate::Lifetime { lifetime: lifetime.clone(), outlives: out }
        },
    }
}

/// Copies a where clause.
pub fn copy_where_clause(w: &WhereClause) -> (r: WhereClause)
    ensures
        view_predicate_slice(r.predicates@) == view_predicate_slice(w.predicates@),
{
    let mut out: Vec<WherePredicate> = Vec::new();
    let mut i: usize = 0;
    while i < w.predicates.len()
        invariant
            i <= w.predicates.len(),
            out@.len() == i as int,
            forall|k: int| 0 <= k < i ==> view_predicate(out@[k]) == view_predicate(w.predicates@[k]),
        decreases w.predicates.len() - i,
    {
        let c = copy_predicate(&w.predicates[i]);
        out.push(c);
        i += 1;
    }
    proof {
        assert(view_predicate_slice(out@) =~= view_predicate_slice(w.predicates@));
    }
    WhereClause { predicates: out }
}

// ---------------------------------------------------------------------------
// Identification of parameters.
// ---------------------------------------------------------------------------

/// A generic parameter's identity for collision purposes: lifetimes live in
/// a namespace of their own, type and const parameters share one.
pub enum GenericIdent {
    Lifetime(String),
    Other(String),
}

impl GenericIdent {
    /// The identity of a declared parameter.
    pub fn from_param(p: &GenericParam) -> (r: GenericIdent)
        ensures
            p.kind is Lifetime ==> r == GenericIdent::Lifetime(p.ident),
            !(p.kind is Lifetime) ==> r == GenericIdent::Other(p.ident),
    {
        match p.kind {
            GpKind::Lifetime => GenericIdent::Lifetime(p.ident.clone()),
            GpKind::Type => GenericIdent::Other(p.ident.clone()),
            GpKind::Const => GenericIdent::Other(p.ident.clone()),
        }
    }
}

/// The display word for a parameter's kind, as used in mismatch diagnostics.
pub open spec fn kind_name(k: GpKind) -> Seq<char> {
    match k {
        GpKind::Lifetime => "lifetime"@,
        GpKind::Type => "type"@,
        GpKind::Const => "const"@,
    }
}

/// Names a generic parameter's kind.
pub fn generic_param_name(p: &GenericParam) -> (r: &'static str)
    ensures
        r@ == kind_name(p.kind),
{
    match p.kind {
        GpKind::Lifetime => "lifetime",
        GpKind::Type => "type",
        GpKind::Const => "const",
    }
}

// ---------------------------------------------------------------------------
// Merging, at the specification level.
// ---------------------------------------------------------------------------

/// Whether a parameter has the given kind and identifier.
pub open spec fn param_matches(p: ParamV, kind: GpKind, ident: Seq<char>) -> bool {
    p.kind == kind && p.ident == ident
}

/// The first index whose parameter has the given kind and identifier, or -1.
pub open spec fn find_param(s: Seq<ParamV>, kind: GpKind, ident: Seq<char>) -> int
    decreases s.len(),
{
    if s.len() == 0 {
        -1
    } else if param_matches(s[0], kind, ident) {
        0
    } else {
        let r = find_param(s.drop_first(), kind, ident);
        if r < 0 {
            -1
        } else {
            r + 1
        }
    }
}

/// Whether the list holds a parameter of the given kind and identifier.
pub open spec fn has_param(s: Seq<ParamV>, kind: GpKind, ident: Seq<char>) -> bool {
    find_param(s, kind, ident) >= 0
}

/// The bound list of the parameter with the given kind and identifier.
pub open spec fn bounds_of(s: Seq<ParamV>, kind: GpKind, ident: Seq<char>) -> Seq<BoundV> {
    s[find_param(s, kind, ident)].bounds
}

/// Where a new parameter of the given kind goes: after every parameter of
/// the same or an earlier kind, before the first one of a later kind.
pub open spec fn insert_pos(s: Seq<ParamV>, kind: GpKind) -> int
    decreases s.len(),
{
    if s.len() == 0 {
        0
    } else if kind_rank(s[0].kind) > kind_rank(kind) {
        0
    } else {
        1 + insert_pos(s.drop_first(), kind)
    }
}

/// One parameter of the addition folded into the target list.
pub open spec fn merge_param_into(s: Seq<ParamV>, p: ParamV) -> Seq<ParamV> {
    let i = find_param(s, p.kind, p.ident);
    if i >= 0 {
        s.update(i, ParamV { kind: s[i].kind, ident: s[i].ident, bounds: s[i].bounds + p.bounds })
    } else {
        s.insert(insert_pos(s, p.kind), p)
    }
}

/// The addition folded into the target list, left to right.
pub open spec fn merge_params(a: Seq<ParamV>, b: Seq<ParamV>) -> Seq<ParamV>
    decreases b.len(),
{
    if b.len() == 0 {
        a
    } else {
        merge_params(merge_param_into(a, b[0]), b.drop_first())
    }
}

/// The merge of two optional constraint sets: an absent side is adopted
/// wholesale, otherwise the addition's predicates follow the target's.
pub open spec fn merge_wc(a: Option<Seq<PredicateV>>, b: Option<Seq<PredicateV>>) -> Option<
    Seq<PredicateV>,
> {
    match b {
        None => a,
        Some(bp) => match a {
            None => Some(bp),
            Some(ap) => Some(ap + bp),
        },
    }
}

// ---------------------------------------------------------------------------
// Characterizations of the search functions.
// ---------------------------------------------------------------------------

/// `find_param` returns the first matching index, or -1 when nothing
/// matches.
pub proof fn lemma_find_param(s: Seq<ParamV>, kind: GpKind, ident: Seq<char>)
    ensures
        -1 <= find_param(s, kind, ident) < s.len(),
        find_param(s, kind, ident) >= 0 ==> param_matches(s[find_param(s, kind, ident)], kind, ident),
        forall|k: int|
            0 <= k < find_param(s, kind, ident) ==> !param_matches(s[k], kind, ident),
        find_param(s, kind, ident) == -1 ==> forall|k: int|
            0 <= k < s.len() ==> !param_matches(s[k], kind, ident),
    decreases s.len(),
{
    if s.len() == 0 {
    } else if param_matches(s[0], kind, ident) {
    } else {
        let d = s.drop_first();
        lemma_find_param(d, kind, ident);
        let r = find_param(d, kind, ident);
        if r < 0 {
            assert(find_param(s, kind, ident) == -1);
            assert forall|k: int| 0 <= k < s.len() implies !param_matches(s[k], kind, ident) by {
                if k > 0 {
                    assert(s[k] == d[k - 1]);
                }
            }
        } else {
            assert(find_param(s, kind, ident) == r + 1);
            assert(s[r + 1] == d[r]);
            assert forall|k: int| 0 <= k < r + 1 implies !param_matches(s[k], kind, ident) by {
                if k > 0 {
                    assert(s[k] == d[k - 1]);
                }
            }
        }
    }
}

/// `insert_pos` is the first index whose parameter ranks after the given
/// kind, keeping the kind ordering intact.
pub proof fn lemma_insert_pos(s: Seq<ParamV>, kind: GpKind)
    ensures
        0 <= insert_pos(s, kind) <= s.len(),
        forall|k: int| 0 <= k < insert_pos(s, kind) ==> kind_rank(s[k].kind) <= kind_rank(kind),
        insert_pos(s, kind) < s.len() ==> kind_rank(s[insert_pos(s, kind)].kind) > kind_rank(kind),
    decreases s.len(),
{
    if s.len() == 0 {
    } else if kind_rank(s[0].kind) > kind_rank(kind) {
    } else {
        let d = s.drop_first();
        lemma_insert_pos(d, kind);
        let r = insert_pos(d, kind);
        assert(insert_pos(s, kind) == 1 + r);
        if 1 + r < s.len() {
            assert(s[1 + r] == d[r]);
        }
        assert forall|k: int| 0 <= k < 1 + r implies kind_rank(s[k].kind) <= kind_rank(kind) by {
            if k > 0 {
                assert(s[k] == d[k - 1]);
            }
        }
    }
}

// ---------------------------------------------------------------------------
// Merging, executable.
// ---------------------------------------------------------------------------

/// Appends the addition's bounds behind the target parameter's own.
#[verifier::loop_isolation(false)]
pub fn merge_bounds(g1: &mut GenericParam, g2: &GenericParam)
    requires
        old(g1).kind == g2.kind,
    ensures
        view_param(*final(g1)) == (ParamV {
            kind: view_param(*old(g1)).kind,
            ident: view_param(*old(g1)).ident,
            bounds: view_param(*old(g1)).bounds + view_param(*g2).bounds,
        }),
{
    let ghost n = old(g1).bounds@.len() as int;
    let mut i: usize = 0;
    while i < g2.bounds.len()
        invariant
            i <= g2.bounds.len(),
            g1.kind == old(g1).kind,
            g1.ident == old(g1).ident,
            g1.bounds@.len() == n + i as int,
            forall|k: int| 0 <= k < n ==> view_bound(g1.bounds@[k]) == view_bound(
                old(g1).bounds@[k],
            ),
            forall|k: int| 0 <= k < i ==> view_bound(g1.bounds@[n + k]) == view_bound(
                g2.bounds@[k],
            ),
        decreases g2.bounds.len() - i,
    {
        let c = copy_bound(&g2.bounds[i]);
        let ghost prev = g1.bounds@;
        g1.bounds.push(c);
        i += 1;
        proof {
            assert forall|k: int| 0 <= k < i implies view_bound(g1.bounds@[n + k]) == view_bound(
                g2.bounds@[k],
            ) by {
                if n + k < prev.len() {
                    assert(g1.bounds@[n + k] == prev[n + k]);
                } else {
                    assert(g1.bounds@[n + k] == c);
                }
            }
            assert forall|k: int| 0 <= k < n implies view_bound(g1.bounds@[k]) == view_bound(
                old(g1).bounds@[k],
            ) by {
                assert(g1.bounds@[k] == prev[k]);
            }
        }
    }
    proof {
        assert(view_bound_slice(g1.bounds@) =~= view_bound_slice(old(g1).bounds@)
            + view_bound_slice(g2.bounds@));
        assert(view_param(*g1) =~= ParamV {
            kind: view_param(*old(g1)).kind,
            ident: view_param(*old(g1)).ident,
            bounds: view_param(*old(g1)).bounds + view_param(*g2).bounds,
        });
    }
}

/// The rank of a parameter kind, as executable code.
pub fn kind_rank_exec(k: GpKind) -> (r: usize)
    ensures
        r as int == kind_rank(k),
{
    match k {
        GpKind::Lifetime => 0,
        GpKind::Type => 1,
        GpKind::Const => 2,
    }
}

/// Folding one more parameter of the addition extends the merge by one step.
proof fn lemma_merge_params_take_step(a: Seq<ParamV>, b: Seq<ParamV>, j: int)
    requires
        0 < j <= b.len(),
    ensures
        merge_params(a, b.take(j)) == merge_param_into(merge_params(a, b.take(j - 1)), b[j - 1]),
{
    lemma_merge_params_push(a, b.take(j - 1), b[j - 1]);
    assert(b.take(j) =~= b.take(j - 1).push(b[j - 1]));
}

/// Merging a list extended by one parameter folds that parameter in last.
proof fn lemma_merge_params_push(a: Seq<ParamV>, b: Seq<ParamV>, p: ParamV)
    ensures
        merge_params(a, b.push(p)) == merge_param_into(merge_params(a, b), p),
    decreases b.len(),
{
    if b.len() == 0 {
        assert(b.push(p)[0] == p);
        assert(b.push(p).drop_first() =~= Seq::<ParamV>::empty());
        assert(merge_params(a, b.push(p)) == merge_params(merge_param_into(a, p), Seq::empty()));
    } else {
        assert(b.push(p)[0] == b[0]);
        assert(b.push(p).drop_first() =~= b.drop_first().push(p));
        lemma_merge_params_push(merge_param_into(a, b[0]), b.drop_first(), p);
        assert(merge_params(a, b.push(p)) == merge_params(
            merge_param_into(a, b[0]),
            b.drop_first().push(p),
        ));
    }
}

/// Folds every parameter of the addition into the target list: a parameter
/// already present (same kind, same identifier) has the addition's bounds
/// appended to its own; a new one is appended at the end of its kind's
/// section.
#[verifier::loop_isolation(false)]
pub fn merge_generics(g1: &mut Vec<GenericParam>, g2: &Vec<GenericParam>)
    ensures
        view_param_slice(final(g1)@) == merge_params(
            view_param_slice(old(g1)@),
            view_param_slice(g2@),
        ),
{
    let ghost b = view_param_slice(g2@);
    let mut j: usize = 0;
    while j < g2.len()
        invariant
            j <= g2.len(),
            b == view_param_slice(g2@),
            view_param_slice(g1@) == merge_params(view_param_slice(old(g1)@), b.take(j as int)),
        decreases g2.len() - j,
    {
        let ghost s = view_param_slice(g1@);
        let ghost p = view_param(g2@[j as int]);

        // Search for a parameter of the same kind and identifier.
        let mut i: usize = 0;
        let mut idx: usize = 0;
        let mut found: bool = false;
        while i < g1.len() && !found
            invariant
                j < g2.len(),
                i <= g1.len(),
                s == view_param_slice(g1@),
                p == view_param(g2@[j as int]),
                !found ==> forall|k: int| 0 <= k < i ==> !param_matches(s[k], p.kind, p.ident),
                found ==> idx < g1.len() && param_matches(s[idx as int], p.kind, p.ident)
                    && forall|k: int| 0 <= k < idx ==> !param_matches(s[k], p.kind, p.ident),
            decreases g1.len() - i,
        {
            if g1[i].kind == g2[j].kind && g1[i].ident == g2[j].ident {
                found = true;
                idx = i;
            }
            i += 1;
        }
        proof {
            lemma_find_param(s, p.kind, p.ident);
            if found {
                assert(find_param(s, p.kind, p.ident) == idx as int);
            } else {
                assert(find_param(s, p.kind, p.ident) == -1);
            }
        }
        if found {
            let mut tmp = g1.remove(idx);
            merge_bounds(&mut tmp, &g2[j]);
            g1.insert(idx, tmp);
            proof {
                assert(view_param_slice(g1@) =~= merge_param_into(s, p));
            }
        } else {
            // Append at the end of the section of this parameter's kind.
            let pk = kind_rank_exec(g2[j].kind);
            let mut pos: usize = 0;
            let mut done: bool = false;
            while pos < g1.len() && !done
                invariant
                    j < g2.len(),
                    pos <= g1.len(),
                    pk as int == kind_rank(p.kind),
                    s == view_param_slice(g1@),
                    p == view_param(g2@[j as int]),
                    forall|k: int| 0 <= k < pos ==> kind_rank(s[k].kind) <= kind_rank(p.kind),
                    done ==> pos < g1.len() && kind_rank(s[pos as int].kind) > kind_rank(p.kind),
                decreases g1.len() - pos, 1int - (if done { 1int } else { 0int }),
            {
                let rk = kind_rank_exec(g1[pos].kind);
                if rk <= pk {
                    pos += 1;
                } else {
                    done = true;
                }
            }
            proof {
                lemma_insert_pos(s, p.kind);
                assert(insert_pos(s, p.kind) == pos as int);
            }
            let c = copy_param(&g2[j]);
            g1.insert(pos, c);
            proof {
                assert(view_param_slice(g1@) =~= merge_param_into(s, p));
            }
        }
        j += 1;
        proof {
            lemma_merge_params_take_step(view_param_slice(old(g1)@), b, j as int);
        }
    }
    proof {
        assert(b.take(g2@.len() as int) =~= b);
    }
}

/// Adopts or appends the addition's predicates: an absent target takes the
/// addition wholesale, an absent addition changes nothing.
#[verifier::loop_isolation(false)]
pub fn merge_where_clauses(w1: &mut Option<WhereClause>, w2: &Option<WhereClause>)
    ensures
        view_opt_where(*final(w1)) == merge_wc(view_opt_where(*old(w1)), view_opt_where(*w2)),
{
    match w2 {
        None => {},
        Some(addition) => {
            match w1 {
                None => {
                    *w1 = Some(copy_where_clause(addition));
                },
                Some(target) => {
                    let ghost n = target.predicates@.len() as int;
                    let ghost start = target.predicates@;
                    let mut i: usize = 0;
                    while i < addition.predicates.len()
                        invariant
                            i <= addition.predicates.len(),
                            target.predicates@.len() == n + i as int,
                            forall|k: int| 0 <= k < n ==> view_predicate(target.predicates@[k])
                                == view_predicate(start[k]),
                            forall|k: int| 0 <= k < i ==> view_predicate(
                                target.predicates@[n + k],
                            ) == view_predicate(addition.predicates@[k]),
                        decreases addition.predicates.len() - i,
                    {
                        let c = copy_predicate(&addition.predicates[i]);
                        let ghost prev = target.predicates@;
                        target.predicates.push(c);
                        i += 1;
                        proof {
                            assert forall|k: int| 0 <= k < i implies view_predicate(
                                target.predicates@[n + k],
                            ) == view_predicate(addition.predicates@[k]) by {
                                if n + k < prev.len() {
                                    assert(target.predicates@[n + k] == prev[n + k]);
                                } else {
                                    assert(target.predicates@[n + k] == c);
                                }
                            }
                            assert forall|k: int| 0 <= k < n implies view_predicate(
                                target.predicates@[k],
                            ) == view_predicate(start[k]) by {
                                assert(target.predicates@[k] == prev[k]);
                            }
                        }
                    }
                    proof {
                        assert(view_predicate_slice(target.predicates@) =~= view_predicate_slice(
                            start,
                        ) + view_predicate_slice(addition.predicates@));
                    }
                },
            }
        },
    }
}

// ---------------------------------------------------------------------------
// Laws of the merge operations.
// ---------------------------------------------------------------------------

/// A well-formed parameter list: no two parameters share both kind and
/// identifier.
pub open spec fn params_distinct(s: Seq<ParamV>) -> bool {
    forall|i: int, j: int|
        0 <= i < j < s.len() ==> !param_matches(s[i], s[j].kind, s[j].ident)
}

/// Two parameter lists without a common identifier, of any kind.
pub open spec fn idents_disjoint(a: Seq<ParamV>, b: Seq<ParamV>) -> bool {
    forall|i: int, j: int|
        0 <= i < a.len() && 0 <= j < b.len() ==> a[i].ident != b[j].ident
}

/// No parameter of `a` has the kind and identifier of one of `b`.
pub open spec fn no_param_matches(a: Seq<ParamV>, b: Seq<ParamV>) -> bool {
    forall|i: int, j: int|
        0 <= i < a.len() && 0 <= j < b.len() ==> !param_matches(a[i], b[j].kind, b[j].ident)
}

/// A first match at `f` pins `find_param` down to `f`.
proof fn lemma_find_param_unique(s: Seq<ParamV>, kind: GpKind, ident: Seq<char>, f: int)
    requires
        0 <= f < s.len(),
        param_matches(s[f], kind, ident),
        forall|k: int| 0 <= k < f ==> !param_matches(s[k], kind, ident),
    ensures
        find_param(s, kind, ident) == f,
{
    lemma_find_param(s, kind, ident);
    let r = find_param(s, kind, ident);
    if r == -1 {
        assert(!param_matches(s[f], kind, ident));
    } else if r < f {
        assert(!param_matches(s[r], kind, ident));
    } else if r > f {
        assert(!param_matches(s[f], kind, ident));
    }
}

/// Folding in a parameter of another kind or identifier leaves the bounds of
/// the parameter `(kind, ident)` untouched.
proof fn lemma_merge_param_into_other(s: Seq<ParamV>, p: ParamV, kind: GpKind, ident: Seq<char>)
    requires
        !param_matches(p, kind, ident),
        has_param(s, kind, ident),
    ensures
        has_param(merge_param_into(s, p), kind, ident),
        bounds_of(merge_param_into(s, p), kind, ident) == bounds_of(s, kind, ident),
{
    let f = find_param(s, kind, ident);
    lemma_find_param(s, kind, ident);
    let i = find_param(s, p.kind, p.ident);
    lemma_find_param(s, p.kind, p.ident);
    let m = merge_param_into(s, p);
    if i >= 0 {
        // The fold updates slot i, which cannot be slot f: slot i carries
        // p's kind and identifier, slot f the given ones, and p does not
        // match the given ones.
        assert(i != f);
        assert(m[f] == s[f]);
        assert forall|k: int| 0 <= k < f implies !param_matches(m[k], kind, ident) by {
            if k == i {
                assert(m[k].kind == s[k].kind && m[k].ident == s[k].ident);
            } else {
                assert(m[k] == s[k]);
            }
        }
        lemma_find_param_unique(m, kind, ident, f);
    } else {
        let pos = insert_pos(s, p.kind);
        lemma_insert_pos(s, p.kind);
        s.insert_ensures(pos, p);
        let f2: int = if f < pos { f } else { f + 1 };
        assert(m[f2] == s[f]);
        assert forall|k: int| 0 <= k < f2 implies !param_matches(m[k], kind, ident) by {
            if k < pos {
                assert(m[k] == s[k]);
                assert(k < f);
            } else if k == pos {
                assert(m[k] == p);
            } else {
                assert(m[k] == s[k - 1]);
                assert(k - 1 < f);
            }
        }
        lemma_find_param_unique(m, kind, ident, f2);
    }
}

/// Folding in a parameter of the same kind and identifier appends its bounds
/// behind those already recorded.
proof fn lemma_merge_param_into_same(s: Seq<ParamV>, p: ParamV, kind: GpKind, ident: Seq<char>)
    requires
        param_matches(p, kind, ident),
        has_param(s, kind, ident),
    ensures
        has_param(merge_param_into(s, p), kind, ident),
        bounds_of(merge_param_into(s, p), kind, ident) == bounds_of(s, kind, ident) + p.bounds,
{
    let f = find_param(s, kind, ident);
    lemma_find_param(s, kind, ident);
    assert(find_param(s, p.kind, p.ident) == f);
    let m = merge_param_into(s, p);
    assert(m[f].bounds == s[f].bounds + p.bounds);
    assert forall|k: int| 0 <= k < f implies !param_matches(m[k], kind, ident) by {
        assert(m[k] == s[k]);
    }
    lemma_find_param_unique(m, kind, ident, f);
}

/// Merging an addition none of whose parameters matches `(kind, ident)`
/// leaves that parameter's bounds untouched.
proof fn lemma_merge_params_no_match(a: Seq<ParamV>, b: Seq<ParamV>, kind: GpKind, ident: Seq<char>)
    requires
        forall|j: int| 0 <= j < b.len() ==> !param_matches(b[j], kind, ident),
        has_param(a, kind, ident),
    ensures
        has_param(merge_params(a, b), kind, ident),
        bounds_of(merge_params(a, b), kind, ident) == bounds_of(a, kind, ident),
    decreases b.len(),
{
    if b.len() > 0 {
        lemma_merge_param_into_other(a, b[0], kind, ident);
        let a2 = merge_param_into(a, b[0]);
        let b2 = b.drop_first();
        assert(forall|j: int| 0 <= j < b2.len() ==> b2[j] == b[j + 1]);
        lemma_merge_params_no_match(a2, b2, kind, ident);
    }
}

/// Merging a concatenation merges its parts in turn.
proof fn lemma_merge_params_concat(a: Seq<ParamV>, x: Seq<ParamV>, y: Seq<ParamV>)
    ensures
        merge_params(a, x + y) == merge_params(merge_params(a, x), y),
    decreases x.len(),
{
    if x.len() == 0 {
        assert(x + y =~= y);
    } else {
        assert((x + y)[0] == x[0]);
        assert((x + y).drop_first() =~= x.drop_first() + y);
        lemma_merge_params_concat(merge_param_into(a, x[0]), x.drop_first(), y);
    }
}

/// Merging an empty addition changes nothing: the merge is a right identity
/// on the target list.
pub proof fn lemma_merge_params_right_identity(a: Seq<ParamV>)
    ensures
        merge_params(a, Seq::<ParamV>::empty()) == a,
{
}

/// Every parameter of an addition that collides with nothing is appended:
/// the merged length is the sum of the lengths.
proof fn lemma_merge_params_fresh_len(a: Seq<ParamV>, b: Seq<ParamV>)
    requires
        no_param_matches(a, b),
        params_distinct(b),
    ensures
        merge_params(a, b).len() == a.len() + b.len(),
    decreases b.len(),
{
    if b.len() > 0 {
        let p = b[0];
        lemma_find_param(a, p.kind, p.ident);
        let i = find_param(a, p.kind, p.ident);
        if i >= 0 {
            assert(param_matches(a[i], b[0].kind, b[0].ident));
            assert(false);
        }
        let pos = insert_pos(a, p.kind);
        lemma_insert_pos(a, p.kind);
        a.insert_ensures(pos, p);
        let a2 = a.insert(pos, p);
        let b2 = b.drop_first();
        assert(forall|j: int| 0 <= j < b2.len() ==> b2[j] == b[j + 1]);
        assert forall|i2: int, j: int|
            0 <= i2 < a2.len() && 0 <= j < b2.len() implies !param_matches(
            a2[i2],
            b2[j].kind,
            b2[j].ident,
        ) by {
            if i2 < pos {
                assert(a2[i2] == a[i2]);
            } else if i2 == pos {
                assert(a2[i2] == p);
                assert(!param_matches(b[0], b[j + 1].kind, b[j + 1].ident));
            } else {
                assert(a2[i2] == a[i2 - 1]);
            }
        }
        lemma_merge_params_fresh_len(a2, b2);
    }
}

/// When the two lists share no identifier and the addition is well formed,
/// the merged list is exactly as long as both together.
pub proof fn lemma_merge_params_disjoint_len(a: Seq<ParamV>, b: Seq<ParamV>)
    requires
        idents_disjoint(a, b),
        params_distinct(b),
    ensures
        merge_params(a, b).len() == a.len() + b.len(),
{
    assert forall|i: int, j: int|
        0 <= i < a.len() && 0 <= j < b.len() implies !param_matches(
        a[i],
        b[j].kind,
        b[j].ident,
    ) by {
        assert(a[i].ident != b[j].ident);
    }
    lemma_merge_params_fresh_len(a, b);
}

/// When both lists hold a parameter of the given kind and identifier, the
/// merged list holds it with the target's bounds followed by the addition's.
pub proof fn lemma_merge_params_shared_bounds(
    a: Seq<ParamV>,
    b: Seq<ParamV>,
    kind: GpKind,
    ident: Seq<char>,
)
    requires
        has_param(a, kind, ident),
        has_param(b, kind, ident),
        params_distinct(b),
    ensures
        has_param(merge_params(a, b), kind, ident),
        bounds_of(merge_params(a, b), kind, ident) == bounds_of(a, kind, ident) + bounds_of(
            b,
            kind,
            ident,
        ),
{
    let fb = find_param(b, kind, ident);
    lemma_find_param(b, kind, ident);
    let x = b.take(fb);
    let y = b.skip(fb + 1);
    assert(b =~= x + (seq![b[fb]] + y));
    lemma_merge_params_concat(a, x, seq![b[fb]] + y);

    // Nothing in the prefix matches: fb is the first match.
    assert(forall|j: int| 0 <= j < x.len() ==> x[j] == b[j]);
    lemma_merge_params_no_match(a, x, kind, ident);
    let m1 = merge_params(a, x);

    // The matching parameter appends its bounds.
    lemma_merge_param_into_same(m1, b[fb], kind, ident);
    let mid = seq![b[fb]] + y;
    assert(mid[0] == b[fb]);
    assert(mid.drop_first() =~= y);
    let m2 = merge_param_into(m1, b[fb]);
    assert(merge_params(m1, mid) == merge_params(m2, y));

    // Nothing behind the match matches again, since b is well formed.
    assert forall|j: int| 0 <= j < y.len() implies !param_matches(y[j], kind, ident) by {
        assert(y[j] == b[fb + 1 + j]);
        assert(!param_matches(b[fb], b[fb + 1 + j].kind, b[fb + 1 + j].ident));
    }
    lemma_merge_params_no_match(m2, y, kind, ident);
    assert(merge_params(a, b) == merge_params(m2, y));
}

/// A missing target constraint set adopts the addition: the merge is a left
/// identity there.
pub proof fn lemma_merge_wc_left_identity(w: Option<Seq<PredicateV>>)
    ensures
        merge_wc(None, w) == w,
{
}

/// A missing addition changes nothing: the merge is a right identity there.
pub proof fn lemma_merge_wc_right_identity(w: Option<Seq<PredicateV>>)
    ensures
        merge_wc(w, None) == w,
{
}

} // verus!
