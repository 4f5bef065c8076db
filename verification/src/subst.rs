//! The generic unifier and renamer: aligning an interface's declared
//! parameters with a usage site's arguments into a substitution table, and
//! rewriting syntax trees through that table.

use vstd::prelude::*;

use crate::ast::ConstExpr;
use crate::ast::ConstV;
use crate::ast::GenericArg;
use crate::ast::GenericArgV;
use crate::ast::GpKind;
use crate::ast::TypeExpr;
use crate::ast::TypeV;
use crate::ast::copy_const;
use crate::ast::copy_ty;
use crate::ast::view_const;
use crate::ast::view_garg;
use crate::ast::view_garg_slice;
use crate::ast::Bound;
use crate::ast::BoundV;
use crate::ast::Path;
use crate::ast::PathSegment;
use crate::ast::PathV;
use crate::ast::SegmentV;
use crate::ast::copy_opt_ident;
use crate::ast::view_bound;
use crate::ast::view_bound_slice;
use crate::ast::view_opt_ident;
use crate::ast::view_path;
use crate::ast::view_seg;
use crate::ast::view_seg_slice;
use crate::ast::view_ty;
use crate::ast::view_ty_slice;
use crate::decl::FnArg;
use crate::decl::FnArgV;
use crate::decl::Method;
use crate::decl::MethodSig;
use crate::decl::MethodV;
use crate::decl::SigV;
use crate::decl::view_fnarg;
use crate::decl::view_fnarg_slice;
use crate::decl::view_method;
use crate::decl::view_method_slice;
use crate::decl::view_sig;
use crate::generics::view_param;
use crate::error::GenError;
use crate::generics::GenericParam;
use crate::generics::ParamV;
use crate::generics::view_param_slice;

verus! {

broadcast use vstd::seq::axiom_seq_index_decreases, vstd::std_specs::vec::axiom_vec_decreases_to_view;

/// A substitution produced for one usage site: three independent maps, from
/// lifetime identifiers to lifetime identifiers, from type identifiers to
/// type expressions, and from const identifiers to const expressions.
pub struct SubstitutionTable {
    pub lifetimes: Vec<(String, String)>,
    pub types: Vec<(String, TypeExpr)>,
    pub consts: Vec<(String, ConstExpr)>,
}

/// Mirror of [`SubstitutionTable`]: the three maps. A later entry for the
/// same key shadows an earlier one.
#[verifier::ext_equal]
pub struct SubstV {
    pub lifetimes: Map<Seq<char>, Seq<char>>,
    pub types: Map<Seq<char>, TypeV>,
    pub consts: Map<Seq<char>, ConstV>,
}

/// The map an association list denotes, last write winning.
pub open spec fn assoc_map<V>(s: Seq<(Seq<char>, V)>) -> Map<Seq<char>, V>
    decreases s.len(),
{
    if s.len() == 0 {
        Map::empty()
    } else {
        assoc_map(s.drop_last()).insert(s.last().0, s.last().1)
    }
}

/// A key whose last occurrence is at `i` maps to that occurrence's value.
pub proof fn lemma_assoc_map_found<V>(s: Seq<(Seq<char>, V)>, key: Seq<char>, i: int)
    requires
        0 <= i < s.len(),
        s[i].0 == key,
        forall|k: int| i < k < s.len() ==> s[k].0 != key,
    ensures
        assoc_map(s).contains_key(key),
        assoc_map(s)[key] == s[i].1,
    decreases s.len(),
{
    if i == s.len() - 1 {
    } else {
        let d = s.drop_last();
        assert(forall|k: int| 0 <= k < d.len() ==> d[k] == s[k]);
        lemma_assoc_map_found(d, key, i);
        assert(s.last().0 != key);
    }
}

/// A key that occurs nowhere is absent from the map.
pub proof fn lemma_assoc_map_missing<V>(s: Seq<(Seq<char>, V)>, key: Seq<char>)
    requires
        forall|k: int| 0 <= k < s.len() ==> s[k].0 != key,
    ensures
        !assoc_map(s).contains_key(key),
    decreases s.len(),
{
    if s.len() > 0 {
        let d = s.drop_last();
        assert(forall|k: int| 0 <= k < d.len() ==> d[k] == s[k]);
        lemma_assoc_map_missing(d, key);
        assert(s.last().0 != key);
    }
}

/// View of the lifetime entries.
pub open spec fn view_lt_pairs(s: Seq<(String, String)>) -> Seq<(Seq<char>, Seq<char>)> {
    Seq::new(
        s.len(),
        |i: int| if 0 <= i < s.len() { (s[i].0@, s[i].1@) } else { (Seq::empty(), Seq::empty()) },
    )
}

/// View of the type entries.
pub open spec fn view_ty_pairs(s: Seq<(String, TypeExpr)>) -> Seq<(Seq<char>, TypeV)> {
    Seq::new(
        s.len(),
        |i: int|
            if 0 <= i < s.len() {
                (s[i].0@, view_ty(s[i].1))
            } else {
                (Seq::empty(), TypeV::Infer)
            },
    )
}

/// View of the const entries.
pub open spec fn view_ct_pairs(s: Seq<(String, ConstExpr)>) -> Seq<(Seq<char>, ConstV)> {
    Seq::new(
        s.len(),
        |i: int|
            if 0 <= i < s.len() {
                (s[i].0@, view_const(s[i].1))
            } else {
                (Seq::empty(), ConstV::Verbatim(Seq::empty()))
            },
    )
}

/// View of a substitution table.
pub open spec fn view_subst(t: SubstitutionTable) -> SubstV {
    SubstV {
        lifetimes: assoc_map(view_lt_pairs(t.lifetimes@)),
        types: assoc_map(view_ty_pairs(t.types@)),
        consts: assoc_map(view_ct_pairs(t.consts@)),
    }
}

impl SubstitutionTable {
    /// The empty substitution.
    pub fn new() -> (r: SubstitutionTable)
        ensures
            view_subst(r) == (SubstV {
                lifetimes: Map::<Seq<char>, Seq<char>>::empty(),
                types: Map::<Seq<char>, TypeV>::empty(),
                consts: Map::<Seq<char>, ConstV>::empty(),
            }),
    {
        let r = SubstitutionTable { lifetimes: Vec::new(), types: Vec::new(), consts: Vec::new() };
        proof {
            assert(view_lt_pairs(r.lifetimes@) =~= Seq::<(Seq<char>, Seq<char>)>::empty());
            assert(view_ty_pairs(r.types@) =~= Seq::<(Seq<char>, TypeV)>::empty());
            assert(view_ct_pairs(r.consts@) =~= Seq::<(Seq<char>, ConstV)>::empty());
            assert(view_subst(r) =~= SubstV {
                lifetimes: Map::<Seq<char>, Seq<char>>::empty(),
                types: Map::<Seq<char>, TypeV>::empty(),
                consts: Map::<Seq<char>, ConstV>::empty(),
            });
        }
        r
    }

    /// Looks the identifier up in the lifetime map; a later entry wins.
    pub fn lookup_lifetime(&self, ident: &String) -> (r: Option<String>)
        ensures
            match r {
                Some(l) => view_subst(*self).lifetimes.contains_key(ident@) && l@ == view_subst(
                    *self,
                ).lifetimes[ident@],
                None => !view_subst(*self).lifetimes.contains_key(ident@),
            },
    {
        let ghost pairs = view_lt_pairs(self.lifetimes@);
        let mut i: usize = self.lifetimes.len();
        #[verifier::loop_isolation(false)]
        while i > 0
            invariant
                i <= self.lifetimes.len(),
                forall|k: int| i <= k < pairs.len() ==> pairs[k].0 != ident@,
            decreases i,
        {
            i -= 1;
            if self.lifetimes[i].0 == *ident {
                proof {
                    lemma_assoc_map_found(pairs, ident@, i as int);
                }
                return Some(self.lifetimes[i].1.clone());
            }
        }
        proof {
            lemma_assoc_map_missing(pairs, ident@);
        }
        None
    }

    /// Looks the identifier up in the type map; a later entry wins.
    pub fn lookup_type(&self, ident: &String) -> (r: Option<TypeExpr>)
        ensures
            match r {
                Some(t) => view_subst(*self).types.contains_key(ident@) && view_ty(t) == view_subst(
                    *self,
                ).types[ident@],
                None => !view_subst(*self).types.contains_key(ident@),
            },
    {
        let ghost pairs = view_ty_pairs(self.types@);
        let mut i: usize = self.types.len();
        #[verifier::loop_isolation(false)]
        while i > 0
            invariant
                i <= self.types.len(),
                forall|k: int| i <= k < pairs.len() ==> pairs[k].0 != ident@,
            decreases i,
        {
            i -= 1;
            if self.types[i].0 == *ident {
                proof {
                    lemma_assoc_map_found(pairs, ident@, i as int);
                }
                return Some(copy_ty(&self.types[i].1));
            }
        }
        proof {
            lemma_assoc_map_missing(pairs, ident@);
        }
        None
    }

    /// Looks the identifier up in the const map; a later entry wins.
    pub fn lookup_const(&self, ident: &String) -> (r: Option<ConstExpr>)
        ensures
            match r {
                Some(c) => view_subst(*self).consts.contains_key(ident@) && view_const(c)
                    == view_subst(*self).consts[ident@],
                None => !view_subst(*self).consts.contains_key(ident@),
            },
    {
        let ghost pairs = view_ct_pairs(self.consts@);
        let mut i: usize = self.consts.len();
        #[verifier::loop_isolation(false)]
        while i > 0
            invariant
                i <= self.consts.len(),
                forall|k: int| i <= k < pairs.len() ==> pairs[k].0 != ident@,
            decreases i,
        {
            i -= 1;
            if self.consts[i].0 == *ident {
                proof {
                    lemma_assoc_map_found(pairs, ident@, i as int);
                }
                return Some(copy_const(&self.consts[i].1));
            }
        }
        proof {
            lemma_assoc_map_missing(pairs, ident@);
        }
        None
    }
}

// ---------------------------------------------------------------------------
// Unification.
// ---------------------------------------------------------------------------

/// The kind a generic argument supplies.
pub open spec fn garg_kind(a: GenericArgV) -> GpKind {
    match a {
        GenericArgV::Lifetime(_) => GpKind::Lifetime,
        GenericArgV::Type(_) => GpKind::Type,
        GenericArgV::Const(_) => GpKind::Const,
    }
}

/// The first position whose argument kind disagrees with the declared
/// parameter kind, or -1 when every position agrees.
pub open spec fn first_kind_mismatch(ps: Seq<ParamV>, args: Seq<GenericArgV>) -> int
    recommends
        ps.len() == args.len(),
    decreases ps.len(),
{
    if ps.len() == 0 || args.len() == 0 {
        -1
    } else if garg_kind(args[0]) != ps[0].kind {
        0
    } else {
        let r = first_kind_mismatch(ps.drop_first(), args.drop_first());
        if r < 0 {
            -1
        } else {
            r + 1
        }
    }
}

/// `first_kind_mismatch` is the first disagreeing position.
pub proof fn lemma_first_kind_mismatch(ps: Seq<ParamV>, args: Seq<GenericArgV>)
    requires
        ps.len() == args.len(),
    ensures
        -1 <= first_kind_mismatch(ps, args) < ps.len(),
        first_kind_mismatch(ps, args) >= 0 ==> garg_kind(args[first_kind_mismatch(ps, args)])
            != ps[first_kind_mismatch(ps, args)].kind,
        forall|k: int|
            0 <= k < first_kind_mismatch(ps, args) ==> garg_kind(args[k]) == ps[k].kind,
        first_kind_mismatch(ps, args) == -1 ==> forall|k: int|
            0 <= k < ps.len() ==> garg_kind(args[k]) == ps[k].kind,
    decreases ps.len(),
{
    if ps.len() > 0 && garg_kind(args[0]) == ps[0].kind {
        let dp = ps.drop_first();
        let da = args.drop_first();
        lemma_first_kind_mismatch(dp, da);
        assert(forall|k: int| 0 <= k < dp.len() ==> dp[k] == ps[k + 1]);
        assert(forall|k: int| 0 <= k < da.len() ==> da[k] == args[k + 1]);
        let r = first_kind_mismatch(dp, da);
        if r >= 0 {
            assert forall|k: int| 0 <= k < r + 1 implies garg_kind(args[k]) == ps[k].kind by {
                if k > 0 {
                    assert(ps[k] == dp[k - 1] && args[k] == da[k - 1]);
                }
            }
        } else {
            assert forall|k: int| 0 <= k < ps.len() implies garg_kind(args[k]) == ps[k].kind by {
                if k > 0 {
                    assert(ps[k] == dp[k - 1] && args[k] == da[k - 1]);
                }
            }
        }
    }
}

/// The lifetime entries unification records, in declaration order.
pub open spec fn lt_pairs(ps: Seq<ParamV>, args: Seq<GenericArgV>) -> Seq<(Seq<char>, Seq<char>)>
    decreases ps.len(),
{
    if ps.len() == 0 || args.len() == 0 {
        Seq::empty()
    } else {
        let rest = lt_pairs(ps.drop_last(), args.drop_last());
        match args.last() {
            GenericArgV::Lifetime(l) => if ps.last().kind is Lifetime {
                rest.push((ps.last().ident, l))
            } else {
                rest
            },
            _ => rest,
        }
    }
}

/// The type entries unification records, in declaration order.
pub open spec fn ty_pairs(ps: Seq<ParamV>, args: Seq<GenericArgV>) -> Seq<(Seq<char>, TypeV)>
    decreases ps.len(),
{
    if ps.len() == 0 || args.len() == 0 {
        Seq::empty()
    } else {
        let rest = ty_pairs(ps.drop_last(), args.drop_last());
        match args.last() {
            GenericArgV::Type(t) => if ps.last().kind is Type {
                rest.push((ps.last().ident, t))
            } else {
                rest
            },
            _ => rest,
        }
    }
}

/// The const entries unification records, in declaration order.
pub open spec fn ct_pairs(ps: Seq<ParamV>, args: Seq<GenericArgV>) -> Seq<(Seq<char>, ConstV)>
    decreases ps.len(),
{
    if ps.len() == 0 || args.len() == 0 {
        Seq::empty()
    } else {
        let rest = ct_pairs(ps.drop_last(), args.drop_last());
        match args.last() {
            GenericArgV::Const(c) => if ps.last().kind is Const {
                rest.push((ps.last().ident, c))
            } else {
                rest
            },
            _ => rest,
        }
    }
}

/// The substitution a successful unification produces.
pub open spec fn build_subst(ps: Seq<ParamV>, args: Seq<GenericArgV>) -> SubstV {
    SubstV {
        lifetimes: assoc_map(lt_pairs(ps, args)),
        types: assoc_map(ty_pairs(ps, args)),
        consts: assoc_map(ct_pairs(ps, args)),
    }
}

/// Aligns an interface's declared generic parameters with a usage site's
/// argument list.
///
/// Fails with an arity mismatch when the counts differ, and with a kind
/// mismatch naming the first position where a lifetime, type or const
/// argument stands against a parameter of another kind; otherwise returns
/// the substitution that maps each parameter to its argument.
pub fn unify(params: &Vec<GenericParam>, args: &Vec<GenericArg>) -> (r: Result<
    SubstitutionTable,
    GenError,
>)
    ensures
        params@.len() != args@.len() ==> r == Err::<SubstitutionTable, GenError>(
            GenError::ArityMismatch { expected: params@.len() as usize, actual: args@.len() as usize },
        ),
        params@.len() == args@.len() && first_kind_mismatch(
            view_param_slice(params@),
            view_garg_slice(args@),
        ) >= 0 ==> r == Err::<SubstitutionTable, GenError>(
            GenError::KindMismatch {
                position: first_kind_mismatch(
                    view_param_slice(params@),
                    view_garg_slice(args@),
                ) as usize,
                expected: view_param_slice(params@)[first_kind_mismatch(
                    view_param_slice(params@),
                    view_garg_slice(args@),
                )].kind,
                actual: garg_kind(
                    view_garg_slice(args@)[first_kind_mismatch(
                        view_param_slice(params@),
                        view_garg_slice(args@),
                    )],
                ),
            },
        ),
        params@.len() == args@.len() && first_kind_mismatch(
            view_param_slice(params@),
            view_garg_slice(args@),
        ) == -1 ==> (r matches Ok(t) && view_subst(t) == build_subst(
            view_param_slice(params@),
            view_garg_slice(args@),
        )),
{
    if params.len() != args.len() {
        return Err(GenError::ArityMismatch { expected: params.len(), actual: args.len() });
    }
    let ghost ps = view_param_slice(params@);
    let ghost gs = view_garg_slice(args@);
    proof {
        lemma_first_kind_mismatch(ps, gs);
    }
    let mut table = SubstitutionTable { lifetimes: Vec::new(), types: Vec::new(), consts: Vec::new() };
    let mut j: usize = 0;
    #[verifier::loop_isolation(false)]
    while j < params.len()
        invariant
            j <= params.len(),
            forall|k: int| 0 <= k < j ==> garg_kind(gs[k]) == ps[k].kind,
            view_lt_pairs(table.lifetimes@) =~= lt_pairs(ps.take(j as int), gs.take(j as int)),
            view_ty_pairs(table.types@) =~= ty_pairs(ps.take(j as int), gs.take(j as int)),
            view_ct_pairs(table.consts@) =~= ct_pairs(ps.take(j as int), gs.take(j as int)),
        decreases params.len() - j,
    {
        let ghost jj = j as int;
        proof {
            assert(ps.take(jj + 1).drop_last() =~= ps.take(jj));
            assert(gs.take(jj + 1).drop_last() =~= gs.take(jj));
            assert(ps.take(jj + 1).last() == ps[jj]);
            assert(gs.take(jj + 1).last() == gs[jj]);
        }
        let p = &params[j];
        let matched: bool = match (&p.kind, &args[j]) {
            (GpKind::Lifetime, GenericArg::Lifetime(l)) => {
                table.lifetimes.push((p.ident.clone(), l.clone()));
                true
            },
            (GpKind::Type, GenericArg::Type(t)) => {
                table.types.push((p.ident.clone(), copy_ty(t)));
                true
            },
            (GpKind::Const, GenericArg::Const(c)) => {
                table.consts.push((p.ident.clone(), copy_const(c)));
                true
            },
            _ => false,
        };
        if !matched {
            let actual = match &args[j] {
                GenericArg::Lifetime(_) => GpKind::Lifetime,
                GenericArg::Type(_) => GpKind::Type,
                GenericArg::Const(_) => GpKind::Const,
            };
            proof {
                assert(garg_kind(gs[jj]) != ps[jj].kind);
                assert(first_kind_mismatch(ps, gs) == jj) by {
                    lemma_first_kind_mismatch(ps, gs);
                    let m = first_kind_mismatch(ps, gs);
                    if m < jj {
                        assert(garg_kind(gs[m]) == ps[m].kind);
                    }
                    if m > jj || m == -1 {
                        assert(garg_kind(gs[jj]) == ps[jj].kind);
                    }
                }
            }
            return Err(
                GenError::KindMismatch { position: j, expected: p.kind, actual },
            );
        }
        j += 1;
        proof {
            assert(view_lt_pairs(table.lifetimes@) =~= lt_pairs(ps.take(j as int), gs.take(j as int)));
            assert(view_ty_pairs(table.types@) =~= ty_pairs(ps.take(j as int), gs.take(j as int)));
            assert(view_ct_pairs(table.consts@) =~= ct_pairs(ps.take(j as int), gs.take(j as int)));
        }
    }
    proof {
        assert(ps.take(params@.len() as int) =~= ps);
        assert(gs.take(args@.len() as int) =~= gs);
        lemma_first_kind_mismatch(ps, gs);
        assert(first_kind_mismatch(ps, gs) == -1) by {
            if first_kind_mismatch(ps, gs) >= 0 {
                assert(garg_kind(gs[first_kind_mismatch(ps, gs)]) == ps[first_kind_mismatch(
                    ps,
                    gs,
                )].kind);
            }
        }
        assert(view_subst(table) =~= build_subst(ps, gs));
    }
    Ok(table)
}

// ---------------------------------------------------------------------------
// The rewrite pass, at the specification level.
// ---------------------------------------------------------------------------

/// A lifetime rewritten through the substitution.
pub open spec fn subst_lifetime(m: SubstV, l: Seq<char>) -> Seq<char> {
    if m.lifetimes.contains_key(l) {
        m.lifetimes[l]
    } else {
        l
    }
}

/// An optional lifetime rewritten through the substitution.
pub open spec fn subst_opt_lifetime(m: SubstV, o: Option<Seq<char>>) -> Option<Seq<char>> {
    match o {
        Some(l) => Some(subst_lifetime(m, l)),
        None => None,
    }
}

/// A const expression rewritten through the substitution.
pub open spec fn subst_const(m: SubstV, c: ConstV) -> ConstV {
    match c {
        ConstV::Ident(id) => if m.consts.contains_key(id) {
            m.consts[id]
        } else {
            ConstV::Ident(id)
        },
        ConstV::Verbatim(s) => ConstV::Verbatim(s),
    }
}

/// A single-segment unqualified path without an argument list: the only
/// shape the type map replaces outright.
pub open spec fn is_simple_ident(p: PathV) -> bool {
    !p.leading_colon && p.segments.len() == 1 && p.segments[0].args.len() == 0
}

/// A type expression rewritten through the substitution. A bare parameter
/// reference becomes the mapped type expression; every other node keeps its
/// shape with its children rewritten.
pub open spec fn subst_ty(m: SubstV, t: TypeV) -> TypeV
    decreases t,
{
    match t {
        TypeV::Path(p) => if is_simple_ident(p) && m.types.contains_key(p.segments[0].ident) {
            m.types[p.segments[0].ident]
        } else {
            TypeV::Path(subst_path(m, p))
        },
        TypeV::Reference { lifetime, is_mut, elem } => TypeV::Reference {
            lifetime: subst_opt_lifetime(m, lifetime),
            is_mut: is_mut,
            elem: Box::new(subst_ty(m, *elem)),
        },
        TypeV::Tuple(es) => TypeV::Tuple(subst_ty_seq(m, es)),
        TypeV::Array { elem, len } => TypeV::Array {
            elem: Box::new(subst_ty(m, *elem)),
            len: subst_const(m, len),
        },
        TypeV::Slice(e) => TypeV::Slice(Box::new(subst_ty(m, *e))),
        TypeV::Ptr { is_mut, elem } => TypeV::Ptr {
            is_mut: is_mut,
            elem: Box::new(subst_ty(m, *elem)),
        },
        TypeV::BareFn { inputs, output } => TypeV::BareFn {
            inputs: subst_ty_seq(m, inputs),
            output: match output {
                Some(b) => Some(Box::new(subst_ty(m, *b))),
                None => None,
            },
        },
        TypeV::TraitObject(bs) => TypeV::TraitObject(subst_bound_seq(m, bs)),
        TypeV::ImplTrait(bs) => TypeV::ImplTrait(subst_bound_seq(m, bs)),
        TypeV::Paren(e) => TypeV::Paren(Box::new(subst_ty(m, *e))),
        TypeV::Infer => TypeV::Infer,
        TypeV::Never => TypeV::Never,
        TypeV::Verbatim(s) => TypeV::Verbatim(s),
    }
}

/// Elementwise rewrite of a sequence of types.
pub open spec fn subst_ty_seq(m: SubstV, ts: Seq<TypeV>) -> Seq<TypeV>
    decreases ts,
{
    Seq::new(ts.len(), |i: int| if 0 <= i < ts.len() { subst_ty(m, ts[i]) } else { TypeV::Infer })
}

/// A path rewritten through the substitution: every segment's arguments are
/// rewritten, the segment identifiers stay.
pub open spec fn subst_path(m: SubstV, p: PathV) -> PathV
    decreases p,
{
    PathV { leading_colon: p.leading_colon, segments: subst_seg_seq(m, p.segments) }
}

/// Elementwise rewrite of a sequence of path segments.
pub open spec fn subst_seg_seq(m: SubstV, ss: Seq<SegmentV>) -> Seq<SegmentV>
    decreases ss,
{
    Seq::new(
        ss.len(),
        |i: int|
            if 0 <= i < ss.len() {
                subst_seg(m, ss[i])
            } else {
                SegmentV { ident: Seq::empty(), args: Seq::empty() }
            },
    )
}

/// A path segment rewritten through the substitution.
pub open spec fn subst_seg(m: SubstV, s: SegmentV) -> SegmentV
    decreases s,
{
    SegmentV { ident: s.ident, args: subst_garg_seq(m, s.args) }
}

/// Elementwise rewrite of a sequence of generic arguments.
pub open spec fn subst_garg_seq(m: SubstV, gs: Seq<GenericArgV>) -> Seq<GenericArgV>
    decreases gs,
{
    Seq::new(
        gs.len(),
        |i: int|
            if 0 <= i < gs.len() {
                subst_garg(m, gs[i])
            } else {
                GenericArgV::Lifetime(Seq::empty())
            },
    )
}

/// A generic argument rewritten through the substitution.
pub open spec fn subst_garg(m: SubstV, g: GenericArgV) -> GenericArgV
    decreases g,
{
    match g {
        GenericArgV::Lifetime(l) => GenericArgV::Lifetime(subst_lifetime(m, l)),
        GenericArgV::Type(t) => GenericArgV::Type(subst_ty(m, t)),
        GenericArgV::Const(c) => GenericArgV::Const(subst_const(m, c)),
    }
}

/// A bound rewritten through the substitution.
pub open spec fn subst_bound(m: SubstV, b: BoundV) -> BoundV
    decreases b,
{
    match b {
        BoundV::Trait(p) => BoundV::Trait(subst_path(m, p)),
        BoundV::Lifetime(l) => BoundV::Lifetime(subst_lifetime(m, l)),
    }
}

/// Elementwise rewrite of a sequence of bounds.
pub open spec fn subst_bound_seq(m: SubstV, bs: Seq<BoundV>) -> Seq<BoundV>
    decreases bs,
{
    Seq::new(
        bs.len(),
        |i: int| if 0 <= i < bs.len() { subst_bound(m, bs[i]) } else { BoundV::Lifetime(Seq::empty()) },
    )
}

/// A method argument rewritten through the substitution.
pub open spec fn subst_fnarg(m: SubstV, a: FnArgV) -> FnArgV {
    match a {
        FnArgV::Receiver { by_ref, lifetime, is_mut } => FnArgV::Receiver {
            by_ref: by_ref,
            lifetime: subst_opt_lifetime(m, lifetime),
            is_mut: is_mut,
        },
        FnArgV::Typed { name, ty } => FnArgV::Typed { name: name, ty: subst_ty(m, ty) },
    }
}

/// Elementwise rewrite of a sequence of method arguments.
pub open spec fn subst_fnarg_seq(m: SubstV, s: Seq<FnArgV>) -> Seq<FnArgV> {
    Seq::new(
        s.len(),
        |i: int|
            if 0 <= i < s.len() {
                subst_fnarg(m, s[i])
            } else {
                FnArgV::Receiver { by_ref: false, lifetime: None, is_mut: false }
            },
    )
}

/// A declared parameter rewritten through the substitution: its identifier
/// stays, its bounds are rewritten.
pub open spec fn subst_param(m: SubstV, p: ParamV) -> ParamV {
    ParamV { kind: p.kind, ident: p.ident, bounds: subst_bound_seq(m, p.bounds) }
}

/// Elementwise rewrite of a sequence of declared parameters.
pub open spec fn subst_param_seq(m: SubstV, s: Seq<ParamV>) -> Seq<ParamV> {
    Seq::new(
        s.len(),
        |i: int|
            if 0 <= i < s.len() {
                subst_param(m, s[i])
            } else {
                ParamV { kind: GpKind::Type, ident: Seq::empty(), bounds: Seq::empty() }
            },
    )
}

/// A method signature rewritten through the substitution.
pub open spec fn subst_sig(m: SubstV, s: SigV) -> SigV {
    SigV {
        ident: s.ident,
        generics: subst_param_seq(m, s.generics),
        inputs: subst_fnarg_seq(m, s.inputs),
        output: match s.output {
            Some(t) => Some(subst_ty(m, t)),
            None => None,
        },
    }
}

/// A method rewritten through the substitution; its body, if any, stays.
pub open spec fn subst_method(m: SubstV, mm: MethodV) -> MethodV {
    MethodV { sig: subst_sig(m, mm.sig), default_body: mm.default_body }
}

/// Elementwise rewrite of a sequence of methods.
pub open spec fn subst_method_seq(m: SubstV, s: Seq<MethodV>) -> Seq<MethodV> {
    Seq::new(
        s.len(),
        |i: int|
            if 0 <= i < s.len() {
                subst_method(m, s[i])
            } else {
                MethodV {
                    sig: SigV {
                        ident: Seq::empty(),
                        generics: Seq::empty(),
                        inputs: Seq::empty(),
                        output: None,
                    },
                    default_body: None,
                }
            },
    )
}

// ---------------------------------------------------------------------------
// The rewrite pass, executable.
// ---------------------------------------------------------------------------

/// The traversal that rewrites a syntax tree through a substitution table,
/// looking every identifier up as it passes it.
pub struct LookupTokenModifier<'a> {
    pub table: &'a SubstitutionTable,
}

impl<'a> LookupTokenModifier<'a> {
    /// The substitution the traversal applies.
    pub open spec fn subst(&self) -> SubstV {
        view_subst(*self.table)
    }

    /// Rewrites a lifetime identifier.
    pub fn modify_lifetime(&self, l: &String) -> (r: String)
        ensures
            r@ == subst_lifetime(self.subst(), l@),
    {
        match self.table.lookup_lifetime(l) {
            Some(x) => x,
            None => l.clone(),
        }
    }

    /// Rewrites an optional lifetime identifier.
    pub fn modify_opt_lifetime(&self, o: &Option<String>) -> (r: Option<String>)
        ensures
            view_opt_ident(r) == subst_opt_lifetime(self.subst(), view_opt_ident(*o)),
    {
        match o {
            Some(l) => Some(self.modify_lifetime(l)),
            None => None,
        }
    }

    /// Rewrites a const expression.
    pub fn modify_const(&self, c: &ConstExpr) -> (r: ConstExpr)
        ensures
            view_const(r) == subst_const(self.subst(), view_const(*c)),
    {
        match c {
            ConstExpr::Ident(id) => {
                match self.table.lookup_const(id) {
                    Some(x) => x,
                    None => ConstExpr::Ident(id.clone()),
                }
            },
            ConstExpr::Verbatim(s) => ConstExpr::Verbatim(s.clone()),
        }
    }

    /// Rewrites a type expression.
    #[verifier::loop_isolation(false)]
    pub fn modify_type(&self, t: &TypeExpr) -> (r: TypeExpr)
        ensures
            view_ty(r) == subst_ty(self.subst(), view_ty(*t)),
        decreases *t,
    {
        match t {
            TypeExpr::Path(p) => {
                let simple = !p.leading_colon && p.segments.len() == 1 && p.segments[0].args.len()
                    == 0;
                proof {
                    assert(simple == is_simple_ident(view_path(*p)));
                }
                if simple {
                    match self.table.lookup_type(&p.segments[0].ident) {
                        Some(mapped) => {
                            proof {
                                assert(view_path(*p).segments[0].ident == p.segments@[0].ident@);
                            }
                            mapped
                        },
                        None => TypeExpr::Path(self.modify_path(p)),
                    }
                } else {
                    TypeExpr::Path(self.modify_path(p))
                }
            },
            TypeExpr::Reference { lifetime, is_mut, elem } => TypeExpr::Reference {
                lifetime: self.modify_opt_lifetime(lifetime),
                is_mut: *is_mut,
                elem: Box::new(self.modify_type(elem)),
            },
            TypeExpr::Tuple(elems) => TypeExpr::Tuple(self.modify_type_vec(elems)),
            TypeExpr::Array { elem, len } => TypeExpr::Array {
                elem: Box::new(self.modify_type(elem)),
                len: self.modify_const(len),
            },
            TypeExpr::Slice(elem) => TypeExpr::Slice(Box::new(self.modify_type(elem))),
            TypeExpr::Ptr { is_mut, elem } => TypeExpr::Ptr {
                is_mut: *is_mut,
                elem: Box::new(self.modify_type(elem)),
            },
            TypeExpr::BareFn { inputs, output } => TypeExpr::BareFn {
                inputs: self.modify_type_vec(inputs),
                output: match output {
                    Some(b) => Some(Box::new(self.modify_type(b))),
                    None => None,
                },
            },
            TypeExpr::TraitObject(bounds) => TypeExpr::TraitObject(self.modify_bound_vec(bounds)),
            TypeExpr::ImplTrait(bounds) => TypeExpr::ImplTrait(self.modify_bound_vec(bounds)),
            TypeExpr::Paren(elem) => TypeExpr::Paren(Box::new(self.modify_type(elem))),
            TypeExpr::Infer => TypeExpr::Infer,
            TypeExpr::Never => TypeExpr::Never,
            TypeExpr::Verbatim(s) => TypeExpr::Verbatim(s.clone()),
        }
    }

    /// Rewrites a vector of type expressions.
    #[verifier::loop_isolation(false)]
    pub fn modify_type_vec(&self, ts: &Vec<TypeExpr>) -> (r: Vec<TypeExpr>)
        ensures
            view_ty_slice(r@) == subst_ty_seq(self.subst(), view_ty_slice(ts@)),
        decreases *ts,
    {
        let mut out: Vec<TypeExpr> = Vec::new();
        let mut i: usize = 0;
        while i < ts.len()
            invariant
                i <= ts.len(),
                out@.len() == i as int,
                forall|k: int|
                    0 <= k < i ==> view_ty(out@[k]) == subst_ty(self.subst(), view_ty(ts@[k])),
            decreases ts.len() - i,
        {
            let c = self.modify_type(&ts[i]);
            out.push(c);
            i += 1;
        }
        proof {
            assert(view_ty_slice(out@) =~= subst_ty_seq(self.subst(), view_ty_slice(ts@)));
        }
        out
    }

    /// Rewrites a path: the arguments of every segment, not the identifiers.
    #[verifier::loop_isolation(false)]
    pub fn modify_path(&self, p: &Path) -> (r: Path)
        ensures
            view_path(r) == subst_path(self.subst(), view_path(*p)),
        decreases *p,
    {
        let mut out: Vec<PathSegment> = Vec::new();
        let mut i: usize = 0;
        while i < p.segments.len()
            invariant
                i <= p.segments.len(),
                out@.len() == i as int,
                forall|k: int|
                    0 <= k < i ==> view_seg(out@[k]) == subst_seg(
                        self.subst(),
                        view_seg(p.segments@[k]),
                    ),
            decreases p.segments.len() - i,
        {
            let c = self.modify_path_segment(&p.segments[i]);
            out.push(c);
            i += 1;
        }
        let r = Path { leading_colon: p.leading_colon, segments: out };
        proof {
            assert(view_seg_slice(r.segments@) =~= subst_seg_seq(
                self.subst(),
                view_seg_slice(p.segments@),
            ));
        }
        r
    }

    /// Rewrites one path segment.
    #[verifier::loop_isolation(false)]
    pub fn modify_path_segment(&self, s: &PathSegment) -> (r: PathSegment)
        ensures
            view_seg(r) == subst_seg(self.subst(), view_seg(*s)),
        decreases *s,
    {
        let mut out: Vec<GenericArg> = Vec::new();
        let mut i: usize = 0;
        while i < s.args.len()
            invariant
                i <= s.args.len(),
                out@.len() == i as int,
                forall|k: int|
                    0 <= k < i ==> view_garg(out@[k]) == subst_garg(
                        self.subst(),
                        view_garg(s.args@[k]),
                    ),
            decreases s.args.len() - i,
        {
            let c = self.modify_generic_argument(&s.args[i]);
            out.push(c);
            i += 1;
        }
        let r = PathSegment { ident: s.ident.clone(), args: out };
        proof {
            assert(view_garg_slice(r.args@) =~= subst_garg_seq(
                self.subst(),
                view_garg_slice(s.args@),
            ));
        }
        r
    }

    /// Rewrites a generic argument.
    pub fn modify_generic_argument(&self, g: &GenericArg) -> (r: GenericArg)
        ensures
            view_garg(r) == subst_garg(self.subst(), view_garg(*g)),
        decreases *g,
    {
        match g {
            GenericArg::Lifetime(l) => GenericArg::Lifetime(self.modify_lifetime(l)),
            GenericArg::Type(t) => GenericArg::Type(self.modify_type(t)),
            GenericArg::Const(c) => GenericArg::Const(self.modify_const(c)),
        }
    }

    /// Rewrites a bound.
    pub fn modify_type_param_bound(&self, b: &Bound) -> (r: Bound)
        ensures
            view_bound(r) == subst_bound(self.subst(), view_bound(*b)),
        decreases *b,
    {
        match b {
            Bound::Trait(p) => Bound::Trait(self.modify_path(p)),
            Bound::Lifetime(l) => Bound::Lifetime(self.modify_lifetime(l)),
        }
    }

    /// Rewrites a vector of bounds.
    #[verifier::loop_isolation(false)]
    pub fn modify_bound_vec(&self, bs: &Vec<Bound>) -> (r: Vec<Bound>)
        ensures
            view_bound_slice(r@) == subst_bound_seq(self.subst(), view_bound_slice(bs@)),
        decreases *bs,
    {
        let mut out: Vec<Bound> = Vec::new();
        let mut i: usize = 0;
        while i < bs.len()
            invariant
                i <= bs.len(),
                out@.len() == i as int,
                forall|k: int|
                    0 <= k < i ==> view_bound(out@[k]) == subst_bound(
                        self.subst(),
                        view_bound(bs@[k]),
                    ),
            decreases bs.len() - i,
        {
            let c = self.modify_type_param_bound(&bs[i]);
            out.push(c);
            i += 1;
        }
        proof {
            assert(view_bound_slice(out@) =~= subst_bound_seq(self.subst(), view_bound_slice(bs@)));
        }
        out
    }

    /// Rewrites a method argument.
    pub fn modify_fn_arg(&self, a: &FnArg) -> (r: FnArg)
        ensures
            view_fnarg(r) == subst_fnarg(self.subst(), view_fnarg(*a)),
    {
        match a {
            FnArg::Receiver { by_ref, lifetime, is_mut } => FnArg::Receiver {
                by_ref: *by_ref,
                lifetime: self.modify_opt_lifetime(lifetime),
                is_mut: *is_mut,
            },
            FnArg::Typed { name, ty } => FnArg::Typed {
                name: name.clone(),
                ty: self.modify_type(ty),
            },
        }
    }

    /// Rewrites a declared parameter: its bounds, not its identifier.
    #[verifier::loop_isolation(false)]
    pub fn modify_generic_param(&self, p: &GenericParam) -> (r: GenericParam)
        ensures
            view_param(r) == subst_param(self.subst(), view_param(*p)),
    {
        let r = GenericParam {
            kind: p.kind,
            ident: p.ident.clone(),
            bounds: self.modify_bound_vec(&p.bounds),
        };
        r
    }

    /// Rewrites a list of declared parameters.
    #[verifier::loop_isolation(false)]
    pub fn modify_generics(&self, ps: &Vec<GenericParam>) -> (r: Vec<GenericParam>)
        ensures
            view_param_slice(r@) == subst_param_seq(self.subst(), view_param_slice(ps@)),
    {
        let mut out: Vec<GenericParam> = Vec::new();
        let mut i: usize = 0;
        while i < ps.len()
            invariant
                i <= ps.len(),
                out@.len() == i as int,
                forall|k: int|
                    0 <= k < i ==> view_param(out@[k]) == subst_param(
                        self.subst(),
                        view_param(ps@[k]),
                    ),
            decreases ps.len() - i,
        {
            let c = self.modify_generic_param(&ps[i]);
            out.push(c);
            i += 1;
        }
        proof {
            assert(view_param_slice(out@) =~= subst_param_seq(self.subst(), view_param_slice(ps@)));
        }
        out
    }

    /// Rewrites a method signature.
    #[verifier::loop_isolation(false)]
    pub fn modify_signature(&self, s: &MethodSig) -> (r: MethodSig)
        ensures
            view_sig(r) == subst_sig(self.subst(), view_sig(*s)),
    {
        let mut inputs: Vec<FnArg> = Vec::new();
        let mut i: usize = 0;
        while i < s.inputs.len()
            invariant
                i <= s.inputs.len(),
                inputs@.len() == i as int,
                forall|k: int|
                    0 <= k < i ==> view_fnarg(inputs@[k]) == subst_fnarg(
                        self.subst(),
                        view_fnarg(s.inputs@[k]),
                    ),
            decreases s.inputs.len() - i,
        {
            let c = self.modify_fn_arg(&s.inputs[i]);
            inputs.push(c);
            i += 1;
        }
        let output = match &s.output {
            Some(t) => Some(self.modify_type(t)),
            None => None,
        };
        let r = MethodSig {
            ident: s.ident.clone(),
            generics: self.modify_generics(&s.generics),
            inputs,
            output,
        };
        proof {
            assert(view_fnarg_slice(r.inputs@) =~= subst_fnarg_seq(
                self.subst(),
                view_fnarg_slice(s.inputs@),
            ));
            assert(view_sig(r) =~= subst_sig(self.subst(), view_sig(*s)));
        }
        r
    }

    /// Rewrites a method.
    pub fn modify_trait_item_fn(&self, m: &Method) -> (r: Method)
        ensures
            view_method(r) == subst_method(self.subst(), view_method(*m)),
    {
        Method { sig: self.modify_signature(&m.sig), default_body: copy_opt_ident(&m.default_body) }
    }

    /// Rewrites a vector of methods.
    #[verifier::loop_isolation(false)]
    pub fn modify_method_vec(&self, ms: &Vec<Method>) -> (r: Vec<Method>)
        ensures
            view_method_slice(r@) == subst_method_seq(self.subst(), view_method_slice(ms@)),
    {
        let mut out: Vec<Method> = Vec::new();
        let mut i: usize = 0;
        while i < ms.len()
            invariant
                i <= ms.len(),
                out@.len() == i as int,
                forall|k: int|
                    0 <= k < i ==> view_method(out@[k]) == subst_method(
                        self.subst(),
                        view_method(ms@[k]),
                    ),
            decreases ms.len() - i,
        {
            let c = self.modify_trait_item_fn(&ms[i]);
            out.push(c);
            i += 1;
        }
        proof {
            assert(view_method_slice(out@) =~= subst_method_seq(
                self.subst(),
                view_method_slice(ms@),
            ));
        }
        out
    }
}

} // verus!
