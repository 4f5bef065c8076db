//! Re-anchoring path roots: splicing a stable root path in front of
//! references to known external crates, and renaming a package root to
//! `crate`. Both rewrites walk the same node shapes; they differ only in
//! what they do to the head of a path.

use vstd::prelude::*;

use crate::ast::Bound;
use crate::ast::BoundV;
use crate::ast::ConstExpr;
use crate::ast::ConstV;
use crate::ast::GenericArg;
use crate::ast::GenericArgV;
use crate::ast::Path;
use crate::ast::PathSegment;
use crate::ast::PathV;
use crate::ast::SegmentV;
use crate::ast::TypeExpr;
use crate::ast::TypeV;
use crate::ast::copy_const;
use crate::ast::copy_opt_ident;
use crate::ast::view_bound;
use crate::ast::view_bound_slice;
use crate::ast::view_const;
use crate::ast::view_garg;
use crate::ast::view_garg_slice;
use crate::ast::view_path;
use crate::ast::view_seg;
use crate::ast::view_seg_slice;
use crate::ast::view_ty;
use crate::ast::view_ty_slice;
use crate::decl::FnArg;
use crate::decl::FnArgV;
use crate::decl::Method;
use crate::decl::MethodSig;
use crate::decl::MethodV;
use crate::decl::SigV;
use crate::decl::view_fnarg;
use crate::decl::view_fnarg_slice;
use crate::decl::view_method;
use crate::decl::view_method_slice;
use crate::decl::view_sig;
use crate::generics::GenericParam;
use crate::generics::ParamV;
use crate::generics::view_param;
use crate::generics::view_param_slice;
use crate::generics::view_ident_slice;

verus! {

broadcast use vstd::seq::axiom_seq_index_decreases, vstd::std_specs::vec::axiom_vec_decreases_to_view;

/// Splices a configured root path in front of every reference whose leading
/// segment names a known external crate. The original leading segment is
/// kept, immediately after the spliced root.
pub struct Prefixer {
    pub prefix: Path,
    pub crates: Vec<String>,
}

/// Renames the leading segment of every path of two or more segments whose
/// root names the configured package, re-anchoring absolute references to
/// `crate`-relative ones.
pub struct PathRootRenamer {
    pub original: String,
    pub rename: String,
    pub remove_leading_colon: bool,
}

/// What a traversal does to the head of each path it passes.
pub enum RootMode<'a> {
    Prefix(&'a Prefixer),
    Rename(&'a PathRootRenamer),
    Alias(&'a crate::resolve::SymbolTable),
}

/// Mirror of [`RootMode`].
#[verifier::ext_equal]
pub enum RootModeV {
    Prefix { prefix: PathV, roots: Seq<Seq<char>> },
    Rename { original: Seq<char>, rename: Seq<char>, remove_leading_colon: bool },
    Alias { table: Map<Seq<char>, PathV> },
}

/// View of a root mode.
pub open spec fn view_mode(m: RootMode) -> RootModeV {
    match m {
        RootMode::Prefix(p) => RootModeV::Prefix {
            prefix: view_path(p.prefix),
            roots: view_ident_slice(p.crates@),
        },
        RootMode::Rename(r) => RootModeV::Rename {
            original: r.original@,
            rename: r.rename@,
            remove_leading_colon: r.remove_leading_colon,
        },
        RootMode::Alias(t) => RootModeV::Alias { table: crate::resolve::view_sym(*t) },
    }
}

/// Whether an identifier is one of the listed root names.
pub open spec fn root_listed(roots: Seq<Seq<char>>, id: Seq<char>) -> bool {
    exists|i: int| 0 <= i < roots.len() && roots[i] == id
}

/// A path rewritten at the root: its segments have already been rewritten
/// below, the head treatment comes on top.
pub open spec fn rw_path_root(m: RootModeV, p: PathV, segs: Seq<SegmentV>) -> PathV {
    match m {
        RootModeV::Prefix { prefix, roots } => if p.segments.len() > 0 && root_listed(
            roots,
            p.segments[0].ident,
        ) {
            PathV { leading_colon: prefix.leading_colon, segments: prefix.segments + segs }
        } else {
            PathV { leading_colon: p.leading_colon, segments: segs }
        },
        RootModeV::Rename { original, rename, remove_leading_colon } => if p.segments.len() > 1
            && p.segments[0].ident == original {
            PathV {
                leading_colon: if remove_leading_colon {
                    false
                } else {
                    p.leading_colon
                },
                segments: segs.update(0, SegmentV { ident: rename, args: segs[0].args }),
            }
        } else {
            PathV { leading_colon: p.leading_colon, segments: segs }
        },
        RootModeV::Alias { table } => if p.segments.len() > 0 && table.contains_key(
            p.segments[0].ident,
        ) {
            // The spliced path's own tail names the same item the head did,
            // so the head's (already rewritten) argument list moves onto it.
            let target = table[p.segments[0].ident];
            let spliced = if target.segments.len() > 0 {
                target.segments.update(
                    target.segments.len() - 1,
                    SegmentV { ident: target.segments.last().ident, args: segs[0].args },
                )
            } else {
                target.segments
            };
            PathV { leading_colon: target.leading_colon, segments: spliced + segs.drop_first() }
        } else {
            PathV { leading_colon: p.leading_colon, segments: segs }
        },
    }
}

/// A path rewritten through the root mode, arguments included.
pub open spec fn rw_path(m: RootModeV, p: PathV) -> PathV
    decreases p,
{
    rw_path_root(m, p, rw_seg_seq(m, p.segments))
}

/// Elementwise rewrite of a sequence of path segments.
pub open spec fn rw_seg_seq(m: RootModeV, ss: Seq<SegmentV>) -> Seq<SegmentV>
    decreases ss,
{
    Seq::new(
        ss.len(),
        |i: int|
            if 0 <= i < ss.len() {
                rw_seg(m, ss[i])
            } else {
                SegmentV { ident: Seq::empty(), args: Seq::empty() }
            },
    )
}

/// A path segment rewritten through the root mode.
pub open spec fn rw_seg(m: RootModeV, s: SegmentV) -> SegmentV
    decreases s,
{
    SegmentV { ident: s.ident, args: rw_garg_seq(m, s.args) }
}

/// Elementwise rewrite of a sequence of generic arguments.
pub open spec fn rw_garg_seq(m: RootModeV, gs: Seq<GenericArgV>) -> Seq<GenericArgV>
    decreases gs,
{
    Seq::new(
        gs.len(),
        |i: int|
            if 0 <= i < gs.len() {
                rw_garg(m, gs[i])
            } else {
                GenericArgV::Lifetime(Seq::empty())
            },
    )
}

/// A generic argument rewritten through the root mode.
pub open spec fn rw_garg(m: RootModeV, g: GenericArgV) -> GenericArgV
    decreases g,
{
    match g {
        GenericArgV::Lifetime(l) => GenericArgV::Lifetime(l),
        GenericArgV::Type(t) => GenericArgV::Type(rw_ty(m, t)),
        GenericArgV::Const(c) => GenericArgV::Const(c),
    }
}

/// A type expression rewritten through the root mode.
pub open spec fn rw_ty(m: RootModeV, t: TypeV) -> TypeV
    decreases t,
{
    match t {
        TypeV::Path(p) => TypeV::Path(rw_path(m, p)),
        TypeV::Reference { lifetime, is_mut, elem } => TypeV::Reference {
            lifetime: lifetime,
            is_mut: is_mut,
            elem: Box::new(rw_ty(m, *elem)),
        },
        TypeV::Tuple(es) => TypeV::Tuple(rw_ty_seq(m, es)),
        TypeV::Array { elem, len } => TypeV::Array { elem: Box::new(rw_ty(m, *elem)), len: len },
        TypeV::Slice(e) => TypeV::Slice(Box::new(rw_ty(m, *e))),
        TypeV::Ptr { is_mut, elem } => TypeV::Ptr { is_mut: is_mut, elem: Box::new(rw_ty(m, *elem)) },
        TypeV::BareFn { inputs, output } => TypeV::BareFn {
            inputs: rw_ty_seq(m, inputs),
            output: match output {
                Some(b) => Some(Box::new(rw_ty(m, *b))),
                None => None,
            },
        },
        TypeV::TraitObject(bs) => TypeV::TraitObject(rw_bound_seq(m, bs)),
        TypeV::ImplTrait(bs) => TypeV::ImplTrait(rw_bound_seq(m, bs)),
        TypeV::Paren(e) => TypeV::Paren(Box::new(rw_ty(m, *e))),
        TypeV::Infer => TypeV::Infer,
        TypeV::Never => TypeV::Never,
        TypeV::Verbatim(s) => TypeV::Verbatim(s),
    }
}

/// Elementwise rewrite of a sequence of types.
pub open spec fn rw_ty_seq(m: RootModeV, ts: Seq<TypeV>) -> Seq<TypeV>
    decreases ts,
{
    Seq::new(ts.len(), |i: int| if 0 <= i < ts.len() { rw_ty(m, ts[i]) } else { TypeV::Infer })
}

/// A bound rewritten through the root mode.
pub open spec fn rw_bound(m: RootModeV, b: BoundV) -> BoundV
    decreases b,
{
    match b {
        BoundV::Trait(p) => BoundV::Trait(rw_path(m, p)),
        BoundV::Lifetime(l) => BoundV::Lifetime(l),
    }
}

/// Elementwise rewrite of a sequence of bounds.
pub open spec fn rw_bound_seq(m: RootModeV, bs: Seq<BoundV>) -> Seq<BoundV>
    decreases bs,
{
    Seq::new(
        bs.len(),
        |i: int| if 0 <= i < bs.len() { rw_bound(m, bs[i]) } else { BoundV::Lifetime(Seq::empty()) },
    )
}

/// A method argument rewritten through the root mode.
pub open spec fn rw_fnarg(m: RootModeV, a: FnArgV) -> FnArgV {
    match a {
        FnArgV::Receiver { by_ref, lifetime, is_mut } => FnArgV::Receiver {
            by_ref: by_ref,
            lifetime: lifetime,
            is_mut: is_mut,
        },
        FnArgV::Typed { name, ty } => FnArgV::Typed { name: name, ty: rw_ty(m, ty) },
    }
}

/// Elementwise rewrite of a sequence of method arguments.
pub open spec fn rw_fnarg_seq(m: RootModeV, s: Seq<FnArgV>) -> Seq<FnArgV> {
    Seq::new(
        s.len(),
        |i: int|
            if 0 <= i < s.len() {
                rw_fnarg(m, s[i])
            } else {
                FnArgV::Receiver { by_ref: false, lifetime: None, is_mut: false }
            },
    )
}

/// A declared parameter rewritten through the root mode: only its bounds.
pub open spec fn rw_param(m: RootModeV, p: ParamV) -> ParamV {
    ParamV { kind: p.kind, ident: p.ident, bounds: rw_bound_seq(m, p.bounds) }
}

/// Elementwise rewrite of a sequence of declared parameters.
pub open spec fn rw_param_seq(m: RootModeV, s: Seq<ParamV>) -> Seq<ParamV> {
    Seq::new(
        s.len(),
        |i: int|
            if 0 <= i < s.len() {
                rw_param(m, s[i])
            } else {
                ParamV { kind: crate::ast::GpKind::Type, ident: Seq::empty(), bounds: Seq::empty() }
            },
    )
}

/// A method signature rewritten through the root mode.
pub open spec fn rw_sig(m: RootModeV, s: SigV) -> SigV {
    SigV {
        ident: s.ident,
        generics: rw_param_seq(m, s.generics),
        inputs: rw_fnarg_seq(m, s.inputs),
        output: match s.output {
            Some(t) => Some(rw_ty(m, t)),
            None => None,
        },
    }
}

/// A method rewritten through the root mode.
pub open spec fn rw_method(m: RootModeV, mm: MethodV) -> MethodV {
    MethodV { sig: rw_sig(m, mm.sig), default_body: mm.default_body }
}

/// Elementwise rewrite of a sequence of methods.
pub open spec fn rw_method_seq(m: RootModeV, s: Seq<MethodV>) -> Seq<MethodV> {
    Seq::new(
        s.len(),
        |i: int|
            if 0 <= i < s.len() {
                rw_method(m, s[i])
            } else {
                MethodV {
                    sig: SigV {
                        ident: Seq::empty(),
                        generics: Seq::empty(),
                        inputs: Seq::empty(),
                        output: None,
                    },
                    default_body: None,
                }
            },
    )
}

/// The traversal that applies a root mode to every path of a syntax tree.
pub struct PathRewriter<'a> {
    pub mode: RootMode<'a>,
}

impl<'a> PathRewriter<'a> {
    /// The rewrite the traversal applies.
    pub open spec fn modev(&self) -> RootModeV {
        view_mode(self.mode)
    }

    /// Rewrites a path: the head per the mode, the arguments recursively.
    #[verifier::loop_isolation(false)]
    pub fn rewrite_path(&self, p: &Path) -> (r: Path)
        ensures
            view_path(r) == rw_path(self.modev(), view_path(*p)),
        decreases *p,
    {
        let mut segs: Vec<PathSegment> = Vec::new();
        let mut i: usize = 0;
        while i < p.segments.len()
            invariant
                i <= p.segments.len(),
                segs@.len() == i as int,
                forall|k: int|
                    0 <= k < i ==> view_seg(segs@[k]) == rw_seg(
                        self.modev(),
                        view_seg(p.segments@[k]),
                    ),
            decreases p.segments.len() - i,
        {
            let c = self.rewrite_path_segment(&p.segments[i]);
            segs.push(c);
            i += 1;
        }
        proof {
            assert(view_seg_slice(segs@) =~= rw_seg_seq(self.modev(), view_seg_slice(p.segments@)));
        }
        match &self.mode {
            RootMode::Prefix(pref) => splice_prefix(pref, p, segs),
            RootMode::Rename(ren) => rename_root(ren, p, segs),
            RootMode::Alias(table) => splice_alias(table, p, segs),
        }
    }

    /// Rewrites one path segment: its arguments, not its identifier.
    #[verifier::loop_isolation(false)]
    pub fn rewrite_path_segment(&self, s: &PathSegment) -> (r: PathSegment)
        ensures
            view_seg(r) == rw_seg(self.modev(), view_seg(*s)),
        decreases *s,
    {
        let mut out: Vec<GenericArg> = Vec::new();
        let mut i: usize = 0;
        while i < s.args.len()
            invariant
                i <= s.args.len(),
                out@.len() == i as int,
                forall|k: int|
                    0 <= k < i ==> view_garg(out@[k]) == rw_garg(self.modev(), view_garg(s.args@[k])),
            decreases s.args.len() - i,
        {
            let c = self.rewrite_generic_argument(&s.args[i]);
            out.push(c);
            i += 1;
        }
        let r = PathSegment { ident: s.ident.clone(), args: out };
        proof {
            assert(view_garg_slice(r.args@) =~= rw_garg_seq(self.modev(), view_garg_slice(s.args@)));
        }
        r
    }

    /// Rewrites a generic argument: only a type argument changes.
    pub fn rewrite_generic_argument(&self, g: &GenericArg) -> (r: GenericArg)
        ensures
            view_garg(r) == rw_garg(self.modev(), view_garg(*g)),
        decreases *g,
    {
        match g {
            GenericArg::Lifetime(l) => GenericArg::Lifetime(l.clone()),
            GenericArg::Type(t) => GenericArg::Type(self.rewrite_type(t)),
            GenericArg::Const(c) => GenericArg::Const(copy_const(c)),
        }
    }

    /// Rewrites a type expression.
    pub fn rewrite_type(&self, t: &TypeExpr) -> (r: TypeExpr)
        ensures
            view_ty(r) == rw_ty(self.modev(), view_ty(*t)),
        decreases *t,
    {
        match t {
            TypeExpr::Path(p) => TypeExpr::Path(self.rewrite_path(p)),
            TypeExpr::Reference { lifetime, is_mut, elem } => TypeExpr::Reference {
                lifetime: copy_opt_ident(lifetime),
                is_mut: *is_mut,
                elem: Box::new(self.rewrite_type(elem)),
            },
            TypeExpr::Tuple(elems) => TypeExpr::Tuple(self.rewrite_type_vec(elems)),
            TypeExpr::Array { elem, len } => TypeExpr::Array {
                elem: Box::new(self.rewrite_type(elem)),
                len: copy_const(len),
            },
            TypeExpr::Slice(elem) => TypeExpr::Slice(Box::new(self.rewrite_type(elem))),
            TypeExpr::Ptr { is_mut, elem } => TypeExpr::Ptr {
                is_mut: *is_mut,
                elem: Box::new(self.rewrite_type(elem)),
            },
            TypeExpr::BareFn { inputs, output } => TypeExpr::BareFn {
                inputs: self.rewrite_type_vec(inputs),
                output: match output {
                    Some(b) => Some(Box::new(self.rewrite_type(b))),
                    None => None,
                },
            },
            TypeExpr::TraitObject(bounds) => TypeExpr::TraitObject(self.rewrite_bound_vec(bounds)),
            TypeExpr::ImplTrait(bounds) => TypeExpr::ImplTrait(self.rewrite_bound_vec(bounds)),
            TypeExpr::Paren(elem) => TypeExpr::Paren(Box::new(self.rewrite_type(elem))),
            TypeExpr::Infer => TypeExpr::Infer,
            TypeExpr::Never => TypeExpr::Never,
            TypeExpr::Verbatim(s) => TypeExpr::Verbatim(s.clone()),
        }
    }

    /// Rewrites a vector of type expressions.
    #[verifier::loop_isolation(false)]
    pub fn rewrite_type_vec(&self, ts: &Vec<TypeExpr>) -> (r: Vec<TypeExpr>)
        ensures
            view_ty_slice(r@) == rw_ty_seq(self.modev(), view_ty_slice(ts@)),
        decreases *ts,
    {
        let mut out: Vec<TypeExpr> = Vec::new();
        let mut i: usize = 0;
        while i < ts.len()
            invariant
                i <= ts.len(),
                out@.len() == i as int,
                forall|k: int|
                    0 <= k < i ==> view_ty(out@[k]) == rw_ty(self.modev(), view_ty(ts@[k])),
            decreases ts.len() - i,
        {
            let c = self.rewrite_type(&ts[i]);
            out.push(c);
            i += 1;
        }
        proof {
            assert(view_ty_slice(out@) =~= rw_ty_seq(self.modev(), view_ty_slice(ts@)));
        }
        out
    }

    /// Rewrites a bound.
    pub fn rewrite_bound(&self, b: &Bound) -> (r: Bound)
        ensures
            view_bound(r) == rw_bound(self.modev(), view_bound(*b)),
        decreases *b,
    {
        match b {
            Bound::Trait(p) => Bound::Trait(self.rewrite_path(p)),
            Bound::Lifetime(l) => Bound::Lifetime(l.clone()),
        }
    }

    /// Rewrites a vector of bounds.
    #[verifier::loop_isolation(false)]
    pub fn rewrite_bound_vec(&self, bs: &Vec<Bound>) -> (r: Vec<Bound>)
        ensures
            view_bound_slice(r@) == rw_bound_seq(self.modev(), view_bound_slice(bs@)),
        decreases *bs,
    {
        let mut out: Vec<Bound> = Vec::new();
        let mut i: usize = 0;
        while i < bs.len()
            invariant
                i <= bs.len(),
                out@.len() == i as int,
                forall|k: int|
                    0 <= k < i ==> view_bound(out@[k]) == rw_bound(self.modev(), view_bound(bs@[k])),
            decreases bs.len() - i,
        {
            let c = self.rewrite_bound(&bs[i]);
            out.push(c);
            i += 1;
        }
        proof {
            assert(view_bound_slice(out@) =~= rw_bound_seq(self.modev(), view_bound_slice(bs@)));
        }
        out
    }

    /// Rewrites a method argument.
    pub fn rewrite_fn_arg(&self, a: &FnArg) -> (r: FnArg)
        ensures
            view_fnarg(r) == rw_fnarg(self.modev(), view_fnarg(*a)),
    {
        match a {
            FnArg::Receiver { by_ref, lifetime, is_mut } => FnArg::Receiver {
                by_ref: *by_ref,
                lifetime: copy_opt_ident(lifetime),
                is_mut: *is_mut,
            },
            FnArg::Typed { name, ty } => FnArg::Typed {
                name: name.clone(),
                ty: self.rewrite_type(ty),
            },
        }
    }

    /// Rewrites a declared parameter's bounds.
    pub fn rewrite_generic_param(&self, p: &GenericParam) -> (r: GenericParam)
        ensures
            view_param(r) == rw_param(self.modev(), view_param(*p)),
    {
        GenericParam {
            kind: p.kind,
            ident: p.ident.clone(),
            bounds: self.rewrite_bound_vec(&p.bounds),
        }
    }

    /// Rewrites a list of declared parameters.
    #[verifier::loop_isolation(false)]
    pub fn rewrite_generics(&self, ps: &Vec<GenericParam>) -> (r: Vec<GenericParam>)
        ensures
            view_param_slice(r@) == rw_param_seq(self.modev(), view_param_slice(ps@)),
    {
        let mut out: Vec<GenericParam> = Vec::new();
        let mut i: usize = 0;
        while i < ps.len()
            invariant
                i <= ps.len(),
                out@.len() == i as int,
                forall|k: int|
                    0 <= k < i ==> view_param(out@[k]) == rw_param(self.modev(), view_param(ps@[k])),
            decreases ps.len() - i,
        {
            let c = self.rewrite_generic_param(&ps[i]);
            out.push(c);
            i += 1;
        }
        proof {
            assert(view_param_slice(out@) =~= rw_param_seq(self.modev(), view_param_slice(ps@)));
        }
        out
    }

    /// Rewrites a method signature.
    #[verifier::loop_isolation(false)]
    pub fn rewrite_signature(&self, s: &MethodSig) -> (r: MethodSig)
        ensures
            view_sig(r) == rw_sig(self.modev(), view_sig(*s)),
    {
        let mut inputs: Vec<FnArg> = Vec::new();
        let mut i: usize = 0;
        while i < s.inputs.len()
            invariant
                i <= s.inputs.len(),
                inputs@.len() == i as int,
                forall|k: int|
                    0 <= k < i ==> view_fnarg(inputs@[k]) == rw_fnarg(
                        self.modev(),
                        view_fnarg(s.inputs@[k]),
                    ),
            decreases s.inputs.len() - i,
        {
            let c = self.rewrite_fn_arg(&s.inputs[i]);
            inputs.push(c);
            i += 1;
        }
        let output = match &s.output {
            Some(t) => Some(self.rewrite_type(t)),
            None => None,
        };
        let r = MethodSig {
            ident: s.ident.clone(),
            generics: self.rewrite_generics(&s.generics),
            inputs,
            output,
        };
        proof {
            assert(view_fnarg_slice(r.inputs@) =~= rw_fnarg_seq(
                self.modev(),
                view_fnarg_slice(s.inputs@),
            ));
            assert(view_sig(r) =~= rw_sig(self.modev(), view_sig(*s)));
        }
        r
    }

    /// Rewrites a method.
    pub fn rewrite_method(&self, m: &Method) -> (r: Method)
        ensures
            view_method(r) == rw_method(self.modev(), view_method(*m)),
    {
        Method { sig: self.rewrite_signature(&m.sig), default_body: copy_opt_ident(&m.default_body) }
    }

    /// Rewrites a vector of methods.
    #[verifier::loop_isolation(false)]
    pub fn rewrite_method_vec(&self, ms: &Vec<Method>) -> (r: Vec<Method>)
        ensures
            view_method_slice(r@) == rw_method_seq(self.modev(), view_method_slice(ms@)),
    {
        let mut out: Vec<Method> = Vec::new();
        let mut i: usize = 0;
        while i < ms.len()
            invariant
                i <= ms.len(),
                out@.len() == i as int,
                forall|k: int|
                    0 <= k < i ==> view_method(out@[k]) == rw_method(
                        self.modev(),
                        view_method(ms@[k]),
                    ),
            decreases ms.len() - i,
        {
            let c = self.rewrite_method(&ms[i]);
            out.push(c);
            i += 1;
        }
        proof {
            assert(view_method_slice(out@) =~= rw_method_seq(self.modev(), view_method_slice(ms@)));
        }
        out
    }
}

/// Whether one of the listed names equals the identifier.
#[verifier::loop_isolation(false)]
pub fn contains_ident(names: &Vec<String>, ident: &String) -> (r: bool)
    ensures
        r == root_listed(view_ident_slice(names@), ident@),
{
    let ghost roots = view_ident_slice(names@);
    let mut i: usize = 0;
    while i < names.len()
        invariant
            i <= names.len(),
            forall|k: int| 0 <= k < i ==> roots[k] != ident@,
        decreases names.len() - i,
    {
        if names[i] == *ident {
            proof {
                assert(roots[i as int] == ident@);
            }
            return true;
        }
        i += 1;
    }
    false
}

impl Prefixer {
    /// The root mode this prefixer applies.
    pub open spec fn modev(&self) -> RootModeV {
        RootModeV::Prefix {
            prefix: view_path(self.prefix),
            roots: view_ident_slice(self.crates@),
        }
    }

    /// Splices the configured root in front of a reference to a known
    /// external crate; rewrites the path's arguments throughout.
    pub fn prefix_path(&self, p: &Path) -> (r: Path)
        ensures
            view_path(r) == rw_path(self.modev(), view_path(*p)),
    {
        let rewriter = PathRewriter { mode: RootMode::Prefix(self) };
        rewriter.rewrite_path(p)
    }

    /// Rewrites every reference inside a type expression.
    pub fn prefix_type(&self, t: &TypeExpr) -> (r: TypeExpr)
        ensures
            view_ty(r) == rw_ty(self.modev(), view_ty(*t)),
    {
        let rewriter = PathRewriter { mode: RootMode::Prefix(self) };
        rewriter.rewrite_type(t)
    }

    /// Rewrites a bound's trait path.
    pub fn prefix_type_param_bound(&self, b: &Bound) -> (r: Bound)
        ensures
            view_bound(r) == rw_bound(self.modev(), view_bound(*b)),
    {
        let rewriter = PathRewriter { mode: RootMode::Prefix(self) };
        rewriter.rewrite_bound(b)
    }
}

impl PathRootRenamer {
    /// The root mode this renamer applies.
    pub open spec fn modev(&self) -> RootModeV {
        RootModeV::Rename {
            original: self.original@,
            rename: self.rename@,
            remove_leading_colon: self.remove_leading_colon,
        }
    }

    /// Renames the leading segment of a multi-segment path whose root names
    /// the configured package; rewrites the path's arguments throughout.
    pub fn modify_path(&self, p: &Path) -> (r: Path)
        ensures
            view_path(r) == rw_path(self.modev(), view_path(*p)),
    {
        let rewriter = PathRewriter { mode: RootMode::Rename(self) };
        rewriter.rewrite_path(p)
    }
}

/// Applies the prefix treatment to a path whose segments were already
/// rewritten below the head.
#[verifier::loop_isolation(false)]
fn splice_prefix(pref: &Prefixer, p: &Path, segs: Vec<PathSegment>) -> (r: Path)
    ensures
        view_path(r) == rw_path_root(
            RootModeV::Prefix { prefix: view_path(pref.prefix), roots: view_ident_slice(pref.crates@) },
            view_path(*p),
            view_seg_slice(segs@),
        ),
{
    let ghost m = RootModeV::Prefix {
        prefix: view_path(pref.prefix),
        roots: view_ident_slice(pref.crates@),
    };
    let applies = p.segments.len() > 0 && contains_ident(&pref.crates, &p.segments[0].ident);
    if applies {
        proof {
            assert(view_path(*p).segments[0].ident == p.segments@[0].ident@);
            assert(root_listed(view_ident_slice(pref.crates@), view_path(*p).segments[0].ident));
        }
        let mut out: Vec<PathSegment> = Vec::new();
        let mut k: usize = 0;
        while k < pref.prefix.segments.len()
            invariant
                k <= pref.prefix.segments.len(),
                out@.len() == k as int,
                forall|j: int|
                    0 <= j < k ==> view_seg(out@[j]) == view_seg(pref.prefix.segments@[j]),
            decreases pref.prefix.segments.len() - k,
        {
            let c = crate::ast::copy_seg(&pref.prefix.segments[k]);
            out.push(c);
            k += 1;
        }
        let mut j: usize = 0;
        let ghost half = out@;
        while j < segs.len()
            invariant
                j <= segs.len(),
                out@.len() == half.len() + j as int,
                forall|q: int| 0 <= q < half.len() ==> out@[q] == half[q],
                forall|q: int|
                    half.len() <= q < half.len() + j ==> #[trigger] view_seg(out@[q]) == view_seg(
                        segs@[q - half.len()],
                    ),
            decreases segs.len() - j,
        {
            let c = crate::ast::copy_seg(&segs[j]);
            out.push(c);
            j += 1;
        }
        let r = Path { leading_colon: pref.prefix.leading_colon, segments: out };
        proof {
            assert(view_seg_slice(half) =~= view_seg_slice(pref.prefix.segments@));
            let a = view_seg_slice(pref.prefix.segments@);
            let b = view_seg_slice(segs@);
            assert forall|q: int| 0 <= q < out@.len() implies view_seg_slice(out@)[q] == (a + b)[q] by {
                if q < half.len() {
                    assert(out@[q] == half[q]);
                    assert(view_seg_slice(half)[q] == view_seg(half[q]));
                } else {
                    assert(view_seg(out@[q]) == view_seg(segs@[q - half.len()]));
                }
            }
            assert(view_seg_slice(r.segments@) =~= a + b);
            assert(view_path(r) =~= rw_path_root(m, view_path(*p), view_seg_slice(segs@)));
        }
        r
    } else {
        let r = Path { leading_colon: p.leading_colon, segments: segs };
        proof {
            assert(view_path(r) =~= rw_path_root(m, view_path(*p), view_seg_slice(segs@)));
        }
        r
    }
}

/// Applies the rename treatment to a path whose segments were already
/// rewritten below the head.
#[verifier::loop_isolation(false)]
fn rename_root(ren: &PathRootRenamer, p: &Path, segs: Vec<PathSegment>) -> (r: Path)
    requires
        segs@.len() == p.segments@.len(),
    ensures
        view_path(r) == rw_path_root(
            RootModeV::Rename {
                original: ren.original@,
                rename: ren.rename@,
                remove_leading_colon: ren.remove_leading_colon,
            },
            view_path(*p),
            view_seg_slice(segs@),
        ),
{
    let ghost m = RootModeV::Rename {
        original: ren.original@,
        rename: ren.rename@,
        remove_leading_colon: ren.remove_leading_colon,
    };
    let mut segs = segs;
    let applies = p.segments.len() > 1 && p.segments[0].ident == ren.original;
    if applies {
        let ghost before = view_seg_slice(segs@);
        let head = segs.remove(0);
        let renamed = PathSegment { ident: ren.rename.clone(), args: head.args };
        segs.insert(0, renamed);
        let leading = if ren.remove_leading_colon {
            false
        } else {
            p.leading_colon
        };
        let r = Path { leading_colon: leading, segments: segs };
        proof {
            assert(view_seg_slice(r.segments@) =~= before.update(
                0,
                SegmentV { ident: ren.rename@, args: before[0].args },
            ));
            assert(view_path(r) =~= rw_path_root(m, view_path(*p), before));
        }
        r
    } else {
        let r = Path { leading_colon: p.leading_colon, segments: segs };
        proof {
            assert(view_path(r) =~= rw_path_root(m, view_path(*p), view_seg_slice(segs@)));
        }
        r
    }
}

/// Applies the alias treatment to a path whose segments were already
/// rewritten below the head.
#[verifier::loop_isolation(false)]
fn splice_alias(table: &crate::resolve::SymbolTable, p: &Path, segs: Vec<PathSegment>) -> (r: Path)
    requires
        segs@.len() == p.segments@.len(),
    ensures
        view_path(r) == rw_path_root(
            RootModeV::Alias { table: crate::resolve::view_sym(*table) },
            view_path(*p),
            view_seg_slice(segs@),
        ),
{
    let ghost m = RootModeV::Alias { table: crate::resolve::view_sym(*table) };
    let ghost ss = view_seg_slice(segs@);
    let target: Option<Path> = if p.segments.len() > 0 {
        table.lookup(&p.segments[0].ident)
    } else {
        None
    };
    match target {
        Some(t) => {
            proof {
                assert(view_path(*p).segments[0].ident == p.segments@[0].ident@);
                assert(crate::resolve::view_sym(*table).contains_key(
                    view_path(*p).segments[0].ident,
                ));
                assert(crate::resolve::view_sym(*table)[view_path(*p).segments[0].ident]
                    == view_path(t));
            }
            let mut segs = segs;
            let head = segs.remove(0);
            proof {
                assert(view_seg_slice(segs@) =~= ss.drop_first());
                assert(view_seg(head) == ss[0]);
            }
            let ghost tsegs = view_path(t).segments;
            let ghost spliced = if tsegs.len() > 0 {
                tsegs.update(
                    tsegs.len() - 1,
                    SegmentV { ident: tsegs.last().ident, args: ss[0].args },
                )
            } else {
                tsegs
            };
            let mut out: Vec<PathSegment> = Vec::new();
            let n = t.segments.len();
            if n > 0 {
                let mut k: usize = 0;
                while k < n - 1
                    invariant
                        n == t.segments.len(),
                        n > 0,
                        k <= n - 1,
                        out@.len() == k as int,
                        forall|j: int| 0 <= j < k ==> view_seg(out@[j]) == view_seg(t.segments@[j]),
                    decreases n - k,
                {
                    let c = crate::ast::copy_seg(&t.segments[k]);
                    out.push(c);
                    k += 1;
                }
                let last = PathSegment { ident: t.segments[n - 1].ident.clone(), args: head.args };
                proof {
                    assert(view_seg(last) =~= SegmentV {
                        ident: tsegs.last().ident,
                        args: ss[0].args,
                    });
                }
                out.push(last);
            }
            proof {
                assert(view_seg_slice(out@) =~= spliced);
            }
            let mut j: usize = 0;
            let ghost half = out@;
            while j < segs.len()
                invariant
                    j <= segs.len(),
                    out@.len() == half.len() + j as int,
                    forall|q: int| 0 <= q < half.len() ==> out@[q] == half[q],
                    forall|q: int|
                        half.len() <= q < half.len() + j ==> #[trigger] view_seg(out@[q])
                            == view_seg(segs@[q - half.len()]),
                decreases segs.len() - j,
            {
                let c = crate::ast::copy_seg(&segs[j]);
                out.push(c);
                j += 1;
            }
            let r = Path { leading_colon: t.leading_colon, segments: out };
            proof {
                let b = ss.drop_first();
                assert forall|q: int| 0 <= q < out@.len() implies view_seg_slice(out@)[q]
                    == (spliced + b)[q] by {
                    if q < half.len() {
                        assert(out@[q] == half[q]);
                        assert(view_seg_slice(half)[q] == view_seg(half[q]));
                    } else {
                        assert(view_seg(out@[q]) == view_seg(segs@[q - half.len()]));
                        assert(b[q - half.len()] == view_seg_slice(segs@)[q - half.len()]);
                    }
                }
                assert(view_seg_slice(r.segments@) =~= spliced + b);
                assert(view_path(r) =~= rw_path_root(m, view_path(*p), ss));
            }
            r
        },
        None => {
            let r = Path { leading_colon: p.leading_colon, segments: segs };
            proof {
                assert(view_path(r) =~= rw_path_root(m, view_path(*p), view_seg_slice(segs@)));
            }
            r
        },
    }
}

} // verus!

