//! The syntax-tree model: paths, type expressions, bounds and generic
//! arguments, together with their specification-level mirrors and the view
//! functions that connect the two.
//!
//! Executable values hold their children in `Vec` and `Box` and their names
//! in `String`; the mirror types hold `Seq` and `Seq<char>` instead, so that
//! contracts can speak of them with the usual sequence reasoning.

use vstd::prelude::*;

verus! {

broadcast use vstd::seq::axiom_seq_index_decreases, vstd::std_specs::vec::axiom_vec_decreases_to_view;

/// The kind of a generic parameter. Emitted parameter lists keep lifetimes
/// before types and types before consts.
#[derive(Clone, Copy, PartialEq, Eq, Structural)]
pub enum GpKind {
    Lifetime,
    Type,
    Const,
}

/// The rank that orders parameter kinds in an emitted list.
pub open spec fn kind_rank(k: GpKind) -> int {
    match k {
        GpKind::Lifetime => 0,
        GpKind::Type => 1,
        GpKind::Const => 2,
    }
}

/// A const expression in generic-argument position: either a bare parameter
/// identifier (subject to substitution) or opaque expression text.
pub enum ConstExpr {
    Ident(String),
    Verbatim(String),
}

/// A possibly fully-qualified path: `::a::b::C<T>`.
pub struct Path {
    pub leading_colon: bool,
    pub segments: Vec<PathSegment>,
}

/// One path segment: an identifier with its generic arguments, if any.
pub struct PathSegment {
    pub ident: String,
    pub args: Vec<GenericArg>,
}

/// A generic argument at a usage site.
pub enum GenericArg {
    Lifetime(String),
    Type(TypeExpr),
    Const(ConstExpr),
}

/// A bound on a generic parameter or in a trait object: a trait path or an
/// outliving lifetime.
pub enum Bound {
    Trait(Path),
    Lifetime(String),
}

/// A type expression.
pub enum TypeExpr {
    Path(Path),
    Reference { lifetime: Option<String>, is_mut: bool, elem: Box<TypeExpr> },
    Tuple(Vec<TypeExpr>),
    Array { elem: Box<TypeExpr>, len: ConstExpr },
    Slice(Box<TypeExpr>),
    Ptr { is_mut: bool, elem: Box<TypeExpr> },
    BareFn { inputs: Vec<TypeExpr>, output: Option<Box<TypeExpr>> },
    TraitObject(Vec<Bound>),
    ImplTrait(Vec<Bound>),
    Paren(Box<TypeExpr>),
    Infer,
    Never,
    Verbatim(String),
}

// ---------------------------------------------------------------------------
// Specification-level mirrors.
// ---------------------------------------------------------------------------

/// Mirror of [`ConstExpr`].
#[verifier::ext_equal]
pub enum ConstV {
    Ident(Seq<char>),
    Verbatim(Seq<char>),
}

/// Mirror of [`Path`].
#[verifier::ext_equal]
pub struct PathV {
    pub leading_colon: bool,
    pub segments: Seq<SegmentV>,
}

/// Mirror of [`PathSegment`].
#[verifier::ext_equal]
pub struct SegmentV {
    pub ident: Seq<char>,
    pub args: Seq<GenericArgV>,
}

/// Mirror of [`GenericArg`].
#[verifier::ext_equal]
pub enum GenericArgV {
    Lifetime(Seq<char>),
    Type(TypeV),
    Const(ConstV),
}

/// Mirror of [`Bound`].
#[verifier::ext_equal]
pub enum BoundV {
    Trait(PathV),
    Lifetime(Seq<char>),
}

/// Mirror of [`TypeExpr`].
#[verifier::ext_equal]
pub enum TypeV {
    Path(PathV),
    Reference { lifetime: Option<Seq<char>>, is_mut: bool, elem: Box<TypeV> },
    Tuple(Seq<TypeV>),
    Array { elem: Box<TypeV>, len: ConstV },
    Slice(Box<TypeV>),
    Ptr { is_mut: bool, elem: Box<TypeV> },
    BareFn { inputs: Seq<TypeV>, output: Option<Box<TypeV>> },
    TraitObject(Seq<BoundV>),
    ImplTrait(Seq<BoundV>),
    Paren(Box<TypeV>),
    Infer,
    Never,
    Verbatim(Seq<char>),
}

// ---------------------------------------------------------------------------
// View functions.
// ---------------------------------------------------------------------------

/// View of an optional lifetime identifier.
pub open spec fn view_opt_ident(o: Option<String>) -> Option<Seq<char>> {
    match o {
        Some(s) => Some(s@),
        None => None,
    }
}

/// View of a const expression.
pub open spec fn view_const(c: ConstExpr) -> ConstV {
    match c {
        ConstExpr::Ident(s) => ConstV::Ident(s@),
        ConstExpr::Verbatim(s) => ConstV::Verbatim(s@),
    }
}

/// View of a type expression.
pub open spec fn view_ty(t: TypeExpr) -> TypeV
    decreases t,
{
    match t {
        TypeExpr::Path(p) => TypeV::Path(view_path(p)),
        TypeExpr::Reference { lifetime, is_mut, elem } => TypeV::Reference {
            lifetime: view_opt_ident(lifetime),
            is_mut: is_mut,
            elem: Box::new(view_ty(*elem)),
        },
        TypeExpr::Tuple(elems) => TypeV::Tuple(view_ty_slice(elems@)),
        TypeExpr::Array { elem, len } => TypeV::Array {
            elem: Box::new(view_ty(*elem)),
            len: view_const(len),
        },
        TypeExpr::Slice(elem) => TypeV::Slice(Box::new(view_ty(*elem))),
        TypeExpr::Ptr { is_mut, elem } => TypeV::Ptr {
            is_mut: is_mut,
            elem: Box::new(view_ty(*elem)),
        },
        TypeExpr::BareFn { inputs, output } => TypeV::BareFn {
            inputs: view_ty_slice(inputs@),
            output: match output {
                Some(b) => Some(Box::new(view_ty(*b))),
                None => None,
            },
        },
        TypeExpr::TraitObject(bounds) => TypeV::TraitObject(view_bound_slice(bounds@)),
        TypeExpr::ImplTrait(bounds) => TypeV::ImplTrait(view_bound_slice(bounds@)),
        TypeExpr::Paren(elem) => TypeV::Paren(Box::new(view_ty(*elem))),
        TypeExpr::Infer => TypeV::Infer,
        TypeExpr::Never => TypeV::Never,
        TypeExpr::Verbatim(s) => TypeV::Verbatim(s@),
    }
}

/// Elementwise view of a sequence of type expressions.
pub open spec fn view_ty_slice(ts: Seq<TypeExpr>) -> Seq<TypeV>
    decreases ts,
{
    Seq::new(ts.len(), |i: int| if 0 <= i < ts.len() { view_ty(ts[i]) } else { TypeV::Infer })
}

/// View of a path.
pub open spec fn view_path(p: Path) -> PathV
    decreases p,
{
    PathV { leading_colon: p.leading_colon, segments: view_seg_slice(p.segments@) }
}

/// Elementwise view of a sequence of path segments.
pub open spec fn view_seg_slice(ss: Seq<PathSegment>) -> Seq<SegmentV>
    decreases ss,
{
    Seq::new(
        ss.len(),
        |i: int|
            if 0 <= i < ss.len() {
                view_seg(ss[i])
            } else {
                SegmentV { ident: Seq::empty(), args: Seq::empty() }
            },
    )
}

/// View of a path segment.
pub open spec fn view_seg(s: PathSegment) -> SegmentV
    decreases s,
{
    SegmentV { ident: s.ident@, args: view_garg_slice(s.args@) }
}

/// Elementwise view of a sequence of generic arguments.
pub open spec fn view_garg_slice(gs: Seq<GenericArg>) -> Seq<GenericArgV>
    decreases gs,
{
    Seq::new(
        gs.len(),
        |i: int|
            if 0 <= i < gs.len() {
                view_garg(gs[i])
            } else {
                GenericArgV::Lifetime(Seq::empty())
            },
    )
}

/// View of a generic argument.
pub open spec fn view_garg(g: GenericArg) -> GenericArgV
    decreases g,
{
    match g {
        GenericArg::Lifetime(s) => GenericArgV::Lifetime(s@),
        GenericArg::Type(t) => GenericArgV::Type(view_ty(t)),
        GenericArg::Const(c) => GenericArgV::Const(view_const(c)),
    }
}

/// Elementwise view of a sequence of bounds.
pub open spec fn view_bound_slice(bs: Seq<Bound>) -> Seq<BoundV>
    decreases bs,
{
    Seq::new(
        bs.len(),
        |i: int| if 0 <= i < bs.len() { view_bound(bs[i]) } else { BoundV::Lifetime(Seq::empty()) },
    )
}

/// View of a bound.
pub open spec fn view_bound(b: Bound) -> BoundV
    decreases b,
{
    match b {
        Bound::Trait(p) => BoundV::Trait(view_path(p)),
        Bound::Lifetime(s) => BoundV::Lifetime(s@),
    }
}

// ---------------------------------------------------------------------------
// Structural copies.
//
// A derived `Clone` would leave the relation between the copy and the
// original unspecified, so the copies are spelled out and proved to preserve
// the view.
// ---------------------------------------------------------------------------

/// Copies an optional lifetime identifier.
pub fn copy_opt_ident(o: &Option<String>) -> (r: Option<String>)
    ensures
        view_opt_ident(r) == view_opt_ident(*o),
{
    match o {
        Some(s) => Some(s.clone()),
        None => None,
    }
}

/// Copies a const expression.
pub fn copy_const(c: &ConstExpr) -> (r: ConstExpr)
    ensures
        view_const(r) == view_const(*c),
{
    match c {
        ConstExpr::Ident(s) => ConstExpr::Ident(s.clone()),
        ConstExpr::Verbatim(s) => ConstExpr::Verbatim(s.clone()),
    }
}

/// Copies a type expression.
pub fn copy_ty(t: &TypeExpr) -> (r: TypeExpr)
    ensures
        view_ty(r) == view_ty(*t),
    decreases *t,
{
    match t {
        TypeExpr::Path(p) => TypeExpr::Path(copy_path(p)),
        TypeExpr::Reference { lifetime, is_mut, elem } => TypeExpr::Reference {
            lifetime: copy_opt_ident(lifetime),
            is_mut: *is_mut,
            elem: Box::new(copy_ty(elem)),
        },
        TypeExpr::Tuple(elems) => TypeExpr::Tuple(copy_ty_vec(elems)),
        TypeExpr::Array { elem, len } => TypeExpr::Array {
            elem: Box::new(copy_ty(elem)),
            len: copy_const(len),
        },
        TypeExpr::Slice(elem) => TypeExpr::Slice(Box::new(copy_ty(elem))),
        TypeExpr::Ptr { is_mut, elem } => TypeExpr::Ptr {
            is_mut: *is_mut,
            elem: Box::new(copy_ty(elem)),
        },
        TypeExpr::BareFn { inputs, output } => TypeExpr::BareFn {
            inputs: copy_ty_vec(inputs),
            output: match output {
                Some(b) => Some(Box::new(copy_ty(b))),
                None => None,
            },
        },
        TypeExpr::TraitObject(bounds) => TypeExpr::TraitObject(copy_bound_vec(bounds)),
        TypeExpr::ImplTrait(bounds) => TypeExpr::ImplTrait(copy_bound_vec(bounds)),
        TypeExpr::Paren(elem) => TypeExpr::Paren(Box::new(copy_ty(elem))),
        TypeExpr::Infer => TypeExpr::Infer,
        TypeExpr::Never => TypeExpr::Never,
        TypeExpr::Verbatim(s) => TypeExpr::Verbatim(s.clone()),
    }
}

/// Copies a vector of type expressions.
pub fn copy_ty_vec(ts: &Vec<TypeExpr>) -> (r: Vec<TypeExpr>)
    ensures
        view_ty_slice(r@) == view_ty_slice(ts@),
    decreases *ts,
{
    let mut out: Vec<TypeExpr> = Vec::new();
    let mut i: usize = 0;
    while i < ts.len()
        invariant
            i <= ts.len(),
            out@.len() == i as int,
            forall|k: int| 0 <= k < i ==> view_ty(out@[k]) == view_ty(ts@[k]),
        decreases ts.len() - i,
    {
        let c = copy_ty(&ts[i]);
        out.push(c);
        i += 1;
    }
    proof {
        assert(view_ty_slice(out@) =~= view_ty_slice(ts@));
    }
    out
}

/// Copies a path.
pub fn copy_path(p: &Path) -> (r: Path)
    ensures
        view_path(r) == view_path(*p),
    decreases *p,
{
    let mut out: Vec<PathSegment> = Vec::new();
    let mut i: usize = 0;
    while i < p.segments.len()
        invariant
            i <= p.segments.len(),
            out@.len() == i as int,
            forall|k: int| 0 <= k < i ==> view_seg(out@[k]) == view_seg(p.segments@[k]),
        decreases p.segments.len() - i,
    {
        let c = copy_seg(&p.segments[i]);
        out.push(c);
        i += 1;
    }
    proof {
        assert(view_seg_slice(out@) =~= view_seg_slice(p.segments@));
    }
    Path { leading_colon: p.leading_colon, segments: out }
}

/// Copies a path segment.
pub fn copy_seg(s: &PathSegment) -> (r: PathSegment)
    ensures
        view_seg(r) == view_seg(*s),
    decreases *s,
{
    let mut out: Vec<GenericArg> = Vec::new();
    let mut i: usize = 0;
    while i < s.args.len()
        invariant
            i <= s.args.len(),
            out@.len() == i as int,
            forall|k: int| 0 <= k < i ==> view_garg(out@[k]) == view_garg(s.args@[k]),
        decreases s.args.len() - i,
    {
        let c = copy_garg(&s.args[i]);
        out.push(c);
        i += 1;
    }
    proof {
        assert(view_garg_slice(out@) =~= view_garg_slice(s.args@));
    }
    PathSegment { ident: s.ident.clone(), args: out }
}

/// Copies a generic argument.
pub fn copy_garg(g: &GenericArg) -> (r: GenericArg)
    ensures
        view_garg(r) == view_garg(*g),
    decreases *g,
{
    match g {
        GenericArg::Lifetime(s) => GenericArg::Lifetime(s.clone()),
        GenericArg::Type(t) => GenericArg::Type(copy_ty(t)),
        GenericArg::Const(c) => GenericArg::Const(copy_const(c)),
    }
}

/// Copies a bound.
pub fn copy_bound(b: &Bound) -> (r: Bound)
    ensures
        view_bound(r) == view_bound(*b),
    decreases *b,
{
    match b {
        Bound::Trait(p) => Bound::Trait(copy_path(p)),
        Bound::Lifetime(s) => Bound::Lifetime(s.clone()),
    }
}

/// Copies a vector of bounds.
pub fn copy_bound_vec(bs: &Vec<Bound>) -> (r: Vec<Bound>)
    ensures
        view_bound_slice(r@) == view_bound_slice(bs@),
    decreases *bs,
{
    let mut out: Vec<Bound> = Vec::new();
    let mut i: usize = 0;
    while i < bs.len()
        invariant
            i <= bs.len(),
            out@.len() == i as int,
            forall|k: int| 0 <= k < i ==> view_bound(out@[k]) == view_bound(bs@[k]),
        decreases bs.len() - i,
    {
        let c = copy_bound(&bs[i]);
        out.push(c);
        i += 1;
    }
    proof {
        assert(view_bound_slice(out@) =~= view_bound_slice(bs@));
    }
    out
}

// ---------------------------------------------------------------------------
// Small constructors.
// ---------------------------------------------------------------------------

/// The empty, non-qualified path.
pub fn empty_path() -> (p: Path)
    ensures
        view_path(p) == (PathV { leading_colon: false, segments: Seq::<SegmentV>::empty() }),
{
    let p = Path { leading_colon: false, segments: Vec::new() };
    proof {
        assert(p.segments@ =~= Seq::<PathSegment>::empty());
        assert(view_path(p).segments =~= Seq::<SegmentV>::empty());
        assert(view_path(p).leading_colon == false);
        assert(view_path(p) =~= PathV { leading_colon: false, segments: Seq::<SegmentV>::empty() });
    }
    p
}

/// Wraps a bare identifier as a path segment without arguments.
pub fn ident_to_path_segment(ident: String) -> (s: PathSegment)
    ensures
        view_seg(s) == (SegmentV { ident: ident@, args: Seq::<GenericArgV>::empty() }),
{
    let s = PathSegment { ident, args: Vec::new() };
    proof {
        assert(view_seg(s).args =~= Seq::<GenericArgV>::empty());
        assert(view_seg(s) =~= SegmentV { ident: s.ident@, args: Seq::<GenericArgV>::empty() });
    }
    s
}

} // verus!
