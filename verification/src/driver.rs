//! The driver: parsing a delegation specification, resolving each requested
//! interface, unifying its generics against the usage site, merging the
//! target type's generics and constraints with what the usage introduces,
//! re-anchoring paths, and assembling one forwarding block per interface.

use vstd::prelude::*;

use crate::ast::GenericArg;
use crate::ast::GenericArgV;
use crate::ast::GpKind;
use crate::ast::Path;
use crate::ast::PathV;
use crate::ast::TypeExpr;
use crate::ast::copy_path;
use crate::ast::view_garg;
use crate::ast::view_garg_slice;
use crate::ast::view_path;
use crate::decl::InterfaceDefinition;
use crate::decl::InterfaceV;
use crate::decl::MethodSig;
use crate::decl::SigV;
use crate::decl::copy_interface;
use crate::decl::copy_sig;
use crate::decl::view_interface;
use crate::decl::view_sig;
use crate::error::ErrorV;
use crate::error::GenError;
use crate::error::view_error;
use crate::generics::GenericParam;
use crate::generics::ParamV;
use crate::generics::WhereClause;
use crate::generics::copy_param_vec;
use crate::generics::copy_where_clause;
use crate::generics::merge_generics;
use crate::generics::merge_params;
use crate::generics::merge_wc;
use crate::generics::merge_where_clauses;
use crate::generics::view_opt_where;
use crate::generics::view_param_slice;
use crate::generics::PredicateV;
use crate::prefix::PathRewriter;
use crate::prefix::PathRootRenamer;
use crate::prefix::Prefixer;
use crate::prefix::RootMode;
use crate::prefix::RootModeV;
use crate::prefix::rw_method_seq;
use crate::prefix::rw_path;
use crate::subst::LookupTokenModifier;
use crate::subst::build_subst;
use crate::subst::first_kind_mismatch;
use crate::subst::subst_method_seq;
use crate::subst::unify;
use crate::decl::MethodV;
use crate::decl::view_method;
use crate::decl::view_method_slice;

verus! {

// ---------------------------------------------------------------------------
// Inputs and outputs of generation.
// ---------------------------------------------------------------------------

/// The type that receives the forwarding implementations: its name, its own
/// generic parameter list and its own constraint set. Supplied by whatever
/// declares that type; read-only here.
pub struct TargetTypeDescriptor {
    pub ident: String,
    pub generics: Vec<GenericParam>,
    pub where_clause: Option<WhereClause>,
}

/// Mirror of [`TargetTypeDescriptor`].
#[verifier::ext_equal]
pub struct TargetV {
    pub ident: Seq<char>,
    pub generics: Seq<ParamV>,
    pub where_clause: Option<Seq<PredicateV>>,
}

/// View of a target descriptor.
pub open spec fn view_target(t: TargetTypeDescriptor) -> TargetV {
    TargetV {
        ident: t.ident@,
        generics: view_param_slice(t.generics@),
        where_clause: view_opt_where(t.where_clause),
    }
}

/// One requested interface: its path and the generic parameter list the
/// usage site supplies between its angle brackets.
pub struct InterfaceRef {
    pub path: Path,
    pub generics: Vec<GenericParam>,
}

/// Mirror of [`InterfaceRef`].
#[verifier::ext_equal]
pub struct InterfaceRefV {
    pub path: PathV,
    pub generics: Seq<ParamV>,
}

/// View of an interface reference.
pub open spec fn view_iref(r: InterfaceRef) -> InterfaceRefV {
    InterfaceRefV { path: view_path(r.path), generics: view_param_slice(r.generics@) }
}

/// The configuration generation runs under: the prefixer for known external
/// roots, and, when the generated code moves into the package that defined
/// it, the renamer that re-anchors that package's name to `crate`.
pub struct GenerationConfig {
    pub prefixer: Prefixer,
    pub renamer: Option<PathRootRenamer>,
}

/// The prefix treatment a configuration applies.
pub open spec fn config_prefix_mode(c: GenerationConfig) -> RootModeV {
    RootModeV::Prefix {
        prefix: view_path(c.prefixer.prefix),
        roots: crate::generics::view_ident_slice(c.prefixer.crates@),
    }
}

/// The stable root path that generated references are re-anchored through:
/// `::{crate_ident}::__private`, location-independent wherever the output is
/// expanded.
pub fn root_path(crate_ident: &String) -> (p: Path)
    ensures
        view_path(p) == (PathV {
            leading_colon: true,
            segments: seq![
                crate::ast::SegmentV { ident: crate_ident@, args: Seq::empty() },
                crate::ast::SegmentV { ident: "__private"@, args: Seq::empty() },
            ],
        }),
{
    let head = crate::ast::ident_to_path_segment(crate_ident.clone());
    let tail = crate::ast::ident_to_path_segment("__private".to_owned());
    let mut segments: Vec<crate::ast::PathSegment> = Vec::new();
    segments.push(head);
    segments.push(tail);
    let p = Path { leading_colon: true, segments };
    proof {
        assert(crate::ast::view_seg_slice(p.segments@) =~= seq![
            crate::ast::SegmentV { ident: crate_ident@, args: Seq::empty() },
            crate::ast::SegmentV { ident: "__private"@, args: Seq::empty() },
        ]);
    }
    p
}

/// The rename treatment a configuration applies, if any.
pub open spec fn config_rename_mode(c: GenerationConfig) -> Option<RootModeV> {
    match c.renamer {
        Some(r) => Some(
            RootModeV::Rename {
                original: r.original@,
                rename: r.rename@,
                remove_leading_colon: r.remove_leading_colon,
            },
        ),
        None => None,
    }
}

/// One forwarding stub: a body-less method signature, annotated with the
/// qualified path of the interface it satisfies.
pub struct ForwardingStub {
    pub origin: Path,
    pub sig: MethodSig,
}

/// Mirror of [`ForwardingStub`].
#[verifier::ext_equal]
pub struct StubV {
    pub origin: PathV,
    pub sig: SigV,
}

/// View of a forwarding stub.
pub open spec fn view_stub(s: ForwardingStub) -> StubV {
    StubV { origin: view_path(s.origin), sig: view_sig(s.sig) }
}

/// Elementwise view of a sequence of stubs.
pub open spec fn view_stub_slice(s: Seq<ForwardingStub>) -> Seq<StubV> {
    Seq::new(
        s.len(),
        |i: int|
            if 0 <= i < s.len() {
                view_stub(s[i])
            } else {
                StubV {
                    origin: PathV { leading_colon: false, segments: Seq::empty() },
                    sig: SigV {
                        ident: Seq::empty(),
                        generics: Seq::empty(),
                        inputs: Seq::empty(),
                        output: None,
                    },
                }
            },
    )
}

/// The generated output for one interface: the merged generic parameter
/// list, the merged constraint set, the re-anchored interface reference, the
/// delegation target, the optional injected block (positioned before the
/// stubs) and one forwarding stub per method.
pub struct ForwardingBlock {
    pub target_ident: String,
    pub target_args: Vec<GenericArg>,
    pub generics: Vec<GenericParam>,
    pub where_clause: Option<WhereClause>,
    pub interface_path: Path,
    pub interface_args: Vec<GenericArg>,
    pub to: String,
    pub injected: Option<String>,
    pub stubs: Vec<ForwardingStub>,
}

/// Mirror of [`ForwardingBlock`].
#[verifier::ext_equal]
pub struct BlockV {
    pub target_ident: Seq<char>,
    pub target_args: Seq<GenericArgV>,
    pub generics: Seq<ParamV>,
    pub where_clause: Option<Seq<PredicateV>>,
    pub interface_path: PathV,
    pub interface_args: Seq<GenericArgV>,
    pub to: Seq<char>,
    pub injected: Option<Seq<char>>,
    pub stubs: Seq<StubV>,
}

/// View of a forwarding block.
pub open spec fn view_block(b: ForwardingBlock) -> BlockV {
    BlockV {
        target_ident: b.target_ident@,
        target_args: view_garg_slice(b.target_args@),
        generics: view_param_slice(b.generics@),
        where_clause: view_opt_where(b.where_clause),
        interface_path: view_path(b.interface_path),
        interface_args: view_garg_slice(b.interface_args@),
        to: b.to@,
        injected: crate::ast::view_opt_ident(b.injected),
        stubs: view_stub_slice(b.stubs@),
    }
}

// ---------------------------------------------------------------------------
// Usage-site parameters as arguments.
// ---------------------------------------------------------------------------

/// The argument a usage-site parameter stands for: the lifetime itself, a
/// bare path to the type identifier, or the const identifier.
pub open spec fn param_as_arg(p: ParamV) -> GenericArgV {
    match p.kind {
        GpKind::Lifetime => GenericArgV::Lifetime(p.ident),
        GpKind::Type => GenericArgV::Type(
            crate::ast::TypeV::Path(
                PathV {
                    leading_colon: false,
                    segments: seq![crate::ast::SegmentV { ident: p.ident, args: Seq::empty() }],
                },
            ),
        ),
        GpKind::Const => GenericArgV::Const(crate::ast::ConstV::Ident(p.ident)),
    }
}

/// Elementwise reading of a parameter list as an argument list.
pub open spec fn params_as_args_v(ps: Seq<ParamV>) -> Seq<GenericArgV> {
    Seq::new(
        ps.len(),
        |i: int|
            if 0 <= i < ps.len() {
                param_as_arg(ps[i])
            } else {
                GenericArgV::Lifetime(Seq::empty())
            },
    )
}

/// Reads a declared parameter list as the argument list that mentions each
/// parameter by name.
#[verifier::loop_isolation(false)]
#[verifier::rlimit(50)]
pub fn params_as_args(ps: &Vec<GenericParam>) -> (r: Vec<GenericArg>)
    ensures
        view_garg_slice(r@) == params_as_args_v(view_param_slice(ps@)),
{
    let mut out: Vec<GenericArg> = Vec::new();
    let mut i: usize = 0;
    while i < ps.len()
        invariant
            i <= ps.len(),
            out@.len() == i as int,
            forall|k: int|
                0 <= k < i ==> view_garg(out@[k]) == param_as_arg(
                    crate::generics::view_param(ps@[k]),
                ),
        decreases ps.len() - i,
    {
        let p = &ps[i];
        let a = match p.kind {
            GpKind::Lifetime => GenericArg::Lifetime(p.ident.clone()),
            GpKind::Type => {
                let seg = crate::ast::ident_to_path_segment(p.ident.clone());
                let mut segs: Vec<crate::ast::PathSegment> = Vec::new();
                segs.push(seg);
                let path = Path { leading_colon: false, segments: segs };
                proof {
                    assert(crate::ast::view_seg_slice(path.segments@) =~= seq![
                        crate::ast::SegmentV { ident: p.ident@, args: Seq::empty() },
                    ]);
                    assert(view_path(path) == (PathV {
                        leading_colon: false,
                        segments: seq![
                            crate::ast::SegmentV { ident: p.ident@, args: Seq::empty() },
                        ],
                    }));
                }
                GenericArg::Type(TypeExpr::Path(path))
            },
            GpKind::Const => GenericArg::Const(crate::ast::ConstExpr::Ident(p.ident.clone())),
        };
        proof {
            assert(view_garg(a) == param_as_arg(crate::generics::view_param(ps@[i as int])));
        }
        out.push(a);
        i += 1;
    }
    proof {
        assert forall|k: int| 0 <= k < out@.len() implies view_garg_slice(out@)[k]
            == params_as_args_v(view_param_slice(ps@))[k] by {
            assert(view_param_slice(ps@)[k] == crate::generics::view_param(ps@[k]));
        }
        assert(view_garg_slice(out@) =~= params_as_args_v(view_param_slice(ps@)));
    }
    out
}

// ---------------------------------------------------------------------------
// Looking a requested interface up.
// ---------------------------------------------------------------------------

/// The identifier a reference is requested under: its path's last segment.
pub open spec fn last_ident(p: PathV) -> Seq<char> {
    if p.segments.len() > 0 {
        p.segments[p.segments.len() - 1].ident
    } else {
        Seq::empty()
    }
}

/// Looks an interface up among the resolver's output; a later entry wins.
pub fn lookup_interface(traits: &Vec<(String, InterfaceDefinition)>, name: &String) -> (r: Option<
    InterfaceDefinition,
>)
    ensures
        match r {
            Some(d) => crate::subst::assoc_map(
                crate::resolve::view_trait_pairs(traits@),
            ).contains_key(name@) && view_interface(d) == crate::subst::assoc_map(
                crate::resolve::view_trait_pairs(traits@),
            )[name@],
            None => !crate::subst::assoc_map(
                crate::resolve::view_trait_pairs(traits@),
            ).contains_key(name@),
        },
{
    let ghost pairs = crate::resolve::view_trait_pairs(traits@);
    let mut i: usize = traits.len();
    #[verifier::loop_isolation(false)]
    while i > 0
        invariant
            i <= traits.len(),
            forall|k: int| i <= k < pairs.len() ==> pairs[k].0 != name@,
        decreases i,
    {
        i -= 1;
        if traits[i].0 == *name {
            proof {
                crate::subst::lemma_assoc_map_found(pairs, name@, i as int);
            }
            return Some(copy_interface(&traits[i].1));
        }
    }
    proof {
        crate::subst::lemma_assoc_map_missing(pairs, name@);
    }
    None
}

// ---------------------------------------------------------------------------
// One forwarding block, at the specification level.
// ---------------------------------------------------------------------------

/// Methods rewritten by the optional rename treatment.
pub open spec fn maybe_rw_method_seq(m: Option<RootModeV>, s: Seq<MethodV>) -> Seq<MethodV> {
    match m {
        Some(mm) => rw_method_seq(mm, s),
        None => s,
    }
}

/// A path rewritten by the optional rename treatment.
pub open spec fn maybe_rw_path(m: Option<RootModeV>, p: PathV) -> PathV {
    match m {
        Some(mm) => rw_path(mm, p),
        None => p,
    }
}

/// The stubs of a block: one per method, each annotated with the interface
/// path.
pub open spec fn stubs_of(origin: PathV, ms: Seq<MethodV>) -> Seq<StubV> {
    Seq::new(
        ms.len(),
        |i: int|
            if 0 <= i < ms.len() {
                StubV { origin: origin, sig: ms[i].sig }
            } else {
                StubV {
                    origin: PathV { leading_colon: false, segments: Seq::empty() },
                    sig: SigV {
                        ident: Seq::empty(),
                        generics: Seq::empty(),
                        inputs: Seq::empty(),
                        output: None,
                    },
                }
            },
    )
}

/// The forwarding block one interface reference yields, or the error that
/// stops it: interface not found, arity mismatch, or kind mismatch at the
/// first disagreeing position.
#[verifier::opaque]
pub open spec fn spec_block(
    prefix_mode: RootModeV,
    rename_mode: Option<RootModeV>,
    target: TargetV,
    to: Seq<char>,
    extra_where: Option<Seq<PredicateV>>,
    injected: Option<Seq<char>>,
    traits: Map<Seq<char>, InterfaceV>,
    rf: InterfaceRefV,
) -> Result<BlockV, ErrorV> {
    let name = last_ident(rf.path);
    if !traits.contains_key(name) {
        Err(ErrorV::InterfaceNotFound(name))
    } else {
        let iface = traits[name];
        let args = params_as_args_v(rf.generics);
        if iface.generics.len() != args.len() {
            Err(
                ErrorV::ArityMismatch {
                    expected: iface.generics.len() as int,
                    actual: args.len() as int,
                },
            )
        } else if first_kind_mismatch(iface.generics, args) >= 0 {
            let i = first_kind_mismatch(iface.generics, args);
            Err(
                ErrorV::KindMismatch {
                    position: i,
                    expected: iface.generics[i].kind,
                    actual: crate::subst::garg_kind(args[i]),
                },
            )
        } else {
            let m = build_subst(iface.generics, args);
            let methods = rw_method_seq(
                prefix_mode,
                maybe_rw_method_seq(rename_mode, subst_method_seq(m, iface.methods)),
            );
            let ipath = rw_path(prefix_mode, maybe_rw_path(rename_mode, rf.path));
            Ok(
                BlockV {
                    target_ident: target.ident,
                    target_args: params_as_args_v(target.generics),
                    generics: merge_params(target.generics, rf.generics),
                    where_clause: merge_wc(target.where_clause, extra_where),
                    interface_path: ipath,
                    interface_args: params_as_args_v(rf.generics),
                    to: to,
                    injected: injected,
                    stubs: stubs_of(ipath, methods),
                },
            )
        }
    }
}

/// The view of a generation outcome: the block's or the error's mirror.
pub open spec fn result_view(r: Result<ForwardingBlock, GenError>) -> Result<BlockV, ErrorV> {
    match r {
        Ok(b) => Ok(view_block(b)),
        Err(e) => Err(view_error(e)),
    }
}

/// Copies an optional where clause.
pub fn copy_opt_where(w: &Option<WhereClause>) -> (r: Option<WhereClause>)
    ensures
        view_opt_where(r) == view_opt_where(*w),
{
    match w {
        Some(wc) => Some(copy_where_clause(wc)),
        None => None,
    }
}

} // verus!
