//! Assembling forwarding blocks: the per-interface pipeline that ties the
//! resolver's table, the unifier and the path rewrites together.

use vstd::prelude::*;

use crate::ast::Path;
use crate::ast::copy_path;
use crate::ast::view_path;
use crate::decl::InterfaceDefinition;
use crate::decl::copy_sig;
use crate::decl::view_method_slice;
use crate::decl::view_sig;
use crate::driver::BlockV;
use crate::driver::ForwardingBlock;
use crate::driver::ForwardingStub;
use crate::driver::GenerationConfig;
use crate::driver::InterfaceRef;
use crate::driver::StubV;
use crate::driver::TargetTypeDescriptor;
use crate::driver::config_prefix_mode;
use crate::driver::config_rename_mode;
use crate::driver::last_ident;
use crate::driver::lookup_interface;
use crate::driver::maybe_rw_method_seq;
use crate::driver::maybe_rw_path;
use crate::driver::params_as_args;
use crate::driver::params_as_args_v;
use crate::driver::spec_block;
use crate::driver::stubs_of;
use crate::driver::view_block;
use crate::driver::view_iref;
use crate::driver::view_stub;
use crate::driver::view_stub_slice;
use crate::driver::view_target;
use crate::driver::result_view;
use crate::ast::GenericArg;
use crate::generics::GenericParam;
use crate::decl::view_interface;
use crate::driver::copy_opt_where;
use crate::error::ErrorV;
use crate::error::GenError;
use crate::error::view_error;
use crate::generics::WhereClause;
use crate::generics::copy_param_vec;
use crate::generics::copy_where_clause;
use crate::generics::merge_generics;
use crate::generics::merge_params;
use crate::generics::merge_wc;
use crate::generics::merge_where_clauses;
use crate::generics::view_opt_where;
use crate::prefix::PathRewriter;
use crate::prefix::RootMode;
use crate::prefix::rw_method_seq;
use crate::prefix::rw_path;
use crate::subst::LookupTokenModifier;
use crate::subst::build_subst;
use crate::subst::first_kind_mismatch;
use crate::subst::subst_method_seq;
use crate::subst::unify;

verus! {

/// The methods after the optional rename treatment.
fn apply_rename_methods(config: &GenerationConfig, ms: Vec<crate::decl::Method>) -> (r: Vec<
    crate::decl::Method,
>)
    ensures
        view_method_slice(r@) == maybe_rw_method_seq(
            config_rename_mode(*config),
            view_method_slice(ms@),
        ),
{
    match &config.renamer {
        Some(ren) => {
            let rw = PathRewriter { mode: RootMode::Rename(ren) };
            rw.rewrite_method_vec(&ms)
        },
        None => ms,
    }
}

/// A path after the optional rename treatment.
fn apply_rename_path(config: &GenerationConfig, p: &Path) -> (r: Path)
    ensures
        view_path(r) == maybe_rw_path(config_rename_mode(*config), view_path(*p)),
{
    match &config.renamer {
        Some(ren) => {
            let rw = PathRewriter { mode: RootMode::Rename(ren) };
            rw.rewrite_path(p)
        },
        None => copy_path(p),
    }
}

/// One stub per method, each annotated with the interface path.
#[verifier::loop_isolation(false)]
fn build_stubs(ipath: &Path, methods: &Vec<crate::decl::Method>) -> (r: Vec<ForwardingStub>)
    ensures
        view_stub_slice(r@) == stubs_of(view_path(*ipath), view_method_slice(methods@)),
{
    let mut stubs: Vec<ForwardingStub> = Vec::new();
    let mut i: usize = 0;
    while i < methods.len()
        invariant
            i <= methods.len(),
            stubs@.len() == i as int,
            forall|k: int|
                0 <= k < i ==> view_stub(stubs@[k]) == (StubV {
                    origin: view_path(*ipath),
                    sig: view_method_slice(methods@)[k].sig,
                }),
        decreases methods.len() - i,
    {
        let st = ForwardingStub { origin: copy_path(ipath), sig: copy_sig(&methods[i].sig) };
        proof {
            assert(view_sig(st.sig) == view_method_slice(methods@)[i as int].sig);
        }
        stubs.push(st);
        i += 1;
    }
    proof {
        assert(view_stub_slice(stubs@) =~= stubs_of(view_path(*ipath), view_method_slice(methods@)));
    }
    stubs
}

/// An absent interface name fails the block with a resolution error.
proof fn lemma_block_not_found(
    pm: crate::prefix::RootModeV,
    rm: Option<crate::prefix::RootModeV>,
    target: crate::driver::TargetV,
    to: Seq<char>,
    xw: Option<Seq<crate::generics::PredicateV>>,
    inj: Option<Seq<char>>,
    tmap: Map<Seq<char>, crate::decl::InterfaceV>,
    rf: crate::driver::InterfaceRefV,
)
    requires
        !tmap.contains_key(last_ident(rf.path)),
    ensures
        spec_block(pm, rm, target, to, xw, inj, tmap, rf) == Err::<BlockV, ErrorV>(
            ErrorV::InterfaceNotFound(last_ident(rf.path)),
        ),
{
    reveal(spec_block);
}

/// A wrong argument count fails the block with an arity mismatch.
proof fn lemma_block_arity(
    pm: crate::prefix::RootModeV,
    rm: Option<crate::prefix::RootModeV>,
    target: crate::driver::TargetV,
    to: Seq<char>,
    xw: Option<Seq<crate::generics::PredicateV>>,
    inj: Option<Seq<char>>,
    tmap: Map<Seq<char>, crate::decl::InterfaceV>,
    rf: crate::driver::InterfaceRefV,
)
    requires
        tmap.contains_key(last_ident(rf.path)),
        tmap[last_ident(rf.path)].generics.len() != params_as_args_v(rf.generics).len(),
    ensures
        spec_block(pm, rm, target, to, xw, inj, tmap, rf) == Err::<BlockV, ErrorV>(
            ErrorV::ArityMismatch {
                expected: tmap[last_ident(rf.path)].generics.len() as int,
                actual: params_as_args_v(rf.generics).len() as int,
            },
        ),
{
    reveal(spec_block);
}

/// A kind disagreement fails the block with a kind mismatch at the first
/// disagreeing position.
proof fn lemma_block_kind(
    pm: crate::prefix::RootModeV,
    rm: Option<crate::prefix::RootModeV>,
    target: crate::driver::TargetV,
    to: Seq<char>,
    xw: Option<Seq<crate::generics::PredicateV>>,
    inj: Option<Seq<char>>,
    tmap: Map<Seq<char>, crate::decl::InterfaceV>,
    rf: crate::driver::InterfaceRefV,
)
    requires
        tmap.contains_key(last_ident(rf.path)),
        tmap[last_ident(rf.path)].generics.len() == params_as_args_v(rf.generics).len(),
        first_kind_mismatch(tmap[last_ident(rf.path)].generics, params_as_args_v(rf.generics))
            >= 0,
    ensures
        ({
            let i = first_kind_mismatch(
                tmap[last_ident(rf.path)].generics,
                params_as_args_v(rf.generics),
            );
            spec_block(pm, rm, target, to, xw, inj, tmap, rf) == Err::<BlockV, ErrorV>(
                ErrorV::KindMismatch {
                    position: i,
                    expected: tmap[last_ident(rf.path)].generics[i].kind,
                    actual: crate::subst::garg_kind(params_as_args_v(rf.generics)[i]),
                },
            )
        }),
{
    reveal(spec_block);
}

/// A successful unification yields exactly the assembled block.
proof fn lemma_block_ok(
    pm: crate::prefix::RootModeV,
    rm: Option<crate::prefix::RootModeV>,
    target: crate::driver::TargetV,
    to: Seq<char>,
    xw: Option<Seq<crate::generics::PredicateV>>,
    inj: Option<Seq<char>>,
    tmap: Map<Seq<char>, crate::decl::InterfaceV>,
    rf: crate::driver::InterfaceRefV,
)
    requires
        tmap.contains_key(last_ident(rf.path)),
        tmap[last_ident(rf.path)].generics.len() == params_as_args_v(rf.generics).len(),
        first_kind_mismatch(tmap[last_ident(rf.path)].generics, params_as_args_v(rf.generics))
            == -1,
    ensures
        ({
            let iface = tmap[last_ident(rf.path)];
            let m = build_subst(iface.generics, params_as_args_v(rf.generics));
            let methods = rw_method_seq(
                pm,
                maybe_rw_method_seq(rm, subst_method_seq(m, iface.methods)),
            );
            let ipath = rw_path(pm, maybe_rw_path(rm, rf.path));
            spec_block(pm, rm, target, to, xw, inj, tmap, rf) == Ok::<BlockV, ErrorV>(
                BlockV {
                    target_ident: target.ident,
                    target_args: params_as_args_v(target.generics),
                    generics: merge_params(target.generics, rf.generics),
                    where_clause: merge_wc(target.where_clause, xw),
                    interface_path: ipath,
                    interface_args: params_as_args_v(rf.generics),
                    to: to,
                    injected: inj,
                    stubs: stubs_of(ipath, methods),
                },
            )
        }),
{
    reveal(spec_block);
}

/// Substitutes the usage-site arguments through the methods and re-anchors
/// every path: the optional package rename first, then the external-root
/// prefix; the interface path gets the same treatment.
fn reanchor(
    config: &GenerationConfig,
    table: &crate::subst::SubstitutionTable,
    ms: &Vec<crate::decl::Method>,
    p: &Path,
) -> (r: (Vec<crate::decl::Method>, Path))
    ensures
        view_method_slice(r.0@) == rw_method_seq(
            config_prefix_mode(*config),
            maybe_rw_method_seq(
                config_rename_mode(*config),
                subst_method_seq(crate::subst::view_subst(*table), view_method_slice(ms@)),
            ),
        ),
        view_path(r.1) == rw_path(
            config_prefix_mode(*config),
            maybe_rw_path(config_rename_mode(*config), view_path(*p)),
        ),
{
    let lt = LookupTokenModifier { table };
    let methods_substituted = lt.modify_method_vec(ms);
    let methods_renamed = apply_rename_methods(config, methods_substituted);
    let prefix_rw = PathRewriter { mode: RootMode::Prefix(&config.prefixer) };
    let methods = prefix_rw.rewrite_method_vec(&methods_renamed);
    let path_renamed = apply_rename_path(config, p);
    let path = prefix_rw.rewrite_path(&path_renamed);
    (methods, path)
}

/// Merges the target's generics and constraints with what the usage site
/// introduces.
fn merge_for_block(
    context: &TargetTypeDescriptor,
    tr: &InterfaceRef,
    extra_where: &Option<WhereClause>,
) -> (r: (Vec<crate::generics::GenericParam>, Option<WhereClause>))
    ensures
        crate::generics::view_param_slice(r.0@) == merge_params(
            view_target(*context).generics,
            view_iref(*tr).generics,
        ),
        view_opt_where(r.1) == merge_wc(
            view_target(*context).where_clause,
            view_opt_where(*extra_where),
        ),
{
    let mut merged = copy_param_vec(&context.generics);
    merge_generics(&mut merged, &tr.generics);
    let mut merged_where = copy_opt_where(&context.where_clause);
    merge_where_clauses(&mut merged_where, extra_where);
    (merged, merged_where)
}

/// Puts the assembled pieces into one block.
fn assemble_block(
    target: &TargetTypeDescriptor,
    to: &String,
    injected: &Option<String>,
    target_args: Vec<GenericArg>,
    merged: Vec<GenericParam>,
    merged_where: Option<WhereClause>,
    ipath: Path,
    interface_args: Vec<GenericArg>,
    stubs: Vec<ForwardingStub>,
) -> (b: ForwardingBlock)
    ensures
        view_block(b) == (BlockV {
            target_ident: target.ident@,
            target_args: crate::ast::view_garg_slice(target_args@),
            generics: crate::generics::view_param_slice(merged@),
            where_clause: view_opt_where(merged_where),
            interface_path: view_path(ipath),
            interface_args: crate::ast::view_garg_slice(interface_args@),
            to: to@,
            injected: crate::ast::view_opt_ident(*injected),
            stubs: view_stub_slice(stubs@),
        }),
{
    ForwardingBlock {
        target_ident: target.ident.clone(),
        target_args,
        generics: merged,
        where_clause: merged_where,
        interface_path: ipath,
        interface_args,
        to: to.clone(),
        injected: crate::ast::copy_opt_ident(injected),
        stubs,
    }
}

/// Generates the forwarding block for one requested interface: resolves the
/// substitution from the usage site, rewrites the method signatures through
/// it, re-anchors every path, merges generics and constraints, and emits one
/// stub per method.
pub fn make_block(
    cfg: &GenerationConfig,
    target: &TargetTypeDescriptor,
    to: &String,
    extra_where: &Option<WhereClause>,
    injected: &Option<String>,
    traits: &Vec<(String, InterfaceDefinition)>,
    rf: &InterfaceRef,
) -> (r: Result<ForwardingBlock, GenError>)
    ensures
        result_view(r) == spec_block(
            config_prefix_mode(*cfg),
            config_rename_mode(*cfg),
            view_target(*target),
            to@,
            view_opt_where(*extra_where),
            crate::ast::view_opt_ident(*injected),
            crate::subst::assoc_map(crate::resolve::view_trait_pairs(traits@)),
            view_iref(*rf),
        ),
{
    let ghost pm = config_prefix_mode(*cfg);
    let ghost rm = config_rename_mode(*cfg);
    let ghost tmap = crate::subst::assoc_map(crate::resolve::view_trait_pairs(traits@));
    let ghost rfv = view_iref(*rf);
    let ghost tv = view_target(*target);
    let ghost tow = to@;
    let ghost xw = view_opt_where(*extra_where);
    let ghost inj = crate::ast::view_opt_ident(*injected);

    let name: String = if rf.path.segments.len() > 0 {
        rf.path.segments[rf.path.segments.len() - 1].ident.clone()
    } else {
        String::new()
    };
    proof {
        assert(name@ == last_ident(rfv.path));
    }
    let iface = match lookup_interface(traits, &name) {
        Some(d) => d,
        None => {
            proof {
                lemma_block_not_found(pm, rm, tv, tow, xw, inj, tmap, rfv);
            }
            return Err(GenError::InterfaceNotFound(name));
        },
    };
    let ghost ifv = tmap[last_ident(rfv.path)];
    proof {
        assert(view_interface(iface) == ifv);
        assert(crate::generics::view_param_slice(iface.generics@) == ifv.generics);
        assert(view_method_slice(iface.methods@) == ifv.methods);
    }
    let args = params_as_args(&rf.generics);
    let ghost argsv = params_as_args_v(rfv.generics);
    proof {
        assert(crate::ast::view_garg_slice(args@) == argsv);
    }
    let table = match unify(&iface.generics, &args) {
        Ok(t) => t,
        Err(e) => {
            proof {
                if ifv.generics.len() != argsv.len() {
                    lemma_block_arity(pm, rm, tv, tow, xw, inj, tmap, rfv);
                } else {
                    crate::subst::lemma_first_kind_mismatch(ifv.generics, argsv);
                    if first_kind_mismatch(ifv.generics, argsv) == -1 {
                        assert(false);
                    }
                    lemma_block_kind(pm, rm, tv, tow, xw, inj, tmap, rfv);
                }
            }
            return Err(e);
        },
    };
    proof {
        assert(ifv.generics.len() == argsv.len()) by {
            if ifv.generics.len() != argsv.len() {
                assert(false);
            }
        }
        assert(first_kind_mismatch(ifv.generics, argsv) == -1) by {
            crate::subst::lemma_first_kind_mismatch(ifv.generics, argsv);
            if first_kind_mismatch(ifv.generics, argsv) >= 0 {
                assert(false);
            }
        }
    }
    let (methods, ipath) = reanchor(cfg, &table, &iface.methods, &rf.path);
    let ghost ms3 = rw_method_seq(pm, maybe_rw_method_seq(rm, subst_method_seq(
        build_subst(ifv.generics, argsv),
        ifv.methods,
    )));
    let ghost ipv = rw_path(pm, maybe_rw_path(rm, rfv.path));
    proof {
        assert(view_method_slice(methods@) == ms3);
        assert(view_path(ipath) == ipv);
    }
    let (merged, merged_where) = merge_for_block(target, rf, extra_where);
    let target_args = params_as_args(&target.generics);
    let interface_args = params_as_args(&rf.generics);
    let stubs = build_stubs(&ipath, &methods);
    let ghost stv = view_stub_slice(stubs@);
    let ghost iav = crate::ast::view_garg_slice(interface_args@);
    let ghost tav = crate::ast::view_garg_slice(target_args@);
    let ghost mgv = crate::generics::view_param_slice(merged@);
    let ghost mwv = view_opt_where(merged_where);
    let b = assemble_block(
        target,
        to,
        injected,
        target_args,
        merged,
        merged_where,
        ipath,
        interface_args,
        stubs,
    );
    proof {
        lemma_block_ok(pm, rm, tv, tow, xw, inj, tmap, rfv);
        assert(stv == stubs_of(ipv, ms3));
        assert(tav == params_as_args_v(tv.generics));
        assert(iav == params_as_args_v(rfv.generics));
        assert(mgv == crate::generics::merge_params(tv.generics, rfv.generics));
        assert(mwv == crate::generics::merge_wc(tv.where_clause, xw));
        assert(view_block(b) =~= BlockV {
            target_ident: tv.ident,
            target_args: params_as_args_v(tv.generics),
            generics: crate::generics::merge_params(tv.generics, rfv.generics),
            where_clause: crate::generics::merge_wc(tv.where_clause, xw),
            interface_path: ipv,
            interface_args: params_as_args_v(rfv.generics),
            to: tow,
            injected: inj,
            stubs: stubs_of(ipv, ms3),
        });
    }
    Ok(b)
}

} // verus!
