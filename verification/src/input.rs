//! The declarative input of one generation request — a key/value list with
//! the keys `target`, `to`, `traits`, `where`, `with` and `source` — and the
//! driver over a whole request: validating and pairing the requested
//! interfaces with the resolver's table, then one forwarding block per
//! request, at build time in one pass or on demand by interface name.

use vstd::prelude::*;

use crate::ast::view_garg_slice;
use crate::ast::view_path;
use crate::decl::InterfaceDefinition;
use crate::decl::InterfaceV;
use crate::decl::copy_interface;
use crate::decl::view_interface;
use crate::driver::BlockV;
use crate::driver::ForwardingBlock;
use crate::driver::GenerationConfig;
use crate::driver::InterfaceRef;
use crate::driver::InterfaceRefV;
use crate::driver::TargetTypeDescriptor;
use crate::driver::TargetV;
use crate::driver::config_prefix_mode;
use crate::driver::config_rename_mode;
use crate::driver::last_ident;
use crate::driver::spec_block;
use crate::driver::view_block;
use crate::driver::view_iref;
use crate::driver::view_target;
use crate::emit::make_block;
use crate::error::ErrorV;
use crate::error::GenError;
use crate::error::view_error;
use crate::generics::PredicateV;
use crate::generics::WhereClause;
use crate::generics::copy_param_vec;
use crate::generics::view_opt_where;
use crate::prefix::RootModeV;
use crate::resolve::Item;
use crate::resolve::ItemV;
use crate::resolve::view_item_slice;
use crate::resolve::view_trait_pairs;
use crate::subst::assoc_map;

verus! {

// ---------------------------------------------------------------------------
// The key/value input.
// ---------------------------------------------------------------------------

/// Where the interface definitions come from: an inline module tree, or a
/// file path to be read before generation.
pub enum SourceRef {
    Inline(Vec<Item>),
    Import(String),
}

/// Mirror of [`SourceRef`].
#[verifier::ext_equal]
pub enum SourceRefV {
    Inline(Seq<ItemV>),
    Import(Seq<char>),
}

/// View of a source reference.
pub open spec fn view_source(s: SourceRef) -> SourceRefV {
    match s {
        SourceRef::Inline(items) => SourceRefV::Inline(view_item_slice(items@)),
        SourceRef::Import(path) => SourceRefV::Import(path@),
    }
}

/// The value one specification entry carries.
pub enum SpecValue {
    /// The type receiving the implementations (key `target`).
    Target(TargetTypeDescriptor),
    /// The delegation-target expression, as opaque text (key `to`).
    Expr(String),
    /// The requested interfaces (key `traits`).
    Interfaces(Vec<InterfaceRef>),
    /// Extra constraint predicates (key `where`).
    Constraints(WhereClause),
    /// A literal injected block, as opaque text (key `with`).
    Literal(String),
    /// The interface-definition source (key `source`).
    Source(SourceRef),
}

/// Mirror of [`SpecValue`].
#[verifier::ext_equal]
pub enum ValueV {
    Target(TargetV),
    Expr(Seq<char>),
    Interfaces(Seq<InterfaceRefV>),
    Constraints(Seq<PredicateV>),
    Literal(Seq<char>),
    Source(SourceRefV),
}

/// Elementwise view of a sequence of interface references.
pub open spec fn view_iref_slice(s: Seq<InterfaceRef>) -> Seq<InterfaceRefV> {
    Seq::new(
        s.len(),
        |i: int|
            if 0 <= i < s.len() {
                view_iref(s[i])
            } else {
                InterfaceRefV {
                    path: crate::ast::PathV { leading_colon: false, segments: Seq::empty() },
                    generics: Seq::empty(),
                }
            },
    )
}

/// View of a specification value.
pub open spec fn view_value(v: SpecValue) -> ValueV {
    match v {
        SpecValue::Target(t) => ValueV::Target(view_target(t)),
        SpecValue::Expr(s) => ValueV::Expr(s@),
        SpecValue::Interfaces(rs) => ValueV::Interfaces(view_iref_slice(rs@)),
        SpecValue::Constraints(w) => ValueV::Constraints(
            crate::generics::view_predicate_slice(w.predicates@),
        ),
        SpecValue::Literal(s) => ValueV::Literal(s@),
        SpecValue::Source(s) => ValueV::Source(view_source(s)),
    }
}

/// Elementwise view of the key/value entries.
pub open spec fn view_entries(s: Seq<(String, SpecValue)>) -> Seq<(Seq<char>, ValueV)> {
    Seq::new(
        s.len(),
        |i: int|
            if 0 <= i < s.len() {
                (s[i].0@, view_value(s[i].1))
            } else {
                (Seq::empty(), ValueV::Expr(Seq::empty()))
            },
    )
}

/// One parsed generation request.
pub struct DelegationSpec {
    pub target: TargetTypeDescriptor,
    pub to: String,
    pub interfaces: Vec<InterfaceRef>,
    pub where_clause: Option<WhereClause>,
    pub injected: Option<String>,
    pub source: Option<SourceRef>,
}

/// Mirror of [`DelegationSpec`].
#[verifier::ext_equal]
pub struct DelegationSpecV {
    pub target: TargetV,
    pub to: Seq<char>,
    pub interfaces: Seq<InterfaceRefV>,
    pub where_clause: Option<Seq<PredicateV>>,
    pub injected: Option<Seq<char>>,
    pub source: Option<SourceRefV>,
}

/// View of a parsed request.
pub open spec fn view_spec(s: DelegationSpec) -> DelegationSpecV {
    DelegationSpecV {
        target: view_target(s.target),
        to: s.to@,
        interfaces: view_iref_slice(s.interfaces@),
        where_clause: view_opt_where(s.where_clause),
        injected: crate::ast::view_opt_ident(s.injected),
        source: match s.source {
            Some(src) => Some(view_source(src)),
            None => None,
        },
    }
}

/// The view of a parse outcome.
pub open spec fn result_spec_view(r: Result<DelegationSpec, GenError>) -> Result<
    DelegationSpecV,
    ErrorV,
> {
    match r {
        Ok(s) => Ok(view_spec(s)),
        Err(e) => Err(view_error(e)),
    }
}

// ---------------------------------------------------------------------------
// Parsing the key/value list.
// ---------------------------------------------------------------------------

/// What has been seen so far while reading the entries.
#[verifier::ext_equal]
pub struct ParseAccV {
    pub target: Option<TargetV>,
    pub to: Option<Seq<char>>,
    pub interfaces: Option<Seq<InterfaceRefV>>,
    pub where_clause: Option<Seq<PredicateV>>,
    pub injected: Option<Seq<char>>,
    pub source: Option<SourceRefV>,
}

/// The accumulator before any entry.
pub open spec fn parse_acc_empty() -> ParseAccV {
    ParseAccV {
        target: None,
        to: None,
        interfaces: None,
        where_clause: None,
        injected: None,
        source: None,
    }
}

/// One entry folded into the accumulator: a recognized key of the right
/// shape fills its slot once; a filled slot, a wrong shape and an unknown
/// key each name the offending key.
pub open spec fn parse_step(acc: ParseAccV, key: Seq<char>, value: ValueV) -> Result<
    ParseAccV,
    ErrorV,
> {
    if key == "target"@ {
        match value {
            ValueV::Target(t) => if acc.target is Some {
                Err(ErrorV::DuplicateKey(key))
            } else {
                Ok(ParseAccV { target: Some(t), ..acc })
            },
            _ => Err(ErrorV::WrongValue(key)),
        }
    } else if key == "to"@ {
        match value {
            ValueV::Expr(s) => if acc.to is Some {
                Err(ErrorV::DuplicateKey(key))
            } else {
                Ok(ParseAccV { to: Some(s), ..acc })
            },
            _ => Err(ErrorV::WrongValue(key)),
        }
    } else if key == "traits"@ {
        match value {
            ValueV::Interfaces(rs) => if acc.interfaces is Some {
                Err(ErrorV::DuplicateKey(key))
            } else {
                Ok(ParseAccV { interfaces: Some(rs), ..acc })
            },
            _ => Err(ErrorV::WrongValue(key)),
        }
    } else if key == "where"@ {
        match value {
            ValueV::Constraints(w) => if acc.where_clause is Some {
                Err(ErrorV::DuplicateKey(key))
            } else {
                Ok(ParseAccV { where_clause: Some(w), ..acc })
            },
            _ => Err(ErrorV::WrongValue(key)),
        }
    } else if key == "with"@ {
        match value {
            ValueV::Literal(s) => if acc.injected is Some {
                Err(ErrorV::DuplicateKey(key))
            } else {
                Ok(ParseAccV { injected: Some(s), ..acc })
            },
            _ => Err(ErrorV::WrongValue(key)),
        }
    } else if key == "source"@ {
        match value {
            ValueV::Source(s) => if acc.source is Some {
                Err(ErrorV::DuplicateKey(key))
            } else {
                Ok(ParseAccV { source: Some(s), ..acc })
            },
            _ => Err(ErrorV::WrongValue(key)),
        }
    } else {
        Err(ErrorV::UnknownKey(key))
    }
}

/// The entries folded left to right, stopping at the first offending key.
pub open spec fn parse_fold(acc: ParseAccV, es: Seq<(Seq<char>, ValueV)>) -> Result<
    ParseAccV,
    ErrorV,
>
    decreases es,
{
    if es.len() == 0 {
        Ok(acc)
    } else {
        match parse_step(acc, es[0].0, es[0].1) {
            Ok(a2) => parse_fold(a2, es.drop_first()),
            Err(e) => Err(e),
        }
    }
}

/// The parsed request an accumulator yields, or the first missing required
/// key, checked in the order target, to, traits.
pub open spec fn parse_finish(acc: ParseAccV) -> Result<DelegationSpecV, ErrorV> {
    if acc.target is None {
        Err(ErrorV::MissingKey("target"@))
    } else if acc.to is None {
        Err(ErrorV::MissingKey("to"@))
    } else if acc.interfaces is None {
        Err(ErrorV::MissingKey("traits"@))
    } else {
        Ok(
            DelegationSpecV {
                target: acc.target->Some_0,
                to: acc.to->Some_0,
                interfaces: acc.interfaces->Some_0,
                where_clause: acc.where_clause,
                injected: acc.injected,
                source: acc.source,
            },
        )
    }
}

/// What a key/value list parses to.
pub open spec fn spec_parse(es: Seq<(Seq<char>, ValueV)>) -> Result<DelegationSpecV, ErrorV> {
    match parse_fold(parse_acc_empty(), es) {
        Ok(acc) => parse_finish(acc),
        Err(e) => Err(e),
    }
}

/// Parses a key/value list into one generation request: each recognized key
/// at most once and of the right shape, the required keys all present.
#[verifier::loop_isolation(false)]
pub fn parse_delegation_spec(entries: Vec<(String, SpecValue)>) -> (r: Result<
    DelegationSpec,
    GenError,
>)
    ensures
        result_spec_view(r) == spec_parse(view_entries(entries@)),
{
    let ghost es = view_entries(entries@);
    let k_target: String = "target".to_owned();
    let k_to: String = "to".to_owned();
    let k_traits: String = "traits".to_owned();
    let k_where: String = "where".to_owned();
    let k_with: String = "with".to_owned();
    let k_source: String = "source".to_owned();

    let mut target: Option<TargetTypeDescriptor> = None;
    let mut to: Option<String> = None;
    let mut interfaces: Option<Vec<InterfaceRef>> = None;
    let mut where_clause: Option<WhereClause> = None;
    let mut injected: Option<String> = None;
    let mut source: Option<SourceRef> = None;

    let n = entries.len();
    let mut rest = entries;
    let mut j: usize = 0;
    proof {
        assert(es.len() == n as int);
        assert(es.skip(0) =~= es);
    }
    while rest.len() > 0
        invariant
            es.len() <= usize::MAX,
            j <= es.len(),
            rest@.len() == es.len() - j,
            view_entries(rest@) =~= es.skip(j as int),
            parse_fold(parse_acc_empty(), es) == parse_fold(
                ParseAccV {
                    target: match target {
                        Some(t) => Some(view_target(t)),
                        None => None,
                    },
                    to: match to {
                        Some(s) => Some(s@),
                        None => None,
                    },
                    interfaces: match interfaces {
                        Some(rs) => Some(view_iref_slice(rs@)),
                        None => None,
                    },
                    where_clause: match where_clause {
                        Some(w) => Some(crate::generics::view_predicate_slice(w.predicates@)),
                        None => None,
                    },
                    injected: match injected {
                        Some(s) => Some(s@),
                        None => None,
                    },
                    source: match source {
                        Some(s) => Some(view_source(s)),
                        None => None,
                    },
                },
                es.skip(j as int),
            ),
        decreases rest.len(),
    {
        let (key, value) = rest.remove(0);
        proof {
            assert(es.skip(j as int)[0].0 == key@);
            assert(es.skip(j as int)[0].1 == view_value(value));
            assert(es.skip(j as int).drop_first() =~= es.skip(j as int + 1));
            assert(view_entries(rest@) =~= es.skip(j as int + 1));
        }
        if key == k_target {
            match value {
                SpecValue::Target(t) => {
                    if target.is_some() {
                        return Err(GenError::DuplicateKey(key));
                    }
                    target = Some(t);
                },
                _ => {
                    return Err(GenError::WrongValue(key));
                },
            }
        } else if key == k_to {
            match value {
                SpecValue::Expr(s) => {
                    if to.is_some() {
                        return Err(GenError::DuplicateKey(key));
                    }
                    to = Some(s);
                },
                _ => {
                    return Err(GenError::WrongValue(key));
                },
            }
        } else if key == k_traits {
            match value {
                SpecValue::Interfaces(rs) => {
                    if interfaces.is_some() {
                        return Err(GenError::DuplicateKey(key));
                    }
                    interfaces = Some(rs);
                },
                _ => {
                    return Err(GenError::WrongValue(key));
                },
            }
        } else if key == k_where {
            match value {
                SpecValue::Constraints(w) => {
                    if where_clause.is_some() {
                        return Err(GenError::DuplicateKey(key));
                    }
                    where_clause = Some(w);
                },
                _ => {
                    return Err(GenError::WrongValue(key));
                },
            }
        } else if key == k_with {
            match value {
                SpecValue::Literal(s) => {
                    if injected.is_some() {
                        return Err(GenError::DuplicateKey(key));
                    }
                    injected = Some(s);
                },
                _ => {
                    return Err(GenError::WrongValue(key));
                },
            }
        } else if key == k_source {
            match value {
                SpecValue::Source(s) => {
                    if source.is_some() {
                        return Err(GenError::DuplicateKey(key));
                    }
                    source = Some(s);
                },
                _ => {
                    return Err(GenError::WrongValue(key));
                },
            }
        } else {
            return Err(GenError::UnknownKey(key));
        }
        j += 1;
    }
    let target = match target {
        Some(t) => t,
        None => {
            return Err(GenError::MissingKey("target".to_owned()));
        },
    };
    let to = match to {
        Some(s) => s,
        None => {
            return Err(GenError::MissingKey("to".to_owned()));
        },
    };
    let interfaces = match interfaces {
        Some(rs) => rs,
        None => {
            return Err(GenError::MissingKey("traits".to_owned()));
        },
    };
    Ok(DelegationSpec { target, to, interfaces, where_clause, injected, source })
}

// ---------------------------------------------------------------------------
// Validating and pairing the requested interfaces.
// ---------------------------------------------------------------------------

/// Whether a request's path ends in a segment that still carries generic
/// arguments; the usage-site arguments belong beside the path, not on it.
pub open spec fn req_has_args(rf: InterfaceRefV) -> bool {
    rf.path.segments.len() > 0 && rf.path.segments.last().args.len() > 0
}

/// The requests validated and paired with their definitions, left to right:
/// a path whose last segment carries arguments, a repeated resolved name,
/// and a name absent from the table each stop the walk, naming the
/// identifier.
pub open spec fn spec_select(
    tmap: Map<Seq<char>, InterfaceV>,
    refs: Seq<InterfaceRefV>,
    seen: Seq<Seq<char>>,
) -> Result<Seq<(InterfaceRefV, InterfaceV)>, ErrorV>
    decreases refs,
{
    if refs.len() == 0 {
        Ok(Seq::empty())
    } else {
        let rf = refs[0];
        let name = last_ident(rf.path);
        if req_has_args(rf) {
            Err(ErrorV::WrongValue(name))
        } else if crate::prefix::root_listed(seen, name) {
            Err(ErrorV::DuplicateInterface(name))
        } else if !tmap.contains_key(name) {
            Err(ErrorV::InterfaceNotFound(name))
        } else {
            match spec_select(tmap, refs.drop_first(), seen.push(name)) {
                Ok(rest) => Ok(seq![(rf, tmap[name])] + rest),
                Err(e) => Err(e),
            }
        }
    }
}

/// Elementwise view of request/definition pairs.
pub open spec fn view_pair_slice(s: Seq<(InterfaceRef, InterfaceDefinition)>) -> Seq<
    (InterfaceRefV, InterfaceV),
> {
    Seq::new(
        s.len(),
        |i: int|
            if 0 <= i < s.len() {
                (view_iref(s[i].0), view_interface(s[i].1))
            } else {
                (
                    InterfaceRefV {
                        path: crate::ast::PathV { leading_colon: false, segments: Seq::empty() },
                        generics: Seq::empty(),
                    },
                    InterfaceV {
                        name: Seq::empty(),
                        generics: Seq::empty(),
                        supertraits: Seq::empty(),
                        methods: Seq::empty(),
                    },
                )
            },
    )
}

/// The view of a selection outcome.
pub open spec fn result_pairs_view(
    r: Result<Vec<(InterfaceRef, InterfaceDefinition)>, GenError>,
) -> Result<Seq<(InterfaceRefV, InterfaceV)>, ErrorV> {
    match r {
        Ok(ps) => Ok(view_pair_slice(ps@)),
        Err(e) => Err(view_error(e)),
    }
}

/// Copies an interface reference.
pub fn copy_iref(tr: &InterfaceRef) -> (r: InterfaceRef)
    ensures
        view_iref(r) == view_iref(*tr),
{
    InterfaceRef {
        path: crate::ast::copy_path(&tr.path),
        generics: copy_param_vec(&tr.generics),
    }
}

/// The identifier a request is made under: its path's last segment, the
/// empty name for an empty path.
fn request_name(tr: &InterfaceRef) -> (r: String)
    ensures
        r@ == last_ident(view_iref(*tr).path),
{
    if tr.path.segments.len() > 0 {
        tr.path.segments[tr.path.segments.len() - 1].ident.clone()
    } else {
        String::new()
    }
}

/// Validates every request against the resolver's table and pairs it with
/// its definition, in request order: the path must end in a bare name, each
/// resolved name may be requested once, and each must exist in the table.
#[verifier::loop_isolation(false)]
pub fn select_interfaces(
    traits: &Vec<(String, InterfaceDefinition)>,
    requests: &Vec<InterfaceRef>,
) -> (r: Result<Vec<(InterfaceRef, InterfaceDefinition)>, GenError>)
    ensures
        result_pairs_view(r) == spec_select(
            assoc_map(view_trait_pairs(traits@)),
            view_iref_slice(requests@),
            Seq::empty(),
        ),
{
    let ghost tmap = assoc_map(view_trait_pairs(traits@));
    let ghost refs = view_iref_slice(requests@);
    let mut seen: Vec<String> = Vec::new();
    let mut pairs: Vec<(InterfaceRef, InterfaceDefinition)> = Vec::new();
    let mut j: usize = 0;
    proof {
        assert(refs.skip(0) =~= refs);
        assert(crate::generics::view_ident_slice(seen@) =~= Seq::<Seq<char>>::empty());
        assert(view_pair_slice(pairs@) =~= Seq::<(InterfaceRefV, InterfaceV)>::empty());
    }
    while j < requests.len()
        invariant
            j <= requests.len(),
            pairs@.len() == j as int,
            spec_select(tmap, refs, Seq::empty()) == (match spec_select(
                tmap,
                refs.skip(j as int),
                crate::generics::view_ident_slice(seen@),
            ) {
                Ok(rest) => Ok::<Seq<(InterfaceRefV, InterfaceV)>, ErrorV>(
                    view_pair_slice(pairs@) + rest,
                ),
                Err(e) => Err::<Seq<(InterfaceRefV, InterfaceV)>, ErrorV>(e),
            }),
        decreases requests.len() - j,
    {
        let tr = &requests[j];
        let ghost rfv = view_iref(*tr);
        proof {
            assert(refs.skip(j as int)[0] == rfv);
            assert(refs.skip(j as int).drop_first() =~= refs.skip(j as int + 1));
        }
        let name = request_name(tr);
        let bad_args = tr.path.segments.len() > 0
            && tr.path.segments[tr.path.segments.len() - 1].args.len() > 0;
        proof {
            assert(bad_args == req_has_args(rfv));
        }
        if bad_args {
            return Err(GenError::WrongValue(name));
        }
        if crate::prefix::contains_ident(&seen, &name) {
            return Err(GenError::DuplicateInterface(name));
        }
        let iface = match crate::driver::lookup_interface(traits, &name) {
            Some(d) => d,
            None => {
                return Err(GenError::InterfaceNotFound(name));
            },
        };
        let ghost seen_before = crate::generics::view_ident_slice(seen@);
        let ghost pairs_before = view_pair_slice(pairs@);
        let pair = (copy_iref(tr), iface);
        proof {
            assert(view_interface(pair.1) == tmap[last_ident(rfv.path)]);
        }
        pairs.push(pair);
        seen.push(name);
        j += 1;
        proof {
            assert(crate::generics::view_ident_slice(seen@) =~= seen_before.push(
                last_ident(rfv.path),
            ));
            assert(view_pair_slice(pairs@) =~= pairs_before.push(
                (rfv, tmap[last_ident(rfv.path)]),
            ));
            assert forall|rest: Seq<(InterfaceRefV, InterfaceV)>| true implies (view_pair_slice(
                pairs@,
            ) + rest) =~= pairs_before + (seq![(rfv, tmap[last_ident(rfv.path)])] + rest) by {}
        }
    }
    proof {
        assert(refs.skip(requests@.len() as int) =~= Seq::<InterfaceRefV>::empty());
        assert(view_pair_slice(pairs@) + Seq::<(InterfaceRefV, InterfaceV)>::empty()
            =~= view_pair_slice(pairs@));
    }
    Ok(pairs)
}

// ---------------------------------------------------------------------------
// The driver over a whole request.
// ---------------------------------------------------------------------------

/// The blocks of the requests in order, stopping at the first failing one.
pub open spec fn gen_fold(
    pm: RootModeV,
    rm: Option<RootModeV>,
    target: TargetV,
    to: Seq<char>,
    xw: Option<Seq<PredicateV>>,
    inj: Option<Seq<char>>,
    tmap: Map<Seq<char>, InterfaceV>,
    refs: Seq<InterfaceRefV>,
) -> Result<Seq<BlockV>, ErrorV>
    decreases refs,
{
    if refs.len() == 0 {
        Ok(Seq::empty())
    } else {
        match spec_block(pm, rm, target, to, xw, inj, tmap, refs[0]) {
            Ok(b) => match gen_fold(pm, rm, target, to, xw, inj, tmap, refs.drop_first()) {
                Ok(rest) => Ok(seq![b] + rest),
                Err(e) => Err(e),
            },
            Err(e) => Err(e),
        }
    }
}

/// What one whole request generates: the first selection error, or the
/// blocks of its requests in order with the first generation error.
pub open spec fn spec_generate(
    pm: RootModeV,
    rm: Option<RootModeV>,
    target: TargetV,
    to: Seq<char>,
    xw: Option<Seq<PredicateV>>,
    inj: Option<Seq<char>>,
    tpairs: Seq<(Seq<char>, InterfaceV)>,
    refs: Seq<InterfaceRefV>,
) -> Result<Seq<BlockV>, ErrorV> {
    match spec_select(assoc_map(tpairs), refs, Seq::empty()) {
        Ok(_) => gen_fold(pm, rm, target, to, xw, inj, assoc_map(tpairs), refs),
        Err(e) => Err(e),
    }
}

/// Elementwise view of a sequence of blocks.
pub open spec fn view_block_slice(s: Seq<ForwardingBlock>) -> Seq<BlockV> {
    Seq::new(s.len(), |i: int| view_block(s[i]))
}

/// Generates every forwarding block of one request at once: validates and
/// pairs the requests, then one block per request, in order.
#[verifier::loop_isolation(false)]
pub fn generate(
    cfg: &GenerationConfig,
    target: &TargetTypeDescriptor,
    to: &String,
    extra_where: &Option<WhereClause>,
    injected: &Option<String>,
    traits: &Vec<(String, InterfaceDefinition)>,
    requests: &Vec<InterfaceRef>,
) -> (r: Result<Vec<ForwardingBlock>, GenError>)
    ensures
        match r {
            Ok(bs) => spec_generate(
                config_prefix_mode(*cfg),
                config_rename_mode(*cfg),
                view_target(*target),
                to@,
                view_opt_where(*extra_where),
                crate::ast::view_opt_ident(*injected),
                view_trait_pairs(traits@),
                view_iref_slice(requests@),
            ) == Ok::<Seq<BlockV>, ErrorV>(view_block_slice(bs@)),
            Err(e) => spec_generate(
                config_prefix_mode(*cfg),
                config_rename_mode(*cfg),
                view_target(*target),
                to@,
                view_opt_where(*extra_where),
                crate::ast::view_opt_ident(*injected),
                view_trait_pairs(traits@),
                view_iref_slice(requests@),
            ) == Err::<Seq<BlockV>, ErrorV>(view_error(e)),
        },
{
    let ghost pm = config_prefix_mode(*cfg);
    let ghost rm = config_rename_mode(*cfg);
    let ghost tv = view_target(*target);
    let ghost tow = to@;
    let ghost xw = view_opt_where(*extra_where);
    let ghost inj = crate::ast::view_opt_ident(*injected);
    let ghost tmap = assoc_map(view_trait_pairs(traits@));
    let ghost refs = view_iref_slice(requests@);

    match select_interfaces(traits, requests) {
        Ok(_) => {},
        Err(e) => {
            return Err(e);
        },
    }

    let mut blocks: Vec<ForwardingBlock> = Vec::new();
    let mut j: usize = 0;
    proof {
        assert(refs.skip(0) =~= refs);
        assert(view_block_slice(blocks@) =~= Seq::<BlockV>::empty());
    }
    while j < requests.len()
        invariant
            j <= requests.len(),
            blocks@.len() == j as int,
            gen_fold(pm, rm, tv, tow, xw, inj, tmap, refs) == (match gen_fold(
                pm,
                rm,
                tv,
                tow,
                xw,
                inj,
                tmap,
                refs.skip(j as int),
            ) {
                Ok(rest) => Ok::<Seq<BlockV>, ErrorV>(view_block_slice(blocks@) + rest),
                Err(e) => Err::<Seq<BlockV>, ErrorV>(e),
            }),
        decreases requests.len() - j,
    {
        let tr = &requests[j];
        let ghost rfv = view_iref(*tr);
        proof {
            assert(refs.skip(j as int)[0] == rfv);
            assert(refs.skip(j as int).drop_first() =~= refs.skip(j as int + 1));
        }
        let block = match make_block(cfg, target, to, extra_where, injected, traits, tr) {
            Ok(b) => b,
            Err(e) => {
                return Err(e);
            },
        };
        let ghost blocks_before = view_block_slice(blocks@);
        blocks.push(block);
        j += 1;
        proof {
            assert(view_block_slice(blocks@) =~= blocks_before.push(view_block(block)));
            assert forall|rest: Seq<BlockV>| true implies (view_block_slice(blocks@) + rest)
                =~= blocks_before + (seq![view_block(block)] + rest) by {}
        }
    }
    proof {
        assert(refs.skip(requests@.len() as int) =~= Seq::<InterfaceRefV>::empty());
        assert(view_block_slice(blocks@) + Seq::<BlockV>::empty() =~= view_block_slice(blocks@));
    }
    Ok(blocks)
}

// ---------------------------------------------------------------------------
// On-demand dispatch by interface name.
// ---------------------------------------------------------------------------

/// The first request made under the given name, or -1.
pub open spec fn find_request(refs: Seq<InterfaceRefV>, name: Seq<char>) -> int
    decreases refs,
{
    if refs.len() == 0 {
        -1
    } else if last_ident(refs[0].path) == name {
        0
    } else {
        let r = find_request(refs.drop_first(), name);
        if r < 0 {
            -1
        } else {
            r + 1
        }
    }
}

/// `find_request` is the first request under the name.
pub proof fn lemma_find_request(refs: Seq<InterfaceRefV>, name: Seq<char>)
    ensures
        -1 <= find_request(refs, name) < refs.len(),
        find_request(refs, name) >= 0 ==> last_ident(refs[find_request(refs, name)].path) == name,
        forall|k: int|
            0 <= k < find_request(refs, name) ==> last_ident(refs[k].path) != name,
        find_request(refs, name) == -1 ==> forall|k: int|
            0 <= k < refs.len() ==> last_ident(refs[k].path) != name,
    decreases refs.len(),
{
    if refs.len() > 0 && last_ident(refs[0].path) != name {
        let d = refs.drop_first();
        lemma_find_request(d, name);
        assert(forall|k: int| 0 <= k < d.len() ==> d[k] == refs[k + 1]);
        let r = find_request(d, name);
        if r >= 0 {
            assert(refs[r + 1] == d[r]);
            assert forall|k: int| 0 <= k < r + 1 implies last_ident(refs[k].path) != name by {
                if k > 0 {
                    assert(refs[k] == d[k - 1]);
                }
            }
        } else {
            assert forall|k: int| 0 <= k < refs.len() implies last_ident(refs[k].path) != name by {
                if k > 0 {
                    assert(refs[k] == d[k - 1]);
                }
            }
        }
    }
}

/// What dispatching one name yields: the block of the first request made
/// under it, or an unknown-interface error naming it.
pub open spec fn spec_dispatch(
    pm: RootModeV,
    rm: Option<RootModeV>,
    target: TargetV,
    to: Seq<char>,
    xw: Option<Seq<PredicateV>>,
    inj: Option<Seq<char>>,
    tmap: Map<Seq<char>, InterfaceV>,
    refs: Seq<InterfaceRefV>,
    name: Seq<char>,
) -> Result<BlockV, ErrorV> {
    if find_request(refs, name) == -1 {
        Err(ErrorV::InterfaceNotFound(name))
    } else {
        spec_block(pm, rm, target, to, xw, inj, tmap, refs[find_request(refs, name)])
    }
}

/// Whether a request is made under the given name.
fn ref_named(tr: &InterfaceRef, name: &String) -> (r: bool)
    ensures
        r == (last_ident(view_iref(*tr).path) == name@),
{
    if tr.path.segments.len() > 0 {
        let b = tr.path.segments[tr.path.segments.len() - 1].ident == *name;
        proof {
            assert(last_ident(view_iref(*tr).path) == tr.path.segments@[tr.path.segments@.len()
                - 1].ident@);
        }
        b
    } else {
        let b = name.as_str().is_empty();
        proof {
            if b {
                assert(last_ident(view_iref(*tr).path) =~= name@);
            }
        }
        b
    }
}

/// Generates the forwarding block for one interface name at its point of
/// use: the same assembly the one-pass driver runs, behind a name-keyed
/// dispatch.
#[verifier::loop_isolation(false)]
pub fn try_expand(
    cfg: &GenerationConfig,
    target: &TargetTypeDescriptor,
    to: &String,
    extra_where: &Option<WhereClause>,
    injected: &Option<String>,
    traits: &Vec<(String, InterfaceDefinition)>,
    requests: &Vec<InterfaceRef>,
    trait_ident: &String,
) -> (r: Result<ForwardingBlock, GenError>)
    ensures
        crate::driver::result_view(r) == spec_dispatch(
            config_prefix_mode(*cfg),
            config_rename_mode(*cfg),
            view_target(*target),
            to@,
            view_opt_where(*extra_where),
            crate::ast::view_opt_ident(*injected),
            assoc_map(view_trait_pairs(traits@)),
            view_iref_slice(requests@),
            trait_ident@,
        ),
{
    let ghost refs = view_iref_slice(requests@);
    let mut i: usize = 0;
    let mut idx: usize = 0;
    let mut found: bool = false;
    while i < requests.len() && !found
        invariant
            i <= requests.len(),
            !found ==> forall|k: int| 0 <= k < i ==> last_ident(refs[k].path) != trait_ident@,
            found ==> idx < requests.len() && last_ident(refs[idx as int].path) == trait_ident@
                && forall|k: int| 0 <= k < idx ==> last_ident(refs[k].path) != trait_ident@,
        decreases requests.len() - i,
    {
        if ref_named(&requests[i], trait_ident) {
            found = true;
            idx = i;
        }
        i += 1;
    }
    proof {
        lemma_find_request(refs, trait_ident@);
        if found {
            assert(find_request(refs, trait_ident@) == idx as int);
        } else {
            assert(find_request(refs, trait_ident@) == -1);
        }
    }
    if !found {
        return Err(GenError::InterfaceNotFound(trait_ident.clone()));
    }
    make_block(cfg, target, to, extra_where, injected, traits, &requests[idx])
}

// ---------------------------------------------------------------------------
// The two modes agree.
// ---------------------------------------------------------------------------

/// A successful one-pass fold yields one block per request, each the block
/// of its own request.
proof fn lemma_gen_fold_blocks(
    pm: RootModeV,
    rm: Option<RootModeV>,
    target: TargetV,
    to: Seq<char>,
    xw: Option<Seq<PredicateV>>,
    inj: Option<Seq<char>>,
    tmap: Map<Seq<char>, InterfaceV>,
    refs: Seq<InterfaceRefV>,
)
    requires
        gen_fold(pm, rm, target, to, xw, inj, tmap, refs) is Ok,
    ensures
        ({
            let bs = gen_fold(pm, rm, target, to, xw, inj, tmap, refs)->Ok_0;
            bs.len() == refs.len() && forall|i: int|
                0 <= i < refs.len() ==> spec_block(pm, rm, target, to, xw, inj, tmap, refs[i])
                    == Ok::<BlockV, ErrorV>(#[trigger] bs[i])
        }),
    decreases refs,
{
    if refs.len() > 0 {
        let d = refs.drop_first();
        lemma_gen_fold_blocks(pm, rm, target, to, xw, inj, tmap, d);
        let bs = gen_fold(pm, rm, target, to, xw, inj, tmap, refs)->Ok_0;
        let rest = gen_fold(pm, rm, target, to, xw, inj, tmap, d)->Ok_0;
        assert(forall|k: int| 0 <= k < d.len() ==> d[k] == refs[k + 1]);
        assert forall|i: int| 0 <= i < refs.len() implies spec_block(
            pm,
            rm,
            target,
            to,
            xw,
            inj,
            tmap,
            refs[i],
        ) == Ok::<BlockV, ErrorV>(#[trigger] bs[i]) by {
            if i > 0 {
                assert(bs[i] == rest[i - 1]);
            }
        }
    }
}

/// A selection that goes through requests each resolved name at most once,
/// and under none of the names already seen.
proof fn lemma_select_distinct(
    tmap: Map<Seq<char>, InterfaceV>,
    refs: Seq<InterfaceRefV>,
    seen: Seq<Seq<char>>,
)
    requires
        spec_select(tmap, refs, seen) is Ok,
    ensures
        forall|i: int, j: int|
            0 <= i < j < refs.len() ==> last_ident(refs[i].path) != last_ident(refs[j].path),
        forall|i: int|
            0 <= i < refs.len() ==> !crate::prefix::root_listed(seen, last_ident(#[trigger] refs[i].path)),
    decreases refs,
{
    if refs.len() > 0 {
        let name = last_ident(refs[0].path);
        let d = refs.drop_first();
        let seen2 = seen.push(name);
        lemma_select_distinct(tmap, d, seen2);
        assert(forall|k: int| 0 <= k < d.len() ==> d[k] == refs[k + 1]);
        assert forall|i: int, j: int|
            0 <= i < j < refs.len() implies last_ident(refs[i].path) != last_ident(
            refs[j].path,
        ) by {
            if i == 0 {
                assert(!crate::prefix::root_listed(seen2, last_ident(d[j - 1].path)));
                assert(seen2[seen.len() as int] == name);
            } else {
                assert(refs[i] == d[i - 1] && refs[j] == d[j - 1]);
            }
        }
        assert forall|i: int| 0 <= i < refs.len() implies !crate::prefix::root_listed(
            seen,
            last_ident(#[trigger] refs[i].path),
        ) by {
            if i > 0 {
                assert(!crate::prefix::root_listed(seen2, last_ident(d[i - 1].path)));
                assert forall|k: int| 0 <= k < seen.len() implies seen[k] != last_ident(
                    refs[i].path,
                ) by {
                    assert(seen2[k] == seen[k]);
                }
            }
        }
    }
}

/// Both modes produce the same output for the same request list: when the
/// one-pass driver succeeds, dispatching any request's name yields exactly
/// that request's block.
pub proof fn lemma_dispatch_matches_generate(
    pm: RootModeV,
    rm: Option<RootModeV>,
    target: TargetV,
    to: Seq<char>,
    xw: Option<Seq<PredicateV>>,
    inj: Option<Seq<char>>,
    tpairs: Seq<(Seq<char>, InterfaceV)>,
    refs: Seq<InterfaceRefV>,
    i: int,
)
    requires
        0 <= i < refs.len(),
        spec_generate(pm, rm, target, to, xw, inj, tpairs, refs) is Ok,
    ensures
        spec_dispatch(
            pm,
            rm,
            target,
            to,
            xw,
            inj,
            assoc_map(tpairs),
            refs,
            last_ident(refs[i].path),
        ) == Ok::<BlockV, ErrorV>(
            spec_generate(pm, rm, target, to, xw, inj, tpairs, refs)->Ok_0[i],
        ),
{
    let tmap = assoc_map(tpairs);
    let name = last_ident(refs[i].path);
    lemma_select_distinct(tmap, refs, Seq::empty());
    lemma_gen_fold_blocks(pm, rm, target, to, xw, inj, tmap, refs);
    lemma_find_request(refs, name);
    let f = find_request(refs, name);
    if f == -1 {
        assert(last_ident(refs[i].path) != name);
    }
    if f != i {
        if f < i {
            assert(last_ident(refs[f].path) == last_ident(refs[i].path));
        } else {
            assert(last_ident(refs[i].path) != name);
        }
    }
}

} // verus!
