//! The module symbol resolver: walks a parsed module tree, builds the table
//! from every declared or imported name to its fully-qualified path, and
//! extracts the named interface definitions with default method bodies
//! stripped and alias references spliced to fully-qualified ones.

use vstd::prelude::*;

use crate::ast::Path;
use crate::ast::PathSegment;
use crate::ast::PathV;
use crate::ast::SegmentV;
use crate::ast::copy_path;
use crate::ast::ident_to_path_segment;
use crate::ast::view_path;
use crate::ast::view_seg;
use crate::ast::view_seg_slice;
use crate::decl::InterfaceDefinition;
use crate::decl::InterfaceV;
use crate::decl::Method;
use crate::decl::MethodV;
use crate::decl::SigV;
use crate::decl::view_interface;
use crate::decl::view_method;
use crate::decl::view_method_slice;
use crate::error::ErrorV;
use crate::error::GenError;
use crate::error::view_error;
use crate::prefix::PathRewriter;
use crate::prefix::RootMode;
use crate::prefix::RootModeV;
use crate::prefix::rw_bound_seq;
use crate::prefix::rw_method_seq;
use crate::prefix::rw_param_seq;
use crate::subst::assoc_map;

verus! {

broadcast use vstd::seq::axiom_seq_index_decreases, vstd::std_specs::vec::axiom_vec_decreases_to_view;

// ---------------------------------------------------------------------------
// The source module tree.
// ---------------------------------------------------------------------------

/// One tree of a `use` declaration.
pub enum UseTree {
    /// A path segment followed by more of the tree: `a::<rest>`.
    Path { ident: String, tree: Box<UseTree> },
    /// A plain imported name.
    Name { ident: String },
    /// An imported name bound under another one: `C as D`.
    Rename { ident: String, rename: String },
    /// A braced group of trees.
    Group(Vec<UseTree>),
}

/// Mirror of [`UseTree`].
#[verifier::ext_equal]
pub enum UseTreeV {
    Path { ident: Seq<char>, tree: Box<UseTreeV> },
    Name { ident: Seq<char> },
    Rename { ident: Seq<char>, rename: Seq<char> },
    Group(Seq<UseTreeV>),
}

/// One item of a module tree, as far as resolution reads it.
pub enum Item {
    /// A nested module with its items.
    Mod { name: String, items: Vec<Item> },
    /// An import declaration.
    Use(UseTree),
    /// A struct declaration; only its name matters here.
    Struct { name: String },
    /// An interface definition.
    Interface(InterfaceDefinition),
}

/// Mirror of [`Item`].
#[verifier::ext_equal]
pub enum ItemV {
    Mod { name: Seq<char>, items: Seq<ItemV> },
    Use(UseTreeV),
    Struct { name: Seq<char> },
    Interface(InterfaceV),
}

/// View of a use tree.
pub open spec fn view_usetree(t: UseTree) -> UseTreeV
    decreases t,
{
    match t {
        UseTree::Path { ident, tree } => UseTreeV::Path {
            ident: ident@,
            tree: Box::new(view_usetree(*tree)),
        },
        UseTree::Name { ident } => UseTreeV::Name { ident: ident@ },
        UseTree::Rename { ident, rename } => UseTreeV::Rename { ident: ident@, rename: rename@ },
        UseTree::Group(ts) => UseTreeV::Group(view_usetree_slice(ts@)),
    }
}

/// Elementwise view of a sequence of use trees.
pub open spec fn view_usetree_slice(ts: Seq<UseTree>) -> Seq<UseTreeV>
    decreases ts,
{
    Seq::new(
        ts.len(),
        |i: int|
            if 0 <= i < ts.len() {
                view_usetree(ts[i])
            } else {
                UseTreeV::Name { ident: Seq::empty() }
            },
    )
}

/// View of a module item.
pub open spec fn view_item(it: Item) -> ItemV
    decreases it,
{
    match it {
        Item::Mod { name, items } => ItemV::Mod { name: name@, items: view_item_slice(items@) },
        Item::Use(t) => ItemV::Use(view_usetree(t)),
        Item::Struct { name } => ItemV::Struct { name: name@ },
        Item::Interface(d) => ItemV::Interface(view_interface(d)),
    }
}

/// Elementwise view of a sequence of module items.
pub open spec fn view_item_slice(its: Seq<Item>) -> Seq<ItemV>
    decreases its,
{
    Seq::new(
        its.len(),
        |i: int|
            if 0 <= i < its.len() {
                view_item(its[i])
            } else {
                ItemV::Struct { name: Seq::empty() }
            },
    )
}

// ---------------------------------------------------------------------------
// The symbol table.
// ---------------------------------------------------------------------------

/// The table from alias to fully-qualified path, built while walking a
/// module tree. A later entry for the same alias wins.
pub struct SymbolTable {
    pub entries: Vec<(String, Path)>,
}

/// View of the table's entries.
pub open spec fn view_sym_pairs(s: Seq<(String, Path)>) -> Seq<(Seq<char>, PathV)> {
    Seq::new(
        s.len(),
        |i: int|
            if 0 <= i < s.len() {
                (s[i].0@, view_path(s[i].1))
            } else {
                (Seq::empty(), PathV { leading_colon: false, segments: Seq::empty() })
            },
    )
}

/// View of a symbol table: the map its entries denote.
pub open spec fn view_sym(t: SymbolTable) -> Map<Seq<char>, PathV> {
    assoc_map(view_sym_pairs(t.entries@))
}

impl SymbolTable {
    /// The empty table.
    pub fn new() -> (r: SymbolTable)
        ensures
            r.entries@.len() == 0,
            view_sym(r) == Map::<Seq<char>, PathV>::empty(),
    {
        let r = SymbolTable { entries: Vec::new() };
        proof {
            assert(view_sym_pairs(r.entries@) =~= Seq::<(Seq<char>, PathV)>::empty());
        }
        r
    }

    /// Looks an alias up; a later entry wins.
    pub fn lookup(&self, alias: &String) -> (r: Option<Path>)
        ensures
            match r {
                Some(p) => view_sym(*self).contains_key(alias@) && view_path(p) == view_sym(
                    *self,
                )[alias@],
                None => !view_sym(*self).contains_key(alias@),
            },
    {
        let ghost pairs = view_sym_pairs(self.entries@);
        let mut i: usize = self.entries.len();
        #[verifier::loop_isolation(false)]
        while i > 0
            invariant
                i <= self.entries.len(),
                forall|k: int| i <= k < pairs.len() ==> pairs[k].0 != alias@,
            decreases i,
        {
            i -= 1;
            if self.entries[i].0 == *alias {
                proof {
                    crate::subst::lemma_assoc_map_found(pairs, alias@, i as int);
                }
                return Some(copy_path(&self.entries[i].1));
            }
        }
        proof {
            crate::subst::lemma_assoc_map_missing(pairs, alias@);
        }
        None
    }

    /// Records an alias for a qualified path; it shadows earlier entries.
    pub fn record(&mut self, alias: String, target: Path)
        ensures
            view_sym_pairs(final(self).entries@) == view_sym_pairs(old(self).entries@).push(
                (alias@, view_path(target)),
            ),
            view_sym(*final(self)) == view_sym(*old(self)).insert(alias@, view_path(target)),
    {
        let ghost before = view_sym_pairs(self.entries@);
        self.entries.push((alias, target));
        proof {
            assert(view_sym_pairs(self.entries@) =~= before.push(
                (old(self).entries@.push((alias, target)).last().0@, view_path(target)),
            ));
            assert(view_sym_pairs(self.entries@).drop_last() =~= before);
        }
    }
}

// ---------------------------------------------------------------------------
// Resolution, at the specification level.
// ---------------------------------------------------------------------------

/// A path extended by one bare segment.
pub open spec fn path_pushed(p: PathV, id: Seq<char>) -> PathV {
    PathV {
        leading_colon: p.leading_colon,
        segments: p.segments.push(SegmentV { ident: id, args: Seq::empty() }),
    }
}

/// The alias entries one use tree contributes, under the given path prefix.
pub open spec fn use_entries(prefix: PathV, t: UseTreeV) -> Seq<(Seq<char>, PathV)>
    decreases t,
{
    match t {
        UseTreeV::Name { ident } => seq![(ident, path_pushed(prefix, ident))],
        UseTreeV::Rename { ident, rename } => seq![(rename, path_pushed(prefix, ident))],
        UseTreeV::Path { ident, tree } => use_entries(path_pushed(prefix, ident), *tree),
        UseTreeV::Group(ts) => use_entries_seq(prefix, ts),
    }
}

/// The alias entries of a sequence of use trees, in order.
pub open spec fn use_entries_seq(prefix: PathV, ts: Seq<UseTreeV>) -> Seq<(Seq<char>, PathV)>
    decreases ts,
{
    if ts.len() == 0 {
        Seq::empty()
    } else {
        use_entries_seq(prefix, ts.drop_last()) + use_entries(prefix, ts.last())
    }
}

/// A method with its default body stripped.
pub open spec fn stripped_method(m: MethodV) -> MethodV {
    MethodV { sig: m.sig, default_body: None }
}

/// Elementwise strip of a sequence of methods.
pub open spec fn stripped_method_seq(s: Seq<MethodV>) -> Seq<MethodV> {
    Seq::new(
        s.len(),
        |i: int|
            if 0 <= i < s.len() {
                stripped_method(s[i])
            } else {
                MethodV {
                    sig: SigV {
                        ident: Seq::empty(),
                        generics: Seq::empty(),
                        inputs: Seq::empty(),
                        output: None,
                    },
                    default_body: None,
                }
            },
    )
}

/// An interface as the resolver records it: default bodies stripped, every
/// alias reference spliced to its fully-qualified path.
pub open spec fn resolved_interface(table: Map<Seq<char>, PathV>, d: InterfaceV) -> InterfaceV {
    let m = RootModeV::Alias { table };
    InterfaceV {
        name: d.name,
        generics: rw_param_seq(m, d.generics),
        supertraits: rw_bound_seq(m, d.supertraits),
        methods: stripped_method_seq(rw_method_seq(m, d.methods)),
    }
}

/// The resolver's accumulated state: the alias entries so far and the
/// interfaces recorded so far, in order.
#[verifier::ext_equal]
pub struct ResolveStateV {
    pub imports: Seq<(Seq<char>, PathV)>,
    pub traits: Seq<(Seq<char>, InterfaceV)>,
}

/// Whether an interface of this name was already recorded.
pub open spec fn trait_listed(ts: Seq<(Seq<char>, InterfaceV)>, name: Seq<char>) -> bool {
    exists|i: int| 0 <= i < ts.len() && ts[i].0 == name
}

/// One item folded into the resolver state.
pub open spec fn resolve_item(st: ResolveStateV, mod_path: PathV, it: ItemV) -> Result<
    ResolveStateV,
    ErrorV,
>
    decreases it,
{
    match it {
        ItemV::Struct { name } => Ok(
            ResolveStateV {
                imports: st.imports.push((name, path_pushed(mod_path, name))),
                traits: st.traits,
            },
        ),
        ItemV::Use(t) => Ok(
            ResolveStateV {
                imports: st.imports + use_entries(
                    PathV { leading_colon: false, segments: Seq::empty() },
                    t,
                ),
                traits: st.traits,
            },
        ),
        ItemV::Mod { name, items } => resolve_items(st, path_pushed(mod_path, name), items),
        ItemV::Interface(d) => if trait_listed(st.traits, d.name) {
            Err(ErrorV::DuplicateInterface(d.name))
        } else {
            Ok(
                ResolveStateV {
                    imports: st.imports,
                    traits: st.traits.push(
                        (d.name, resolved_interface(assoc_map(st.imports), d)),
                    ),
                },
            )
        },
    }
}

/// A sequence of items folded into the resolver state, left to right,
/// stopping at the first duplicate interface name.
pub open spec fn resolve_items(st: ResolveStateV, mod_path: PathV, its: Seq<ItemV>) -> Result<
    ResolveStateV,
    ErrorV,
>
    decreases its,
{
    if its.len() == 0 {
        Ok(st)
    } else {
        match resolve_item(st, mod_path, its[0]) {
            Ok(st2) => resolve_items(st2, mod_path, its.drop_first()),
            Err(e) => Err(e),
        }
    }
}

// ---------------------------------------------------------------------------
// Resolution, executable.
// ---------------------------------------------------------------------------

/// View of the recorded interfaces.
pub open spec fn view_trait_pairs(s: Seq<(String, InterfaceDefinition)>) -> Seq<
    (Seq<char>, InterfaceV),
> {
    Seq::new(
        s.len(),
        |i: int|
            if 0 <= i < s.len() {
                (s[i].0@, view_interface(s[i].1))
            } else {
                (
                    Seq::empty(),
                    InterfaceV {
                        name: Seq::empty(),
                        generics: Seq::empty(),
                        supertraits: Seq::empty(),
                        methods: Seq::empty(),
                    },
                )
            },
    )
}

/// The walker that builds the symbol table and collects the interfaces of a
/// module tree.
pub struct TraitsVisitor {
    pub imports: SymbolTable,
    pub current_mod_path: Path,
    pub current_use_path: Path,
    pub traits: Vec<(String, InterfaceDefinition)>,
}

/// The resolver state a visitor holds.
pub open spec fn visitor_state(v: TraitsVisitor) -> ResolveStateV {
    ResolveStateV {
        imports: view_sym_pairs(v.imports.entries@),
        traits: view_trait_pairs(v.traits@),
    }
}

/// Strips every default body.
#[verifier::loop_isolation(false)]
fn strip_methods(ms: &Vec<Method>) -> (r: Vec<Method>)
    ensures
        view_method_slice(r@) == stripped_method_seq(view_method_slice(ms@)),
{
    let mut out: Vec<Method> = Vec::new();
    let mut i: usize = 0;
    while i < ms.len()
        invariant
            i <= ms.len(),
            out@.len() == i as int,
            forall|k: int|
                0 <= k < i ==> view_method(out@[k]) == stripped_method(view_method(ms@[k])),
        decreases ms.len() - i,
    {
        let m = Method { sig: crate::decl::copy_sig(&ms[i].sig), default_body: None };
        proof {
            assert(view_method(m) =~= stripped_method(view_method(ms@[i as int])));
        }
        out.push(m);
        i += 1;
    }
    proof {
        assert(view_method_slice(out@) =~= stripped_method_seq(view_method_slice(ms@)));
    }
    out
}

impl TraitsVisitor {
    /// A fresh walker: empty table, empty paths, no interfaces yet.
    pub fn new() -> (r: TraitsVisitor)
        ensures
            visitor_state(r) == (ResolveStateV { imports: Seq::empty(), traits: Seq::empty() }),
            view_path(r.current_mod_path) == (PathV {
                leading_colon: false,
                segments: Seq::empty(),
            }),
            view_path(r.current_use_path) == (PathV {
                leading_colon: false,
                segments: Seq::empty(),
            }),
    {
        let r = TraitsVisitor {
            imports: SymbolTable::new(),
            current_mod_path: crate::ast::empty_path(),
            current_use_path: crate::ast::empty_path(),
            traits: Vec::new(),
        };
        proof {
            assert(view_trait_pairs(r.traits@) =~= Seq::<(Seq<char>, InterfaceV)>::empty());
            assert(view_sym_pairs(r.imports.entries@) =~= Seq::<(Seq<char>, PathV)>::empty());
            assert(visitor_state(r) =~= ResolveStateV { imports: Seq::empty(), traits: Seq::empty() });
        }
        r
    }

    /// Records a declaration of the current module under its own name.
    pub fn insert_mod_import(&mut self, ident: String)
        ensures
            visitor_state(*final(self)) == (ResolveStateV {
                imports: visitor_state(*old(self)).imports.push(
                    (ident@, path_pushed(view_path(old(self).current_mod_path), ident@)),
                ),
                traits: visitor_state(*old(self)).traits,
            }),
            view_path(final(self).current_mod_path) == view_path(old(self).current_mod_path),
            view_path(final(self).current_use_path) == view_path(old(self).current_use_path),
    {
        let mut path = copy_path(&self.current_mod_path);
        let seg = ident_to_path_segment(ident.clone());
        path.segments.push(seg);
        proof {
            assert(view_path(path).segments =~= view_path(self.current_mod_path).segments.push(
                SegmentV { ident: ident@, args: Seq::empty() },
            ));
        }
        self.imports.record(ident, path);
        proof {
            assert(visitor_state(*self) =~= ResolveStateV {
                imports: visitor_state(*old(self)).imports.push(
                    (ident@, path_pushed(view_path(old(self).current_mod_path), ident@)),
                ),
                traits: visitor_state(*old(self)).traits,
            });
        }
    }

    /// Records a plain import under its own name.
    pub fn insert_use_import(&mut self, ident: String)
        ensures
            visitor_state(*final(self)) == (ResolveStateV {
                imports: visitor_state(*old(self)).imports.push(
                    (ident@, path_pushed(view_path(old(self).current_use_path), ident@)),
                ),
                traits: visitor_state(*old(self)).traits,
            }),
            view_path(final(self).current_mod_path) == view_path(old(self).current_mod_path),
            view_path(final(self).current_use_path) == view_path(old(self).current_use_path),
    {
        let rename = ident.clone();
        self.insert_renamed_use_import(ident, rename);
    }

    /// Records a renamed import: the alias is the rename, the target path
    /// ends in the original name.
    pub fn insert_renamed_use_import(&mut self, ident: String, rename: String)
        ensures
            visitor_state(*final(self)) == (ResolveStateV {
                imports: visitor_state(*old(self)).imports.push(
                    (rename@, path_pushed(view_path(old(self).current_use_path), ident@)),
                ),
                traits: visitor_state(*old(self)).traits,
            }),
            view_path(final(self).current_mod_path) == view_path(old(self).current_mod_path),
            view_path(final(self).current_use_path) == view_path(old(self).current_use_path),
    {
        let mut path = copy_path(&self.current_use_path);
        let seg = ident_to_path_segment(ident);
        path.segments.push(seg);
        proof {
            assert(view_path(path).segments =~= path_pushed(
                view_path(old(self).current_use_path),
                seg.ident@,
            ).segments);
        }
        self.imports.record(rename, path);
        proof {
            assert(visitor_state(*self) =~= ResolveStateV {
                imports: visitor_state(*old(self)).imports.push(
                    (rename@, path_pushed(view_path(old(self).current_use_path), seg.ident@)),
                ),
                traits: visitor_state(*old(self)).traits,
            });
        }
    }

    /// Walks one use tree, recording every name it imports.
    pub fn visit_use_tree(&mut self, t: &UseTree)
        ensures
            visitor_state(*final(self)) == (ResolveStateV {
                imports: visitor_state(*old(self)).imports + use_entries(
                    view_path(old(self).current_use_path),
                    view_usetree(*t),
                ),
                traits: visitor_state(*old(self)).traits,
            }),
            view_path(final(self).current_mod_path) == view_path(old(self).current_mod_path),
            view_path(final(self).current_use_path) == view_path(old(self).current_use_path),
        decreases *t,
    {
        match t {
            UseTree::Name { ident } => {
                self.insert_use_import(ident.clone());
                proof {
                    assert(visitor_state(*self).imports =~= visitor_state(*old(self)).imports
                        + use_entries(
                        view_path(old(self).current_use_path),
                        view_usetree(*t),
                    ));
                }
            },
            UseTree::Rename { ident, rename } => {
                self.insert_renamed_use_import(ident.clone(), rename.clone());
                proof {
                    assert(visitor_state(*self).imports =~= visitor_state(*old(self)).imports
                        + use_entries(
                        view_path(old(self).current_use_path),
                        view_usetree(*t),
                    ));
                }
            },
            UseTree::Path { ident, tree } => {
                let seg = ident_to_path_segment(ident.clone());
                let ghost pre = self.current_use_path.segments@;
                self.current_use_path.segments.push(seg);
                proof {
                    assert(self.current_use_path.segments@ == pre.push(seg));
                    assert(view_seg_slice(pre.push(seg)) =~= view_seg_slice(pre).push(
                        view_seg(seg),
                    ));
                    assert(view_path(self.current_use_path) =~= path_pushed(
                        view_path(old(self).current_use_path),
                        ident@,
                    ));
                }
                self.visit_use_tree(tree);
                let ghost post = self.current_use_path.segments@;
                self.current_use_path.segments.pop();
                proof {
                    assert(self.current_use_path.segments@ == post.drop_last());
                    assert(view_seg_slice(post.drop_last()) =~= view_seg_slice(post).drop_last());
                    assert(view_path(self.current_use_path).segments =~= view_path(
                        old(self).current_use_path,
                    ).segments);
                }
            },
            UseTree::Group(ts) => {
                let ghost prefix = view_path(old(self).current_use_path);
                let ghost base = visitor_state(*old(self)).imports;
                let ghost trees = view_usetree_slice(ts@);
                let mut i: usize = 0;
                #[verifier::loop_isolation(false)]
                while i < ts.len()
                    invariant
                        i <= ts.len(),
                        visitor_state(*self).imports =~= base + use_entries_seq(
                            prefix,
                            trees.take(i as int),
                        ),
                        visitor_state(*self).traits == visitor_state(*old(self)).traits,
                        view_path(self.current_mod_path) == view_path(old(self).current_mod_path),
                        view_path(self.current_use_path) == prefix,
                    decreases ts.len() - i,
                {
                    self.visit_use_tree(&ts[i]);
                    i += 1;
                    proof {
                        assert(trees.take(i as int).drop_last() =~= trees.take(i as int - 1));
                        assert(trees.take(i as int).last() == view_usetree(ts@[i as int - 1]));
                        assert(visitor_state(*self).imports =~= base + use_entries_seq(
                            prefix,
                            trees.take(i as int),
                        ));
                    }
                }
                proof {
                    assert(trees.take(ts@.len() as int) =~= trees);
                    assert(visitor_state(*self) =~= ResolveStateV {
                        imports: visitor_state(*old(self)).imports + use_entries(
                            prefix,
                            view_usetree(*t),
                        ),
                        traits: visitor_state(*old(self)).traits,
                    });
                }
            },
        }
    }

    /// Folds one item into the walker's state. Whatever the outcome, the
    /// module-path context is back where it was, and the import-path
    /// context, reset on leaving an import declaration, stays reset.
    pub fn visit_item(&mut self, it: &Item) -> (r: Result<(), GenError>)
        ensures
            match r {
                Ok(_) => resolve_item(
                    visitor_state(*old(self)),
                    view_path(old(self).current_mod_path),
                    view_item(*it),
                ) == Ok::<ResolveStateV, ErrorV>(visitor_state(*final(self))),
                Err(e) => resolve_item(
                    visitor_state(*old(self)),
                    view_path(old(self).current_mod_path),
                    view_item(*it),
                ) == Err::<ResolveStateV, ErrorV>(view_error(e)),
            },
            view_path(final(self).current_mod_path) == view_path(old(self).current_mod_path),
            view_path(old(self).current_use_path).segments.len() == 0 ==> view_path(
                final(self).current_use_path,
            ).segments.len() == 0,
            view_item(*it) is Use ==> view_path(final(self).current_use_path).segments.len() == 0,
        decreases *it,
    {
        match it {
            Item::Struct { name } => {
                self.insert_mod_import(name.clone());
                Ok(())
            },
            Item::Use(t) => {
                self.current_use_path = crate::ast::empty_path();
                self.visit_use_tree(t);
                self.current_use_path = crate::ast::empty_path();
                Ok(())
            },
            Item::Mod { name, items } => {
                let seg = ident_to_path_segment(name.clone());
                let ghost pre = self.current_mod_path.segments@;
                self.current_mod_path.segments.push(seg);
                proof {
                    assert(self.current_mod_path.segments@ == pre.push(seg));
                    assert(view_seg_slice(pre.push(seg)) =~= view_seg_slice(pre).push(
                        view_seg(seg),
                    ));
                    assert(view_path(self.current_mod_path) =~= path_pushed(
                        view_path(old(self).current_mod_path),
                        name@,
                    ));
                }
                let r = self.visit_items(items);
                let ghost post = self.current_mod_path.segments@;
                self.current_mod_path.segments.pop();
                proof {
                    assert(self.current_mod_path.segments@ == post.drop_last());
                    assert(view_seg_slice(post.drop_last()) =~= view_seg_slice(post).drop_last());
                    assert(view_path(self.current_mod_path).segments =~= view_path(
                        old(self).current_mod_path,
                    ).segments);
                }
                match r {
                    Ok(_) => Ok(()),
                    Err(e) => Err(e),
                }
            },
            Item::Interface(d) => {
                let ghost pairs = view_trait_pairs(self.traits@);
                let mut i: usize = 0;
                let mut dup: bool = false;
                #[verifier::loop_isolation(false)]
                while i < self.traits.len() && !dup
                    invariant
                        i <= self.traits.len(),
                        !dup ==> forall|k: int| 0 <= k < i ==> pairs[k].0 != d.name@,
                        dup ==> exists|k: int| 0 <= k < pairs.len() && pairs[k].0 == d.name@,
                    decreases self.traits.len() - i,
                {
                    if self.traits[i].0 == d.name {
                        proof {
                            assert(pairs[i as int].0 == d.name@);
                        }
                        dup = true;
                    }
                    i += 1;
                }
                if dup {
                    proof {
                        assert(trait_listed(visitor_state(*self).traits, d.name@));
                    }
                    return Err(GenError::DuplicateInterface(d.name.clone()));
                }
                proof {
                    assert(!trait_listed(visitor_state(*self).traits, d.name@));
                }
                let rewriter = PathRewriter { mode: RootMode::Alias(&self.imports) };
                let generics = rewriter.rewrite_generics(&d.generics);
                let supertraits = rewriter.rewrite_bound_vec(&d.supertraits);
                let rewritten = rewriter.rewrite_method_vec(&d.methods);
                let methods = strip_methods(&rewritten);
                let resolved = InterfaceDefinition {
                    name: d.name.clone(),
                    generics,
                    supertraits,
                    methods,
                };
                proof {
                    assert(view_interface(resolved) =~= resolved_interface(
                        assoc_map(visitor_state(*self).imports),
                        view_interface(*d),
                    ));
                }
                let name = d.name.clone();
                let ghost before = view_trait_pairs(self.traits@);
                self.traits.push((name, resolved));
                proof {
                    assert(view_trait_pairs(self.traits@) =~= before.push(
                        (d.name@, resolved_interface(
                            assoc_map(visitor_state(*old(self)).imports),
                            view_interface(*d),
                        )),
                    ));
                }
                Ok(())
            },
        }
    }

    /// Folds a sequence of items into the walker's state, left to right,
    /// stopping at the first duplicate interface name. Whatever the outcome,
    /// the module-path context is back where it was, and an import-path
    /// context that was reset stays reset.
    pub fn visit_items(&mut self, items: &Vec<Item>) -> (r: Result<(), GenError>)
        ensures
            match r {
                Ok(_) => resolve_items(
                    visitor_state(*old(self)),
                    view_path(old(self).current_mod_path),
                    view_item_slice(items@),
                ) == Ok::<ResolveStateV, ErrorV>(visitor_state(*final(self))),
                Err(e) => resolve_items(
                    visitor_state(*old(self)),
                    view_path(old(self).current_mod_path),
                    view_item_slice(items@),
                ) == Err::<ResolveStateV, ErrorV>(view_error(e)),
            },
            view_path(final(self).current_mod_path) == view_path(old(self).current_mod_path),
            view_path(old(self).current_use_path).segments.len() == 0 ==> view_path(
                final(self).current_use_path,
            ).segments.len() == 0,
        decreases *items,
    {
        let ghost st0 = visitor_state(*old(self));
        let ghost mp = view_path(old(self).current_mod_path);
        let ghost its = view_item_slice(items@);
        let mut j: usize = 0;
        proof {
            assert(its.skip(0) =~= its);
        }
        #[verifier::loop_isolation(false)]
        while j < items.len()
            invariant
                j <= items.len(),
                resolve_items(st0, mp, its) == resolve_items(
                    visitor_state(*self),
                    mp,
                    its.skip(j as int),
                ),
                view_path(self.current_mod_path) == mp,
                view_path(old(self).current_use_path).segments.len() == 0 ==> view_path(
                    self.current_use_path,
                ).segments.len() == 0,
            decreases items.len() - j,
        {
            let ghost st_j = visitor_state(*self);
            let r = self.visit_item(&items[j]);
            proof {
                assert(its.skip(j as int)[0] == view_item(items@[j as int]));
                assert(its.skip(j as int).drop_first() =~= its.skip(j as int + 1));
            }
            match r {
                Ok(_) => {},
                Err(e) => {
                    proof {
                        assert(resolve_items(st_j, mp, its.skip(j as int)) == Err::<
                            ResolveStateV,
                            ErrorV,
                        >(view_error(e)));
                    }
                    return Err(e);
                },
            }
            j += 1;
        }
        proof {
            assert(its.skip(items@.len() as int) =~= Seq::<ItemV>::empty());
        }
        Ok(())
    }
}

} // verus!
