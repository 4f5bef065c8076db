//! Method signatures and interface definitions: what the resolver extracts
//! from a source module tree and what forwarding stubs are made of.

use vstd::prelude::*;

use crate::ast::Bound;
use crate::ast::BoundV;
use crate::ast::TypeExpr;
use crate::ast::TypeV;
use crate::ast::copy_bound_vec;
use crate::ast::copy_opt_ident;
use crate::ast::copy_ty;
use crate::ast::view_bound_slice;
use crate::ast::view_opt_ident;
use crate::ast::view_ty;
use crate::generics::GenericParam;
use crate::generics::ParamV;
use crate::generics::copy_param_vec;
use crate::generics::view_param_slice;

verus! {

broadcast use vstd::seq::axiom_seq_index_decreases, vstd::std_specs::vec::axiom_vec_decreases_to_view;

/// One argument of a method signature.
pub enum FnArg {
    Receiver { by_ref: bool, lifetime: Option<String>, is_mut: bool },
    Typed { name: String, ty: TypeExpr },
}

/// Mirror of [`FnArg`].
#[verifier::ext_equal]
pub enum FnArgV {
    Receiver { by_ref: bool, lifetime: Option<Seq<char>>, is_mut: bool },
    Typed { name: Seq<char>, ty: TypeV },
}

/// A method signature: name, own generics, arguments and return type.
pub struct MethodSig {
    pub ident: String,
    pub generics: Vec<GenericParam>,
    pub inputs: Vec<FnArg>,
    pub output: Option<TypeExpr>,
}

/// Mirror of [`MethodSig`].
#[verifier::ext_equal]
pub struct SigV {
    pub ident: Seq<char>,
    pub generics: Seq<ParamV>,
    pub inputs: Seq<FnArgV>,
    pub output: Option<TypeV>,
}

/// A method of an interface: its signature and, until stripped, the opaque
/// text of a default body.
pub struct Method {
    pub sig: MethodSig,
    pub default_body: Option<String>,
}

/// Mirror of [`Method`].
#[verifier::ext_equal]
pub struct MethodV {
    pub sig: SigV,
    pub default_body: Option<Seq<char>>,
}

/// A named interface: its generic parameters, supertrait bounds and methods.
pub struct InterfaceDefinition {
    pub name: String,
    pub generics: Vec<GenericParam>,
    pub supertraits: Vec<Bound>,
    pub methods: Vec<Method>,
}

/// Mirror of [`InterfaceDefinition`].
#[verifier::ext_equal]
pub struct InterfaceV {
    pub name: Seq<char>,
    pub generics: Seq<ParamV>,
    pub supertraits: Seq<BoundV>,
    pub methods: Seq<MethodV>,
}

/// View of a method argument.
pub open spec fn view_fnarg(a: FnArg) -> FnArgV {
    match a {
        FnArg::Receiver { by_ref, lifetime, is_mut } => FnArgV::Receiver {
            by_ref: by_ref,
            lifetime: view_opt_ident(lifetime),
            is_mut: is_mut,
        },
        FnArg::Typed { name, ty } => FnArgV::Typed { name: name@, ty: view_ty(ty) },
    }
}

/// Elementwise view of a sequence of method arguments.
pub open spec fn view_fnarg_slice(s: Seq<FnArg>) -> Seq<FnArgV> {
    Seq::new(
        s.len(),
        |i: int|
            if 0 <= i < s.len() {
                view_fnarg(s[i])
            } else {
                FnArgV::Receiver { by_ref: false, lifetime: None, is_mut: false }
            },
    )
}

/// View of an optional return type.
pub open spec fn view_opt_ty(o: Option<TypeExpr>) -> Option<TypeV> {
    match o {
        Some(t) => Some(view_ty(t)),
        None => None,
    }
}

/// View of a method signature.
pub open spec fn view_sig(s: MethodSig) -> SigV {
    SigV {
        ident: s.ident@,
        generics: view_param_slice(s.generics@),
        inputs: view_fnarg_slice(s.inputs@),
        output: view_opt_ty(s.output),
    }
}

/// View of a method.
pub open spec fn view_method(m: Method) -> MethodV {
    MethodV { sig: view_sig(m.sig), default_body: view_opt_ident(m.default_body) }
}

/// Elementwise view of a sequence of methods.
pub open spec fn view_method_slice(s: Seq<Method>) -> Seq<MethodV> {
    Seq::new(
        s.len(),
        |i: int|
            if 0 <= i < s.len() {
                view_method(s[i])
            } else {
                MethodV {
                    sig: SigV {
                        ident: Seq::empty(),
                        generics: Seq::empty(),
                        inputs: Seq::empty(),
                        output: None,
                    },
                    default_body: None,
                }
            },
    )
}

/// View of an interface definition.
pub open spec fn view_interface(d: InterfaceDefinition) -> InterfaceV {
    InterfaceV {
        name: d.name@,
        generics: view_param_slice(d.generics@),
        supertraits: view_bound_slice(d.supertraits@),
        methods: view_method_slice(d.methods@),
    }
}

/// Copies a method argument.
pub fn copy_fnarg(a: &FnArg) -> (r: FnArg)
    ensures
        view_fnarg(r) == view_fnarg(*a),
{
    match a {
        FnArg::Receiver { by_ref, lifetime, is_mut } => FnArg::Receiver {
            by_ref: *by_ref,
            lifetime: copy_opt_ident(lifetime),
            is_mut: *is_mut,
        },
        FnArg::Typed { name, ty } => FnArg::Typed { name: name.clone(), ty: copy_ty(ty) },
    }
}

/// Copies a method signature.
pub fn copy_sig(s: &MethodSig) -> (r: MethodSig)
    ensures
        view_sig(r) == view_sig(*s),
{
    let mut inputs: Vec<FnArg> = Vec::new();
    let mut i: usize = 0;
    while i < s.inputs.len()
        invariant
            i <= s.inputs.len(),
            inputs@.len() == i as int,
            forall|k: int| 0 <= k < i ==> view_fnarg(inputs@[k]) == view_fnarg(s.inputs@[k]),
        decreases s.inputs.len() - i,
    {
        let c = copy_fnarg(&s.inputs[i]);
        inputs.push(c);
        i += 1;
    }
    let output = match &s.output {
        Some(t) => Some(copy_ty(t)),
        None => None,
    };
    let r = MethodSig {
        ident: s.ident.clone(),
        generics: copy_param_vec(&s.generics),
        inputs,
        output,
    };
    proof {
        assert(view_fnarg_slice(r.inputs@) =~= view_fnarg_slice(s.inputs@));
        assert(view_sig(r) =~= view_sig(*s));
    }
    r
}

/// Copies a method.
pub fn copy_method(m: &Method) -> (r: Method)
    ensures
        view_method(r) == view_method(*m),
{
    Method { sig: copy_sig(&m.sig), default_body: copy_opt_ident(&m.default_body) }
}

/// Copies an interface definition.
pub fn copy_interface(d: &InterfaceDefinition) -> (r: InterfaceDefinition)
    ensures
        view_interface(r) == view_interface(*d),
{
    let mut methods: Vec<Method> = Vec::new();
    let mut i: usize = 0;
    while i < d.methods.len()
        invariant
            i <= d.methods.len(),
            methods@.len() == i as int,
            forall|k: int| 0 <= k < i ==> view_method(methods@[k]) == view_method(d.methods@[k]),
        decreases d.methods.len() - i,
    {
        let c = copy_method(&d.methods[i]);
        methods.push(c);
        i += 1;
    }
    let r = InterfaceDefinition {
        name: d.name.clone(),
        generics: copy_param_vec(&d.generics),
        supertraits: copy_bound_vec(&d.supertraits),
        methods,
    };
    proof {
        assert(view_method_slice(r.methods@) =~= view_method_slice(d.methods@));
        assert(view_interface(r) =~= view_interface(*d));
    }
    r
}

} // verus!
