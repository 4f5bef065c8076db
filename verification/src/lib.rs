//! A verified core for a forwarding-implementation ("delegation") code
//! generator.
//!
//! Given a named interface (a set of method signatures with its own generic
//! parameters) and a target type, the generator emits one forwarding block
//! per interface: the merged generic parameter list, the merged constraint
//! set, and one body-less forwarding stub per method, each annotated with the
//! qualified path of the interface it came from.
//!
//! The crate models syntax trees with its own types (see [`ast`]) and proves
//! the symbol resolution, generic unification and substitution, generics and
//! where-clause merging, path prefixing, and the driver that ties them
//! together against specification-level mirrors of those types.

pub mod ast;
pub mod builds;
pub mod decl;
pub mod driver;
pub mod emit;
pub mod error;
pub mod generics;
pub mod input;
pub mod prefix;
pub mod resolve;
pub mod subst;
