//! The errors generation can surface: specification errors (keys),
//! resolution errors (interface names), generic-mismatch errors (arity and
//! kind) and the wrapped read failure of an interface source import.

use vstd::prelude::*;

use crate::ast::GpKind;

verus! {

/// Why a generation request failed. Each variant names the offending key,
/// identifier or position.
pub enum GenError {
    /// A required specification key is absent.
    MissingKey(String),
    /// A specification key occurs twice.
    DuplicateKey(String),
    /// A specification key is not recognized.
    UnknownKey(String),
    /// A specification key carries a value of the wrong shape.
    WrongValue(String),
    /// Two interface definitions or requests resolve to one name.
    DuplicateInterface(String),
    /// No interface of this name exists in the resolved source.
    InterfaceNotFound(String),
    /// A usage site supplies too few or too many generic arguments.
    ArityMismatch { expected: usize, actual: usize },
    /// A generic argument's kind disagrees with the declared parameter's.
    KindMismatch { position: usize, expected: GpKind, actual: GpKind },
    /// Reading an interface source import failed; the field wraps the
    /// underlying message.
    ReadFailure(String),
}

/// Mirror of [`GenError`].
#[verifier::ext_equal]
pub enum ErrorV {
    MissingKey(Seq<char>),
    DuplicateKey(Seq<char>),
    UnknownKey(Seq<char>),
    WrongValue(Seq<char>),
    DuplicateInterface(Seq<char>),
    InterfaceNotFound(Seq<char>),
    ArityMismatch { expected: int, actual: int },
    KindMismatch { position: int, expected: GpKind, actual: GpKind },
    ReadFailure(Seq<char>),
}

/// View of a generation error.
pub open spec fn view_error(e: GenError) -> ErrorV {
    match e {
        GenError::MissingKey(s) => ErrorV::MissingKey(s@),
        GenError::DuplicateKey(s) => ErrorV::DuplicateKey(s@),
        GenError::UnknownKey(s) => ErrorV::UnknownKey(s@),
        GenError::WrongValue(s) => ErrorV::WrongValue(s@),
        GenError::DuplicateInterface(s) => ErrorV::DuplicateInterface(s@),
        GenError::InterfaceNotFound(s) => ErrorV::InterfaceNotFound(s@),
        GenError::ArityMismatch { expected, actual } => ErrorV::ArityMismatch {
            expected: expected as int,
            actual: actual as int,
        },
        GenError::KindMismatch { position, expected, actual } => ErrorV::KindMismatch {
            position: position as int,
            expected: expected,
            actual: actual,
        },
        GenError::ReadFailure(s) => ErrorV::ReadFailure(s@),
    }
}

} // verus!
