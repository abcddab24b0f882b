//! The ways in which writing a module can fail.

use crate::ir::{BinaryOperator, GlobalHandle, ShaderStage, StorageAccess, TypeHandle};
use crate::options::LocationMode;
use crate::typing::ResolveError;
use vstd::prelude::*;

verus! {

#[derive(Debug, PartialEq, Eq)]
pub enum Error {
    /// The types of a function's expressions could not be resolved.
    Type(ResolveError),
    /// The options say nothing of a global variable that a stage uses.
    MissingBinding { stage: ShaderStage, global: GlobalHandle, mode: LocationMode },
    /// A storage image is neither loaded from nor stored to.
    InvalidImageAccess(StorageAccess),
    /// A value of this type cannot be composed.
    UnsupportedCompose(TypeHandle),
    UnsupportedBinaryOp(BinaryOperator),
    /// A built-in function, by its name, that Metal does not have.
    UnsupportedCall(String),
    /// The length of an array without a constant size.
    UnsupportedDynamicArrayLength,
    /// The module breaks a rule that validation should have caught.
    Validation,
}

/// Why a step of the writer stops.
#[derive(Debug, PartialEq, Eq)]
pub enum Stop {
    /// The module cannot be expressed in Metal.
    Error(Error),
    /// The module names something that does not exist, or that is part of itself.
    Undefined,
}

/// What a `Stop` says, as a mathematical value.
pub enum Fault {
    Type(ResolveError),
    MissingBinding { stage: ShaderStage, global: GlobalHandle, mode: LocationMode },
    InvalidImageAccess(StorageAccess),
    UnsupportedCompose(TypeHandle),
    UnsupportedBinaryOp(BinaryOperator),
    UnsupportedCall(Seq<char>),
    UnsupportedDynamicArrayLength,
    Validation,
    Undefined,
}

impl View for Error {
    type V = Fault;

    open spec fn view(&self) -> Fault {
        match *self {
            Error::Type(error) => Fault::Type(error),
            Error::MissingBinding { stage, global, mode } => Fault::MissingBinding {
                stage,
                global,
                mode,
            },
            Error::InvalidImageAccess(access) => Fault::InvalidImageAccess(access),
            Error::UnsupportedCompose(ty) => Fault::UnsupportedCompose(ty),
            Error::UnsupportedBinaryOp(op) => Fault::UnsupportedBinaryOp(op),
            Error::UnsupportedCall(name) => Fault::UnsupportedCall(name@),
            Error::UnsupportedDynamicArrayLength => Fault::UnsupportedDynamicArrayLength,
            Error::Validation => Fault::Validation,
        }
    }
}

impl View for Stop {
    type V = Fault;

    open spec fn view(&self) -> Fault {
        match *self {
            Stop::Error(error) => error@,
            Stop::Undefined => Fault::Undefined,
        }
    }
}

} // verus!
