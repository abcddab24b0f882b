//! Where an expression stands.

use crate::ir::{Function, FunctionHandle, Module};
use crate::typing::Typifier;
use vstd::prelude::*;

verus! {

/// Whether a body belongs to a function of the module or to one of its entry points.
#[derive(Clone, Copy, Debug, PartialEq, Eq, Structural)]
pub enum FunctionOrigin {
    Handle(FunctionHandle),
    EntryPoint(usize),
}

/// The function that an expression stands in, with the types of its expressions, and the module.
pub struct ExpressionContext<'a> {
    pub function: &'a Function,
    pub origin: FunctionOrigin,
    pub module: &'a Module,
    pub typifier: &'a Typifier,
}

} // verus!
