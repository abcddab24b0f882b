//! What type resolution says of the expressions of a function.

use crate::ir::{ExpressionHandle, Type, TypeHandle, TypeInner};
use vstd::prelude::*;

verus! {

/// The expression whose type could not be resolved.
#[derive(Clone, Copy, Debug, PartialEq, Eq, Structural)]
pub struct ResolveError {
    pub expression: ExpressionHandle,
}

/// The type of an expression: one of the module's types, or one that the module does not name.
#[derive(Debug)]
pub enum Resolution {
    Handle(TypeHandle),
    Value(TypeInner),
}

/// The types of a function's expressions, in the order of the expressions.
#[derive(Debug)]
pub struct Typifier {
    pub resolutions: Vec<Resolution>,
}

impl Typifier {
    /// The type of expression `handle`, if it is known, and stands in `types` where it is one of
    /// the module's.
    pub open spec fn resolved(self, handle: ExpressionHandle, types: Seq<Type>) -> Option<
        TypeInner,
    > {
        if handle < self.resolutions@.len() {
            match self.resolutions@[handle as int] {
                Resolution::Handle(ty) => if ty < types.len() {
                    Some(types[ty as int].inner)
                } else {
                    None
                },
                Resolution::Value(inner) => Some(inner),
            }
        } else {
            None
        }
    }

    /// Whether the type of expression `handle` is one of the module's.
    pub open spec fn is_named(self, handle: ExpressionHandle) -> bool {
        handle < self.resolutions@.len() && self.resolutions@[handle as int] is Handle
    }

    /// The type of expression `handle`, if it is known, and stands in `types` where it is one of
    /// the module's.
    pub fn get<'a>(&'a self, handle: ExpressionHandle, types: &'a Vec<Type>) -> (inner: Option<
        &'a TypeInner,
    >)
        ensures
            match self.resolved(handle, types@) {
                Some(resolved) => inner matches Some(found) && *found == resolved,
                None => inner is None,
            },
    {
        if handle >= self.resolutions.len() {
            return None;
        }
        match &self.resolutions[handle] {
            Resolution::Handle(ty) => if *ty < types.len() {
                Some(&types[*ty].inner)
            } else {
                None
            },
            Resolution::Value(inner) => Some(inner),
        }
    }

    /// The handle of the type of expression `handle`, if it is one of the module's.
    pub fn get_handle(&self, handle: ExpressionHandle) -> (ty: Option<TypeHandle>)
        ensures
            ty is Some <==> self.is_named(handle),
            ty matches Some(ty) ==> self.resolutions@[handle as int] == Resolution::Handle(ty),
    {
        if handle >= self.resolutions.len() {
            return None;
        }
        match &self.resolutions[handle] {
            Resolution::Handle(ty) => Some(*ty),
            Resolution::Value(_) => None,
        }
    }
}

} // verus!
