//! The text of constants.

use crate::decimal;
use crate::emission::Emission;
use crate::ir::{ConstantHandle, ConstantInner, Module, ScalarValue, TypeHandle};
use vstd::prelude::*;

verus! {

impl ScalarValue {
    /// The literal of a scalar: a `u` marks an unsigned one, and a floating-point one without a
    /// fractional part gets `.0`.
    pub open spec fn literal(self) -> Seq<char> {
        match self {
            ScalarValue::Sint(value) => decimal::signed_decimal(value as int),
            ScalarValue::Uint(value) => decimal::decimal(value as nat) + "u"@,
            ScalarValue::Float(value) => if value.whole {
                value.digits@ + ".0"@
            } else {
                value.digits@
            },
            ScalarValue::Bool(value) => if value {
                "true"@
            } else {
                "false"@
            },
        }
    }
}

impl Module {
    /// The name of type `handle`.
    pub open spec fn type_text(self, handle: TypeHandle) -> Emission {
        if handle < self.types@.len() {
            Emission::text(self.types@[handle as int].name@)
        } else {
            Emission::undefined()
        }
    }

    /// The text of constant `handle`, if it is nested at most `n` deep: a literal, or the name of
    /// the type and the components in brackets.
    #[verifier::opaque]
    pub open spec fn constant_within(self, handle: ConstantHandle, n: nat) -> Emission
        decreases n, 0nat,
    {
        if n > 0 && handle < self.constants@.len() {
            match self.constants@[handle as int].inner {
                ConstantInner::Scalar { value, .. } => Emission::text(value.literal()),
                ConstantInner::Composite { ty, components } => self.type_text(ty).and(
                    Emission::bracketed(self.constants_within(components@, (n - 1) as nat)),
                ),
            }
        } else {
            Emission::undefined()
        }
    }

    /// The text of each of the constants `handles`, if it is nested at most `n` deep.
    pub open spec fn constants_within(self, handles: Seq<ConstantHandle>, n: nat) -> Seq<Emission>
        decreases n, 1nat,
    {
        Seq::new(handles.len(), |i: int| self.constant_within(handles[i], n))
    }

    /// The text of constant `handle`. No constant that is not part of itself is nested deeper
    /// than there are constants.
    pub open spec fn constant_text(self, handle: ConstantHandle) -> Emission {
        self.constant_within(handle, self.constants@.len())
    }

    /// What a constant is written as, in terms of its components.
    pub proof fn lemma_constant_within(self, handle: ConstantHandle, n: nat)
        ensures
            self.constant_within(handle, n) == if n > 0 && handle < self.constants@.len() {
                match self.constants@[handle as int].inner {
                    ConstantInner::Scalar { value, .. } => Emission::text(value.literal()),
                    ConstantInner::Composite { ty, components } => self.type_text(ty).and(
                        Emission::bracketed(self.constants_within(components@, (n - 1) as nat)),
                    ),
                }
            } else {
                Emission::undefined()
            },
    {
        reveal(Module::constant_within);
    }
}

} // verus!
