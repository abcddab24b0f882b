//! Writing constants.

use super::Writer;
use crate::decimal;
use crate::emission;
use crate::emission::Emission;
use crate::error::Stop;
use crate::ir::{ConstantHandle, ConstantInner, Module, ScalarValue};
use vstd::prelude::*;

verus! {

broadcast use crate::emission::group_made;

impl Writer {
    /// Appends the text of a constant.
    pub(super) fn put_constant(&mut self, handle: ConstantHandle, module: &Module) -> (outcome:
        Result<(), Stop>)
        ensures
            module.constant_text(handle).made(old(self)@, final(self)@, outcome),
    {
        self.put_constant_within(handle, module, module.constants.len())
    }

    /// Appends the text of a constant that is nested at most `depth` deep.
    fn put_constant_within(&mut self, handle: ConstantHandle, module: &Module, depth: usize) -> (
    outcome: Result<(), Stop>)
        ensures
            module.constant_within(handle, depth as nat).made(old(self)@, final(self)@, outcome),
        decreases depth, 1nat,
    {
        proof {
            module.lemma_constant_within(handle, depth as nat);
        }
        if depth == 0 || handle >= module.constants.len() {
            return self.miss();
        }
        match &module.constants[handle].inner {
            ConstantInner::Scalar { value, .. } => {
                self.put_scalar(value);
                Ok(())
            },
            ConstantInner::Composite { ty, components } => {
                self.put_type(*ty, module)?;
                self.put_components(components, module, depth - 1)
            },
        }
    }

    /// Appends the components of a constant in brackets.
    fn put_components(
        &mut self,
        components: &Vec<ConstantHandle>,
        module: &Module,
        depth: usize,
    ) -> (outcome: Result<(), Stop>)
        ensures
            Emission::bracketed(module.constants_within(components@, depth as nat)).made(
                old(self)@,
                final(self)@,
                outcome,
            ),
        decreases depth, 2nat,
    {
        let ghost texts = module.constants_within(components@, depth as nat);
        let ghost steps = Emission::with_separators(texts, ", "@);
        self.put("(");
        let ghost before = self@;
        proof {
            emission::lemma_made_none(steps, before);
        }
        let mut i: usize = 0;
        while i < components.len()
            invariant
                i <= components@.len(),
                texts == module.constants_within(components@, depth as nat),
                steps == Emission::with_separators(texts, ", "@),
                Emission::text("("@).made(old(self)@, before, Ok(())),
                Emission::all(steps.take(i as int)).made(before, self@, Ok(())),
            decreases components@.len() - i,
        {
            proof {
                emission::lemma_all_at(steps, i as int);
            }
            if i != 0 {
                self.put(", ");
            }
            self.put_constant_within(components[i], module, depth)?;
            i = i + 1;
        }
        assert(steps.take(i as int) =~= steps);
        self.put(")");
        Ok(())
    }

    /// Appends the literal of a scalar.
    fn put_scalar(&mut self, value: &ScalarValue)
        ensures
            Emission::text(value.literal()).made(old(self)@, final(self)@, Ok(())),
    {
        broadcast use crate::emission::lemma_add_associative;

        proof {
            reveal(Emission::made);
        }
        match value {
            ScalarValue::Sint(value) => decimal::push_signed(&mut self.out, *value),
            ScalarValue::Uint(value) => {
                decimal::push_unsigned(&mut self.out, *value);
                self.put("u");
            },
            ScalarValue::Float(value) => {
                self.put(value.digits.as_str());
                if value.whole {
                    self.put(".0");
                }
            },
            ScalarValue::Bool(value) => if *value {
                self.put("true");
            } else {
                self.put("false");
            },
        }
    }
}

} // verus!
