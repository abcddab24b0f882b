//! The brackets of constants.

use crate::decimal;
use crate::ir::{ConstantHandle, ConstantInner, Module, ScalarValue, TypeHandle};
use crate::laws::nesting;
use crate::laws::nesting::words;
use vstd::prelude::*;

verus! {

broadcast use {
    crate::laws::nesting::group_opens,
    crate::laws::nesting::words::group_words,
};

impl Module {
    /// The brackets of the name of a type are nested.
    pub proof fn lemma_nested_type(self, handle: TypeHandle)
        requires
            self.has_nested_names(),
        ensures
            self.type_text(handle).is_nested(),
    {
        if handle < self.types@.len() {
            assert(nesting::is_nested(self.types@[handle as int].name@));
        } else {
            nesting::lemma_failure(self.type_text(handle));
        }
    }

    /// The brackets of a constant are nested.
    pub proof fn lemma_nested_constant(self, handle: ConstantHandle)
        requires
            self.has_nested_names(),
        ensures
            self.constant_text(handle).is_nested(),
    {
        self.lemma_nested_within(handle, self.constants@.len());
    }

    proof fn lemma_nested_within(self, handle: ConstantHandle, n: nat)
        requires
            self.has_nested_names(),
        ensures
            self.constant_within(handle, n).is_nested(),
        decreases n,
    {
        words::lemma_words();
        self.lemma_constant_within(handle, n);
        let whole = self.constant_within(handle, n);
        if n > 0 && handle < self.constants@.len() {
            let constant = self.constants@[handle as int];
            match constant.inner {
                ConstantInner::Scalar { value, .. } => {
                    match value {
                        ScalarValue::Uint(number) => {
                            nesting::lemma_nested_add(decimal::decimal(number as nat), "u"@);
                        },
                        ScalarValue::Float(literal) => {
                            nesting::lemma_nested_add(literal.digits@, ".0"@);
                        },
                        _ => {},
                    }
                },
                ConstantInner::Composite { ty, components } => {
                    let texts = self.constants_within(components@, (n - 1) as nat);
                    assert forall|i: int| 0 <= i < texts.len() implies (
                    #[trigger] texts[i]).is_nested() by {
                        reveal(Module::constant_within);
                        self.lemma_nested_within(components@[i], (n - 1) as nat);
                    }
                    nesting::lemma_bracketed(texts);
                    self.lemma_nested_type(ty);
                    assert forall|open: Seq<char>| #[trigger] whole.opens(open, open) by {
                        assert(self.type_text(ty).opens(open, open));
                    }
                },
            }
        } else {
            nesting::lemma_failure(whole);
        }
    }
}

} // verus!
