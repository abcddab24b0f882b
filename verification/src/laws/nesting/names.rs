//! The names of a module whose brackets are nested.

use crate::ir::{
    ConstantInner, Function, GlobalHandle, Module, ScalarValue, ShaderStage, Statement, SwitchCase,
    TypeInner,
};
use crate::laws::nesting;
use crate::options;
use crate::options::{BindingEntry, LocationMode, Options};
use vstd::prelude::*;

verus! {

impl TypeInner {
    pub open spec fn has_nested_names(self) -> bool {
        self matches TypeInner::Struct { members, .. } ==> forall|i: int|
            0 <= i < members@.len() ==> nesting::is_nested((#[trigger] members@[i]).name@)
    }
}

impl ConstantInner {
    pub open spec fn has_nested_digits(self) -> bool {
        self matches ConstantInner::Scalar { value: ScalarValue::Float(literal), .. }
            ==> nesting::is_nested(literal.digits@)
    }
}

impl Statement {
    /// Whether the names of the variables that loops in this statement declare are nested.
    pub open spec fn has_nested_names(self) -> bool
        decreases self,
    {
        match self {
            Statement::Block(block) => forall|i: int|
                0 <= i < block@.len() ==> (#[trigger] block@[i]).has_nested_names(),
            Statement::If { accept, reject, .. } => {
                &&& forall|i: int|
                    0 <= i < accept@.len() ==> (#[trigger] accept@[i]).has_nested_names()
                &&& forall|i: int|
                    0 <= i < reject@.len() ==> (#[trigger] reject@[i]).has_nested_names()
            },
            Statement::Switch { cases, default, .. } => {
                &&& forall|i: int|
                    0 <= i < cases@.len() ==> (#[trigger] cases@[i]).has_nested_names()
                &&& forall|i: int|
                    0 <= i < default@.len() ==> (#[trigger] default@[i]).has_nested_names()
            },
            Statement::Loop { body, continuing, gate_name } => {
                &&& nesting::is_nested(gate_name@)
                &&& forall|i: int|
                    0 <= i < body@.len() ==> (#[trigger] body@[i]).has_nested_names()
                &&& forall|i: int|
                    0 <= i < continuing@.len() ==> (#[trigger] continuing@[i]).has_nested_names()
            },
            _ => true,
        }
    }
}

impl SwitchCase {
    pub open spec fn has_nested_names(self) -> bool
        decreases self,
    {
        forall|i: int|
            0 <= i < self.body@.len() ==> (#[trigger] self.body@[i]).has_nested_names()
    }
}

impl Function {
    pub open spec fn has_nested_names(self) -> bool {
        &&& nesting::is_nested(self.name@)
        &&& forall|i: int|
            0 <= i < self.arguments@.len() ==> nesting::is_nested(
                (#[trigger] self.arguments@[i]).name@,
            )
        &&& forall|i: int|
            0 <= i < self.local_variables@.len() ==> nesting::is_nested(
                (#[trigger] self.local_variables@[i]).name@,
            )
        &&& forall|i: int|
            0 <= i < self.body@.len() ==> (#[trigger] self.body@[i]).has_nested_names()
    }
}

impl Module {
    /// Whether the brackets of every name and of every floating-point literal are nested.
    pub open spec fn has_nested_names(self) -> bool {
        &&& forall|i: int|
            0 <= i < self.types@.len() ==> {
                &&& nesting::is_nested((#[trigger] self.types@[i]).name@)
                &&& self.types@[i].inner.has_nested_names()
            }
        &&& forall|i: int|
            0 <= i < self.constants@.len() ==> (
            #[trigger] self.constants@[i]).inner.has_nested_digits()
        &&& forall|i: int|
            0 <= i < self.global_variables@.len() ==> nesting::is_nested(
                (#[trigger] self.global_variables@[i]).name@,
            )
        &&& forall|i: int|
            0 <= i < self.functions@.len() ==> (#[trigger] self.functions@[i]).has_nested_names()
        &&& forall|i: int|
            0 <= i < self.entry_points@.len() ==> (
            #[trigger] self.entry_points@[i]).function.has_nested_names()
    }
}

impl Options {
    /// Whether the brackets of every attribute are nested.
    pub open spec fn has_nested_attributes(self) -> bool {
        forall|i: int|
            0 <= i < self.bindings@.len() ==> nesting::is_nested(
                (#[trigger] self.bindings@[i]).binding.attribute@,
            )
    }

    /// The brackets of the attribute that binds a variable are nested.
    pub proof fn lemma_nested_binding(
        self,
        stage: ShaderStage,
        global: GlobalHandle,
        mode: LocationMode,
    )
        requires
            self.has_nested_attributes(),
        ensures
            self.binding_of(stage, global, mode) matches Some(binding) ==> nesting::is_nested(
                binding.attribute@,
            ),
    {
        lemma_nested_entry(self.bindings@, stage, global, mode);
    }
}

proof fn lemma_nested_entry(
    entries: Seq<BindingEntry>,
    stage: ShaderStage,
    global: GlobalHandle,
    mode: LocationMode,
)
    requires
        forall|i: int|
            0 <= i < entries.len() ==> nesting::is_nested(
                (#[trigger] entries[i]).binding.attribute@,
            ),
    ensures
        options::first_entry(entries, stage, global, mode) matches Some(binding)
            ==> nesting::is_nested(binding.attribute@),
    decreases entries.len(),
{
    if entries.len() > 0 && !entries[0].is_for(stage, global, mode) {
        let rest = entries.skip(1);
        assert forall|i: int| 0 <= i < rest.len() implies nesting::is_nested(
            (#[trigger] rest[i]).binding.attribute@,
        ) by {
            assert(rest[i] == entries[i + 1]);
        }
        lemma_nested_entry(rest, stage, global, mode);
    }
}

} // verus!
