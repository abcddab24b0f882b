//! Which global variables an entry point declares, where, and in which role.

use crate::ir::{Binding, Function, GlobalUse, GlobalVariable, Module, ShaderStage, StorageClass};
use crate::options::LocationMode;
use vstd::prelude::*;

verus! {

/// The word that marks an entry point of a stage.
pub open spec fn stage_text(stage: ShaderStage) -> Seq<char> {
    match stage {
        ShaderStage::Vertex => "vertex"@,
        ShaderStage::Fragment => "fragment"@,
        ShaderStage::Compute => "kernel"@,
    }
}

/// The role of the inputs that a stage has in a structure.
pub open spec fn input_mode(stage: ShaderStage) -> LocationMode {
    match stage {
        ShaderStage::Vertex => LocationMode::VertexInput,
        ShaderStage::Fragment => LocationMode::Intermediate,
        ShaderStage::Compute => LocationMode::Uniform,
    }
}

/// The role of the outputs that a stage has in a structure.
pub open spec fn output_mode(stage: ShaderStage) -> LocationMode {
    match stage {
        ShaderStage::Vertex => LocationMode::Intermediate,
        ShaderStage::Fragment => LocationMode::FragmentOutput,
        ShaderStage::Compute => LocationMode::Uniform,
    }
}

/// The role of a global variable that is a parameter of an entry point.
pub open spec fn parameter_mode(stage: ShaderStage, class: StorageClass) -> LocationMode {
    match (stage, class) {
        (ShaderStage::Vertex, StorageClass::Input) => LocationMode::VertexInput,
        (ShaderStage::Vertex, StorageClass::Output) => LocationMode::Intermediate,
        (ShaderStage::Fragment, StorageClass::Input) => LocationMode::Intermediate,
        (ShaderStage::Fragment, StorageClass::Output) => LocationMode::FragmentOutput,
        _ => LocationMode::Uniform,
    }
}

/// The word that marks an entry point of a stage, and the roles of its inputs and outputs.
pub fn stage_words(stage: ShaderStage) -> (words: (&'static str, LocationMode, LocationMode))
    ensures
        words.0@ == stage_text(stage),
        words.1 == input_mode(stage),
        words.2 == output_mode(stage),
{
    match stage {
        ShaderStage::Vertex => ("vertex", LocationMode::VertexInput, LocationMode::Intermediate),
        ShaderStage::Fragment => (
            "fragment",
            LocationMode::Intermediate,
            LocationMode::FragmentOutput,
        ),
        ShaderStage::Compute => ("kernel", LocationMode::Uniform, LocationMode::Uniform),
    }
}

/// The role of a global variable that is a parameter of an entry point.
pub fn find_parameter_mode(stage: ShaderStage, class: StorageClass) -> (mode: LocationMode)
    ensures
        mode == parameter_mode(stage, class),
{
    match (stage, class) {
        (ShaderStage::Vertex, StorageClass::Input) => LocationMode::VertexInput,
        (ShaderStage::Vertex, StorageClass::Output) => LocationMode::Intermediate,
        (ShaderStage::Fragment, StorageClass::Input) => LocationMode::Intermediate,
        (ShaderStage::Fragment, StorageClass::Output) => LocationMode::FragmentOutput,
        _ => LocationMode::Uniform,
    }
}

impl GlobalVariable {
    /// Whether this is an input that has a location.
    pub open spec fn is_located_input(self) -> bool {
        &&& self.class == StorageClass::Input
        &&& self.binding matches Some(Binding::Location(_))
    }

    /// Whether an entry point with that use of this variable has it in its structure of inputs.
    pub open spec fn is_listed_input(self, usage: GlobalUse) -> bool {
        &&& self.class == StorageClass::Input
        &&& usage.read
        &&& !(self.binding matches Some(Binding::BuiltIn(_)))
    }

    /// Whether an entry point with that use of this variable has it in its structure of outputs.
    pub open spec fn is_listed_output(self, usage: GlobalUse) -> bool {
        &&& self.class == StorageClass::Output
        &&& usage.write
    }

    /// Whether an entry point with that use of this variable has it as a parameter.
    pub open spec fn is_parameter(self, usage: GlobalUse) -> bool {
        &&& usage.is_used()
        &&& self.class != StorageClass::Output
        &&& !self.is_located_input()
    }

    /// Whether an entry point with that use of this variable has it as a parameter.
    pub fn is_entry_parameter(&self, usage: GlobalUse) -> (found: bool)
        ensures
            found == self.is_parameter(usage),
    {
        if usage.is_empty() || self.class == StorageClass::Output {
            return false;
        }
        if self.class == StorageClass::Input {
            if let Some(Binding::Location(_)) = self.binding {
                return false;
            }
        }
        true
    }

    /// Whether an entry point with that use of this variable has it in its structure of inputs.
    pub fn is_input_member(&self, usage: GlobalUse) -> (found: bool)
        ensures
            found == self.is_listed_input(usage),
    {
        if self.class != StorageClass::Input || !usage.read {
            return false;
        }
        // Metal has no built-ins in input structures.
        if let Some(Binding::BuiltIn(_)) = self.binding {
            return false;
        }
        true
    }

    /// Whether an entry point with that use of this variable has it in its structure of outputs.
    pub fn is_output_member(&self, usage: GlobalUse) -> (found: bool)
        ensures
            found == self.is_listed_output(usage),
    {
        self.class == StorageClass::Output && usage.write
    }
}

impl Module {
    /// The number of global variables that `function` states a use of.
    pub open spec fn usage_count(self, function: Function) -> nat {
        if self.global_variables@.len() <= function.global_usage@.len() {
            self.global_variables@.len()
        } else {
            function.global_usage@.len()
        }
    }

    /// Whether global variable `i` is a parameter of an entry point with body `function`.
    pub open spec fn is_parameter_of(self, function: Function, i: int) -> bool {
        &&& 0 <= i < self.usage_count(function)
        &&& self.global_variables@[i].is_parameter(function.global_usage@[i])
    }

    /// Whether a later global variable than `i` is a parameter.
    pub open spec fn is_parameter_after(self, function: Function, i: int) -> bool {
        exists|j: int| i < j && #[trigger] self.is_parameter_of(function, j)
    }

    /// The number of global variables that `function` states a use of.
    pub fn count_usage(&self, function: &Function) -> (count: usize)
        ensures
            count == self.usage_count(*function),
    {
        if self.global_variables.len() <= function.global_usage.len() {
            self.global_variables.len()
        } else {
            function.global_usage.len()
        }
    }
}

} // verus!
