//! What the writer is told besides the module, and what it tells in return.

use crate::error::Error;
use crate::ir::{GlobalHandle, ShaderStage};
use vstd::prelude::*;

verus! {

broadcast use crate::emission::lemma_add_associative;

/// The role in which a stage meets a global variable that has a location.
#[derive(Clone, Copy, Debug, PartialEq, Eq, Structural)]
pub enum LocationMode {
    VertexInput,
    FragmentOutput,
    Intermediate,
    Uniform,
}

/// The Metal attribute that binds a global variable, such as `buffer(0)` or `user(loc1)`.
#[derive(Debug)]
pub struct ResolvedBinding {
    pub attribute: String,
}

/// The binding of a global variable in one stage and role.
#[derive(Debug)]
pub struct BindingEntry {
    pub stage: ShaderStage,
    pub global: GlobalHandle,
    pub mode: LocationMode,
    pub binding: ResolvedBinding,
}

/// The bindings of the global variables. Where two entries are for the same variable, stage and
/// role, the first holds.
#[derive(Debug)]
pub struct Options {
    pub bindings: Vec<BindingEntry>,
}

/// What the writer reports of a module that it has written: the names of the entry points, in
/// the order of the module.
#[derive(Debug)]
pub struct TranslationInfo {
    pub entry_point_names: Vec<String>,
}

impl BindingEntry {
    pub open spec fn is_for(
        self,
        stage: ShaderStage,
        global: GlobalHandle,
        mode: LocationMode,
    ) -> bool {
        self.stage == stage && self.global == global && self.mode == mode
    }
}

impl ResolvedBinding {
    /// The attribute as it decorates a declaration, with what ends the declaration.
    pub open spec fn decorated(self, terminator: Seq<char>) -> Seq<char> {
        " [["@ + self.attribute@ + "]]"@ + terminator
    }

    /// Appends the attribute as it decorates a declaration, and `terminator`.
    pub fn try_fmt_decorated(&self, out: &mut String, terminator: &str)
        ensures
            final(out)@ == old(out)@ + self.decorated(terminator@),
    {
        out.append(" [[");
        out.append(self.attribute.as_str());
        out.append("]]");
        out.append(terminator);
    }
}

/// The first of `entries` that is for the variable, stage and role.
pub open spec fn first_entry(
    entries: Seq<BindingEntry>,
    stage: ShaderStage,
    global: GlobalHandle,
    mode: LocationMode,
) -> Option<ResolvedBinding>
    decreases entries.len(),
{
    if entries.len() == 0 {
        None
    } else if entries[0].is_for(stage, global, mode) {
        Some(entries[0].binding)
    } else {
        first_entry(entries.skip(1), stage, global, mode)
    }
}

impl Options {
    /// The binding of the variable in that stage and role, if there is one.
    pub open spec fn binding_of(
        self,
        stage: ShaderStage,
        global: GlobalHandle,
        mode: LocationMode,
    ) -> Option<ResolvedBinding> {
        first_entry(self.bindings@, stage, global, mode)
    }

    /// Whether both say the same of every variable.
    pub open spec fn agrees_with(self, other: Options) -> bool {
        forall|stage: ShaderStage, global: GlobalHandle, mode: LocationMode| #[trigger]
            self.binding_of(stage, global, mode) == other.binding_of(stage, global, mode)
    }

    /// The binding of the variable in that stage and role.
    pub fn resolve_binding(
        &self,
        stage: ShaderStage,
        global: GlobalHandle,
        mode: LocationMode,
    ) -> (resolved: Result<&ResolvedBinding, Error>)
        ensures
            match self.binding_of(stage, global, mode) {
                Some(binding) => resolved matches Ok(found) && *found == binding,
                None => resolved == Err::<&ResolvedBinding, Error>(
                    Error::MissingBinding { stage, global, mode },
                ),
            },
    {
        let mut i: usize = 0;
        assert(self.bindings@.skip(0) =~= self.bindings@);
        while i < self.bindings.len()
            invariant
                i <= self.bindings@.len(),
                first_entry(self.bindings@.skip(i as int), stage, global, mode) == self.binding_of(
                    stage,
                    global,
                    mode,
                ),
            decreases self.bindings@.len() - i,
        {
            let entry = &self.bindings[i];
            if entry.stage == stage && entry.global == global && entry.mode == mode {
                return Ok(&entry.binding);
            }
            assert(self.bindings@.skip(i as int).skip(1) =~= self.bindings@.skip(i + 1));
            i = i + 1;
        }
        Err(Error::MissingBinding { stage, global, mode })
    }
}

} // verus!
