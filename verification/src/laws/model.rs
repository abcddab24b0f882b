//! What the writer makes of bindings, types and errors, and what it returns.

use crate::error::{Error, Fault, Stop};
use crate::ir::{ExpressionHandle, GlobalHandle, Module, ShaderStage, Type};
use crate::options;
use crate::options::{BindingEntry, LocationMode, Options, ResolvedBinding, TranslationInfo};
use crate::typing::{Resolution, Typifier};
use vstd::prelude::*;

verus! {

/// Whether entry `i` is the first for the variable in that stage and role.
pub open spec fn is_first_for(
    entries: Seq<BindingEntry>,
    i: int,
    stage: ShaderStage,
    global: GlobalHandle,
    mode: LocationMode,
) -> bool {
    &&& 0 <= i < entries.len()
    &&& entries[i].stage == stage
    &&& entries[i].global == global
    &&& entries[i].mode == mode
    &&& forall|j: int|
        0 <= j < i ==> !((#[trigger] entries[j]).stage == stage && entries[j].global == global
            && entries[j].mode == mode)
}

/// A variable is bound by the first entry for it, its stage and its role, and by none if there is
/// no such entry.
pub proof fn law_bindings(
    options: Options,
    stage: ShaderStage,
    global: GlobalHandle,
    mode: LocationMode,
)
    ensures
        forall|i: int| #[trigger]
            is_first_for(options.bindings@, i, stage, global, mode) ==> options.binding_of(
                stage,
                global,
                mode,
            ) == Some(options.bindings@[i].binding),
        (forall|i: int|
            0 <= i < options.bindings@.len() ==> !((#[trigger] options.bindings@[i]).stage == stage
                && options.bindings@[i].global == global && options.bindings@[i].mode == mode))
            ==> options.binding_of(stage, global, mode) is None,
{
    assert forall|i: int| #[trigger]
        is_first_for(options.bindings@, i, stage, global, mode) implies options.binding_of(
        stage,
        global,
        mode,
    ) == Some(options.bindings@[i].binding) by {
        lemma_first_for(options.bindings@, i, stage, global, mode);
    }
    lemma_none_for(options.bindings@, stage, global, mode);
}

proof fn lemma_first_for(
    entries: Seq<BindingEntry>,
    i: int,
    stage: ShaderStage,
    global: GlobalHandle,
    mode: LocationMode,
)
    requires
        is_first_for(entries, i, stage, global, mode),
    ensures
        options::first_entry(entries, stage, global, mode) == Some(entries[i].binding),
    decreases entries.len(),
{
    if i > 0 {
        let rest = entries.skip(1);
        assert(!(entries[0].stage == stage && entries[0].global == global && entries[0].mode
            == mode));
        assert forall|j: int| 0 <= j < i - 1 implies !((#[trigger] rest[j]).stage == stage
            && rest[j].global == global && rest[j].mode == mode) by {
            assert(rest[j] == entries[j + 1]);
        }
        lemma_first_for(rest, i - 1, stage, global, mode);
    }
}

proof fn lemma_none_for(
    entries: Seq<BindingEntry>,
    stage: ShaderStage,
    global: GlobalHandle,
    mode: LocationMode,
)
    ensures
        (forall|i: int|
            0 <= i < entries.len() ==> !((#[trigger] entries[i]).stage == stage && entries[i].global
                == global && entries[i].mode == mode)) ==> options::first_entry(
            entries,
            stage,
            global,
            mode,
        ) is None,
    decreases entries.len(),
{
    if entries.len() > 0 && forall|i: int|
        0 <= i < entries.len() ==> !((#[trigger] entries[i]).stage == stage && entries[i].global
            == global && entries[i].mode == mode) {
        let rest = entries.skip(1);
        assert forall|j: int| 0 <= j < rest.len() implies !((#[trigger] rest[j]).stage == stage
            && rest[j].global == global && rest[j].mode == mode) by {
            assert(rest[j] == entries[j + 1]);
        }
        lemma_none_for(rest, stage, global, mode);
    }
}

/// A binding decorates a declaration as a blank, its attribute in double square brackets, and
/// what ends the declaration.
pub proof fn law_decorated(binding: ResolvedBinding, terminator: Seq<char>)
    ensures
        binding.decorated(terminator) == seq![' ', '[', '['] + binding.attribute@ + seq![']', ']']
            + terminator,
{
    reveal_strlit(" [[");
    reveal_strlit("]]");
    assert(" [["@ =~= seq![' ', '[', '[']);
    assert("]]"@ =~= seq![']', ']']);
}

/// The type of an expression is the one that was resolved for it.
pub proof fn law_resolved(typifier: Typifier, handle: ExpressionHandle, types: Seq<Type>)
    ensures
        handle >= typifier.resolutions@.len() ==> typifier.resolved(handle, types) is None,
        handle < typifier.resolutions@.len() ==> match typifier.resolutions@[handle as int] {
            Resolution::Handle(ty) => {
                &&& typifier.is_named(handle)
                &&& ty < types.len() ==> typifier.resolved(handle, types) == Some(
                    types[ty as int].inner,
                )
                &&& ty >= types.len() ==> typifier.resolved(handle, types) is None
            },
            Resolution::Value(inner) => {
                &&& !typifier.is_named(handle)
                &&& typifier.resolved(handle, types) == Some(inner)
            },
        },
{
}

/// A fault tells the error that it stands for, and only an error that names something by a text
/// of its own is known but for that text. No error is that something does not exist.
pub proof fn law_errors(a: Error, b: Error)
    ensures
        a@ != Fault::Undefined,
        Stop::Undefined@ == Fault::Undefined,
        Stop::Error(a)@ == a@,
        a@ == b@ ==> match (a, b) {
            (Error::UnsupportedCall(x), Error::UnsupportedCall(y)) => x@ == y@,
            _ => a == b,
        },
        a matches Error::Type(error) ==> a@ == Fault::Type(error),
        a matches Error::MissingBinding { stage, global, mode } ==> a@ == (Fault::MissingBinding {
            stage,
            global,
            mode,
        }),
        a matches Error::InvalidImageAccess(access) ==> a@ == Fault::InvalidImageAccess(access),
        a matches Error::UnsupportedCompose(ty) ==> a@ == Fault::UnsupportedCompose(ty),
        a matches Error::UnsupportedBinaryOp(op) ==> a@ == Fault::UnsupportedBinaryOp(op),
        a matches Error::UnsupportedCall(name) ==> a@ == Fault::UnsupportedCall(name@),
        a == Error::UnsupportedDynamicArrayLength ==> a@ == Fault::UnsupportedDynamicArrayLength,
        a == Error::Validation ==> a@ == Fault::Validation,
{
}

/// The names that are returned are those of all entry points, in the order of the module.
pub proof fn law_names(module: Module, info: TranslationInfo)
    requires
        info.names() == module.entry_point_names(),
    ensures
        info.entry_point_names@.len() == module.entry_points@.len(),
        forall|i: int|
            0 <= i < module.entry_points@.len() ==> (#[trigger] info.entry_point_names@[i])@
                == module.entry_points@[i].function.name@,
{
    assert(info.names().len() == info.entry_point_names@.len());
    assert forall|i: int| 0 <= i < module.entry_points@.len() implies (
    #[trigger] info.entry_point_names@[i])@ == module.entry_points@[i].function.name@ by {
        assert(info.names()[i] == module.entry_point_names()[i]);
    }
}

/// A module can be written unless its text comes to something that does not exist.
pub proof fn law_writable(module: Module, options: Options)
    ensures
        module.is_writable(options) <==> module.module_text(options).fault != Some(
            Fault::Undefined,
        ),
{
}

} // verus!
