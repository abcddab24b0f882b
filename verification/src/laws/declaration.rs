//! Where an entry point declares the global variables that it uses, and how it reaches them.

use crate::context::ExpressionContext;
use crate::emission::Emission;
use crate::interface;
use crate::ir::{
    Binding, EntryPoint, Function, GlobalHandle, GlobalUse, GlobalVariable, Module, ShaderStage,
    StorageClass,
};
use crate::keyword;
use crate::options::Options;
use vstd::prelude::*;

verus! {

impl GlobalVariable {
    /// Whether this is no input, or an input that has a location or is built in.
    pub open spec fn has_input_binding(self) -> bool {
        self.class == StorageClass::Input ==> {
            ||| self.binding matches Some(Binding::Location(_))
            ||| self.binding matches Some(Binding::BuiltIn(_))
        }
    }
}

/// No variable is declared in two places: as a parameter, among the inputs, or among the
/// outputs.
pub proof fn law_declared_once(var: GlobalVariable, usage: GlobalUse)
    requires
        var.has_input_binding(),
    ensures
        !(var.is_listed_input(usage) && var.is_parameter(usage)),
        !(var.is_listed_output(usage) && var.is_parameter(usage)),
        !(var.is_listed_input(usage) && var.is_listed_output(usage)),
{
}

/// A variable that is used as its class allows is declared: outputs are written, inputs with a
/// location are read, and others are used in any way.
pub proof fn law_used_is_declared(var: GlobalVariable, usage: GlobalUse)
    requires
        usage.is_used(),
        var.class == StorageClass::Output ==> usage.write,
        var.is_located_input() ==> usage.read,
    ensures
        var.is_listed_input(usage) || var.is_listed_output(usage) || var.is_parameter(usage),
{
}

/// A variable is reached through a structure if it is declared in that structure, and by its
/// name alone if it is a parameter. An output that is a structure itself is not named at all.
pub proof fn law_reached_where_declared(
    context: ExpressionContext<'_>,
    handle: GlobalHandle,
    usage: GlobalUse,
)
    requires
        context.global_text(handle).is_defined(),
        context.module.global_variables@[handle as int].has_input_binding(),
    ensures
        ({
            let var = context.module.global_variables@[handle as int];
            let is_struct = context.module.types@[var.ty as int].inner is Struct;
            let text = context.global_text(handle);
            &&& var.is_listed_input(usage) ==> text == Emission::text("input"@ + "."@ + var.name@)
            &&& var.is_listed_output(usage) && !is_struct ==> text == Emission::text(
                "output"@ + "."@ + var.name@,
            )
            &&& var.is_listed_output(usage) && is_struct ==> text == Emission::nothing()
            &&& var.is_parameter(usage) ==> text == Emission::text(var.name@)
        }),
{
}

/// An entry point that has parameters has a last one, and only that one is not followed by
/// another.
pub proof fn law_last_parameter(module: Module, function: Function) -> (last: int)
    requires
        module.is_parameter_after(function, -1),
    ensures
        module.is_parameter_of(function, last),
        !module.is_parameter_after(function, last),
        forall|i: int| #[trigger]
            module.is_parameter_of(function, i) && i != last ==> i < last
                && module.is_parameter_after(function, i),
{
    let first = choose|j: int| -1 < j && #[trigger] module.is_parameter_of(function, j);
    let last = lemma_last_from(module, function, first);
    assert forall|i: int| #[trigger]
        module.is_parameter_of(function, i) && i != last implies i < last
        && module.is_parameter_after(function, i) by {
        if i > last {
            assert(module.is_parameter_after(function, last));
        }
    }
    last
}

proof fn lemma_last_from(module: Module, function: Function, i: int) -> (last: int)
    requires
        module.is_parameter_of(function, i),
    ensures
        i <= last,
        module.is_parameter_of(function, last),
        !module.is_parameter_after(function, last),
    decreases module.usage_count(function) - i,
{
    if module.is_parameter_after(function, i) {
        let j = choose|j: int| i < j && #[trigger] module.is_parameter_of(function, j);
        lemma_last_from(module, function, j)
    } else {
        i
    }
}

/// The start of the declaration of an entry point: the word of its stage, what it returns, and
/// its name.
pub open spec fn signature(entry_point: EntryPoint) -> Seq<char> {
    let name = entry_point.function.name@;
    match entry_point.stage {
        ShaderStage::Vertex | ShaderStage::Fragment => interface::stage_text(entry_point.stage)
            + " "@ + name + "Output"@ + " "@ + name + "(\n"@,
        ShaderStage::Compute => interface::stage_text(entry_point.stage) + " void "@ + name
            + "(\n"@,
    }
}

/// An entry point that can be written is declared for its stage under its name.
pub proof fn law_entry_point_named(module: Module, options: Options, index: usize) -> (parts: (
    Seq<char>,
    Seq<char>,
))
    requires
        module.entry_point_text(options, index).fault is None,
    ensures
        module.entry_point_text(options, index).text == parts.0 + signature(
            module.entry_points@[index as int],
        ) + parts.1,
{
    let entry_point = module.entry_points@[index as int];
    let head = module.entry_point_head(entry_point, options);
    let whole = module.entry_point_text(options, index);
    let (before, after) = lemma_head_named(module, entry_point, options);
    assert(head.text.is_prefix_of(whole.text)) by {
        broadcast use crate::laws::layout::lemma_starts_and;

        assert(head.starts_with(head.text)) by {
            reveal(Emission::starts_with);
            assert(head.text =~= head.text.subrange(0, head.text.len() as int));
        }
        assert(whole.starts_with(head.text));
        reveal(Emission::starts_with);
    }
    let rest = whole.text.skip(head.text.len() as int);
    assert(whole.text =~= head.text + rest);
    assert(before + signature(entry_point) + after + rest =~= before + signature(entry_point) + (
    after + rest));
    (before, after + rest)
}

proof fn lemma_head_named(module: Module, entry_point: EntryPoint, options: Options) -> (parts: (
    Seq<char>,
    Seq<char>,
))
    requires
        module.entry_point_head(entry_point, options).fault is None,
    ensures
        module.entry_point_head(entry_point, options).text == parts.0 + signature(entry_point)
            + parts.1,
{
    broadcast use crate::emission::lemma_add_associative;

    let name = entry_point.function.name@;
    match entry_point.stage {
        ShaderStage::Vertex | ShaderStage::Fragment => {
            let structures = Emission::text("struct "@).put(name).put("Input"@).put(" {\n"@).and(
                Emission::all(module.input_texts(entry_point, options)),
            ).put("};\n"@).put("\n"@).put("struct "@).put(name).put("Output"@).put(" {\n"@).and(
                Emission::all(module.output_texts(entry_point, options)),
            ).put("};\n"@).put("\n"@);
            let after = "    "@ + name + "Input"@ + " input [[stage_in]]"@
                + keyword::separator_text(!module.is_parameter_after(entry_point.function, -1))
                + "\n"@;
            (structures.text, after)
        },
        ShaderStage::Compute => {
            let head = module.entry_point_head(entry_point, options);
            assert(head.text =~= Seq::<char>::empty() + signature(entry_point)
                + Seq::<char>::empty());
            (Seq::empty(), Seq::empty())
        },
    }
}

} // verus!
