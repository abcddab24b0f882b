//! What functions and entry points are written as.

use crate::context::{ExpressionContext, FunctionOrigin};
use crate::emission::Emission;
use crate::error::Fault;
use crate::ir::{
    Binding, ConstantHandle, EntryPoint, Function, FunctionArgument, FunctionHandle, GlobalHandle,
    GlobalUse, LocalVariable, Module, ShaderStage, StorageClass, TypeHandle,
};
use crate::laws::model;
use crate::laws::sequence;
use crate::laws::words;
use crate::options::{LocationMode, Options};
use crate::typing::Typifier;
use vstd::prelude::*;

verus! {

/// The text of an initial value, if there is one.
pub open spec fn initial(module: Module, init: Option<ConstantHandle>) -> Seq<char> {
    match init {
        Some(constant) => " = "@ + module.constant_text(constant).text,
        None => Seq::empty(),
    }
}

/// The fault of an initial value, if there is one.
pub open spec fn initial_fault(module: Module, init: Option<ConstantHandle>) -> Option<Fault> {
    match init {
        Some(constant) => module.constant_text(constant).fault,
        None => None,
    }
}

/// A global variable is the first of its type if it has that type and no earlier one has.
pub proof fn law_first_global(module: Module, ty: TypeHandle, global: int)
    ensures
        module.is_first_global_of(ty, global) <==> {
            &&& 0 <= global < module.global_variables@.len()
            &&& module.global_variables@[global].ty == ty
            &&& forall|other: int|
                0 <= other < global ==> (#[trigger] module.global_variables@[other]).ty != ty
        },
{
}

/// All functions are written in order, and after them all entry points in order.
pub proof fn law_bodies(module: Module, options: Options)
    ensures
        ({
            let functions = Seq::new(
                module.functions@.len(),
                |i: int| module.function_text(i as FunctionHandle),
            );
            let entry_points = Seq::new(
                module.entry_points@.len(),
                |i: int| module.entry_point_text(options, i as usize),
            );
            let whole = module.functions_text(options);
            &&& forall|i: int| #[trigger]
                sequence::fails_first(functions, i) ==> whole.fault == functions[i].fault
            &&& sequence::all_succeed(functions) ==> forall|i: int| #[trigger]
                sequence::fails_first(entry_points, i) ==> whole.fault == entry_points[i].fault
            &&& sequence::all_succeed(functions) && sequence::all_succeed(entry_points)
                ==> whole.fault is None && whole.text == sequence::flat(sequence::texts(functions))
                + sequence::flat(sequence::texts(entry_points))
        }),
{
    let functions = Seq::new(
        module.functions@.len(),
        |i: int| module.function_text(i as FunctionHandle),
    );
    let entry_points = Seq::new(
        module.entry_points@.len(),
        |i: int| module.entry_point_text(options, i as usize),
    );
    assert(module.function_texts() =~= functions);
    assert(module.entry_point_texts(options) =~= entry_points);
    sequence::law_all(functions);
    sequence::law_all(entry_points);
}

/// The names of all local variables are declared in order, each with its type and its initial
/// value, on a line of its own.
pub proof fn law_locals(module: Module, locals: Seq<LocalVariable>)
    ensures
        ({
            let whole = Emission::all(module.local_texts(locals));
            let lines = Seq::new(
                locals.len(),
                |i: int|
                    "    "@ + module.types@[locals[i].ty as int].name@ + " "@ + locals[i].name@
                        + initial(module, locals[i].init) + ";\n"@,
            );
            &&& whole.fault is None <==> forall|i: int|
                0 <= i < locals.len() ==> (#[trigger] locals[i]).ty < module.types@.len()
                    && initial_fault(module, locals[i].init) is None
            &&& whole.fault is None ==> whole.text == sequence::flat(lines)
        }),
{
    let parts = module.local_texts(locals);
    let lines = Seq::new(
        locals.len(),
        |i: int|
            "    "@ + module.types@[locals[i].ty as int].name@ + " "@ + locals[i].name@ + initial(
                module,
                locals[i].init,
            ) + ";\n"@,
    );
    sequence::law_all(parts);
    crate::laws::order::law_all_succeed(parts);
    assert forall|i: int| 0 <= i < locals.len() implies ((#[trigger] parts[i]).fault is None <==> (
    locals[i].ty < module.types@.len() && initial_fault(module, locals[i].init) is None)) && (
    parts[i].fault is None ==> parts[i].text == lines[i]) by {
        assert(parts[i] == module.local_text(locals[i]));
    }
    if Emission::all(parts).fault is None {
        assert(sequence::texts(parts) =~= lines);
        assert forall|i: int| 0 <= i < locals.len() implies (#[trigger] locals[i]).ty
            < module.types@.len() && initial_fault(module, locals[i].init) is None by {
            assert(parts[i].fault is None);
        }
    }
    if forall|i: int|
        0 <= i < locals.len() ==> (#[trigger] locals[i]).ty < module.types@.len() && initial_fault(
            module,
            locals[i].init,
        ) is None {
        assert forall|i: int| 0 <= i < parts.len() implies (#[trigger] parts[i]).fault is None by {
            assert(locals[i].ty < module.types@.len());
        }
    }
}

/// All arguments of a function are declared in order, each with its type and its name on a line
/// of its own, with a comma after all but the last.
pub proof fn law_arguments(module: Module, arguments: Seq<FunctionArgument>)
    ensures
        ({
            let whole = Emission::all(module.argument_texts(arguments));
            let lines = Seq::new(
                arguments.len(),
                |i: int|
                    "    "@ + module.types@[arguments[i].ty as int].name@ + " "@
                        + arguments[i].name@ + (if i < arguments.len() - 1 {
                        seq![',']
                    } else {
                        Seq::empty()
                    }) + "\n"@,
            );
            &&& whole.fault is None <==> forall|i: int|
                0 <= i < arguments.len() ==> (#[trigger] arguments[i]).ty < module.types@.len()
            &&& whole.fault is None ==> whole.text == sequence::flat(lines)
        }),
{
    let parts = module.argument_texts(arguments);
    let lines = Seq::new(
        arguments.len(),
        |i: int|
            "    "@ + module.types@[arguments[i].ty as int].name@ + " "@ + arguments[i].name@ + (
            if i < arguments.len() - 1 {
                seq![',']
            } else {
                Seq::empty()
            }) + "\n"@,
    );
    words::law_separators();
    sequence::law_all(parts);
    crate::laws::order::law_all_succeed(parts);
    assert forall|i: int| 0 <= i < arguments.len() implies ((
    #[trigger] parts[i]).fault is None <==> arguments[i].ty < module.types@.len()) && (
    parts[i].fault is None ==> parts[i].text == lines[i]) by {
        assert(parts[i] == module.argument_text(arguments[i], i + 1 == arguments.len()));
    }
    if Emission::all(parts).fault is None {
        assert(sequence::texts(parts) =~= lines);
        assert forall|i: int| 0 <= i < arguments.len() implies (#[trigger] arguments[i]).ty
            < module.types@.len() by {
            assert(parts[i].fault is None);
        }
    }
    if forall|i: int|
        0 <= i < arguments.len() ==> (#[trigger] arguments[i]).ty < module.types@.len() {
        assert forall|i: int| 0 <= i < parts.len() implies (#[trigger] parts[i]).fault is None by {
            assert(arguments[i].ty < module.types@.len());
        }
    }
}

/// A function whose types could not be resolved is not written, and the error is that of the
/// resolution.
pub proof fn law_unresolved(module: Module, handle: FunctionHandle, options: Options, index: usize)
    ensures
        module.functions@[handle as int].typing matches Err(error) ==> module.function_text(handle)
            == Emission::failure(Fault::Type(error)),
        module.entry_points@[index as int].function.typing matches Err(error)
            ==> module.entry_point_text(options, index) == Emission::failure(Fault::Type(error)),
{
}

/// A function is written as what it returns, its name, its arguments in round brackets, and its
/// local variables and its body in curly brackets. It fails with the first of these that does.
pub proof fn law_function(module: Module, handle: FunctionHandle, typifier: Typifier)
    requires
        module.functions@[handle as int].typing == Ok::<Typifier, crate::typing::ResolveError>(
            typifier,
        ),
    ensures
        ({
            let function = module.functions@[handle as int];
            let context = ExpressionContext {
                function: &function,
                origin: FunctionOrigin::Handle(handle),
                module: &module,
                typifier: &typifier,
            };
            let whole = module.function_text(handle);
            let arguments = Emission::all(module.argument_texts(function.arguments@));
            let locals = Emission::all(module.local_texts(function.local_variables@));
            let body = context.block_text(1, function.body@, Seq::empty());
            let rest = sequence::earlier(
                arguments.fault,
                sequence::earlier(locals.fault, body.fault),
            );
            match function.return_type {
                Some(ty) => {
                    &&& ty >= module.types@.len() ==> whole.fault == Some(Fault::Undefined)
                    &&& ty < module.types@.len() ==> {
                        &&& whole.fault == rest
                        &&& whole.fault is None ==> whole.text == module.types@[ty as int].name@
                            + " "@ + function.name@ + "(\n"@ + arguments.text + ") {\n"@
                            + locals.text + body.text + "}\n"@ + "\n"@
                    }
                },
                None => {
                    &&& whole.fault == rest
                    &&& whole.fault is None ==> whole.text == "void"@ + " "@ + function.name@
                        + "(\n"@ + arguments.text + ") {\n"@ + locals.text + body.text + "}\n"@
                        + "\n"@
                },
            }
        }),
{
    reveal_strlit("");
    assert(""@ =~= Seq::<char>::empty());
}

/// A structure in a uniform or storage buffer is declared as a reference: in device memory if it
/// is written, whether or not it is also read, and in constant memory if it is not. Any other
/// variable is declared by its type and its name alone.
pub proof fn law_declaration(module: Module, handle: GlobalHandle, usage: GlobalUse)
    ensures
        ({
            let var = module.global_variables@[handle as int];
            let ty = module.types@[var.ty as int];
            let whole = module.global_declaration(handle, usage);
            let is_buffer = ty.inner is Struct && (var.class == StorageClass::Uniform || var.class
                == StorageClass::Storage);
            &&& var.ty >= module.types@.len() ==> whole.fault == Some(Fault::Undefined)
            &&& var.ty < module.types@.len() ==> {
                &&& whole.fault is None
                &&& is_buffer && usage.write ==> whole.text == "device "@ + ty.name@ + "&"@ + " "@
                    + var.name@
                &&& is_buffer && !usage.write ==> whole.text == "constant "@ + ty.name@ + "&"@
                    + " "@ + var.name@
                &&& !is_buffer ==> whole.text == ty.name@ + " "@ + var.name@
            }
        }),
{
    reveal_strlit("");
    let var = module.global_variables@[handle as int];
    let name = module.types@[var.ty as int].name@;
    assert(""@ + name + ""@ =~= name);
}

/// A variable in a structure of inputs or outputs is a line with its declaration, its binding in
/// the role of the structure, and a semicolon. It fails where it has no such binding.
pub proof fn law_interface(
    module: Module,
    options: Options,
    stage: ShaderStage,
    handle: GlobalHandle,
    mode: LocationMode,
)
    ensures
        ({
            let whole = module.interface_text(options, stage, handle, mode);
            let declared = module.global_declaration(
                handle,
                GlobalUse { read: false, write: false },
            );
            &&& declared.fault is Some ==> whole.fault == declared.fault
            &&& declared.fault is None ==> match options.binding_of(stage, handle, mode) {
                Some(binding) => whole.fault is None && whole.text == "    "@ + declared.text + (
                seq![' ', '[', '['] + binding.attribute@ + seq![']', ']'] + seq![';']) + "\n"@,
                None => whole.fault == Some(
                    Fault::MissingBinding { stage, global: handle, mode },
                ),
            }
        }),
{
    reveal_strlit(";");
    assert(";"@ =~= seq![';']);
    if let Some(binding) = options.binding_of(stage, handle, mode) {
        model::law_decorated(binding, ";"@);
    }
}

/// The number of variables that an entry point can declare.
pub open spec fn count(module: Module, function: Function) -> int {
    if module.global_variables@.len() <= function.global_usage@.len() {
        module.global_variables@.len() as int
    } else {
        function.global_usage@.len() as int
    }
}

/// The structure of inputs has a line for every input that is read and is not built in, and the
/// structure of outputs one for every output that is written, each in the role that the stage
/// gives it.
pub proof fn law_members(module: Module, entry_point: EntryPoint, options: Options, i: int)
    requires
        0 <= i < count(module, entry_point.function),
    ensures
        ({
            let var = module.global_variables@[i];
            let usage = entry_point.function.global_usage@[i];
            let inputs = module.input_texts(entry_point, options);
            let outputs = module.output_texts(entry_point, options);
            let (input_role, output_role) = match entry_point.stage {
                ShaderStage::Vertex => (LocationMode::VertexInput, LocationMode::Intermediate),
                ShaderStage::Fragment => (LocationMode::Intermediate, LocationMode::FragmentOutput),
                ShaderStage::Compute => (LocationMode::Uniform, LocationMode::Uniform),
            };
            let is_built_in = var.binding matches Some(Binding::BuiltIn(_));
            &&& inputs.len() == count(module, entry_point.function)
            &&& outputs.len() == count(module, entry_point.function)
            &&& var.class == StorageClass::Input && usage.read && !is_built_in ==> inputs[i]
                == module.interface_text(options, entry_point.stage, i as GlobalHandle, input_role)
            &&& !(var.class == StorageClass::Input && usage.read && !is_built_in) ==> inputs[i]
                == Emission::nothing()
            &&& var.class == StorageClass::Output && usage.write ==> outputs[i]
                == module.interface_text(options, entry_point.stage, i as GlobalHandle, output_role)
            &&& !(var.class == StorageClass::Output && usage.write) ==> outputs[i]
                == Emission::nothing()
        }),
{
}

/// Whether global variable `i` is used by an entry point, and neither an output nor an input with
/// a location.
pub open spec fn is_passed(module: Module, function: Function, i: int) -> bool {
    let var = module.global_variables@[i];
    let usage = function.global_usage@[i];
    &&& 0 <= i < module.global_variables@.len()
    &&& i < function.global_usage@.len()
    &&& usage.read || usage.write
    &&& var.class != StorageClass::Output
    &&& !(var.class == StorageClass::Input && var.binding matches Some(Binding::Location(_)))
}

/// Whether a later global variable than `i` is passed to an entry point.
pub open spec fn is_passed_after(module: Module, function: Function, i: int) -> bool {
    exists|j: int| i < j && #[trigger] is_passed(module, function, j)
}

proof fn lemma_passed(module: Module, function: Function, i: int)
    ensures
        module.is_parameter_of(function, i) <==> is_passed(module, function, i),
        module.is_parameter_after(function, i) <==> is_passed_after(module, function, i),
{
    if module.is_parameter_after(function, i) {
        let j = choose|j: int| i < j && #[trigger] module.is_parameter_of(function, j);
        assert(is_passed(module, function, j));
    }
    if is_passed_after(module, function, i) {
        let j = choose|j: int| i < j && #[trigger] is_passed(module, function, j);
        assert(module.is_parameter_of(function, j));
    }
}

/// A variable is a parameter of an entry point if and only if it is used, and neither an output
/// nor an input with a location. It is a line with its declaration, its binding, a comma if and
/// only if another parameter follows, and its initial value. Without a binding it fails before
/// anything is written of it.
pub proof fn law_parameter(module: Module, entry_point: EntryPoint, options: Options, i: int)
    requires
        0 <= i < count(module, entry_point.function),
    ensures
        ({
            let function = entry_point.function;
            let stage = entry_point.stage;
            let var = module.global_variables@[i];
            let parameters = module.parameter_texts(entry_point, options);
            let whole = parameters[i];
            let mode = match (stage, var.class) {
                (ShaderStage::Vertex, StorageClass::Input) => LocationMode::VertexInput,
                (ShaderStage::Fragment, StorageClass::Input) => LocationMode::Intermediate,
                _ => LocationMode::Uniform,
            };
            let comma = if is_passed_after(module, function, i) {
                seq![',']
            } else {
                Seq::empty()
            };
            let handle = i as GlobalHandle;
            let declared = module.global_declaration(handle, function.global_usage@[i]);
            &&& parameters.len() == count(module, function)
            &&& !is_passed(module, function, i) ==> whole == Emission::nothing()
            &&& is_passed(module, function, i) ==> match options.binding_of(stage, handle, mode) {
                Some(binding) => {
                    &&& whole.fault == sequence::earlier(
                        declared.fault,
                        initial_fault(module, var.init),
                    )
                    &&& whole.fault is None ==> whole.text == "    "@ + declared.text + (
                    seq![' ', '[', '['] + binding.attribute@ + seq![']', ']'] + comma) + initial(
                        module,
                        var.init,
                    ) + "\n"@
                },
                None => whole == Emission::failure(
                    Fault::MissingBinding { stage, global: handle, mode },
                ),
            }
        }),
{
    let function = entry_point.function;
    lemma_passed(module, function, i);
    words::law_separators();
    let var = module.global_variables@[i];
    let mode = crate::interface::parameter_mode(entry_point.stage, var.class);
    if let Some(binding) = options.binding_of(entry_point.stage, i as GlobalHandle, mode) {
        let separator = crate::keyword::separator_text(!module.is_parameter_after(function, i));
        model::law_decorated(binding, separator);
    }
}

/// What comes before the parameters of an entry point of the render pipeline: the structures of
/// its inputs and of its outputs, and its declaration with the inputs as its first parameter,
/// with a comma if and only if others follow. Of a kernel it is the declaration alone.
pub proof fn law_head(module: Module, entry_point: EntryPoint, options: Options)
    ensures
        ({
            let function = entry_point.function;
            let name = function.name@;
            let whole = module.entry_point_head(entry_point, options);
            let inputs = Emission::all(module.input_texts(entry_point, options));
            let outputs = Emission::all(module.output_texts(entry_point, options));
            let comma = if is_passed_after(module, function, -1) {
                seq![',']
            } else {
                Seq::empty()
            };
            let structures = "struct "@ + name + "Input"@ + " {\n"@ + inputs.text + "};\n"@ + "\n"@
                + "struct "@ + name + "Output"@ + " {\n"@ + outputs.text + "};\n"@ + "\n"@;
            match entry_point.stage {
                ShaderStage::Vertex => {
                    &&& whole.fault == sequence::earlier(inputs.fault, outputs.fault)
                    &&& whole.fault is None ==> whole.text == structures + "vertex"@ + " "@ + name
                        + "Output"@ + " "@ + name + "(\n"@ + "    "@ + name + "Input"@
                        + " input [[stage_in]]"@ + comma + "\n"@
                },
                ShaderStage::Fragment => {
                    &&& whole.fault == sequence::earlier(inputs.fault, outputs.fault)
                    &&& whole.fault is None ==> whole.text == structures + "fragment"@ + " "@ + name
                        + "Output"@ + " "@ + name + "(\n"@ + "    "@ + name + "Input"@
                        + " input [[stage_in]]"@ + comma + "\n"@
                },
                ShaderStage::Compute => whole.fault is None && whole.text == "kernel"@ + " void "@
                    + name + "(\n"@,
            }
        }),
{
    lemma_passed(module, entry_point.function, -1);
    words::law_separators();
}

/// An entry point is written as what comes before its parameters, its parameters, and in curly
/// brackets the structure that it returns, its local variables and its body, in which a `return`
/// without a value returns that structure. A kernel has no such structure. An empty line follows
/// all but the last entry point.
pub proof fn law_entry_point(
    module: Module,
    options: Options,
    index: usize,
    typifier: Typifier,
)
    requires
        index < module.entry_points@.len(),
        module.entry_points@[index as int].function.typing == Ok::<
            Typifier,
            crate::typing::ResolveError,
        >(typifier),
    ensures
        ({
            let entry_point = module.entry_points@[index as int];
            let function = entry_point.function;
            let context = ExpressionContext {
                function: &function,
                origin: FunctionOrigin::EntryPoint(index),
                module: &module,
                typifier: &typifier,
            };
            let whole = module.entry_point_text(options, index);
            let head = module.entry_point_head(entry_point, options);
            let parameters = Emission::all(module.parameter_texts(entry_point, options));
            let locals = Emission::all(module.local_texts(function.local_variables@));
            let is_kernel = entry_point.stage == ShaderStage::Compute;
            let (result, value) = if is_kernel {
                (Seq::empty(), Seq::empty())
            } else {
                ("    "@ + function.name@ + "Output"@ + " output;\n"@, "output"@)
            };
            let body = context.block_text(1, function.body@, value);
            let text = head.text + parameters.text + ") {\n"@ + result + locals.text + body.text
                + "}\n"@;
            &&& whole.fault == sequence::earlier(
                sequence::earlier(head.fault, parameters.fault),
                sequence::earlier(locals.fault, body.fault),
            )
            &&& whole.fault is None && index < module.entry_points@.len() - 1 ==> whole.text == text
                + "\n"@
            &&& whole.fault is None && index == module.entry_points@.len() - 1 ==> whole.text
                == text
        }),
{
    reveal_strlit("");
    assert(""@ =~= Seq::<char>::empty());
    let entry_point = module.entry_points@[index as int];
    let whole = module.entry_point_text(options, index);
    assert(whole.text + Seq::<char>::empty() =~= whole.text);
    let function = entry_point.function;
    let context = module.context(function, FunctionOrigin::EntryPoint(index));
    let text = module.entry_point_head(entry_point, options).text + Emission::all(
        module.parameter_texts(entry_point, options),
    ).text + ") {\n"@ + entry_point.output_local_text().text + Emission::all(
        module.local_texts(function.local_variables@),
    ).text + context.block_text(1, function.body@, entry_point.output_value()).text + "}\n"@;
    assert(text + Seq::<char>::empty() =~= text);
}

} // verus!
