//! The text of functions, of entry points and of the whole module.

use crate::context::{ExpressionContext, FunctionOrigin};
use crate::emission::Emission;
use crate::error::Fault;
use crate::interface;
use crate::ir::{
    ConstantHandle, EntryPoint, Function, FunctionArgument, FunctionHandle, GlobalHandle, GlobalUse,
    LocalVariable, Module, ShaderStage, StorageClass,
};
use crate::keyword;
use crate::options::{LocationMode, Options, TranslationInfo};
use vstd::prelude::*;

verus! {

impl EntryPoint {
    /// The declaration of the structure that a stage of the render pipeline returns.
    pub open spec fn output_local_text(self) -> Emission {
        match self.stage {
            ShaderStage::Vertex | ShaderStage::Fragment => Emission::text("    "@).put(
                self.function.name@,
            ).put("Output"@).put(" output;\n"@),
            ShaderStage::Compute => Emission::nothing(),
        }
    }

    /// What is returned where the body does not say.
    pub open spec fn output_value(self) -> Seq<char> {
        match self.stage {
            ShaderStage::Vertex | ShaderStage::Fragment => "output"@,
            ShaderStage::Compute => ""@,
        }
    }
}

/// The binding of a variable in a stage and role, with what ends the declaration.
pub open spec fn binding_text(
    options: Options,
    stage: ShaderStage,
    global: GlobalHandle,
    mode: LocationMode,
    terminator: Seq<char>,
) -> Emission {
    match options.binding_of(stage, global, mode) {
        Some(binding) => Emission::text(binding.decorated(terminator)),
        None => Emission::failure(Fault::MissingBinding { stage, global, mode }),
    }
}

impl Module {
    /// The initial value of a variable, if it has one.
    pub open spec fn initial_text(self, init: Option<ConstantHandle>) -> Emission {
        match init {
            Some(constant) => Emission::text(" = "@).and(self.constant_text(constant)),
            None => Emission::nothing(),
        }
    }

    /// The line that declares a local variable.
    pub open spec fn local_text(self, local: LocalVariable) -> Emission {
        Emission::text("    "@).and(self.type_text(local.ty)).put(" "@).put(local.name@).and(
            self.initial_text(local.init),
        ).put(";\n"@)
    }

    /// The lines that declare local variables.
    pub open spec fn local_texts(self, locals: Seq<LocalVariable>) -> Seq<Emission> {
        Seq::new(locals.len(), |i: int| self.local_text(locals[i]))
    }

    /// The line that declares an argument of a function.
    pub open spec fn argument_text(self, argument: FunctionArgument, is_last: bool) -> Emission {
        Emission::text("    "@).and(self.type_text(argument.ty)).put(" "@).put(
            argument.name@,
        ).put(keyword::separator_text(is_last)).put("\n"@)
    }

    /// The lines that declare the arguments of a function.
    pub open spec fn argument_texts(self, arguments: Seq<FunctionArgument>) -> Seq<Emission> {
        Seq::new(
            arguments.len(),
            |i: int| self.argument_text(arguments[i], i + 1 == arguments.len()),
        )
    }

    /// The name of what a function returns.
    pub open spec fn result_text(self, function: Function) -> Emission {
        match function.return_type {
            Some(ty) => self.type_text(ty),
            None => Emission::text("void"@),
        }
    }

    /// Where the expressions of `function` stand.
    pub open spec fn context(self, function: Function, origin: FunctionOrigin) -> ExpressionContext<
        'static,
    > {
        ExpressionContext {
            function: &function,
            origin,
            module: &self,
            typifier: &function.typing->Ok_0,
        }
    }

    /// The text of function `handle`.
    pub open spec fn function_text(self, handle: FunctionHandle) -> Emission {
        let function = self.functions@[handle as int];
        match function.typing {
            Err(error) => Emission::failure(Fault::Type(error)),
            Ok(_) => self.result_text(function).put(" "@).put(function.name@).put(
                "(\n"@,
            ).and(Emission::all(self.argument_texts(function.arguments@))).put(") {\n"@).and(
                Emission::all(self.local_texts(function.local_variables@)),
            ).and(
                self.context(function, FunctionOrigin::Handle(handle)).block_text(
                    1,
                    function.body@,
                    ""@,
                ),
            ).put("}\n"@).put("\n"@),
        }
    }

    /// The text of each function.
    pub open spec fn function_texts(self) -> Seq<Emission> {
        Seq::new(self.functions@.len(), |i: int| self.function_text(i as FunctionHandle))
    }

    /// The declaration of a global variable, without its binding: a structure in a buffer is a
    /// reference, in memory that can be written only where the variable is.
    pub open spec fn global_declaration(self, handle: GlobalHandle, usage: GlobalUse) -> Emission {
        let var = self.global_variables@[handle as int];
        let is_buffer = self.types@[var.ty as int].inner is Struct && (var.class
            == StorageClass::Uniform || var.class == StorageClass::Storage);
        let space = if !is_buffer {
            ""@
        } else if usage.write {
            "device "@
        } else {
            "constant "@
        };
        let reference = if is_buffer {
            "&"@
        } else {
            ""@
        };
        if var.ty < self.types@.len() {
            Emission::text(space).put(self.types@[var.ty as int].name@).put(reference).put(
                " "@,
            ).put(var.name@)
        } else {
            Emission::undefined()
        }
    }

    /// The line that declares a global variable in a structure of inputs or outputs.
    pub open spec fn interface_text(
        self,
        options: Options,
        stage: ShaderStage,
        handle: GlobalHandle,
        mode: LocationMode,
    ) -> Emission {
        Emission::text("    "@).and(
            self.global_declaration(handle, GlobalUse { read: false, write: false }),
        ).and(binding_text(options, stage, handle, mode, ";"@)).put("\n"@)
    }

    /// The line for global variable `i` in the structure of inputs of an entry point, if it has
    /// one there.
    pub open spec fn input_text(
        self,
        entry_point: EntryPoint,
        options: Options,
        i: int,
    ) -> Emission {
        let usage = entry_point.function.global_usage@[i];
        if self.global_variables@[i].is_listed_input(usage) {
            self.interface_text(
                options,
                entry_point.stage,
                i as GlobalHandle,
                interface::input_mode(entry_point.stage),
            )
        } else {
            Emission::nothing()
        }
    }

    /// The lines of the structure of inputs of an entry point.
    pub open spec fn input_texts(self, entry_point: EntryPoint, options: Options) -> Seq<Emission> {
        Seq::new(
            self.usage_count(entry_point.function),
            |i: int| self.input_text(entry_point, options, i),
        )
    }

    /// The line for global variable `i` in the structure of outputs of an entry point, if it has
    /// one there.
    pub open spec fn output_text(
        self,
        entry_point: EntryPoint,
        options: Options,
        i: int,
    ) -> Emission {
        let usage = entry_point.function.global_usage@[i];
        if self.global_variables@[i].is_listed_output(usage) {
            self.interface_text(
                options,
                entry_point.stage,
                i as GlobalHandle,
                interface::output_mode(entry_point.stage),
            )
        } else {
            Emission::nothing()
        }
    }

    /// The lines of the structure of outputs of an entry point.
    pub open spec fn output_texts(
        self,
        entry_point: EntryPoint,
        options: Options,
    ) -> Seq<Emission> {
        Seq::new(
            self.usage_count(entry_point.function),
            |i: int| self.output_text(entry_point, options, i),
        )
    }

    /// The line that declares global variable `i` as a parameter of an entry point, if it is
    /// one. A comma follows all but the last.
    pub open spec fn parameter_text(
        self,
        entry_point: EntryPoint,
        options: Options,
        i: int,
    ) -> Emission {
        let function = entry_point.function;
        let var = self.global_variables@[i];
        let mode = interface::parameter_mode(entry_point.stage, var.class);
        if self.is_parameter_of(function, i) {
            match options.binding_of(entry_point.stage, i as GlobalHandle, mode) {
                Some(binding) => Emission::text("    "@).and(
                    self.global_declaration(i as GlobalHandle, function.global_usage@[i]),
                ).put(
                    binding.decorated(
                        keyword::separator_text(!self.is_parameter_after(function, i)),
                    ),
                ).and(self.initial_text(var.init)).put("\n"@),
                None => Emission::failure(
                    Fault::MissingBinding {
                        stage: entry_point.stage,
                        global: i as GlobalHandle,
                        mode,
                    },
                ),
            }
        } else {
            Emission::nothing()
        }
    }

    /// The lines that declare the parameters of an entry point.
    pub open spec fn parameter_texts(
        self,
        entry_point: EntryPoint,
        options: Options,
    ) -> Seq<Emission> {
        Seq::new(
            self.usage_count(entry_point.function),
            |i: int| self.parameter_text(entry_point, options, i),
        )
    }

    /// What comes before the parameters of an entry point: for a stage of the render pipeline,
    /// the structures of its inputs and outputs, and the first of them as a parameter.
    pub open spec fn entry_point_head(self, entry_point: EntryPoint, options: Options) -> Emission {
        let function = entry_point.function;
        let name = function.name@;
        match entry_point.stage {
            ShaderStage::Vertex | ShaderStage::Fragment => Emission::text("struct "@).put(name).put(
                "Input"@,
            ).put(" {\n"@).and(Emission::all(self.input_texts(entry_point, options))).put(
                "};\n"@,
            ).put("\n"@).put("struct "@).put(name).put("Output"@).put(" {\n"@).and(
                Emission::all(self.output_texts(entry_point, options)),
            ).put("};\n"@).put("\n"@).put(interface::stage_text(entry_point.stage)).put(" "@).put(
                name,
            ).put("Output"@).put(" "@).put(name).put("(\n"@).put("    "@).put(name).put("Input"@).put(
                " input [[stage_in]]"@,
            ).put(keyword::separator_text(!self.is_parameter_after(function, -1))).put("\n"@),
            ShaderStage::Compute => Emission::text(interface::stage_text(entry_point.stage)).put(
                " void "@,
            ).put(name).put("(\n"@),
        }
    }

    /// The text of entry point `index`. An empty line follows all but the last.
    pub open spec fn entry_point_text(self, options: Options, index: usize) -> Emission {
        let entry_point = self.entry_points@[index as int];
        let function = entry_point.function;
        match function.typing {
            Err(error) => Emission::failure(Fault::Type(error)),
            Ok(_) => self.entry_point_head(entry_point, options).and(
                Emission::all(self.parameter_texts(entry_point, options)),
            ).put(") {\n"@).and(entry_point.output_local_text()).and(
                Emission::all(self.local_texts(function.local_variables@)),
            ).and(
                self.context(function, FunctionOrigin::EntryPoint(index)).block_text(
                    1,
                    function.body@,
                    entry_point.output_value(),
                ),
            ).put("}\n"@).and(
                if index + 1 == self.entry_points@.len() {
                    Emission::nothing()
                } else {
                    Emission::text("\n"@)
                },
            ),
        }
    }

    /// The text of each entry point.
    pub open spec fn entry_point_texts(self, options: Options) -> Seq<Emission> {
        Seq::new(self.entry_points@.len(), |i: int| self.entry_point_text(options, i as usize))
    }

    /// The functions and then the entry points, in order.
    pub open spec fn functions_text(self, options: Options) -> Emission {
        Emission::all(self.function_texts()).and(Emission::all(self.entry_point_texts(options)))
    }

    /// The names of the entry points.
    pub open spec fn entry_point_names(self) -> Seq<Seq<char>> {
        Seq::new(self.entry_points@.len(), |i: int| self.entry_points@[i].function.name@)
    }

    /// The text of the module.
    pub open spec fn module_text(self, options: Options) -> Emission {
        Emission::text("#include <metal_stdlib>\n"@).put("#include <simd/simd.h>\n"@).put(
            "\n"@,
        ).and(self.type_defs_text()).and(self.functions_text(options))
    }

    /// Whether all that the text of the module comes to exists, none of it being part of itself.
    /// Where writing fails, what would have come after the failure does not matter.
    pub open spec fn is_writable(self, options: Options) -> bool {
        self.module_text(options).is_defined()
    }
}

impl TranslationInfo {
    /// The names of the entry points.
    pub open spec fn names(self) -> Seq<Seq<char>> {
        Seq::new(
            self.entry_point_names@.len(),
            |i: int| self.entry_point_names@[i]@,
        )
    }
}

} // verus!
