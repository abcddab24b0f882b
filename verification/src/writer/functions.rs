//! Writing functions and entry points.

use super::Writer;
use crate::context::{ExpressionContext, FunctionOrigin};
use crate::emission;
use crate::emission::Emission;
use crate::error::{Error, Stop};
use crate::grammar::function;
use crate::grammar::statement;
use crate::interface;
use crate::ir::{
    ConstantHandle, EntryPoint, Function, FunctionArgument, FunctionHandle, GlobalHandle, GlobalUse,
    LocalVariable, Module, ShaderStage, StorageClass, TypeInner,
};
use crate::keyword;
use crate::keyword::Level;
use crate::options::{LocationMode, Options, ResolvedBinding, TranslationInfo};
use vstd::prelude::*;

verus! {

broadcast use crate::emission::group_made;

/// A global variable as an entry point declares it.
struct TypedGlobalVariable<'a> {
    module: &'a Module,
    handle: GlobalHandle,
    usage: GlobalUse,
}

impl<'a> TypedGlobalVariable<'a> {
    /// Appends the declaration, without a binding.
    fn try_fmt(&self, out: &mut Writer) -> (outcome: Result<(), Stop>)
        requires
            self.handle < self.module.global_variables@.len(),
        ensures
            self.module.global_declaration(self.handle, self.usage).made(
                old(out)@,
                final(out)@,
                outcome,
            ),
    {
        let var = &self.module.global_variables[self.handle];
        if var.ty >= self.module.types.len() {
            return out.miss();
        }
        let ty = &self.module.types[var.ty];
        let is_struct = match &ty.inner {
            TypeInner::Struct { .. } => true,
            _ => false,
        };
        let is_buffer = is_struct && (var.class == StorageClass::Uniform || var.class
            == StorageClass::Storage);
        let (space_qualifier, reference) = if !is_buffer {
            ("", "")
        } else if self.usage.write {
            ("device ", "&")
        } else {
            ("constant ", "&")
        };
        out.put(space_qualifier);
        out.put(ty.name.as_str());
        out.put(reference);
        out.put(" ");
        out.put(var.name.as_str());
        Ok(())
    }
}

/// Finds the last parameter of an entry point with body `function`.
fn find_last_parameter(module: &Module, function: &Function) -> (last: Option<GlobalHandle>)
    ensures
        match last {
            Some(handle) => module.is_parameter_of(*function, handle as int)
                && !module.is_parameter_after(*function, handle as int),
            None => !module.is_parameter_after(*function, -1),
        },
{
    let mut last: Option<GlobalHandle> = None;
    let count = module.count_usage(function);
    let mut i: usize = 0;
    while i < count
        invariant
            i <= count,
            count == module.usage_count(*function),
            last matches Some(handle) ==> handle < i && module.is_parameter_of(
                *function,
                handle as int,
            ),
            forall|j: int| #[trigger]
                module.is_parameter_of(*function, j) && j < i ==> (last matches Some(handle) && j
                    <= handle),
        decreases count - i,
    {
        if module.global_variables[i].is_entry_parameter(function.global_usage[i]) {
            last = Some(i);
        }
        i = i + 1;
    }
    last
}

/// Collects the names of the entry points.
pub(super) fn collect_names(module: &Module) -> (info: TranslationInfo)
    ensures
        info.names() == module.entry_point_names(),
{
    let mut entry_point_names: Vec<String> = Vec::new();
    let mut i: usize = 0;
    while i < module.entry_points.len()
        invariant
            i <= module.entry_points@.len(),
            entry_point_names@.len() == i,
            forall|j: int|
                0 <= j < i ==> (#[trigger] entry_point_names@[j])@
                    == module.entry_points@[j].function.name@,
        decreases module.entry_points@.len() - i,
    {
        entry_point_names.push(module.entry_points[i].function.name.clone());
        i = i + 1;
    }
    let info = TranslationInfo { entry_point_names };
    assert(info.names() =~= module.entry_point_names());
    info
}

impl Writer {
    /// Appends the functions and then the entry points.
    pub(super) fn write_functions(&mut self, module: &Module, options: &Options) -> (outcome:
        Result<(), Stop>)
        ensures
            module.functions_text(*options).made(old(self)@, final(self)@, outcome),
    {
        self.put_functions(module)?;
        self.put_entry_points(module, options)
    }

    /// Appends the functions.
    fn put_functions(&mut self, module: &Module) -> (outcome: Result<(), Stop>)
        ensures
            Emission::all(module.function_texts()).made(old(self)@, final(self)@, outcome),
    {
        let ghost steps = module.function_texts();
        proof {
            emission::lemma_made_none(steps, self@);
        }
        let mut i: usize = 0;
        while i < module.functions.len()
            invariant
                i <= module.functions@.len(),
                steps == module.function_texts(),
                Emission::all(steps.take(i as int)).made(old(self)@, self@, Ok(())),
            decreases module.functions@.len() - i,
        {
            proof {
                emission::lemma_all_at(steps, i as int);
            }
            self.put_function(i, module)?;
            i = i + 1;
        }
        assert(steps.take(i as int) =~= steps);
        Ok(())
    }

    /// Appends a function.
    fn put_function(&mut self, handle: FunctionHandle, module: &Module) -> (outcome: Result<
        (),
        Stop,
    >)
        requires
            handle < module.functions@.len(),
        ensures
            module.function_text(handle).made(old(self)@, final(self)@, outcome),
    {
        let fun = &module.functions[handle];
        let typifier = match &fun.typing {
            Ok(typifier) => typifier,
            Err(error) => {
                return self.fail(Error::Type(*error));
            },
        };
        self.put_result(fun, module)?;
        self.put(" ");
        self.put(fun.name.as_str());
        self.put("(\n");
        self.put_declarations(&fun.arguments, module)?;
        self.put(") {\n");
        self.put_locals(&fun.local_variables, module)?;
        let context = ExpressionContext {
            function: fun,
            origin: FunctionOrigin::Handle(handle),
            module,
            typifier,
        };
        self.put_block(Level(1), &fun.body, &context, None)?;
        self.put("}\n");
        self.put("\n");
        Ok(())
    }

    /// Appends the name of what a function returns.
    fn put_result(&mut self, fun: &Function, module: &Module) -> (outcome: Result<(), Stop>)
        ensures
            module.result_text(*fun).made(old(self)@, final(self)@, outcome),
    {
        match fun.return_type {
            Some(ty) => self.put_type(ty, module),
            None => {
                self.put("void");
                Ok(())
            },
        }
    }

    /// Appends the lines that declare the arguments of a function.
    fn put_declarations(&mut self, arguments: &Vec<FunctionArgument>, module: &Module) -> (outcome:
        Result<(), Stop>)
        ensures
            Emission::all(module.argument_texts(arguments@)).made(
                old(self)@,
                final(self)@,
                outcome,
            ),
    {
        let ghost steps = module.argument_texts(arguments@);
        proof {
            emission::lemma_made_none(steps, self@);
        }
        let mut i: usize = 0;
        while i < arguments.len()
            invariant
                i <= arguments@.len(),
                steps == module.argument_texts(arguments@),
                Emission::all(steps.take(i as int)).made(old(self)@, self@, Ok(())),
            decreases arguments@.len() - i,
        {
            proof {
                emission::lemma_all_at(steps, i as int);
            }
            let argument = &arguments[i];
            self.put("    ");
            self.put_type(argument.ty, module)?;
            self.put(" ");
            self.put(argument.name.as_str());
            self.put(keyword::separate(i + 1 == arguments.len()));
            self.put("\n");
            i = i + 1;
        }
        assert(steps.take(i as int) =~= steps);
        Ok(())
    }

    /// Appends the lines that declare local variables.
    fn put_locals(&mut self, locals: &Vec<LocalVariable>, module: &Module) -> (outcome: Result<
        (),
        Stop,
    >)
        ensures
            Emission::all(module.local_texts(locals@)).made(old(self)@, final(self)@, outcome),
    {
        let ghost steps = module.local_texts(locals@);
        proof {
            emission::lemma_made_none(steps, self@);
        }
        let mut i: usize = 0;
        while i < locals.len()
            invariant
                i <= locals@.len(),
                steps == module.local_texts(locals@),
                Emission::all(steps.take(i as int)).made(old(self)@, self@, Ok(())),
            decreases locals@.len() - i,
        {
            proof {
                emission::lemma_all_at(steps, i as int);
            }
            let local = &locals[i];
            self.put("    ");
            self.put_type(local.ty, module)?;
            self.put(" ");
            self.put(local.name.as_str());
            self.put_initial(local.init, module)?;
            self.put(";\n");
            i = i + 1;
        }
        assert(steps.take(i as int) =~= steps);
        Ok(())
    }

    /// Appends an initial value, if there is one.
    fn put_initial(&mut self, init: Option<ConstantHandle>, module: &Module) -> (outcome: Result<
        (),
        Stop,
    >)
        ensures
            module.initial_text(init).made(old(self)@, final(self)@, outcome),
    {
        proof {
            emission::lemma_made_none(Seq::empty(), self@);
        }
        if let Some(constant) = init {
            self.put(" = ");
            self.put_constant(constant, module)?;
        }
        Ok(())
    }

    /// Appends the entry points.
    fn put_entry_points(&mut self, module: &Module, options: &Options) -> (outcome: Result<
        (),
        Stop,
    >)
        ensures
            Emission::all(module.entry_point_texts(*options)).made(
                old(self)@,
                final(self)@,
                outcome,
            ),
    {
        let ghost steps = module.entry_point_texts(*options);
        proof {
            emission::lemma_made_none(steps, self@);
        }
        let mut i: usize = 0;
        while i < module.entry_points.len()
            invariant
                i <= module.entry_points@.len(),
                steps == module.entry_point_texts(*options),
                Emission::all(steps.take(i as int)).made(old(self)@, self@, Ok(())),
            decreases module.entry_points@.len() - i,
        {
            proof {
                emission::lemma_all_at(steps, i as int);
            }
            self.put_entry_point(i, module, options)?;
            i = i + 1;
        }
        assert(steps.take(i as int) =~= steps);
        Ok(())
    }

    /// Appends an entry point.
    fn put_entry_point(&mut self, index: usize, module: &Module, options: &Options) -> (outcome:
        Result<(), Stop>)
        requires
            index < module.entry_points@.len(),
        ensures
            module.entry_point_text(*options, index).made(old(self)@, final(self)@, outcome),
    {
        let entry_point = &module.entry_points[index];
        let fun = &entry_point.function;
        let typifier = match &fun.typing {
            Ok(typifier) => typifier,
            Err(error) => {
                return self.fail(Error::Type(*error));
            },
        };
        let last_parameter = find_last_parameter(module, fun);
        self.put_head(entry_point, last_parameter, module, options)?;
        self.put_parameters(entry_point, last_parameter, module, options)?;
        self.put(") {\n");
        let return_value = self.put_output_local(entry_point);
        self.put_locals(&fun.local_variables, module)?;
        let context = ExpressionContext {
            function: fun,
            origin: FunctionOrigin::EntryPoint(index),
            module,
            typifier,
        };
        self.put_block(Level(1), &fun.body, &context, return_value)?;
        self.put("}\n");
        proof {
            emission::lemma_made_none(Seq::empty(), self@);
        }
        let is_last = index == module.entry_points.len() - 1;
        if !is_last {
            self.put("\n");
        }
        Ok(())
    }

    /// Appends what comes before the parameters of an entry point.
    fn put_head(
        &mut self,
        entry_point: &EntryPoint,
        last_parameter: Option<GlobalHandle>,
        module: &Module,
        options: &Options,
    ) -> (outcome: Result<(), Stop>)
        requires
            last_parameter is None <==> !module.is_parameter_after(entry_point.function, -1),
        ensures
            module.entry_point_head(*entry_point, *options).made(old(self)@, final(self)@, outcome),
    {
        let name = entry_point.function.name.as_str();
        let (stage_word, input_mode, output_mode) = interface::stage_words(entry_point.stage);
        match entry_point.stage {
            ShaderStage::Vertex | ShaderStage::Fragment => {
                self.put("struct ");
                self.put(name);
                self.put("Input");
                self.put(" {\n");
                self.put_inputs(entry_point, input_mode, module, options)?;
                self.put("};\n");
                self.put("\n");
                self.put("struct ");
                self.put(name);
                self.put("Output");
                self.put(" {\n");
                self.put_outputs(entry_point, output_mode, module, options)?;
                self.put("};\n");
                self.put("\n");
                self.put(stage_word);
                self.put(" ");
                self.put(name);
                self.put("Output");
                self.put(" ");
                self.put(name);
                self.put("(\n");
                self.put("    ");
                self.put(name);
                self.put("Input");
                self.put(" input [[stage_in]]");
                self.put(keyword::separate(last_parameter.is_none()));
                self.put("\n");
            },
            ShaderStage::Compute => {
                self.put(stage_word);
                self.put(" void ");
                self.put(name);
                self.put("(\n");
            },
        }
        Ok(())
    }

    /// Appends the declaration of a global variable in a structure.
    fn put_member(
        &mut self,
        handle: GlobalHandle,
        stage: ShaderStage,
        mode: LocationMode,
        module: &Module,
        options: &Options,
    ) -> (outcome: Result<(), Stop>)
        requires
            handle < module.global_variables@.len(),
        ensures
            module.interface_text(*options, stage, handle, mode).made(
                old(self)@,
                final(self)@,
                outcome,
            ),
    {
        let tyvar = TypedGlobalVariable { module, handle, usage: GlobalUse::empty() };
        self.put("    ");
        tyvar.try_fmt(self)?;
        self.put_binding(handle, stage, mode, ";", options)?;
        self.put("\n");
        Ok(())
    }

    /// Appends the binding of a global variable.
    fn put_binding(
        &mut self,
        handle: GlobalHandle,
        stage: ShaderStage,
        mode: LocationMode,
        terminator: &str,
        options: &Options,
    ) -> (outcome: Result<(), Stop>)
        ensures
            function::binding_text(*options, stage, handle, mode, terminator@).made(
                old(self)@,
                final(self)@,
                outcome,
            ),
    {
        match options.resolve_binding(stage, handle, mode) {
            Ok(resolved) => {
                self.put_decorated(resolved, terminator);
                Ok(())
            },
            Err(error) => self.fail(error),
        }
    }

    /// Appends a binding as it decorates a declaration.
    fn put_decorated(&mut self, resolved: &ResolvedBinding, terminator: &str)
        ensures
            Emission::text(resolved.decorated(terminator@)).made(old(self)@, final(self)@, Ok(())),
    {
        proof {
            reveal(Emission::made);
        }
        resolved.try_fmt_decorated(&mut self.out, terminator);
    }

    /// Appends the lines of the structure of inputs of an entry point.
    fn put_inputs(
        &mut self,
        entry_point: &EntryPoint,
        mode: LocationMode,
        module: &Module,
        options: &Options,
    ) -> (outcome: Result<(), Stop>)
        requires
            mode == interface::input_mode(entry_point.stage),
        ensures
            Emission::all(module.input_texts(*entry_point, *options)).made(
                old(self)@,
                final(self)@,
                outcome,
            ),
    {
        let ghost steps = module.input_texts(*entry_point, *options);
        proof {
            emission::lemma_made_none(steps, self@);
        }
        let fun = &entry_point.function;
        let count = module.count_usage(fun);
        let mut i: usize = 0;
        while i < count
            invariant
                i <= count,
                *fun == entry_point.function,
                count == module.usage_count(*fun),
                mode == interface::input_mode(entry_point.stage),
                steps == module.input_texts(*entry_point, *options),
                Emission::all(steps.take(i as int)).made(old(self)@, self@, Ok(())),
            decreases count - i,
        {
            proof {
                emission::lemma_all_at(steps, i as int);
                emission::lemma_made_none(Seq::empty(), self@);
            }
            if module.global_variables[i].is_input_member(fun.global_usage[i]) {
                self.put_member(i, entry_point.stage, mode, module, options)?;
            }
            i = i + 1;
        }
        assert(steps.take(i as int) =~= steps);
        Ok(())
    }

    /// Appends the lines of the structure of outputs of an entry point.
    fn put_outputs(
        &mut self,
        entry_point: &EntryPoint,
        mode: LocationMode,
        module: &Module,
        options: &Options,
    ) -> (outcome: Result<(), Stop>)
        requires
            mode == interface::output_mode(entry_point.stage),
        ensures
            Emission::all(module.output_texts(*entry_point, *options)).made(
                old(self)@,
                final(self)@,
                outcome,
            ),
    {
        let ghost steps = module.output_texts(*entry_point, *options);
        proof {
            emission::lemma_made_none(steps, self@);
        }
        let fun = &entry_point.function;
        let count = module.count_usage(fun);
        let mut i: usize = 0;
        while i < count
            invariant
                i <= count,
                *fun == entry_point.function,
                count == module.usage_count(*fun),
                mode == interface::output_mode(entry_point.stage),
                steps == module.output_texts(*entry_point, *options),
                Emission::all(steps.take(i as int)).made(old(self)@, self@, Ok(())),
            decreases count - i,
        {
            proof {
                emission::lemma_all_at(steps, i as int);
                emission::lemma_made_none(Seq::empty(), self@);
            }
            if module.global_variables[i].is_output_member(fun.global_usage[i]) {
                self.put_member(i, entry_point.stage, mode, module, options)?;
            }
            i = i + 1;
        }
        assert(steps.take(i as int) =~= steps);
        Ok(())
    }

    /// Appends the lines that declare the parameters of an entry point.
    fn put_parameters(
        &mut self,
        entry_point: &EntryPoint,
        last_parameter: Option<GlobalHandle>,
        module: &Module,
        options: &Options,
    ) -> (outcome: Result<(), Stop>)
        requires
            match last_parameter {
                Some(handle) => module.is_parameter_of(entry_point.function, handle as int)
                    && !module.is_parameter_after(entry_point.function, handle as int),
                None => !module.is_parameter_after(entry_point.function, -1),
            },
        ensures
            Emission::all(module.parameter_texts(*entry_point, *options)).made(
                old(self)@,
                final(self)@,
                outcome,
            ),
    {
        let ghost steps = module.parameter_texts(*entry_point, *options);
        proof {
            emission::lemma_made_none(steps, self@);
        }
        let fun = &entry_point.function;
        let count = module.count_usage(fun);
        let mut i: usize = 0;
        while i < count
            invariant
                i <= count,
                *fun == entry_point.function,
                count == module.usage_count(*fun),
                match last_parameter {
                    Some(handle) => module.is_parameter_of(*fun, handle as int)
                        && !module.is_parameter_after(*fun, handle as int),
                    None => !module.is_parameter_after(*fun, -1),
                },
                steps == module.parameter_texts(*entry_point, *options),
                Emission::all(steps.take(i as int)).made(old(self)@, self@, Ok(())),
            decreases count - i,
        {
            proof {
                emission::lemma_all_at(steps, i as int);
                emission::lemma_made_none(Seq::empty(), self@);
            }
            if module.global_variables[i].is_entry_parameter(fun.global_usage[i]) {
                assert(module.is_parameter_of(*fun, i as int));
                let is_last = last_parameter == Some(i);
                self.put_parameter(i, is_last, entry_point, module, options)?;
            }
            i = i + 1;
        }
        assert(steps.take(i as int) =~= steps);
        Ok(())
    }

    /// Appends the line that declares a parameter of an entry point.
    fn put_parameter(
        &mut self,
        handle: GlobalHandle,
        is_last: bool,
        entry_point: &EntryPoint,
        module: &Module,
        options: &Options,
    ) -> (outcome: Result<(), Stop>)
        requires
            module.is_parameter_of(entry_point.function, handle as int),
            is_last == !module.is_parameter_after(entry_point.function, handle as int),
        ensures
            module.parameter_text(*entry_point, *options, handle as int).made(
                old(self)@,
                final(self)@,
                outcome,
            ),
    {
        let var = &module.global_variables[handle];
        let usage = entry_point.function.global_usage[handle];
        let mode = interface::find_parameter_mode(entry_point.stage, var.class);
        let resolved = match options.resolve_binding(entry_point.stage, handle, mode) {
            Ok(resolved) => resolved,
            Err(error) => {
                return self.fail(error);
            },
        };
        let tyvar = TypedGlobalVariable { module, handle, usage };
        self.put("    ");
        tyvar.try_fmt(self)?;
        self.put_decorated(resolved, keyword::separate(is_last));
        self.put_initial(var.init, module)?;
        self.put("\n");
        Ok(())
    }

    /// Appends the declaration of the structure that a stage of the render pipeline returns, and
    /// gives its name.
    fn put_output_local(&mut self, entry_point: &EntryPoint) -> (name: Option<
        &'static str,
    >)
        ensures
            entry_point.output_local_text().made(old(self)@, final(self)@, Ok(())),
            statement::implied_value(name) == entry_point.output_value(),
    {
        proof {
            emission::lemma_made_none(Seq::empty(), self@);
        }
        match entry_point.stage {
            ShaderStage::Vertex | ShaderStage::Fragment => {
                self.put("    ");
                self.put(entry_point.function.name.as_str());
                self.put("Output");
                self.put(" output;\n");
                Some("output")
            },
            ShaderStage::Compute => None,
        }
    }
}

} // verus!
