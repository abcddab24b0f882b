//! The brackets of types, functions, entry points and modules.

use crate::context::FunctionOrigin;
use crate::emission::Emission;
use crate::grammar::function;
use crate::grammar::type_def;
use crate::interface;
use crate::ir::{
    ArraySize, ConstantHandle, EntryPoint, FunctionArgument, FunctionHandle, GlobalHandle,
    GlobalUse, ImageClass, ImageDimension, LocalVariable, Module, ScalarKind, ShaderStage,
    StructMember, TypeHandle, TypeInner,
};
use crate::keyword;
use crate::laws::nesting;
use crate::laws::nesting::words;
use crate::options::{LocationMode, Options};
use vstd::prelude::*;

verus! {

broadcast use {
    crate::laws::nesting::group_opens,
    crate::laws::nesting::words::group_words,
};

proof fn lemma_texture(
    family: Seq<char>,
    dim: ImageDimension,
    multi: Seq<char>,
    arrayed: bool,
    kind: ScalarKind,
    access: Seq<char>,
)
    requires
        nesting::is_nested(family),
        nesting::is_nested(multi),
        nesting::is_nested(access),
    ensures
        type_def::texture_text(family, dim, multi, arrayed, kind, access).is_nested(),
{
    words::lemma_words();
    let whole = type_def::texture_text(family, dim, multi, arrayed, kind, access);
    assert forall|open: Seq<char>| #[trigger] whole.opens(open, open) by {
        assert(Emission::text("metal::"@).opens(open, open));
    }
}

impl Module {
    proof fn lemma_nested_members(self, members: Seq<StructMember>)
        requires
            self.has_nested_names(),
            forall|i: int|
                0 <= i < members.len() ==> nesting::is_nested((#[trigger] members[i]).name@),
        ensures
            Emission::all(self.member_texts(members)).is_nested(),
    {
        words::lemma_words();
        let steps = self.member_texts(members);
        assert forall|i: int| 0 <= i < steps.len() implies (#[trigger] steps[i]).is_nested() by {
            assert(nesting::is_nested(members[i].name@));
            self.lemma_nested_type(members[i].ty);
            assert forall|open: Seq<char>| #[trigger] steps[i].opens(open, open) by {
                assert(Emission::text("    "@).opens(open, open));
            }
        }
        nesting::lemma_opens_all(steps);
    }

    proof fn lemma_nested_image(
        self,
        handle: TypeHandle,
        dim: ImageDimension,
        arrayed: bool,
        class: ImageClass,
    )
        ensures
            self.image_text(handle, dim, arrayed, class).is_nested(),
    {
        words::lemma_words();
        let whole = self.image_text(handle, dim, arrayed, class);
        match class {
            ImageClass::Sampled { kind, multi } => {
                lemma_texture(
                    "texture"@,
                    dim,
                    if multi {
                        "_ms"@
                    } else {
                        ""@
                    },
                    arrayed,
                    kind,
                    "sample"@,
                );
            },
            ImageClass::Depth => {
                lemma_texture("depth"@, dim, ""@, arrayed, ScalarKind::Float, "sample"@);
            },
            ImageClass::Storage(kind) => if exists|global: int|
                self.is_first_global_of(handle, global) {
                let access = self.global_variables@[self.first_global_of(handle)].storage_access;
                match keyword::access_text(access) {
                    Some(name) => {
                        lemma_texture("texture"@, dim, ""@, arrayed, kind, name);
                    },
                    None => {
                        nesting::lemma_failure(whole);
                    },
                }
            } else {
                nesting::lemma_failure(whole);
            },
        }
        if whole.fault is None {
            assert forall|open: Seq<char>| #[trigger] whole.opens(open, open) by {
                assert(Emission::text("typedef "@).opens(open, open));
            }
        }
    }

    proof fn lemma_nested_type_def(self, handle: TypeHandle)
        requires
            self.has_nested_names(),
            handle < self.types@.len(),
        ensures
            self.type_def_text(handle).is_nested(),
    {
        words::lemma_words();
        let ty = self.types@[handle as int];
        assert(nesting::is_nested(ty.name@));
        match ty.inner {
            TypeInner::Pointer { base, .. } => {
                if base < self.types@.len() {
                    assert(nesting::is_nested(self.types@[base as int].name@));
                } else {
                    nesting::lemma_failure(self.type_def_text(handle));
                    return;
                }
            },
            TypeInner::Array { base, size, .. } => {
                self.lemma_nested_type(base);
                if let ArraySize::Constant(constant) = size {
                    self.lemma_nested_constant(constant);
                }
            },
            TypeInner::Struct { members, .. } => {
                self.lemma_nested_members(members@);
            },
            TypeInner::Image { dim, arrayed, class } => {
                self.lemma_nested_image(handle, dim, arrayed, class);
            },
            _ => {},
        }
        assert forall|open: Seq<char>| #[trigger]
            self.type_def_text(handle).opens(open, open) by {
            nesting::lemma_brackets(open);
            assert(Emission::text("typedef "@).opens(open, open));
            assert(Emission::text("typedef metal::"@).opens(open, open));
            assert(Emission::text("typedef metal::sampler "@).opens(open, open));
            assert(Emission::text("struct "@).opens(open, open));
            assert(Emission::nothing().opens(open, open));
            if let TypeInner::Image { dim, arrayed, class } = ty.inner {
                assert(self.image_text(handle, dim, arrayed, class).opens(open, open));
            }
        }
    }

    proof fn lemma_nested_type_defs(self)
        requires
            self.has_nested_names(),
        ensures
            self.type_defs_text().is_nested(),
    {
        let steps = self.type_def_list();
        assert forall|i: int| 0 <= i < steps.len() implies (#[trigger] steps[i]).is_nested() by {
            assert(i < self.types.len());
            self.lemma_nested_type_def(i as TypeHandle);
        }
        nesting::lemma_opens_all(steps);
    }

    proof fn lemma_nested_initial(self, init: Option<ConstantHandle>)
        requires
            self.has_nested_names(),
        ensures
            self.initial_text(init).is_nested(),
    {
        words::lemma_words();
        if let Some(constant) = init {
            self.lemma_nested_constant(constant);
        }
        assert forall|open: Seq<char>| #[trigger] self.initial_text(init).opens(open, open) by {
            assert(Emission::text(" = "@).opens(open, open));
            assert(Emission::nothing().opens(open, open));
        }
    }

    proof fn lemma_nested_locals(self, locals: Seq<LocalVariable>)
        requires
            self.has_nested_names(),
            forall|i: int|
                0 <= i < locals.len() ==> nesting::is_nested((#[trigger] locals[i]).name@),
        ensures
            Emission::all(self.local_texts(locals)).is_nested(),
    {
        words::lemma_words();
        let steps = self.local_texts(locals);
        assert forall|i: int| 0 <= i < steps.len() implies (#[trigger] steps[i]).is_nested() by {
            self.lemma_nested_type(locals[i].ty);
            assert(nesting::is_nested(locals[i].name@));
            self.lemma_nested_initial(locals[i].init);
            assert forall|open: Seq<char>| #[trigger] steps[i].opens(open, open) by {
                assert(Emission::text("    "@).opens(open, open));
            }
        }
        nesting::lemma_opens_all(steps);
    }

    proof fn lemma_nested_arguments(self, arguments: Seq<FunctionArgument>)
        requires
            self.has_nested_names(),
            forall|i: int|
                0 <= i < arguments.len() ==> nesting::is_nested((#[trigger] arguments[i]).name@),
        ensures
            Emission::all(self.argument_texts(arguments)).is_nested(),
    {
        words::lemma_words();
        let steps = self.argument_texts(arguments);
        assert forall|i: int| 0 <= i < steps.len() implies (#[trigger] steps[i]).is_nested() by {
            assert(nesting::is_nested(arguments[i].name@));
            self.lemma_nested_type(arguments[i].ty);
            assert forall|open: Seq<char>| #[trigger] steps[i].opens(open, open) by {
                assert(Emission::text("    "@).opens(open, open));
            }
        }
        nesting::lemma_opens_all(steps);
    }

    proof fn lemma_nested_function(self, handle: FunctionHandle)
        requires
            self.has_nested_names(),
            handle < self.functions@.len(),
        ensures
            self.function_text(handle).is_nested(),
    {
        words::lemma_words();
        let function = self.functions@[handle as int];
        assert(function.has_nested_names());
        let whole = self.function_text(handle);
        if function.typing is Err {
            nesting::lemma_failure(whole);
        } else {
            if let Some(ty) = function.return_type {
                self.lemma_nested_type(ty);
            }
            self.lemma_nested_arguments(function.arguments@);
            self.lemma_nested_locals(function.local_variables@);
            let context = self.context(function, FunctionOrigin::Handle(handle));
            context.lemma_nested_block(1, function.body@, ""@);
            assert forall|open: Seq<char>| #[trigger] whole.opens(open, open) by {
                nesting::lemma_brackets(open);
                assert(Emission::text("void"@).opens(open, open));
                assert(self.result_text(function).opens(open, open));
            }
        }
    }

    proof fn lemma_nested_declaration(self, handle: GlobalHandle, usage: GlobalUse)
        requires
            self.has_nested_names(),
            handle < self.global_variables@.len(),
        ensures
            self.global_declaration(handle, usage).is_nested(),
    {
        words::lemma_words();
        let var = self.global_variables@[handle as int];
        let whole = self.global_declaration(handle, usage);
        if var.ty < self.types@.len() {
            assert(nesting::is_nested(self.types@[var.ty as int].name@));
            assert(nesting::is_nested(var.name@));
            assert forall|open: Seq<char>| #[trigger] whole.opens(open, open) by {
                assert(Emission::text(""@).opens(open, open));
                assert(Emission::text("device "@).opens(open, open));
                assert(Emission::text("constant "@).opens(open, open));
            }
        } else {
            nesting::lemma_failure(whole);
        }
    }

    proof fn lemma_nested_interface(
        self,
        options: Options,
        stage: ShaderStage,
        handle: GlobalHandle,
        mode: LocationMode,
    )
        requires
            self.has_nested_names(),
            options.has_nested_attributes(),
            handle < self.global_variables@.len(),
        ensures
            self.interface_text(options, stage, handle, mode).is_nested(),
    {
        words::lemma_words();
        self.lemma_nested_declaration(handle, GlobalUse { read: false, write: false });
        options.lemma_nested_binding(stage, handle, mode);
        let binding = function::binding_text(options, stage, handle, mode, ";"@);
        match options.binding_of(stage, handle, mode) {
            Some(found) => {
                nesting::lemma_decorated(found.attribute@, ";"@);
            },
            None => {
                nesting::lemma_failure(binding);
            },
        }
        assert forall|open: Seq<char>| #[trigger]
            self.interface_text(options, stage, handle, mode).opens(open, open) by {
            assert(Emission::text("    "@).opens(open, open));
            assert(binding.opens(open, open));
        }
    }

    proof fn lemma_nested_members_of(self, entry_point: EntryPoint, options: Options)
        requires
            self.has_nested_names(),
            options.has_nested_attributes(),
        ensures
            Emission::all(self.input_texts(entry_point, options)).is_nested(),
            Emission::all(self.output_texts(entry_point, options)).is_nested(),
    {
        let inputs = self.input_texts(entry_point, options);
        let outputs = self.output_texts(entry_point, options);
        let function = entry_point.function;
        assert forall|i: int| 0 <= i < inputs.len() implies (#[trigger] inputs[i]).is_nested() by {
            assert(i < self.global_variables.len());
            if self.global_variables@[i].is_listed_input(function.global_usage@[i]) {
                self.lemma_nested_interface(
                    options,
                    entry_point.stage,
                    i as GlobalHandle,
                    interface::input_mode(entry_point.stage),
                );
            }
        }
        assert forall|i: int| 0 <= i < outputs.len() implies (
        #[trigger] outputs[i]).is_nested() by {
            assert(i < self.global_variables.len());
            if self.global_variables@[i].is_listed_output(function.global_usage@[i]) {
                self.lemma_nested_interface(
                    options,
                    entry_point.stage,
                    i as GlobalHandle,
                    interface::output_mode(entry_point.stage),
                );
            }
        }
        nesting::lemma_opens_all(inputs);
        nesting::lemma_opens_all(outputs);
    }

    proof fn lemma_nested_parameter(self, entry_point: EntryPoint, options: Options, i: int)
        requires
            self.has_nested_names(),
            options.has_nested_attributes(),
            0 <= i < self.usage_count(entry_point.function),
        ensures
            self.parameter_text(entry_point, options, i).is_nested(),
    {
        words::lemma_words();
        let function = entry_point.function;
        let var = self.global_variables@[i];
        let whole = self.parameter_text(entry_point, options, i);
        if self.is_parameter_of(function, i) {
            assert(i < self.global_variables.len());
            let handle = i as GlobalHandle;
            let mode = interface::parameter_mode(entry_point.stage, var.class);
            self.lemma_nested_declaration(handle, function.global_usage@[i]);
            self.lemma_nested_initial(var.init);
            options.lemma_nested_binding(entry_point.stage, handle, mode);
            match options.binding_of(entry_point.stage, handle, mode) {
                Some(binding) => {
                    nesting::lemma_decorated(
                        binding.attribute@,
                        keyword::separator_text(!self.is_parameter_after(function, i)),
                    );
                    assert forall|open: Seq<char>| #[trigger] whole.opens(open, open) by {
                        assert(Emission::text("    "@).opens(open, open));
                    }
                },
                None => {
                    nesting::lemma_failure(whole);
                },
            }
        }
    }

    proof fn lemma_nested_parameters(self, entry_point: EntryPoint, options: Options)
        requires
            self.has_nested_names(),
            options.has_nested_attributes(),
        ensures
            Emission::all(self.parameter_texts(entry_point, options)).is_nested(),
    {
        let steps = self.parameter_texts(entry_point, options);
        assert forall|i: int| 0 <= i < steps.len() implies (#[trigger] steps[i]).is_nested() by {
            self.lemma_nested_parameter(entry_point, options, i);
        }
        nesting::lemma_opens_all(steps);
    }

    /// What comes before the parameters of an entry point leaves the bracket before them open.
    proof fn lemma_nested_head(self, entry_point: EntryPoint, options: Options, open: Seq<char>)
        requires
            self.has_nested_names(),
            options.has_nested_attributes(),
            nesting::is_nested(entry_point.function.name@),
        ensures
            self.entry_point_head(entry_point, options).opens(open, open.push('(')),
    {
        words::lemma_words();
        nesting::lemma_brackets(open);
        nesting::lemma_closed_brackets();
        if entry_point.stage == ShaderStage::Compute {
            assert(Emission::text(interface::stage_text(entry_point.stage)).opens(open, open));
        } else {
            self.lemma_nested_members_of(entry_point, options);
            assert(Emission::text("struct "@).opens(open, open));
        }
    }

    proof fn lemma_nested_entry_point(self, options: Options, index: usize)
        requires
            self.has_nested_names(),
            options.has_nested_attributes(),
            index < self.entry_points@.len(),
        ensures
            self.entry_point_text(options, index).is_nested(),
    {
        words::lemma_words();
        let entry_point = self.entry_points@[index as int];
        let function = entry_point.function;
        assert(function.has_nested_names());
        let whole = self.entry_point_text(options, index);
        if function.typing is Err {
            nesting::lemma_failure(whole);
        } else {
            self.lemma_nested_parameters(entry_point, options);
            self.lemma_nested_locals(function.local_variables@);
            let context = self.context(function, FunctionOrigin::EntryPoint(index));
            context.lemma_nested_block(1, function.body@, entry_point.output_value());
            assert forall|open: Seq<char>| #[trigger] whole.opens(open, open) by {
                nesting::lemma_brackets(open);
                self.lemma_nested_head(entry_point, options, open);
                let inner = open.push('{');
                assert(entry_point.output_local_text().opens(inner, inner)) by {
                    assert(Emission::text("    "@).opens(inner, inner));
                    assert(Emission::nothing().opens(inner, inner));
                }
                assert(Emission::text("\n"@).opens(open, open));
                assert(Emission::nothing().opens(open, open));
            }
        }
    }

    proof fn lemma_nested_functions(self, options: Options)
        requires
            self.has_nested_names(),
            options.has_nested_attributes(),
        ensures
            self.functions_text(options).is_nested(),
    {
        let functions = self.function_texts();
        let entry_points = self.entry_point_texts(options);
        assert forall|i: int| 0 <= i < functions.len() implies (
        #[trigger] functions[i]).is_nested() by {
            assert(i < self.functions.len());
            self.lemma_nested_function(i as FunctionHandle);
        }
        assert forall|i: int| 0 <= i < entry_points.len() implies (
        #[trigger] entry_points[i]).is_nested() by {
            assert(i < self.entry_points.len());
            self.lemma_nested_entry_point(options, i as usize);
        }
        nesting::lemma_opens_all(functions);
        nesting::lemma_opens_all(entry_points);
        assert forall|open: Seq<char>| #[trigger]
            self.functions_text(options).opens(open, open) by {
            assert(Emission::all(functions).opens(open, open));
        }
    }
}

/// The brackets of a module that can be written are nested, if those of its names, of its
/// floating-point literals and of its bindings are: every round, square or curly bracket that
/// closes in the text closes the one of its kind that was opened last, and none stays open.
pub proof fn law_nesting(module: Module, options: Options)
    requires
        module.has_nested_names(),
        options.has_nested_attributes(),
    ensures
        module.module_text(options).fault is None ==> nesting::is_nested(
            module.module_text(options).text,
        ),
{
    words::lemma_words();
    module.lemma_nested_type_defs();
    module.lemma_nested_functions(options);
    let whole = module.module_text(options);
    assert forall|open: Seq<char>| #[trigger] whole.opens(open, open) by {
        assert(Emission::text("#include <metal_stdlib>\n"@).opens(open, open));
    }
    if whole.fault is None {
        assert forall|open: Seq<char>| #[trigger]
            nesting::scan(Some(open), whole.text) == Some(open) by {
            assert(whole.opens(open, open));
            reveal(Emission::opens);
        }
    }
}

} // verus!
