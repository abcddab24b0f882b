use naga_msl::error::Error;
use naga_msl::ir::{
    Binding, BuiltIn, Constant, ConstantInner, EntryPoint, Function, FunctionArgument, GlobalUse,
    GlobalVariable, LocalVariable, Module, ScalarKind, ScalarValue, ShaderStage, StorageAccess,
    StorageClass, Type, TypeInner,
};
use naga_msl::options::{BindingEntry, LocationMode, Options, ResolvedBinding};
use naga_msl::typing::{ResolveError, Typifier};
use naga_msl::writer::Writer;

const HEADER: &str =
    "#include <metal_stdlib>\n#include <simd/simd.h>\n\ntypedef float f;\n\nstruct S {\n};\n\n";

const FLOAT: usize = 0;
const STRUCT: usize = 1;

const NONE: GlobalUse = GlobalUse { read: false, write: false };
const READ: GlobalUse = GlobalUse { read: true, write: false };
const WRITE: GlobalUse = GlobalUse { read: false, write: true };
const BOTH: GlobalUse = GlobalUse { read: true, write: true };

fn function(name: &str, global_usage: Vec<GlobalUse>) -> Function {
    Function {
        name: String::from(name),
        arguments: Vec::new(),
        return_type: None,
        local_variables: Vec::new(),
        global_usage,
        expressions: Vec::new(),
        body: Vec::new(),
        typing: Ok(Typifier { resolutions: Vec::new() }),
    }
}

fn entry(stage: ShaderStage, name: &str, global_usage: Vec<GlobalUse>) -> EntryPoint {
    EntryPoint { stage, function: function(name, global_usage) }
}

fn global(name: &str, class: StorageClass, binding: Option<Binding>, ty: usize) -> GlobalVariable {
    GlobalVariable {
        name: String::from(name),
        class,
        binding,
        ty,
        init: None,
        storage_access: StorageAccess { load: false, store: false },
    }
}

fn resource(name: &str, class: StorageClass, ty: usize) -> GlobalVariable {
    global(name, class, Some(Binding::Resource { group: 0, binding: 0 }), ty)
}

fn module(
    global_variables: Vec<GlobalVariable>,
    functions: Vec<Function>,
    entry_points: Vec<EntryPoint>,
) -> Module {
    Module {
        types: vec![
            Type {
                name: String::from("f"),
                inner: TypeInner::Scalar { kind: ScalarKind::Float, width: 4 },
            },
            Type {
                name: String::from("S"),
                inner: TypeInner::Struct { block: true, members: Vec::new() },
            },
        ],
        constants: vec![Constant {
            inner: ConstantInner::Scalar { width: 4, value: ScalarValue::Uint(3) },
        }],
        global_variables,
        functions,
        entry_points,
    }
}

fn bound(
    stage: ShaderStage,
    global: usize,
    mode: LocationMode,
    attribute: &str,
) -> BindingEntry {
    BindingEntry {
        stage,
        global,
        mode,
        binding: ResolvedBinding { attribute: String::from(attribute) },
    }
}

/// Writes a module, and gives what comes after the types, and the names or the error.
fn write(module: &Module, bindings: Vec<BindingEntry>) -> (String, Result<Vec<String>, Error>) {
    let mut writer = Writer::new(String::new());
    let result = writer.write(module, &Options { bindings });
    let out = writer.finish();
    assert_eq!(&out[..HEADER.len()], HEADER);
    (String::from(&out[HEADER.len()..]), result.map(|info| info.entry_point_names))
}

/// Whether all that the text of a module comes to exists, with its first global variable bound.
fn is_writable(module: &Module) -> bool {
    let stage = ShaderStage::Vertex;
    let bindings = vec![
        bound(stage, 0, LocationMode::Uniform, "buffer(0)"),
        bound(stage, 0, LocationMode::VertexInput, "attribute(0)"),
    ];
    Writer::new(String::new()).try_write(module, &Options { bindings }).is_some()
}

fn names(names: &[&str]) -> Result<Vec<String>, Error> {
    Ok(names.iter().map(|name| String::from(*name)).collect())
}

#[test]
fn functions() {
    let mut fun = function("g", Vec::new());
    fun.return_type = Some(FLOAT);
    fun.arguments = vec![
        FunctionArgument { name: String::from("x"), ty: FLOAT },
        FunctionArgument { name: String::from("y"), ty: STRUCT },
    ];
    fun.local_variables = vec![
        LocalVariable { name: String::from("a"), ty: FLOAT, init: None },
        LocalVariable { name: String::from("b"), ty: FLOAT, init: Some(0) },
    ];
    let (text, result) = write(
        &module(Vec::new(), vec![fun, function("h", Vec::new())], Vec::new()),
        Vec::new(),
    );
    assert_eq!(
        text,
        "f g(\n    f x,\n    S y\n) {\n    f a;\n    f b = 3u;\n}\n\nvoid h(\n) {\n}\n\n"
    );
    assert_eq!(result, names(&[]));
}

#[test]
fn compute_entry_point() {
    let globals = vec![
        resource("params", StorageClass::Uniform, STRUCT),
        resource("data", StorageClass::Storage, STRUCT),
        resource("result", StorageClass::Storage, STRUCT),
        resource("unused", StorageClass::Storage, STRUCT),
        global(
            "id",
            StorageClass::Input,
            Some(Binding::BuiltIn(BuiltIn::GlobalInvocationId)),
            FLOAT,
        ),
    ];
    let usage = vec![READ, READ, BOTH, NONE, READ];
    let stage = ShaderStage::Compute;
    let (text, result) = write(
        &module(globals, Vec::new(), vec![entry(stage, "main1", usage)]),
        vec![
            bound(stage, 0, LocationMode::Uniform, "buffer(0)"),
            bound(stage, 1, LocationMode::Uniform, "buffer(1)"),
            bound(stage, 2, LocationMode::Uniform, "buffer(2)"),
            bound(stage, 4, LocationMode::Uniform, "thread_position_in_grid"),
        ],
    );
    assert_eq!(
        text,
        "kernel void main1(\n\
         \x20   constant S& params [[buffer(0)]],\n\
         \x20   constant S& data [[buffer(1)]],\n\
         \x20   device S& result [[buffer(2)]],\n\
         \x20   f id [[thread_position_in_grid]]\n\
         ) {\n}\n"
    );
    assert_eq!(result, names(&["main1"]));
}

fn render_globals() -> Vec<GlobalVariable> {
    vec![
        global("position", StorageClass::Input, Some(Binding::Location(0)), FLOAT),
        global("index", StorageClass::Input, Some(Binding::BuiltIn(BuiltIn::VertexIndex)), FLOAT),
        global("clip", StorageClass::Output, Some(Binding::BuiltIn(BuiltIn::Position)), FLOAT),
        global("color", StorageClass::Output, Some(Binding::Location(1)), FLOAT),
        resource("scale", StorageClass::Uniform, FLOAT),
    ]
}

fn vertex_bindings() -> Vec<BindingEntry> {
    let stage = ShaderStage::Vertex;
    vec![
        bound(stage, 0, LocationMode::VertexInput, "attribute(0)"),
        bound(stage, 1, LocationMode::VertexInput, "vertex_id"),
        bound(stage, 2, LocationMode::Intermediate, "position"),
        bound(stage, 3, LocationMode::Intermediate, "user(loc1)"),
        bound(stage, 4, LocationMode::Uniform, "buffer(4)"),
    ]
}

#[test]
fn vertex_entry_point() {
    let usage = vec![READ, READ, WRITE, WRITE, READ];
    let (text, result) = write(
        &module(render_globals(), Vec::new(), vec![entry(ShaderStage::Vertex, "vs", usage)]),
        vertex_bindings(),
    );
    assert_eq!(
        text,
        "struct vsInput {\n\
         \x20   f position [[attribute(0)]];\n\
         };\n\n\
         struct vsOutput {\n\
         \x20   f clip [[position]];\n\
         \x20   f color [[user(loc1)]];\n\
         };\n\n\
         vertex vsOutput vs(\n\
         \x20   vsInput input [[stage_in]],\n\
         \x20   f index [[vertex_id]],\n\
         \x20   f scale [[buffer(4)]]\n\
         ) {\n\
         \x20   vsOutput output;\n\
         }\n"
    );
    assert_eq!(result, names(&["vs"]));
}

#[test]
fn fragment_entry_point_without_parameters() {
    let usage = vec![READ, NONE, NONE, WRITE, NONE];
    let stage = ShaderStage::Fragment;
    let (text, result) = write(
        &module(render_globals(), Vec::new(), vec![entry(stage, "fs", usage)]),
        vec![
            bound(stage, 0, LocationMode::Intermediate, "user(loc0)"),
            bound(stage, 3, LocationMode::FragmentOutput, "color(1)"),
        ],
    );
    assert_eq!(
        text,
        "struct fsInput {\n\
         \x20   f position [[user(loc0)]];\n\
         };\n\n\
         struct fsOutput {\n\
         \x20   f color [[color(1)]];\n\
         };\n\n\
         fragment fsOutput fs(\n\
         \x20   fsInput input [[stage_in]]\n\
         ) {\n\
         \x20   fsOutput output;\n\
         }\n"
    );
    assert_eq!(result, names(&["fs"]));
}

#[test]
fn fragment_built_in_is_a_parameter() {
    let usage = vec![NONE, READ, NONE, NONE, NONE];
    let stage = ShaderStage::Fragment;
    let (text, _) = write(
        &module(render_globals(), Vec::new(), vec![entry(stage, "fs", usage)]),
        vec![bound(stage, 1, LocationMode::Intermediate, "front_facing")],
    );
    assert!(text.contains("struct fsInput {\n};\n\nstruct fsOutput {\n};\n\n"));
    assert!(text.contains("    fsInput input [[stage_in]],\n    f index [[front_facing]]\n) {\n"));
}

#[test]
fn only_the_last_parameter_has_no_comma() {
    let globals = || {
        vec![
            resource("a", StorageClass::Handle, FLOAT),
            resource("b", StorageClass::Handle, FLOAT),
            resource("c", StorageClass::Handle, FLOAT),
        ]
    };
    let stage = ShaderStage::Compute;
    let bindings = || {
        vec![
            bound(stage, 0, LocationMode::Uniform, "texture(0)"),
            bound(stage, 1, LocationMode::Uniform, "texture(1)"),
            bound(stage, 2, LocationMode::Uniform, "texture(2)"),
        ]
    };
    let text = |usage: Vec<GlobalUse>| {
        write(&module(globals(), Vec::new(), vec![entry(stage, "main", usage)]), bindings()).0
    };
    assert_eq!(
        text(vec![READ, NONE, READ]),
        "kernel void main(\n    f a [[texture(0)]],\n    f c [[texture(2)]]\n) {\n}\n"
    );
    assert_eq!(
        text(vec![READ, READ, NONE]),
        "kernel void main(\n    f a [[texture(0)]],\n    f b [[texture(1)]]\n) {\n}\n"
    );
    assert_eq!(text(vec![NONE, NONE, NONE]), "kernel void main(\n) {\n}\n");
    // uses of the first variables only
    assert_eq!(text(vec![READ]), "kernel void main(\n    f a [[texture(0)]]\n) {\n}\n");
}

#[test]
fn parameter_with_an_initial_value() {
    let mut var = resource("a", StorageClass::Private, FLOAT);
    var.init = Some(0);
    let stage = ShaderStage::Compute;
    let (text, _) = write(
        &module(vec![var], Vec::new(), vec![entry(stage, "main", vec![WRITE])]),
        vec![bound(stage, 0, LocationMode::Uniform, "buffer(0)")],
    );
    assert_eq!(text, "kernel void main(\n    f a [[buffer(0)]] = 3u\n) {\n}\n");
}

#[test]
fn structures_in_other_classes_are_no_references() {
    let stage = ShaderStage::Compute;
    let (text, _) = write(
        &module(
            vec![resource("a", StorageClass::WorkGroup, STRUCT)],
            Vec::new(),
            vec![entry(stage, "main", vec![WRITE])],
        ),
        vec![bound(stage, 0, LocationMode::Uniform, "threadgroup(0)")],
    );
    assert_eq!(text, "kernel void main(\n    S a [[threadgroup(0)]]\n) {\n}\n");
}

#[test]
fn entry_points_in_order() {
    let mut first = entry(ShaderStage::Compute, "second", Vec::new());
    first.function.local_variables =
        vec![LocalVariable { name: String::from("a"), ty: FLOAT, init: Some(0) }];
    let last = entry(ShaderStage::Compute, "first", Vec::new());
    let (text, result) = write(
        &module(Vec::new(), vec![function("helper", Vec::new())], vec![first, last]),
        Vec::new(),
    );
    assert_eq!(
        text,
        "void helper(\n) {\n}\n\n\
         kernel void second(\n) {\n    f a = 3u;\n}\n\n\
         kernel void first(\n) {\n}\n"
    );
    assert_eq!(result, names(&["second", "first"]));
}

#[test]
fn missing_input_binding_fails_after_the_declaration() {
    let usage = vec![READ, NONE, NONE, NONE, NONE];
    let (text, result) = write(
        &module(render_globals(), Vec::new(), vec![entry(ShaderStage::Vertex, "vs", usage)]),
        Vec::new(),
    );
    assert_eq!(text, "struct vsInput {\n    f position");
    assert_eq!(
        result,
        Err(Error::MissingBinding {
            stage: ShaderStage::Vertex,
            global: 0,
            mode: LocationMode::VertexInput
        })
    );
}

#[test]
fn missing_output_binding_fails_after_the_declaration() {
    let usage = vec![NONE, NONE, WRITE, NONE, NONE];
    let (text, result) = write(
        &module(render_globals(), Vec::new(), vec![entry(ShaderStage::Fragment, "fs", usage)]),
        Vec::new(),
    );
    assert_eq!(text, "struct fsInput {\n};\n\nstruct fsOutput {\n    f clip");
    assert_eq!(
        result,
        Err(Error::MissingBinding {
            stage: ShaderStage::Fragment,
            global: 2,
            mode: LocationMode::FragmentOutput
        })
    );
}

#[test]
fn missing_parameter_binding_fails_before_the_declaration() {
    let globals = vec![resource("a", StorageClass::Uniform, STRUCT)];
    // another stage, role and variable do not help
    let bindings = vec![
        bound(ShaderStage::Vertex, 0, LocationMode::Uniform, "buffer(0)"),
        bound(ShaderStage::Compute, 0, LocationMode::Intermediate, "buffer(1)"),
        bound(ShaderStage::Compute, 1, LocationMode::Uniform, "buffer(2)"),
    ];
    let (text, result) = write(
        &module(globals, Vec::new(), vec![entry(ShaderStage::Compute, "main", vec![READ])]),
        bindings,
    );
    assert_eq!(text, "kernel void main(\n");
    assert_eq!(
        result,
        Err(Error::MissingBinding {
            stage: ShaderStage::Compute,
            global: 0,
            mode: LocationMode::Uniform
        })
    );
}

#[test]
fn first_binding_of_a_variable_holds() {
    let stage = ShaderStage::Compute;
    let (text, _) = write(
        &module(
            vec![resource("a", StorageClass::Handle, FLOAT)],
            Vec::new(),
            vec![entry(stage, "main", vec![READ])],
        ),
        vec![
            bound(stage, 0, LocationMode::Uniform, "texture(7)"),
            bound(stage, 0, LocationMode::Uniform, "texture(8)"),
        ],
    );
    assert_eq!(text, "kernel void main(\n    f a [[texture(7)]]\n) {\n}\n");
}

#[test]
fn unresolved_types_fail_before_the_function() {
    let mut fun = function("g", Vec::new());
    fun.typing = Err(ResolveError { expression: 4 });
    let (text, result) = write(
        &module(Vec::new(), vec![function("h", Vec::new()), fun], Vec::new()),
        Vec::new(),
    );
    assert_eq!(text, "void h(\n) {\n}\n\n");
    assert_eq!(result, Err(Error::Type(ResolveError { expression: 4 })));
}

#[test]
fn unresolved_types_fail_before_the_entry_point() {
    let mut last = entry(ShaderStage::Compute, "b", Vec::new());
    last.function.typing = Err(ResolveError { expression: 0 });
    let first = entry(ShaderStage::Compute, "a", Vec::new());
    let (text, result) = write(&module(Vec::new(), Vec::new(), vec![first, last]), Vec::new());
    assert_eq!(text, "kernel void a(\n) {\n}\n\n");
    assert_eq!(result, Err(Error::Type(ResolveError { expression: 0 })));
}

#[test]
fn failure_does_not_affect_the_next_module() {
    let mut fun = function("g", Vec::new());
    fun.typing = Err(ResolveError { expression: 4 });
    let bad = module(Vec::new(), vec![fun], Vec::new());
    let good = module(Vec::new(), vec![function("h", Vec::new())], Vec::new());
    let options = Options { bindings: Vec::new() };
    let mut writer = Writer::new(String::new());
    assert!(writer.write(&bad, &options).is_err());
    assert!(writer.write(&good, &options).is_ok());
    assert_eq!(writer.finish(), format!("{}{}void h(\n) {{\n}}\n\n", HEADER, HEADER));
}

#[test]
fn inputs_with_locations_are_no_parameters() {
    let located = global("a", StorageClass::Input, Some(Binding::Location(0)), FLOAT);
    let built_in =
        global("b", StorageClass::Input, Some(Binding::BuiltIn(BuiltIn::FragCoord)), FLOAT);
    let output = global("c", StorageClass::Output, Some(Binding::Location(0)), FLOAT);
    let buffer = resource("d", StorageClass::Storage, STRUCT);
    let places = |var: &GlobalVariable, usage: GlobalUse| {
        (var.is_input_member(usage), var.is_output_member(usage), var.is_entry_parameter(usage))
    };
    assert_eq!(places(&located, READ), (true, false, false));
    assert_eq!(places(&located, WRITE), (false, false, false));
    assert_eq!(places(&built_in, READ), (false, false, true));
    assert_eq!(places(&output, WRITE), (false, true, false));
    assert_eq!(places(&output, READ), (false, false, false));
    assert_eq!(places(&buffer, WRITE), (false, false, true));
    assert_eq!(places(&buffer, NONE), (false, false, false));
    // an input with neither a location nor a built-in is declared twice
    let plain = global("e", StorageClass::Input, None, FLOAT);
    assert_eq!(places(&plain, READ), (true, false, true));
}

#[test]
fn modules_that_cannot_be_written_are_found() {
    let base = |class: StorageClass| {
        module(
            vec![resource("a", class, FLOAT)],
            vec![function("g", Vec::new())],
            vec![entry(ShaderStage::Vertex, "vs", vec![READ])],
        )
    };
    assert!(is_writable(&base(StorageClass::Uniform)));

    let mut module = base(StorageClass::Uniform);
    module.global_variables[0].ty = 2;
    assert!(!is_writable(&module));
    module.entry_points[0].function.global_usage[0] = NONE;
    assert!(is_writable(&module));

    let mut module = base(StorageClass::Uniform);
    module.global_variables[0].init = Some(1);
    assert!(!is_writable(&module));

    let mut module = base(StorageClass::Input);
    module.global_variables[0].ty = 2;
    assert!(!is_writable(&module));

    let mut module = base(StorageClass::Uniform);
    module.functions[0].return_type = Some(2);
    assert!(!is_writable(&module));
    module.functions[0].typing = Err(ResolveError { expression: 0 });
    assert!(is_writable(&module));

    let mut module = base(StorageClass::Uniform);
    module.functions[0].arguments.push(FunctionArgument { name: String::from("x"), ty: 2 });
    assert!(!is_writable(&module));

    let mut module = base(StorageClass::Uniform);
    module.entry_points[0].function.local_variables.push(LocalVariable {
        name: String::from("x"),
        ty: FLOAT,
        init: Some(1),
    });
    assert!(!is_writable(&module));

    let mut module = base(StorageClass::Uniform);
    module.types.push(Type {
        name: String::from("p"),
        inner: TypeInner::Pointer { base: 9, class: StorageClass::Input },
    });
    assert!(!is_writable(&module));

    // constants that are part of themselves
    let mut module = base(StorageClass::Uniform);
    module.constants.push(Constant {
        inner: ConstantInner::Composite { ty: STRUCT, components: vec![0, 2] },
    });
    module.constants.push(Constant {
        inner: ConstantInner::Composite { ty: STRUCT, components: vec![1] },
    });
    assert!(is_writable(&module));
    module.global_variables[0].init = Some(1);
    assert!(!is_writable(&module));
    module.constants[2].inner = ConstantInner::Composite { ty: STRUCT, components: vec![0] };
    assert!(is_writable(&module));
}

/// Whether every bracket that closes closes the one of its kind that was opened last, and none
/// stays open.
fn is_nested(text: &str) -> bool {
    let mut open = Vec::new();
    for c in text.chars() {
        match c {
            '(' | '[' | '{' => open.push(c),
            ')' => {
                if open.pop() != Some('(') {
                    return false;
                }
            }
            ']' => {
                if open.pop() != Some('[') {
                    return false;
                }
            }
            '}' => {
                if open.pop() != Some('{') {
                    return false;
                }
            }
            _ => {}
        }
    }
    open.is_empty()
}

#[test]
fn brackets_are_nested_as_far_as_those_of_the_names_are() {
    let text = |name: &str| {
        let usage = vec![READ, READ, WRITE, WRITE, READ];
        let vertex = entry(ShaderStage::Vertex, name, usage);
        let compute = entry(ShaderStage::Compute, "cs", Vec::new());
        write(
            &module(render_globals(), vec![function("g", Vec::new())], vec![vertex, compute]),
            vertex_bindings(),
        )
        .0
    };
    assert!(is_nested(HEADER));
    assert!(is_nested(&text("vs")));
    assert!(!is_nested(&text("vs)")));
    assert!(text("vs").ends_with('\n'));
}

#[test]
fn bindings_that_say_the_same_give_the_same_text() {
    let text = |bindings: Vec<BindingEntry>| {
        let usage = vec![READ, READ, WRITE, WRITE, READ];
        let vertex = entry(ShaderStage::Vertex, "vs", usage);
        write(&module(render_globals(), Vec::new(), vec![vertex]), bindings)
    };
    let mut reversed = vertex_bindings();
    reversed.reverse();
    let mut repeated = vertex_bindings();
    repeated.extend(vertex_bindings());
    repeated.push(bound(ShaderStage::Vertex, 0, LocationMode::VertexInput, "attribute(9)"));
    assert_eq!(text(vertex_bindings()), text(reversed));
    assert_eq!(text(vertex_bindings()), text(repeated));
}

#[test]
fn functions_fail_before_entry_points() {
    let mut fun = function("g", Vec::new());
    fun.typing = Err(ResolveError { expression: 1 });
    let mut compute = entry(ShaderStage::Compute, "main", Vec::new());
    compute.function.typing = Err(ResolveError { expression: 2 });
    let (text, result) = write(&module(Vec::new(), vec![fun], vec![compute]), Vec::new());
    assert_eq!(text, "");
    assert_eq!(result, Err(Error::Type(ResolveError { expression: 1 })));
}

#[test]
fn entry_points_are_declared_under_the_names_that_are_returned() {
    let stages = [
        (ShaderStage::Vertex, "vertex a1Output a1(\n"),
        (ShaderStage::Fragment, "fragment a1Output a1(\n"),
        (ShaderStage::Compute, "kernel void a1(\n"),
    ];
    for (stage, signature) in stages {
        let (text, result) =
            write(&module(Vec::new(), Vec::new(), vec![entry(stage, "a1", Vec::new())]), Vec::new());
        assert!(text.contains(signature));
        assert_eq!(result, names(&["a1"]));
    }
}

#[test]
fn functions_after_a_failure_are_not_looked_at() {
    let mut failing = function("g", Vec::new());
    failing.typing = Err(ResolveError { expression: 1 });
    let mut dangling = function("h", Vec::new());
    dangling.return_type = Some(9);
    let mut compute = entry(ShaderStage::Compute, "main", Vec::new());
    compute.function.local_variables =
        vec![LocalVariable { name: String::from("a"), ty: 9, init: None }];
    let mut module = module(Vec::new(), vec![failing, dangling], vec![compute]);
    let (text, result) = write(&module, Vec::new());
    assert_eq!(text, "");
    assert_eq!(result, Err(Error::Type(ResolveError { expression: 1 })));
    module.functions.swap(0, 1);
    assert!(!is_writable(&module));
}

#[test]
fn parameters_without_a_binding_need_no_type() {
    let globals = vec![resource("a", StorageClass::Uniform, 9)];
    let stage = ShaderStage::Compute;
    let module = module(globals, Vec::new(), vec![entry(stage, "main", vec![READ])]);
    let (text, result) = write(&module, Vec::new());
    assert_eq!(text, "kernel void main(\n");
    let mode = LocationMode::Uniform;
    assert_eq!(result, Err(Error::MissingBinding { stage, global: 0, mode }));
    let bindings = vec![bound(stage, 0, mode, "buffer(0)")];
    let mut writer = Writer::new(String::new());
    assert!(writer.try_write(&module, &Options { bindings }).is_none());
}
