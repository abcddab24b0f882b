use naga_msl::error::Error;
use naga_msl::ir::{
    ArraySize, Binding, Constant, ConstantInner, FloatLiteral, GlobalVariable, ImageClass,
    ImageDimension, Module, ScalarKind, ScalarValue, StorageAccess, StorageClass, StructMember,
    Type, TypeInner, VectorSize,
};
use naga_msl::options::Options;
use naga_msl::writer::Writer;

const HEADER: &str = "#include <metal_stdlib>\n#include <simd/simd.h>\n\n";

fn named(name: &str, inner: TypeInner) -> Type {
    Type { name: String::from(name), inner }
}

fn scalar(name: &str, kind: ScalarKind) -> Type {
    named(name, TypeInner::Scalar { kind, width: 4 })
}

fn pointer(name: &str, base: usize, class: StorageClass) -> Type {
    named(name, TypeInner::Pointer { base, class })
}

fn image(name: &str, dim: ImageDimension, arrayed: bool, class: ImageClass) -> Type {
    named(name, TypeInner::Image { dim, arrayed, class })
}

fn value(value: ScalarValue) -> Constant {
    Constant { inner: ConstantInner::Scalar { width: 4, value } }
}

fn float(number: f64) -> Constant {
    value(ScalarValue::Float(FloatLiteral {
        digits: format!("{}", number),
        whole: number.fract() == 0.0,
    }))
}

fn composite(ty: usize, components: Vec<usize>) -> Constant {
    Constant { inner: ConstantInner::Composite { ty, components } }
}

fn storage_image(ty: usize, load: bool, store: bool) -> GlobalVariable {
    GlobalVariable {
        name: String::from("image"),
        class: StorageClass::Handle,
        binding: Some(Binding::Resource { group: 0, binding: 0 }),
        ty,
        init: None,
        storage_access: StorageAccess { load, store },
    }
}

fn module(
    types: Vec<Type>,
    constants: Vec<Constant>,
    global_variables: Vec<GlobalVariable>,
) -> Module {
    Module { types, constants, global_variables, functions: Vec::new(), entry_points: Vec::new() }
}

/// Writes a module without entry points, and gives what comes after the header.
fn write(module: &Module) -> (String, Result<(), Error>) {
    let mut writer = Writer::new(String::new());
    let result = writer.write(module, &Options { bindings: Vec::new() });
    let out = writer.finish();
    assert_eq!(&out[..HEADER.len()], HEADER);
    let outcome = match result {
        Ok(info) => {
            assert!(info.entry_point_names.is_empty());
            Ok(())
        }
        Err(error) => Err(error),
    };
    (String::from(&out[HEADER.len()..]), outcome)
}

/// Whether all that the text of a module comes to exists.
fn is_writable(module: &Module) -> bool {
    let mut writer = Writer::new(String::new());
    writer.try_write(module, &Options { bindings: Vec::new() }).is_some()
}

fn definitions(types: Vec<Type>) -> String {
    let (text, outcome) = write(&module(types, Vec::new(), Vec::new()));
    assert_eq!(outcome, Ok(()));
    text
}

/// The text of constant `handle`, as the size of an array.
fn constant_text(types: Vec<Type>, constants: Vec<Constant>, handle: usize) -> String {
    let mut types = types;
    let base = types.len();
    types.push(scalar("base_t", ScalarKind::Float));
    let size = ArraySize::Constant(handle);
    types.push(named("array_t", TypeInner::Array { base, size, stride: None }));
    let (text, outcome) = write(&module(types, constants, Vec::new()));
    assert_eq!(outcome, Ok(()));
    let start = text.find("typedef base_t array_t[").unwrap() + "typedef base_t array_t[".len();
    assert_eq!(&text[text.len() - 4..], "];\n\n");
    String::from(&text[start..text.len() - 4])
}

#[test]
fn empty_module_is_the_header() {
    assert_eq!(definitions(Vec::new()), "");
}

#[test]
fn output_is_appended() {
    let empty = module(Vec::new(), Vec::new(), Vec::new());
    let options = Options { bindings: Vec::new() };
    let mut writer = Writer::new(String::from("// start\n"));
    assert!(writer.write(&empty, &options).is_ok());
    assert!(writer.write(&empty, &options).is_ok());
    assert_eq!(writer.finish(), format!("// start\n{}{}", HEADER, HEADER));
}

#[test]
fn finish_gives_back_what_new_took() {
    assert_eq!(Writer::new(String::from("text")).finish(), "text");
    assert_eq!(Writer::new(String::new()).finish(), "");
}

#[test]
fn scalar_types() {
    assert_eq!(
        definitions(vec![
            scalar("a", ScalarKind::Float),
            scalar("b", ScalarKind::Sint),
            scalar("c", ScalarKind::Uint),
            scalar("d", ScalarKind::Bool),
        ]),
        "typedef float a;\n\ntypedef int b;\n\ntypedef uint c;\n\ntypedef bool d;\n\n"
    );
}

#[test]
fn vector_types() {
    let vector = |name: &str, size: VectorSize, kind: ScalarKind| {
        named(name, TypeInner::Vector { size, kind, width: 4 })
    };
    assert_eq!(
        definitions(vec![
            vector("a", VectorSize::Bi, ScalarKind::Float),
            vector("b", VectorSize::Tri, ScalarKind::Uint),
            vector("c", VectorSize::Quad, ScalarKind::Sint),
        ]),
        "typedef metal::float2 a;\n\ntypedef metal::uint3 b;\n\ntypedef metal::int4 c;\n\n"
    );
}

#[test]
fn matrix_types() {
    let matrix = |name: &str, columns: VectorSize, rows: VectorSize| {
        named(name, TypeInner::Matrix { columns, rows, width: 4 })
    };
    assert_eq!(
        definitions(vec![
            matrix("a", VectorSize::Quad, VectorSize::Quad),
            matrix("b", VectorSize::Bi, VectorSize::Tri),
        ]),
        "typedef metal::float4x4 a;\n\ntypedef metal::float2x3 b;\n\n"
    );
}

#[test]
fn pointer_types() {
    assert_eq!(
        definitions(vec![
            scalar("t", ScalarKind::Float),
            pointer("a", 0, StorageClass::Uniform),
            pointer("b", 0, StorageClass::Storage),
            pointer("c", 0, StorageClass::Function),
            pointer("d", 0, StorageClass::WorkGroup),
        ]),
        "typedef float t;\n\ntypedef constant t *a;\n\ntypedef device t *b;\n\ntypedef  t *c;\n\n\
         typedef  t *d;\n\n"
    );
}

#[test]
fn pointers_to_inputs_and_outputs_are_left_out() {
    assert_eq!(
        definitions(vec![
            scalar("t", ScalarKind::Float),
            pointer("a", 0, StorageClass::Input),
            pointer("b", 0, StorageClass::Output),
            pointer("c", 0, StorageClass::Private),
        ]),
        "typedef float t;\n\ntypedef  t *c;\n\n"
    );
}

#[test]
fn array_types() {
    let types = vec![
        scalar("t", ScalarKind::Float),
        named("a", TypeInner::Array { base: 0, size: ArraySize::Constant(0), stride: Some(4) }),
        named("b", TypeInner::Array { base: 0, size: ArraySize::Dynamic, stride: None }),
    ];
    let constants = vec![value(ScalarValue::Uint(12))];
    let (text, outcome) = write(&module(types, constants, Vec::new()));
    assert_eq!(outcome, Ok(()));
    assert_eq!(text, "typedef float t;\n\ntypedef t a[12u];\n\ntypedef t b[1];\n\n");
}

#[test]
fn struct_types() {
    let members = vec![
        StructMember { name: String::from("x"), ty: 0 },
        StructMember { name: String::from("y"), ty: 1 },
    ];
    assert_eq!(
        definitions(vec![
            scalar("f", ScalarKind::Float),
            scalar("i", ScalarKind::Sint),
            named("S", TypeInner::Struct { block: true, members }),
            named("E", TypeInner::Struct { block: false, members: Vec::new() }),
        ]),
        "typedef float f;\n\ntypedef int i;\n\nstruct S {\n    f x;\n    i y;\n};\n\n\
         struct E {\n};\n\n"
    );
}

#[test]
fn sampled_image_types() {
    let plain = ImageClass::Sampled { kind: ScalarKind::Float, multi: false };
    let multi = ImageClass::Sampled { kind: ScalarKind::Uint, multi: true };
    assert_eq!(
        definitions(vec![
            image("a", ImageDimension::D1, false, plain),
            image("b", ImageDimension::D2, true, plain),
            image("c", ImageDimension::D2, true, multi),
            image("d", ImageDimension::D3, false, plain),
            image("e", ImageDimension::Cube, false, ImageClass::Depth),
            image("f", ImageDimension::D2, true, ImageClass::Depth),
        ]),
        "typedef metal::texture1d<float, metal::access::sample> a;\n\n\
         typedef metal::texture2d_array<float, metal::access::sample> b;\n\n\
         typedef metal::texture2d_ms_array<uint, metal::access::sample> c;\n\n\
         typedef metal::texture3d<float, metal::access::sample> d;\n\n\
         typedef metal::depthcube<float, metal::access::sample> e;\n\n\
         typedef metal::depth2d_array<float, metal::access::sample> f;\n\n"
    );
}

#[test]
fn storage_image_types() {
    let access = |load: bool, store: bool| {
        let class = ImageClass::Storage(ScalarKind::Float);
        let types = vec![image("t", ImageDimension::D2, false, class)];
        write(&module(types, Vec::new(), vec![storage_image(0, load, store)]))
    };
    assert_eq!(
        access(true, true),
        (String::from("typedef metal::texture2d<float, metal::access::read_write> t;\n\n"), Ok(()))
    );
    assert_eq!(
        access(false, true),
        (String::from("typedef metal::texture2d<float, metal::access::write> t;\n\n"), Ok(()))
    );
    assert_eq!(
        access(true, false),
        (String::from("typedef metal::texture2d<float, metal::access::read> t;\n\n"), Ok(()))
    );
}

#[test]
fn storage_image_without_access_fails() {
    let class = ImageClass::Storage(ScalarKind::Sint);
    let types = vec![
        scalar("f", ScalarKind::Float),
        image("t", ImageDimension::D2, false, class),
        scalar("g", ScalarKind::Float),
    ];
    assert_eq!(
        write(&module(types, Vec::new(), vec![storage_image(1, false, false)])),
        (
            String::from("typedef float f;\n\n"),
            Err(Error::InvalidImageAccess(StorageAccess { load: false, store: false }))
        )
    );
}

#[test]
fn first_global_decides_storage_access() {
    let class = ImageClass::Storage(ScalarKind::Sint);
    let types = vec![
        image("t", ImageDimension::D2, false, class),
        image("u", ImageDimension::D2, false, class),
    ];
    let globals = vec![
        storage_image(1, true, true),
        storage_image(0, true, false),
        storage_image(0, false, true),
    ];
    assert_eq!(
        write(&module(types, Vec::new(), globals)),
        (
            String::from(
                "typedef metal::texture2d<int, metal::access::read> t;\n\n\
                 typedef metal::texture2d<int, metal::access::read_write> u;\n\n"
            ),
            Ok(())
        )
    );
}

#[test]
fn sampler_types() {
    assert_eq!(
        definitions(vec![
            named("s", TypeInner::Sampler { comparison: false }),
            named("c", TypeInner::Sampler { comparison: true }),
        ]),
        "typedef metal::sampler s;\n\ntypedef metal::sampler c;\n\n"
    );
}

#[test]
fn signed_constants() {
    let text = |number: i64| constant_text(Vec::new(), vec![value(ScalarValue::Sint(number))], 0);
    assert_eq!(text(0), "0");
    assert_eq!(text(7), "7");
    assert_eq!(text(-1), "-1");
    assert_eq!(text(-120), "-120");
    assert_eq!(text(i64::MAX), "9223372036854775807");
    assert_eq!(text(i64::MIN), "-9223372036854775808");
}

#[test]
fn unsigned_constants() {
    let text = |number: u64| constant_text(Vec::new(), vec![value(ScalarValue::Uint(number))], 0);
    assert_eq!(text(0), "0u");
    assert_eq!(text(10), "10u");
    assert_eq!(text(u64::MAX), "18446744073709551615u");
}

#[test]
fn float_constants() {
    let text = |number: f64| constant_text(Vec::new(), vec![float(number)], 0);
    assert_eq!(text(0.0), "0.0");
    assert_eq!(text(1.0), "1.0");
    assert_eq!(text(-2.5), "-2.5");
    assert_eq!(text(0.125), "0.125");
}

#[test]
fn bool_constants() {
    let text = |truth: bool| constant_text(Vec::new(), vec![value(ScalarValue::Bool(truth))], 0);
    assert_eq!(text(true), "true");
    assert_eq!(text(false), "false");
}

#[test]
fn composite_constants() {
    let text = |handle: usize| {
        let vector = TypeInner::Vector { size: VectorSize::Bi, kind: ScalarKind::Float, width: 4 };
        let empty = TypeInner::Struct { block: false, members: Vec::new() };
        let types = vec![named("float2_t", vector), named("E", empty)];
        let constants = vec![
            float(1.0),
            float(2.5),
            composite(0, vec![0, 1]),
            composite(1, vec![2, 2, 0]),
            composite(1, Vec::new()),
        ];
        constant_text(types, constants, handle)
    };
    assert_eq!(text(2), "float2_t(1.0, 2.5)");
    assert_eq!(text(3), "E(float2_t(1.0, 2.5), float2_t(1.0, 2.5), 1.0)");
    assert_eq!(text(4), "E()");
}

#[test]
fn what_comes_after_a_failure_does_not_matter() {
    let class = ImageClass::Storage(ScalarKind::Float);
    let images = || {
        vec![
            image("a", ImageDimension::D2, false, class),
            image("b", ImageDimension::D2, false, class),
        ]
    };
    // the second image has no global variable
    let failing = module(images(), Vec::new(), vec![storage_image(0, false, false)]);
    assert!(is_writable(&failing));
    assert_eq!(
        write(&failing),
        (
            String::new(),
            Err(Error::InvalidImageAccess(StorageAccess { load: false, store: false }))
        )
    );
    let dangling = module(images(), Vec::new(), vec![storage_image(0, true, false)]);
    assert!(!is_writable(&dangling));
    let mut writer = Writer::new(String::new());
    assert!(writer.try_write(&dangling, &Options { bindings: Vec::new() }).is_none());
    assert_eq!(
        writer.finish(),
        format!("{}typedef metal::texture2d<float, metal::access::read> a;\n\n", HEADER)
    );
}

#[test]
fn constants_that_cannot_be_written_are_found() {
    let check = |constants: Vec<Constant>, handle: usize| {
        let size = ArraySize::Constant(handle);
        let types = vec![
            scalar("f", ScalarKind::Float),
            named("a", TypeInner::Array { base: 0, size, stride: None }),
        ];
        is_writable(&module(types, constants, Vec::new()))
    };
    assert!(check(vec![float(1.0), composite(0, vec![0, 0])], 1));
    assert!(!check(vec![float(1.0), composite(0, vec![0, 2])], 1));
    assert!(!check(vec![float(1.0), composite(9, vec![0])], 1));
    assert!(!check(vec![composite(0, vec![0])], 0));
    assert!(!check(vec![composite(0, vec![1]), composite(0, vec![0])], 0));
    // a chain as long as there are constants, in any order
    assert!(check(
        vec![composite(0, vec![2]), float(1.0), composite(0, vec![3]), composite(0, vec![1])],
        0
    ));
    // one that is part of itself and not used
    assert!(check(vec![float(1.0), composite(0, vec![1])], 0));
}
