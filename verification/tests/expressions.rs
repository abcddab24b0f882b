use naga_msl::error::Error;
use naga_msl::ir::{
    ArraySize, BinaryOperator, Binding, BuiltIn, Constant, ConstantInner, DerivativeAxis,
    EntryPoint, Expression, Function, FunctionArgument, GlobalVariable, LocalVariable,
    MathFunction, Module, RelationalFunction, SampleLevel, ScalarKind, ScalarValue, ShaderStage,
    Statement, StorageAccess, StorageClass, StructMember, Type, TypeInner, UnaryOperator,
    VectorSize,
};
use naga_msl::options::Options;
use naga_msl::typing::{Resolution, Typifier};
use naga_msl::writer::Writer;

// Handles of the types of every module here.
const FLOAT: usize = 0;
const STRUCT: usize = 1;

// Handles of the expressions that come first in every function here.
const X: usize = 0;
const Y: usize = 1;
const ONE: usize = 2;
const FIRST: usize = 3;

fn types() -> Vec<Type> {
    vec![
        Type {
            name: String::from("f"),
            inner: TypeInner::Scalar { kind: ScalarKind::Float, width: 4 },
        },
        Type {
            name: String::from("S"),
            inner: TypeInner::Struct {
                block: false,
                members: vec![
                    StructMember { name: String::from("left"), ty: FLOAT },
                    StructMember { name: String::from("right"), ty: FLOAT },
                ],
            },
        },
    ]
}

fn scalar(kind: ScalarKind) -> Resolution {
    Resolution::Value(TypeInner::Scalar { kind, width: 4 })
}

fn vector(size: VectorSize, kind: ScalarKind) -> Resolution {
    Resolution::Value(TypeInner::Vector { size, kind, width: 4 })
}

fn array(size: ArraySize) -> Resolution {
    Resolution::Value(TypeInner::Array { base: FLOAT, size, stride: None })
}

fn global(name: &str, class: StorageClass, binding: Option<Binding>, ty: usize) -> GlobalVariable {
    GlobalVariable {
        name: String::from(name),
        class,
        binding,
        ty,
        init: None,
        storage_access: StorageAccess { load: false, store: false },
    }
}

fn local(name: &str) -> LocalVariable {
    LocalVariable { name: String::from(name), ty: FLOAT, init: None }
}

/// A function with arguments `x` and `y`, whose expressions are those, the constant `1`, and the
/// given ones; it returns the last of them. The arguments have type `resolution`.
fn function(
    name: &str,
    resolution: fn() -> Resolution,
    expressions: Vec<Expression>,
) -> Function {
    let mut all = vec![
        Expression::FunctionArgument(0),
        Expression::FunctionArgument(1),
        Expression::Constant(0),
    ];
    all.extend(expressions);
    let resolutions = all.iter().map(|_| resolution()).collect();
    let root = all.len() - 1;
    Function {
        name: String::from(name),
        arguments: vec![
            FunctionArgument { name: String::from("x"), ty: FLOAT },
            FunctionArgument { name: String::from("y"), ty: FLOAT },
        ],
        return_type: Some(FLOAT),
        local_variables: vec![local("a"), local("b")],
        global_usage: Vec::new(),
        expressions: all,
        body: vec![Statement::Return { value: Some(root) }],
        typing: Ok(Typifier { resolutions }),
    }
}

fn module(types: Vec<Type>, functions: Vec<Function>) -> Module {
    Module {
        types,
        constants: vec![Constant {
            inner: ConstantInner::Scalar { width: 4, value: ScalarValue::Sint(1) },
        }],
        global_variables: vec![
            global("uniform_var", StorageClass::Uniform, None, STRUCT),
            global("out_var", StorageClass::Output, None, FLOAT),
            global("out_struct", StorageClass::Output, None, STRUCT),
            global("in_var", StorageClass::Input, Some(Binding::Location(0)), FLOAT),
            global(
                "in_index",
                StorageClass::Input,
                Some(Binding::BuiltIn(BuiltIn::VertexIndex)),
                FLOAT,
            ),
        ],
        functions,
        entry_points: Vec::new(),
    }
}

/// What is written of the value that the last of `functions` returns, and how that ends.
fn returned(module: &Module) -> (String, Result<(), Error>) {
    let mut writer = Writer::new(String::new());
    let result = writer.write(module, &Options { bindings: Vec::new() });
    let out = writer.finish();
    let start = out.rfind("    return ").unwrap() + "    return ".len();
    match result {
        Ok(_) => {
            assert_eq!(&out[out.len() - 5..], ";\n}\n\n");
            (String::from(&out[start..out.len() - 5]), Ok(()))
        }
        Err(error) => (String::from(&out[start..]), Err(error)),
    }
}

/// Whether all that the text of a module comes to exists.
fn is_writable(module: &Module) -> bool {
    let mut writer = Writer::new(String::new());
    writer.try_write(module, &Options { bindings: Vec::new() }).is_some()
}

fn text_of(resolution: fn() -> Resolution, expressions: Vec<Expression>) -> String {
    let (text, outcome) =
        returned(&module(types(), vec![function("g", resolution, expressions)]));
    assert_eq!(outcome, Ok(()));
    text
}

fn float_text(expressions: Vec<Expression>) -> String {
    text_of(|| scalar(ScalarKind::Float), expressions)
}

fn fault_of(resolution: fn() -> Resolution, expressions: Vec<Expression>) -> (String, Error) {
    let (text, outcome) =
        returned(&module(types(), vec![function("g", resolution, expressions)]));
    (text, outcome.unwrap_err())
}

#[test]
fn arguments_and_constants() {
    assert_eq!(float_text(vec![Expression::FunctionArgument(0)]), "x");
    assert_eq!(float_text(vec![Expression::FunctionArgument(1)]), "y");
    assert_eq!(float_text(vec![Expression::Constant(0)]), "1");
}

#[test]
fn local_variables() {
    assert_eq!(float_text(vec![Expression::LocalVariable(0)]), "a");
    assert_eq!(float_text(vec![Expression::LocalVariable(1)]), "b");
}

#[test]
fn global_variables() {
    assert_eq!(float_text(vec![Expression::GlobalVariable(0)]), "uniform_var");
    assert_eq!(float_text(vec![Expression::GlobalVariable(1)]), "output.out_var");
    assert_eq!(float_text(vec![Expression::GlobalVariable(2)]), "");
    assert_eq!(float_text(vec![Expression::GlobalVariable(3)]), "input.in_var");
    assert_eq!(float_text(vec![Expression::GlobalVariable(4)]), "in_index");
}

#[test]
fn load_is_its_pointer() {
    assert_eq!(
        float_text(vec![
            Expression::LocalVariable(0),
            Expression::Load { pointer: FIRST },
            Expression::Load { pointer: FIRST + 1 },
        ]),
        "a"
    );
}

#[test]
fn access() {
    assert_eq!(float_text(vec![Expression::Access { base: X, index: Y }]), "x[y]");
}

#[test]
fn access_index_of_struct() {
    let text = |index: u32| {
        text_of(
            || Resolution::Handle(STRUCT),
            vec![Expression::AccessIndex { base: X, index }],
        )
    };
    assert_eq!(text(0), "x.left");
    assert_eq!(text(1), "x.right");
}

#[test]
fn access_index_of_vector() {
    let text = |index: u32| {
        text_of(
            || vector(VectorSize::Quad, ScalarKind::Float),
            vec![Expression::AccessIndex { base: X, index }],
        )
    };
    assert_eq!(text(0), "x.x");
    assert_eq!(text(1), "x.y");
    assert_eq!(text(2), "x.z");
    assert_eq!(text(3), "x.w");
}

#[test]
fn access_index_of_matrix_and_array() {
    let matrix = || {
        Resolution::Value(TypeInner::Matrix {
            columns: VectorSize::Quad,
            rows: VectorSize::Quad,
            width: 4,
        })
    };
    assert_eq!(text_of(matrix, vec![Expression::AccessIndex { base: X, index: 2 }]), "x[2]");
    assert_eq!(
        text_of(
            || array(ArraySize::Dynamic),
            vec![Expression::AccessIndex { base: X, index: 1000 }]
        ),
        "x[1000]"
    );
}

#[test]
fn access_index_of_another_type_is_its_base() {
    assert_eq!(float_text(vec![Expression::AccessIndex { base: X, index: 5 }]), "x");
}

fn compose(inner: TypeInner, components: Vec<usize>) -> (String, Result<(), Error>) {
    let mut types = types();
    types.push(Type { name: String::from("t"), inner });
    let expressions = vec![Expression::Compose { ty: 2, components }];
    let fun = function("g", || scalar(ScalarKind::Float), expressions);
    returned(&module(types, vec![fun]))
}

#[test]
fn compose_scalar() {
    let inner = TypeInner::Scalar { kind: ScalarKind::Uint, width: 4 };
    assert_eq!(compose(inner, vec![X]), (String::from("uint(x)"), Ok(())));
}

#[test]
fn compose_vector() {
    let inner = TypeInner::Vector { size: VectorSize::Tri, kind: ScalarKind::Sint, width: 4 };
    assert_eq!(compose(inner, vec![X, Y, X]), (String::from("metal::int3(x, y, x)"), Ok(())));
}

#[test]
fn compose_matrix() {
    let inner =
        TypeInner::Matrix { columns: VectorSize::Bi, rows: VectorSize::Quad, width: 4 };
    assert_eq!(compose(inner, vec![X, Y]), (String::from("metal::float2x4(x, y)"), Ok(())));
}

#[test]
fn compose_of_other_values_fails() {
    let fault = || (String::new(), Err(Error::UnsupportedCompose(2)));
    let double = TypeInner::Scalar { kind: ScalarKind::Float, width: 8 };
    assert_eq!(compose(double, vec![X]), fault());
    let pair = TypeInner::Scalar { kind: ScalarKind::Float, width: 4 };
    assert_eq!(compose(pair, vec![X, Y]), fault());
    let structure = TypeInner::Struct { block: false, members: Vec::new() };
    assert_eq!(compose(structure, Vec::new()), fault());
}

fn sample(
    array_index: Option<usize>,
    offset: Option<usize>,
    level: SampleLevel,
    depth_ref: Option<usize>,
) -> String {
    float_text(vec![Expression::ImageSample {
        image: X,
        sampler: Y,
        coordinate: ONE,
        array_index,
        offset,
        level,
        depth_ref,
    }])
}

#[test]
fn image_samples() {
    assert_eq!(sample(None, None, SampleLevel::Auto, None), "x.sample(y, 1)");
    assert_eq!(sample(None, None, SampleLevel::Zero, None), "x.sample(y, 1)");
    assert_eq!(sample(Some(X), None, SampleLevel::Auto, None), "x.sample(y, 1, x)");
    assert_eq!(sample(None, None, SampleLevel::Exact(Y), None), "x.sample(y, 1, level(y))");
    assert_eq!(sample(None, None, SampleLevel::Bias(Y), None), "x.sample(y, 1, bias(y))");
    assert_eq!(
        sample(None, None, SampleLevel::Gradient { x: X, y: Y }, None),
        "x.sample(y, 1, gradient(x, y))"
    );
    assert_eq!(sample(None, Some(0), SampleLevel::Auto, None), "x.sample(y, 1, 1)");
    assert_eq!(sample(None, None, SampleLevel::Auto, Some(X)), "x.sample_compare(y, 1, x)");
    assert_eq!(
        sample(Some(ONE), Some(0), SampleLevel::Exact(X), Some(Y)),
        "x.sample_compare(y, 1, 1, y, level(x), 1)"
    );
}

#[test]
fn image_loads() {
    let load = |array_index: Option<usize>, index: Option<usize>| {
        float_text(vec![Expression::ImageLoad { image: X, coordinate: Y, array_index, index }])
    };
    assert_eq!(load(None, None), "x.read(y)");
    assert_eq!(load(Some(ONE), None), "x.read(y, 1)");
    assert_eq!(load(None, Some(X)), "x.read(y, x)");
    assert_eq!(load(Some(ONE), Some(X)), "x.read(y, 1, x)");
}

#[test]
fn unary_operators() {
    let text = |op: UnaryOperator| float_text(vec![Expression::Unary { op, expr: X }]);
    assert_eq!(text(UnaryOperator::Negate), "-x");
    assert_eq!(text(UnaryOperator::Not), "!x");
}

#[test]
fn binary_operators() {
    let text = |op: BinaryOperator| {
        text_of(|| scalar(ScalarKind::Sint), vec![Expression::Binary { op, left: X, right: Y }])
    };
    assert_eq!(text(BinaryOperator::Add), "(x + y)");
    assert_eq!(text(BinaryOperator::Subtract), "(x - y)");
    assert_eq!(text(BinaryOperator::Multiply), "(x * y)");
    assert_eq!(text(BinaryOperator::Divide), "(x / y)");
    assert_eq!(text(BinaryOperator::Modulo), "(x % y)");
    assert_eq!(text(BinaryOperator::Equal), "(x == y)");
    assert_eq!(text(BinaryOperator::NotEqual), "(x != y)");
    assert_eq!(text(BinaryOperator::Less), "(x < y)");
    assert_eq!(text(BinaryOperator::LessEqual), "(x <= y)");
    assert_eq!(text(BinaryOperator::Greater), "(x > y)");
    assert_eq!(text(BinaryOperator::GreaterEqual), "(x >= y)");
    assert_eq!(text(BinaryOperator::And), "(x & y)");
}

#[test]
fn nested_operations_keep_their_brackets() {
    let add = Expression::Binary { op: BinaryOperator::Add, left: X, right: Y };
    let product = Expression::Binary { op: BinaryOperator::Multiply, left: FIRST, right: FIRST };
    assert_eq!(float_text(vec![add, product]), "((x + y) * (x + y))");
}

#[test]
fn float_remainder_is_a_function() {
    let remainder =
        || vec![Expression::Binary { op: BinaryOperator::Modulo, left: X, right: Y }];
    assert_eq!(float_text(remainder()), "fmod(x, y)");
    assert_eq!(
        text_of(|| vector(VectorSize::Bi, ScalarKind::Float), remainder()),
        "fmod(x, y)"
    );
    assert_eq!(text_of(|| vector(VectorSize::Bi, ScalarKind::Uint), remainder()), "(x % y)");
}

#[test]
fn unsupported_binary_operators_fail() {
    let ops = [
        BinaryOperator::ExclusiveOr,
        BinaryOperator::InclusiveOr,
        BinaryOperator::LogicalAnd,
        BinaryOperator::LogicalOr,
        BinaryOperator::ShiftLeft,
        BinaryOperator::ShiftRight,
    ];
    for op in ops {
        assert_eq!(
            fault_of(
                || scalar(ScalarKind::Sint),
                vec![Expression::Binary { op, left: X, right: Y }]
            ),
            (String::new(), Error::UnsupportedBinaryOp(op))
        );
    }
}

#[test]
fn binary_operation_without_scalars_fails() {
    let op = BinaryOperator::Add;
    assert_eq!(
        fault_of(
            || Resolution::Handle(STRUCT),
            vec![Expression::Binary { op, left: X, right: Y }]
        ),
        (String::new(), Error::UnsupportedBinaryOp(op))
    );
}

#[test]
fn failure_keeps_what_was_written() {
    let op = BinaryOperator::ShiftLeft;
    let shift = Expression::Binary { op, left: X, right: Y };
    let access = Expression::Access { base: X, index: FIRST };
    assert_eq!(
        fault_of(|| scalar(ScalarKind::Sint), vec![shift, access]),
        (String::from("x["), Error::UnsupportedBinaryOp(op))
    );
}

#[test]
fn select() {
    assert_eq!(
        float_text(vec![Expression::Select { condition: X, accept: Y, reject: ONE }]),
        "(x ? y : 1)"
    );
}

#[test]
fn derivatives() {
    let text = |axis: DerivativeAxis| float_text(vec![Expression::Derivative { axis, expr: X }]);
    assert_eq!(text(DerivativeAxis::X), "metal::dfdx(x)");
    assert_eq!(text(DerivativeAxis::Y), "metal::dfdy(x)");
    assert_eq!(text(DerivativeAxis::Width), "metal::fwidth(x)");
}

#[test]
fn relational_functions() {
    let text = |fun: RelationalFunction| {
        float_text(vec![Expression::Relational { fun, argument: X }])
    };
    assert_eq!(text(RelationalFunction::All), "metal::all(x)");
    assert_eq!(text(RelationalFunction::Any), "metal::any(x)");
    assert_eq!(text(RelationalFunction::IsNan), "metal::isnan(x)");
    assert_eq!(text(RelationalFunction::IsInf), "metal::isinf(x)");
    assert_eq!(text(RelationalFunction::IsFinite), "metal::isfinite(x)");
    assert_eq!(text(RelationalFunction::IsNormal), "metal::isnormal(x)");
}

#[test]
fn math_functions() {
    let names = [
        (MathFunction::Abs, "abs"),
        (MathFunction::Min, "min"),
        (MathFunction::Max, "max"),
        (MathFunction::Clamp, "clamp"),
        (MathFunction::Cos, "cos"),
        (MathFunction::Cosh, "cosh"),
        (MathFunction::Sin, "sin"),
        (MathFunction::Sinh, "sinh"),
        (MathFunction::Tan, "tan"),
        (MathFunction::Tanh, "tanh"),
        (MathFunction::Acos, "acos"),
        (MathFunction::Asin, "asin"),
        (MathFunction::Atan, "atan"),
        (MathFunction::Atan2, "atan2"),
        (MathFunction::Ceil, "ceil"),
        (MathFunction::Floor, "floor"),
        (MathFunction::Round, "round"),
        (MathFunction::Fract, "fract"),
        (MathFunction::Trunc, "trunc"),
        (MathFunction::Modf, "modf"),
        (MathFunction::Frexp, "frexp"),
        (MathFunction::Ldexp, "ldexp"),
        (MathFunction::Exp, "exp"),
        (MathFunction::Exp2, "exp2"),
        (MathFunction::Log, "log"),
        (MathFunction::Log2, "log2"),
        (MathFunction::Pow, "pow"),
        (MathFunction::Dot, "dot"),
        (MathFunction::Cross, "cross"),
        (MathFunction::Distance, "distance"),
        (MathFunction::Length, "length"),
        (MathFunction::Normalize, "normalize"),
        (MathFunction::FaceForward, "faceforward"),
        (MathFunction::Reflect, "reflect"),
        (MathFunction::Sign, "sign"),
        (MathFunction::Fma, "fma"),
        (MathFunction::Mix, "mix"),
        (MathFunction::Step, "step"),
        (MathFunction::SmoothStep, "smoothstep"),
        (MathFunction::Sqrt, "sqrt"),
        (MathFunction::InverseSqrt, "rsqrt"),
        (MathFunction::Transpose, "transpose"),
        (MathFunction::Determinant, "determinant"),
        (MathFunction::CountOneBits, "popcount"),
        (MathFunction::ReverseBits, "reverse_bits"),
    ];
    for (fun, name) in names {
        assert_eq!(
            float_text(vec![Expression::Math { fun, arg: X, arg1: None, arg2: None }]),
            format!("metal::{}(x)", name)
        );
    }
}

#[test]
fn math_function_arguments() {
    let text = |arg1: Option<usize>, arg2: Option<usize>| {
        float_text(vec![Expression::Math { fun: MathFunction::Clamp, arg: X, arg1, arg2 }])
    };
    assert_eq!(text(Some(Y), None), "metal::clamp(x, y)");
    assert_eq!(text(Some(Y), Some(ONE)), "metal::clamp(x, y, 1)");
    assert_eq!(text(None, Some(ONE)), "metal::clamp(x, 1)");
}

#[test]
fn outer_product_fails() {
    assert_eq!(
        fault_of(
            || scalar(ScalarKind::Float),
            vec![Expression::Math {
                fun: MathFunction::Outer,
                arg: X,
                arg1: Some(Y),
                arg2: None
            }]
        ),
        (String::new(), Error::UnsupportedCall(String::from("Outer")))
    );
}

#[test]
fn casts() {
    let cast =
        |kind: ScalarKind, convert: bool| vec![Expression::As { expr: X, kind, convert }];
    assert_eq!(float_text(cast(ScalarKind::Sint, true)), "static_cast<int>(x)");
    assert_eq!(float_text(cast(ScalarKind::Uint, false)), "as_type<uint>(x)");
    assert_eq!(
        text_of(|| vector(VectorSize::Tri, ScalarKind::Sint), cast(ScalarKind::Float, true)),
        "static_cast<float3>(x)"
    );
    assert_eq!(
        text_of(|| vector(VectorSize::Bi, ScalarKind::Uint), cast(ScalarKind::Float, false)),
        "as_type<float2>(x)"
    );
}

#[test]
fn cast_of_another_type_fails() {
    assert_eq!(
        fault_of(
            || Resolution::Handle(STRUCT),
            vec![Expression::As { expr: X, kind: ScalarKind::Sint, convert: true }]
        ),
        (String::new(), Error::Validation)
    );
}

#[test]
fn calls() {
    let callee = || function("callee", || scalar(ScalarKind::Float), Vec::new());
    let call = |arguments: Vec<usize>| {
        let expressions = vec![Expression::Call { function: 0, arguments }];
        let caller = function("g", || scalar(ScalarKind::Float), expressions);
        returned(&module(types(), vec![callee(), caller]))
    };
    assert_eq!(call(Vec::new()), (String::from("callee()"), Ok(())));
    assert_eq!(call(vec![X]), (String::from("callee(x)"), Ok(())));
    assert_eq!(call(vec![X, ONE, Y]), (String::from("callee(x, 1, y)"), Ok(())));
}

#[test]
fn array_lengths() {
    let length = || vec![Expression::ArrayLength(X)];
    assert_eq!(text_of(|| array(ArraySize::Constant(0)), length()), "1");
    assert_eq!(
        fault_of(|| array(ArraySize::Dynamic), length()),
        (String::new(), Error::UnsupportedDynamicArrayLength)
    );
    assert_eq!(
        fault_of(|| scalar(ScalarKind::Float), length()),
        (String::new(), Error::Validation)
    );
}

#[test]
fn expressions_that_cannot_be_written_are_found() {
    let check = |expressions: Vec<Expression>| {
        let fun = function("g", || scalar(ScalarKind::Float), expressions);
        is_writable(&module(types(), vec![fun]))
    };
    assert!(check(vec![Expression::Load { pointer: X }]));
    // dangling
    assert!(!check(vec![Expression::Load { pointer: 9 }]));
    assert!(!check(vec![Expression::Constant(1)]));
    assert!(!check(vec![Expression::FunctionArgument(2)]));
    assert!(!check(vec![Expression::LocalVariable(2)]));
    assert!(!check(vec![Expression::GlobalVariable(5)]));
    assert!(!check(vec![Expression::Compose { ty: 2, components: Vec::new() }]));
    assert!(!check(vec![Expression::Call { function: 1, arguments: Vec::new() }]));
    // part of itself
    assert!(!check(vec![Expression::Load { pointer: FIRST }]));
    assert!(!check(vec![
        Expression::Load { pointer: FIRST + 1 },
        Expression::Unary { op: UnaryOperator::Not, expr: FIRST },
    ]));
}

#[test]
fn expressions_may_stand_in_any_order() {
    let swapped = vec![
        Expression::LocalVariable(0),
        Expression::Load { pointer: FIRST + 2 },
        Expression::Unary { op: UnaryOperator::Not, expr: FIRST },
        Expression::Load { pointer: FIRST + 1 },
    ];
    assert_eq!(float_text(swapped), "!a");
}

#[test]
fn unused_expressions_are_not_looked_at() {
    assert_eq!(
        float_text(vec![Expression::Load { pointer: 77 }, Expression::LocalVariable(1)]),
        "b"
    );
}

#[test]
fn entry_points_have_no_arguments() {
    let mut module = module(types(), Vec::new());
    let fun = function("main", || scalar(ScalarKind::Float), Vec::new());
    module.entry_points.push(EntryPoint { stage: ShaderStage::Compute, function: fun });
    assert!(is_writable(&module));
    module.entry_points[0].function.body = vec![Statement::Return { value: Some(X) }];
    assert!(!is_writable(&module));
}

#[test]
fn operands_after_a_failure_are_not_looked_at() {
    let shift = || Expression::Binary { op: BinaryOperator::ShiftLeft, left: X, right: Y };
    let fault = |text: &str| {
        (String::from(text), Error::UnsupportedBinaryOp(BinaryOperator::ShiftLeft))
    };
    let sint = || scalar(ScalarKind::Sint);
    // a dangling index, component and argument
    assert_eq!(
        fault_of(sint, vec![shift(), Expression::Access { base: FIRST, index: 99 }]),
        fault("")
    );
    assert_eq!(
        fault_of(
            || vector(VectorSize::Bi, ScalarKind::Sint),
            vec![shift(), Expression::AccessIndex { base: FIRST, index: 99 }]
        ),
        fault("")
    );
    assert_eq!(
        fault_of(
            sint,
            vec![shift(), Expression::Call { function: 0, arguments: vec![X, FIRST, 99] }]
        ),
        fault("g(x, ")
    );
    // an operand that is part of itself
    assert_eq!(
        fault_of(
            sint,
            vec![
                shift(),
                Expression::Select { condition: FIRST, accept: FIRST + 1, reject: 99 }
            ]
        ),
        fault("(")
    );
}

#[test]
fn deepest_nesting_is_written() {
    let chain = vec![
        Expression::Unary { op: UnaryOperator::Negate, expr: FIRST + 1 },
        Expression::Unary { op: UnaryOperator::Not, expr: FIRST + 2 },
        Expression::Unary { op: UnaryOperator::Negate, expr: X },
        Expression::Load { pointer: FIRST },
    ];
    assert_eq!(float_text(chain), "-!-x");
}

#[test]
fn an_expression_is_written_alike_each_time() {
    let add = Expression::Binary { op: BinaryOperator::Add, left: X, right: ONE };
    let select = Expression::Select { condition: FIRST, accept: FIRST, reject: FIRST };
    assert_eq!(float_text(vec![add, select]), "((x + 1) ? (x + 1) : (x + 1))");
}
