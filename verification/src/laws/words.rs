//! The words and symbols of Metal.

use crate::interface;
use crate::ir::{
    BinaryOperator, DerivativeAxis, GlobalUse, ImageDimension, MathFunction, RelationalFunction,
    ScalarKind, ShaderStage, StorageAccess, StorageClass, TypeInner, UnaryOperator, VectorSize,
};
use crate::keyword;
use crate::options::LocationMode;
use vstd::prelude::*;

verus! {

/// Each kind of scalar has its Metal type.
pub proof fn law_scalar_words(kind: ScalarKind)
    ensures
        kind == ScalarKind::Float <==> keyword::scalar_kind_text(kind) == "float"@,
        kind == ScalarKind::Sint <==> keyword::scalar_kind_text(kind) == "int"@,
        kind == ScalarKind::Uint <==> keyword::scalar_kind_text(kind) == "uint"@,
        kind == ScalarKind::Bool <==> keyword::scalar_kind_text(kind) == "bool"@,
{
    reveal_strlit("float");
    reveal_strlit("int");
    reveal_strlit("uint");
    reveal_strlit("bool");
    let text = keyword::scalar_kind_text(kind);
    assert("bool"@[0] != "uint"@[0]);
    assert(text.len() == 5 || text.len() == 3 || text.len() == 4);
}

/// The size of a vector is its number of components.
pub proof fn law_vector_sizes()
    ensures
        keyword::vector_size_text(VectorSize::Bi) == seq!['2'],
        keyword::vector_size_text(VectorSize::Tri) == seq!['3'],
        keyword::vector_size_text(VectorSize::Quad) == seq!['4'],
{
    reveal_strlit("2");
    reveal_strlit("3");
    reveal_strlit("4");
    assert("2"@ =~= seq!['2']);
    assert("3"@ =~= seq!['3']);
    assert("4"@ =~= seq!['4']);
}

/// Each dimension of an image has its name.
pub proof fn law_dimensions()
    ensures
        keyword::dimension_text(ImageDimension::D1) == seq!['1', 'd'],
        keyword::dimension_text(ImageDimension::D2) == seq!['2', 'd'],
        keyword::dimension_text(ImageDimension::D3) == seq!['3', 'd'],
        keyword::dimension_text(ImageDimension::Cube) == seq!['c', 'u', 'b', 'e'],
{
    reveal_strlit("1d");
    reveal_strlit("2d");
    reveal_strlit("3d");
    reveal_strlit("cube");
    assert("1d"@ =~= seq!['1', 'd']);
    assert("2d"@ =~= seq!['2', 'd']);
    assert("3d"@ =~= seq!['3', 'd']);
    assert("cube"@ =~= seq!['c', 'u', 'b', 'e']);
}

/// The components of a vector are `x`, `y`, `z` and `w`, in this order.
pub proof fn law_components()
    ensures
        keyword::component_text(0) == seq!['x'],
        keyword::component_text(1) == seq!['y'],
        keyword::component_text(2) == seq!['z'],
        keyword::component_text(3) == seq!['w'],
{
    reveal_strlit("x");
    reveal_strlit("y");
    reveal_strlit("z");
    reveal_strlit("w");
    assert("x"@ =~= seq!['x']);
    assert("y"@ =~= seq!['y']);
    assert("z"@ =~= seq!['z']);
    assert("w"@ =~= seq!['w']);
}

/// Each operator has the symbol that it has in C; those without a case here are not supported.
pub proof fn law_operators(op: BinaryOperator)
    ensures
        keyword::unary_text(UnaryOperator::Negate) == seq!['-'],
        keyword::unary_text(UnaryOperator::Not) == seq!['!'],
        match op {
            BinaryOperator::Add => keyword::binary_text(op) == Some(seq!['+']),
            BinaryOperator::Subtract => keyword::binary_text(op) == Some(seq!['-']),
            BinaryOperator::Multiply => keyword::binary_text(op) == Some(seq!['*']),
            BinaryOperator::Divide => keyword::binary_text(op) == Some(seq!['/']),
            BinaryOperator::Modulo => keyword::binary_text(op) == Some(seq!['%']),
            BinaryOperator::Equal => keyword::binary_text(op) == Some(seq!['=', '=']),
            BinaryOperator::NotEqual => keyword::binary_text(op) == Some(seq!['!', '=']),
            BinaryOperator::Less => keyword::binary_text(op) == Some(seq!['<']),
            BinaryOperator::LessEqual => keyword::binary_text(op) == Some(seq!['<', '=']),
            BinaryOperator::Greater => keyword::binary_text(op) == Some(seq!['>']),
            BinaryOperator::GreaterEqual => keyword::binary_text(op) == Some(seq!['>', '=']),
            BinaryOperator::And => keyword::binary_text(op) == Some(seq!['&']),
            BinaryOperator::ExclusiveOr
            | BinaryOperator::InclusiveOr
            | BinaryOperator::LogicalAnd
            | BinaryOperator::LogicalOr
            | BinaryOperator::ShiftLeft
            | BinaryOperator::ShiftRight => keyword::binary_text(op) is None,
        },
{
    reveal_strlit("!");
    reveal_strlit("+");
    reveal_strlit("-");
    reveal_strlit("*");
    reveal_strlit("/");
    reveal_strlit("%");
    reveal_strlit("==");
    reveal_strlit("!=");
    reveal_strlit("<");
    reveal_strlit("<=");
    reveal_strlit(">");
    reveal_strlit(">=");
    reveal_strlit("&");
    assert("!"@ =~= seq!['!']);
    assert("+"@ =~= seq!['+']);
    assert("-"@ =~= seq!['-']);
    assert("*"@ =~= seq!['*']);
    assert("/"@ =~= seq!['/']);
    assert("%"@ =~= seq!['%']);
    assert("=="@ =~= seq!['=', '=']);
    assert("!="@ =~= seq!['!', '=']);
    assert("<"@ =~= seq!['<']);
    assert("<="@ =~= seq!['<', '=']);
    assert(">"@ =~= seq!['>']);
    assert(">="@ =~= seq!['>', '=']);
    assert("&"@ =~= seq!['&']);
}

/// Each derivative and each relational function has its name in Metal.
pub proof fn law_function_words()
    ensures
        keyword::derivative_text(DerivativeAxis::X) == "dfdx"@,
        keyword::derivative_text(DerivativeAxis::Y) == "dfdy"@,
        keyword::derivative_text(DerivativeAxis::Width) == "fwidth"@,
        keyword::relational_text(RelationalFunction::All) == "all"@,
        keyword::relational_text(RelationalFunction::Any) == "any"@,
        keyword::relational_text(RelationalFunction::IsNan) == "isnan"@,
        keyword::relational_text(RelationalFunction::IsInf) == "isinf"@,
        keyword::relational_text(RelationalFunction::IsFinite) == "isfinite"@,
        keyword::relational_text(RelationalFunction::IsNormal) == "isnormal"@,
{
}

/// Each math function but the outer product has its name in Metal.
pub proof fn law_math_words(fun: MathFunction)
    ensures
        keyword::math_text(fun) == match fun {
            MathFunction::Abs => Some("abs"@),
            MathFunction::Min => Some("min"@),
            MathFunction::Max => Some("max"@),
            MathFunction::Clamp => Some("clamp"@),
            MathFunction::Cos => Some("cos"@),
            MathFunction::Cosh => Some("cosh"@),
            MathFunction::Sin => Some("sin"@),
            MathFunction::Sinh => Some("sinh"@),
            MathFunction::Tan => Some("tan"@),
            MathFunction::Tanh => Some("tanh"@),
            MathFunction::Acos => Some("acos"@),
            MathFunction::Asin => Some("asin"@),
            MathFunction::Atan => Some("atan"@),
            MathFunction::Atan2 => Some("atan2"@),
            MathFunction::Ceil => Some("ceil"@),
            MathFunction::Floor => Some("floor"@),
            MathFunction::Round => Some("round"@),
            MathFunction::Fract => Some("fract"@),
            MathFunction::Trunc => Some("trunc"@),
            MathFunction::Modf => Some("modf"@),
            MathFunction::Frexp => Some("frexp"@),
            MathFunction::Ldexp => Some("ldexp"@),
            MathFunction::Exp => Some("exp"@),
            MathFunction::Exp2 => Some("exp2"@),
            MathFunction::Log => Some("log"@),
            MathFunction::Log2 => Some("log2"@),
            MathFunction::Pow => Some("pow"@),
            MathFunction::Dot => Some("dot"@),
            MathFunction::Cross => Some("cross"@),
            MathFunction::Distance => Some("distance"@),
            MathFunction::Length => Some("length"@),
            MathFunction::Normalize => Some("normalize"@),
            MathFunction::FaceForward => Some("faceforward"@),
            MathFunction::Reflect => Some("reflect"@),
            MathFunction::Sign => Some("sign"@),
            MathFunction::Fma => Some("fma"@),
            MathFunction::Mix => Some("mix"@),
            MathFunction::Step => Some("step"@),
            MathFunction::SmoothStep => Some("smoothstep"@),
            MathFunction::Sqrt => Some("sqrt"@),
            MathFunction::InverseSqrt => Some("rsqrt"@),
            MathFunction::Transpose => Some("transpose"@),
            MathFunction::Determinant => Some("determinant"@),
            MathFunction::CountOneBits => Some("popcount"@),
            MathFunction::ReverseBits => Some("reverse_bits"@),
            MathFunction::Outer => None,
        },
{
}

/// An image is read from if it is loaded, and written to if it is stored to.
pub proof fn law_accesses(access: StorageAccess)
    ensures
        access.load && access.store ==> keyword::access_text(access) == Some("read_write"@),
        access.load && !access.store ==> keyword::access_text(access) == Some("read"@),
        !access.load && access.store ==> keyword::access_text(access) == Some("write"@),
        !access.load && !access.store ==> keyword::access_text(access) is None,
{
}

/// Pointers into uniform memory are constant, those into storage are in device memory, those to
/// inputs and outputs do not exist, and others name no address space.
pub proof fn law_address_spaces(class: StorageClass)
    ensures
        keyword::pointer_class_text(class) is None <==> class == StorageClass::Input || class
            == StorageClass::Output,
        class == StorageClass::Uniform ==> keyword::pointer_class_text(class) == Some("constant"@),
        class == StorageClass::Storage ==> keyword::pointer_class_text(class) == Some("device"@),
        class != StorageClass::Input && class != StorageClass::Output && class
            != StorageClass::Uniform && class != StorageClass::Storage
            ==> keyword::pointer_class_text(class) == Some(Seq::<char>::empty()),
{
    reveal_strlit("");
    assert(""@ =~= Seq::<char>::empty());
}

/// Nothing follows the last item of a list, and a comma follows every other.
pub proof fn law_separators()
    ensures
        keyword::separator_text(true) == Seq::<char>::empty(),
        keyword::separator_text(false) == seq![','],
{
    reveal_strlit("");
    reveal_strlit(",");
    assert(""@ =~= Seq::<char>::empty());
    assert(","@ =~= seq![',']);
}

/// Each stage has its word, and its inputs and outputs have their roles: a vertex stage reads
/// attributes and hands on what a fragment stage takes, which writes colours.
pub proof fn law_stages()
    ensures
        interface::stage_text(ShaderStage::Vertex) == "vertex"@,
        interface::stage_text(ShaderStage::Fragment) == "fragment"@,
        interface::stage_text(ShaderStage::Compute) == "kernel"@,
        interface::input_mode(ShaderStage::Vertex) == LocationMode::VertexInput,
        interface::output_mode(ShaderStage::Vertex) == interface::input_mode(ShaderStage::Fragment),
        interface::input_mode(ShaderStage::Fragment) == LocationMode::Intermediate,
        interface::output_mode(ShaderStage::Fragment) == LocationMode::FragmentOutput,
        interface::input_mode(ShaderStage::Compute) == LocationMode::Uniform,
        interface::output_mode(ShaderStage::Compute) == LocationMode::Uniform,
{
}

/// A parameter has the role of an input or an output of its stage if it is one in the render
/// pipeline, and is uniform otherwise.
pub proof fn law_parameter_roles(stage: ShaderStage, class: StorageClass)
    ensures
        class == StorageClass::Input ==> interface::parameter_mode(stage, class)
            == interface::input_mode(stage),
        class == StorageClass::Output ==> interface::parameter_mode(stage, class)
            == interface::output_mode(stage),
        class != StorageClass::Input && class != StorageClass::Output ==> interface::parameter_mode(
            stage,
            class,
        ) == LocationMode::Uniform,
{
}

/// A variable is used if it is read or written.
pub proof fn law_used(usage: GlobalUse)
    ensures
        usage.is_used() <==> usage.read || usage.write,
{
}

/// Scalars and vectors have their kind, matrices are floating point, and others have none.
pub proof fn law_scalar_kinds(inner: TypeInner)
    ensures
        match inner {
            TypeInner::Scalar { kind, .. } => inner.scalar_kind_spec() == Some(kind),
            TypeInner::Vector { kind, .. } => inner.scalar_kind_spec() == Some(kind),
            TypeInner::Matrix { .. } => inner.scalar_kind_spec() == Some(ScalarKind::Float),
            TypeInner::Pointer { .. }
            | TypeInner::Array { .. }
            | TypeInner::Struct { .. }
            | TypeInner::Image { .. }
            | TypeInner::Sampler { .. } => inner.scalar_kind_spec() is None,
        },
{
}

} // verus!
