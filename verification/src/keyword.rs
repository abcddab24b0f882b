//! The words and symbols of Metal that stand for parts of the module, and indentation.

use crate::ir::{
    BinaryOperator, DerivativeAxis, ImageDimension, MathFunction, RelationalFunction, ScalarKind,
    StorageAccess, StorageClass, UnaryOperator, VectorSize,
};
use vstd::prelude::*;

verus! {

broadcast use crate::emission::lemma_add_associative;

/// The Metal scalar type of a kind.
pub open spec fn scalar_kind_text(kind: ScalarKind) -> Seq<char> {
    match kind {
        ScalarKind::Float => "float"@,
        ScalarKind::Sint => "int"@,
        ScalarKind::Uint => "uint"@,
        ScalarKind::Bool => "bool"@,
    }
}

/// The Metal scalar type of a kind.
pub fn scalar_kind_string(kind: ScalarKind) -> (text: &'static str)
    ensures
        text@ == scalar_kind_text(kind),
{
    match kind {
        ScalarKind::Float => "float",
        ScalarKind::Sint => "int",
        ScalarKind::Uint => "uint",
        ScalarKind::Bool => "bool",
    }
}

/// The number of components of a vector.
pub open spec fn vector_size_text(size: VectorSize) -> Seq<char> {
    match size {
        VectorSize::Bi => "2"@,
        VectorSize::Tri => "3"@,
        VectorSize::Quad => "4"@,
    }
}

/// The number of components of a vector.
pub fn vector_size_string(size: VectorSize) -> (text: &'static str)
    ensures
        text@ == vector_size_text(size),
{
    match size {
        VectorSize::Bi => "2",
        VectorSize::Tri => "3",
        VectorSize::Quad => "4",
    }
}

/// The dimension in the name of a texture type.
pub open spec fn dimension_text(dim: ImageDimension) -> Seq<char> {
    match dim {
        ImageDimension::D1 => "1d"@,
        ImageDimension::D2 => "2d"@,
        ImageDimension::D3 => "3d"@,
        ImageDimension::Cube => "cube"@,
    }
}

/// The dimension in the name of a texture type.
pub fn dimension_string(dim: ImageDimension) -> (text: &'static str)
    ensures
        text@ == dimension_text(dim),
{
    match dim {
        ImageDimension::D1 => "1d",
        ImageDimension::D2 => "2d",
        ImageDimension::D3 => "3d",
        ImageDimension::Cube => "cube",
    }
}

/// The symbol of a unary operator.
pub open spec fn unary_text(op: UnaryOperator) -> Seq<char> {
    match op {
        UnaryOperator::Negate => "-"@,
        UnaryOperator::Not => "!"@,
    }
}

/// The symbol of a unary operator.
pub fn unary_string(op: UnaryOperator) -> (text: &'static str)
    ensures
        text@ == unary_text(op),
{
    match op {
        UnaryOperator::Negate => "-",
        UnaryOperator::Not => "!",
    }
}

/// The symbol of a binary operator, if the writer supports it.
pub open spec fn binary_text(op: BinaryOperator) -> Option<Seq<char>> {
    match op {
        BinaryOperator::Add => Some("+"@),
        BinaryOperator::Subtract => Some("-"@),
        BinaryOperator::Multiply => Some("*"@),
        BinaryOperator::Divide => Some("/"@),
        BinaryOperator::Modulo => Some("%"@),
        BinaryOperator::Equal => Some("=="@),
        BinaryOperator::NotEqual => Some("!="@),
        BinaryOperator::Less => Some("<"@),
        BinaryOperator::LessEqual => Some("<="@),
        BinaryOperator::Greater => Some(">"@),
        BinaryOperator::GreaterEqual => Some(">="@),
        BinaryOperator::And => Some("&"@),
        _ => None,
    }
}

/// The symbol of a binary operator, if the writer supports it.
pub fn binary_string(op: BinaryOperator) -> (text: Option<&'static str>)
    ensures
        match binary_text(op) {
            Some(name) => text matches Some(found) && found@ == name,
            None => text is None,
        },
{
    match op {
        BinaryOperator::Add => Some("+"),
        BinaryOperator::Subtract => Some("-"),
        BinaryOperator::Multiply => Some("*"),
        BinaryOperator::Divide => Some("/"),
        BinaryOperator::Modulo => Some("%"),
        BinaryOperator::Equal => Some("=="),
        BinaryOperator::NotEqual => Some("!="),
        BinaryOperator::Less => Some("<"),
        BinaryOperator::LessEqual => Some("<="),
        BinaryOperator::Greater => Some(">"),
        BinaryOperator::GreaterEqual => Some(">="),
        BinaryOperator::And => Some("&"),
        _ => None,
    }
}

/// The function that takes the derivative along an axis.
pub open spec fn derivative_text(axis: DerivativeAxis) -> Seq<char> {
    match axis {
        DerivativeAxis::X => "dfdx"@,
        DerivativeAxis::Y => "dfdy"@,
        DerivativeAxis::Width => "fwidth"@,
    }
}

/// The function that takes the derivative along an axis.
pub fn derivative_string(axis: DerivativeAxis) -> (text: &'static str)
    ensures
        text@ == derivative_text(axis),
{
    match axis {
        DerivativeAxis::X => "dfdx",
        DerivativeAxis::Y => "dfdy",
        DerivativeAxis::Width => "fwidth",
    }
}

/// The name of a relational function.
pub open spec fn relational_text(fun: RelationalFunction) -> Seq<char> {
    match fun {
        RelationalFunction::Any => "any"@,
        RelationalFunction::All => "all"@,
        RelationalFunction::IsNan => "isnan"@,
        RelationalFunction::IsInf => "isinf"@,
        RelationalFunction::IsFinite => "isfinite"@,
        RelationalFunction::IsNormal => "isnormal"@,
    }
}

/// The name of a relational function.
pub fn relational_string(fun: RelationalFunction) -> (text: &'static str)
    ensures
        text@ == relational_text(fun),
{
    match fun {
        RelationalFunction::Any => "any",
        RelationalFunction::All => "all",
        RelationalFunction::IsNan => "isnan",
        RelationalFunction::IsInf => "isinf",
        RelationalFunction::IsFinite => "isfinite",
        RelationalFunction::IsNormal => "isnormal",
    }
}

/// The name of a math function, if Metal has it.
pub open spec fn math_text(fun: MathFunction) -> Option<Seq<char>> {
    match fun {
        MathFunction::Abs => Some("abs"@),
        MathFunction::Min => Some("min"@),
        MathFunction::Max => Some("max"@),
        MathFunction::Clamp => Some("clamp"@),
        MathFunction::Cos => Some("cos"@),
        MathFunction::Cosh => Some("cosh"@),
        MathFunction::Sin => Some("sin"@),
        MathFunction::Sinh => Some("sinh"@),
        MathFunction::Tan => Some("tan"@),
        MathFunction::Tanh => Some("tanh"@),
        MathFunction::Acos => Some("acos"@),
        MathFunction::Asin => Some("asin"@),
        MathFunction::Atan => Some("atan"@),
        MathFunction::Atan2 => Some("atan2"@),
        MathFunction::Ceil => Some("ceil"@),
        MathFunction::Floor => Some("floor"@),
        MathFunction::Round => Some("round"@),
        MathFunction::Fract => Some("fract"@),
        MathFunction::Trunc => Some("trunc"@),
        MathFunction::Modf => Some("modf"@),
        MathFunction::Frexp => Some("frexp"@),
        MathFunction::Ldexp => Some("ldexp"@),
        MathFunction::Exp => Some("exp"@),
        MathFunction::Exp2 => Some("exp2"@),
        MathFunction::Log => Some("log"@),
        MathFunction::Log2 => Some("log2"@),
        MathFunction::Pow => Some("pow"@),
        MathFunction::Dot => Some("dot"@),
        MathFunction::Cross => Some("cross"@),
        MathFunction::Distance => Some("distance"@),
        MathFunction::Length => Some("length"@),
        MathFunction::Normalize => Some("normalize"@),
        MathFunction::FaceForward => Some("faceforward"@),
        MathFunction::Reflect => Some("reflect"@),
        MathFunction::Sign => Some("sign"@),
        MathFunction::Fma => Some("fma"@),
        MathFunction::Mix => Some("mix"@),
        MathFunction::Step => Some("step"@),
        MathFunction::SmoothStep => Some("smoothstep"@),
        MathFunction::Sqrt => Some("sqrt"@),
        MathFunction::InverseSqrt => Some("rsqrt"@),
        MathFunction::Transpose => Some("transpose"@),
        MathFunction::Determinant => Some("determinant"@),
        MathFunction::CountOneBits => Some("popcount"@),
        MathFunction::ReverseBits => Some("reverse_bits"@),
        MathFunction::Outer => None,
    }
}

/// The name of a math function, if Metal has it.
pub fn math_string(fun: MathFunction) -> (text: Option<&'static str>)
    ensures
        match math_text(fun) {
            Some(name) => text matches Some(found) && found@ == name,
            None => text is None,
        },
{
    match fun {
        MathFunction::Abs => Some("abs"),
        MathFunction::Min => Some("min"),
        MathFunction::Max => Some("max"),
        MathFunction::Clamp => Some("clamp"),
        MathFunction::Cos => Some("cos"),
        MathFunction::Cosh => Some("cosh"),
        MathFunction::Sin => Some("sin"),
        MathFunction::Sinh => Some("sinh"),
        MathFunction::Tan => Some("tan"),
        MathFunction::Tanh => Some("tanh"),
        MathFunction::Acos => Some("acos"),
        MathFunction::Asin => Some("asin"),
        MathFunction::Atan => Some("atan"),
        MathFunction::Atan2 => Some("atan2"),
        MathFunction::Ceil => Some("ceil"),
        MathFunction::Floor => Some("floor"),
        MathFunction::Round => Some("round"),
        MathFunction::Fract => Some("fract"),
        MathFunction::Trunc => Some("trunc"),
        MathFunction::Modf => Some("modf"),
        MathFunction::Frexp => Some("frexp"),
        MathFunction::Ldexp => Some("ldexp"),
        MathFunction::Exp => Some("exp"),
        MathFunction::Exp2 => Some("exp2"),
        MathFunction::Log => Some("log"),
        MathFunction::Log2 => Some("log2"),
        MathFunction::Pow => Some("pow"),
        MathFunction::Dot => Some("dot"),
        MathFunction::Cross => Some("cross"),
        MathFunction::Distance => Some("distance"),
        MathFunction::Length => Some("length"),
        MathFunction::Normalize => Some("normalize"),
        MathFunction::FaceForward => Some("faceforward"),
        MathFunction::Reflect => Some("reflect"),
        MathFunction::Sign => Some("sign"),
        MathFunction::Fma => Some("fma"),
        MathFunction::Mix => Some("mix"),
        MathFunction::Step => Some("step"),
        MathFunction::SmoothStep => Some("smoothstep"),
        MathFunction::Sqrt => Some("sqrt"),
        MathFunction::InverseSqrt => Some("rsqrt"),
        MathFunction::Transpose => Some("transpose"),
        MathFunction::Determinant => Some("determinant"),
        MathFunction::CountOneBits => Some("popcount"),
        MathFunction::ReverseBits => Some("reverse_bits"),
        MathFunction::Outer => None,
    }
}

/// The name of a vector's component.
pub open spec fn component_text(index: nat) -> Seq<char> {
    if index == 0 {
        "x"@
    } else if index == 1 {
        "y"@
    } else if index == 2 {
        "z"@
    } else {
        "w"@
    }
}

/// The name of a vector's component.
pub fn component_string(index: u32) -> (text: &'static str)
    requires
        index < 4,
    ensures
        text@ == component_text(index as nat),
{
    match index {
        0 => "x",
        1 => "y",
        2 => "z",
        _ => "w",
    }
}

/// How a texture type names the accesses to a storage image, if there are any.
pub open spec fn access_text(access: StorageAccess) -> Option<Seq<char>> {
    if access.load && access.store {
        Some("read_write"@)
    } else if access.store {
        Some("write"@)
    } else if access.load {
        Some("read"@)
    } else {
        None
    }
}

/// How a texture type names the accesses to a storage image, if there are any.
pub fn access_string(access: StorageAccess) -> (text: Option<&'static str>)
    ensures
        match access_text(access) {
            Some(name) => text matches Some(found) && found@ == name,
            None => text is None,
        },
{
    if access.load && access.store {
        Some("read_write")
    } else if access.store {
        Some("write")
    } else if access.load {
        Some("read")
    } else {
        None
    }
}

/// The address space of a pointer, if pointers of the storage class are defined at all.
pub open spec fn pointer_class_text(class: StorageClass) -> Option<Seq<char>> {
    match class {
        StorageClass::Input | StorageClass::Output => None,
        StorageClass::Uniform => Some("constant"@),
        StorageClass::Storage => Some("device"@),
        _ => Some(""@),
    }
}

/// The address space of a pointer, if pointers of the storage class are defined at all.
pub fn pointer_class_string(class: StorageClass) -> (text: Option<&'static str>)
    ensures
        match pointer_class_text(class) {
            Some(name) => text matches Some(found) && found@ == name,
            None => text is None,
        },
{
    match class {
        StorageClass::Input | StorageClass::Output => None,
        StorageClass::Uniform => Some("constant"),
        StorageClass::Storage => Some("device"),
        StorageClass::Handle
        | StorageClass::Private
        | StorageClass::Function
        | StorageClass::WorkGroup
        | StorageClass::PushConstant => Some(""),
    }
}

/// What follows an item of a list.
pub open spec fn separator_text(is_last: bool) -> Seq<char> {
    if is_last {
        ""@
    } else {
        ","@
    }
}

/// What follows an item of a list.
pub fn separate(is_last: bool) -> (text: &'static str)
    ensures
        text@ == separator_text(is_last),
{
    if is_last {
        ""
    } else {
        ","
    }
}

/// The indentation of a line that is nested `level` deep.
pub open spec fn indentation(level: nat) -> Seq<char>
    decreases level,
{
    if level == 0 {
        Seq::empty()
    } else {
        indentation((level - 1) as nat) + "    "@
    }
}

/// The depth to which a line is nested.
#[derive(Clone, Copy, Debug, PartialEq, Eq, Structural)]
pub struct Level(pub usize);

impl Level {
    pub open spec fn depth(self) -> nat {
        self.0 as nat
    }

    /// One level deeper.
    pub fn next(&self) -> (level: Level)
        requires
            self.depth() < usize::MAX,
        ensures
            level.depth() == self.depth() + 1,
    {
        Level(self.0 + 1)
    }

    /// Appends the indentation of a line at this level.
    pub fn fmt(&self, out: &mut String)
        ensures
            final(out)@ == old(out)@ + indentation(self.depth()),
    {
        let ghost before = out@;
        let mut i: usize = 0;
        assert(out@ =~= before + indentation(0));
        while i < self.0
            invariant
                i <= self.0,
                out@ == before + indentation(i as nat),
            decreases self.0 - i,
        {
            out.append("    ");
            i = i + 1;
        }
    }
}

} // verus!
