//! The shader module that the writer reads.
//!
//! A module comes to the writer with its identifiers assigned: every type, member, variable,
//! argument, function and entry point carries the name under which it appears in the output, and
//! every loop that needs a gate variable carries the name of that variable. Each function carries
//! what type resolution found for its expressions.

use crate::typing::{ResolveError, Typifier};
use vstd::prelude::*;

verus! {

/// Index of a type in `Module::types`.
pub type TypeHandle = usize;

/// Index of a constant in `Module::constants`.
pub type ConstantHandle = usize;

/// Index of a global variable in `Module::global_variables`.
pub type GlobalHandle = usize;

/// Index of a function in `Module::functions`.
pub type FunctionHandle = usize;

/// Index of a local variable in `Function::local_variables`.
pub type LocalHandle = usize;

/// Index of an expression in `Function::expressions`.
pub type ExpressionHandle = usize;

#[derive(Clone, Copy, Debug, PartialEq, Eq, Structural)]
pub enum ShaderStage {
    Vertex,
    Fragment,
    Compute,
}

#[derive(Clone, Copy, Debug, PartialEq, Eq, Structural)]
pub enum StorageClass {
    Function,
    Handle,
    Input,
    Output,
    Private,
    Storage,
    Uniform,
    WorkGroup,
    PushConstant,
}

/// Values that the pipeline provides or consumes without a location.
#[derive(Clone, Copy, Debug, PartialEq, Eq, Structural)]
pub enum BuiltIn {
    BaseInstance,
    BaseVertex,
    ClipDistance,
    InstanceIndex,
    PointSize,
    Position,
    VertexIndex,
    FragCoord,
    FragDepth,
    FrontFacing,
    SampleIndex,
    GlobalInvocationId,
    LocalInvocationId,
    LocalInvocationIndex,
    WorkGroupId,
}

#[derive(Clone, Copy, Debug, PartialEq, Eq, Structural)]
pub enum Binding {
    BuiltIn(BuiltIn),
    Location(u32),
    Resource { group: u32, binding: u32 },
}

#[derive(Clone, Copy, Debug, PartialEq, Eq, Structural)]
pub enum VectorSize {
    Bi,
    Tri,
    Quad,
}

#[derive(Clone, Copy, Debug, PartialEq, Eq, Structural)]
pub enum ScalarKind {
    Sint,
    Uint,
    Float,
    Bool,
}

#[derive(Clone, Copy, Debug, PartialEq, Eq, Structural)]
pub enum ArraySize {
    Constant(ConstantHandle),
    Dynamic,
}

#[derive(Clone, Copy, Debug, PartialEq, Eq, Structural)]
pub enum ImageDimension {
    D1,
    D2,
    D3,
    Cube,
}

/// How a shader uses an image. A storage image carries the scalar kind that its texel format
/// has in the shader.
#[derive(Clone, Copy, Debug, PartialEq, Eq, Structural)]
pub enum ImageClass {
    Sampled { kind: ScalarKind, multi: bool },
    Depth,
    Storage(ScalarKind),
}

#[derive(Debug)]
pub struct StructMember {
    pub name: String,
    pub ty: TypeHandle,
}

#[derive(Debug)]
pub enum TypeInner {
    Scalar { kind: ScalarKind, width: u8 },
    Vector { size: VectorSize, kind: ScalarKind, width: u8 },
    Matrix { columns: VectorSize, rows: VectorSize, width: u8 },
    Pointer { base: TypeHandle, class: StorageClass },
    Array { base: TypeHandle, size: ArraySize, stride: Option<u32> },
    Struct { block: bool, members: Vec<StructMember> },
    Image { dim: ImageDimension, arrayed: bool, class: ImageClass },
    Sampler { comparison: bool },
}

#[derive(Debug)]
pub struct Type {
    pub name: String,
    pub inner: TypeInner,
}

/// A floating-point literal: the shortest decimal text of the number, and whether the number has
/// no fractional part.
#[derive(Debug)]
pub struct FloatLiteral {
    pub digits: String,
    pub whole: bool,
}

#[derive(Debug)]
pub enum ScalarValue {
    Sint(i64),
    Uint(u64),
    Float(FloatLiteral),
    Bool(bool),
}

#[derive(Debug)]
pub enum ConstantInner {
    Scalar { width: u8, value: ScalarValue },
    Composite { ty: TypeHandle, components: Vec<ConstantHandle> },
}

#[derive(Debug)]
pub struct Constant {
    pub inner: ConstantInner,
}

/// The accesses that a shader makes to a storage image.
#[derive(Clone, Copy, Debug, PartialEq, Eq, Structural)]
pub struct StorageAccess {
    pub load: bool,
    pub store: bool,
}

#[derive(Debug)]
pub struct GlobalVariable {
    pub name: String,
    pub class: StorageClass,
    pub binding: Option<Binding>,
    pub ty: TypeHandle,
    pub init: Option<ConstantHandle>,
    pub storage_access: StorageAccess,
}

#[derive(Debug)]
pub struct LocalVariable {
    pub name: String,
    pub ty: TypeHandle,
    pub init: Option<ConstantHandle>,
}

#[derive(Debug)]
pub struct FunctionArgument {
    pub name: String,
    pub ty: TypeHandle,
}

/// How a function uses one global variable.
#[derive(Clone, Copy, Debug, PartialEq, Eq, Structural)]
pub struct GlobalUse {
    pub read: bool,
    pub write: bool,
}

#[derive(Clone, Copy, Debug, PartialEq, Eq, Structural)]
pub enum UnaryOperator {
    Negate,
    Not,
}

#[derive(Clone, Copy, Debug, PartialEq, Eq, Structural)]
pub enum BinaryOperator {
    Add,
    Subtract,
    Multiply,
    Divide,
    Modulo,
    Equal,
    NotEqual,
    Less,
    LessEqual,
    Greater,
    GreaterEqual,
    And,
    ExclusiveOr,
    InclusiveOr,
    LogicalAnd,
    LogicalOr,
    ShiftLeft,
    ShiftRight,
}

#[derive(Clone, Copy, Debug, PartialEq, Eq, Structural)]
pub enum DerivativeAxis {
    X,
    Y,
    Width,
}

#[derive(Clone, Copy, Debug, PartialEq, Eq, Structural)]
pub enum RelationalFunction {
    All,
    Any,
    IsNan,
    IsInf,
    IsFinite,
    IsNormal,
}

#[derive(Clone, Copy, Debug, PartialEq, Eq, Structural)]
pub enum MathFunction {
    // comparison
    Abs,
    Min,
    Max,
    Clamp,
    // trigonometry
    Cos,
    Cosh,
    Sin,
    Sinh,
    Tan,
    Tanh,
    Acos,
    Asin,
    Atan,
    Atan2,
    // decomposition
    Ceil,
    Floor,
    Round,
    Fract,
    Trunc,
    Modf,
    Frexp,
    Ldexp,
    // exponent
    Exp,
    Exp2,
    Log,
    Log2,
    Pow,
    // geometry
    Dot,
    Outer,
    Cross,
    Distance,
    Length,
    Normalize,
    FaceForward,
    Reflect,
    // computational
    Sign,
    Fma,
    Mix,
    Step,
    SmoothStep,
    Sqrt,
    InverseSqrt,
    Transpose,
    Determinant,
    // bits
    CountOneBits,
    ReverseBits,
}

#[derive(Clone, Copy, Debug, PartialEq, Eq, Structural)]
pub enum SampleLevel {
    Auto,
    Zero,
    Exact(ExpressionHandle),
    Bias(ExpressionHandle),
    Gradient { x: ExpressionHandle, y: ExpressionHandle },
}

#[derive(Debug)]
pub enum Expression {
    Access { base: ExpressionHandle, index: ExpressionHandle },
    AccessIndex { base: ExpressionHandle, index: u32 },
    Constant(ConstantHandle),
    Compose { ty: TypeHandle, components: Vec<ExpressionHandle> },
    FunctionArgument(u32),
    GlobalVariable(GlobalHandle),
    LocalVariable(LocalHandle),
    Load { pointer: ExpressionHandle },
    ImageSample {
        image: ExpressionHandle,
        sampler: ExpressionHandle,
        coordinate: ExpressionHandle,
        array_index: Option<ExpressionHandle>,
        offset: Option<ConstantHandle>,
        level: SampleLevel,
        depth_ref: Option<ExpressionHandle>,
    },
    ImageLoad {
        image: ExpressionHandle,
        coordinate: ExpressionHandle,
        array_index: Option<ExpressionHandle>,
        index: Option<ExpressionHandle>,
    },
    Unary { op: UnaryOperator, expr: ExpressionHandle },
    Binary { op: BinaryOperator, left: ExpressionHandle, right: ExpressionHandle },
    Select { condition: ExpressionHandle, accept: ExpressionHandle, reject: ExpressionHandle },
    Derivative { axis: DerivativeAxis, expr: ExpressionHandle },
    Relational { fun: RelationalFunction, argument: ExpressionHandle },
    Math {
        fun: MathFunction,
        arg: ExpressionHandle,
        arg1: Option<ExpressionHandle>,
        arg2: Option<ExpressionHandle>,
    },
    As { expr: ExpressionHandle, kind: ScalarKind, convert: bool },
    Call { function: FunctionHandle, arguments: Vec<ExpressionHandle> },
    ArrayLength(ExpressionHandle),
}

#[derive(Debug)]
pub struct SwitchCase {
    pub value: i32,
    pub body: Vec<Statement>,
    pub fall_through: bool,
}

/// A statement of a function body.
///
/// A loop's `gate_name` is the identifier of the variable that tells its first iteration from the
/// later ones; it is read only where `continuing` is not empty.
#[derive(Debug)]
pub enum Statement {
    Block(Vec<Statement>),
    If { condition: ExpressionHandle, accept: Vec<Statement>, reject: Vec<Statement> },
    Switch { selector: ExpressionHandle, cases: Vec<SwitchCase>, default: Vec<Statement> },
    Loop { body: Vec<Statement>, continuing: Vec<Statement>, gate_name: String },
    Break,
    Continue,
    Return { value: Option<ExpressionHandle> },
    Kill,
    Store { pointer: ExpressionHandle, value: ExpressionHandle },
}

#[derive(Debug)]
pub struct Function {
    pub name: String,
    pub arguments: Vec<FunctionArgument>,
    pub return_type: Option<TypeHandle>,
    pub local_variables: Vec<LocalVariable>,
    /// One entry for each global variable, in the order of `Module::global_variables`.
    pub global_usage: Vec<GlobalUse>,
    pub expressions: Vec<Expression>,
    pub body: Vec<Statement>,
    /// What type resolution found for `expressions`.
    pub typing: Result<Typifier, ResolveError>,
}

/// An entry point; its name is that of its function.
#[derive(Debug)]
pub struct EntryPoint {
    pub stage: ShaderStage,
    pub function: Function,
}

#[derive(Debug)]
pub struct Module {
    pub types: Vec<Type>,
    pub constants: Vec<Constant>,
    pub global_variables: Vec<GlobalVariable>,
    pub functions: Vec<Function>,
    pub entry_points: Vec<EntryPoint>,
}

impl TypeInner {
    /// The kind of the scalars that a scalar, vector or matrix is made of.
    pub open spec fn scalar_kind_spec(self) -> Option<ScalarKind> {
        match self {
            TypeInner::Scalar { kind, .. } => Some(kind),
            TypeInner::Vector { kind, .. } => Some(kind),
            TypeInner::Matrix { .. } => Some(ScalarKind::Float),
            _ => None,
        }
    }

    /// The kind of the scalars that a scalar, vector or matrix is made of.
    pub fn scalar_kind(&self) -> (kind: Option<ScalarKind>)
        ensures
            kind == self.scalar_kind_spec(),
    {
        match self {
            TypeInner::Scalar { kind, .. } => Some(*kind),
            TypeInner::Vector { kind, .. } => Some(*kind),
            TypeInner::Matrix { .. } => Some(ScalarKind::Float),
            _ => None,
        }
    }
}

impl GlobalUse {
    /// The use of a variable that is not touched.
    pub fn empty() -> (usage: GlobalUse)
        ensures
            usage == (GlobalUse { read: false, write: false }),
    {
        GlobalUse { read: false, write: false }
    }

    /// Whether the variable is touched at all.
    pub open spec fn is_used(self) -> bool {
        self.read || self.write
    }

    /// Whether the variable is not touched.
    pub fn is_empty(&self) -> (empty: bool)
        ensures
            empty == !self.is_used(),
    {
        !self.read && !self.write
    }
}

} // verus!
