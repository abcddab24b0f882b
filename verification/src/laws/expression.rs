//! What expressions are written as, in terms of what their operands are written as.

use crate::context::ExpressionContext;
use crate::decimal;
use crate::emission::Emission;
use crate::error::Fault;
use crate::grammar::agreement;
use crate::ir::{
    ArraySize, BinaryOperator, Binding, ConstantHandle, DerivativeAxis, Expression,
    ExpressionHandle, FunctionHandle, GlobalHandle, LocalHandle, MathFunction, RelationalFunction, SampleLevel,
    ScalarKind, StorageClass, TypeHandle, TypeInner, UnaryOperator,
};
use crate::keyword;
use crate::laws::depth;
use crate::laws::sequence;
use vstd::prelude::*;

verus! {

/// The steps that write expressions.
pub open spec fn written(
    context: ExpressionContext<'_>,
    handles: Seq<ExpressionHandle>,
) -> Seq<Emission> {
    Seq::new(handles.len(), |i: int| context.expression_text(handles[i]))
}

/// The text of a further argument, if there is one.
pub open spec fn further(
    context: ExpressionContext<'_>,
    operand: Option<ExpressionHandle>,
) -> Seq<char> {
    match operand {
        Some(operand) => seq![',', ' '] + context.expression_text(operand).text,
        None => Seq::empty(),
    }
}

/// The fault of a further argument, if there is one.
pub open spec fn further_fault(
    context: ExpressionContext<'_>,
    operand: Option<ExpressionHandle>,
) -> Option<Fault> {
    match operand {
        Some(operand) => context.expression_text(operand).fault,
        None => None,
    }
}

/// An expression is written as its operands are, whatever the depth: its text is the one that its
/// kind gives to the texts of its operands.
proof fn lemma_unfold(context: ExpressionContext<'_>, handle: ExpressionHandle)
    requires
        handle < context.function.expressions@.len(),
    ensures
        ({
            let node = context.node_text(
                context.function.expressions@[handle as int],
                context.texts(),
            );
            &&& context.expression_text(handle).fault == node.fault
            &&& node.is_defined() ==> context.expression_text(handle) == node
        }),
{
    let n = context.function.expressions@.len();
    let expression = context.function.expressions@[handle as int];
    let node = context.node_text(expression, context.texts());
    if context.expression_text(handle).is_defined() {
        context.lemma_expression_text(handle);
    } else if node.is_defined() {
        let f = context.texts();
        let g = context.texts_within(n);
        context.lemma_expression_within(handle, n + 1);
        assert((n + 1 - 1) as nat == n);
        assert forall|operand: ExpressionHandle| agreement::agrees(
            #[trigger] f(operand),
            g(operand),
        ) by {
            reveal(ExpressionContext::expression_within);
        }
        context.lemma_node_agree(expression, f, g);
        depth::law_expression_depth(context, handle, n + 1);
    }
}

/// An expression that does not exist is not written.
pub proof fn law_dangling(context: ExpressionContext<'_>, handle: ExpressionHandle)
    requires
        handle >= context.function.expressions@.len(),
    ensures
        context.expression_text(handle) == Emission::undefined(),
{
    context.lemma_expression_within(handle, context.function.expressions@.len());
}

/// An element is reached by its index in square brackets.
pub proof fn law_access(
    context: ExpressionContext<'_>,
    handle: ExpressionHandle,
    base: ExpressionHandle,
    index: ExpressionHandle,
)
    requires
        handle < context.function.expressions@.len(),
        context.function.expressions@[handle as int] == (Expression::Access { base, index }),
    ensures
        ({
            let whole = context.expression_text(handle);
            let a = context.expression_text(base);
            let b = context.expression_text(index);
            &&& whole.fault == sequence::earlier(a.fault, b.fault)
            &&& whole.fault is None ==> whole.text == a.text + "["@ + b.text + "]"@
        }),
{
    lemma_unfold(context, handle);
    reveal(ExpressionContext::node_text);
}

/// A component is reached as its type asks: a member of a structure by its name, one of a vector
/// by its letter, one of a matrix or an array by its number in square brackets. One of anything
/// else is the whole. A member that the structure does not have, or a fifth component of a
/// vector, does not exist.
pub proof fn law_access_index(
    context: ExpressionContext<'_>,
    handle: ExpressionHandle,
    base: ExpressionHandle,
    index: u32,
)
    requires
        handle < context.function.expressions@.len(),
        context.function.expressions@[handle as int] == (Expression::AccessIndex { base, index }),
    ensures
        ({
            let whole = context.expression_text(handle);
            let a = context.expression_text(base);
            &&& a.fault is Some ==> whole.fault == a.fault
            &&& a.fault is None ==> match context.type_of(base) {
                Some(TypeInner::Struct { members, .. }) => {
                    &&& context.typifier.is_named(base) && index < members@.len()
                        ==> whole.fault is None && whole.text == a.text + ("."@
                        + members@[index as int].name@)
                    &&& !context.typifier.is_named(base) || index >= members@.len() ==> whole.fault
                        == Some(Fault::Undefined)
                },
                Some(TypeInner::Vector { .. }) => {
                    &&& index < 4 ==> whole.fault is None && whole.text == a.text + ("."@
                        + keyword::component_text(index as nat))
                    &&& index >= 4 ==> whole.fault == Some(Fault::Undefined)
                },
                Some(TypeInner::Matrix { .. }) => whole.fault is None && whole.text == a.text + (
                "["@ + decimal::decimal(index as nat) + "]"@),
                Some(TypeInner::Array { .. }) => whole.fault is None && whole.text == a.text + ("["@
                    + decimal::decimal(index as nat) + "]"@),
                Some(_) => whole.fault is None && whole.text == a.text,
                None => whole.fault == Some(Fault::Undefined),
            }
        }),
{
    lemma_unfold(context, handle);
    reveal(ExpressionContext::node_text);
    let a = context.expression_text(base);
    assert(a.text + Seq::<char>::empty() =~= a.text);
}

/// A constant is written as it is anywhere else.
pub proof fn law_constant_operand(
    context: ExpressionContext<'_>,
    handle: ExpressionHandle,
    constant: ConstantHandle,
)
    requires
        handle < context.function.expressions@.len(),
        context.function.expressions@[handle as int] == Expression::Constant(constant),
    ensures
        context.expression_text(handle).fault == context.module.constant_text(constant).fault,
        context.expression_text(handle).fault is None ==> context.expression_text(handle).text
            == context.module.constant_text(constant).text,
{
    lemma_unfold(context, handle);
    reveal(ExpressionContext::node_text);
}

/// A value is composed of all of its components, in order, as a call of its type: a scalar of
/// four bytes of its kind, of one component; a vector of its kind and size; a matrix of
/// floating-point numbers of its columns and rows.
pub proof fn law_compose(
    context: ExpressionContext<'_>,
    handle: ExpressionHandle,
    ty: TypeHandle,
    components: Vec<ExpressionHandle>,
)
    requires
        handle < context.function.expressions@.len(),
        context.function.expressions@[handle as int] == (Expression::Compose { ty, components }),
        ty < context.module.types@.len(),
    ensures
        ({
            let whole = context.expression_text(handle);
            let parts = written(context, components@);
            let list = "("@ + sequence::joined(sequence::texts(parts), ", "@) + ")"@;
            let fails = Some(Fault::UnsupportedCompose(ty));
            match context.module.types@[ty as int].inner {
                TypeInner::Scalar { kind, width } => {
                    &&& width == 4 && components@.len() == 1 && sequence::all_succeed(parts)
                        ==> whole.fault is None && whole.text == keyword::scalar_kind_text(kind)
                        + list
                    &&& width == 4 && components@.len() == 1 ==> forall|i: int| #[trigger]
                        sequence::fails_first(parts, i) ==> whole.fault == parts[i].fault
                    &&& width != 4 || components@.len() != 1 ==> whole.fault == fails
                },
                TypeInner::Vector { size, kind, .. } => {
                    &&& sequence::all_succeed(parts) ==> whole.fault is None && whole.text
                        == "metal::"@ + keyword::scalar_kind_text(kind) + keyword::vector_size_text(
                        size,
                    ) + list
                    &&& forall|i: int| #[trigger]
                        sequence::fails_first(parts, i) ==> whole.fault == parts[i].fault
                },
                TypeInner::Matrix { columns, rows, .. } => {
                    &&& sequence::all_succeed(parts) ==> whole.fault is None && whole.text
                        == "metal::"@ + "float"@ + keyword::vector_size_text(columns) + "x"@
                        + keyword::vector_size_text(rows) + list
                    &&& forall|i: int| #[trigger]
                        sequence::fails_first(parts, i) ==> whole.fault == parts[i].fault
                },
                _ => whole.fault == fails,
            }
        }),
{
    lemma_unfold(context, handle);
    reveal(ExpressionContext::node_text);
    let parts = written(context, components@);
    assert(crate::grammar::expression::texts_of(components@, context.texts()) =~= parts);
    sequence::law_bracketed(parts);
}

/// No value of a type that does not exist is composed.
pub proof fn law_dangling_compose(
    context: ExpressionContext<'_>,
    handle: ExpressionHandle,
    ty: TypeHandle,
    components: Vec<ExpressionHandle>,
)
    requires
        handle < context.function.expressions@.len(),
        context.function.expressions@[handle as int] == (Expression::Compose { ty, components }),
        ty >= context.module.types@.len(),
    ensures
        context.expression_text(handle).fault == Some(Fault::Undefined),
{
    lemma_unfold(context, handle);
    reveal(ExpressionContext::node_text);
}

/// A function of the module is called by its name with all of its arguments, in order.
pub proof fn law_call(
    context: ExpressionContext<'_>,
    handle: ExpressionHandle,
    function: FunctionHandle,
    arguments: Vec<ExpressionHandle>,
)
    requires
        handle < context.function.expressions@.len(),
        context.function.expressions@[handle as int] == (Expression::Call { function, arguments }),
    ensures
        ({
            let whole = context.expression_text(handle);
            let parts = written(context, arguments@);
            &&& function >= context.module.functions@.len() ==> whole.fault == Some(
                Fault::Undefined,
            )
            &&& function < context.module.functions@.len() ==> {
                &&& sequence::all_succeed(parts) ==> whole.fault is None && whole.text
                    == context.module.functions@[function as int].name@ + ("("@ + sequence::joined(
                    sequence::texts(parts),
                    ", "@,
                ) + ")"@)
                &&& forall|i: int| #[trigger]
                    sequence::fails_first(parts, i) ==> whole.fault == parts[i].fault
            }
        }),
{
    lemma_unfold(context, handle);
    reveal(ExpressionContext::node_text);
    let parts = written(context, arguments@);
    assert(crate::grammar::expression::texts_of(arguments@, context.texts()) =~= parts);
    sequence::law_bracketed(parts);
}

/// Arguments and local variables of the function are written as their names. Entry points have
/// no arguments.
pub proof fn law_variables(
    context: ExpressionContext<'_>,
    handle: ExpressionHandle,
    index: u32,
    local: LocalHandle,
)
    requires
        handle < context.function.expressions@.len(),
    ensures
        ({
            let whole = context.expression_text(handle);
            &&& context.function.expressions@[handle as int] == Expression::FunctionArgument(index)
                ==> {
                &&& context.origin is Handle && index < context.function.arguments@.len() ==> whole
                    == Emission::text(context.function.arguments@[index as int].name@)
                &&& context.origin is EntryPoint || index >= context.function.arguments@.len()
                    ==> whole.fault == Some(Fault::Undefined)
            }
            &&& context.function.expressions@[handle as int] == Expression::LocalVariable(local)
                ==> {
                &&& local < context.function.local_variables@.len() ==> whole == Emission::text(
                    context.function.local_variables@[local as int].name@,
                )
                &&& local >= context.function.local_variables@.len() ==> whole.fault == Some(
                    Fault::Undefined,
                )
            }
        }),
{
    lemma_unfold(context, handle);
    reveal(ExpressionContext::node_text);
}

/// A global variable is written as its name; an output and an input with a location as the
/// structure that holds it, a dot and its name; an output that is a structure is not named.
pub proof fn law_global(
    context: ExpressionContext<'_>,
    handle: ExpressionHandle,
    global: GlobalHandle,
)
    requires
        handle < context.function.expressions@.len(),
        context.function.expressions@[handle as int] == Expression::GlobalVariable(global),
    ensures
        ({
            let whole = context.expression_text(handle);
            let var = context.module.global_variables@[global as int];
            &&& global >= context.module.global_variables@.len() ==> whole.fault == Some(
                Fault::Undefined,
            )
            &&& global < context.module.global_variables@.len() ==> {
                &&& var.class == StorageClass::Output ==> {
                    &&& var.ty >= context.module.types@.len() ==> whole.fault == Some(
                        Fault::Undefined,
                    )
                    &&& var.ty < context.module.types@.len() ==> {
                        let is_struct = context.module.types@[var.ty as int].inner is Struct;
                        &&& is_struct ==> whole == Emission::nothing()
                        &&& !is_struct ==> whole == Emission::text("output"@ + "."@ + var.name@)
                    }
                }
                &&& var.class == StorageClass::Input ==> {
                    let is_located = var.binding matches Some(Binding::Location(_));
                    &&& is_located ==> whole == Emission::text("input"@ + "."@ + var.name@)
                    &&& !is_located ==> whole == Emission::text(var.name@)
                }
                &&& var.class != StorageClass::Input && var.class != StorageClass::Output ==> whole
                    == Emission::text(var.name@)
            }
        }),
{
    lemma_unfold(context, handle);
    reveal(ExpressionContext::node_text);
}

/// The text of the level of detail of a sample.
pub open spec fn level_of_detail(context: ExpressionContext<'_>, level: SampleLevel) -> Seq<char> {
    match level {
        SampleLevel::Auto => Seq::empty(),
        SampleLevel::Zero => Seq::empty(),
        SampleLevel::Exact(operand) => ", level("@ + context.expression_text(operand).text + ")"@,
        SampleLevel::Bias(operand) => ", bias("@ + context.expression_text(operand).text + ")"@,
        SampleLevel::Gradient { x, y } => ", gradient("@ + context.expression_text(x).text + ", "@
            + context.expression_text(y).text + ")"@,
    }
}

/// The fault of the level of detail of a sample.
pub open spec fn level_fault(context: ExpressionContext<'_>, level: SampleLevel) -> Option<Fault> {
    match level {
        SampleLevel::Auto => None,
        SampleLevel::Zero => None,
        SampleLevel::Exact(operand) => context.expression_text(operand).fault,
        SampleLevel::Bias(operand) => context.expression_text(operand).fault,
        SampleLevel::Gradient { x, y } => sequence::earlier(
            context.expression_text(x).fault,
            context.expression_text(y).fault,
        ),
    }
}

/// An image is sampled through a sampler at a coordinate; the index in an array, the reference
/// of a comparison, the level of detail and the offset follow in this order, where there are
/// any. A sample with a reference is a comparison.
pub proof fn law_image_sample(
    context: ExpressionContext<'_>,
    handle: ExpressionHandle,
    image: ExpressionHandle,
    sampler: ExpressionHandle,
    coordinate: ExpressionHandle,
    array_index: Option<ExpressionHandle>,
    offset: Option<ConstantHandle>,
    level: SampleLevel,
    depth_ref: Option<ExpressionHandle>,
)
    requires
        handle < context.function.expressions@.len(),
        context.function.expressions@[handle as int] == (Expression::ImageSample {
            image,
            sampler,
            coordinate,
            array_index,
            offset,
            level,
            depth_ref,
        }),
    ensures
        ({
            let whole = context.expression_text(handle);
            let a = context.expression_text(image);
            let b = context.expression_text(sampler);
            let c = context.expression_text(coordinate);
            let (shift, shift_fault) = match offset {
                Some(constant) => (
                    ", "@ + context.module.constant_text(constant).text,
                    context.module.constant_text(constant).fault,
                ),
                None => (Seq::empty(), None),
            };
            let operands = sequence::earlier(a.fault, sequence::earlier(b.fault, c.fault));
            let options = sequence::earlier(
                further_fault(context, array_index),
                further_fault(context, depth_ref),
            );
            let rest = sequence::earlier(level_fault(context, level), shift_fault);
            &&& whole.fault == sequence::earlier(operands, sequence::earlier(options, rest))
            &&& whole.fault is None && depth_ref is None ==> whole.text == a.text + "."@ + "sample"@
                + "("@ + b.text + ", "@ + c.text + further(context, array_index) + Seq::<
                char,
            >::empty() + level_of_detail(context, level) + shift + ")"@
            &&& whole.fault is None && depth_ref is Some ==> whole.text == a.text + "."@
                + "sample_compare"@ + "("@ + b.text + ", "@ + c.text + further(context, array_index)
                + further(context, depth_ref) + level_of_detail(context, level) + shift + ")"@
        }),
{
    lemma_unfold(context, handle);
    reveal(ExpressionContext::node_text);
    lemma_further();
}

/// A comma and a blank as a text.
proof fn lemma_further()
    ensures
        ", "@ == seq![',', ' '],
{
    reveal_strlit(", ");
    assert(", "@ =~= seq![',', ' ']);
}

/// A texel is read at a coordinate; the index in an array and that of a sample or a level follow
/// in this order, where there are any.
pub proof fn law_image_load(
    context: ExpressionContext<'_>,
    handle: ExpressionHandle,
    image: ExpressionHandle,
    coordinate: ExpressionHandle,
    array_index: Option<ExpressionHandle>,
    index: Option<ExpressionHandle>,
)
    requires
        handle < context.function.expressions@.len(),
        context.function.expressions@[handle as int] == (Expression::ImageLoad {
            image,
            coordinate,
            array_index,
            index,
        }),
    ensures
        ({
            let whole = context.expression_text(handle);
            let a = context.expression_text(image);
            let b = context.expression_text(coordinate);
            &&& whole.fault == sequence::earlier(
                sequence::earlier(a.fault, b.fault),
                sequence::earlier(
                    further_fault(context, array_index),
                    further_fault(context, index),
                ),
            )
            &&& whole.fault is None ==> whole.text == a.text + ".read("@ + b.text + further(
                context,
                array_index,
            ) + further(context, index) + ")"@
        }),
{
    lemma_unfold(context, handle);
    reveal(ExpressionContext::node_text);
    lemma_further();
}

/// A unary operation is its operator and its operand.
pub proof fn law_unary(
    context: ExpressionContext<'_>,
    handle: ExpressionHandle,
    op: UnaryOperator,
    expr: ExpressionHandle,
)
    requires
        handle < context.function.expressions@.len(),
        context.function.expressions@[handle as int] == (Expression::Unary { op, expr }),
    ensures
        ({
            let whole = context.expression_text(handle);
            let a = context.expression_text(expr);
            &&& whole.fault == a.fault
            &&& whole.fault is None ==> whole.text == keyword::unary_text(op) + a.text
        }),
{
    lemma_unfold(context, handle);
    reveal(ExpressionContext::node_text);
}

/// A binary operation whose operator is supported and whose left operand is made of scalars is
/// the operands in round brackets with the symbol and blanks between them. Only the remainder of
/// floating-point numbers is a call of `fmod`. It fails only where an operand does.
pub proof fn law_binary(
    context: ExpressionContext<'_>,
    handle: ExpressionHandle,
    op: BinaryOperator,
    left: ExpressionHandle,
    right: ExpressionHandle,
    symbol: Seq<char>,
    kind: ScalarKind,
)
    requires
        handle < context.function.expressions@.len(),
        context.function.expressions@[handle as int] == (Expression::Binary { op, left, right }),
        keyword::binary_text(op) == Some(symbol),
        context.type_of(left) matches Some(inner) && inner.scalar_kind_spec() == Some(kind),
    ensures
        ({
            let whole = context.expression_text(handle);
            let a = context.expression_text(left);
            let b = context.expression_text(right);
            &&& whole.fault == sequence::earlier(a.fault, b.fault)
            &&& whole.fault is None && (op != BinaryOperator::Modulo || kind != ScalarKind::Float)
                ==> whole.text == "("@ + a.text + " "@ + symbol + " "@ + b.text + ")"@
            &&& whole.fault is None && op == BinaryOperator::Modulo && kind == ScalarKind::Float
                ==> whole.text == "fmod("@ + a.text + ", "@ + b.text + ")"@
        }),
{
    lemma_unfold(context, handle);
    reveal(ExpressionContext::node_text);
}

/// A binary operation is not written where its operator is not supported, or where its left
/// operand is not made of scalars or has no type.
pub proof fn law_binary_unsupported(
    context: ExpressionContext<'_>,
    handle: ExpressionHandle,
    op: BinaryOperator,
    left: ExpressionHandle,
    right: ExpressionHandle,
)
    requires
        handle < context.function.expressions@.len(),
        context.function.expressions@[handle as int] == (Expression::Binary { op, left, right }),
    ensures
        keyword::binary_text(op) is None ==> context.expression_text(handle).fault == Some(
            Fault::UnsupportedBinaryOp(op),
        ),
        keyword::binary_text(op) is Some && context.type_of(left) is None
            ==> context.expression_text(handle).fault == Some(Fault::Undefined),
        keyword::binary_text(op) is Some && (context.type_of(left) matches Some(inner)
            && inner.scalar_kind_spec() is None) ==> context.expression_text(handle).fault == Some(
            Fault::UnsupportedBinaryOp(op),
        ),
{
    lemma_unfold(context, handle);
    reveal(ExpressionContext::node_text);
}

/// A choice is the condition, what is taken if it holds, and what is taken if not, in round
/// brackets.
pub proof fn law_select(
    context: ExpressionContext<'_>,
    handle: ExpressionHandle,
    condition: ExpressionHandle,
    accept: ExpressionHandle,
    reject: ExpressionHandle,
)
    requires
        handle < context.function.expressions@.len(),
        context.function.expressions@[handle as int] == (Expression::Select {
            condition,
            accept,
            reject,
        }),
    ensures
        ({
            let whole = context.expression_text(handle);
            let a = context.expression_text(condition);
            let b = context.expression_text(accept);
            let c = context.expression_text(reject);
            &&& whole.fault == sequence::earlier(a.fault, sequence::earlier(b.fault, c.fault))
            &&& whole.fault is None ==> whole.text == "("@ + a.text + " ? "@ + b.text + " : "@
                + c.text + ")"@
        }),
{
    lemma_unfold(context, handle);
    reveal(ExpressionContext::node_text);
}

/// Derivatives and relational functions are calls of Metal's library with one argument.
pub proof fn law_library(
    context: ExpressionContext<'_>,
    handle: ExpressionHandle,
    axis: DerivativeAxis,
    fun: RelationalFunction,
    expr: ExpressionHandle,
)
    requires
        handle < context.function.expressions@.len(),
    ensures
        ({
            let whole = context.expression_text(handle);
            let node = context.function.expressions@[handle as int];
            let a = context.expression_text(expr);
            &&& node == (Expression::Derivative { axis, expr }) ==> {
                &&& whole.fault == a.fault
                &&& whole.fault is None ==> whole.text == "metal::"@ + keyword::derivative_text(
                    axis,
                ) + ("("@ + a.text + ")"@)
            }
            &&& node == (Expression::Relational { fun, argument: expr }) ==> {
                &&& whole.fault == a.fault
                &&& whole.fault is None ==> whole.text == "metal::"@ + keyword::relational_text(fun)
                    + ("("@ + a.text + ")"@)
            }
        }),
{
    lemma_unfold(context, handle);
    reveal(ExpressionContext::node_text);
    let a = context.expression_text(expr);
    let one = seq![a];
    sequence::law_bracketed(one);
    assert(context.texts()(expr) == a);
    if a.fault is None {
        assert(sequence::all_succeed(one));
        assert(sequence::texts(one)[0] == a.text);
    } else {
        assert(sequence::fails_first(one, 0));
    }
    lemma_word_lengths(axis, fun);
}

proof fn lemma_word_lengths(axis: DerivativeAxis, fun: RelationalFunction)
    ensures
        keyword::derivative_text(axis).len() > 0,
        keyword::relational_text(fun).len() > 0,
{
    reveal_strlit("dfdx");
    reveal_strlit("dfdy");
    reveal_strlit("fwidth");
    reveal_strlit("all");
    reveal_strlit("any");
    reveal_strlit("isnan");
    reveal_strlit("isinf");
    reveal_strlit("isfinite");
    reveal_strlit("isnormal");
}

/// A math function is a call of Metal's library with its first argument and those of the others
/// that there are. Only the outer product is not supported.
pub proof fn law_math(
    context: ExpressionContext<'_>,
    handle: ExpressionHandle,
    fun: MathFunction,
    arg: ExpressionHandle,
    arg1: Option<ExpressionHandle>,
    arg2: Option<ExpressionHandle>,
)
    requires
        handle < context.function.expressions@.len(),
        context.function.expressions@[handle as int] == (Expression::Math { fun, arg, arg1, arg2 }),
    ensures
        ({
            let whole = context.expression_text(handle);
            let a = context.expression_text(arg);
            &&& fun == MathFunction::Outer ==> whole.fault == Some(
                Fault::UnsupportedCall("Outer"@),
            )
            &&& fun != MathFunction::Outer ==> {
                &&& whole.fault == sequence::earlier(
                    a.fault,
                    sequence::earlier(further_fault(context, arg1), further_fault(context, arg2)),
                )
                &&& whole.fault is None ==> whole.text == "metal::"@ + keyword::math_text(
                    fun,
                ).unwrap() + "("@ + a.text + further(context, arg1) + further(context, arg2) + ")"@
            }
        }),
{
    lemma_unfold(context, handle);
    reveal(ExpressionContext::node_text);
    lemma_further();
}

/// A scalar or a vector is converted by a static cast, or read anew as another type, to the kind
/// that is asked for and with as many components as it has. Anything else cannot be cast.
pub proof fn law_cast(
    context: ExpressionContext<'_>,
    handle: ExpressionHandle,
    expr: ExpressionHandle,
    kind: ScalarKind,
    convert: bool,
)
    requires
        handle < context.function.expressions@.len(),
        context.function.expressions@[handle as int] == (Expression::As { expr, kind, convert }),
    ensures
        ({
            let whole = context.expression_text(handle);
            let a = context.expression_text(expr);
            let to = keyword::scalar_kind_text(kind);
            match context.type_of(expr) {
                Some(TypeInner::Scalar { .. }) => {
                    &&& whole.fault == a.fault
                    &&& whole.fault is None && convert ==> whole.text == "static_cast"@ + "<"@ + to
                        + ">("@ + a.text + ")"@
                    &&& whole.fault is None && !convert ==> whole.text == "as_type"@ + "<"@ + to
                        + ">("@ + a.text + ")"@
                },
                Some(TypeInner::Vector { size, .. }) => {
                    &&& whole.fault == a.fault
                    &&& whole.fault is None && convert ==> whole.text == "static_cast"@ + "<"@ + to
                        + keyword::vector_size_text(size) + ">("@ + a.text + ")"@
                    &&& whole.fault is None && !convert ==> whole.text == "as_type"@ + "<"@ + to
                        + keyword::vector_size_text(size) + ">("@ + a.text + ")"@
                },
                Some(_) => whole.fault == Some(Fault::Validation),
                None => whole.fault == Some(Fault::Undefined),
            }
        }),
{
    lemma_unfold(context, handle);
    reveal(ExpressionContext::node_text);
    reveal_strlit("");
    let to = keyword::scalar_kind_text(kind);
    assert("static_cast"@ + "<"@ + to + ""@ =~= "static_cast"@ + "<"@ + to);
    assert("as_type"@ + "<"@ + to + ""@ =~= "as_type"@ + "<"@ + to);
}

/// The length of an array is the constant that is its size. That of an array of any length is
/// not supported, and anything else has none.
pub proof fn law_array_length(
    context: ExpressionContext<'_>,
    handle: ExpressionHandle,
    array: ExpressionHandle,
)
    requires
        handle < context.function.expressions@.len(),
        context.function.expressions@[handle as int] == Expression::ArrayLength(array),
    ensures
        ({
            let whole = context.expression_text(handle);
            match context.type_of(array) {
                Some(TypeInner::Array { size, .. }) => match size {
                    ArraySize::Constant(constant) => {
                        let length = context.module.constant_text(constant);
                        &&& whole.fault == length.fault
                        &&& whole.fault is None ==> whole.text == length.text
                    },
                    ArraySize::Dynamic => whole.fault == Some(
                        Fault::UnsupportedDynamicArrayLength,
                    ),
                },
                Some(_) => whole.fault == Some(Fault::Validation),
                None => whole.fault == Some(Fault::Undefined),
            }
        }),
{
    lemma_unfold(context, handle);
    reveal(ExpressionContext::node_text);
}

/// A load is the pointer that it loads from.
pub proof fn law_load_text(
    context: ExpressionContext<'_>,
    handle: ExpressionHandle,
    pointer: ExpressionHandle,
)
    requires
        handle < context.function.expressions@.len(),
        context.function.expressions@[handle as int] == (Expression::Load { pointer }),
    ensures
        context.expression_text(handle).fault == context.expression_text(pointer).fault,
        context.expression_text(handle).fault is None ==> context.expression_text(handle).text
            == context.expression_text(pointer).text,
{
    lemma_unfold(context, handle);
    reveal(ExpressionContext::node_text);
}

} // verus!
