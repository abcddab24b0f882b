//! What expressions are written as, and which cannot be written.

use crate::context::ExpressionContext;
use crate::emission::Emission;
use crate::error::Fault;
use crate::grammar::expression;
use crate::ir::{ArraySize, Expression, ExpressionHandle, MathFunction, TypeInner};
use crate::keyword;
use vstd::prelude::*;

verus! {

/// A load is written as the pointer that it loads from.
pub proof fn law_load(
    context: ExpressionContext<'_>,
    handle: ExpressionHandle,
    pointer: ExpressionHandle,
)
    requires
        context.expression_text(handle).is_defined(),
        context.function.expressions@[handle as int] == (Expression::Load { pointer }),
    ensures
        context.expression_text(handle) == context.expression_text(pointer),
{
    context.lemma_expression_text(handle);
    reveal(ExpressionContext::node_text);
}

/// An expression that Metal has no counterpart for fails at once, with the fault that tells
/// which it is.
pub proof fn law_unsupported(context: ExpressionContext<'_>, handle: ExpressionHandle)
    requires
        handle < context.function.expressions@.len(),
    ensures
        match context.function.expressions@[handle as int] {
            Expression::Binary { op, left, .. } => keyword::binary_text(op) is None || (
            context.type_of(left) matches Some(inner) && inner.scalar_kind_spec() is None)
                ==> context.expression_text(handle) == Emission::failure(
                Fault::UnsupportedBinaryOp(op),
            ),
            Expression::Math { fun, .. } => fun == MathFunction::Outer ==> context.expression_text(
                handle,
            ) == Emission::failure(Fault::UnsupportedCall("Outer"@)),
            Expression::Compose { ty, components } => ty < context.module.types@.len()
                && expression::constructor_text(
                context.module.types@[ty as int].inner,
                components@.len(),
            ) is None ==> context.expression_text(handle) == Emission::failure(
                Fault::UnsupportedCompose(ty),
            ),
            Expression::As { expr, .. } => (context.type_of(expr) matches Some(inner)
                && expression::cast_size_text(inner) is None) ==> context.expression_text(handle)
                == Emission::failure(Fault::Validation),
            Expression::ArrayLength(array) => match context.type_of(array) {
                Some(TypeInner::Array { size: ArraySize::Constant(constant), .. }) =>
                    context.expression_text(handle) == context.module.constant_text(constant),
                Some(TypeInner::Array { size: ArraySize::Dynamic, .. }) =>
                    context.expression_text(handle) == Emission::failure(
                    Fault::UnsupportedDynamicArrayLength,
                ),
                Some(_) => context.expression_text(handle) == Emission::failure(Fault::Validation),
                None => true,
            },
            _ => true,
        },
{
    context.lemma_expression_within(handle, context.function.expressions@.len());
    reveal(ExpressionContext::node_text);
}

} // verus!
