//! Writing expressions.

use super::Writer;
use crate::context::{ExpressionContext, FunctionOrigin};
use crate::emission;
use crate::emission::Emission;
use crate::error::{Error, Stop};
use crate::grammar::expression;
use crate::ir::{
    ArraySize, BinaryOperator, Binding, ConstantHandle, Expression, ExpressionHandle, GlobalHandle,
    LocalHandle, SampleLevel, ScalarKind, StorageClass, TypeInner,
};
use crate::keyword;
use vstd::prelude::*;

verus! {

broadcast use crate::emission::group_made;

impl Writer {
    /// Appends a call of a function of Metal's library, or only the arguments in brackets where
    /// there is no name.
    fn put_call(
        &mut self,
        name: &str,
        parameters: &[ExpressionHandle],
        context: &ExpressionContext<'_>,
        depth: usize,
    ) -> (outcome: Result<(), Stop>)
        ensures
            expression::library_call(
                name@,
                expression::texts_of(parameters@, context.texts_within(depth as nat)),
            ).made(old(self)@, final(self)@, outcome),
        decreases depth, 3nat,
    {
        if !name.is_empty() {
            self.put("metal::");
            self.put(name);
        }
        self.put_arguments(parameters, context, depth)
    }

    /// Appends a list of arguments in brackets.
    fn put_arguments(
        &mut self,
        arguments: &[ExpressionHandle],
        context: &ExpressionContext<'_>,
        depth: usize,
    ) -> (outcome: Result<(), Stop>)
        ensures
            Emission::bracketed(
                expression::texts_of(arguments@, context.texts_within(depth as nat)),
            ).made(old(self)@, final(self)@, outcome),
        decreases depth, 2nat,
    {
        let ghost texts = expression::texts_of(arguments@, context.texts_within(depth as nat));
        let ghost steps = Emission::with_separators(texts, ", "@);
        self.put("(");
        let ghost before = self@;
        proof {
            emission::lemma_made_none(steps, before);
        }
        let mut i: usize = 0;
        while i < arguments.len()
            invariant
                i <= arguments@.len(),
                texts == expression::texts_of(arguments@, context.texts_within(depth as nat)),
                steps == Emission::with_separators(texts, ", "@),
                Emission::text("("@).made(old(self)@, before, Ok(())),
                Emission::all(steps.take(i as int)).made(before, self@, Ok(())),
            decreases arguments@.len() - i,
        {
            proof {
                emission::lemma_all_at(steps, i as int);
            }
            if i != 0 {
                self.put(", ");
            }
            self.put_operand(arguments[i], context, depth)?;
            i = i + 1;
        }
        assert(steps.take(i as int) =~= steps);
        self.put(")");
        Ok(())
    }

    /// Appends how component `index` of expression `base` is reached from it.
    fn put_component(
        &mut self,
        base: ExpressionHandle,
        index: u32,
        context: &ExpressionContext<'_>,
    ) -> (outcome: Result<(), Stop>)
        ensures
            context.component_text(base, index).made(old(self)@, final(self)@, outcome),
    {
        proof {
            emission::lemma_made_none(Seq::empty(), self@);
        }
        match context.typifier.get(base, &context.module.types) {
            Some(TypeInner::Struct { members, .. }) => {
                if context.typifier.get_handle(base).is_none() || index as usize >= members.len() {
                    return self.miss();
                }
                self.put(".");
                self.put(members[index as usize].name.as_str());
            },
            Some(TypeInner::Vector { .. }) => {
                if index >= 4 {
                    return self.miss();
                }
                self.put(".");
                self.put(keyword::component_string(index));
            },
            Some(TypeInner::Matrix { .. }) | Some(TypeInner::Array { .. }) => {
                self.put("[");
                self.put_unsigned(index as u64);
                self.put("]");
            },
            Some(_) => {
                // unexpected indexing, should fail validation
            },
            None => {
                return self.miss();
            },
        }
        Ok(())
    }

    /// Appends how an argument is reached.
    fn put_argument(&mut self, index: u32, context: &ExpressionContext<'_>) -> (outcome: Result<
        (),
        Stop,
    >)
        ensures
            context.argument_text(index).made(old(self)@, final(self)@, outcome),
    {
        match context.origin {
            FunctionOrigin::Handle(_) => {},
            FunctionOrigin::EntryPoint(_) => {
                return self.miss();
            },
        }
        if index as usize >= context.function.arguments.len() {
            return self.miss();
        }
        self.put(context.function.arguments[index as usize].name.as_str());
        Ok(())
    }

    /// Appends how a local variable is reached.
    fn put_local(&mut self, local: LocalHandle, context: &ExpressionContext<'_>) -> (outcome:
        Result<(), Stop>)
        ensures
            context.local_text(local).made(old(self)@, final(self)@, outcome),
    {
        if local >= context.function.local_variables.len() {
            return self.miss();
        }
        self.put(context.function.local_variables[local].name.as_str());
        Ok(())
    }

    /// Appends how a global variable is reached.
    fn put_global(&mut self, handle: GlobalHandle, context: &ExpressionContext<'_>) -> (outcome:
        Result<(), Stop>)
        ensures
            context.global_text(handle).made(old(self)@, final(self)@, outcome),
    {
        proof {
            emission::lemma_made_none(Seq::empty(), self@);
        }
        if handle >= context.module.global_variables.len() {
            return self.miss();
        }
        let var = &context.module.global_variables[handle];
        match var.class {
            StorageClass::Output => {
                if var.ty >= context.module.types.len() {
                    return self.miss();
                }
                if let TypeInner::Struct { .. } = &context.module.types[var.ty].inner {
                    return Ok(());
                }
                self.put("output");
                self.put(".");
            },
            StorageClass::Input => {
                if let Some(Binding::Location(_)) = var.binding {
                    self.put("input");
                    self.put(".");
                }
            },
            _ => {},
        }
        self.put(var.name.as_str());
        Ok(())
    }

    /// Appends the number of elements of an array.
    fn put_array_length(
        &mut self,
        array: ExpressionHandle,
        context: &ExpressionContext<'_>,
    ) -> (outcome: Result<(), Stop>)
        ensures
            context.array_length_text(array).made(old(self)@, final(self)@, outcome),
    {
        match context.typifier.get(array, &context.module.types) {
            Some(TypeInner::Array { size, .. }) => match size {
                ArraySize::Constant(constant) => self.put_constant(*constant, context.module),
                ArraySize::Dynamic => self.fail(Error::UnsupportedDynamicArrayLength),
            },
            Some(_) => self.fail(Error::Validation),
            None => self.miss(),
        }
    }

    /// Appends the offset of a sample.
    fn put_offset(&mut self, offset: Option<ConstantHandle>, context: &ExpressionContext<'_>) -> (
    outcome: Result<(), Stop>)
        ensures
            context.offset_text(offset).made(old(self)@, final(self)@, outcome),
    {
        proof {
            emission::lemma_made_none(Seq::empty(), self@);
        }
        if let Some(constant) = offset {
            self.put(", ");
            self.put_constant(constant, context.module)?;
        }
        Ok(())
    }

    /// Appends a further argument, if there is one.
    fn put_optional(
        &mut self,
        operand: Option<ExpressionHandle>,
        context: &ExpressionContext<'_>,
        depth: usize,
    ) -> (outcome: Result<(), Stop>)
        ensures
            expression::optional_text(operand, context.texts_within(depth as nat)).made(
                old(self)@,
                final(self)@,
                outcome,
            ),
        decreases depth, 2nat,
    {
        proof {
            emission::lemma_made_none(Seq::empty(), self@);
        }
        if let Some(expr) = operand {
            self.put(", ");
            self.put_operand(expr, context, depth)?;
        }
        Ok(())
    }

    /// Appends the level of detail of a sample.
    fn put_sample_level(
        &mut self,
        level: SampleLevel,
        context: &ExpressionContext<'_>,
        depth: usize,
    ) -> (outcome: Result<(), Stop>)
        ensures
            expression::sample_level_text(level, context.texts_within(depth as nat)).made(
                old(self)@,
                final(self)@,
                outcome,
            ),
        decreases depth, 2nat,
    {
        proof {
            emission::lemma_made_none(Seq::empty(), self@);
        }
        match level {
            SampleLevel::Auto => {},
            SampleLevel::Zero => {},
            SampleLevel::Exact(h) => {
                self.put(", level(");
                self.put_operand(h, context, depth)?;
                self.put(")");
            },
            SampleLevel::Bias(h) => {
                self.put(", bias(");
                self.put_operand(h, context, depth)?;
                self.put(")");
            },
            SampleLevel::Gradient { x, y } => {
                self.put(", gradient(");
                self.put_operand(x, context, depth)?;
                self.put(", ");
                self.put_operand(y, context, depth)?;
                self.put(")");
            },
        }
        Ok(())
    }

    /// Appends a sample of an image, which is `expr`.
    fn put_image_sample(
        &mut self,
        expr: &Expression,
        context: &ExpressionContext<'_>,
        depth: usize,
    ) -> (outcome: Result<(), Stop>)
        requires
            expr is ImageSample,
        ensures
            context.node_text(*expr, context.texts_within(depth as nat)).made(
                old(self)@,
                final(self)@,
                outcome,
            ),
        decreases depth, 4nat,
    {
        proof {
            reveal(ExpressionContext::node_text);
        }
        if let Expression::ImageSample {
            image,
            sampler,
            coordinate,
            array_index,
            offset,
            level,
            depth_ref,
        } = expr {
            let op = match depth_ref {
                Some(_) => "sample_compare",
                None => "sample",
            };
            self.put_operand(*image, context, depth)?;
            self.put(".");
            self.put(op);
            self.put("(");
            self.put_operand(*sampler, context, depth)?;
            self.put(", ");
            self.put_operand(*coordinate, context, depth)?;
            self.put_optional(*array_index, context, depth)?;
            self.put_optional(*depth_ref, context, depth)?;
            self.put_sample_level(*level, context, depth)?;
            self.put_offset(*offset, context)?;
            self.put(")");
        }
        Ok(())
    }

    /// Appends the type that a composed value is built with. Returns whether there is one.
    fn put_constructor(&mut self, inner: &TypeInner, count: usize) -> (supported: bool)
        ensures
            match expression::constructor_text(*inner, count as nat) {
                Some(constructor) => supported && Emission::text(constructor).made(
                    old(self)@,
                    final(self)@,
                    Ok(()),
                ),
                None => !supported && final(self)@ == old(self)@,
            },
    {
        broadcast use crate::emission::lemma_add_associative;

        proof {
            reveal(Emission::made);
        }
        match inner {
            TypeInner::Scalar { width, kind } if *width == 4 && count == 1 => {
                self.put(keyword::scalar_kind_string(*kind));
                true
            },
            TypeInner::Vector { size, kind, .. } => {
                self.put("metal::");
                self.put(keyword::scalar_kind_string(*kind));
                self.put(keyword::vector_size_string(*size));
                true
            },
            TypeInner::Matrix { columns, rows, .. } => {
                self.put("metal::");
                self.put(keyword::scalar_kind_string(ScalarKind::Float));
                self.put(keyword::vector_size_string(*columns));
                self.put("x");
                self.put(keyword::vector_size_string(*rows));
                true
            },
            _ => false,
        }
    }

    /// Appends a value composed of components, which is `expr`.
    fn put_compose(
        &mut self,
        expr: &Expression,
        context: &ExpressionContext<'_>,
        depth: usize,
    ) -> (outcome: Result<(), Stop>)
        requires
            expr is Compose,
        ensures
            context.node_text(*expr, context.texts_within(depth as nat)).made(
                old(self)@,
                final(self)@,
                outcome,
            ),
        decreases depth, 4nat,
    {
        proof {
            reveal(ExpressionContext::node_text);
        }
        if let Expression::Compose { ty, components } = expr {
            if *ty >= context.module.types.len() {
                return self.miss();
            }
            let inner = &context.module.types[*ty].inner;
            if !self.put_constructor(inner, components.len()) {
                return self.fail(Error::UnsupportedCompose(*ty));
            }
            proof {
                reveal_strlit("");
            }
            self.put_call("", components.as_slice(), context, depth)?;
        }
        Ok(())
    }

    /// Appends a texel of an image, which is `expr`.
    fn put_image_load(
        &mut self,
        expr: &Expression,
        context: &ExpressionContext<'_>,
        depth: usize,
    ) -> (outcome: Result<(), Stop>)
        requires
            expr is ImageLoad,
        ensures
            context.node_text(*expr, context.texts_within(depth as nat)).made(
                old(self)@,
                final(self)@,
                outcome,
            ),
        decreases depth, 4nat,
    {
        proof {
            reveal(ExpressionContext::node_text);
        }
        if let Expression::ImageLoad { image, coordinate, array_index, index } = expr {
            self.put_operand(*image, context, depth)?;
            self.put(".read(");
            self.put_operand(*coordinate, context, depth)?;
            self.put_optional(*array_index, context, depth)?;
            self.put_optional(*index, context, depth)?;
            self.put(")");
        }
        Ok(())
    }

    /// Appends a binary operation, which is `expr`.
    fn put_operation(
        &mut self,
        expr: &Expression,
        context: &ExpressionContext<'_>,
        depth: usize,
    ) -> (outcome: Result<(), Stop>)
        requires
            expr is Binary,
        ensures
            context.node_text(*expr, context.texts_within(depth as nat)).made(
                old(self)@,
                final(self)@,
                outcome,
            ),
        decreases depth, 4nat,
    {
        proof {
            reveal(ExpressionContext::node_text);
        }
        if let Expression::Binary { op, left, right } = expr {
            let op_str = match keyword::binary_string(*op) {
                Some(op_str) => op_str,
                None => {
                    return self.fail(Error::UnsupportedBinaryOp(*op));
                },
            };
            let inner = match context.typifier.get(*left, &context.module.types) {
                Some(inner) => inner,
                None => {
                    return self.miss();
                },
            };
            let kind = match inner.scalar_kind() {
                Some(kind) => kind,
                None => {
                    return self.fail(Error::UnsupportedBinaryOp(*op));
                },
            };
            if *op == BinaryOperator::Modulo && kind == ScalarKind::Float {
                self.put("fmod(");
                self.put_operand(*left, context, depth)?;
                self.put(", ");
                self.put_operand(*right, context, depth)?;
                self.put(")");
            } else {
                self.put("(");
                self.put_operand(*left, context, depth)?;
                self.put(" ");
                self.put(op_str);
                self.put(" ");
                self.put_operand(*right, context, depth)?;
                self.put(")");
            }
        }
        Ok(())
    }

    /// Appends a call of a math function, which is `expr`.
    fn put_math(
        &mut self,
        expr: &Expression,
        context: &ExpressionContext<'_>,
        depth: usize,
    ) -> (outcome: Result<(), Stop>)
        requires
            expr is Math,
        ensures
            context.node_text(*expr, context.texts_within(depth as nat)).made(
                old(self)@,
                final(self)@,
                outcome,
            ),
        decreases depth, 4nat,
    {
        proof {
            reveal(ExpressionContext::node_text);
        }
        if let Expression::Math { fun, arg, arg1, arg2 } = expr {
            let fun_name = match keyword::math_string(*fun) {
                Some(fun_name) => fun_name,
                None => {
                    return self.fail(Error::UnsupportedCall("Outer".to_string()));
                },
            };
            self.put("metal::");
            self.put(fun_name);
            self.put("(");
            self.put_operand(*arg, context, depth)?;
            self.put_optional(*arg1, context, depth)?;
            self.put_optional(*arg2, context, depth)?;
            self.put(")");
        }
        Ok(())
    }

    /// Appends a cast, which is `expr`.
    fn put_cast(
        &mut self,
        expr: &Expression,
        context: &ExpressionContext<'_>,
        depth: usize,
    ) -> (outcome: Result<(), Stop>)
        requires
            expr is As,
        ensures
            context.node_text(*expr, context.texts_within(depth as nat)).made(
                old(self)@,
                final(self)@,
                outcome,
            ),
        decreases depth, 4nat,
    {
        proof {
            reveal(ExpressionContext::node_text);
        }
        if let Expression::As { expr, kind, convert } = expr {
            let size = match context.typifier.get(*expr, &context.module.types) {
                Some(TypeInner::Scalar { .. }) => "",
                Some(TypeInner::Vector { size, .. }) => keyword::vector_size_string(*size),
                Some(_) => {
                    return self.fail(Error::Validation);
                },
                None => {
                    return self.miss();
                },
            };
            let op = if *convert {
                "static_cast"
            } else {
                "as_type"
            };
            self.put(op);
            self.put("<");
            self.put(keyword::scalar_kind_string(*kind));
            self.put(size);
            self.put(">(");
            self.put_operand(*expr, context, depth)?;
            self.put(")");
        }
        Ok(())
    }

    /// Appends the text of an expression.
    pub(super) fn put_expression(
        &mut self,
        expr_handle: ExpressionHandle,
        context: &ExpressionContext<'_>,
    ) -> (outcome: Result<(), Stop>)
        ensures
            context.expression_text(expr_handle).made(old(self)@, final(self)@, outcome),
    {
        self.put_operand(expr_handle, context, context.function.expressions.len())
    }

    /// Appends the text of an expression whose operands are nested at most `depth` deep.
    fn put_operand(
        &mut self,
        expr_handle: ExpressionHandle,
        context: &ExpressionContext<'_>,
        depth: usize,
    ) -> (outcome: Result<(), Stop>)
        ensures
            context.expression_within(expr_handle, depth as nat).made(
                old(self)@,
                final(self)@,
                outcome,
            ),
        decreases depth, 1nat,
    {
        proof {
            context.lemma_expression_within(expr_handle, depth as nat);
        }
        if depth == 0 || expr_handle >= context.function.expressions.len() {
            return self.miss();
        }
        self.put_node(&context.function.expressions[expr_handle], context, depth - 1)
    }

    /// Appends the text of `expr`, whose operands are nested at most `depth` deep.
    fn put_node(
        &mut self,
        expr: &Expression,
        context: &ExpressionContext<'_>,
        depth: usize,
    ) -> (outcome: Result<(), Stop>)
        ensures
            context.node_text(*expr, context.texts_within(depth as nat)).made(
                old(self)@,
                final(self)@,
                outcome,
            ),
        decreases depth, 5nat,
    {
        proof {
            reveal(ExpressionContext::node_text);
        }
        match expr {
            Expression::Access { base, index } => {
                self.put_operand(*base, context, depth)?;
                self.put("[");
                self.put_operand(*index, context, depth)?;
                self.put("]");
            },
            Expression::AccessIndex { base, index } => {
                self.put_operand(*base, context, depth)?;
                self.put_component(*base, *index, context)?;
            },
            Expression::Constant(handle) => {
                self.put_constant(*handle, context.module)?;
            },
            Expression::Compose { .. } => {
                self.put_compose(expr, context, depth)?;
            },
            Expression::FunctionArgument(index) => {
                self.put_argument(*index, context)?;
            },
            Expression::GlobalVariable(handle) => {
                self.put_global(*handle, context)?;
            },
            Expression::LocalVariable(handle) => {
                self.put_local(*handle, context)?;
            },
            Expression::Load { pointer } => {
                self.put_operand(*pointer, context, depth)?;
            },
            Expression::ImageSample { .. } => {
                self.put_image_sample(expr, context, depth)?;
            },
            Expression::ImageLoad { .. } => {
                self.put_image_load(expr, context, depth)?;
            },
            Expression::Unary { op, expr } => {
                self.put(keyword::unary_string(*op));
                self.put_operand(*expr, context, depth)?;
            },
            Expression::Binary { .. } => {
                self.put_operation(expr, context, depth)?;
            },
            Expression::Select { condition, accept, reject } => {
                self.put("(");
                self.put_operand(*condition, context, depth)?;
                self.put(" ? ");
                self.put_operand(*accept, context, depth)?;
                self.put(" : ");
                self.put_operand(*reject, context, depth)?;
                self.put(")");
            },
            Expression::Derivative { axis, expr } => {
                let parameters = [*expr];
                assert(expression::texts_of(parameters@, context.texts_within(depth as nat))
                    =~= seq![context.texts_within(depth as nat)(*expr)]);
                let op = keyword::derivative_string(*axis);
                self.put_call(op, &parameters, context, depth)?;
            },
            Expression::Relational { fun, argument } => {
                let parameters = [*argument];
                assert(expression::texts_of(parameters@, context.texts_within(depth as nat))
                    =~= seq![context.texts_within(depth as nat)(*argument)]);
                let op = keyword::relational_string(*fun);
                self.put_call(op, &parameters, context, depth)?;
            },
            Expression::Math { .. } => {
                self.put_math(expr, context, depth)?;
            },
            Expression::As { .. } => {
                self.put_cast(expr, context, depth)?;
            },
            Expression::Call { function, arguments } => {
                if *function >= context.module.functions.len() {
                    return self.miss();
                }
                self.put(context.module.functions[*function].name.as_str());
                proof {
                    reveal_strlit("");
                }
                self.put_call("", arguments.as_slice(), context, depth)?;
            },
            Expression::ArrayLength(expr) => {
                self.put_array_length(*expr, context)?;
            },
        }
        Ok(())
    }
}

} // verus!
