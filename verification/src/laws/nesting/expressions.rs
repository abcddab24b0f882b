//! The brackets of expressions.

use crate::context::ExpressionContext;
use crate::emission::Emission;
use crate::grammar::expression;
use crate::ir::{
    ArraySize, BinaryOperator, ConstantHandle, Expression, ExpressionHandle, GlobalHandle,
    LocalHandle, MathFunction, SampleLevel, ScalarKind, TypeHandle, TypeInner,
};
use crate::keyword;
use crate::laws::nesting;
use crate::laws::nesting::words;
use vstd::prelude::*;

verus! {

broadcast use {
    crate::laws::nesting::group_opens,
    crate::laws::nesting::words::group_words,
};

/// A call of a library function is nested if its arguments are.
proof fn lemma_library_call(name: Seq<char>, argument: Emission)
    requires
        nesting::is_nested(name),
        argument.is_nested(),
    ensures
        expression::library_call(name, seq![argument]).is_nested(),
{
    words::lemma_words();
    nesting::lemma_bracketed(seq![argument]);
    assert forall|open: Seq<char>| #[trigger]
        expression::library_call(name, seq![argument]).opens(open, open) by {
        assert(Emission::text("metal::"@).opens(open, open));
        assert(Emission::bracketed(seq![argument]).opens(open, open));
    }
}

proof fn lemma_optional(
    operand: Option<ExpressionHandle>,
    text: spec_fn(ExpressionHandle) -> Emission,
)
    requires
        forall|operand: ExpressionHandle| (#[trigger] text(operand)).is_nested(),
    ensures
        expression::optional_text(operand, text).is_nested(),
{
    words::lemma_words();
    assert forall|open: Seq<char>| #[trigger]
        expression::optional_text(operand, text).opens(open, open) by {
        assert(Emission::text(", "@).opens(open, open));
    }
}

proof fn lemma_sample_level(level: SampleLevel, text: spec_fn(ExpressionHandle) -> Emission)
    requires
        forall|operand: ExpressionHandle| (#[trigger] text(operand)).is_nested(),
    ensures
        expression::sample_level_text(level, text).is_nested(),
{
    words::lemma_words();
    assert forall|open: Seq<char>| #[trigger]
        expression::sample_level_text(level, text).opens(open, open) by {
        nesting::lemma_brackets(open);
        nesting::lemma_long_brackets(open);
    }
}

impl<'a> ExpressionContext<'a> {
    /// Whether the brackets of the names of the module and of the function are nested.
    pub open spec fn has_nested_names(self) -> bool {
        &&& self.module.has_nested_names()
        &&& self.function.has_nested_names()
    }

    proof fn lemma_nested_component(self, base: ExpressionHandle, index: u32)
        requires
            self.has_nested_names(),
        ensures
            self.component_text(base, index).is_nested(),
    {
        words::lemma_words();
        let whole = self.component_text(base, index);
        if whole.fault is Some {
            nesting::lemma_failure(whole);
        } else {
            if let Some(TypeInner::Struct { members, .. }) = self.type_of(base) {
                assert(nesting::is_nested(members@[index as int].name@));
            }
            assert forall|open: Seq<char>| #[trigger] whole.opens(open, open) by {
                nesting::lemma_brackets(open);
                assert(Emission::text("."@).opens(open, open));
                assert(Emission::nothing().opens(open, open));
            }
        }
    }

    proof fn lemma_nested_argument(self, index: u32)
        requires
            self.has_nested_names(),
        ensures
            self.argument_text(index).is_nested(),
    {
        if self.argument_text(index).fault is Some {
            nesting::lemma_failure(self.argument_text(index));
        } else {
            assert(nesting::is_nested(self.function.arguments@[index as int].name@));
        }
    }

    proof fn lemma_nested_local(self, local: LocalHandle)
        requires
            self.has_nested_names(),
        ensures
            self.local_text(local).is_nested(),
    {
        if self.local_text(local).fault is Some {
            nesting::lemma_failure(self.local_text(local));
        } else {
            assert(nesting::is_nested(self.function.local_variables@[local as int].name@));
        }
    }

    proof fn lemma_nested_global(self, handle: GlobalHandle)
        requires
            self.has_nested_names(),
        ensures
            self.global_text(handle).is_nested(),
    {
        words::lemma_words();
        let whole = self.global_text(handle);
        if whole.fault is Some {
            nesting::lemma_failure(whole);
        } else {
            let var = self.module.global_variables@[handle as int];
            assert(nesting::is_nested(var.name@));
            assert forall|open: Seq<char>| #[trigger] whole.opens(open, open) by {
                assert(Emission::text("input"@).opens(open, open));
                assert(Emission::text("output"@).opens(open, open));
                assert(Emission::text(var.name@).opens(open, open));
                assert(Emission::nothing().opens(open, open));
            }
        }
    }

    proof fn lemma_nested_compose(
        self,
        ty: TypeHandle,
        components: Seq<ExpressionHandle>,
        text: spec_fn(ExpressionHandle) -> Emission,
    )
        requires
            forall|operand: ExpressionHandle| (#[trigger] text(operand)).is_nested(),
        ensures
            self.compose_text(ty, components, text).is_nested(),
    {
        if ty >= self.module.types@.len() {
            nesting::lemma_failure(self.compose_text(ty, components, text));
            return;
        }
        let inner = self.module.types@[ty as int].inner;
        match expression::constructor_text(inner, components.len()) {
            Some(constructor) => {
                words::lemma_words();
                match inner {
                    TypeInner::Vector { size, kind, .. } => {
                        let a = keyword::scalar_kind_text(kind);
                        let b = keyword::vector_size_text(size);
                        nesting::lemma_nested_add("metal::"@, a);
                        nesting::lemma_nested_add("metal::"@ + a, b);
                    },
                    TypeInner::Matrix { columns, rows, .. } => {
                        let a = keyword::scalar_kind_text(ScalarKind::Float);
                        let b = keyword::vector_size_text(columns);
                        let c = keyword::vector_size_text(rows);
                        nesting::lemma_nested_add("metal::"@, a);
                        nesting::lemma_nested_add("metal::"@ + a, b);
                        nesting::lemma_nested_add("metal::"@ + a + b, "x"@);
                        nesting::lemma_nested_add("metal::"@ + a + b + "x"@, c);
                    },
                    _ => {},
                }
                let arguments = expression::texts_of(components, text);
                assert forall|i: int| 0 <= i < arguments.len() implies (
                #[trigger] arguments[i]).is_nested() by {
                    assert(text(components[i]).is_nested());
                }
                nesting::lemma_bracketed(arguments);
                assert forall|open: Seq<char>| #[trigger]
                    self.compose_text(ty, components, text).opens(open, open) by {
                    assert(Emission::text(constructor).opens(open, open));
                    assert(Emission::bracketed(arguments).opens(open, open));
                }
            },
            None => {
                nesting::lemma_failure(self.compose_text(ty, components, text));
            },
        }
    }

    proof fn lemma_nested_image_sample(
        self,
        image: ExpressionHandle,
        sampler: ExpressionHandle,
        coordinate: ExpressionHandle,
        array_index: Option<ExpressionHandle>,
        offset: Option<ConstantHandle>,
        level: SampleLevel,
        depth_ref: Option<ExpressionHandle>,
        text: spec_fn(ExpressionHandle) -> Emission,
    )
        requires
            self.has_nested_names(),
            forall|operand: ExpressionHandle| (#[trigger] text(operand)).is_nested(),
        ensures
            self.image_sample_text(
                image,
                sampler,
                coordinate,
                array_index,
                offset,
                level,
                depth_ref,
                text,
            ).is_nested(),
    {
        words::lemma_words();
        lemma_optional(array_index, text);
        lemma_optional(depth_ref, text);
        lemma_sample_level(level, text);
        let last = self.offset_text(offset);
        assert forall|open: Seq<char>| #[trigger] last.opens(open, open) by {
            assert(Emission::text(", "@).opens(open, open));
            if let Some(constant) = offset {
                self.module.lemma_nested_constant(constant);
            }
        }
        let whole = self.image_sample_text(
            image,
            sampler,
            coordinate,
            array_index,
            offset,
            level,
            depth_ref,
            text,
        );
        assert forall|open: Seq<char>| #[trigger] whole.opens(open, open) by {
            nesting::lemma_brackets(open);
            assert(text(image).opens(open, open));
        }
    }

    proof fn lemma_nested_image_load(
        self,
        image: ExpressionHandle,
        coordinate: ExpressionHandle,
        array_index: Option<ExpressionHandle>,
        index: Option<ExpressionHandle>,
        text: spec_fn(ExpressionHandle) -> Emission,
    )
        requires
            forall|operand: ExpressionHandle| (#[trigger] text(operand)).is_nested(),
        ensures
            expression::image_load_text(image, coordinate, array_index, index, text).is_nested(),
    {
        lemma_optional(array_index, text);
        lemma_optional(index, text);
        let whole = expression::image_load_text(image, coordinate, array_index, index, text);
        assert forall|open: Seq<char>| #[trigger] whole.opens(open, open) by {
            nesting::lemma_brackets(open);
            assert(text(image).opens(open, open));
        }
    }

    proof fn lemma_nested_operation(
        self,
        op: BinaryOperator,
        left: ExpressionHandle,
        right: ExpressionHandle,
        text: spec_fn(ExpressionHandle) -> Emission,
    )
        requires
            forall|operand: ExpressionHandle| (#[trigger] text(operand)).is_nested(),
        ensures
            self.operation_text(op, left, right, text).is_nested(),
    {
        words::lemma_words();
        let whole = self.operation_text(op, left, right, text);
        if whole.fault is None {
            assert(text(left).is_nested() && text(right).is_nested());
            assert forall|open: Seq<char>| #[trigger] whole.opens(open, open) by {
                nesting::lemma_brackets(open);
            }
        } else {
            nesting::lemma_failure(whole);
        }
    }

    proof fn lemma_nested_math(
        self,
        fun: MathFunction,
        arg: ExpressionHandle,
        arg1: Option<ExpressionHandle>,
        arg2: Option<ExpressionHandle>,
        text: spec_fn(ExpressionHandle) -> Emission,
    )
        requires
            forall|operand: ExpressionHandle| (#[trigger] text(operand)).is_nested(),
        ensures
            expression::math_call_text(fun, arg, arg1, arg2, text).is_nested(),
    {
        words::lemma_words();
        let whole = expression::math_call_text(fun, arg, arg1, arg2, text);
        if keyword::math_text(fun) is Some {
            lemma_optional(arg1, text);
            lemma_optional(arg2, text);
            assert forall|open: Seq<char>| #[trigger] whole.opens(open, open) by {
                nesting::lemma_brackets(open);
                assert(Emission::text("metal::"@).opens(open, open));
            }
        } else {
            nesting::lemma_failure(whole);
        }
    }

    proof fn lemma_nested_cast(
        self,
        expr: ExpressionHandle,
        kind: ScalarKind,
        convert: bool,
        text: spec_fn(ExpressionHandle) -> Emission,
    )
        requires
            forall|operand: ExpressionHandle| (#[trigger] text(operand)).is_nested(),
        ensures
            self.cast_text(expr, kind, convert, text).is_nested(),
    {
        words::lemma_words();
        let whole = self.cast_text(expr, kind, convert, text);
        if whole.fault is None {
            assert(text(expr).is_nested());
            assert forall|open: Seq<char>| #[trigger] whole.opens(open, open) by {
                nesting::lemma_brackets(open);
                assert(Emission::text("static_cast"@).opens(open, open));
                assert(Emission::text("as_type"@).opens(open, open));
            }
        } else {
            nesting::lemma_failure(whole);
        }
    }

    proof fn lemma_nested_call(
        self,
        name: Seq<char>,
        arguments: Seq<ExpressionHandle>,
        text: spec_fn(ExpressionHandle) -> Emission,
    )
        requires
            nesting::is_nested(name),
            forall|operand: ExpressionHandle| (#[trigger] text(operand)).is_nested(),
        ensures
            Emission::text(name).and(
                Emission::bracketed(expression::texts_of(arguments, text)),
            ).is_nested(),
    {
        let texts = expression::texts_of(arguments, text);
        assert forall|i: int| 0 <= i < texts.len() implies (#[trigger] texts[i]).is_nested() by {
            assert(text(arguments[i]).is_nested());
        }
        nesting::lemma_bracketed(texts);
        let whole = Emission::text(name).and(Emission::bracketed(texts));
        assert forall|open: Seq<char>| #[trigger] whole.opens(open, open) by {
            assert(Emission::text(name).opens(open, open));
        }
    }

    proof fn lemma_nested_array_length(self, array: ExpressionHandle)
        requires
            self.has_nested_names(),
        ensures
            self.array_length_text(array).is_nested(),
    {
        match self.type_of(array) {
            Some(TypeInner::Array { size: ArraySize::Constant(constant), .. }) => {
                self.module.lemma_nested_constant(constant);
            },
            _ => {
                nesting::lemma_failure(self.array_length_text(array));
            },
        }
    }

    /// The brackets of an expression are nested if those of its operands are.
    proof fn lemma_nested_node(
        self,
        node: Expression,
        text: spec_fn(ExpressionHandle) -> Emission,
    )
        requires
            self.has_nested_names(),
            forall|operand: ExpressionHandle| (#[trigger] text(operand)).is_nested(),
        ensures
            self.node_text(node, text).is_nested(),
    {
        reveal(ExpressionContext::node_text);
        let whole = self.node_text(node, text);
        match node {
            Expression::Access { base, index } => {
                assert(text(index).is_nested());
                assert forall|open: Seq<char>| #[trigger] whole.opens(open, open) by {
                    nesting::lemma_brackets(open);
                    assert(text(base).opens(open, open));
                }
            },
            Expression::AccessIndex { base, index } => {
                self.lemma_nested_component(base, index);
                assert forall|open: Seq<char>| #[trigger] whole.opens(open, open) by {
                    assert(text(base).opens(open, open));
                }
            },
            Expression::Constant(constant) => {
                self.module.lemma_nested_constant(constant);
            },
            Expression::Compose { ty, components } => {
                self.lemma_nested_compose(ty, components@, text);
            },
            Expression::FunctionArgument(index) => {
                self.lemma_nested_argument(index);
            },
            Expression::GlobalVariable(global) => {
                self.lemma_nested_global(global);
            },
            Expression::LocalVariable(local) => {
                self.lemma_nested_local(local);
            },
            Expression::Load { pointer } => {
                assert(text(pointer).is_nested());
            },
            Expression::ImageSample {
                image,
                sampler,
                coordinate,
                array_index,
                offset,
                level,
                depth_ref,
            } => {
                self.lemma_nested_image_sample(
                    image,
                    sampler,
                    coordinate,
                    array_index,
                    offset,
                    level,
                    depth_ref,
                    text,
                );
            },
            Expression::ImageLoad { image, coordinate, array_index, index } => {
                self.lemma_nested_image_load(image, coordinate, array_index, index, text);
            },
            Expression::Unary { op, expr } => {
                assert(text(expr).is_nested());
                assert forall|open: Seq<char>| #[trigger] whole.opens(open, open) by {
                    assert(Emission::text(keyword::unary_text(op)).opens(open, open));
                }
            },
            Expression::Binary { op, left, right } => {
                self.lemma_nested_operation(op, left, right, text);
            },
            Expression::Select { condition, accept, reject } => {
                words::lemma_words();
                assert(text(condition).is_nested());
                assert(text(accept).is_nested());
                assert(text(reject).is_nested());
                assert forall|open: Seq<char>| #[trigger] whole.opens(open, open) by {
                    nesting::lemma_brackets(open);
                }
            },
            Expression::Derivative { axis, expr } => {
                assert(text(expr).is_nested());
                lemma_library_call(keyword::derivative_text(axis), text(expr));
            },
            Expression::Relational { fun, argument } => {
                assert(text(argument).is_nested());
                lemma_library_call(keyword::relational_text(fun), text(argument));
            },
            Expression::Math { fun, arg, arg1, arg2 } => {
                self.lemma_nested_math(fun, arg, arg1, arg2, text);
            },
            Expression::As { expr, kind, convert } => {
                self.lemma_nested_cast(expr, kind, convert, text);
            },
            Expression::Call { function, arguments } => {
                if function < self.module.functions@.len() {
                    assert(self.module.functions@[function as int].has_nested_names());
                    self.lemma_nested_call(
                        self.module.functions@[function as int].name@,
                        arguments@,
                        text,
                    );
                } else {
                    nesting::lemma_failure(whole);
                }
            },
            Expression::ArrayLength(array) => {
                self.lemma_nested_array_length(array);
            },
        }
    }

    proof fn lemma_nested_within(self, handle: ExpressionHandle, n: nat)
        requires
            self.has_nested_names(),
        ensures
            self.expression_within(handle, n).is_nested(),
        decreases n,
    {
        self.lemma_expression_within(handle, n);
        if n > 0 && handle < self.function.expressions@.len() {
            let text = self.texts_within((n - 1) as nat);
            assert forall|operand: ExpressionHandle| (#[trigger] text(operand)).is_nested() by {
                reveal(ExpressionContext::expression_within);
                self.lemma_nested_within(operand, (n - 1) as nat);
            }
            self.lemma_nested_node(self.function.expressions@[handle as int], text);
        } else {
            nesting::lemma_failure(self.expression_within(handle, n));
        }
    }

    /// The brackets of an expression are nested.
    pub proof fn lemma_nested_expression(self, handle: ExpressionHandle)
        requires
            self.has_nested_names(),
        ensures
            self.expression_text(handle).is_nested(),
    {
        self.lemma_nested_within(handle, self.function.expressions@.len());
    }
}

} // verus!
