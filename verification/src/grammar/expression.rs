//! The text of expressions.

use crate::context::ExpressionContext;
use crate::decimal;
use crate::emission::Emission;
use crate::error::Fault;
use crate::ir::{
    ArraySize, BinaryOperator, Binding, ConstantHandle, Expression, ExpressionHandle,
    FunctionHandle, GlobalHandle, LocalHandle, MathFunction, SampleLevel, ScalarKind, StorageClass,
    TypeHandle, TypeInner,
};
use crate::keyword;
use vstd::prelude::*;

verus! {

/// A call of a function of Metal's library; without a name, only the arguments in brackets.
pub open spec fn library_call(name: Seq<char>, arguments: Seq<Emission>) -> Emission {
    if name.len() == 0 {
        Emission::bracketed(arguments)
    } else {
        Emission::text("metal::"@).put(name).and(Emission::bracketed(arguments))
    }
}

/// The texts of a list of expressions.
pub open spec fn texts_of(
    handles: Seq<ExpressionHandle>,
    text: spec_fn(ExpressionHandle) -> Emission,
) -> Seq<Emission> {
    Seq::new(handles.len(), |i: int| text(handles[i]))
}

/// The type that a composed value of type `inner` with `count` components is built with, if
/// values of that type can be composed.
pub open spec fn constructor_text(inner: TypeInner, count: nat) -> Option<Seq<char>> {
    match inner {
        TypeInner::Scalar { width, kind } => if width == 4 && count == 1 {
            Some(keyword::scalar_kind_text(kind))
        } else {
            None
        },
        TypeInner::Vector { size, kind, .. } => Some(
            "metal::"@ + keyword::scalar_kind_text(kind) + keyword::vector_size_text(size),
        ),
        TypeInner::Matrix { columns, rows, .. } => Some(
            "metal::"@ + keyword::scalar_kind_text(ScalarKind::Float) + keyword::vector_size_text(
                columns,
            ) + "x"@ + keyword::vector_size_text(rows),
        ),
        _ => None,
    }
}

/// The number of components that a cast to another kind keeps, if values of that type can be
/// cast.
pub open spec fn cast_size_text(inner: TypeInner) -> Option<Seq<char>> {
    match inner {
        TypeInner::Scalar { .. } => Some(""@),
        TypeInner::Vector { size, .. } => Some(keyword::vector_size_text(size)),
        _ => None,
    }
}

/// A further argument, if there is one.
pub open spec fn optional_text(
    operand: Option<ExpressionHandle>,
    text: spec_fn(ExpressionHandle) -> Emission,
) -> Emission {
    match operand {
        Some(operand) => Emission::text(", "@).and(text(operand)),
        None => Emission::nothing(),
    }
}

/// The level of detail of a sample, as a further argument; the automatic one and zero are left
/// out.
pub open spec fn sample_level_text(
    level: SampleLevel,
    text: spec_fn(ExpressionHandle) -> Emission,
) -> Emission {
    match level {
        SampleLevel::Auto | SampleLevel::Zero => Emission::nothing(),
        SampleLevel::Exact(operand) => Emission::text(", level("@).and(text(operand)).put(")"@),
        SampleLevel::Bias(operand) => Emission::text(", bias("@).and(text(operand)).put(")"@),
        SampleLevel::Gradient { x, y } => Emission::text(", gradient("@).and(text(x)).put(
            ", "@,
        ).and(text(y)).put(")"@),
    }
}

/// A choice between two values.
pub open spec fn select_text(
    condition: ExpressionHandle,
    accept: ExpressionHandle,
    reject: ExpressionHandle,
    text: spec_fn(ExpressionHandle) -> Emission,
) -> Emission {
    Emission::text("("@).and(text(condition)).put(" ? "@).and(text(accept)).put(" : "@).and(
        text(reject),
    ).put(")"@)
}

/// A texel of an image.
pub open spec fn image_load_text(
    image: ExpressionHandle,
    coordinate: ExpressionHandle,
    array_index: Option<ExpressionHandle>,
    index: Option<ExpressionHandle>,
    text: spec_fn(ExpressionHandle) -> Emission,
) -> Emission {
    text(image).put(".read("@).and(text(coordinate)).and(optional_text(array_index, text)).and(
        optional_text(index, text),
    ).put(")"@)
}

/// A call of a math function.
pub open spec fn math_call_text(
    fun: MathFunction,
    arg: ExpressionHandle,
    arg1: Option<ExpressionHandle>,
    arg2: Option<ExpressionHandle>,
    text: spec_fn(ExpressionHandle) -> Emission,
) -> Emission {
    match keyword::math_text(fun) {
        Some(name) => Emission::text("metal::"@).put(name).put("("@).and(text(arg)).and(
            optional_text(arg1, text),
        ).and(optional_text(arg2, text)).put(")"@),
        None => Emission::failure(Fault::UnsupportedCall("Outer"@)),
    }
}

impl<'a> ExpressionContext<'a> {
    /// The type of expression `handle`, if it is known.
    pub open spec fn type_of(self, handle: ExpressionHandle) -> Option<TypeInner> {
        self.typifier.resolved(handle, self.module.types@)
    }

    /// How component `index` of expression `base` is reached from it.
    pub open spec fn component_text(self, base: ExpressionHandle, index: u32) -> Emission {
        match self.type_of(base) {
            Some(TypeInner::Struct { members, .. }) => if self.typifier.is_named(base) && index
                < members@.len() {
                Emission::text("."@).put(members@[index as int].name@)
            } else {
                Emission::undefined()
            },
            Some(TypeInner::Vector { .. }) => if index < 4 {
                Emission::text("."@).put(keyword::component_text(index as nat))
            } else {
                Emission::undefined()
            },
            Some(TypeInner::Matrix { .. }) => Emission::text("["@).put(
                decimal::decimal(index as nat),
            ).put("]"@),
            Some(TypeInner::Array { .. }) => Emission::text("["@).put(
                decimal::decimal(index as nat),
            ).put("]"@),
            Some(_) => Emission::nothing(),
            None => Emission::undefined(),
        }
    }

    /// How an argument is reached; entry points have none.
    pub open spec fn argument_text(self, index: u32) -> Emission {
        if self.origin is Handle && index < self.function.arguments@.len() {
            Emission::text(self.function.arguments@[index as int].name@)
        } else {
            Emission::undefined()
        }
    }

    /// How a local variable is reached.
    pub open spec fn local_text(self, local: LocalHandle) -> Emission {
        if local < self.function.local_variables@.len() {
            Emission::text(self.function.local_variables@[local as int].name@)
        } else {
            Emission::undefined()
        }
    }

    /// How a global variable is reached: outputs and inputs with a location stand in a structure,
    /// and an output that is a structure itself has no name of its own.
    pub open spec fn global_text(self, handle: GlobalHandle) -> Emission {
        if handle < self.module.global_variables@.len() {
            let var = self.module.global_variables@[handle as int];
            match var.class {
                StorageClass::Output => if var.ty >= self.module.types@.len() {
                    Emission::undefined()
                } else if self.module.types@[var.ty as int].inner is Struct {
                    Emission::nothing()
                } else {
                    Emission::text("output"@).put("."@).put(var.name@)
                },
                StorageClass::Input => if var.binding matches Some(Binding::Location(_)) {
                    Emission::text("input"@).put("."@).put(var.name@)
                } else {
                    Emission::text(var.name@)
                },
                _ => Emission::text(var.name@),
            }
        } else {
            Emission::undefined()
        }
    }

    /// The number of elements of an array that expression `array` stands for.
    pub open spec fn array_length_text(self, array: ExpressionHandle) -> Emission {
        match self.type_of(array) {
            Some(TypeInner::Array { size, .. }) => match size {
                ArraySize::Constant(constant) => self.module.constant_text(constant),
                ArraySize::Dynamic => Emission::failure(Fault::UnsupportedDynamicArrayLength),
            },
            Some(_) => Emission::failure(Fault::Validation),
            None => Emission::undefined(),
        }
    }

    /// A value composed of `components`.
    pub open spec fn compose_text(
        self,
        ty: TypeHandle,
        components: Seq<ExpressionHandle>,
        text: spec_fn(ExpressionHandle) -> Emission,
    ) -> Emission {
        if ty < self.module.types@.len() {
            match constructor_text(self.module.types@[ty as int].inner, components.len()) {
                Some(constructor) => Emission::text(constructor).and(
                    Emission::bracketed(texts_of(components, text)),
                ),
                None => Emission::failure(Fault::UnsupportedCompose(ty)),
            }
        } else {
            Emission::undefined()
        }
    }

    /// The offset of a sample, as a further argument.
    pub open spec fn offset_text(self, offset: Option<ConstantHandle>) -> Emission {
        match offset {
            Some(constant) => Emission::text(", "@).and(self.module.constant_text(constant)),
            None => Emission::nothing(),
        }
    }

    /// A sample of an image, with a comparison where there is a depth reference.
    pub open spec fn image_sample_text(
        self,
        image: ExpressionHandle,
        sampler: ExpressionHandle,
        coordinate: ExpressionHandle,
        array_index: Option<ExpressionHandle>,
        offset: Option<ConstantHandle>,
        level: SampleLevel,
        depth_ref: Option<ExpressionHandle>,
        text: spec_fn(ExpressionHandle) -> Emission,
    ) -> Emission {
        let op = if depth_ref is Some {
            "sample_compare"@
        } else {
            "sample"@
        };
        text(image).put("."@).put(op).put("("@).and(text(sampler)).put(", "@).and(
            text(coordinate),
        ).and(optional_text(array_index, text)).and(optional_text(depth_ref, text)).and(
            sample_level_text(level, text),
        ).and(self.offset_text(offset)).put(")"@)
    }

    /// A binary operation. The remainder of floating-point numbers is a function.
    pub open spec fn operation_text(
        self,
        op: BinaryOperator,
        left: ExpressionHandle,
        right: ExpressionHandle,
        text: spec_fn(ExpressionHandle) -> Emission,
    ) -> Emission {
        match keyword::binary_text(op) {
            Some(symbol) => match self.type_of(left) {
                Some(inner) => match inner.scalar_kind_spec() {
                    Some(kind) => if op == BinaryOperator::Modulo && kind == ScalarKind::Float {
                        Emission::text("fmod("@).and(text(left)).put(", "@).and(text(right)).put(
                            ")"@,
                        )
                    } else {
                        Emission::text("("@).and(text(left)).put(" "@).put(symbol).put(" "@).and(
                            text(right),
                        ).put(")"@)
                    },
                    None => Emission::failure(Fault::UnsupportedBinaryOp(op)),
                },
                None => Emission::undefined(),
            },
            None => Emission::failure(Fault::UnsupportedBinaryOp(op)),
        }
    }

    /// A conversion to another kind, or a reinterpretation as one.
    pub open spec fn cast_text(
        self,
        expr: ExpressionHandle,
        kind: ScalarKind,
        convert: bool,
        text: spec_fn(ExpressionHandle) -> Emission,
    ) -> Emission {
        let op = if convert {
            "static_cast"@
        } else {
            "as_type"@
        };
        match self.type_of(expr) {
            Some(inner) => match cast_size_text(inner) {
                Some(size) => Emission::text(op).put("<"@).put(keyword::scalar_kind_text(kind)).put(
                    size,
                ).put(">("@).and(text(expr)).put(")"@),
                None => Emission::failure(Fault::Validation),
            },
            None => Emission::undefined(),
        }
    }

    /// A call of a function of the module.
    pub open spec fn call_text(
        self,
        function: FunctionHandle,
        arguments: Seq<ExpressionHandle>,
        text: spec_fn(ExpressionHandle) -> Emission,
    ) -> Emission {
        if function < self.module.functions@.len() {
            Emission::text(self.module.functions@[function as int].name@).and(
                Emission::bracketed(texts_of(arguments, text)),
            )
        } else {
            Emission::undefined()
        }
    }

    /// The text of `expression`, given the texts of its operands.
    #[verifier::opaque]
    pub open spec fn node_text(
        self,
        expression: Expression,
        text: spec_fn(ExpressionHandle) -> Emission,
    ) -> Emission {
        match expression {
            Expression::Access { base, index } => text(base).put("["@).and(text(index)).put("]"@),
            Expression::AccessIndex { base, index } => text(base).and(
                self.component_text(base, index),
            ),
            Expression::Constant(constant) => self.module.constant_text(constant),
            Expression::Compose { ty, components } => self.compose_text(ty, components@, text),
            Expression::FunctionArgument(index) => self.argument_text(index),
            Expression::GlobalVariable(global) => self.global_text(global),
            Expression::LocalVariable(local) => self.local_text(local),
            Expression::Load { pointer } => text(pointer),
            Expression::ImageSample {
                image,
                sampler,
                coordinate,
                array_index,
                offset,
                level,
                depth_ref,
            } => self.image_sample_text(
                image,
                sampler,
                coordinate,
                array_index,
                offset,
                level,
                depth_ref,
                text,
            ),
            Expression::ImageLoad { image, coordinate, array_index, index } => image_load_text(
                image,
                coordinate,
                array_index,
                index,
                text,
            ),
            Expression::Unary { op, expr } => Emission::text(keyword::unary_text(op)).and(
                text(expr),
            ),
            Expression::Binary { op, left, right } => self.operation_text(op, left, right, text),
            Expression::Select { condition, accept, reject } => select_text(
                condition,
                accept,
                reject,
                text,
            ),
            Expression::Derivative { axis, expr } => library_call(
                keyword::derivative_text(axis),
                seq![text(expr)],
            ),
            Expression::Relational { fun, argument } => library_call(
                keyword::relational_text(fun),
                seq![text(argument)],
            ),
            Expression::Math { fun, arg, arg1, arg2 } => math_call_text(fun, arg, arg1, arg2, text),
            Expression::As { expr, kind, convert } => self.cast_text(expr, kind, convert, text),
            Expression::Call { function, arguments } => self.call_text(function, arguments@, text),
            Expression::ArrayLength(array) => self.array_length_text(array),
        }
    }

    /// The text of expression `handle`, if its operands are nested at most `n` deep.
    #[verifier::opaque]
    pub open spec fn expression_within(self, handle: ExpressionHandle, n: nat) -> Emission
        decreases n, 0nat,
    {
        if n > 0 && handle < self.function.expressions@.len() {
            self.node_text(
                self.function.expressions@[handle as int],
                self.texts_within((n - 1) as nat),
            )
        } else {
            Emission::undefined()
        }
    }

    /// The text of each expression, if its operands are nested at most `n` deep.
    pub open spec fn texts_within(self, n: nat) -> spec_fn(ExpressionHandle) -> Emission
        decreases n, 1nat,
    {
        |operand: ExpressionHandle| self.expression_within(operand, n)
    }

    /// The text of expression `handle`. No expression that is not an operand of itself is nested
    /// deeper than there are expressions.
    pub open spec fn expression_text(self, handle: ExpressionHandle) -> Emission {
        self.expression_within(handle, self.function.expressions@.len())
    }

    /// The text of each expression.
    pub open spec fn texts(self) -> spec_fn(ExpressionHandle) -> Emission {
        |handle: ExpressionHandle| self.expression_text(handle)
    }

    /// What an expression is written as, in terms of its operands.
    pub proof fn lemma_expression_within(self, handle: ExpressionHandle, n: nat)
        ensures
            self.expression_within(handle, n) == if n > 0 && handle
                < self.function.expressions@.len() {
                self.node_text(
                    self.function.expressions@[handle as int],
                    self.texts_within((n - 1) as nat),
                )
            } else {
                Emission::undefined()
            },
    {
        reveal(ExpressionContext::expression_within);
    }
}

} // verus!
