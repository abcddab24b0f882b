//! What the text of an expression depends on.

use crate::context::ExpressionContext;
use crate::emission;
use crate::emission::Emission;
use crate::grammar::expression;
use crate::ir::{
    BinaryOperator, ConstantHandle, Expression, ExpressionHandle, MathFunction, SampleLevel,
};
use vstd::prelude::*;

verus! {

/// Whether two steps are the same, unless the first comes to something that does not exist.
pub open spec fn agrees(first: Emission, second: Emission) -> bool {
    first.is_defined() ==> first == second
}

impl<'a> ExpressionContext<'a> {
    /// The text of an expression depends only on the operands that it comes to.
    pub proof fn lemma_node_agree(
        self,
        expression: Expression,
        f: spec_fn(ExpressionHandle) -> Emission,
        g: spec_fn(ExpressionHandle) -> Emission,
    )
        requires
            self.node_text(expression, f).is_defined(),
            forall|operand: ExpressionHandle| agrees(#[trigger] f(operand), g(operand)),
        ensures
            self.node_text(expression, g) == self.node_text(expression, f),
    {
        reveal(ExpressionContext::node_text);
        match expression {
            Expression::Compose { ty, components } => {
                lemma_bracketed_agree(components@, f, g);
            },
            Expression::Call { arguments, .. } => {
                lemma_bracketed_agree(arguments@, f, g);
            },
            Expression::Derivative { expr, .. } => {
                lemma_bracketed_agree(seq![expr], f, g);
                assert(expression::texts_of(seq![expr], f) =~= seq![f(expr)]);
                assert(expression::texts_of(seq![expr], g) =~= seq![g(expr)]);
            },
            Expression::Relational { argument, .. } => {
                lemma_bracketed_agree(seq![argument], f, g);
                assert(expression::texts_of(seq![argument], f) =~= seq![f(argument)]);
                assert(expression::texts_of(seq![argument], g) =~= seq![g(argument)]);
            },
            Expression::ImageSample {
                image,
                sampler,
                coordinate,
                array_index,
                offset,
                level,
                depth_ref,
            } => {
                self.lemma_sample_agree(
                    image,
                    sampler,
                    coordinate,
                    array_index,
                    offset,
                    level,
                    depth_ref,
                    f,
                    g,
                );
            },
            Expression::ImageLoad { image, coordinate, array_index, index } => {
                lemma_load_agree(image, coordinate, array_index, index, f, g);
            },
            Expression::Math { fun, arg, arg1, arg2 } => {
                lemma_math_agree(fun, arg, arg1, arg2, f, g);
            },
            Expression::Binary { op, left, right } => {
                self.lemma_operation_agree(op, left, right, f, g);
            },
            Expression::Select { condition, accept, reject } => {
                lemma_select_agree(condition, accept, reject, f, g);
            },
            _ => {},
        }
    }

    proof fn lemma_sample_agree(
        self,
        image: ExpressionHandle,
        sampler: ExpressionHandle,
        coordinate: ExpressionHandle,
        array_index: Option<ExpressionHandle>,
        offset: Option<ConstantHandle>,
        level: SampleLevel,
        depth_ref: Option<ExpressionHandle>,
        f: spec_fn(ExpressionHandle) -> Emission,
        g: spec_fn(ExpressionHandle) -> Emission,
    )
        requires
            forall|operand: ExpressionHandle| agrees(#[trigger] f(operand), g(operand)),
        ensures
            agrees(
                self.image_sample_text(
                    image,
                    sampler,
                    coordinate,
                    array_index,
                    offset,
                    level,
                    depth_ref,
                    f,
                ),
                self.image_sample_text(
                    image,
                    sampler,
                    coordinate,
                    array_index,
                    offset,
                    level,
                    depth_ref,
                    g,
                ),
            ),
    {
        lemma_optional_agree(array_index, f, g);
        lemma_optional_agree(depth_ref, f, g);
        lemma_level_agree(level, f, g);
        let op = if depth_ref is Some {
            "sample_compare"@
        } else {
            "sample"@
        };
        assert(agrees(f(image), g(image)));
        assert(agrees(f(sampler), g(sampler)));
        assert(agrees(f(coordinate), g(coordinate)));
        let a = f(image).put("."@).put(op).put("("@);
        let b = g(image).put("."@).put(op).put("("@);
        assert(agrees(a, b));
        let a = a.and(f(sampler)).put(", "@).and(f(coordinate));
        let b = b.and(g(sampler)).put(", "@).and(g(coordinate));
        assert(agrees(a, b));
        let a = a.and(expression::optional_text(array_index, f)).and(expression::optional_text(depth_ref, f));
        let b = b.and(expression::optional_text(array_index, g)).and(expression::optional_text(depth_ref, g));
        assert(agrees(a, b));
    }

    proof fn lemma_operation_agree(
        self,
        op: BinaryOperator,
        left: ExpressionHandle,
        right: ExpressionHandle,
        f: spec_fn(ExpressionHandle) -> Emission,
        g: spec_fn(ExpressionHandle) -> Emission,
    )
        requires
            forall|operand: ExpressionHandle| agrees(#[trigger] f(operand), g(operand)),
        ensures
            agrees(
                self.operation_text(op, left, right, f),
                self.operation_text(op, left, right, g),
            ),
    {
        assert(agrees(f(left), g(left)));
        assert(agrees(f(right), g(right)));
    }

    /// What can be written with operands nested at most `n` deep is written alike with more.
    pub proof fn lemma_within_more(self, handle: ExpressionHandle, n: nat, m: nat)
        requires
            self.expression_within(handle, n).is_defined(),
            n <= m,
        ensures
            self.expression_within(handle, m) == self.expression_within(handle, n),
        decreases n,
    {
        self.lemma_expression_within(handle, n);
        self.lemma_expression_within(handle, m);
        let f = self.texts_within((n - 1) as nat);
        let g = self.texts_within((m - 1) as nat);
        assert forall|operand: ExpressionHandle| agrees(#[trigger] f(operand), g(operand)) by {
            reveal(ExpressionContext::expression_within);
            if f(operand).is_defined() {
                self.lemma_within_more(operand, (n - 1) as nat, (m - 1) as nat);
            }
        }
        self.lemma_node_agree(self.function.expressions@[handle as int], f, g);
    }

    /// The text of an expression is made of the texts of its operands.
    pub proof fn lemma_expression_text(self, handle: ExpressionHandle)
        requires
            self.expression_text(handle).is_defined(),
        ensures
            handle < self.function.expressions@.len(),
            self.expression_text(handle) == self.node_text(
                self.function.expressions@[handle as int],
                self.texts(),
            ),
    {
        let n = self.function.expressions@.len();
        self.lemma_expression_within(handle, n);
        let f = self.texts_within((n - 1) as nat);
        let g = self.texts();
        assert forall|operand: ExpressionHandle| agrees(#[trigger] f(operand), g(operand)) by {
            reveal(ExpressionContext::expression_within);
            if f(operand).is_defined() {
                self.lemma_within_more(operand, (n - 1) as nat, n);
            }
        }
        self.lemma_node_agree(self.function.expressions@[handle as int], f, g);
    }
}

proof fn lemma_optional_agree(
    operand: Option<ExpressionHandle>,
    f: spec_fn(ExpressionHandle) -> Emission,
    g: spec_fn(ExpressionHandle) -> Emission,
)
    requires
        forall|operand: ExpressionHandle| agrees(#[trigger] f(operand), g(operand)),
    ensures
        agrees(expression::optional_text(operand, f), expression::optional_text(operand, g)),
{
    if let Some(operand) = operand {
        assert(agrees(f(operand), g(operand)));
    }
}

proof fn lemma_level_agree(
    level: SampleLevel,
    f: spec_fn(ExpressionHandle) -> Emission,
    g: spec_fn(ExpressionHandle) -> Emission,
)
    requires
        forall|operand: ExpressionHandle| agrees(#[trigger] f(operand), g(operand)),
    ensures
        agrees(expression::sample_level_text(level, f), expression::sample_level_text(level, g)),
{
    match level {
        SampleLevel::Exact(operand) => {
            assert(agrees(f(operand), g(operand)));
        },
        SampleLevel::Bias(operand) => {
            assert(agrees(f(operand), g(operand)));
        },
        SampleLevel::Gradient { x, y } => {
            assert(agrees(f(x), g(x)));
            assert(agrees(f(y), g(y)));
        },
        _ => {},
    }
}

proof fn lemma_load_agree(
    image: ExpressionHandle,
    coordinate: ExpressionHandle,
    array_index: Option<ExpressionHandle>,
    index: Option<ExpressionHandle>,
    f: spec_fn(ExpressionHandle) -> Emission,
    g: spec_fn(ExpressionHandle) -> Emission,
)
    requires
        forall|operand: ExpressionHandle| agrees(#[trigger] f(operand), g(operand)),
    ensures
        agrees(
            expression::image_load_text(image, coordinate, array_index, index, f),
            expression::image_load_text(image, coordinate, array_index, index, g),
        ),
{
    lemma_optional_agree(array_index, f, g);
    lemma_optional_agree(index, f, g);
    assert(agrees(f(image), g(image)));
    assert(agrees(f(coordinate), g(coordinate)));
}

proof fn lemma_math_agree(
    fun: MathFunction,
    arg: ExpressionHandle,
    arg1: Option<ExpressionHandle>,
    arg2: Option<ExpressionHandle>,
    f: spec_fn(ExpressionHandle) -> Emission,
    g: spec_fn(ExpressionHandle) -> Emission,
)
    requires
        forall|operand: ExpressionHandle| agrees(#[trigger] f(operand), g(operand)),
    ensures
        agrees(expression::math_call_text(fun, arg, arg1, arg2, f), expression::math_call_text(fun, arg, arg1, arg2, g)),
{
    lemma_optional_agree(arg1, f, g);
    lemma_optional_agree(arg2, f, g);
    assert(agrees(f(arg), g(arg)));
}

proof fn lemma_select_agree(
    condition: ExpressionHandle,
    accept: ExpressionHandle,
    reject: ExpressionHandle,
    f: spec_fn(ExpressionHandle) -> Emission,
    g: spec_fn(ExpressionHandle) -> Emission,
)
    requires
        forall|operand: ExpressionHandle| agrees(#[trigger] f(operand), g(operand)),
    ensures
        agrees(
            expression::select_text(condition, accept, reject, f),
            expression::select_text(condition, accept, reject, g),
        ),
{
    assert(agrees(f(condition), g(condition)));
    assert(agrees(f(accept), g(accept)));
    assert(agrees(f(reject), g(reject)));
}

/// Arguments in brackets depend only on the arguments that their text comes to.
proof fn lemma_bracketed_agree(
    handles: Seq<ExpressionHandle>,
    f: spec_fn(ExpressionHandle) -> Emission,
    g: spec_fn(ExpressionHandle) -> Emission,
)
    requires
        forall|operand: ExpressionHandle| agrees(#[trigger] f(operand), g(operand)),
    ensures
        Emission::bracketed(expression::texts_of(handles, f)).is_defined() ==> Emission::bracketed(
            expression::texts_of(handles, f),
        ) == Emission::bracketed(expression::texts_of(handles, g)),
{
    let a = Emission::with_separators(expression::texts_of(handles, f), ", "@);
    let b = Emission::with_separators(expression::texts_of(handles, g), ", "@);
    if Emission::all(a).is_defined() {
        assert forall|i: int| 0 <= i < a.len() && (#[trigger] a[i]).is_defined() implies a[i]
            == b[i] by {
            assert(f(handles[i]).is_defined());
        }
        emission::lemma_all_agree(a, b);
    }
}

} // verus!
