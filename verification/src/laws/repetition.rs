//! What holds of calls of the writer one after the other, and of calls that differ.

use crate::context::ExpressionContext;
use crate::emission::Emission;
use crate::error::Stop;
use crate::ir::{ExpressionHandle, Statement, SwitchCase};
use crate::keyword;
use crate::laws::layout;
use vstd::prelude::*;

verus! {

/// Writing an expression once more after it was written succeeds again, and appends its text
/// once more; what was in the output before stays.
pub proof fn law_expression_twice(
    context: ExpressionContext<'_>,
    handle: ExpressionHandle,
    a: Seq<char>,
    b: Seq<char>,
    c: Seq<char>,
    outcome: Result<(), Stop>,
)
    requires
        context.expression_text(handle).made(a, b, Ok(())),
        context.expression_text(handle).made(b, c, outcome),
    ensures
        outcome is Ok,
        b == a + context.expression_text(handle).text,
        c == a + context.expression_text(handle).text + context.expression_text(handle).text,
{
    reveal(Emission::made);
}

/// Writing two blocks one after the other is writing them as one block: where the one call
/// succeeds, so do both, and the output is the same.
pub proof fn law_block_calls(
    context: ExpressionContext<'_>,
    level: nat,
    first: Seq<Statement>,
    second: Seq<Statement>,
    implied: Seq<char>,
    before: Seq<char>,
    whole: Seq<char>,
    middle: Seq<char>,
    after: Seq<char>,
    r: Result<(), Stop>,
    s: Result<(), Stop>,
)
    requires
        context.block_text(level, first + second, implied).made(before, whole, Ok(())),
        context.block_text(level, first, implied).made(before, middle, r),
        context.block_text(level, second, implied).made(middle, after, s),
    ensures
        r is Ok,
        s is Ok,
        after == whole,
{
    reveal(Emission::made);
    layout::law_block_append(context, level, first, second, implied);
    let a = context.block_text(level, first, implied).text;
    let b = context.block_text(level, second, implied).text;
    assert(before + a + b =~= before + (a + b));
}

/// Writing an empty block succeeds and appends nothing.
pub proof fn law_empty_block(context: ExpressionContext<'_>, level: nat, implied: Seq<char>)
    ensures
        context.block_text(level, Seq::empty(), implied) == Emission::nothing(),
{
}

impl Statement {
    /// Whether no `return` in this statement lacks a value of its own.
    pub open spec fn returns_values(self) -> bool
        decreases self,
    {
        match self {
            Statement::Block(block) => forall|i: int|
                0 <= i < block@.len() ==> (#[trigger] block@[i]).returns_values(),
            Statement::If { accept, reject, .. } => {
                &&& forall|i: int|
                    0 <= i < accept@.len() ==> (#[trigger] accept@[i]).returns_values()
                &&& forall|i: int|
                    0 <= i < reject@.len() ==> (#[trigger] reject@[i]).returns_values()
            },
            Statement::Switch { cases, default, .. } => {
                &&& forall|i: int| 0 <= i < cases@.len() ==> (#[trigger] cases@[i]).returns_values()
                &&& forall|i: int|
                    0 <= i < default@.len() ==> (#[trigger] default@[i]).returns_values()
            },
            Statement::Loop { body, continuing, .. } => {
                &&& forall|i: int| 0 <= i < body@.len() ==> (#[trigger] body@[i]).returns_values()
                &&& forall|i: int|
                    0 <= i < continuing@.len() ==> (#[trigger] continuing@[i]).returns_values()
            },
            Statement::Return { value } => value is Some,
            _ => true,
        }
    }
}

impl SwitchCase {
    /// Whether no `return` in this case lacks a value of its own.
    pub open spec fn returns_values(self) -> bool
        decreases self,
    {
        forall|i: int| 0 <= i < self.body@.len() ==> (#[trigger] self.body@[i]).returns_values()
    }
}

/// The implied value matters only to a `return` without a value: statements without one at any
/// depth are written alike, and fail alike, whatever is implied.
pub proof fn law_implied_value(
    context: ExpressionContext<'_>,
    level: nat,
    statements: Seq<Statement>,
    x: Seq<char>,
    y: Seq<char>,
)
    requires
        forall|i: int| 0 <= i < statements.len() ==> (#[trigger] statements[i]).returns_values(),
    ensures
        context.block_text(level, statements, x) == context.block_text(level, statements, y),
    decreases statements, 1nat,
{
    assert forall|i: int| 0 <= i < statements.len() implies context.statement_text(
        level,
        #[trigger] statements[i],
        x,
    ) == context.statement_text(level, statements[i], y) by {
        lemma_implied_statement(context, level, statements[i], x, y);
    }
    assert(context.statement_texts(level, statements, x) =~= context.statement_texts(
        level,
        statements,
        y,
    ));
}

proof fn lemma_implied_case(
    context: ExpressionContext<'_>,
    level: nat,
    case: SwitchCase,
    x: Seq<char>,
    y: Seq<char>,
)
    requires
        case.returns_values(),
    ensures
        context.case_text(level, case, x) == context.case_text(level, case, y),
    decreases case, 0nat,
{
    law_implied_value(context, level + 1, case.body@, x, y);
}

proof fn lemma_implied_cases(
    context: ExpressionContext<'_>,
    level: nat,
    cases: Seq<SwitchCase>,
    x: Seq<char>,
    y: Seq<char>,
)
    requires
        forall|i: int| 0 <= i < cases.len() ==> (#[trigger] cases[i]).returns_values(),
    ensures
        context.case_texts(level, cases, x) == context.case_texts(level, cases, y),
    decreases cases, 0nat,
{
    assert forall|i: int| 0 <= i < cases.len() implies context.case_text(
        level,
        #[trigger] cases[i],
        x,
    ) == context.case_text(level, cases[i], y) by {
        lemma_implied_case(context, level, cases[i], x, y);
    }
    assert(context.case_texts(level, cases, x) =~= context.case_texts(level, cases, y));
}

proof fn lemma_implied_statement(
    context: ExpressionContext<'_>,
    level: nat,
    statement: Statement,
    x: Seq<char>,
    y: Seq<char>,
)
    requires
        statement.returns_values(),
    ensures
        context.statement_text(level, statement, x) == context.statement_text(level, statement, y),
    decreases statement, 0nat,
{
    match statement {
        Statement::Block(block) => {
            law_implied_value(context, level + 1, block@, x, y);
        },
        Statement::If { accept, reject, .. } => {
            law_implied_value(context, level + 1, accept@, x, y);
            law_implied_value(context, level + 1, reject@, x, y);
        },
        Statement::Switch { cases, default, .. } => {
            lemma_implied_cases(context, level + 1, cases@, x, y);
            law_implied_value(context, level + 2, default@, x, y);
        },
        Statement::Loop { body, continuing, .. } => {
            law_implied_value(context, level + 1, body@, x, y);
            law_implied_value(context, level + 2, continuing@, x, y);
        },
        _ => {},
    }
}

/// A `return` with a value is written as that value, whatever is implied.
pub proof fn law_return_value(
    context: ExpressionContext<'_>,
    level: nat,
    expr: ExpressionHandle,
    implied: Seq<char>,
)
    ensures
        ({
            let value = context.expression_text(expr);
            let written = context.statement_text(
                level,
                Statement::Return { value: Some(expr) },
                implied,
            );
            &&& written.fault == value.fault
            &&& written.fault is None ==> written.text == keyword::indentation(level) + "return "@
                + value.text + ";\n"@
        }),
{
}

} // verus!
