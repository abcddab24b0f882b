//! What statements are written as, in terms of what their parts are written as.

use crate::context::ExpressionContext;
use crate::decimal;
use crate::emission::Emission;
use crate::error::Fault;
use crate::grammar::statement;
use crate::ir::{ExpressionHandle, Statement, SwitchCase};
use crate::keyword;
use crate::laws::sequence;
use vstd::prelude::*;

verus! {

/// A line at a level is its indentation and its text.
pub proof fn law_line(level: nat, text: Seq<char>)
    ensures
        statement::line(level, text).fault is None,
        statement::line(level, text).text == keyword::indentation(level) + text,
{
}

/// A function returns what it is told to where a `return` has no value, and nothing where it is
/// told nothing.
pub proof fn law_implied(value: &str)
    ensures
        statement::implied_value(Some(value)) == value@,
        statement::implied_value(None) == Seq::<char>::empty(),
{
    reveal_strlit("");
    assert(""@ =~= Seq::<char>::empty());
}

/// A block is written as all of its statements in order, each at the level of the block.
pub proof fn law_block(
    context: ExpressionContext<'_>,
    level: nat,
    statements: Seq<Statement>,
    implied: Seq<char>,
)
    ensures
        ({
            let whole = context.block_text(level, statements, implied);
            let parts = Seq::new(
                statements.len(),
                |i: int| context.statement_text(level, statements[i], implied),
            );
            &&& sequence::all_succeed(parts) ==> whole.fault is None && whole.text
                == sequence::flat(sequence::texts(parts))
            &&& forall|i: int| #[trigger]
                sequence::fails_first(parts, i) ==> whole.fault == parts[i].fault
        }),
{
    let parts = Seq::new(
        statements.len(),
        |i: int| context.statement_text(level, statements[i], implied),
    );
    assert(context.statement_texts(level, statements, implied) =~= parts);
    sequence::law_all(parts);
}

/// The simple statements are lines of their own.
pub proof fn law_simple(
    context: ExpressionContext<'_>,
    level: nat,
    pointer: ExpressionHandle,
    value: ExpressionHandle,
    implied: Seq<char>,
)
    ensures
        ({
            let indent = keyword::indentation(level);
            let store = context.statement_text(level, Statement::Store { pointer, value }, implied);
            let a = context.expression_text(pointer);
            let b = context.expression_text(value);
            &&& context.statement_text(level, Statement::Break, implied) == Emission::text(
                indent + "break;\n"@,
            )
            &&& context.statement_text(level, Statement::Continue, implied) == Emission::text(
                indent + "continue;\n"@,
            )
            &&& context.statement_text(level, Statement::Kill, implied) == Emission::text(
                indent + "discard_fragment();\n"@,
            )
            &&& context.statement_text(level, Statement::Return { value: None }, implied)
                == Emission::text(indent + "return "@ + implied + ";\n"@)
            &&& store.fault == sequence::earlier(a.fault, b.fault)
            &&& store.fault is None ==> store.text == indent + a.text + " = "@ + b.text + ";\n"@
        }),
{
}

/// A block in a block is its statements one level deeper, between lines with curly brackets. An
/// empty one is nothing.
pub proof fn law_inner_block(
    context: ExpressionContext<'_>,
    level: nat,
    block: Vec<Statement>,
    implied: Seq<char>,
)
    requires
        level < usize::MAX,
    ensures
        ({
            let whole = context.statement_text(level, Statement::Block(block), implied);
            let inner = context.block_text(level + 1, block@, implied);
            let indent = keyword::indentation(level);
            &&& block@.len() == 0 ==> whole == Emission::nothing()
            &&& block@.len() > 0 ==> {
                &&& whole.fault == inner.fault
                &&& whole.fault is None ==> whole.text == indent + "{\n"@ + inner.text + (indent
                    + "}\n"@)
            }
        }),
{
    let start = keyword::indentation(level) + "{\n"@;
    assert(start + Seq::<char>::empty() =~= start);
}

/// A conditional is the condition in a line that opens what is done if it holds, and what is done
/// if it does not after a line with `else`, both one level deeper. Only where there is nothing to
/// do if it does not hold, the `else` is left out.
pub proof fn law_if(
    context: ExpressionContext<'_>,
    level: nat,
    condition: ExpressionHandle,
    accept: Vec<Statement>,
    reject: Vec<Statement>,
    implied: Seq<char>,
)
    requires
        level < usize::MAX,
    ensures
        ({
            let whole = context.statement_text(
                level,
                Statement::If { condition, accept, reject },
                implied,
            );
            let indent = keyword::indentation(level);
            let test = context.expression_text(condition);
            let a = context.block_text(level + 1, accept@, implied);
            let b = context.block_text(level + 1, reject@, implied);
            let start = indent + "if ("@ + test.text + ") {\n"@ + a.text;
            let end = indent + "}\n"@;
            &&& reject@.len() == 0 ==> {
                &&& whole.fault == sequence::earlier(test.fault, a.fault)
                &&& whole.fault is None ==> whole.text == start + end
            }
            &&& reject@.len() > 0 ==> {
                &&& whole.fault == sequence::earlier(
                    test.fault,
                    sequence::earlier(a.fault, b.fault),
                )
                &&& whole.fault is None ==> whole.text == start + (indent + "} else {\n"@ + b.text)
                    + end
            }
        }),
{
    let head = keyword::indentation(level) + "if ("@ + context.expression_text(condition).text
        + ") {\n"@;
    let start = head + context.block_text(level + 1, accept@, implied).text;
    assert(head + Seq::<char>::empty() =~= head);
    assert(start + Seq::<char>::empty() =~= start);
}

/// A case of a switch is its value, and its body one level deeper in curly brackets; a case that
/// falls through ends with a `break`.
pub proof fn law_case(
    context: ExpressionContext<'_>,
    level: nat,
    case: SwitchCase,
    implied: Seq<char>,
)
    requires
        level < usize::MAX,
    ensures
        ({
            let whole = context.case_text(level, case, implied);
            let indent = keyword::indentation(level);
            let body = context.block_text(level + 1, case.body@, implied);
            let start = indent + "case "@ + decimal::signed_decimal(case.value as int) + ": {\n"@
                + body.text;
            &&& whole.fault == body.fault
            &&& whole.fault is None && case.fall_through ==> whole.text == start + (
            keyword::indentation(level + 1) + "break;\n"@) + (indent + "}\n"@)
            &&& whole.fault is None && !case.fall_through ==> whole.text == start + (indent
                + "}\n"@)
        }),
{
    let head = keyword::indentation(level) + "case "@ + decimal::signed_decimal(case.value as int)
        + ": {\n"@;
    let start = head + context.block_text(level + 1, case.body@, implied).text;
    assert(head + Seq::<char>::empty() =~= head);
    assert(start + Seq::<char>::empty() =~= start);
}

/// A switch is its selector, all of its cases in order one level deeper, and what is done by
/// default after them.
pub proof fn law_switch(
    context: ExpressionContext<'_>,
    level: nat,
    selector: ExpressionHandle,
    cases: Vec<SwitchCase>,
    default: Vec<Statement>,
    implied: Seq<char>,
)
    requires
        level + 1 < usize::MAX,
    ensures
        ({
            let whole = context.statement_text(
                level,
                Statement::Switch { selector, cases, default },
                implied,
            );
            let indent = keyword::indentation(level);
            let deeper = keyword::indentation(level + 1);
            let test = context.expression_text(selector);
            let parts = Seq::new(
                cases@.len(),
                |i: int| context.case_text(level + 1, cases@[i], implied),
            );
            let last = context.block_text(level + 2, default@, implied);
            &&& test.fault is Some ==> whole.fault == test.fault
            &&& test.fault is None ==> forall|i: int| #[trigger]
                sequence::fails_first(parts, i) ==> whole.fault == parts[i].fault
            &&& test.fault is None && sequence::all_succeed(parts) ==> whole.fault == last.fault
            &&& test.fault is None && sequence::all_succeed(parts) && last.fault is None
                ==> whole.text == indent + "switch("@ + test.text + ") {\n"@ + sequence::flat(
                sequence::texts(parts),
            ) + (deeper + "default: {\n"@) + last.text + (deeper + "}\n"@) + (indent + "}\n"@)
        }),
{
    let parts = Seq::new(
        cases@.len(),
        |i: int| context.case_text(level + 1, cases@[i], implied),
    );
    assert(context.case_texts(level + 1, cases@, implied) =~= parts);
    sequence::law_all(parts);
    let head = keyword::indentation(level) + "switch("@ + context.expression_text(selector).text
        + ") {\n"@;
    assert(head + Seq::<char>::empty() =~= head);
    let middle = head + sequence::flat(sequence::texts(parts)) + (keyword::indentation(level + 1)
        + "default: {\n"@);
    assert(middle + Seq::<char>::empty() =~= middle);
}

/// A loop is its body one level deeper under a condition that always holds. What is done between
/// iterations comes first, under a test that the variable of the loop is not set, and that
/// variable is set before the loop and cleared after the test.
pub proof fn law_loop(
    context: ExpressionContext<'_>,
    level: nat,
    body: Vec<Statement>,
    continuing: Vec<Statement>,
    gate_name: String,
    implied: Seq<char>,
)
    requires
        level + 1 < usize::MAX,
    ensures
        ({
            let whole = context.statement_text(
                level,
                Statement::Loop { body, continuing, gate_name },
                implied,
            );
            let indent = keyword::indentation(level);
            let deeper = keyword::indentation(level + 1);
            let a = context.block_text(level + 2, continuing@, implied);
            let b = context.block_text(level + 1, body@, implied);
            let start = indent + "while(true) {\n"@;
            let end = indent + "}\n"@;
            &&& continuing@.len() == 0 ==> {
                &&& whole.fault == b.fault
                &&& whole.fault is None ==> whole.text == start + b.text + end
            }
            &&& continuing@.len() > 0 ==> {
                &&& whole.fault == sequence::earlier(a.fault, b.fault)
                &&& whole.fault is None ==> whole.text == indent + "bool "@ + gate_name@
                    + " = true;\n"@ + start + (deeper + "if (!loop_init) {\n"@) + a.text + (deeper
                    + "}\n"@) + (deeper + "loop_init = false;\n"@) + b.text + end
            }
        }),
{
    let indent = keyword::indentation(level);
    let deeper = keyword::indentation(level + 1);
    let start = indent + "while(true) {\n"@;
    assert(start + Seq::<char>::empty() =~= start);
    let head = indent + "bool "@ + gate_name@ + " = true;\n"@ + start;
    assert(head + Seq::<char>::empty() =~= head);
    let opened = head + (deeper + "if (!loop_init) {\n"@);
    assert(opened + Seq::<char>::empty() =~= opened);
    let tested = opened + context.block_text(level + 2, continuing@, implied).text + (deeper
        + "}\n"@) + (deeper + "loop_init = false;\n"@);
    assert(tested + Seq::<char>::empty() =~= tested);
}

/// A deeper level costs nothing, except at the last level that can be counted, which has none.
pub proof fn law_level_limit(level: nat)
    ensures
        level < usize::MAX ==> statement::deeper(level) == Emission::nothing(),
        level >= usize::MAX ==> statement::deeper(level).fault == Some(Fault::Undefined),
{
}

} // verus!
