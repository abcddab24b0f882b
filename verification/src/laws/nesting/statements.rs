//! The brackets of statements.

use crate::context::ExpressionContext;
use crate::emission::Emission;
use crate::grammar::statement;
use crate::ir::{Statement, SwitchCase};
use crate::keyword;
use crate::laws::nesting;
use crate::laws::nesting::words;
use vstd::prelude::*;

verus! {

broadcast use {
    crate::laws::nesting::group_opens,
    crate::laws::nesting::words::group_words,
};

/// A line leaves open what its text leaves open.
proof fn lemma_line(level: nat, text: Seq<char>, a: Seq<char>, b: Seq<char>)
    requires
        Emission::text(text).opens(a, b),
    ensures
        statement::line(level, text).opens(a, b),
{
    assert(Emission::text(keyword::indentation(level)).opens(a, a));
}

/// Counting a level opens nothing.
proof fn lemma_deeper(level: nat)
    ensures
        statement::deeper(level).is_nested(),
{
    if level >= usize::MAX {
        nesting::lemma_failure(statement::deeper(level));
    }
}

impl<'a> ExpressionContext<'a> {
    /// The brackets of a block are nested.
    pub proof fn lemma_nested_block(
        self,
        level: nat,
        statements: Seq<Statement>,
        implied: Seq<char>,
    )
        requires
            self.has_nested_names(),
            nesting::is_nested(implied),
            forall|i: int|
                0 <= i < statements.len() ==> (#[trigger] statements[i]).has_nested_names(),
        ensures
            self.block_text(level, statements, implied).is_nested(),
        decreases statements, 1nat,
    {
        let steps = self.statement_texts(level, statements, implied);
        assert forall|i: int| 0 <= i < steps.len() implies (#[trigger] steps[i]).is_nested() by {
            assert(statements[i].has_nested_names());
            self.lemma_nested_statement(level, statements[i], implied);
        }
        nesting::lemma_opens_all(steps);
    }

    proof fn lemma_nested_case(self, level: nat, case: SwitchCase, implied: Seq<char>)
        requires
            self.has_nested_names(),
            nesting::is_nested(implied),
            case.has_nested_names(),
        ensures
            self.case_text(level, case, implied).is_nested(),
        decreases case, 0nat,
    {
        words::lemma_words();
        lemma_deeper(level);
        self.lemma_nested_block(level + 1, case.body@, implied);
        assert forall|open: Seq<char>| #[trigger]
            self.case_text(level, case, implied).opens(open, open) by {
            let inner = open.push('{');
            nesting::lemma_brackets(open);
            assert(Emission::text(keyword::indentation(level)).opens(open, open));
            lemma_line(level + 1, "break;\n"@, inner, inner);
            lemma_line(level, "}\n"@, inner, open);
            assert(Emission::nothing().opens(inner, inner));
        }
    }

    proof fn lemma_nested_cases(self, level: nat, cases: Seq<SwitchCase>, implied: Seq<char>)
        requires
            self.has_nested_names(),
            nesting::is_nested(implied),
            forall|i: int| 0 <= i < cases.len() ==> (#[trigger] cases[i]).has_nested_names(),
        ensures
            Emission::all(self.case_texts(level, cases, implied)).is_nested(),
        decreases cases, 0nat,
    {
        let steps = self.case_texts(level, cases, implied);
        assert forall|i: int| 0 <= i < steps.len() implies (#[trigger] steps[i]).is_nested() by {
            assert(cases[i].has_nested_names());
            self.lemma_nested_case(level, cases[i], implied);
        }
        nesting::lemma_opens_all(steps);
    }

    proof fn lemma_nested_statement(self, level: nat, statement: Statement, implied: Seq<char>)
        requires
            self.has_nested_names(),
            nesting::is_nested(implied),
            statement.has_nested_names(),
        ensures
            self.statement_text(level, statement, implied).is_nested(),
        decreases statement, 0nat,
    {
        words::lemma_words();
        nesting::lemma_closed_brackets();
        lemma_deeper(level);
        lemma_deeper(level + 1);
        let whole = self.statement_text(level, statement, implied);
        match statement {
            Statement::Block(block) => {
                if block@.len() > 0 {
                    self.lemma_nested_block(level + 1, block@, implied);
                }
                assert forall|open: Seq<char>| #[trigger] whole.opens(open, open) by {
                    nesting::lemma_brackets(open);
                    lemma_line(level, "{\n"@, open, open.push('{'));
                    lemma_line(level, "}\n"@, open.push('{'), open);
                    assert(Emission::nothing().opens(open, open));
                }
            },
            Statement::If { condition, accept, reject } => {
                self.lemma_nested_expression(condition);
                self.lemma_nested_block(level + 1, accept@, implied);
                self.lemma_nested_block(level + 1, reject@, implied);
                assert forall|open: Seq<char>| #[trigger] whole.opens(open, open) by {
                    let inner = open.push('{');
                    nesting::lemma_brackets(open);
                    lemma_line(level, "if ("@, open, open.push('('));
                    lemma_line(level, "} else {\n"@, inner, inner);
                    lemma_line(level, "}\n"@, inner, open);
                    assert(Emission::nothing().opens(inner, inner));
                }
            },
            Statement::Switch { selector, cases, default } => {
                self.lemma_nested_expression(selector);
                self.lemma_nested_cases(level + 1, cases@, implied);
                self.lemma_nested_block(level + 2, default@, implied);
                assert forall|open: Seq<char>| #[trigger] whole.opens(open, open) by {
                    let inner = open.push('{');
                    nesting::lemma_brackets(open);
                    nesting::lemma_long_brackets(open);
                    nesting::lemma_brackets(inner);
                    nesting::lemma_long_brackets(inner);
                    lemma_line(level, "switch("@, open, open.push('('));
                    lemma_line(level + 1, "default: {\n"@, inner, inner.push('{'));
                    lemma_line(level + 1, "}\n"@, inner.push('{'), inner);
                    lemma_line(level, "}\n"@, inner, open);
                }
            },
            Statement::Loop { body, continuing, gate_name } => {
                self.lemma_nested_block(level + 1, body@, implied);
                if continuing@.len() > 0 {
                    self.lemma_nested_block(level + 2, continuing@, implied);
                }
                assert forall|open: Seq<char>| #[trigger] whole.opens(open, open) by {
                    let inner = open.push('{');
                    nesting::lemma_brackets(open);
                    nesting::lemma_long_brackets(open);
                    nesting::lemma_brackets(inner);
                    nesting::lemma_long_brackets(inner);
                    lemma_line(level, "bool "@, open, open);
                    lemma_line(level, "while(true) {\n"@, open, inner);
                    lemma_line(level + 1, "if (!loop_init) {\n"@, inner, inner.push('{'));
                    lemma_line(level + 1, "}\n"@, inner.push('{'), inner);
                    lemma_line(level + 1, "loop_init = false;\n"@, inner, inner);
                    lemma_line(level, "}\n"@, inner, open);
                }
            },
            Statement::Break => {
                assert forall|open: Seq<char>| #[trigger] whole.opens(open, open) by {
                    lemma_line(level, "break;\n"@, open, open);
                }
            },
            Statement::Continue => {
                assert forall|open: Seq<char>| #[trigger] whole.opens(open, open) by {
                    lemma_line(level, "continue;\n"@, open, open);
                }
            },
            Statement::Return { value } => {
                if let Some(expr) = value {
                    self.lemma_nested_expression(expr);
                }
                assert forall|open: Seq<char>| #[trigger] whole.opens(open, open) by {
                    lemma_line(level, "return "@, open, open);
                }
            },
            Statement::Kill => {
                assert forall|open: Seq<char>| #[trigger] whole.opens(open, open) by {
                    lemma_line(level, "discard_fragment();\n"@, open, open);
                }
            },
            Statement::Store { pointer, value } => {
                self.lemma_nested_expression(pointer);
                self.lemma_nested_expression(value);
                assert forall|open: Seq<char>| #[trigger] whole.opens(open, open) by {
                    assert(Emission::text(keyword::indentation(level)).opens(open, open));
                }
            },
        }
    }
}

} // verus!
