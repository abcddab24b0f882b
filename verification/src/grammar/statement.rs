//! The text of statements.

use crate::context::ExpressionContext;
use crate::decimal;
use crate::emission::Emission;
use crate::ir::{Statement, SwitchCase};
use crate::keyword;
use vstd::prelude::*;

verus! {

/// A line of fixed text at `level`.
pub open spec fn line(level: nat, text: Seq<char>) -> Emission {
    Emission::text(keyword::indentation(level)).put(text)
}

/// What a `return` without a value of its own returns.
pub open spec fn implied_value(return_value: Option<&str>) -> Seq<char> {
    match return_value {
        Some(value) => value@,
        None => ""@,
    }
}

/// Nothing, as long as a level deeper than `level` can be counted.
pub open spec fn deeper(level: nat) -> Emission {
    if level < usize::MAX {
        Emission::nothing()
    } else {
        Emission::undefined()
    }
}

impl<'a> ExpressionContext<'a> {
    /// The text of `statements`, one after the other.
    pub open spec fn block_text(
        self,
        level: nat,
        statements: Seq<Statement>,
        implied: Seq<char>,
    ) -> Emission
        decreases statements, 1nat,
    {
        Emission::all(self.statement_texts(level, statements, implied))
    }

    /// The text of each of `statements`.
    pub open spec fn statement_texts(
        self,
        level: nat,
        statements: Seq<Statement>,
        implied: Seq<char>,
    ) -> Seq<Emission>
        decreases statements, 0nat,
    {
        Seq::new(
            statements.len(),
            |i: int|
                if 0 <= i < statements.len() {
                    self.statement_text(level, statements[i], implied)
                } else {
                    Emission::nothing()
                },
        )
    }

    /// The text of a case of a switch.
    pub open spec fn case_text(self, level: nat, case: SwitchCase, implied: Seq<char>) -> Emission
        decreases case, 0nat,
    {
        Emission::text(keyword::indentation(level)).put("case "@).put(
            decimal::signed_decimal(case.value as int),
        ).put(": {\n"@).and(deeper(level)).and(
            self.block_text(level + 1, case.body@, implied),
        ).and(
            if case.fall_through {
                line(level + 1, "break;\n"@)
            } else {
                Emission::nothing()
            },
        ).and(line(level, "}\n"@))
    }

    /// The text of each of `cases`.
    pub open spec fn case_texts(
        self,
        level: nat,
        cases: Seq<SwitchCase>,
        implied: Seq<char>,
    ) -> Seq<Emission>
        decreases cases, 0nat,
    {
        Seq::new(
            cases.len(),
            |i: int|
                if 0 <= i < cases.len() {
                    self.case_text(level, cases[i], implied)
                } else {
                    Emission::nothing()
                },
        )
    }

    /// The text of `statement`. A `return` without a value returns `implied`.
    pub open spec fn statement_text(
        self,
        level: nat,
        statement: Statement,
        implied: Seq<char>,
    ) -> Emission
        decreases statement, 0nat,
    {
        match statement {
            Statement::Block(block) => if block@.len() == 0 {
                Emission::nothing()
            } else {
                line(level, "{\n"@).and(deeper(level)).and(
                    self.block_text(level + 1, block@, implied),
                ).and(line(level, "}\n"@))
            },
            Statement::If { condition, accept, reject } => line(level, "if ("@).and(
                self.expression_text(condition),
            ).put(") {\n"@).and(deeper(level)).and(
                self.block_text(level + 1, accept@, implied),
            ).and(
                if reject@.len() == 0 {
                    Emission::nothing()
                } else {
                    line(level, "} else {\n"@).and(self.block_text(level + 1, reject@, implied))
                },
            ).and(line(level, "}\n"@)),
            Statement::Switch { selector, cases, default } => line(level, "switch("@).and(
                self.expression_text(selector),
            ).put(") {\n"@).and(deeper(level)).and(
                Emission::all(self.case_texts(level + 1, cases@, implied)),
            ).and(line(level + 1, "default: {\n"@)).and(deeper(level + 1)).and(
                self.block_text(level + 2, default@, implied),
            ).and(line(level + 1, "}\n"@)).and(line(level, "}\n"@)),
            Statement::Loop { body, continuing, gate_name } => (if continuing@.len() == 0 {
                line(level, "while(true) {\n"@)
            } else {
                line(level, "bool "@).put(gate_name@).put(" = true;\n"@).and(
                    line(level, "while(true) {\n"@),
                ).and(deeper(level)).and(line(level + 1, "if (!loop_init) {\n"@)).and(
                    deeper(level + 1),
                ).and(
                    self.block_text(level + 2, continuing@, implied),
                ).and(line(level + 1, "}\n"@)).and(line(level + 1, "loop_init = false;\n"@))
            }).and(deeper(level)).and(self.block_text(level + 1, body@, implied)).and(
                line(level, "}\n"@),
            ),
            Statement::Break => line(level, "break;\n"@),
            Statement::Continue => line(level, "continue;\n"@),
            Statement::Return { value } => match value {
                Some(expr) => line(level, "return "@).and(self.expression_text(expr)).put(";\n"@),
                None => line(level, "return "@).put(implied).put(";\n"@),
            },
            Statement::Kill => line(level, "discard_fragment();\n"@),
            Statement::Store { pointer, value } => Emission::text(keyword::indentation(level)).and(
                self.expression_text(pointer),
            ).put(" = "@).and(self.expression_text(value)).put(";\n"@),
        }
    }
}

} // verus!
