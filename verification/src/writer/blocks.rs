//! Writing statements.

use super::Writer;
use crate::context::ExpressionContext;
use crate::emission;
use crate::emission::Emission;
use crate::error::Stop;
use crate::grammar::statement;
use crate::ir::{Statement, SwitchCase};
use crate::keyword::Level;
use vstd::prelude::*;

verus! {

broadcast use crate::emission::group_made;

impl Writer {
    /// Appends `text` after the indentation of a line at `level`.
    pub(super) fn put_line(&mut self, level: Level, text: &str)
        ensures
            statement::line(level.depth(), text@).made(old(self)@, final(self)@, Ok(())),
    {
        self.put_level(level);
        self.put(text);
    }

    /// Makes sure that a level deeper than `level` can be counted.
    fn check_level(&self, level: Level) -> (outcome: Result<(), Stop>)
        ensures
            statement::deeper(level.depth()).made(self@, self@, outcome),
            outcome is Ok ==> level.depth() < usize::MAX,
    {
        proof {
            emission::lemma_made_none(Seq::empty(), self@);
        }
        if level.0 == usize::MAX {
            return self.miss();
        }
        Ok(())
    }

    /// Appends the statements of a block.
    pub(super) fn put_block(
        &mut self,
        level: Level,
        statements: &Vec<Statement>,
        context: &ExpressionContext<'_>,
        return_value: Option<&str>,
    ) -> (outcome: Result<(), Stop>)
        ensures
            context.block_text(
                level.depth(),
                statements@,
                statement::implied_value(return_value),
            ).made(old(self)@, final(self)@, outcome),
        decreases statements,
    {
        let ghost implied = statement::implied_value(return_value);
        let ghost steps = context.statement_texts(level.depth(), statements@, implied);
        proof {
            emission::lemma_made_none(steps, self@);
        }
        let mut i: usize = 0;
        while i < statements.len()
            invariant
                i <= statements@.len(),
                implied == statement::implied_value(return_value),
                steps == context.statement_texts(level.depth(), statements@, implied),
                Emission::all(steps.take(i as int)).made(old(self)@, self@, Ok(())),
            decreases statements@.len() - i,
        {
            proof {
                emission::lemma_all_at(steps, i as int);
            }
            self.put_statement(level, &statements[i], context, return_value)?;
            i = i + 1;
        }
        assert(steps.take(i as int) =~= steps);
        Ok(())
    }

    /// Appends a statement.
    fn put_statement(
        &mut self,
        level: Level,
        statement: &Statement,
        context: &ExpressionContext<'_>,
        return_value: Option<&str>,
    ) -> (outcome: Result<(), Stop>)
        ensures
            context.statement_text(
                level.depth(),
                *statement,
                statement::implied_value(return_value),
            ).made(old(self)@, final(self)@, outcome),
        decreases statement,
    {
        proof {
            emission::lemma_made_none(Seq::empty(), self@);
        }
        match statement {
            Statement::Block(block) => {
                if !block.is_empty() {
                    self.put_line(level, "{\n");
                    self.check_level(level)?;
                    self.put_block(level.next(), block, context, return_value)?;
                    self.put_line(level, "}\n");
                }
            },
            Statement::If { condition, accept, reject } => {
                self.put_line(level, "if (");
                self.put_expression(*condition, context)?;
                self.put(") {\n");
                self.check_level(level)?;
                self.put_block(level.next(), accept, context, return_value)?;
                proof {
                    emission::lemma_made_none(Seq::empty(), self@);
                }
                if !reject.is_empty() {
                    self.put_line(level, "} else {\n");
                    self.put_block(level.next(), reject, context, return_value)?;
                }
                self.put_line(level, "}\n");
            },
            Statement::Switch { selector, cases, default } => {
                self.put_line(level, "switch(");
                self.put_expression(*selector, context)?;
                self.put(") {\n");
                self.check_level(level)?;
                let lcase = level.next();
                self.put_cases(lcase, cases, context, return_value)?;
                self.put_line(lcase, "default: {\n");
                self.check_level(lcase)?;
                self.put_block(lcase.next(), default, context, return_value)?;
                self.put_line(lcase, "}\n");
                self.put_line(level, "}\n");
            },
            Statement::Loop { body, continuing, gate_name } => {
                if !continuing.is_empty() {
                    self.put_line(level, "bool ");
                    self.put(gate_name.as_str());
                    self.put(" = true;\n");
                    self.put_line(level, "while(true) {\n");
                    self.check_level(level)?;
                    let lif = level.next();
                    self.put_line(lif, "if (!loop_init) {\n");
                    self.check_level(lif)?;
                    self.put_block(lif.next(), continuing, context, return_value)?;
                    self.put_line(lif, "}\n");
                    self.put_line(lif, "loop_init = false;\n");
                } else {
                    self.put_line(level, "while(true) {\n");
                }
                self.check_level(level)?;
                self.put_block(level.next(), body, context, return_value)?;
                self.put_line(level, "}\n");
            },
            Statement::Break => {
                self.put_line(level, "break;\n");
            },
            Statement::Continue => {
                self.put_line(level, "continue;\n");
            },
            Statement::Return { value } => match value {
                Some(expr_handle) => {
                    self.put_line(level, "return ");
                    self.put_expression(*expr_handle, context)?;
                    self.put(";\n");
                },
                None => {
                    self.put_line(level, "return ");
                    match return_value {
                        Some(value) => self.put(value),
                        None => self.put(""),
                    }
                    self.put(";\n");
                },
            },
            Statement::Kill => {
                self.put_line(level, "discard_fragment();\n");
            },
            Statement::Store { pointer, value } => {
                self.put_level(level);
                self.put_expression(*pointer, context)?;
                self.put(" = ");
                self.put_expression(*value, context)?;
                self.put(";\n");
            },
        }
        Ok(())
    }

    /// Appends the cases of a switch.
    fn put_cases(
        &mut self,
        level: Level,
        cases: &Vec<SwitchCase>,
        context: &ExpressionContext<'_>,
        return_value: Option<&str>,
    ) -> (outcome: Result<(), Stop>)
        ensures
            Emission::all(
                context.case_texts(
                    level.depth(),
                    cases@,
                    statement::implied_value(return_value),
                ),
            ).made(old(self)@, final(self)@, outcome),
        decreases cases,
    {
        let ghost implied = statement::implied_value(return_value);
        let ghost steps = context.case_texts(level.depth(), cases@, implied);
        proof {
            emission::lemma_made_none(steps, self@);
        }
        let mut i: usize = 0;
        while i < cases.len()
            invariant
                i <= cases@.len(),
                implied == statement::implied_value(return_value),
                steps == context.case_texts(level.depth(), cases@, implied),
                Emission::all(steps.take(i as int)).made(old(self)@, self@, Ok(())),
            decreases cases@.len() - i,
        {
            proof {
                emission::lemma_all_at(steps, i as int);
            }
            self.put_case(level, &cases[i], context, return_value)?;
            i = i + 1;
        }
        assert(steps.take(i as int) =~= steps);
        Ok(())
    }

    /// Appends a case of a switch.
    fn put_case(
        &mut self,
        level: Level,
        case: &SwitchCase,
        context: &ExpressionContext<'_>,
        return_value: Option<&str>,
    ) -> (outcome: Result<(), Stop>)
        ensures
            context.case_text(
                level.depth(),
                *case,
                statement::implied_value(return_value),
            ).made(old(self)@, final(self)@, outcome),
        decreases case,
    {
        self.put_level(level);
        self.put("case ");
        self.put_signed(case.value as i64);
        self.put(": {\n");
        self.check_level(level)?;
        self.put_block(level.next(), &case.body, context, return_value)?;
        proof {
            emission::lemma_made_none(Seq::empty(), self@);
        }
        if case.fall_through {
            self.put_line(level.next(), "break;\n");
        }
        self.put_line(level, "}\n");
        Ok(())
    }
}

} // verus!
