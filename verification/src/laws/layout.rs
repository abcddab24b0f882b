//! How lines are laid out.

use crate::context::{ExpressionContext, FunctionOrigin};
use crate::emission::Emission;
use crate::ir::{FunctionHandle, Module, Statement, TypeHandle};
use crate::keyword;
use crate::laws::order;
use crate::options::Options;
use vstd::prelude::*;

verus! {

/// Whether `text` ends a line.
pub open spec fn ends_line(text: Seq<char>) -> bool {
    text.len() > 0 && text.last() == '\n'
}

impl Emission {
    /// Whether the text of this step starts with `prefix`.
    #[verifier::opaque]
    pub open spec fn starts_with(self, prefix: Seq<char>) -> bool {
        prefix.is_prefix_of(self.text)
    }

    /// Whether this step ends a line, if it succeeds.
    #[verifier::opaque]
    pub open spec fn finishes(self) -> bool {
        self.fault is None ==> ends_line(self.text)
    }
}

/// What follows a step does not change how it starts.
pub broadcast proof fn lemma_starts_and(first: Emission, second: Emission, prefix: Seq<char>)
    requires
        #[trigger] first.starts_with(prefix),
    ensures
        (#[trigger] first.and(second)).starts_with(prefix),
{
    reveal(Emission::starts_with);
    assert(prefix =~= (first.text + second.text).subrange(0, prefix.len() as int));
}

/// Two steps end a line if the second does.
broadcast proof fn lemma_finishes_and(first: Emission, second: Emission)
    requires
        #[trigger] second.finishes(),
    ensures
        (#[trigger] first.and(second)).finishes(),
{
    reveal(Emission::finishes);
}

broadcast group group_lines {
    lemma_starts_and,
    lemma_finishes_and,
}

/// A text that ends a line ends it.
proof fn lemma_finishes_text(text: Seq<char>)
    requires
        ends_line(text),
    ensures
        Emission::text(text).finishes(),
{
    reveal(Emission::finishes);
}

/// The texts at the end of the lines of statements end them.
proof fn lemma_line_ends()
    ensures
        Emission::text("}\n"@).finishes(),
        Emission::text(";\n"@).finishes(),
        Emission::text("\n"@).finishes(),
        Emission::text("break;\n"@).finishes(),
        Emission::text("continue;\n"@).finishes(),
        Emission::text("discard_fragment();\n"@).finishes(),
{
    reveal_strlit("}\n");
    reveal_strlit(";\n");
    reveal_strlit("\n");
    reveal_strlit("break;\n");
    reveal_strlit("continue;\n");
    reveal_strlit("discard_fragment();\n");
    lemma_finishes_text("}\n"@);
    lemma_finishes_text(";\n"@);
    lemma_finishes_text("\n"@);
    lemma_finishes_text("break;\n"@);
    lemma_finishes_text("continue;\n"@);
    lemma_finishes_text("discard_fragment();\n"@);
}

/// An indentation is four blanks for each level.
pub proof fn law_indentation(level: nat)
    ensures
        keyword::indentation(level).len() == 4 * level,
        forall|i: int| 0 <= i < 4 * level ==> #[trigger] keyword::indentation(level)[i] == ' ',
    decreases level,
{
    reveal_strlit("    ");
    if level > 0 {
        law_indentation((level - 1) as nat);
    }
}

/// The text of two blocks one after the other is the text of the one and, unless that failed, of
/// the other.
pub proof fn law_block_append(
    context: ExpressionContext<'_>,
    level: nat,
    first: Seq<Statement>,
    second: Seq<Statement>,
    implied: Seq<char>,
)
    ensures
        context.block_text(level, first + second, implied) == context.block_text(
            level,
            first,
            implied,
        ).and(context.block_text(level, second, implied)),
{
    assert(context.statement_texts(level, first + second, implied) =~= context.statement_texts(
        level,
        first,
        implied,
    ) + context.statement_texts(level, second, implied));
    order::law_all_append(
        context.statement_texts(level, first, implied),
        context.statement_texts(level, second, implied),
    );
}

/// Every statement but an empty block is written as whole lines, the first of them indented to
/// the level of the statement. An empty block leaves no trace.
pub proof fn law_statement_lines(
    context: ExpressionContext<'_>,
    level: nat,
    statement: Statement,
    implied: Seq<char>,
)
    ensures
        ({
            let written = context.statement_text(level, statement, implied);
            let is_empty = statement matches Statement::Block(block) && block@.len() == 0;
            &&& is_empty ==> written == Emission::nothing()
            &&& !is_empty ==> keyword::indentation(level).is_prefix_of(written.text)
            &&& !is_empty && written.fault is None ==> ends_line(written.text)
        }),
{
    broadcast use group_lines;

    lemma_line_ends();
    let start = Emission::text(keyword::indentation(level));
    let written = context.statement_text(level, statement, implied);
    assert(start.starts_with(keyword::indentation(level))) by {
        reveal(Emission::starts_with);
        assert(start.text =~= start.text.subrange(0, start.text.len() as int));
    }
    if !(statement matches Statement::Block(block) && block@.len() == 0) {
        assert(written.starts_with(keyword::indentation(level)));
        assert(written.finishes());
        reveal(Emission::starts_with);
        reveal(Emission::finishes);
    }
}

/// A block is written as whole lines.
pub proof fn law_block_lines(
    context: ExpressionContext<'_>,
    level: nat,
    statements: Seq<Statement>,
    implied: Seq<char>,
)
    ensures
        ({
            let written = context.block_text(level, statements, implied);
            written.fault is None && written.text.len() > 0 ==> ends_line(written.text)
                && keyword::indentation(level).is_prefix_of(written.text)
        }),
    decreases statements.len(),
{
    if statements.len() > 0 {
        let earlier = statements.drop_last();
        let last = statements.last();
        law_block_lines(context, level, earlier, implied);
        law_statement_lines(context, level, last, implied);
        assert(context.statement_texts(level, statements, implied).drop_last()
            =~= context.statement_texts(level, earlier, implied));
        let before = context.block_text(level, earlier, implied);
        let step = context.statement_text(level, last, implied);
        assert(context.block_text(level, statements, implied) == before.and(step));
        if before.text.len() == 0 {
            assert(before.text + step.text =~= step.text);
        }
    }
}

/// Every type but a pointer to an input or an output is defined, and its definition ends with an
/// empty line. Such a pointer leaves no trace.
pub proof fn law_type_def_lines(module: Module, handle: TypeHandle)
    ensures
        module.is_left_out(handle) ==> module.type_def_text(handle) == Emission::nothing(),
        !module.is_left_out(handle) && module.type_def_text(handle).fault is None ==> ({
            let text = module.type_def_text(handle).text;
            &&& text.len() >= 3
            &&& text.subrange(text.len() - 3, text.len() as int) == seq![';', '\n', '\n']
        }),
{
    reveal_strlit(";\n");
    reveal_strlit("\n");
    let body = module.type_body_text(handle);
    if !module.is_left_out(handle) && module.type_def_text(handle).fault is None {
        let text = module.type_def_text(handle).text;
        assert(text == body.text + ";\n"@ + "\n"@);
        assert(text.subrange(text.len() - 3, text.len() as int) =~= seq![';', '\n', '\n']);
    }
}

/// Steps that are made of whole lines, or leave no trace, are made of whole lines together.
proof fn lemma_all_lines(steps: Seq<Emission>)
    requires
        forall|i: int|
            0 <= i < steps.len() && (#[trigger] steps[i]).fault is None ==> steps[i].text.len() == 0
                || ends_line(steps[i].text),
    ensures
        Emission::all(steps).fault is None ==> Emission::all(steps).text.len() == 0 || ends_line(
            Emission::all(steps).text,
        ),
    decreases steps.len(),
{
    if steps.len() > 0 {
        let earlier = steps.drop_last();
        assert forall|i: int|
            0 <= i < earlier.len() && (
            #[trigger] earlier[i]).fault is None implies earlier[i].text.len() == 0 || ends_line(
            earlier[i].text,
        ) by {
            assert(earlier[i] == steps[i]);
        }
        lemma_all_lines(earlier);
        let last = steps[steps.len() - 1];
        assert(steps.last() == last);
        if last.text.len() == 0 {
            assert(Emission::all(earlier).text + last.text =~= Emission::all(earlier).text);
        }
    }
}

/// A module that can be written is written as whole lines.
pub proof fn law_module_lines(module: Module, options: Options)
    ensures
        module.module_text(options).fault is None ==> ends_line(module.module_text(options).text),
{
    reveal_strlit("\n");
    let types = module.type_def_list();
    let functions = module.function_texts();
    let entry_points = module.entry_point_texts(options);
    assert forall|i: int|
        0 <= i < types.len() && (#[trigger] types[i]).fault is None implies types[i].text.len() == 0
        || ends_line(types[i].text) by {
        law_type_def_lines(module, i as TypeHandle);
        let text = types[i].text;
        if text.len() > 0 {
            assert(text.subrange(text.len() - 3, text.len() as int)[2] == '\n');
        }
    }
    lemma_all_lines(types);
    assert forall|i: int|
        0 <= i < functions.len() && (
        #[trigger] functions[i]).fault is None implies ends_line(functions[i].text) by {
        lemma_function_lines(module, i as FunctionHandle);
    }
    lemma_all_lines(functions);
    assert forall|i: int|
        0 <= i < entry_points.len() && (
        #[trigger] entry_points[i]).fault is None implies ends_line(entry_points[i].text) by {
        lemma_entry_point_lines(module, options, i as usize);
    }
    lemma_all_lines(entry_points);
    order::law_parts(module, options);
    let header = order::header();
    let parts = Emission::all(types).text + Emission::all(functions).text + Emission::all(
        entry_points,
    ).text;
    if module.module_text(options).fault is None {
        assert(ends_line(header));
        assert(module.module_text(options).text =~= header + parts);
    }
}

/// A function that can be written is written as whole lines.
proof fn lemma_function_lines(module: Module, handle: FunctionHandle)
    ensures
        module.function_text(handle).fault is None ==> ends_line(module.function_text(handle).text),
{
    broadcast use group_lines;

    lemma_line_ends();
    if module.functions@[handle as int].typing is Ok {
        assert(module.function_text(handle).finishes());
    }
    reveal(Emission::finishes);
}

/// An entry point that can be written is written as whole lines.
proof fn lemma_entry_point_lines(module: Module, options: Options, index: usize)
    ensures
        module.entry_point_text(options, index).fault is None ==> ends_line(
            module.entry_point_text(options, index).text,
        ),
{
    broadcast use group_lines;

    lemma_line_ends();
    let entry_point = module.entry_points@[index as int];
    let function = entry_point.function;
    if function.typing is Ok {
        let body = module.entry_point_head(entry_point, options).and(
            Emission::all(module.parameter_texts(entry_point, options)),
        ).put(") {\n"@).and(entry_point.output_local_text()).and(
            Emission::all(module.local_texts(function.local_variables@)),
        ).and(
            module.context(function, FunctionOrigin::EntryPoint(index)).block_text(
                1,
                function.body@,
                entry_point.output_value(),
            ),
        ).put("}\n"@);
        assert(body.finishes());
        if index + 1 == module.entry_points@.len() {
            assert(body.and(Emission::nothing()).text =~= body.text);
        } else {
            assert(body.and(Emission::text("\n"@)).finishes());
        }
    }
    reveal(Emission::finishes);
}

} // verus!
