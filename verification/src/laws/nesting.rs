//! Brackets: those of a written module are nested, as long as those of its names are.

use crate::emission::Emission;
use vstd::prelude::*;

pub mod constants;
pub mod definitions;
pub mod expressions;
pub mod names;
pub mod statements;
pub mod words;

verus! {

/// The opening bracket that a closing one matches.
pub open spec fn opening(close: char) -> char {
    if close == ')' {
        '('
    } else if close == ']' {
        '['
    } else {
        '{'
    }
}

pub open spec fn is_opening(c: char) -> bool {
    c == '(' || c == '[' || c == '{'
}

pub open spec fn is_closing(c: char) -> bool {
    c == ')' || c == ']' || c == '}'
}

/// The brackets that are open after reading `c`, where those of `stack` were open before, unless
/// a closing bracket does not match.
pub open spec fn read(stack: Option<Seq<char>>, c: char) -> Option<Seq<char>> {
    match stack {
        Some(open) => if is_opening(c) {
            Some(open.push(c))
        } else if is_closing(c) {
            if open.len() > 0 && open.last() == opening(c) {
                Some(open.drop_last())
            } else {
                None
            }
        } else {
            Some(open)
        },
        None => None,
    }
}

/// The brackets that are open after reading `text`.
pub open spec fn scan(stack: Option<Seq<char>>, text: Seq<char>) -> Option<Seq<char>>
    decreases text.len(),
{
    if text.len() == 0 {
        stack
    } else {
        read(scan(stack, text.drop_last()), text.last())
    }
}

/// Whether the brackets of `text` are nested: each closes the one of its kind that was opened
/// last, and none stays open.
pub open spec fn is_nested(text: Seq<char>) -> bool {
    forall|open: Seq<char>| #[trigger] scan(Some(open), text) == Some(open)
}

/// Whether there is no bracket in `text`.
pub open spec fn is_plain(text: Seq<char>) -> bool {
    forall|i: int| 0 <= i < text.len() ==> !is_opening(#[trigger] text[i]) && !is_closing(text[i])
}

impl Emission {
    /// Whether this step, if it succeeds, leaves the brackets of `after` open where those of
    /// `before` were open.
    #[verifier::opaque]
    pub open spec fn opens(self, before: Seq<char>, after: Seq<char>) -> bool {
        self.fault is None ==> scan(Some(before), self.text) == Some(after)
    }

    /// Whether the brackets of this step are nested, if it succeeds.
    pub open spec fn is_nested(self) -> bool {
        forall|open: Seq<char>| #[trigger] self.opens(open, open)
    }
}

/// Reading a text is reading its parts one after the other.
pub proof fn lemma_scan_add(stack: Option<Seq<char>>, a: Seq<char>, b: Seq<char>)
    ensures
        scan(stack, a + b) == scan(scan(stack, a), b),
    decreases b.len(),
{
    if b.len() == 0 {
        assert(a + b =~= a);
    } else {
        assert((a + b).drop_last() =~= a + b.drop_last());
        lemma_scan_add(stack, a, b.drop_last());
    }
}

/// A text without brackets is nested.
pub proof fn lemma_plain(text: Seq<char>)
    requires
        is_plain(text),
    ensures
        is_nested(text),
    decreases text.len(),
{
    if text.len() > 0 {
        let rest = text.drop_last();
        assert forall|i: int| 0 <= i < rest.len() implies !is_opening(#[trigger] rest[i])
            && !is_closing(rest[i]) by {
            assert(rest[i] == text[i]);
        }
        lemma_plain(rest);
        assert(text.last() == text[text.len() - 1]);
        assert forall|open: Seq<char>| #[trigger] scan(Some(open), text) == Some(open) by {
            assert(scan(Some(open), rest) == Some(open));
        }
    }
}

/// Nested texts one after the other are nested.
pub proof fn lemma_nested_add(a: Seq<char>, b: Seq<char>)
    requires
        is_nested(a),
        is_nested(b),
    ensures
        is_nested(a + b),
{
    assert forall|open: Seq<char>| #[trigger] scan(Some(open), a + b) == Some(open) by {
        lemma_scan_add(Some(open), a, b);
        assert(scan(Some(open), a) == Some(open));
    }
}

/// A nested text leaves open what was open.
pub broadcast proof fn lemma_opens_nested(text: Seq<char>, open: Seq<char>)
    requires
        is_nested(text),
    ensures
        #[trigger] Emission::text(text).opens(open, open),
{
    reveal(Emission::opens);
    assert(scan(Some(open), text) == Some(open));
}

/// Steps one after the other open what the last leaves open.
pub broadcast proof fn lemma_opens_and(
    first: Emission,
    second: Emission,
    a: Seq<char>,
    b: Seq<char>,
    c: Seq<char>,
)
    requires
        #[trigger] first.opens(a, b),
        #[trigger] second.opens(b, c),
    ensures
        (#[trigger] first.and(second)).opens(a, c),
{
    reveal(Emission::opens);
    lemma_scan_add(Some(a), first.text, second.text);
}

/// Nothing opens nothing.
pub broadcast proof fn lemma_opens_nothing(open: Seq<char>)
    ensures
        #[trigger] Emission::nothing().opens(open, open),
{
    reveal(Emission::opens);
}

/// A failure leaves nothing to read.
pub proof fn lemma_opens_failure(step: Emission, a: Seq<char>, b: Seq<char>)
    requires
        step.fault is Some,
    ensures
        step.opens(a, b),
{
    reveal(Emission::opens);
}

/// A nested text after a step leaves open what the step opened.
pub broadcast proof fn lemma_opens_put(step: Emission, text: Seq<char>, a: Seq<char>, b: Seq<char>)
    requires
        #[trigger] step.opens(a, b),
        is_nested(text),
    ensures
        (#[trigger] step.put(text)).opens(a, b),
{
    lemma_opens_nested(text, b);
    lemma_opens_and(step, Emission::text(text), a, b, b);
}

/// A nested step after another leaves open what that one opened.
pub broadcast proof fn lemma_opens_and_nested(
    first: Emission,
    second: Emission,
    a: Seq<char>,
    b: Seq<char>,
)
    requires
        #[trigger] first.opens(a, b),
        second.is_nested(),
    ensures
        (#[trigger] first.and(second)).opens(a, b),
{
    assert(second.opens(b, b));
    lemma_opens_and(first, second, a, b, b);
}

pub broadcast group group_opens {
    lemma_opens_nested,
    lemma_opens_and,
    lemma_opens_nothing,
    lemma_opens_put,
    lemma_opens_and_nested,
}

/// A step that always fails is nested.
pub proof fn lemma_failure(step: Emission)
    requires
        step.fault is Some,
    ensures
        step.is_nested(),
{
    assert forall|open: Seq<char>| #[trigger] step.opens(open, open) by {
        lemma_opens_failure(step, open, open);
    }
}

/// A list of nested steps is nested.
pub proof fn lemma_opens_all(steps: Seq<Emission>)
    requires
        forall|i: int| 0 <= i < steps.len() ==> (#[trigger] steps[i]).is_nested(),
    ensures
        Emission::all(steps).is_nested(),
    decreases steps.len(),
{
    broadcast use group_opens;

    if steps.len() > 0 {
        let earlier = steps.drop_last();
        assert forall|i: int| 0 <= i < earlier.len() implies (
        #[trigger] earlier[i]).is_nested() by {
            assert(earlier[i] == steps[i]);
        }
        lemma_opens_all(earlier);
        assert(steps[steps.len() - 1].is_nested());
        assert forall|open: Seq<char>| #[trigger] Emission::all(steps).opens(open, open) by {
            assert(Emission::all(earlier).opens(open, open));
            assert(steps.last().opens(open, open));
        }
    }
}

/// Nested steps in round brackets are nested.
pub proof fn lemma_bracketed(steps: Seq<Emission>)
    requires
        forall|i: int| 0 <= i < steps.len() ==> (#[trigger] steps[i]).is_nested(),
    ensures
        Emission::bracketed(steps).is_nested(),
{
    broadcast use group_opens;

    words::lemma_words();
    let all = Emission::with_separators(steps, ", "@);
    assert forall|i: int| 0 <= i < all.len() implies (#[trigger] all[i]).is_nested() by {
        assert(steps[i].is_nested());
        assert forall|open: Seq<char>| #[trigger] all[i].opens(open, open) by {
            assert(Emission::text(", "@).opens(open, open));
            assert(steps[i].opens(open, open));
        }
    }
    lemma_opens_all(all);
    assert forall|open: Seq<char>| #[trigger] Emission::bracketed(steps).opens(open, open) by {
        lemma_brackets(open);
    }
}

/// The texts of Metal that open or close brackets. With `open` open before, a text that opens
/// some leaves them open besides; one that closes some leaves `open` where they were open
/// besides.
pub proof fn lemma_brackets(open: Seq<char>)
    ensures
        Emission::text("("@).opens(open, open.push('(')),
        Emission::text(")"@).opens(open.push('('), open),
        Emission::text("["@).opens(open, open.push('[')),
        Emission::text("]"@).opens(open.push('['), open),
        Emission::text("(\n"@).opens(open, open.push('(')),
        Emission::text(") {\n"@).opens(open.push('('), open.push('{')),
        Emission::text("}"@).opens(open.push('{'), open),
        Emission::text("}\n"@).opens(open.push('{'), open),
        Emission::text("};\n"@).opens(open.push('{'), open),
        Emission::text("{\n"@).opens(open, open.push('{')),
        Emission::text(" {\n"@).opens(open, open.push('{')),
        Emission::text(": {\n"@).opens(open, open.push('{')),
        Emission::text("} else {\n"@).opens(open.push('{'), open.push('{')),
        Emission::text("if ("@).opens(open, open.push('(')),
        Emission::text("fmod("@).opens(open, open.push('(')),
        Emission::text(".read("@).opens(open, open.push('(')),
        Emission::text(">("@).opens(open, open.push('(')),
{
    reveal(Emission::opens);
    reveal_with_fuel(scan, 10);
    reveal_strlit("(");
    reveal_strlit(")");
    reveal_strlit("[");
    reveal_strlit("]");
    reveal_strlit("(\n");
    reveal_strlit(") {\n");
    reveal_strlit("}");
    reveal_strlit("}\n");
    reveal_strlit("};\n");
    reveal_strlit("{\n");
    reveal_strlit(" {\n");
    reveal_strlit(": {\n");
    reveal_strlit("} else {\n");
    reveal_strlit("if (");
    reveal_strlit("fmod(");
    reveal_strlit(".read(");
    reveal_strlit(">(");
    assert(open.push('(').drop_last() =~= open);
    assert(open.push('[').drop_last() =~= open);
    assert(open.push('{').drop_last() =~= open);
}

/// The longer texts of Metal that open or close brackets.
pub proof fn lemma_long_brackets(open: Seq<char>)
    ensures
        Emission::text("switch("@).opens(open, open.push('(')),
        Emission::text(", level("@).opens(open, open.push('(')),
        Emission::text(", bias("@).opens(open, open.push('(')),
        Emission::text(", gradient("@).opens(open, open.push('(')),
        Emission::text("default: {\n"@).opens(open, open.push('{')),
        Emission::text("while(true) {\n"@).opens(open, open.push('{')),
        Emission::text("if (!loop_init) {\n"@).opens(open, open.push('{')),
{
    reveal(Emission::opens);
    reveal_with_fuel(scan, 20);
    reveal_strlit("switch(");
    reveal_strlit(", level(");
    reveal_strlit(", bias(");
    reveal_strlit(", gradient(");
    reveal_strlit("default: {\n");
    reveal_strlit("while(true) {\n");
    reveal_strlit("if (!loop_init) {\n");
    assert(open.push('(').drop_last() =~= open);
}

/// The texts of Metal with brackets that close again.
pub proof fn lemma_closed_brackets()
    ensures
        is_nested("discard_fragment();\n"@),
        is_nested(" input [[stage_in]]"@),
{
    reveal_strlit("discard_fragment();\n");
    reveal_strlit(" input [[stage_in]]");
    assert forall|open: Seq<char>| #[trigger]
        scan(Some(open), "discard_fragment();\n"@) == Some(open) by {
        reveal_with_fuel(scan, 22);
        assert(open.push('(').drop_last() =~= open);
    }
    assert forall|open: Seq<char>| #[trigger]
        scan(Some(open), " input [[stage_in]]"@) == Some(open) by {
        reveal_with_fuel(scan, 22);
        assert(open.push('[').drop_last() =~= open);
        assert(open.push('[').push('[').drop_last() =~= open.push('['));
    }
}

/// A binding decorates a declaration with nested brackets.
pub proof fn lemma_decorated(attribute: Seq<char>, terminator: Seq<char>)
    requires
        is_nested(attribute),
        is_nested(terminator),
    ensures
        is_nested(" [["@ + attribute + "]]"@ + terminator),
{
    reveal_strlit(" [[");
    reveal_strlit("]]");
    assert forall|open: Seq<char>| #[trigger]
        scan(Some(open), " [["@ + attribute + "]]"@ + terminator) == Some(open) by {
        let inner = open.push('[').push('[');
        assert(scan(Some(open), " [["@) == Some(inner)) by {
            reveal_with_fuel(scan, 4);
        }
        lemma_scan_add(Some(open), " [["@, attribute);
        assert(scan(Some(inner), attribute) == Some(inner));
        assert(scan(Some(inner), "]]"@) == Some(open)) by {
            reveal_with_fuel(scan, 3);
            assert(inner.drop_last() =~= open.push('['));
            assert(open.push('[').drop_last() =~= open);
        }
        lemma_scan_add(Some(open), " [["@ + attribute, "]]"@);
        lemma_scan_add(Some(open), " [["@ + attribute + "]]"@, terminator);
        assert(scan(Some(open), terminator) == Some(open));
    }
}

} // verus!
