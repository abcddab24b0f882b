//! How steps and lists of steps come together in the text.

use crate::emission;
use crate::emission::Emission;
use crate::error::{Fault, Stop};
use crate::laws::order;
use vstd::prelude::*;

verus! {

/// The texts one after the other.
pub open spec fn flat(texts: Seq<Seq<char>>) -> Seq<char>
    decreases texts.len(),
{
    if texts.len() == 0 {
        Seq::empty()
    } else {
        flat(texts.drop_last()) + texts.last()
    }
}

/// The texts one after the other, with a separator between any two.
pub open spec fn joined(texts: Seq<Seq<char>>, separator: Seq<char>) -> Seq<char>
    decreases texts.len(),
{
    if texts.len() == 0 {
        Seq::empty()
    } else if texts.len() == 1 {
        texts[0]
    } else {
        joined(texts.drop_last(), separator) + separator + texts.last()
    }
}

/// The texts of steps.
pub open spec fn texts(steps: Seq<Emission>) -> Seq<Seq<char>> {
    Seq::new(steps.len(), |i: int| steps[i].text)
}

/// Whether all of the steps succeed.
pub open spec fn all_succeed(steps: Seq<Emission>) -> bool {
    forall|i: int| 0 <= i < steps.len() ==> (#[trigger] steps[i]).fault is None
}

/// Whether step `i` is the first that fails.
pub open spec fn fails_first(steps: Seq<Emission>, i: int) -> bool {
    &&& 0 <= i < steps.len()
    &&& steps[i].fault is Some
    &&& forall|j: int| 0 <= j < i ==> (#[trigger] steps[j]).fault is None
}

/// The fault of two steps one after the other.
pub open spec fn earlier(first: Option<Fault>, second: Option<Fault>) -> Option<Fault> {
    if first is Some {
        first
    } else {
        second
    }
}

/// A text succeeds and is what is appended; nothing appends nothing; a failure appends nothing
/// and tells its fault.
pub proof fn law_steps(text: Seq<char>, fault: Fault)
    ensures
        Emission::text(text).text == text,
        Emission::text(text).fault is None,
        Emission::nothing().text.len() == 0,
        Emission::nothing().fault is None,
        Emission::failure(fault).text.len() == 0,
        Emission::failure(fault).fault == Some(fault),
        Emission::undefined().fault == Some(Fault::Undefined),
{
}

/// Two steps append the text of the first and, only if that succeeded, that of the second.
pub proof fn law_and(first: Emission, second: Emission, text: Seq<char>)
    ensures
        first.and(second).fault == earlier(first.fault, second.fault),
        first.fault is None ==> first.and(second).text == first.text + second.text,
        first.fault is Some ==> first.and(second).text == first.text,
        first.put(text).fault == first.fault,
        first.fault is None ==> first.put(text).text == first.text + text,
        first.fault is Some ==> first.put(text).text == first.text,
{
}

/// A call that makes a step appends exactly its text, succeeds if and only if the step does, and
/// otherwise tells its fault.
pub proof fn law_made(
    step: Emission,
    before: Seq<char>,
    after: Seq<char>,
    outcome: Result<(), Stop>,
)
    requires
        step.made(before, after, outcome),
    ensures
        after == before + step.text,
        outcome is Ok <==> step.fault is None,
        outcome matches Err(stop) ==> step.fault == Some(stop@),
{
    reveal(Emission::made);
}

/// No steps append nothing, and one step is itself.
pub proof fn law_few(step: Emission)
    ensures
        Emission::all(Seq::empty()) == Emission::nothing(),
        Emission::all(seq![step]) == step,
{
    assert(seq![step].drop_last() =~= Seq::empty());
    assert(Seq::<char>::empty() + step.text =~= step.text);
    reveal_with_fuel(Emission::all, 2);
}

/// Steps that all succeed append all of their texts in order; otherwise the fault is that of the
/// first that fails.
pub proof fn law_all(steps: Seq<Emission>)
    ensures
        all_succeed(steps) ==> Emission::all(steps).fault is None && Emission::all(steps).text
            == flat(texts(steps)),
        forall|i: int| #[trigger]
            fails_first(steps, i) ==> Emission::all(steps).fault == steps[i].fault,
{
    order::law_all_succeed(steps);
    if all_succeed(steps) {
        lemma_flat(steps);
    }
    assert forall|i: int| #[trigger] fails_first(steps, i) implies Emission::all(steps).fault
        == steps[i].fault by {
        lemma_fails_first(steps, i);
    }
}

proof fn lemma_flat(steps: Seq<Emission>)
    requires
        all_succeed(steps),
    ensures
        Emission::all(steps).text == flat(texts(steps)),
    decreases steps.len(),
{
    order::law_all_succeed(steps);
    if steps.len() > 0 {
        let rest = steps.drop_last();
        assert forall|i: int| 0 <= i < rest.len() implies (#[trigger] rest[i]).fault is None by {
            assert(rest[i] == steps[i]);
        }
        order::law_all_succeed(rest);
        lemma_flat(rest);
        assert(texts(steps).drop_last() =~= texts(rest));
    }
}

proof fn lemma_fails_first(steps: Seq<Emission>, i: int)
    requires
        fails_first(steps, i),
    ensures
        Emission::all(steps).fault == steps[i].fault,
{
    let before = steps.take(i);
    assert forall|j: int| 0 <= j < before.len() implies (#[trigger] before[j]).fault is None by {
        assert(before[j] == steps[j]);
    }
    order::law_all_succeed(before);
    emission::lemma_all_at(steps, i);
}

/// Steps in brackets that all succeed append all of their texts in order, in round brackets and
/// with a comma and a blank between any two; otherwise the fault is that of the first that fails.
pub proof fn law_bracketed(steps: Seq<Emission>)
    ensures
        all_succeed(steps) ==> Emission::bracketed(steps).fault is None && Emission::bracketed(
            steps,
        ).text == "("@ + joined(texts(steps), ", "@) + ")"@,
        forall|i: int| #[trigger]
            fails_first(steps, i) ==> Emission::bracketed(steps).fault == steps[i].fault,
{
    let all = Emission::with_separators(steps, ", "@);
    order::law_all_succeed(all);
    if all_succeed(steps) {
        assert forall|i: int| 0 <= i < all.len() implies (#[trigger] all[i]).fault is None by {
            assert(steps[i].fault is None);
        }
        lemma_joined(steps);
    }
    assert forall|i: int| #[trigger] fails_first(steps, i) implies Emission::bracketed(steps).fault
        == steps[i].fault by {
        assert forall|j: int| 0 <= j < i implies (#[trigger] all[j]).fault is None by {
            assert(steps[j].fault is None);
        }
        assert(fails_first(all, i));
        lemma_fails_first(all, i);
    }
}

proof fn lemma_joined(steps: Seq<Emission>)
    requires
        all_succeed(steps),
    ensures
        Emission::separated(steps, ", "@).fault is None,
        Emission::separated(steps, ", "@).text == joined(texts(steps), ", "@),
    decreases steps.len(),
{
    let all = Emission::with_separators(steps, ", "@);
    if steps.len() > 0 {
        let rest = steps.drop_last();
        assert forall|i: int| 0 <= i < rest.len() implies (#[trigger] rest[i]).fault is None by {
            assert(rest[i] == steps[i]);
        }
        lemma_joined(rest);
        assert(all.drop_last() =~= Emission::with_separators(rest, ", "@));
        assert(texts(steps).drop_last() =~= texts(rest));
        assert(steps[steps.len() - 1].fault is None);
        if steps.len() == 1 {
            assert(Seq::<char>::empty() + steps[0].text =~= steps[0].text);
        } else {
            let a = joined(texts(rest), ", "@);
            let b = steps.last().text;
            assert(a + (", "@ + b) =~= a + ", "@ + b);
        }
    }
}

} // verus!
