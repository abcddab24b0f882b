//! What a step of the writer appends to the output, and how it ends.

use crate::error::{Fault, Stop};
use vstd::prelude::*;

verus! {

/// The text that a step appends, and the fault that it stops on, if any. A step that stops on a
/// fault keeps what it has appended before.
pub struct Emission {
    pub text: Seq<char>,
    pub fault: Option<Fault>,
}

impl Emission {
    pub open spec fn nothing() -> Emission {
        Emission { text: Seq::empty(), fault: None }
    }

    pub open spec fn text(text: Seq<char>) -> Emission {
        Emission { text, fault: None }
    }

    pub open spec fn failure(fault: Fault) -> Emission {
        Emission { text: Seq::empty(), fault: Some(fault) }
    }

    /// The step of writing something that does not exist, or that is part of itself.
    pub open spec fn undefined() -> Emission {
        Emission::failure(Fault::Undefined)
    }

    /// Whether all that this step comes to exists.
    pub open spec fn is_defined(self) -> bool {
        self.fault != Some(Fault::Undefined)
    }

    /// This step and, unless it stopped, the next one.
    pub open spec fn and(self, next: Emission) -> Emission {
        if self.fault is Some {
            self
        } else {
            Emission { text: self.text + next.text, fault: next.fault }
        }
    }

    /// This step and, unless it stopped, the given text.
    pub open spec fn put(self, text: Seq<char>) -> Emission {
        self.and(Emission::text(text))
    }

    /// The steps in order, up to the first that stops.
    pub open spec fn all(steps: Seq<Emission>) -> Emission
        decreases steps.len(),
    {
        if steps.len() == 0 {
            Emission::nothing()
        } else {
            Emission::all(steps.drop_last()).and(steps.last())
        }
    }

    /// The steps in order with `separator` before each but the first, up to the first that stops.
    pub open spec fn separated(steps: Seq<Emission>, separator: Seq<char>) -> Emission {
        Emission::all(Emission::with_separators(steps, separator))
    }

    pub open spec fn with_separators(steps: Seq<Emission>, separator: Seq<char>) -> Seq<Emission> {
        Seq::new(
            steps.len(),
            |i: int|
                if i == 0 {
                    steps[i]
                } else {
                    Emission::text(separator).and(steps[i])
                },
        )
    }

    /// The steps in order in round brackets, with commas between them.
    pub open spec fn bracketed(steps: Seq<Emission>) -> Emission {
        Emission::text("("@).and(Emission::separated(steps, ", "@)).put(")"@)
    }

    /// Whether a call that found `before` in the output, left `after` and returned `outcome`
    /// made this step.
    #[verifier::opaque]
    pub open spec fn made(
        self,
        before: Seq<char>,
        after: Seq<char>,
        outcome: Result<(), Stop>,
    ) -> bool {
        &&& after == before + self.text
        &&& match outcome {
            Ok(()) => self.fault is None,
            Err(stop) => self.fault == Some(stop@),
        }
    }
}

/// Two steps made one after the other make both.
pub broadcast proof fn lemma_made_and(
    first: Emission,
    second: Emission,
    a: Seq<char>,
    b: Seq<char>,
    c: Seq<char>,
    r: Result<(), Stop>,
    s: Result<(), Stop>,
)
    requires
        #[trigger] first.made(a, b, r),
        #[trigger] second.made(b, c, s),
        r is Ok,
    ensures
        (#[trigger] first.and(second)).made(a, c, s),
{
    reveal(Emission::made);
    lemma_add_associative(a, first.text, second.text);
}

/// A step that stopped makes up for what would follow it.
pub broadcast proof fn lemma_made_stopped(
    first: Emission,
    second: Emission,
    a: Seq<char>,
    b: Seq<char>,
    r: Result<(), Stop>,
)
    requires
        #[trigger] first.made(a, b, r),
        r is Err,
    ensures
        (#[trigger] first.and(second)).made(a, b, r),
{
    reveal(Emission::made);
}

/// A step that was made stopped if and only if the call failed.
pub broadcast proof fn lemma_made_fault(
    step: Emission,
    a: Seq<char>,
    b: Seq<char>,
    r: Result<(), Stop>,
)
    requires
        #[trigger] step.made(a, b, r),
    ensures
        step.fault is Some <==> r is Err,
{
    reveal(Emission::made);
}

pub broadcast group group_made {
    lemma_made_fault,
    lemma_made_and,
    lemma_made_stopped,
}

/// Concatenation is associative.
pub broadcast proof fn lemma_add_associative(a: Seq<char>, b: Seq<char>, c: Seq<char>)
    ensures
        #[trigger] ((a + b) + c) == a + (b + c),
{
    assert((a + b) + c =~= a + (b + c));
}

/// A longer list of steps ends with its last step.
pub proof fn lemma_all_step(steps: Seq<Emission>, i: int)
    requires
        0 <= i < steps.len(),
    ensures
        Emission::all(steps.take(i + 1)) == Emission::all(steps.take(i)).and(steps[i]),
{
    assert(steps.take(i + 1).drop_last() =~= steps.take(i));
}

/// No step follows one that stopped.
pub proof fn lemma_all_stopped(steps: Seq<Emission>, i: int)
    requires
        0 <= i <= steps.len(),
        Emission::all(steps.take(i)).fault is Some,
    ensures
        Emission::all(steps) == Emission::all(steps.take(i)),
    decreases steps.len() - i,
{
    if i == steps.len() {
        assert(steps.take(i) =~= steps);
    } else {
        lemma_all_step(steps, i);
        lemma_all_stopped(steps, i + 1);
    }
}

/// What is known of a list of steps at its `i`-th step, when the earlier ones did not stop.
pub proof fn lemma_all_at(steps: Seq<Emission>, i: int)
    requires
        0 <= i < steps.len(),
        Emission::all(steps.take(i)).fault is None,
    ensures
        Emission::all(steps.take(i + 1)) == Emission::all(steps.take(i)).and(steps[i]),
        steps[i].fault is Some ==> Emission::all(steps) == Emission::all(steps.take(i)).and(
            steps[i],
        ),
{
    lemma_all_step(steps, i);
    if steps[i].fault is Some {
        lemma_all_stopped(steps, i + 1);
    }
}

/// No steps are made by doing nothing.
pub proof fn lemma_made_none(steps: Seq<Emission>, a: Seq<char>)
    ensures
        Emission::all(steps.take(0)).made(a, a, Ok(())),
        Emission::nothing().made(a, a, Ok(())),
{
    reveal(Emission::made);
    assert(a =~= a + Seq::<char>::empty());
}

/// Lists of steps that agree on every step that is defined come to the same, if the one does
/// not come to a step that is not.
pub proof fn lemma_all_agree(first: Seq<Emission>, second: Seq<Emission>)
    requires
        first.len() == second.len(),
        Emission::all(first).is_defined(),
        forall|i: int|
            0 <= i < first.len() && (#[trigger] first[i]).is_defined() ==> first[i] == second[i],
    ensures
        Emission::all(first) == Emission::all(second),
    decreases first.len(),
{
    if first.len() > 0 {
        let a = first.drop_last();
        let b = second.drop_last();
        assert forall|i: int| 0 <= i < a.len() && (#[trigger] a[i]).is_defined() implies a[i]
            == b[i] by {
            assert(a[i] == first[i]);
        }
        lemma_all_agree(a, b);
        assert(first[first.len() - 1] == first.last());
    }
}

} // verus!
