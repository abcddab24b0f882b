//! How deep constants and expressions can be nested.

use crate::context::ExpressionContext;
use crate::emission;
use crate::emission::Emission;
use crate::grammar::agreement;
use crate::ir::{ConstantHandle, ConstantInner, ExpressionHandle, Module};
use vstd::prelude::*;

verus! {

/// The elements, of `count`, that are defined at depth `n`.
spec fn defined_at(defined: spec_fn(int, nat) -> bool, count: nat, n: nat) -> Set<int> {
    Set::new(|i: int| 0 <= i < count && defined(i, n))
}

/// Up to depth `n` either some depth adds no element, or each adds one.
proof fn lemma_grows(defined: spec_fn(int, nat) -> bool, count: nat, n: nat)
    requires
        forall|i: int, m: nat| #[trigger] defined(i, m) ==> defined(i, m + 1),
    ensures
        defined_at(defined, count, n).finite(),
        defined_at(defined, count, n).len() <= count,
        defined_at(defined, count, n).len() >= n || exists|m: nat|
            m < n && #[trigger] defined_at(defined, count, m) == defined_at(defined, count, m + 1),
    decreases n,
{
    let here = defined_at(defined, count, n);
    let range = vstd::set_lib::set_int_range(0, count as int);
    vstd::set_lib::lemma_int_range(0, count as int);
    vstd::set_lib::lemma_len_subset(here, range);
    if n > 0 {
        let before = (n - 1) as nat;
        let there = defined_at(defined, count, before);
        lemma_grows(defined, count, before);
        assert forall|i: int| there.contains(i) implies here.contains(i) by {
            assert(defined(i, before));
        }
        assert(there.subset_of(here));
        vstd::set_lib::lemma_len_subset(there, here);
        if there.len() >= before && here.len() < n {
            vstd::set_lib::lemma_subset_equality(there, here);
            assert(defined_at(defined, count, before) == defined_at(defined, count, before + 1));
        }
    }
}

/// Where depth `m` adds no element, no later one does.
proof fn lemma_stays(defined: spec_fn(int, nat) -> bool, count: nat, m: nat, n: nat)
    requires
        m <= n,
        defined_at(defined, count, m) == defined_at(defined, count, m + 1),
        forall|k: nat| #[trigger]
            defined_at(defined, count, k) == defined_at(defined, count, k + 1) ==> defined_at(
                defined,
                count,
                k + 1,
            ) == defined_at(defined, count, k + 2),
    ensures
        defined_at(defined, count, n) == defined_at(defined, count, m),
        defined_at(defined, count, n) == defined_at(defined, count, n + 1),
    decreases n,
{
    if m < n {
        let before = (n - 1) as nat;
        lemma_stays(defined, count, m, before);
        assert(defined_at(defined, count, before) == defined_at(defined, count, before + 1));
        assert(before + 1 == n && before + 2 == n + 1);
    }
}

proof fn lemma_more(defined: spec_fn(int, nat) -> bool, i: int, n: nat, m: nat)
    requires
        forall|i: int, m: nat| #[trigger] defined(i, m) ==> defined(i, m + 1),
        defined(i, n),
        n <= m,
    ensures
        defined(i, m),
    decreases m - n,
{
    if n < m {
        lemma_more(defined, i, n, (m - 1) as nat);
        assert(defined(i, (m - 1) as nat));
    }
}

/// What is defined at some depth is defined at the depth that is the number of elements.
proof fn lemma_depth(defined: spec_fn(int, nat) -> bool, count: nat, i: int, n: nat)
    requires
        0 <= i < count,
        defined(i, n),
        forall|i: int, m: nat| #[trigger] defined(i, m) ==> defined(i, m + 1),
        forall|k: nat| #[trigger]
            defined_at(defined, count, k) == defined_at(defined, count, k + 1) ==> defined_at(
                defined,
                count,
                k + 1,
            ) == defined_at(defined, count, k + 2),
    ensures
        defined(i, count),
{
    if n <= count {
        lemma_more(defined, i, n, count);
    } else {
        lemma_grows(defined, count, count + 1);
        let m = choose|m: nat|
            m < count + 1 && #[trigger] defined_at(defined, count, m) == defined_at(
                defined,
                count,
                m + 1,
            );
        lemma_stays(defined, count, m, n);
        assert(defined_at(defined, count, n).contains(i));
        assert(defined(i, m));
        lemma_more(defined, i, m, count);
    }
}

/// An expression that can be written to some depth is written like that: only one that is an
/// operand of itself is nested deeper than there are expressions.
pub proof fn law_expression_depth(
    context: ExpressionContext<'_>,
    handle: ExpressionHandle,
    n: nat,
)
    requires
        context.expression_within(handle, n).is_defined(),
    ensures
        context.expression_text(handle) == context.expression_within(handle, n),
{
    let count = context.function.expressions@.len();
    let defined = |i: int, m: nat|
        0 <= i < count && context.expression_within(i as ExpressionHandle, m).is_defined();
    context.lemma_expression_within(handle, n);
    assert forall|i: int, m: nat| #[trigger] defined(i, m) implies defined(i, m + 1) by {
        context.lemma_within_more(i as ExpressionHandle, m, m + 1);
    }
    assert forall|k: nat| #[trigger]
        defined_at(defined, count, k) == defined_at(defined, count, k + 1) implies defined_at(
        defined,
        count,
        k + 1,
    ) == defined_at(defined, count, k + 2) by {
        let now = defined_at(defined, count, k + 1);
        let later = defined_at(defined, count, k + 2);
        assert forall|i: int| #[trigger] later.contains(i) implies now.contains(i) by {
            let h = i as ExpressionHandle;
            assert(context.function.expressions.len() == count);
            context.lemma_expression_within(h, k + 2);
            context.lemma_expression_within(h, k + 1);
            let f = context.texts_within(k + 1);
            let g = context.texts_within(k);
            assert((k + 2 - 1) as nat == k + 1 && (k + 1 - 1) as nat == k);
            assert forall|operand: ExpressionHandle| agreement::agrees(
                #[trigger] f(operand),
                g(operand),
            ) by {
                reveal(ExpressionContext::expression_within);
                if f(operand).is_defined() {
                    assert(context.expression_within(operand, k + 1).is_defined());
                    context.lemma_expression_within(operand, k + 1);
                    assert(defined_at(defined, count, k + 1).contains(operand as int));
                    assert(defined_at(defined, count, k).contains(operand as int));
                    assert(context.expression_within(operand, k).is_defined());
                    context.lemma_within_more(operand, k, k + 1);
                }
            }
            context.lemma_node_agree(context.function.expressions@[i], f, g);
        }
        assert forall|i: int| #[trigger] now.contains(i) implies later.contains(i) by {
            assert(defined(i, k + 1));
        }
        assert(now =~= later);
    }
    assert(defined(handle as int, n));
    lemma_depth(defined, count, handle as int, n);
    if n <= count {
        context.lemma_within_more(handle, n, count);
    } else {
        context.lemma_within_more(handle, count, n);
    }
}

/// What can be written of a constant nested at most `n` deep is written alike with more.
proof fn lemma_constant_more(module: Module, handle: ConstantHandle, n: nat, m: nat)
    requires
        module.constant_within(handle, n).is_defined(),
        n <= m,
    ensures
        module.constant_within(handle, m) == module.constant_within(handle, n),
    decreases n,
{
    module.lemma_constant_within(handle, n);
    module.lemma_constant_within(handle, m);
    if let ConstantInner::Composite { components, .. } = module.constants@[handle as int].inner {
        assert forall|i: int|
            0 <= i < components@.len() && module.constant_within(
                #[trigger] components@[i],
                (n - 1) as nat,
            ).is_defined() implies module.constant_within(components@[i], (m - 1) as nat)
            == module.constant_within(components@[i], (n - 1) as nat) by {
            lemma_constant_more(module, components@[i], (n - 1) as nat, (m - 1) as nat);
        }
        lemma_components_agree(module, components@, (n - 1) as nat, (m - 1) as nat);
    }
}

/// Components in brackets depend only on the components that their text comes to.
proof fn lemma_components_agree(module: Module, components: Seq<ConstantHandle>, n: nat, m: nat)
    requires
        forall|i: int|
            0 <= i < components.len() && module.constant_within(
                #[trigger] components[i],
                n,
            ).is_defined() ==> module.constant_within(components[i], m) == module.constant_within(
                components[i],
                n,
            ),
    ensures
        Emission::bracketed(module.constants_within(components, n)).is_defined()
            ==> Emission::bracketed(module.constants_within(components, m)) == Emission::bracketed(
            module.constants_within(components, n),
        ),
{
    reveal(Module::constant_within);
    let a = Emission::with_separators(module.constants_within(components, n), ", "@);
    let b = Emission::with_separators(module.constants_within(components, m), ", "@);
    if Emission::all(a).is_defined() {
        assert forall|i: int| 0 <= i < a.len() && (#[trigger] a[i]).is_defined() implies a[i]
            == b[i] by {
            assert(module.constant_within(components[i], n).is_defined());
        }
        emission::lemma_all_agree(a, b);
    }
}

/// A constant that can be written to some depth is written like that: only one that is part of
/// itself is nested deeper than there are constants.
pub proof fn law_constant_depth(module: Module, handle: ConstantHandle, n: nat)
    requires
        module.constant_within(handle, n).is_defined(),
    ensures
        module.constant_text(handle) == module.constant_within(handle, n),
{
    let count = module.constants@.len();
    let defined = |i: int, m: nat|
        0 <= i < count && module.constant_within(i as ConstantHandle, m).is_defined();
    module.lemma_constant_within(handle, n);
    assert forall|i: int, m: nat| #[trigger] defined(i, m) implies defined(i, m + 1) by {
        lemma_constant_more(module, i as ConstantHandle, m, m + 1);
    }
    assert forall|k: nat| #[trigger]
        defined_at(defined, count, k) == defined_at(defined, count, k + 1) implies defined_at(
        defined,
        count,
        k + 1,
    ) == defined_at(defined, count, k + 2) by {
        let now = defined_at(defined, count, k + 1);
        let later = defined_at(defined, count, k + 2);
        assert forall|i: int| #[trigger] later.contains(i) implies now.contains(i) by {
            let h = i as ConstantHandle;
            assert(module.constants.len() == count);
            module.lemma_constant_within(h, k + 2);
            module.lemma_constant_within(h, k + 1);
            assert((k + 2 - 1) as nat == k + 1 && (k + 1 - 1) as nat == k);
            if let ConstantInner::Composite { components, .. } = module.constants@[i].inner {
                assert forall|j: int|
                    0 <= j < components@.len() && module.constant_within(
                        #[trigger] components@[j],
                        k + 1,
                    ).is_defined() implies module.constant_within(components@[j], k)
                    == module.constant_within(components@[j], k + 1) by {
                    let part = components@[j];
                    module.lemma_constant_within(part, k + 1);
                    assert(defined_at(defined, count, k + 1).contains(part as int));
                    assert(defined_at(defined, count, k).contains(part as int));
                    assert(module.constant_within(part, k).is_defined());
                    lemma_constant_more(module, part, k, k + 1);
                }
                lemma_components_agree(module, components@, k + 1, k);
            }
        }
        assert forall|i: int| #[trigger] now.contains(i) implies later.contains(i) by {
            assert(defined(i, k + 1));
        }
        assert(now =~= later);
    }
    assert(defined(handle as int, n));
    lemma_depth(defined, count, handle as int, n);
    if n <= count {
        lemma_constant_more(module, handle, n, count);
    } else {
        lemma_constant_more(module, handle, count, n);
    }
}

} // verus!
