//! What constants are written as.

use crate::emission::Emission;
use crate::ir::{ConstantHandle, ConstantInner, Module, TypeHandle};
use crate::laws::depth;
use crate::laws::sequence;
use vstd::prelude::*;

verus! {

/// The steps that write constants.
pub open spec fn written(module: Module, handles: Seq<ConstantHandle>) -> Seq<Emission> {
    Seq::new(handles.len(), |i: int| module.constant_text(handles[i]))
}

/// A type is written as its name, if there is such a type.
pub proof fn law_type_name(module: Module, ty: TypeHandle)
    ensures
        ty < module.types@.len() ==> module.type_text(ty) == Emission::text(
            module.types@[ty as int].name@,
        ),
        ty >= module.types@.len() ==> module.type_text(ty) == Emission::undefined(),
{
}

/// A constant that does not exist is not written.
pub proof fn law_dangling_constant(module: Module, handle: ConstantHandle)
    requires
        handle >= module.constants@.len(),
    ensures
        module.constant_text(handle) == Emission::undefined(),
{
    module.lemma_constant_within(handle, module.constants@.len());
}

/// A constant that exists is written as what it is made of: a scalar as its literal, a composite
/// as the name of its type and all of its components in order, in round brackets and with commas
/// between them. It fails only where its type or a component does not exist.
pub proof fn law_constant(module: Module, handle: ConstantHandle)
    requires
        handle < module.constants@.len(),
    ensures
        match module.constants@[handle as int].inner {
            ConstantInner::Scalar { value, .. } => module.constant_text(handle) == Emission::text(
                value.literal(),
            ),
            ConstantInner::Composite { ty, components } => {
                let parts = written(module, components@);
                let whole = module.constant_text(handle);
                &&& ty < module.types@.len() && sequence::all_succeed(parts) ==> whole.fault is None
                    && whole.text == module.types@[ty as int].name@ + ("("@ + sequence::joined(
                    sequence::texts(parts),
                    ", "@,
                ) + ")"@)
                &&& whole.fault is None <==> ty < module.types@.len() && sequence::all_succeed(
                    parts,
                )
            },
        },
{
    let n = module.constants@.len();
    module.lemma_constant_within(handle, n);
    module.lemma_constant_within(handle, n + 1);
    if let ConstantInner::Composite { ty, components } = module.constants@[handle as int].inner {
        let parts = written(module, components@);
        let inner = module.constants_within(components@, (n - 1) as nat);
        assert((n + 1 - 1) as nat == n);
        assert(module.constants_within(components@, n) =~= parts) by {
            reveal(Module::constant_within);
        }
        sequence::law_bracketed(parts);
        sequence::law_bracketed(inner);
        if ty < module.types@.len() && sequence::all_succeed(parts) {
            assert(module.constant_within(handle, n + 1).fault is None);
            depth::law_constant_depth(module, handle, n + 1);
        }
        if module.constant_text(handle).fault is None {
            lemma_succeed(inner);
            assert forall|i: int| 0 <= i < parts.len() implies (
            #[trigger] parts[i]).fault is None by {
                reveal(Module::constant_within);
                assert(inner[i].fault is None);
                assert(module.constant_within(components@[i], (n - 1) as nat).fault is None);
                depth::law_constant_depth(module, components@[i], (n - 1) as nat);
            }
        }
    }
}

/// Steps in brackets succeed only if each of them does.
proof fn lemma_succeed(steps: Seq<Emission>)
    requires
        Emission::bracketed(steps).fault is None,
    ensures
        sequence::all_succeed(steps),
{
    sequence::law_bracketed(steps);
    if !sequence::all_succeed(steps) {
        let i = lemma_first(steps, 0);
        assert(sequence::fails_first(steps, i));
    }
}

proof fn lemma_first(steps: Seq<Emission>, i: int) -> (first: int)
    requires
        0 <= i <= steps.len(),
        forall|j: int| 0 <= j < i ==> (#[trigger] steps[j]).fault is None,
        !sequence::all_succeed(steps),
    ensures
        sequence::fails_first(steps, first),
    decreases steps.len() - i,
{
    if i < steps.len() && steps[i].fault is Some {
        i
    } else {
        lemma_first(steps, i + 1)
    }
}

} // verus!
