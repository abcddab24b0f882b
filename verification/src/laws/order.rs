//! What the text of a module is made of, in which order, and where it stops.

use crate::emission::Emission;
use crate::ir::Module;
use crate::options::Options;
use vstd::prelude::*;

verus! {

/// The lines that start every module.
pub open spec fn header() -> Seq<char> {
    "#include <metal_stdlib>\n"@ + "#include <simd/simd.h>\n"@ + "\n"@
}

/// Steps one after the other group in any way.
pub proof fn lemma_and_associative(a: Emission, b: Emission, c: Emission)
    ensures
        a.and(b).and(c) == a.and(b.and(c)),
{
    assert(a.text + b.text + c.text =~= a.text + (b.text + c.text));
}

/// Two lists of steps one after the other are one list of steps.
pub proof fn law_all_append(first: Seq<Emission>, second: Seq<Emission>)
    ensures
        Emission::all(first + second) == Emission::all(first).and(Emission::all(second)),
    decreases second.len(),
{
    if second.len() == 0 {
        assert(first + second =~= first);
        assert(Emission::all(first).text + Seq::<char>::empty() =~= Emission::all(first).text);
    } else {
        assert((first + second).drop_last() =~= first + second.drop_last());
        assert((first + second).last() == second.last());
        law_all_append(first, second.drop_last());
        lemma_and_associative(
            Emission::all(first),
            Emission::all(second.drop_last()),
            second.last(),
        );
    }
}

/// A list of steps succeeds if and only if each of them does.
pub proof fn law_all_succeed(steps: Seq<Emission>)
    ensures
        Emission::all(steps).fault is None <==> forall|i: int|
            0 <= i < steps.len() ==> (#[trigger] steps[i]).fault is None,
    decreases steps.len(),
{
    if steps.len() > 0 {
        law_all_succeed(steps.drop_last());
        if Emission::all(steps).fault is None {
            assert forall|i: int| 0 <= i < steps.len() implies (
            #[trigger] steps[i]).fault is None by {
                if i < steps.len() - 1 {
                    assert(steps.drop_last()[i] == steps[i]);
                }
            }
        }
        if forall|i: int| 0 <= i < steps.len() ==> (#[trigger] steps[i]).fault is None {
            assert forall|i: int| 0 <= i < steps.drop_last().len() implies (
            #[trigger] steps.drop_last()[i]).fault is None by {
                assert(steps.drop_last()[i] == steps[i]);
            }
        }
    }
}

/// A list of steps that fails stops at its first step that fails: the text is that of the steps
/// before it and what it appended itself, and its fault is the one reported.
pub proof fn law_first_fault(steps: Seq<Emission>) -> (i: int)
    requires
        Emission::all(steps).fault is Some,
    ensures
        0 <= i < steps.len(),
        Emission::all(steps.take(i)).fault is None,
        steps[i].fault is Some,
        Emission::all(steps).fault == steps[i].fault,
        Emission::all(steps).text == Emission::all(steps.take(i)).text + steps[i].text,
    decreases steps.len(),
{
    if Emission::all(steps.drop_last()).fault is Some {
        let i = law_first_fault(steps.drop_last());
        assert(steps.drop_last().take(i) =~= steps.take(i));
        i
    } else {
        assert(steps.take(steps.len() - 1) =~= steps.drop_last());
        steps.len() - 1
    }
}

/// The text of every module starts with the same lines, also where writing it fails.
pub proof fn law_header(module: Module, options: Options)
    ensures
        header().is_prefix_of(module.module_text(options).text),
{
    let first = Emission::text("#include <metal_stdlib>\n"@).put("#include <simd/simd.h>\n"@).put(
        "\n"@,
    );
    assert(first.text == header());
    let types = module.type_defs_text();
    let functions = module.functions_text(options);
    assert(header().is_prefix_of(header() + types.text));
    assert(header().is_prefix_of(header() + types.text + functions.text));
}

/// A module can be written if and only if its types, its functions and its entry points can. Its
/// text is the header and theirs, in this order.
pub proof fn law_parts(module: Module, options: Options)
    ensures
        ({
            let whole = module.module_text(options);
            let types = module.type_defs_text();
            let functions = Emission::all(module.function_texts());
            let entry_points = Emission::all(module.entry_point_texts(options));
            &&& whole.fault is None <==> types.fault is None && functions.fault is None
                && entry_points.fault is None
            &&& whole.fault is None ==> whole.text == header() + types.text + functions.text
                + entry_points.text
        }),
{
    let types = module.type_defs_text();
    let functions = Emission::all(module.function_texts());
    let entry_points = Emission::all(module.entry_point_texts(options));
    assert(header() + types.text + (functions.text + entry_points.text) =~= header() + types.text
        + functions.text + entry_points.text);
}

/// The fault of the types comes before that of the functions, and that before the one of the
/// entry points. Where the types fail, no function is written.
pub proof fn law_fault_order(module: Module, options: Options)
    ensures
        ({
            let whole = module.module_text(options);
            let types = module.type_defs_text();
            let functions = Emission::all(module.function_texts());
            let entry_points = Emission::all(module.entry_point_texts(options));
            &&& types.fault is Some ==> whole.fault == types.fault && whole.text == header()
                + types.text
            &&& types.fault is None && functions.fault is Some ==> whole.fault == functions.fault
                && whole.text == header() + types.text + functions.text
            &&& types.fault is None && functions.fault is None ==> whole.fault
                == entry_points.fault
        }),
{
}

/// Where two tables of bindings say the same of every variable, the texts are the same.
pub proof fn law_options(module: Module, a: Options, b: Options)
    requires
        a.agrees_with(b),
    ensures
        module.module_text(a) == module.module_text(b),
{
    assert forall|index: usize| index < module.entry_points@.len() implies #[trigger]
    module.entry_point_text(a, index) == module.entry_point_text(b, index) by {
        let entry_point = module.entry_points@[index as int];
        assert(module.input_texts(entry_point, a) =~= module.input_texts(entry_point, b));
        assert(module.output_texts(entry_point, a) =~= module.output_texts(entry_point, b));
        assert(module.parameter_texts(entry_point, a) =~= module.parameter_texts(entry_point, b));
    }
    assert(module.entry_point_texts(a) =~= module.entry_point_texts(b));
}

} // verus!
