//! What type definitions are written as.

use crate::emission::Emission;
use crate::error::Fault;
use crate::ir::{
    ArraySize, ImageClass, ImageDimension, Module, ScalarKind, StorageClass, StructMember,
    TypeHandle, TypeInner, VectorSize,
};
use crate::keyword;
use crate::laws::sequence;
use vstd::prelude::*;

verus! {

/// The types are written all of them, in order.
pub proof fn law_types(module: Module)
    ensures
        ({
            let parts = Seq::new(
                module.types@.len(),
                |i: int| module.type_def_text(i as TypeHandle),
            );
            let whole = module.type_defs_text();
            &&& sequence::all_succeed(parts) ==> whole.fault is None && whole.text
                == sequence::flat(sequence::texts(parts))
            &&& forall|i: int| #[trigger]
                sequence::fails_first(parts, i) ==> whole.fault == parts[i].fault
        }),
{
    let parts = Seq::new(module.types@.len(), |i: int| module.type_def_text(i as TypeHandle));
    assert(module.type_def_list() =~= parts);
    sequence::law_all(parts);
}

/// Numbers, vectors and matrices are defined by the type that Metal has for them, and a sampler
/// as a sampler.
pub proof fn law_plain_types(
    module: Module,
    handle: TypeHandle,
    kind: ScalarKind,
    size: VectorSize,
    rows: VectorSize,
    width: u8,
    comparison: bool,
)
    ensures
        ({
            let ty = module.types@[handle as int];
            let whole = module.type_def_text(handle);
            let end = ty.name@ + ";\n"@ + "\n"@;
            &&& ty.inner == (TypeInner::Scalar { kind, width }) ==> whole.fault is None
                && whole.text == "typedef "@ + keyword::scalar_kind_text(kind) + " "@ + end
            &&& ty.inner == (TypeInner::Vector { size, kind, width }) ==> whole.fault is None
                && whole.text == "typedef metal::"@ + keyword::scalar_kind_text(kind)
                + keyword::vector_size_text(size) + " "@ + end
            &&& ty.inner == (TypeInner::Matrix { columns: size, rows, width })
                ==> whole.fault is None && whole.text == "typedef metal::"@ + "float"@
                + keyword::vector_size_text(size) + "x"@ + keyword::vector_size_text(rows) + " "@
                + end
            &&& ty.inner == (TypeInner::Sampler { comparison }) ==> whole.fault is None
                && whole.text == "typedef metal::sampler "@ + end
        }),
{
    broadcast use crate::emission::lemma_add_associative;

}

/// A pointer is defined by its address space and what it points to, unless it points to an input
/// or an output. What it points to has to exist in any case.
pub proof fn law_pointer_type(
    module: Module,
    handle: TypeHandle,
    base: TypeHandle,
    class: StorageClass,
)
    requires
        module.types@[handle as int].inner == (TypeInner::Pointer { base, class }),
    ensures
        ({
            let whole = module.type_def_text(handle);
            let name = module.types@[handle as int].name@;
            let target = module.types@[base as int].name@;
            &&& base >= module.types@.len() ==> whole.fault == Some(Fault::Undefined)
            &&& base < module.types@.len() ==> {
                &&& class == StorageClass::Input || class == StorageClass::Output ==> whole
                    == Emission::nothing()
                &&& class == StorageClass::Uniform ==> whole.fault is None && whole.text
                    == "typedef "@ + "constant"@ + " "@ + target + " *"@ + name + ";\n"@ + "\n"@
                &&& class == StorageClass::Storage ==> whole.fault is None && whole.text
                    == "typedef "@ + "device"@ + " "@ + target + " *"@ + name + ";\n"@ + "\n"@
                &&& class != StorageClass::Input && class != StorageClass::Output && class
                    != StorageClass::Uniform && class != StorageClass::Storage
                    ==> whole.fault is None && whole.text == "typedef "@ + " "@ + target + " *"@
                    + name + ";\n"@ + "\n"@
            }
        }),
{
    reveal_strlit("");
    assert("typedef "@ + ""@ =~= "typedef "@);
}

/// An array is defined by its elements and its size: the constant that it is, or one where it is
/// not fixed.
pub proof fn law_array_type(
    module: Module,
    handle: TypeHandle,
    base: TypeHandle,
    size: ArraySize,
    stride: Option<u32>,
)
    requires
        module.types@[handle as int].inner == (TypeInner::Array { base, size, stride }),
    ensures
        ({
            let whole = module.type_def_text(handle);
            let name = module.types@[handle as int].name@;
            let element = module.types@[base as int].name@;
            let start = "typedef "@ + element + " "@ + name + "["@;
            let end = "]"@ + ";\n"@ + "\n"@;
            &&& base >= module.types@.len() ==> whole.fault == Some(Fault::Undefined)
            &&& base < module.types@.len() ==> match size {
                ArraySize::Constant(constant) => {
                    let length = module.constant_text(constant);
                    &&& whole.fault == length.fault
                    &&& whole.fault is None ==> whole.text == start + length.text + end
                },
                ArraySize::Dynamic => whole.fault is None && whole.text == start + "1"@ + end,
            }
        }),
{
    broadcast use crate::emission::lemma_add_associative;

}

/// A structure is defined by all of its members in order, each with its type and its name on a
/// line of its own.
pub proof fn law_struct_type(
    module: Module,
    handle: TypeHandle,
    block: bool,
    members: Vec<StructMember>,
)
    requires
        module.types@[handle as int].inner == (TypeInner::Struct { block, members }),
    ensures
        ({
            let whole = module.type_def_text(handle);
            let name = module.types@[handle as int].name@;
            let lines = Seq::new(
                members@.len(),
                |i: int|
                    "    "@ + module.types@[members@[i].ty as int].name@ + " "@ + members@[i].name@
                        + ";\n"@,
            );
            &&& (forall|i: int|
                0 <= i < members@.len() ==> (#[trigger] members@[i]).ty < module.types@.len())
                ==> whole.fault is None && whole.text == "struct "@ + name + " {\n"@
                + sequence::flat(lines) + "}"@ + ";\n"@ + "\n"@
            &&& (exists|i: int|
                0 <= i < members@.len() && (#[trigger] members@[i]).ty >= module.types@.len())
                ==> whole.fault == Some(Fault::Undefined)
        }),
{
    let parts = module.member_texts(members@);
    sequence::law_all(parts);
    if forall|i: int|
        0 <= i < members@.len() ==> (#[trigger] members@[i]).ty < module.types@.len() {
        let lines = Seq::new(
            members@.len(),
            |i: int|
                "    "@ + module.types@[members@[i].ty as int].name@ + " "@ + members@[i].name@
                    + ";\n"@,
        );
        assert forall|i: int| 0 <= i < parts.len() implies (#[trigger] parts[i]).fault is None by {
            assert(members@[i].ty < module.types@.len());
        }
        assert forall|i: int| 0 <= i < parts.len() implies #[trigger] sequence::texts(parts)[i]
            == lines[i] by {
            assert(members@[i].ty < module.types@.len());
        }
        assert(sequence::texts(parts) =~= lines);
    } else {
        let i = choose|i: int|
            0 <= i < members@.len() && (#[trigger] members@[i]).ty >= module.types@.len();
        assert(parts[i].fault is Some);
        crate::laws::order::law_all_succeed(parts);
        let j = crate::laws::order::law_first_fault(parts);
        assert(parts[j] == module.member_text(members@[j]));
    }
}

/// What stands between the family and the kind in the name of a texture: its dimension, `_ms` if
/// and only if it has many samples, and `_array` if and only if it is an array.
pub open spec fn shape(dim: ImageDimension, multi: bool, arrayed: bool) -> Seq<char> {
    keyword::dimension_text(dim) + (if multi {
        seq!['_', 'm', 's']
    } else {
        Seq::empty()
    }) + (if arrayed {
        seq!['_', 'a', 'r', 'r', 'a', 'y']
    } else {
        Seq::empty()
    })
}

/// Images that differ in dimension, in having many samples or in being an array have names of
/// different shapes.
pub proof fn law_shapes_differ(
    dim: ImageDimension,
    multi: bool,
    arrayed: bool,
    other_dim: ImageDimension,
    other_multi: bool,
    other_arrayed: bool,
)
    requires
        shape(dim, multi, arrayed) == shape(other_dim, other_multi, other_arrayed),
    ensures
        dim == other_dim,
        multi == other_multi,
        arrayed == other_arrayed,
{
    crate::laws::words::law_dimensions();
    let a = shape(dim, multi, arrayed);
    let b = shape(other_dim, other_multi, other_arrayed);
    assert(a.len() == b.len());
    assert(a[0] == b[0]);
    assert(a[0] == keyword::dimension_text(dim)[0]);
    assert(b[0] == keyword::dimension_text(other_dim)[0]);
}

/// An image is defined by the texture that it is: a sampled one, one of depths, or one that is
/// read from and written to as its first global variable is.
pub proof fn law_image_type(
    module: Module,
    handle: TypeHandle,
    dim: ImageDimension,
    arrayed: bool,
    class: ImageClass,
)
    requires
        module.types@[handle as int].inner == (TypeInner::Image { dim, arrayed, class }),
    ensures
        ({
            let whole = module.type_def_text(handle);
            let end = ">"@ + " "@ + module.types@[handle as int].name@ + ";\n"@ + "\n"@;
            match class {
                ImageClass::Sampled { kind, multi } => whole.fault is None && whole.text
                    == "typedef metal::texture"@ + shape(dim, multi, arrayed) + "<"@
                    + keyword::scalar_kind_text(kind) + ", metal::access::"@ + "sample"@ + end,
                ImageClass::Depth => whole.fault is None && whole.text == "typedef metal::depth"@
                    + shape(dim, false, arrayed) + "<"@ + "float"@ + ", metal::access::"@
                    + "sample"@ + end,
                ImageClass::Storage(kind) => {
                    &&& forall|global: int| #[trigger]
                        module.is_first_global_of(handle, global) ==> {
                            let access = module.global_variables@[global].storage_access;
                            match keyword::access_text(access) {
                                Some(word) => whole.fault is None && whole.text
                                    == "typedef metal::texture"@ + shape(dim, false, arrayed) + "<"@
                                    + keyword::scalar_kind_text(kind) + ", metal::access::"@ + word
                                    + end,
                                None => whole.fault == Some(Fault::InvalidImageAccess(access)),
                            }
                        }
                    &&& (forall|global: int| #[trigger]
                        module.global_variables@[global].ty == handle ==> !(0 <= global
                            < module.global_variables@.len())) ==> whole.fault == Some(
                        Fault::Undefined,
                    )
                },
            }
        }),
{
    lemma_image_words();
    let name = module.types@[handle as int].name@;
    match class {
        ImageClass::Sampled { kind, multi } => {
            lemma_texture(
                module,
                handle,
                dim,
                arrayed,
                class,
                "texture"@,
                "typedef metal::texture"@,
                multi,
                kind,
                "sample"@,
            );
        },
        ImageClass::Depth => {
            lemma_texture(
                module,
                handle,
                dim,
                arrayed,
                class,
                "depth"@,
                "typedef metal::depth"@,
                false,
                ScalarKind::Float,
                "sample"@,
            );
        },
        ImageClass::Storage(kind) => {
            assert forall|global: int| #[trigger]
                module.is_first_global_of(handle, global) implies {
                let whole = module.type_def_text(handle);
                let end = ">"@ + " "@ + name + ";\n"@ + "\n"@;
                let access = module.global_variables@[global].storage_access;
                match keyword::access_text(access) {
                    Some(word) => whole.fault is None && whole.text == "typedef metal::texture"@
                        + shape(dim, false, arrayed) + "<"@ + keyword::scalar_kind_text(kind)
                        + ", metal::access::"@ + word + end,
                    None => whole.fault == Some(Fault::InvalidImageAccess(access)),
                }
            } by {
                module.lemma_first_global_of(handle, global);
                let access = module.global_variables@[global].storage_access;
                if let Some(word) = keyword::access_text(access) {
                    lemma_texture(
                        module,
                        handle,
                        dim,
                        arrayed,
                        class,
                        "texture"@,
                        "typedef metal::texture"@,
                        false,
                        kind,
                        word,
                    );
                }
            }
        },
    }
}

proof fn lemma_image_words()
    ensures
        "typedef "@ + "metal::"@ + "texture"@ == "typedef metal::texture"@,
        "typedef "@ + "metal::"@ + "depth"@ == "typedef metal::depth"@,
        "_ms"@ == seq!['_', 'm', 's'],
        "_array"@ == seq!['_', 'a', 'r', 'r', 'a', 'y'],
        ""@ == Seq::<char>::empty(),
{
    reveal_strlit("typedef ");
    reveal_strlit("metal::");
    reveal_strlit("texture");
    reveal_strlit("depth");
    reveal_strlit("typedef metal::texture");
    reveal_strlit("typedef metal::depth");
    reveal_strlit("_ms");
    reveal_strlit("_array");
    reveal_strlit("");
    assert("typedef "@ + "metal::"@ + "texture"@ =~= "typedef metal::texture"@);
    assert("typedef "@ + "metal::"@ + "depth"@ =~= "typedef metal::depth"@);
    assert("_ms"@ =~= seq!['_', 'm', 's']);
    assert("_array"@ =~= seq!['_', 'a', 'r', 'r', 'a', 'y']);
    assert(""@ =~= Seq::<char>::empty());
}

/// The text of an image whose parts are known.
proof fn lemma_texture(
    module: Module,
    handle: TypeHandle,
    dim: ImageDimension,
    arrayed: bool,
    class: ImageClass,
    family: Seq<char>,
    start: Seq<char>,
    multi: bool,
    kind: ScalarKind,
    access: Seq<char>,
)
    requires
        module.types@[handle as int].inner == (TypeInner::Image { dim, arrayed, class }),
        start == "typedef "@ + "metal::"@ + family,
        module.image_text(handle, dim, arrayed, class) == Emission::text("typedef "@).and(
            crate::grammar::type_def::texture_text(
                family,
                dim,
                if multi {
                    "_ms"@
                } else {
                    ""@
                },
                arrayed,
                kind,
                access,
            ),
        ),
    ensures
        module.type_def_text(handle).fault is None,
        module.type_def_text(handle).text == start + shape(dim, multi, arrayed) + "<"@
            + keyword::scalar_kind_text(kind) + ", metal::access::"@ + access + (">"@ + " "@
            + module.types@[handle as int].name@ + ";\n"@ + "\n"@),
{
    lemma_image_words();
    lemma_regroup(
        "typedef "@,
        "metal::"@,
        family,
        keyword::dimension_text(dim),
        if multi {
            "_ms"@
        } else {
            ""@
        },
        if arrayed {
            "_array"@
        } else {
            ""@
        },
        "<"@,
        keyword::scalar_kind_text(kind),
        ", metal::access::"@,
        access,
        ">"@,
        " "@,
        module.types@[handle as int].name@,
        ";\n"@,
        "\n"@,
    );
}

/// Texts one after the other group in any way.
proof fn lemma_regroup(
    a: Seq<char>,
    b: Seq<char>,
    c: Seq<char>,
    d: Seq<char>,
    e: Seq<char>,
    f: Seq<char>,
    g: Seq<char>,
    h: Seq<char>,
    i: Seq<char>,
    j: Seq<char>,
    k: Seq<char>,
    l: Seq<char>,
    m: Seq<char>,
    n: Seq<char>,
    o: Seq<char>,
)
    ensures
        a + (b + c + d + e + f + g + h + i + j + k) + l + m + n + o == (a + b + c) + (d + e + f) + g
            + h + i + j + (k + l + m + n + o),
{
    broadcast use crate::emission::lemma_add_associative;

}

} // verus!
