//! The text of type definitions.

use crate::emission::Emission;
use crate::error::Fault;
use crate::ir::{
    ArraySize, ImageClass, ImageDimension, Module, ScalarKind, StructMember, TypeHandle, TypeInner,
};
use crate::keyword;
use vstd::prelude::*;

verus! {

/// The name of a texture type: its family, dimension and options, the kind of its texels, and
/// how they are accessed.
pub open spec fn texture_text(
    family: Seq<char>,
    dim: ImageDimension,
    multi: Seq<char>,
    arrayed: bool,
    kind: ScalarKind,
    access: Seq<char>,
) -> Emission {
    Emission::text("metal::"@).put(family).put(keyword::dimension_text(dim)).put(multi).put(
        if arrayed {
            "_array"@
        } else {
            ""@
        },
    ).put("<"@).put(keyword::scalar_kind_text(kind)).put(", metal::access::"@).put(access).put(
        ">"@,
    )
}

impl Module {
    /// Whether `global` is the first global variable of type `ty`.
    pub open spec fn is_first_global_of(self, ty: TypeHandle, global: int) -> bool {
        &&& 0 <= global < self.global_variables@.len()
        &&& self.global_variables@[global].ty == ty
        &&& forall|other: int|
            0 <= other < global ==> (#[trigger] self.global_variables@[other]).ty != ty
    }

    /// The first global variable of type `ty`.
    pub open spec fn first_global_of(self, ty: TypeHandle) -> int {
        choose|global: int| self.is_first_global_of(ty, global)
    }

    /// The line that declares a member of a structure.
    pub open spec fn member_text(self, member: StructMember) -> Emission {
        Emission::text("    "@).and(self.type_text(member.ty)).put(" "@).put(member.name@).put(
            ";\n"@,
        )
    }

    /// The lines that declare the members of a structure.
    pub open spec fn member_texts(self, members: Seq<StructMember>) -> Seq<Emission> {
        Seq::new(members.len(), |i: int| self.member_text(members[i]))
    }

    /// The texture type of an image of type `handle`. How a storage image is accessed is that of
    /// the first global variable of that type.
    pub open spec fn image_text(
        self,
        handle: TypeHandle,
        dim: ImageDimension,
        arrayed: bool,
        class: ImageClass,
    ) -> Emission {
        match class {
            ImageClass::Sampled { kind, multi } => Emission::text("typedef "@).and(
                texture_text(
                    "texture"@,
                    dim,
                    if multi {
                        "_ms"@
                    } else {
                        ""@
                    },
                    arrayed,
                    kind,
                    "sample"@,
                ),
            ),
            ImageClass::Depth => Emission::text("typedef "@).and(
                texture_text("depth"@, dim, ""@, arrayed, ScalarKind::Float, "sample"@),
            ),
            ImageClass::Storage(kind) => if exists|global: int|
                self.is_first_global_of(handle, global) {
                let access = self.global_variables@[self.first_global_of(handle)].storage_access;
                match keyword::access_text(access) {
                    Some(name) => Emission::text("typedef "@).and(
                        texture_text("texture"@, dim, ""@, arrayed, kind, name),
                    ),
                    None => Emission::failure(Fault::InvalidImageAccess(access)),
                }
            } else {
                Emission::undefined()
            },
        }
    }

    /// Whether type `handle` is left out: a pointer to an input or an output.
    pub open spec fn is_left_out(self, handle: TypeHandle) -> bool {
        self.types@[handle as int].inner matches TypeInner::Pointer { base, class } && base
            < self.types@.len() && keyword::pointer_class_text(class) is None
    }

    /// The definition of type `handle`, up to its semicolon.
    pub open spec fn type_body_text(self, handle: TypeHandle) -> Emission {
        let name = self.types@[handle as int].name@;
        match self.types@[handle as int].inner {
            TypeInner::Scalar { kind, .. } => Emission::text("typedef "@).put(
                keyword::scalar_kind_text(kind),
            ).put(" "@).put(name),
            TypeInner::Vector { size, kind, .. } => Emission::text("typedef metal::"@).put(
                keyword::scalar_kind_text(kind),
            ).put(keyword::vector_size_text(size)).put(" "@).put(name),
            TypeInner::Matrix { columns, rows, .. } => Emission::text("typedef metal::"@).put(
                keyword::scalar_kind_text(ScalarKind::Float),
            ).put(keyword::vector_size_text(columns)).put("x"@).put(
                keyword::vector_size_text(rows),
            ).put(" "@).put(name),
            TypeInner::Pointer { base, class } => if base >= self.types@.len() {
                Emission::undefined()
            } else {
                match keyword::pointer_class_text(class) {
                    Some(space) => Emission::text("typedef "@).put(space).put(" "@).put(
                        self.types@[base as int].name@,
                    ).put(" *"@).put(name),
                    None => Emission::nothing(),
                }
            },
            TypeInner::Array { base, size, .. } => Emission::text("typedef "@).and(
                self.type_text(base),
            ).put(" "@).put(name).put("["@).and(
                match size {
                    ArraySize::Constant(constant) => self.constant_text(constant),
                    ArraySize::Dynamic => Emission::text("1"@),
                },
            ).put("]"@),
            TypeInner::Struct { members, .. } => Emission::text("struct "@).put(name).put(
                " {\n"@,
            ).and(Emission::all(self.member_texts(members@))).put("}"@),
            TypeInner::Image { dim, arrayed, class } => self.image_text(
                handle,
                dim,
                arrayed,
                class,
            ).put(" "@).put(name),
            TypeInner::Sampler { .. } => Emission::text("typedef metal::sampler "@).put(name),
        }
    }

    /// The definition of type `handle`.
    pub open spec fn type_def_text(self, handle: TypeHandle) -> Emission {
        if self.is_left_out(handle) {
            Emission::nothing()
        } else {
            self.type_body_text(handle).put(";\n"@).put("\n"@)
        }
    }

    /// The definition of each type.
    pub open spec fn type_def_list(self) -> Seq<Emission> {
        Seq::new(self.types@.len(), |i: int| self.type_def_text(i as TypeHandle))
    }

    /// The definitions of the types, in order.
    pub open spec fn type_defs_text(self) -> Emission {
        Emission::all(self.type_def_list())
    }

    /// Only one global variable is the first of its type.
    pub proof fn lemma_first_global_of(self, ty: TypeHandle, global: int)
        requires
            self.is_first_global_of(ty, global),
        ensures
            self.first_global_of(ty) == global,
    {
        let first = self.first_global_of(ty);
        assert(self.is_first_global_of(ty, first));
        if first < global {
            assert(self.global_variables@[first].ty != ty);
        }
        if global < first {
            assert(self.global_variables@[global].ty != ty);
        }
    }
}

} // verus!
