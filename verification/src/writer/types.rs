//! Writing type definitions.

use super::Writer;
use crate::emission;
use crate::emission::Emission;
use crate::error::{Error, Stop};
use crate::ir::{
    ArraySize, GlobalHandle, ImageClass, ImageDimension, Module, ScalarKind, StructMember,
    TypeHandle, TypeInner,
};
use crate::keyword;
use vstd::prelude::*;

verus! {

broadcast use crate::emission::group_made;

/// Finds the first global variable of type `ty`, if there is one.
fn find_global_of(module: &Module, ty: TypeHandle) -> (global: Option<GlobalHandle>)
    ensures
        match global {
            Some(global) => module.is_first_global_of(ty, global as int) && global
                == module.first_global_of(ty),
            None => forall|global: int| !module.is_first_global_of(ty, global),
        },
{
    let mut i: usize = 0;
    while i < module.global_variables.len()
        invariant
            i <= module.global_variables.len(),
            forall|other: int|
                0 <= other < i ==> (#[trigger] module.global_variables@[other]).ty != ty,
        decreases module.global_variables.len() - i,
    {
        if module.global_variables[i].ty == ty {
            proof {
                module.lemma_first_global_of(ty, i as int);
            }
            return Some(i);
        }
        i = i + 1;
    }
    None
}

impl Writer {
    /// Appends the definitions of the types.
    pub(super) fn write_type_defs(&mut self, module: &Module) -> (outcome: Result<(), Stop>)
        ensures
            module.type_defs_text().made(old(self)@, final(self)@, outcome),
    {
        let ghost steps = module.type_def_list();
        proof {
            emission::lemma_made_none(steps, self@);
        }
        let mut i: usize = 0;
        while i < module.types.len()
            invariant
                i <= module.types@.len(),
                steps == module.type_def_list(),
                Emission::all(steps.take(i as int)).made(old(self)@, self@, Ok(())),
            decreases module.types@.len() - i,
        {
            proof {
                emission::lemma_all_at(steps, i as int);
            }
            self.put_type_def(i, module)?;
            i = i + 1;
        }
        assert(steps.take(i as int) =~= steps);
        Ok(())
    }

    /// Appends the definition of a type.
    fn put_type_def(&mut self, handle: TypeHandle, module: &Module) -> (outcome: Result<(), Stop>)
        requires
            handle < module.types@.len(),
        ensures
            module.type_def_text(handle).made(old(self)@, final(self)@, outcome),
    {
        proof {
            emission::lemma_made_none(Seq::empty(), self@);
        }
        let name = module.types[handle].name.as_str();
        match &module.types[handle].inner {
            TypeInner::Scalar { kind, .. } => {
                self.put("typedef ");
                self.put(keyword::scalar_kind_string(*kind));
                self.put(" ");
                self.put(name);
            },
            TypeInner::Vector { size, kind, .. } => {
                self.put("typedef metal::");
                self.put(keyword::scalar_kind_string(*kind));
                self.put(keyword::vector_size_string(*size));
                self.put(" ");
                self.put(name);
            },
            TypeInner::Matrix { columns, rows, .. } => {
                self.put("typedef metal::");
                self.put(keyword::scalar_kind_string(ScalarKind::Float));
                self.put(keyword::vector_size_string(*columns));
                self.put("x");
                self.put(keyword::vector_size_string(*rows));
                self.put(" ");
                self.put(name);
            },
            TypeInner::Pointer { base, class } => {
                if *base >= module.types.len() {
                    return self.miss();
                }
                let class_name = match keyword::pointer_class_string(*class) {
                    Some(class_name) => class_name,
                    None => {
                        return Ok(());
                    },
                };
                self.put("typedef ");
                self.put(class_name);
                self.put(" ");
                self.put(module.types[*base].name.as_str());
                self.put(" *");
                self.put(name);
            },
            TypeInner::Array { base, size, .. } => {
                self.put("typedef ");
                self.put_type(*base, module)?;
                self.put(" ");
                self.put(name);
                self.put("[");
                match size {
                    ArraySize::Constant(const_handle) => {
                        self.put_constant(*const_handle, module)?;
                    },
                    ArraySize::Dynamic => {
                        self.put("1");
                    },
                }
                self.put("]");
            },
            TypeInner::Struct { members, .. } => {
                self.put("struct ");
                self.put(name);
                self.put(" {\n");
                self.put_members(members, module)?;
                self.put("}");
            },
            TypeInner::Image { dim, arrayed, class } => {
                self.put_image(handle, *dim, *arrayed, *class, module)?;
                self.put(" ");
                self.put(name);
            },
            TypeInner::Sampler { .. } => {
                self.put("typedef metal::sampler ");
                self.put(name);
            },
        }
        self.put(";\n");
        self.put("\n");
        Ok(())
    }

    /// Appends the lines that declare the members of a structure.
    fn put_members(&mut self, members: &Vec<StructMember>, module: &Module) -> (outcome: Result<
        (),
        Stop,
    >)
        ensures
            Emission::all(module.member_texts(members@)).made(old(self)@, final(self)@, outcome),
    {
        let ghost steps = module.member_texts(members@);
        proof {
            emission::lemma_made_none(steps, self@);
        }
        let mut i: usize = 0;
        while i < members.len()
            invariant
                i <= members@.len(),
                steps == module.member_texts(members@),
                Emission::all(steps.take(i as int)).made(old(self)@, self@, Ok(())),
            decreases members@.len() - i,
        {
            proof {
                emission::lemma_all_at(steps, i as int);
            }
            let member = &members[i];
            self.put("    ");
            self.put_type(member.ty, module)?;
            self.put(" ");
            self.put(member.name.as_str());
            self.put(";\n");
            i = i + 1;
        }
        assert(steps.take(i as int) =~= steps);
        Ok(())
    }

    /// Appends the texture type of an image.
    fn put_image(
        &mut self,
        handle: TypeHandle,
        dim: ImageDimension,
        arrayed: bool,
        class: ImageClass,
        module: &Module,
    ) -> (outcome: Result<(), Stop>)
        ensures
            module.image_text(handle, dim, arrayed, class).made(old(self)@, final(self)@, outcome),
    {
        let (texture_str, msaa_str, kind, access) = match class {
            ImageClass::Sampled { kind, multi } => (
                "texture",
                if multi {
                    "_ms"
                } else {
                    ""
                },
                kind,
                "sample",
            ),
            ImageClass::Depth => ("depth", "", ScalarKind::Float, "sample"),
            ImageClass::Storage(kind) => {
                let global = match find_global_of(module, handle) {
                    Some(found) => &module.global_variables[found],
                    None => {
                        return self.miss();
                    },
                };
                match keyword::access_string(global.storage_access) {
                    Some(access) => ("texture", "", kind, access),
                    None => {
                        return self.fail(Error::InvalidImageAccess(global.storage_access));
                    },
                }
            },
        };
        let array_str = if arrayed {
            "_array"
        } else {
            ""
        };
        self.put("typedef ");
        self.put("metal::");
        self.put(texture_str);
        self.put(keyword::dimension_string(dim));
        self.put(msaa_str);
        self.put(array_str);
        self.put("<");
        self.put(keyword::scalar_kind_string(kind));
        self.put(", metal::access::");
        self.put(access);
        self.put(">");
        Ok(())
    }
}

} // verus!
