//! The registry that tells the two growable buffer types from every other type.

use vstd::prelude::*;

verus! {

/// The identity of a nominal type, as the host's type tables number it.
#[derive(Clone, Copy, Debug, PartialEq, Eq, Structural)]
pub struct TypeId(pub u64);

/// What a receiver type is to this rule.
#[derive(Clone, Copy, Debug, PartialEq, Eq, Structural)]
pub enum BufferKind {
    /// The growable, heap-backed array.
    DynamicArray,
    /// The growable, heap-backed text buffer.
    TextBuffer,
    /// Any other type, and a receiver whose type is not known.
    Other,
}

/// The identities under which the host knows the two buffer types.
#[derive(Clone, Copy, Debug)]
pub struct TypeRegistry {
    pub dynamic_array: TypeId,
    pub text_buffer: TypeId,
}

impl TypeRegistry {
    /// The kind of a resolved receiver type: a type is recognised by its
    /// identity alone, the array type before the text buffer type, and an
    /// unresolved receiver is recognised as neither.
    pub open spec fn kind_of(self, ty: Option<TypeId>) -> BufferKind {
        match ty {
            Some(id) => if id == self.dynamic_array {
                BufferKind::DynamicArray
            } else if id == self.text_buffer {
                BufferKind::TextBuffer
            } else {
                BufferKind::Other
            },
            None => BufferKind::Other,
        }
    }

    pub fn new(dynamic_array: TypeId, text_buffer: TypeId) -> (registry: TypeRegistry)
        ensures
            registry.dynamic_array == dynamic_array,
            registry.text_buffer == text_buffer,
    {
        TypeRegistry { dynamic_array, text_buffer }
    }

    /// Classifies a receiver type.
    pub fn classify(&self, ty: Option<TypeId>) -> (kind: BufferKind)
        ensures
            kind == self.kind_of(ty),
    {
        match ty {
            Some(id) => {
                if id == self.dynamic_array {
                    BufferKind::DynamicArray
                } else if id == self.text_buffer {
                    BufferKind::TextBuffer
                } else {
                    BufferKind::Other
                }
            },
            None => BufferKind::Other,
        }
    }
}

} // verus!
