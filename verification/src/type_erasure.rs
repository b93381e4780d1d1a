//! Operation-specific values that the runtime carries without looking inside.

use vstd::prelude::*;

verus! {

/// A value whose concrete type only the operation's codec knows: the
/// identifier of its logical type and its encoded content. The runtime moves
/// such values around and compares their types, nothing more.
#[derive(Debug)]
pub struct TypeErasedBox {
    type_id: u64,
    content: Vec<u8>,
}

/// The model of a `TypeErasedBox`.
pub struct TypeErasedView {
    pub type_id: u64,
    pub content: Seq<u8>,
}

impl View for TypeErasedBox {
    type V = TypeErasedView;

    closed spec fn view(&self) -> TypeErasedView {
        TypeErasedView { type_id: self.type_id, content: self.content@ }
    }
}

impl TypeErasedBox {
    /// Wraps `content` as a value of the logical type `type_id`.
    pub fn new(type_id: u64, content: Vec<u8>) -> (r: Self)
        ensures
            r@ == (TypeErasedView { type_id, content: content@ }),
    {
        TypeErasedBox { type_id, content }
    }

    /// The identifier of the value's logical type.
    pub fn type_id(&self) -> (r: u64)
        ensures
            r == self@.type_id,
    {
        self.type_id
    }

    /// The encoded content.
    pub fn content(&self) -> (r: &Vec<u8>)
        ensures
            r@ == self@.content,
    {
        &self.content
    }

    /// Unwraps the encoded content.
    pub fn into_content(self) -> (r: Vec<u8>)
        ensures
            r@ == self@.content,
    {
        self.content
    }
}

} // verus!
