//! Array type descriptor.
//!
//! An array argument names its item type and which native list shape
//! carries it: a flat C array, a singly- or doubly-linked list, or a
//! pointer array.

use vstd::prelude::*;

use crate::types::string::eq_str;
use crate::types::TypeDesc;

verus! {

/// The underlying native list shape of an array type.
#[derive(Debug, Clone, Copy, PartialEq, Eq, Structural)]
pub enum ListType {
    /// Flat C array: null-terminated for strings, sized otherwise.
    Array,
    /// Doubly-linked native list.
    GList,
    /// Singly-linked native list.
    GSList,
    /// Reference-counted native pointer array.
    GPtrArray,
}

impl ListType {
    /// Selects the list shape a descriptor names; an absent or unknown
    /// name means the flat array.
    pub fn from_name(name: &str) -> (r: ListType)
        ensures
            name@ == "glist"@ ==> r == ListType::GList,
            name@ == "gslist"@ ==> r == ListType::GSList,
    {
        proof {
            reveal_strlit("glist");
            reveal_strlit("gslist");
            assert("glist"@.len() == 5 && "gslist"@.len() == 6);
            assert("glist"@ != "gslist"@);
        }
        if eq_str(name, "glist") {
            ListType::GList
        } else if eq_str(name, "gslist") {
            ListType::GSList
        } else {
            ListType::Array
        }
    }
}

/// TypeDesc descriptor for array types.
#[derive(Debug, PartialEq, Eq)]
pub struct ArrayType {
    /// The type of elements in the array.
    pub item_type: Box<TypeDesc>,
    /// The underlying native list shape.
    pub list_type: ListType,
    /// Whether the array memory is borrowed from the callee.
    pub is_borrowed: bool,
}

impl ArrayType {
    /// Creates a new flat-array type with the given item type, owned by
    /// the receiver.
    pub fn new(item_type: TypeDesc) -> (r: Self)
        ensures
            r.item_type == Box::new(item_type),
            r.list_type == ListType::Array,
            !r.is_borrowed,
    {
        ArrayType { item_type: Box::new(item_type), list_type: ListType::Array, is_borrowed: false }
    }
}

} // verus!
