//! Reference (out-parameter) type descriptor.
//!
//! A ref argument passes a pointer to caller-allocated scratch space; the
//! callee writes its result there, and decoding reads it back through the
//! inner type.

use vstd::prelude::*;

use crate::types::TypeDesc;

verus! {

/// TypeDesc descriptor for reference (out-parameter) types.
#[derive(Debug, PartialEq, Eq)]
pub struct RefType {
    /// The type of value the callee writes through the reference.
    pub inner_type: Box<TypeDesc>,
}

impl RefType {
    /// Creates a new ref type with the given inner type.
    pub fn new(inner_type: TypeDesc) -> (r: Self)
        ensures
            r.inner_type == Box::new(inner_type),
    {
        RefType { inner_type: Box::new(inner_type) }
    }
}

} // verus!
