//! A typed argument for one native function call.

use vstd::prelude::*;

use crate::types::TypeDesc;
use crate::value::Value;

verus! {

/// A typed argument: the type descriptor, the value, and whether the
/// argument may be null or undefined.  When `optional` is set, every
/// encoder accepts an empty value by producing a null native pointer.
#[derive(Debug)]
pub struct Arg {
    /// The type descriptor for this argument.
    pub type_: TypeDesc,
    /// The actual value.
    pub value: Value,
    /// Whether this argument can accept null or undefined.
    pub optional: bool,
}

impl Arg {
    /// Creates a new non-optional argument.
    pub fn new(type_: TypeDesc, value: Value) -> (r: Self)
        ensures
            r.type_ == type_,
            r.value == value,
            !r.optional,
    {
        Arg { type_, value, optional: false }
    }

    /// Creates a new argument with an explicit optional flag.
    pub fn new_optional(type_: TypeDesc, value: Value, optional: bool) -> (r: Self)
        ensures
            r.type_ == type_,
            r.value == value,
            r.optional == optional,
    {
        Arg { type_, value, optional }
    }
}

} // verus!
