//! The host-level value model.
//!
//! A tagged union standing for one value of the managed host: a number, a
//! string, a boolean, an ordered array, a handle to a native object, or
//! one of the two empty values.  It is independent of any host runtime;
//! the thin host layer converts its own values into this shape at the
//! boundary.

use vstd::prelude::*;

use crate::num::Num;

verus! {

/// A handle to a native object held by the host.  The address is absent
/// once the host has collected or released the object: a stale handle
/// never silently yields a pointer.
#[derive(Debug, Clone, Copy, PartialEq, Eq, Structural)]
pub struct ObjectHandle {
    pub ptr: Option<usize>,
}

impl ObjectHandle {
    /// A live handle to the object at `ptr`.
    pub fn live(ptr: usize) -> (r: ObjectHandle)
        ensures
            r.ptr == Some(ptr),
    {
        ObjectHandle { ptr: Some(ptr) }
    }

    /// A handle whose object is gone.
    pub fn released() -> (r: ObjectHandle)
        ensures
            r.ptr is None,
    {
        ObjectHandle { ptr: None }
    }

    /// The object's address, if it is still alive.
    pub fn get_ptr(&self) -> (r: Option<usize>)
        ensures
            r == self.ptr,
    {
        self.ptr
    }
}

/// One host-level value.
#[derive(Debug, PartialEq, Eq)]
pub enum Value {
    /// The host's null.
    Null,
    /// The host's undefined.
    Undefined,
    /// A number: an IEEE-754 binary64 value.
    Number(Num),
    /// A text string.
    Text(String),
    /// A boolean.
    Boolean(bool),
    /// An ordered sequence of values.
    Array(Vec<Value>),
    /// A handle to a native object.
    Object(ObjectHandle),
}

impl Value {
    /// Whether this is one of the two empty values, which an optional
    /// argument encodes as a null native pointer.
    pub fn is_nullish(&self) -> (r: bool)
        ensures
            r == spec_is_nullish(*self),
    {
        match self {
            Value::Null | Value::Undefined => true,
            _ => false,
        }
    }
}

/// Whether a value is null or undefined.
pub open spec fn spec_is_nullish(v: Value) -> bool {
    v is Null || v is Undefined
}

} // verus!
