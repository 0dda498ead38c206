//! Reference-counted object type descriptor.
//!
//! An object argument passes a native handle; an object result adopts or
//! borrows the reference the call returned, after normalising a floating
//! reference on full transfers.

use vstd::prelude::*;

use crate::types::ownership::Ownership;

verus! {

/// Type descriptor for reference-counted native objects.
#[derive(Debug, Clone, Copy, PartialEq, Eq, Structural)]
pub struct GObjectType {
    /// Who owns the reference that crosses the boundary.
    pub ownership: Ownership,
}

impl GObjectType {
    /// Creates a new object type descriptor from a "borrowed" flag.
    pub fn new(is_borrowed: bool) -> (r: Self)
        ensures
            r.ownership == (if is_borrowed { Ownership::Borrowed } else { Ownership::Full }),
    {
        GObjectType { ownership: Ownership::from_borrowed_flag(is_borrowed) }
    }

    /// Whether the reference is borrowed from the callee.
    pub fn is_borrowed(&self) -> (r: bool)
        ensures
            r == (self.ownership is Borrowed),
    {
        !self.ownership.is_full()
    }
}

} // verus!
