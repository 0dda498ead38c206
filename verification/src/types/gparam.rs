//! Parameter-specification type descriptor.
//!
//! A parameter specification is a fundamental reference-counted native
//! type; the descriptor only carries its ownership declaration.

use vstd::prelude::*;

use crate::types::ownership::Ownership;

verus! {

/// Type descriptor for parameter-specification values.
#[derive(Debug, Clone, Copy, PartialEq, Eq, Structural)]
pub struct GParamType {
    /// Who owns the reference that crosses the boundary.
    pub is_borrowed: bool,
}

impl GParamType {
    /// Creates a new descriptor; `is_borrowed` means the caller must not
    /// release the reference.
    pub fn new(is_borrowed: bool) -> (r: Self)
        ensures
            r.is_borrowed == is_borrowed,
    {
        GParamType { is_borrowed }
    }

    /// The equivalent ownership declaration.
    pub fn ownership(&self) -> (r: Ownership)
        ensures
            r == (if self.is_borrowed { Ownership::Borrowed } else { Ownership::Full }),
    {
        Ownership::from_borrowed_flag(self.is_borrowed)
    }
}

} // verus!
