//! Ownership declarations on reference-bearing type descriptors.

use vstd::prelude::*;

verus! {

/// Who owns a native resource that crosses the call boundary: exactly one
/// of borrowed (the callee keeps ownership; the receiver must not release
/// it) or full (ownership transfers to the receiver, who must release it).
#[derive(Debug, Clone, Copy, PartialEq, Eq, Structural)]
pub enum Ownership {
    /// The callee retains ownership; the receiver must not free or unref.
    Borrowed,
    /// Ownership transfers to the receiver, who must release it.
    Full,
}

impl Ownership {
    /// Reads the declaration from a "borrowed" flag, absent meaning full
    /// transfer.
    pub fn from_borrowed_flag(borrowed: bool) -> (r: Ownership)
        ensures
            r == (if borrowed { Ownership::Borrowed } else { Ownership::Full }),
    {
        if borrowed {
            Ownership::Borrowed
        } else {
            Ownership::Full
        }
    }

    /// Whether ownership transfers to the receiver.
    pub fn is_full(&self) -> (r: bool)
        ensures
            r == (*self is Full),
    {
        match self {
            Ownership::Full => true,
            Ownership::Borrowed => false,
        }
    }
}

} // verus!
