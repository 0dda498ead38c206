//! A guard for one native closure reference.
//!
//! Callback trampolines hand closures across the boundary by pointer.
//! The guard pairs one acquisition — the runtime adds one reference when
//! the guard is created — with exactly one release when the guard is
//! consumed, and refuses to guard a null pointer.

use vstd::prelude::*;

use crate::managed::actions::UnrefAction;

verus! {

/// A request to add one reference to the closure at `ptr`.
#[derive(Debug, Clone, Copy, PartialEq, Eq, Structural)]
pub struct ClosureRef {
    pub ptr: usize,
}

/// A guard owning one reference of a native closure.
#[derive(Debug, Clone, Copy, PartialEq, Eq, Structural)]
pub struct ClosureGuard {
    pub ptr: usize,
}

impl ClosureGuard {
    /// Guards the closure at `ptr`; the runtime performs the returned
    /// ref call, after which the guard owns one reference.
    pub fn new(ptr: usize) -> (r: (ClosureGuard, ClosureRef))
        requires
            ptr != 0,
        ensures
            r.0.ptr == ptr,
            r.1.ptr == ptr,
    {
        (ClosureGuard { ptr }, ClosureRef { ptr })
    }

    /// Guards a possibly-null closure pointer: null yields no guard and
    /// no reference is ever taken on it.
    pub fn from_ptr(ptr: usize) -> (r: Option<(ClosureGuard, ClosureRef)>)
        ensures
            ptr == 0 ==> r is None,
            ptr != 0 ==> (r matches Some(p) && p.0.ptr == ptr && p.1.ptr == ptr),
    {
        if ptr == 0 {
            None
        } else {
            Some(ClosureGuard::new(ptr))
        }
    }

    /// The guarded closure's address.
    pub fn as_ptr(&self) -> (r: usize)
        ensures
            r == self.ptr,
    {
        self.ptr
    }

    /// Consumes the guard and reports the one unref it owes, of exactly
    /// the pointer whose reference it acquired.  Taking `self` by value
    /// makes a second release impossible.
    pub fn release(self, unref_fn: usize) -> (r: UnrefAction)
        ensures
            r == (UnrefAction { func: unref_fn, ptr: self.ptr }),
    {
        UnrefAction { func: unref_fn, ptr: self.ptr }
    }
}

/// Acquisition and release are balanced: the guard built on `ptr` refs
/// `ptr` once, and its release unrefs exactly `ptr` once.
pub proof fn law_closure_guard_balanced(ptr: usize, unref_fn: usize)
    requires
        ptr != 0,
    ensures
        ({
            let g = ClosureGuard { ptr };
            ClosureRef { ptr }.ptr == g.ptr && (UnrefAction { func: unref_fn, ptr: g.ptr }).ptr
                == ptr
        }),
{
}

} // verus!
