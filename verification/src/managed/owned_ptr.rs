//! The primitive ownership cell: a native address plus an owned flag.

use vstd::prelude::*;

verus! {

/// A native pointer (held as its address) together with a flag that says
/// whether this cell owns the allocation behind it.
///
/// The invariant of the surrounding wrappers is that the one live owner of
/// an address is the cell whose `is_owned` flag is set; a borrowed copy is a
/// bitwise duplicate with the flag cleared and must never be freed.
#[derive(Debug, Clone, Copy, PartialEq, Eq, Structural)]
pub struct OwnedPtr {
    pub ptr: usize,
    pub is_owned: bool,
}

impl OwnedPtr {
    /// The null cell: address zero, unowned.
    pub fn null() -> (r: Self)
        ensures
            r.ptr == 0,
            !r.is_owned,
    {
        Self { ptr: 0, is_owned: false }
    }

    /// Adopts `ptr` with full ownership: the cell must eventually free it.
    pub fn from_full(ptr: usize) -> (r: Self)
        ensures
            r.ptr == ptr,
            r.is_owned,
    {
        Self { ptr, is_owned: true }
    }

    /// Records `ptr` as borrowed: the cell must never free it.
    pub fn from_none(ptr: usize) -> (r: Self)
        ensures
            r.ptr == ptr,
            !r.is_owned,
    {
        Self { ptr, is_owned: false }
    }

    /// The address held by this cell.
    pub fn as_ptr(&self) -> (r: usize)
        ensures
            r == self.ptr,
    {
        self.ptr
    }

    /// Whether this cell owns the allocation behind its address.
    pub fn is_owned(&self) -> (r: bool)
        ensures
            r == self.is_owned,
    {
        self.is_owned
    }

    /// Whether the address is null.
    pub fn is_null(&self) -> (r: bool)
        ensures
            r == (self.ptr == 0),
    {
        self.ptr == 0
    }

    /// Whether a release step is owed: exactly when the cell owns a
    /// non-null address.
    pub fn should_free(&self) -> (r: bool)
        ensures
            r == (self.is_owned && self.ptr != 0),
    {
        self.is_owned && self.ptr != 0
    }

    /// A borrowed duplicate: same address, ownership cleared.
    pub fn borrow(&self) -> (r: Self)
        ensures
            r.ptr == self.ptr,
            !r.is_owned,
    {
        Self { ptr: self.ptr, is_owned: false }
    }
}

} // verus!
