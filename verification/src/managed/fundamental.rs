//! Ownership tracking for reference-counted fundamental native values.
//!
//! A fundamental value carries explicit ref and unref functions.  For some
//! types the ref function returns a *different* pointer than it was given
//! (copy-on-ref), so every acquisition and clone adopts the pointer the ref
//! function returned, never the one handed in.  The functions themselves
//! are native code; this wrapper holds their addresses and decides which
//! calls the runtime must make.

use vstd::prelude::*;

use crate::managed::actions::UnrefAction;
use crate::managed::owned_ptr::OwnedPtr;

verus! {

/// A fundamental native value: an ownership cell plus the addresses of the
/// type's ref and unref functions, when it has them.
#[derive(Debug, Clone, Copy, PartialEq, Eq, Structural)]
pub struct Fundamental {
    pub inner: OwnedPtr,
    pub ref_fn: Option<usize>,
    pub unref_fn: Option<usize>,
}

/// An acquisition or clone that may still need a native ref call.
#[derive(Debug, Clone, Copy, PartialEq, Eq, Structural)]
pub enum FundamentalAcquire {
    /// The value is ready without any native call.
    Done(Fundamental),
    /// The runtime must call the ref function at `func` with `arg`; the
    /// pointer that call *returns* is then adopted with full ownership.
    NeedsRef { func: usize, arg: usize, ref_fn: Option<usize>, unref_fn: Option<usize> },
}

/// What adopting a pointer with full ownership yields: no re-referencing.
pub open spec fn spec_from_full(
    ptr: usize,
    ref_fn: Option<usize>,
    unref_fn: Option<usize>,
) -> Fundamental {
    Fundamental { inner: OwnedPtr { ptr, is_owned: true }, ref_fn, unref_fn }
}

/// What acquiring a borrowed pointer requires: a ref call when the type
/// has a ref function, otherwise adoption of the pointer as it is.
pub open spec fn spec_acquire_borrowed(
    ptr: usize,
    ref_fn: Option<usize>,
    unref_fn: Option<usize>,
) -> FundamentalAcquire {
    if ptr == 0 {
        FundamentalAcquire::Done(Fundamental {
            inner: OwnedPtr { ptr: 0, is_owned: false },
            ref_fn,
            unref_fn,
        })
    } else if ref_fn is Some {
        FundamentalAcquire::NeedsRef { func: ref_fn->0, arg: ptr, ref_fn, unref_fn }
    } else {
        FundamentalAcquire::Done(spec_from_full(ptr, ref_fn, unref_fn))
    }
}

/// What cloning requires: a ref call when a ref function exists; without
/// one the clone aliases the same pointer while both copies believe they
/// own it, a documented hazard of such types rather than a decision this
/// wrapper may silently correct.
pub open spec fn spec_clone_plan(f: Fundamental) -> FundamentalAcquire {
    if f.inner.ptr == 0 {
        FundamentalAcquire::Done(Fundamental {
            inner: OwnedPtr { ptr: 0, is_owned: false },
            ref_fn: f.ref_fn,
            unref_fn: f.unref_fn,
        })
    } else if f.ref_fn is Some {
        FundamentalAcquire::NeedsRef { func: f.ref_fn->0, arg: f.inner.ptr, ref_fn: f.ref_fn, unref_fn: f.unref_fn }
    } else {
        FundamentalAcquire::Done(spec_from_full(f.inner.ptr, f.ref_fn, f.unref_fn))
    }
}

/// The release step owed: one unref of the held pointer, exactly when the
/// value owns a non-null pointer and an unref function exists.
pub open spec fn spec_release(f: Fundamental) -> Option<UnrefAction> {
    if f.inner.is_owned && f.inner.ptr != 0 && f.unref_fn is Some {
        Some(UnrefAction { func: f.unref_fn->0, ptr: f.inner.ptr })
    } else {
        None
    }
}

impl Fundamental {
    /// Adopts `ptr` with full ownership: the reference the callee handed
    /// over is taken as-is, without calling the ref function again.
    pub fn from_glib_full(
        ptr: usize,
        ref_fn: Option<usize>,
        unref_fn: Option<usize>,
    ) -> (r: Fundamental)
        ensures
            r == spec_from_full(ptr, ref_fn, unref_fn),
    {
        Fundamental { inner: OwnedPtr::from_full(ptr), ref_fn, unref_fn }
    }

    /// Acquires a borrowed pointer.  When the type has a ref function the
    /// runtime must call it and adopt the returned pointer, which for
    /// copy-on-ref types differs from the argument; without one the
    /// pointer is adopted directly.
    pub fn from_glib_none(
        ptr: usize,
        ref_fn: Option<usize>,
        unref_fn: Option<usize>,
    ) -> (r: FundamentalAcquire)
        ensures
            r == spec_acquire_borrowed(ptr, ref_fn, unref_fn),
    {
        if ptr == 0 {
            return FundamentalAcquire::Done(Fundamental {
                inner: OwnedPtr::null(),
                ref_fn,
                unref_fn,
            });
        }
        match ref_fn {
            Some(f) => FundamentalAcquire::NeedsRef { func: f, arg: ptr, ref_fn, unref_fn },
            None => FundamentalAcquire::Done(Fundamental {
                inner: OwnedPtr::from_full(ptr),
                ref_fn,
                unref_fn,
            }),
        }
    }

    /// The address held by this value.
    pub fn as_ptr(&self) -> (r: usize)
        ensures
            r == self.inner.ptr,
    {
        self.inner.as_ptr()
    }

    /// Whether this value owns its reference.
    pub fn is_owned(&self) -> (r: bool)
        ensures
            r == self.inner.is_owned,
    {
        self.inner.is_owned()
    }

    /// How to duplicate this value; see [`spec_clone_plan`] for the alias
    /// hazard of types without a ref function.
    pub fn clone_plan(&self) -> (r: FundamentalAcquire)
        ensures
            r == spec_clone_plan(*self),
    {
        if self.inner.is_null() {
            return FundamentalAcquire::Done(Fundamental {
                inner: OwnedPtr::null(),
                ref_fn: self.ref_fn,
                unref_fn: self.unref_fn,
            });
        }
        match self.ref_fn {
            Some(f) => FundamentalAcquire::NeedsRef {
                func: f,
                arg: self.inner.as_ptr(),
                ref_fn: self.ref_fn,
                unref_fn: self.unref_fn,
            },
            None => FundamentalAcquire::Done(Fundamental {
                inner: OwnedPtr::from_full(self.inner.as_ptr()),
                ref_fn: self.ref_fn,
                unref_fn: self.unref_fn,
            }),
        }
    }

    /// Consumes the value and reports the unref it owes: exactly one, of
    /// its own pointer, when it owns a non-null reference and an unref
    /// function exists; nothing otherwise.  Taking `self` by value makes a
    /// second release impossible.
    pub fn release(self) -> (r: Option<UnrefAction>)
        ensures
            r == spec_release(self),
    {
        if self.inner.should_free() {
            match self.unref_fn {
                Some(f) => Some(UnrefAction { func: f, ptr: self.inner.as_ptr() }),
                None => None,
            }
        } else {
            None
        }
    }
}

impl FundamentalAcquire {
    /// Adopts the pointer the requested ref call returned.
    pub fn complete(self, returned: usize) -> (r: Fundamental)
        requires
            self is NeedsRef,
        ensures
            r == spec_from_full(returned, self->ref_fn, self->unref_fn),
    {
        match self {
            FundamentalAcquire::NeedsRef { func: _, arg: _, ref_fn, unref_fn } => {
                Fundamental::from_glib_full(returned, ref_fn, unref_fn)
            },
            FundamentalAcquire::Done(f) => f,
        }
    }
}

/// For a value with both ref and unref functions, cloning requests exactly
/// one ref call, and releasing the completed clone requests exactly one
/// unref of the pointer that ref call returned: each clone paired with its
/// release leaves the native reference count unchanged, whatever pointer
/// the ref function chose to return.
pub proof fn law_clone_release_balanced(f: Fundamental, returned: usize)
    requires
        f.inner.ptr != 0,
        f.ref_fn is Some,
        f.unref_fn is Some,
        returned != 0,
    ensures
        spec_clone_plan(f) matches FundamentalAcquire::NeedsRef { func, arg, .. }
            && func == f.ref_fn->0 && arg == f.inner.ptr,
        spec_release(spec_from_full(returned, f.ref_fn, f.unref_fn))
            == Some(UnrefAction { func: f.unref_fn->0, ptr: returned }),
{
}

/// Releasing the original value after its clones yields one unref of its
/// own pointer, so an acquisition that performed one ref is balanced by
/// exactly one unref.
pub proof fn law_release_owned_once(f: Fundamental)
    requires
        f.inner.is_owned,
        f.inner.ptr != 0,
        f.unref_fn is Some,
    ensures
        spec_release(f) == Some(UnrefAction { func: f.unref_fn->0, ptr: f.inner.ptr }),
{
}

} // verus!
