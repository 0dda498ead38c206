//! Ownership tracking for boxed native values.
//!
//! A boxed value is a heap-allocated native struct that is duplicated and
//! released through per-type copy and free functions rather than reference
//! counting.  This wrapper records whether the value is owned, and decides
//! which copy or free step the native runtime must perform; the runtime
//! reports the pointer a copy returned through [`BoxedAcquire::complete`].

use vstd::prelude::*;
use vstd::string::StringExecFns;

use crate::error::{FfiError, FfiErrorKind};
use crate::managed::actions::{CopyRequest, FreeAction};
use crate::managed::owned_ptr::OwnedPtr;

verus! {

/// A boxed native value: an ownership cell plus the optional type identity
/// used to select the copy and free functions.
#[derive(Debug, Clone, Copy, PartialEq, Eq, Structural)]
pub struct Boxed {
    pub inner: OwnedPtr,
    pub gtype: Option<usize>,
}

/// An acquisition that may still need a native copy before the value is
/// safely owned.
#[derive(Debug, Clone, Copy, PartialEq, Eq, Structural)]
pub enum BoxedAcquire {
    /// The value is ready: either null, or already owned.
    Done(Boxed),
    /// The runtime must perform `request`; the resulting pointer is then
    /// adopted with full ownership and type identity `gtype`.
    NeedsCopy { request: CopyRequest, gtype: Option<usize> },
}

/// What adopting a pointer with full ownership yields.
pub open spec fn spec_from_full(gtype: Option<usize>, ptr: usize) -> Boxed {
    Boxed { inner: OwnedPtr { ptr, is_owned: true }, gtype }
}

/// What acquiring a borrowed pointer yields: a copy plan, or the reason it
/// must be rejected.
pub open spec fn spec_acquire_borrowed(
    gtype: Option<usize>,
    ptr: usize,
    size: Option<usize>,
) -> Result<BoxedAcquire, FfiErrorKind> {
    if ptr == 0 {
        Ok(BoxedAcquire::Done(Boxed { inner: OwnedPtr { ptr: 0, is_owned: false }, gtype }))
    } else if gtype is Some {
        Ok(BoxedAcquire::NeedsCopy {
            request: CopyRequest::TypedCopy { gtype: gtype->0, src: ptr },
            gtype,
        })
    } else if size is Some {
        Ok(BoxedAcquire::NeedsCopy {
            request: CopyRequest::ByteCopy { size: size->0, src: ptr },
            gtype: None,
        })
    } else {
        Err(FfiErrorKind::Ownership)
    }
}

/// What cloning a boxed value requires.
pub open spec fn spec_clone_plan(b: Boxed) -> BoxedAcquire {
    if !(b.inner.is_owned && b.inner.ptr != 0) {
        BoxedAcquire::Done(Boxed { inner: OwnedPtr { ptr: b.inner.ptr, is_owned: false }, gtype: b.gtype })
    } else if b.gtype is Some {
        BoxedAcquire::NeedsCopy {
            request: CopyRequest::TypedCopy { gtype: b.gtype->0, src: b.inner.ptr },
            gtype: b.gtype,
        }
    } else {
        BoxedAcquire::Done(Boxed { inner: OwnedPtr { ptr: b.inner.ptr, is_owned: false }, gtype: None })
    }
}

/// The release step a boxed value owes: exactly one free of its pointer
/// when it owns a non-null allocation, and nothing otherwise.
pub open spec fn spec_release(b: Boxed) -> Option<FreeAction> {
    if b.inner.is_owned && b.inner.ptr != 0 {
        if b.gtype is Some {
            Some(FreeAction::TypedFree { gtype: b.gtype->0, ptr: b.inner.ptr })
        } else {
            Some(FreeAction::RawFree { ptr: b.inner.ptr })
        }
    } else {
        None
    }
}

impl Boxed {
    /// Adopts `ptr` with full ownership: no copy is made, and release will
    /// free it through the type's free function when the type is known.
    pub fn from_glib_full(gtype: Option<usize>, ptr: usize) -> (r: Boxed)
        ensures
            r == spec_from_full(gtype, ptr),
    {
        Boxed { inner: OwnedPtr::from_full(ptr), gtype }
    }

    /// Acquires a borrowed pointer: the value must be deep-copied before it
    /// may outlive its source, so this returns the copy the runtime must
    /// perform.  Fails when neither a type identity nor a size is known.
    pub fn from_glib_none(gtype: Option<usize>, ptr: usize) -> (r: Result<BoxedAcquire, FfiError>)
        ensures
            r matches Ok(a) ==> spec_acquire_borrowed(gtype, ptr, None) == Ok::<BoxedAcquire, FfiErrorKind>(a),
            r matches Err(e) ==> spec_acquire_borrowed(gtype, ptr, None) == Err::<BoxedAcquire, FfiErrorKind>(e.kind),
    {
        Boxed::from_glib_none_with_size(gtype, ptr, None, None)
    }

    /// Acquires a borrowed pointer, with an optional known byte size for
    /// types the type system does not know.  An opaque borrowed pointer
    /// with neither a type nor a size is rejected: copying it would be
    /// unsafe, and aliasing it could leave it dangling.
    pub fn from_glib_none_with_size(
        gtype: Option<usize>,
        ptr: usize,
        size: Option<usize>,
        name_hint: Option<&str>,
    ) -> (r: Result<BoxedAcquire, FfiError>)
        ensures
            r matches Ok(a) ==> spec_acquire_borrowed(gtype, ptr, size) == Ok::<BoxedAcquire, FfiErrorKind>(a),
            r matches Err(e) ==> spec_acquire_borrowed(gtype, ptr, size) == Err::<BoxedAcquire, FfiErrorKind>(e.kind),
    {
        if ptr == 0 {
            return Ok(BoxedAcquire::Done(Boxed { inner: OwnedPtr::from_none(0), gtype }));
        }
        match gtype {
            Some(gt) => Ok(BoxedAcquire::NeedsCopy {
                request: CopyRequest::TypedCopy { gtype: gt, src: ptr },
                gtype,
            }),
            None => {
                match size {
                    Some(s) => Ok(BoxedAcquire::NeedsCopy {
                        request: CopyRequest::ByteCopy { size: s, src: ptr },
                        gtype: None,
                    }),
                    None => {
                        let mut message = match name_hint {
                            Some(n) => {
                                let mut m = String::new();
                                m.append("Cannot safely copy boxed type '");
                                m.append(n);
                                m
                            },
                            None => {
                                let mut m = String::new();
                                m.append("Cannot safely copy boxed type '");
                                m.append("unknown");
                                m
                            },
                        };
                        message.append("': no size info or gtype; the pointer may become dangling if the source is freed");
                        Err(FfiError::ownership(message))
                    },
                }
            },
        }
    }

    /// The address held by this value.
    pub fn as_ptr(&self) -> (r: usize)
        ensures
            r == self.inner.ptr,
    {
        self.inner.as_ptr()
    }

    /// The type identity used for copy and free, if known.
    pub fn gtype(&self) -> (r: Option<usize>)
        ensures
            r == self.gtype,
    {
        self.gtype
    }

    /// Whether this value owns its allocation.
    pub fn is_owned(&self) -> (r: bool)
        ensures
            r == self.inner.is_owned,
    {
        self.inner.is_owned()
    }

    /// How to duplicate this value: an owned value with a known type is
    /// deep-copied again; a borrowed one, or an owned one of unknown type,
    /// is aliased without ownership.
    pub fn clone_plan(&self) -> (r: BoxedAcquire)
        ensures
            r == spec_clone_plan(*self),
    {
        if !self.inner.should_free() {
            return BoxedAcquire::Done(Boxed { inner: self.inner.borrow(), gtype: self.gtype });
        }
        match self.gtype {
            Some(gt) => BoxedAcquire::NeedsCopy {
                request: CopyRequest::TypedCopy { gtype: gt, src: self.inner.as_ptr() },
                gtype: self.gtype,
            },
            None => BoxedAcquire::Done(Boxed { inner: self.inner.borrow(), gtype: None }),
        }
    }

    /// Consumes the value and reports the free step it owes: exactly one
    /// free of its own pointer when it owns a non-null allocation, nothing
    /// otherwise.  Taking `self` by value makes a second release of the
    /// same cell impossible.
    pub fn release(self) -> (r: Option<FreeAction>)
        ensures
            r == spec_release(self),
    {
        if self.inner.should_free() {
            match self.gtype {
                Some(gt) => Some(FreeAction::TypedFree { gtype: gt, ptr: self.inner.as_ptr() }),
                None => Some(FreeAction::RawFree { ptr: self.inner.as_ptr() }),
            }
        } else {
            None
        }
    }
}

impl BoxedAcquire {
    /// Adopts the pointer a requested copy returned.
    pub fn complete(self, copied: usize) -> (r: Boxed)
        requires
            self is NeedsCopy,
        ensures
            r == spec_from_full(self->gtype, copied),
    {
        match self {
            BoxedAcquire::NeedsCopy { request: _, gtype } => Boxed::from_glib_full(gtype, copied),
            BoxedAcquire::Done(b) => b,
        }
    }
}

/// A boxed value adopted with full ownership of a non-null pointer reports
/// itself owned, and releasing it yields exactly one free action, aimed at
/// that same pointer.
pub proof fn law_full_adoption_freed_exactly_once(gtype: Option<usize>, ptr: usize)
    requires
        ptr != 0,
    ensures
        spec_from_full(gtype, ptr).inner.is_owned,
        spec_release(spec_from_full(gtype, ptr)) matches Some(a) && (a matches FreeAction::TypedFree { ptr: p, .. } ==> p == ptr) && (a matches FreeAction::RawFree { ptr: p } ==> p == ptr),
{
}

/// Acquiring a borrowed non-null pointer with a known type always plans a
/// deep copy of the source; the acquisition never aliases the source, and
/// releasing the completed value frees only the copy, so the original
/// stays valid.
pub proof fn law_borrowed_with_type_copies(gt: usize, ptr: usize, copied: usize)
    requires
        ptr != 0,
        copied != 0,
    ensures
        spec_acquire_borrowed(Some(gt), ptr, None) == Ok::<BoxedAcquire, FfiErrorKind>(BoxedAcquire::NeedsCopy {
            request: CopyRequest::TypedCopy { gtype: gt, src: ptr },
            gtype: Some(gt),
        }),
        spec_release(spec_from_full(Some(gt), copied)) == Some(FreeAction::TypedFree { gtype: gt, ptr: copied }),
{
}

/// Acquiring a borrowed non-null pointer with neither a type nor a size is
/// an ownership error; no boxed value aliasing the source is ever
/// produced.
pub proof fn law_opaque_borrow_rejected(ptr: usize)
    requires
        ptr != 0,
    ensures
        spec_acquire_borrowed(None, ptr, None) == Err::<BoxedAcquire, FfiErrorKind>(FfiErrorKind::Ownership),
{
}

} // verus!
