//! The single error type of the marshalling core.
//!
//! Every failure is reported to the caller as one structured value; nothing
//! is retried, since a native call may already have had irreversible side
//! effects.

use vstd::prelude::*;

verus! {

/// The kind of a marshalling failure.
#[derive(Debug, Clone, Copy, PartialEq, Eq, Structural)]
pub enum FfiErrorKind {
    /// A malformed or incomplete type descriptor, found before any native
    /// interaction.
    Descriptor,
    /// The value's runtime shape does not match the declared descriptor;
    /// found at encode time, before any native invocation.
    TypeMismatch,
    /// A handle already released, or an ambiguous copy of an opaque borrowed
    /// pointer; never silently produces a dangling pointer.
    Ownership,
    /// A library or symbol that could not be found; the call never reaches
    /// the native layer.
    Resolution,
    /// A native result that could not be converted back (for example invalid
    /// text encoding); reported after the native call.
    Decode,
}

/// A marshalling failure: a kind plus a human-readable message.
#[derive(Debug, Clone)]
pub struct FfiError {
    pub kind: FfiErrorKind,
    pub message: String,
}

impl FfiError {
    /// Builds an error of the given kind.
    pub fn new(kind: FfiErrorKind, message: String) -> (r: FfiError)
        ensures
            r.kind == kind,
            r.message@ == message@,
    {
        FfiError { kind, message }
    }

    /// A descriptor error.
    pub fn descriptor(message: String) -> (r: FfiError)
        ensures
            r.kind == FfiErrorKind::Descriptor,
            r.message@ == message@,
    {
        FfiError { kind: FfiErrorKind::Descriptor, message }
    }

    /// A type-mismatch error.
    pub fn type_mismatch(message: String) -> (r: FfiError)
        ensures
            r.kind == FfiErrorKind::TypeMismatch,
            r.message@ == message@,
    {
        FfiError { kind: FfiErrorKind::TypeMismatch, message }
    }

    /// An ownership error.
    pub fn ownership(message: String) -> (r: FfiError)
        ensures
            r.kind == FfiErrorKind::Ownership,
            r.message@ == message@,
    {
        FfiError { kind: FfiErrorKind::Ownership, message }
    }

    /// A resolution error.
    pub fn resolution(message: String) -> (r: FfiError)
        ensures
            r.kind == FfiErrorKind::Resolution,
            r.message@ == message@,
    {
        FfiError { kind: FfiErrorKind::Resolution, message }
    }

    /// A decode error.
    pub fn decode(message: String) -> (r: FfiError)
        ensures
            r.kind == FfiErrorKind::Decode,
            r.message@ == message@,
    {
        FfiError { kind: FfiErrorKind::Decode, message }
    }

    /// The kind of this error.
    pub fn kind(&self) -> (r: FfiErrorKind)
        ensures
            r == self.kind,
    {
        self.kind
    }

    /// The message of this error, for reporting to the host.
    pub fn message(&self) -> (r: &String)
        ensures
            r@ == self.message@,
    {
        &self.message
    }
}

} // verus!
