//! Native actions requested by the ownership wrappers.
//!
//! The wrappers decide *what* has to happen to a native resource; the
//! runtime that owns the native thread performs the action.  Every action
//! names the pointer it touches, so the pairing of acquisitions and
//! releases can be stated and proved.

use vstd::prelude::*;

verus! {

/// A request to duplicate a native allocation before it may be kept.
#[derive(Debug, Clone, Copy, PartialEq, Eq, Structural)]
pub enum CopyRequest {
    /// Deep-copy through the type system's per-type copy function.
    TypedCopy { gtype: usize, src: usize },
    /// Raw byte copy of `size` bytes from `src` into a fresh allocation.
    ByteCopy { size: usize, src: usize },
}

/// A release step owed for an owned native allocation.
#[derive(Debug, Clone, Copy, PartialEq, Eq, Structural)]
pub enum FreeAction {
    /// Free through the type system's per-type free function.
    TypedFree { gtype: usize, ptr: usize },
    /// Free a raw allocation.
    RawFree { ptr: usize },
}

/// A release step owed for a reference-counted native value: call the
/// unref function at address `func` with `ptr`.
#[derive(Debug, Clone, Copy, PartialEq, Eq, Structural)]
pub struct UnrefAction {
    pub func: usize,
    pub ptr: usize,
}

} // verus!
