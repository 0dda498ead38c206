//! The call-boundary representation of one argument or return value.
//!
//! A native call sees a closed set of machine-level shapes: fixed-width
//! integers, float bit patterns, a boolean, a raw pointer, or a pointer
//! backed by an intermediate allocation that must outlive the call and be
//! released exactly once afterwards.

use vstd::prelude::*;

verus! {

/// An intermediate allocation whose lifetime must span exactly one native
/// call: what has to be built before the call, and the address the runtime
/// gave it (zero until the runtime materialises it).
#[derive(Debug, Clone, PartialEq, Eq)]
pub struct FfiStorage {
    /// The native address of the materialised allocation; zero while the
    /// plan has not been built yet.
    pub ptr: usize,
    /// What the allocation holds.
    pub kind: FfiStorageKind,
}

/// The contents of an intermediate allocation.
#[derive(Debug, Clone, PartialEq, Eq)]
pub enum FfiStorageKind {
    /// A null-terminated byte buffer for a string argument.
    CStr(Vec<u8>),
    /// A hash table assembled from encoded entries; the runtime builds the
    /// native table from the plan.
    Table(crate::types::hashtable::TablePlan),
    /// A packed flat array of fixed-width values.
    PackedBytes(Vec<u8>),
    /// A list of null-terminated strings.
    CStrList(Vec<Vec<u8>>),
    /// A flat or linked list of native pointers.
    PtrList { kind: crate::types::array::ListType, ptrs: Vec<usize> },
    /// Scratch space for an out-parameter the callee writes into.
    OutParam { byte_size: usize },
}

/// The native representation of one value at the call boundary.  Float
/// values are carried as their IEEE-754 bit patterns.
#[derive(Debug, Clone, PartialEq, Eq)]
pub enum FfiValue {
    U8(u8),
    U16(u16),
    U32(u32),
    U64(u64),
    I8(i8),
    I16(i16),
    I32(i32),
    I64(i64),
    F32(u32),
    F64(u64),
    Bool(bool),
    Ptr(usize),
    /// A native object argument: the pointer passed to the call, and
    /// whether the runtime must add one reference before the call because
    /// the callee consumes one.
    Object { ptr: usize, needs_ref: bool },
    Storage(FfiStorage),
}

impl FfiValue {
    /// The pointer this value passes to the call, for pointer-backed
    /// values: the raw pointer, or the storage's materialised address.
    pub fn pointer(&self) -> (r: Option<usize>)
        ensures
            r == spec_pointer(*self),
    {
        match self {
            FfiValue::Ptr(p) => Some(*p),
            FfiValue::Object { ptr, .. } => Some(*ptr),
            FfiValue::Storage(s) => Some(s.ptr),
            _ => None,
        }
    }
}

/// The pointer a pointer-backed value passes to the call.
pub open spec fn spec_pointer(v: FfiValue) -> Option<usize> {
    match v {
        FfiValue::Ptr(p) => Some(p),
        FfiValue::Object { ptr, .. } => Some(ptr),
        FfiValue::Storage(s) => Some(s.ptr),
        _ => None,
    }
}

} // verus!
