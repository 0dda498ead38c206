//! Ownership-tracking FFI marshalling core.
//!
//! Converts host-level values to native calling-convention
//! representations and back, guided by runtime type descriptors, while
//! tracking who owns each native resource so that it is released exactly
//! once.  Native effects — copies, frees, ref and unref calls, the
//! foreign call itself — are decided here and performed by the thin
//! runtime around this crate.

mod arg;
mod closure;
mod dispatch;
mod error;
mod ffi;
mod managed;
mod num;
mod queue;
mod registry;
mod types;
mod value;
mod wait_signal;

pub use arg::Arg;
pub use closure::{ClosureGuard, ClosureRef};
pub use dispatch::{
    decode_return, plan_call, CallArg, CallPlan, CallResult, FfiArg, FfiTypeTag, RawReturn,
    ReturnKind,
};
pub use error::{FfiError, FfiErrorKind};
pub use ffi::compound::ArrayCategory;
pub use ffi::encode::{DecodeOutcome, FfiDecode, FfiEncode};
pub use ffi::value::{FfiStorage, FfiStorageKind, FfiValue};
pub use managed::actions::{CopyRequest, FreeAction, UnrefAction};
pub use managed::boxed::{Boxed, BoxedAcquire};
pub use managed::fundamental::{Fundamental, FundamentalAcquire};
pub use managed::owned_ptr::OwnedPtr;
pub use num::Num;
pub use queue::DispatchQueue;
pub use registry::ObjectRegistry;
pub use types::array::{ArrayType, ListType};
pub use types::boxed_type::BoxedType;
pub use types::descriptor::{FundamentalType, StructType, TypeDesc};
pub use types::float::{FloatKind, FloatSize, FloatType};
pub use types::gobject::GObjectType;
pub use types::gparam::GParamType;
pub use types::hashtable::{
    cell_to_value, decode_entries, EntryRepr, EqualFunc, FreeFunc, HashFunc,
    HashTableEntryEncoder, HashTableType, RawCell, TablePlan,
};
pub use types::integer::{IntegerKind, IntegerSign, IntegerSize, IntegerType};
pub use types::ownership::Ownership;
pub use types::ref_type::RefType;
pub use types::string::{c_string_bytes, decode_c_string, StringType};
pub use value::{ObjectHandle, Value};
pub use wait_signal::WaitSignal;
