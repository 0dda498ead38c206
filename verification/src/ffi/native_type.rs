//! The calling-convention type objects of the foreign-function library.
//!
//! The call interface built for one native call names each slot's
//! machine type through these objects.  The integer type objects are
//! fetched here; the invoker supplies the remaining slots' objects when
//! it builds the interface.

use vstd::prelude::*;

use crate::types::integer::IntegerKind;

verus! {

/// The foreign-function library's type object, opaque to this crate.
#[verifier::external_type_specification]
#[verifier::external_body]
pub struct ExNativeType(libffi::middle::Type);

/// Relies on `libffi::middle::Type::u8`: the unsigned 8-bit type object.
pub assume_specification[ libffi::middle::Type::u8 ]() -> libffi::middle::Type;

/// Relies on `libffi::middle::Type::i8`: the signed 8-bit type object.
pub assume_specification[ libffi::middle::Type::i8 ]() -> libffi::middle::Type;

/// Relies on `libffi::middle::Type::u16`: the unsigned 16-bit type object.
pub assume_specification[ libffi::middle::Type::u16 ]() -> libffi::middle::Type;

/// Relies on `libffi::middle::Type::i16`: the signed 16-bit type object.
pub assume_specification[ libffi::middle::Type::i16 ]() -> libffi::middle::Type;

/// Relies on `libffi::middle::Type::u32`: the unsigned 32-bit type object.
pub assume_specification[ libffi::middle::Type::u32 ]() -> libffi::middle::Type;

/// Relies on `libffi::middle::Type::i32`: the signed 32-bit type object.
pub assume_specification[ libffi::middle::Type::i32 ]() -> libffi::middle::Type;

/// Relies on `libffi::middle::Type::u64`: the unsigned 64-bit type object.
pub assume_specification[ libffi::middle::Type::u64 ]() -> libffi::middle::Type;

/// Relies on `libffi::middle::Type::i64`: the signed 64-bit type object.
pub assume_specification[ libffi::middle::Type::i64 ]() -> libffi::middle::Type;

impl IntegerKind {
    /// The foreign-function library's type object for this integer kind.
    pub fn ffi_type(&self) -> libffi::middle::Type {
        match self {
            IntegerKind::U8 => libffi::middle::Type::u8(),
            IntegerKind::U16 => libffi::middle::Type::u16(),
            IntegerKind::U32 => libffi::middle::Type::u32(),
            IntegerKind::U64 => libffi::middle::Type::u64(),
            IntegerKind::I8 => libffi::middle::Type::i8(),
            IntegerKind::I16 => libffi::middle::Type::i16(),
            IntegerKind::I32 => libffi::middle::Type::i32(),
            IntegerKind::I64 => libffi::middle::Type::i64(),
        }
    }
}

} // verus!
