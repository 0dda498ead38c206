//! The closed sum of runtime type descriptors.
//!
//! Every FFI-representable shape is one variant; each encode or decode
//! site matches exhaustively, so adding a native shape is a new variant
//! plus new match arms, never an open-ended hierarchy.

use vstd::prelude::*;

use crate::types::array::ArrayType;
use crate::types::boxed_type::BoxedType;
use crate::types::float::FloatType;
use crate::types::gobject::GObjectType;
use crate::types::gparam::GParamType;
use crate::types::hashtable::HashTableType;
use crate::types::integer::IntegerType;
use crate::types::ref_type::RefType;
use crate::types::string::StringType;

verus! {

/// A type descriptor for a native struct passed by pointer.
#[derive(Debug, Clone, Copy, PartialEq, Eq, Structural)]
pub struct StructType {
    /// Whether the struct memory is borrowed from the callee.
    pub is_borrowed: bool,
}

/// A type descriptor for a fundamental reference-counted native type,
/// whose ref and unref functions the runtime resolves by address.
#[derive(Debug, Clone, Copy, PartialEq, Eq, Structural)]
pub struct FundamentalType {
    /// Whether the reference is borrowed from the callee.
    pub is_borrowed: bool,
    /// The address of the type's ref function, when known.
    pub ref_fn: Option<usize>,
    /// The address of the type's unref function, when known.
    pub unref_fn: Option<usize>,
}

/// One runtime type descriptor, immutable once constructed.
#[derive(Debug, PartialEq, Eq)]
pub enum TypeDesc {
    /// A fixed-width integer.
    Integer(IntegerType),
    /// A floating point number.
    Float(FloatType),
    /// A boolean.
    Boolean,
    /// A null-terminated string.
    Text(StringType),
    /// An array or native list.
    Array(ArrayType),
    /// An out-parameter holding the inner type.
    Ref(RefType),
    /// A boxed native value copied and freed through its type.
    Boxed(BoxedType),
    /// A reference-counted native object.
    GObject(GObjectType),
    /// A parameter specification.
    GParam(GParamType),
    /// A native hash table.
    HashTable(HashTableType),
    /// A native struct passed by pointer.
    Struct(StructType),
    /// A fundamental reference-counted native value.
    Fundamental(FundamentalType),
}

} // verus!
