//! Encoding for compound descriptors — arrays and out-parameters — and
//! the exhaustive dispatch over the whole descriptor sum.
//!
//! Every encode site matches the closed descriptor sum exhaustively:
//! adding a native shape is a new variant and new match arms here, never
//! an open-ended hierarchy.

use vstd::prelude::*;
use vstd::utf8::encode_utf8;

use crate::arg::Arg;
use crate::error::{FfiError, FfiErrorKind};
use crate::ffi::encode::{DecodeOutcome, FfiDecode, FfiEncode};
use crate::ffi::value::{FfiStorage, FfiStorageKind, FfiValue};
use crate::types::array::ArrayType;
use crate::types::descriptor::TypeDesc;
use crate::types::float::{spec_float_byte_size, FloatKind};
use crate::types::hashtable::{spec_handle_ok, spec_handle_word};
use crate::types::integer::{spec_byte_size, spec_kind_of, IntegerKind};
use crate::types::ref_type::RefType;
use crate::types::string::{c_string_bytes, spec_no_interior_nul};
use crate::value::{spec_is_nullish, Value};

verus! {

/// The scratch size of an out-parameter slot: the inner type's machine
/// width for numerics and booleans, a pointer-sized word for everything
/// else.
pub open spec fn spec_ref_slot_size(inner: TypeDesc) -> nat {
    match inner {
        TypeDesc::Integer(t) => spec_byte_size(spec_kind_of(t)),
        TypeDesc::Float(t) => match t.size {
            crate::types::float::FloatSize::_32 => 4,
            crate::types::float::FloatSize::_64 => 8,
        },
        TypeDesc::Boolean => 1,
        _ => 8,
    }
}

impl FfiEncode for RefType {
    open spec fn encode_can(&self, value: Value, optional: bool) -> bool {
        true
    }

    open spec fn encode_ok(&self, value: Value, optional: bool, r: FfiValue) -> bool {
        r matches FfiValue::Storage(st) && st.ptr == 0 && st.kind == (FfiStorageKind::OutParam {
            byte_size: spec_ref_slot_size(*self.inner_type) as usize,
        })
    }

    open spec fn encode_err(&self, value: Value, optional: bool, kind: FfiErrorKind) -> bool {
        false
    }

    /// An out-parameter passes caller-allocated scratch the callee writes
    /// into; the incoming value is not consulted.
    fn encode(&self, value: &Value, optional: bool) -> (r: Result<FfiValue, FfiError>) {
        let byte_size: usize = match &*self.inner_type {
            TypeDesc::Integer(t) => t.kind().byte_size(),
            TypeDesc::Float(t) => t.kind().byte_size(),
            TypeDesc::Boolean => 1,
            _ => 8,
        };
        Ok(FfiValue::Storage(FfiStorage { ptr: 0, kind: FfiStorageKind::OutParam { byte_size } }))
    }
}

impl FfiDecode for RefType {
    open spec fn decode_can(&self, v: FfiValue) -> bool {
        v matches FfiValue::Storage(st) && st.kind is OutParam
    }

    open spec fn decode_ok(&self, v: FfiValue, o: DecodeOutcome) -> bool {
        v matches FfiValue::Storage(st) && (st.kind matches FfiStorageKind::OutParam { byte_size }
            && o == (DecodeOutcome::NeedsBytes { ptr: st.ptr, byte_size }))
    }

    /// Decoding an out-parameter reads back its scratch after the call;
    /// the runtime reads the bytes and the inner codec interprets them.
    fn decode(&self, v: &FfiValue) -> (r: Result<DecodeOutcome, FfiError>) {
        match v {
            FfiValue::Storage(st) => match st.kind {
                FfiStorageKind::OutParam { byte_size } => Ok(DecodeOutcome::NeedsBytes {
                    ptr: st.ptr,
                    byte_size,
                }),
                _ => Err(FfiError::decode(
                    "out-parameter scratch is missing its allocation".to_owned(),
                )),
            },
            _ => Err(FfiError::decode(
                "out-parameter scratch is missing its allocation".to_owned(),
            )),
        }
    }

    fn decode_with_context(
        &self,
        v: &FfiValue,
        ffi_args: &Vec<FfiValue>,
        args: &Vec<Arg>,
    ) -> (r: Result<DecodeOutcome, FfiError>) {
        let _ = ffi_args;
        let _ = args;
        self.decode(v)
    }
}

impl RefType {
    /// Interprets the scratch bytes the callee wrote through the inner
    /// type's byte codec, succeeding exactly when the byte count is the
    /// inner type's slot width: numbers read back exactly (under `2^53`),
    /// booleans as a non-zero test, handles as a pointer word with zero
    /// as null.
    pub fn decode_bytes(&self, bytes: &[u8]) -> (r: Result<Value, FfiError>)
        ensures
            r is Ok <==> bytes@.len() == spec_ref_slot_size(*self.inner_type),
            r matches Ok(val) ==> match *self.inner_type {
                TypeDesc::Integer(t) => val matches Value::Number(n) && {
                    let v = crate::types::integer::spec_read(spec_kind_of(t), bytes@);
                    -0x20_0000_0000_0000 < v < 0x20_0000_0000_0000 ==> crate::num::trunc_i64(
                        n.bits,
                    ) == v
                },
                TypeDesc::Float(t) => val matches Value::Number(n) && (t.size
                    == crate::types::float::FloatSize::_64 ==> n.bits
                    == crate::types::float::spec_float_read(FloatKind::F64, bytes@)),
                TypeDesc::Boolean => val == Value::Boolean(bytes@[0] != 0),
                _ => {
                    let word = vstd::bytes::spec_u64_from_le_bytes(bytes@);
                    if word == 0 {
                        val == Value::Null
                    } else {
                        val == Value::Object(
                            crate::value::ObjectHandle { ptr: Some(word as usize) },
                        )
                    }
                },
            },
            r matches Err(e) ==> e.kind == FfiErrorKind::Decode,
    {
        match &*self.inner_type {
            TypeDesc::Integer(t) => {
                let kind = t.kind();
                if bytes.len() != kind.byte_size() {
                    return Err(FfiError::decode(
                        "out-parameter scratch has the wrong width".to_owned(),
                    ));
                }
                Ok(Value::Number(kind.read_num(bytes)))
            },
            TypeDesc::Float(t) => {
                let kind = t.kind();
                if bytes.len() != kind.byte_size() {
                    return Err(FfiError::decode(
                        "out-parameter scratch has the wrong width".to_owned(),
                    ));
                }
                Ok(Value::Number(kind.read_num(bytes)))
            },
            TypeDesc::Boolean => {
                if bytes.len() != 1 {
                    return Err(FfiError::decode(
                        "out-parameter scratch has the wrong width".to_owned(),
                    ));
                }
                Ok(Value::Boolean(bytes[0] != 0))
            },
            _ => {
                if bytes.len() != 8 {
                    return Err(FfiError::decode(
                        "out-parameter scratch has the wrong width".to_owned(),
                    ));
                }
                let word: u64 = vstd::bytes::u64_from_le_bytes(bytes);
                if word == 0 {
                    Ok(Value::Null)
                } else {
                    Ok(Value::Object(crate::value::ObjectHandle::live(word as usize)))
                }
            },
        }
    }
}

/// The element category an array descriptor stores, deciding the native
/// layout of the whole argument.
pub open spec fn spec_array_category(item: TypeDesc) -> Option<ArrayCategory> {
    match item {
        TypeDesc::Integer(t) => Some(ArrayCategory::Packed(spec_kind_of(t))),
        TypeDesc::Float(t) => Some(
            ArrayCategory::PackedFloat(
                match t.size {
                    crate::types::float::FloatSize::_32 => FloatKind::F32,
                    crate::types::float::FloatSize::_64 => FloatKind::F64,
                },
            ),
        ),
        TypeDesc::Text(_) => Some(ArrayCategory::Strings),
        TypeDesc::GObject(_) | TypeDesc::Boxed(_) | TypeDesc::GParam(_) | TypeDesc::Struct(_)
            | TypeDesc::Fundamental(_) => Some(ArrayCategory::Handles),
        _ => None,
    }
}

/// How an array's items are laid out natively.
#[derive(Debug, Clone, Copy, PartialEq, Eq, Structural)]
pub enum ArrayCategory {
    /// Fixed-width integers packed back to back.
    Packed(IntegerKind),
    /// Float bit patterns packed back to back.
    PackedFloat(FloatKind),
    /// Null-terminated strings, one buffer each.
    Strings,
    /// Native handles, one pointer word each.
    Handles,
}

impl FfiEncode for ArrayType {
    open spec fn encode_can(&self, value: Value, optional: bool) -> bool {
        ||| (match value {
            Value::Array(items) => match spec_array_category(*self.item_type) {
                Some(ArrayCategory::Packed(_)) | Some(ArrayCategory::PackedFloat(_)) => forall|
                    i: int,
                |
                    0 <= i < items@.len() ==> (#[trigger] items@[i]) is Number,
                Some(ArrayCategory::Strings) => forall|i: int|
                    0 <= i < items@.len() ==> ((#[trigger] items@[i]) matches Value::Text(s)
                        && spec_no_interior_nul(encode_utf8(s@))),
                Some(ArrayCategory::Handles) => forall|i: int|
                    0 <= i < items@.len() ==> spec_handle_ok(#[trigger] items@[i]),
                None => false,
            },
            _ => false,
        })
        ||| (optional && spec_is_nullish(value))
    }

    open spec fn encode_ok(&self, value: Value, optional: bool, r: FfiValue) -> bool {
        match value {
            Value::Array(items) => r matches FfiValue::Storage(st) && st.ptr == 0 && match
                spec_array_category(*self.item_type) {
                Some(ArrayCategory::Packed(k)) => st.kind matches FfiStorageKind::PackedBytes(d)
                    && d@.len() == items@.len() * spec_byte_size(k),
                Some(ArrayCategory::PackedFloat(k)) => st.kind matches
                    FfiStorageKind::PackedBytes(d) && d@.len() == items@.len()
                    * spec_float_byte_size(k),
                Some(ArrayCategory::Strings) => st.kind matches FfiStorageKind::CStrList(bs)
                    && bs@.len() == items@.len() && (forall|i: int|
                    0 <= i < items@.len() ==> (#[trigger] items@[i] matches Value::Text(s)
                        && bs@[i]@ == encode_utf8(s@) + seq![0u8])),
                Some(ArrayCategory::Handles) => st.kind matches FfiStorageKind::PtrList {
                    kind,
                    ptrs,
                } && kind == self.list_type && ptrs@.len() == items@.len() && (forall|i: int|
                    0 <= i < items@.len() ==> ptrs@[i] == spec_handle_word(
                        #[trigger] items@[i],
                    )),
                None => false,
            },
            _ => r == FfiValue::Ptr(0),
        }
    }

    open spec fn encode_err(&self, value: Value, optional: bool, kind: FfiErrorKind) -> bool {
        kind == FfiErrorKind::TypeMismatch || kind == FfiErrorKind::Ownership || kind
            == FfiErrorKind::Descriptor
    }

    /// Packs the items into the native layout the item type dictates:
    /// integers and floats back to back, strings as one buffer each,
    /// handles as one pointer word each.
    #[verifier::loop_isolation(false)]
    fn encode(&self, value: &Value, optional: bool) -> (r: Result<FfiValue, FfiError>) {
        match value {
            Value::Array(items) => {
                let category: ArrayCategory = match &*self.item_type {
                    TypeDesc::Integer(t) => ArrayCategory::Packed(t.kind()),
                    TypeDesc::Float(t) => ArrayCategory::PackedFloat(t.kind()),
                    TypeDesc::Text(_) => ArrayCategory::Strings,
                    TypeDesc::GObject(_) | TypeDesc::Boxed(_) | TypeDesc::GParam(_)
                        | TypeDesc::Struct(_) | TypeDesc::Fundamental(_) => ArrayCategory::Handles,
                    _ => {
                        return Err(FfiError::descriptor(
                            "unsupported array item type".to_owned(),
                        ));
                    },
                };
                match category {
                    ArrayCategory::Packed(kind) => {
                        let mut data: Vec<u8> = Vec::new();
                        let mut i: usize = 0;
                        let len: usize = items.len();
                        let width: usize = kind.byte_size();
                        while i < len
                            invariant
                                0 <= i <= len,
                                data@.len() == i * width,
                                width == spec_byte_size(kind),
                                forall|j: int|
                                    0 <= j < i ==> (#[trigger] items@[j]) is Number,
                            decreases len - i,
                        {
                            let n = match &items[i] {
                                Value::Number(n) => *n,
                                _ => {
                                    return Err(FfiError::type_mismatch(
                                        "expected a number item in the array".to_owned(),
                                    ));
                                },
                            };
                            let mut chunk = kind.write_i64(n.trunc_to_i64());
                            proof {
                                assert((i + 1) * width == i * width + width) by (nonlinear_arith);
                            }
                            data.append(&mut chunk);
                            i = i + 1;
                        }
                        Ok(FfiValue::Storage(FfiStorage {
                            ptr: 0,
                            kind: FfiStorageKind::PackedBytes(data),
                        }))
                    },
                    ArrayCategory::PackedFloat(kind) => {
                        let mut data: Vec<u8> = Vec::new();
                        let mut i: usize = 0;
                        let len: usize = items.len();
                        let width: usize = kind.byte_size();
                        while i < len
                            invariant
                                0 <= i <= len,
                                data@.len() == i * width,
                                width == spec_float_byte_size(kind),
                                forall|j: int|
                                    0 <= j < i ==> (#[trigger] items@[j]) is Number,
                            decreases len - i,
                        {
                            let n = match &items[i] {
                                Value::Number(n) => *n,
                                _ => {
                                    return Err(FfiError::type_mismatch(
                                        "expected a number item in the array".to_owned(),
                                    ));
                                },
                            };
                            let bits: u64 = match kind {
                                FloatKind::F64 => n.bits,
                                FloatKind::F32 => n.demote_to_f32_bits() as u64,
                            };
                            let mut chunk = kind.write_bytes(bits);
                            proof {
                                assert((i + 1) * width == i * width + width) by (nonlinear_arith);
                            }
                            data.append(&mut chunk);
                            i = i + 1;
                        }
                        Ok(FfiValue::Storage(FfiStorage {
                            ptr: 0,
                            kind: FfiStorageKind::PackedBytes(data),
                        }))
                    },
                    ArrayCategory::Strings => {
                        let mut buffers: Vec<Vec<u8>> = Vec::new();
                        let mut i: usize = 0;
                        let len: usize = items.len();
                        while i < len
                            invariant
                                0 <= i <= len,
                                buffers@.len() == i,
                                forall|j: int|
                                    0 <= j < i ==> (#[trigger] items@[j] matches Value::Text(s)
                                        && buffers@[j]@ == encode_utf8(s@) + seq![0u8]),
                                forall|j: int|
                                    0 <= j < i ==> (#[trigger] items@[j] matches Value::Text(s)
                                        && spec_no_interior_nul(encode_utf8(s@))),
                            decreases len - i,
                        {
                            let s = match &items[i] {
                                Value::Text(s) => s,
                                _ => {
                                    return Err(FfiError::type_mismatch(
                                        "expected a string item in the array".to_owned(),
                                    ));
                                },
                            };
                            match c_string_bytes(s.as_str()) {
                                Ok(b) => {
                                    buffers.push(b);
                                },
                                Err(e) => {
                                    proof {
                                        assert(!spec_no_interior_nul(
                                            encode_utf8(items@[i as int]->Text_0@),
                                        ));
                                    }
                                    return Err(e);
                                },
                            }
                            i = i + 1;
                        }
                        Ok(FfiValue::Storage(FfiStorage {
                            ptr: 0,
                            kind: FfiStorageKind::CStrList(buffers),
                        }))
                    },
                    ArrayCategory::Handles => {
                        let mut ptrs: Vec<usize> = Vec::new();
                        let mut i: usize = 0;
                        let len: usize = items.len();
                        while i < len
                            invariant
                                0 <= i <= len,
                                ptrs@.len() == i,
                                forall|j: int| 0 <= j < i ==> spec_handle_ok(#[trigger] items@[j]),
                                forall|j: int|
                                    0 <= j < i ==> ptrs@[j] == spec_handle_word(
                                        #[trigger] items@[j],
                                    ),
                            decreases len - i,
                        {
                            match &items[i] {
                                Value::Object(handle) => match handle.get_ptr() {
                                    Some(p) => {
                                        ptrs.push(p);
                                    },
                                    None => {
                                        return Err(FfiError::ownership(
                                            "native object in the array has already been released".to_owned(),
                                        ));
                                    },
                                },
                                Value::Null | Value::Undefined => {
                                    ptrs.push(0);
                                },
                                _ => {
                                    return Err(FfiError::type_mismatch(
                                        "expected a native object item in the array".to_owned(),
                                    ));
                                },
                            }
                            i = i + 1;
                        }
                        Ok(FfiValue::Storage(FfiStorage {
                            ptr: 0,
                            kind: FfiStorageKind::PtrList { kind: self.list_type, ptrs },
                        }))
                    },
                }
            },
            Value::Null | Value::Undefined => {
                if optional {
                    Ok(FfiValue::Ptr(0))
                } else {
                    Err(FfiError::type_mismatch(
                        "expected an array argument".to_owned(),
                    ))
                }
            },
            _ => Err(FfiError::type_mismatch("expected an array argument".to_owned())),
        }
    }
}


/// Whether a handle-like argument — a plain struct, a parameter
/// specification or a fundamental value — can be encoded.
pub open spec fn spec_handle_arg_can(v: Value, optional: bool) -> bool {
    ||| (v matches Value::Object(h) && h.ptr is Some)
    ||| (optional && spec_is_nullish(v))
}

/// The pointer a handle-like argument passes.
pub open spec fn spec_handle_arg_ffi(v: Value) -> FfiValue {
    match v {
        Value::Object(h) => FfiValue::Ptr(h.ptr->0),
        _ => FfiValue::Ptr(0),
    }
}

/// Encodes a handle-like argument: the live object's address, or a null
/// pointer for an optional empty value; a released handle is an
/// ownership error, never a dangling pointer.
fn encode_handle_arg(value: &Value, optional: bool) -> (r: Result<FfiValue, FfiError>)
    ensures
        r is Ok <==> spec_handle_arg_can(*value, optional),
        r matches Ok(fv) ==> fv == spec_handle_arg_ffi(*value),
        r matches Err(e) ==> e.kind == (if *value is Object {
            FfiErrorKind::Ownership
        } else {
            FfiErrorKind::TypeMismatch
        }),
{
    match value {
        Value::Object(handle) => match handle.get_ptr() {
            Some(p) => Ok(FfiValue::Ptr(p)),
            None => Err(FfiError::ownership(
                "native handle argument has already been released".to_owned(),
            )),
        },
        Value::Null | Value::Undefined => {
            if optional {
                Ok(FfiValue::Ptr(0))
            } else {
                Err(FfiError::type_mismatch("expected a native handle argument".to_owned()))
            }
        },
        _ => Err(FfiError::type_mismatch("expected a native handle argument".to_owned())),
    }
}

impl FfiEncode for TypeDesc {
    open spec fn encode_can(&self, value: Value, optional: bool) -> bool {
        match *self {
            TypeDesc::Integer(t) => t.encode_can(value, optional),
            TypeDesc::Float(t) => t.encode_can(value, optional),
            TypeDesc::Boolean => value is Boolean || (optional && spec_is_nullish(value)),
            TypeDesc::Text(t) => t.encode_can(value, optional),
            TypeDesc::Array(t) => t.encode_can(value, optional),
            TypeDesc::Ref(t) => t.encode_can(value, optional),
            TypeDesc::Boxed(t) => t.encode_can(value, optional),
            TypeDesc::GObject(t) => t.encode_can(value, optional),
            TypeDesc::HashTable(t) => t.encode_can(value, optional),
            TypeDesc::GParam(_) | TypeDesc::Struct(_) | TypeDesc::Fundamental(_) => spec_handle_arg_can(
                value,
                optional,
            ),
        }
    }

    open spec fn encode_ok(&self, value: Value, optional: bool, r: FfiValue) -> bool {
        match *self {
            TypeDesc::Integer(t) => t.encode_ok(value, optional, r),
            TypeDesc::Float(t) => t.encode_ok(value, optional, r),
            TypeDesc::Boolean => match value {
                Value::Boolean(b) => r == FfiValue::Bool(b),
                _ => r == FfiValue::Ptr(0),
            },
            TypeDesc::Text(t) => t.encode_ok(value, optional, r),
            TypeDesc::Array(t) => t.encode_ok(value, optional, r),
            TypeDesc::Ref(t) => t.encode_ok(value, optional, r),
            TypeDesc::Boxed(t) => t.encode_ok(value, optional, r),
            TypeDesc::GObject(t) => t.encode_ok(value, optional, r),
            TypeDesc::HashTable(t) => t.encode_ok(value, optional, r),
            TypeDesc::GParam(_) | TypeDesc::Struct(_) | TypeDesc::Fundamental(_) => (value
                is Object ==> r == spec_handle_arg_ffi(value)) && (!(value is Object) ==> r
                == FfiValue::Ptr(0)),
        }
    }

    open spec fn encode_err(&self, value: Value, optional: bool, kind: FfiErrorKind) -> bool {
        match *self {
            TypeDesc::Integer(t) => t.encode_err(value, optional, kind),
            TypeDesc::Float(t) => t.encode_err(value, optional, kind),
            TypeDesc::Boolean => kind == FfiErrorKind::TypeMismatch,
            TypeDesc::Text(t) => t.encode_err(value, optional, kind),
            TypeDesc::Array(t) => t.encode_err(value, optional, kind),
            TypeDesc::Ref(t) => t.encode_err(value, optional, kind),
            TypeDesc::Boxed(t) => t.encode_err(value, optional, kind),
            TypeDesc::GObject(t) => t.encode_err(value, optional, kind),
            TypeDesc::HashTable(t) => t.encode_err(value, optional, kind),
            TypeDesc::GParam(_) | TypeDesc::Struct(_) | TypeDesc::Fundamental(_) => kind == (
            if value is Object {
                FfiErrorKind::Ownership
            } else {
                FfiErrorKind::TypeMismatch
            }),
        }
    }

    /// One exhaustive dispatch over the closed descriptor sum: every
    /// variant encodes through its own policy.
    fn encode(&self, value: &Value, optional: bool) -> (r: Result<FfiValue, FfiError>) {
        match self {
            TypeDesc::Integer(t) => t.encode(value, optional),
            TypeDesc::Float(t) => t.encode(value, optional),
            TypeDesc::Boolean => match value {
                Value::Boolean(b) => Ok(FfiValue::Bool(*b)),
                Value::Null | Value::Undefined => {
                    if optional {
                        Ok(FfiValue::Ptr(0))
                    } else {
                        Err(FfiError::type_mismatch(
                            "expected a boolean argument".to_owned(),
                        ))
                    }
                },
                _ => Err(FfiError::type_mismatch("expected a boolean argument".to_owned())),
            },
            TypeDesc::Text(t) => t.encode(value, optional),
            TypeDesc::Array(t) => t.encode(value, optional),
            TypeDesc::Ref(t) => t.encode(value, optional),
            TypeDesc::Boxed(t) => t.encode(value, optional),
            TypeDesc::GObject(t) => t.encode(value, optional),
            TypeDesc::HashTable(t) => t.encode(value, optional),
            TypeDesc::GParam(_) | TypeDesc::Struct(_) | TypeDesc::Fundamental(_) => encode_handle_arg(
                value,
                optional,
            ),
        }
    }
}

impl FfiDecode for TypeDesc {
    open spec fn decode_can(&self, v: FfiValue) -> bool {
        match *self {
            TypeDesc::Integer(t) => t.decode_can(v),
            TypeDesc::Float(t) => t.decode_can(v),
            TypeDesc::Boolean => v is Bool || v is U8,
            TypeDesc::Text(t) => t.decode_can(v),
            TypeDesc::Array(_) => false,
            TypeDesc::Ref(t) => t.decode_can(v),
            TypeDesc::Boxed(t) => t.decode_can(v),
            TypeDesc::GObject(t) => t.decode_can(v),
            TypeDesc::HashTable(t) => t.decode_can(v),
            TypeDesc::GParam(_) | TypeDesc::Struct(_) | TypeDesc::Fundamental(_) => v is Ptr,
        }
    }

    open spec fn decode_ok(&self, v: FfiValue, o: DecodeOutcome) -> bool {
        match *self {
            TypeDesc::Integer(t) => t.decode_ok(v, o),
            TypeDesc::Float(t) => t.decode_ok(v, o),
            TypeDesc::Boolean => match v {
                FfiValue::Bool(b) => o == DecodeOutcome::Done(Value::Boolean(b)),
                FfiValue::U8(x) => o == DecodeOutcome::Done(Value::Boolean(x != 0)),
                _ => false,
            },
            TypeDesc::Text(t) => t.decode_ok(v, o),
            TypeDesc::Array(_) => false,
            TypeDesc::Ref(t) => t.decode_ok(v, o),
            TypeDesc::Boxed(t) => t.decode_ok(v, o),
            TypeDesc::GObject(t) => t.decode_ok(v, o),
            TypeDesc::HashTable(t) => t.decode_ok(v, o),
            TypeDesc::GParam(_) | TypeDesc::Struct(_) | TypeDesc::Fundamental(_) => match v {
                FfiValue::Ptr(p) => if p == 0 {
                    o == DecodeOutcome::Done(Value::Null)
                } else {
                    o == DecodeOutcome::Done(Value::Object(crate::value::ObjectHandle { ptr: Some(p) }))
                },
                _ => false,
            },
        }
    }

    /// One exhaustive dispatch over the closed descriptor sum.  An array
    /// result cannot be decoded on its own — native arrays carry no
    /// length — so it reports a decode error rather than guessing.
    fn decode(&self, v: &FfiValue) -> (r: Result<DecodeOutcome, FfiError>) {
        match self {
            TypeDesc::Integer(t) => t.decode(v),
            TypeDesc::Float(t) => t.decode(v),
            TypeDesc::Boolean => match v {
                FfiValue::Bool(b) => Ok(DecodeOutcome::Done(Value::Boolean(*b))),
                FfiValue::U8(x) => Ok(DecodeOutcome::Done(Value::Boolean(*x != 0))),
                _ => Err(FfiError::decode(
                    "boolean result arrived in an unexpected representation".to_owned(),
                )),
            },
            TypeDesc::Text(t) => t.decode(v),
            TypeDesc::Array(_) => Err(FfiError::decode(
                "array results carry no length of their own and cannot be decoded".to_owned(),
            )),
            TypeDesc::Ref(t) => t.decode(v),
            TypeDesc::Boxed(t) => t.decode(v),
            TypeDesc::GObject(t) => t.decode(v),
            TypeDesc::HashTable(t) => t.decode(v),
            TypeDesc::GParam(_) | TypeDesc::Struct(_) | TypeDesc::Fundamental(_) => match v {
                FfiValue::Ptr(p) => {
                    if *p == 0 {
                        Ok(DecodeOutcome::Done(Value::Null))
                    } else {
                        Ok(DecodeOutcome::Done(Value::Object(
                            crate::value::ObjectHandle::live(*p),
                        )))
                    }
                },
                _ => Err(FfiError::decode(
                    "handle result arrived in a non-pointer representation".to_owned(),
                )),
            },
        }
    }

    fn decode_with_context(
        &self,
        v: &FfiValue,
        ffi_args: &Vec<FfiValue>,
        args: &Vec<Arg>,
    ) -> (r: Result<DecodeOutcome, FfiError>) {
        let _ = ffi_args;
        let _ = args;
        self.decode(v)
    }
}

} // verus!
