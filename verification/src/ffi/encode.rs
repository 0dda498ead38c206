//! The encode/decode protocol every type descriptor implements.
//!
//! Encoding turns a host value into its call-boundary representation,
//! before any native work happens: a mismatch between the declared
//! descriptor and the value's shape aborts the call here.  Decoding turns
//! a native result back into a host value; steps that must touch native
//! memory are returned as explicit outcomes for the runtime to perform,
//! and the pure continuations that finish them are verified.

use vstd::prelude::*;
use vstd::utf8::encode_utf8;

use crate::arg::Arg;
use crate::error::{FfiError, FfiErrorKind};
use crate::ffi::value::{FfiStorage, FfiStorageKind, FfiValue};
use crate::num::{trunc_i64, trunc_u64};
use crate::types::float::FloatType;
use crate::types::gobject::GObjectType;
use crate::types::hashtable::{
    spec_cell_ok, spec_cell_rel, spec_pair_ok, HashTableEntryEncoder, HashTableType,
};
use crate::types::integer::{as_signed, spec_kind_of, IntegerKind, IntegerType};
use crate::types::string::{c_string_bytes, spec_no_interior_nul, StringType};
use crate::types::boxed_type::BoxedType;
use crate::value::{spec_is_nullish, Value};

verus! {

/// The call-boundary value an integer descriptor encodes a number into:
/// the number truncated toward zero, then wrapped into the declared
/// width, two's complement.  The unsigned 64-bit kind truncates through
/// the unsigned path, so the full upper range is reachable.
pub open spec fn spec_int_ffi(k: IntegerKind, bits: u64) -> FfiValue {
    match k {
        IntegerKind::U8 => FfiValue::U8((trunc_i64(bits) % 0x100) as u8),
        IntegerKind::I8 => FfiValue::I8(as_signed(trunc_i64(bits) % 0x100, 0x100) as i8),
        IntegerKind::U16 => FfiValue::U16((trunc_i64(bits) % 0x1_0000) as u16),
        IntegerKind::I16 => FfiValue::I16(as_signed(trunc_i64(bits) % 0x1_0000, 0x1_0000) as i16),
        IntegerKind::U32 => FfiValue::U32((trunc_i64(bits) % 0x1_0000_0000) as u32),
        IntegerKind::I32 => FfiValue::I32(
            as_signed(trunc_i64(bits) % 0x1_0000_0000, 0x1_0000_0000) as i32,
        ),
        IntegerKind::U64 => FfiValue::U64(trunc_u64(bits) as u64),
        IntegerKind::I64 => FfiValue::I64(trunc_i64(bits) as i64),
    }
}

/// A decoding step.  Pure conversions finish immediately; steps that
/// must read or adjust native state name exactly what the runtime has to
/// do, and a verified continuation turns what the runtime read into the
/// final value.
#[derive(Debug, PartialEq, Eq)]
pub enum DecodeOutcome {
    /// The value is ready.
    Done(Value),
    /// Read the null-terminated C string at `ptr`; decode the bytes with
    /// [`crate::types::string::decode_c_string`]; free the native buffer
    /// after copying exactly when `free_after` is set.
    NeedsCString { ptr: usize, free_after: bool },
    /// Walk the native table at `ptr`, reading each cell per the key and
    /// value types; decode the cells with
    /// [`crate::types::hashtable::decode_entries`]; drop one table
    /// reference afterwards exactly when `unref_after` is set.
    NeedsTableEntries { ptr: usize, unref_after: bool },
    /// Adopt the object at `ptr`: on a full transfer, sink a floating
    /// reference once; on a borrowed result, add one reference, so the
    /// host's handle always owns a reference of its own.
    NeedsObjectAdopt { ptr: usize, full: bool },
    /// Adopt the boxed value at `ptr` through the ownership wrapper: as
    /// it stands on a full transfer, copied first on a borrowed one.
    NeedsBoxedAdopt { ptr: usize, full: bool },
    /// Read `byte_size` bytes of out-parameter scratch at `ptr` and
    /// decode them through the inner type's byte codec.
    NeedsBytes { ptr: usize, byte_size: usize },
}

/// The contract every type descriptor implements to turn a host value
/// into its call-boundary representation.
pub trait FfiEncode {
    /// Whether the descriptor accepts this value at all.
    spec fn encode_can(&self, value: Value, optional: bool) -> bool;

    /// What an accepted value encodes into.
    spec fn encode_ok(&self, value: Value, optional: bool, r: FfiValue) -> bool;

    /// The error kind a rejected value reports.
    spec fn encode_err(&self, value: Value, optional: bool, kind: FfiErrorKind) -> bool;

    /// Encodes `value` for a native call, succeeding exactly on the
    /// values the descriptor accepts.
    fn encode(&self, value: &Value, optional: bool) -> (r: Result<FfiValue, FfiError>)
        ensures
            r is Ok <==> self.encode_can(*value, optional),
            r matches Ok(fv) ==> self.encode_ok(*value, optional, fv),
            r matches Err(e) ==> self.encode_err(*value, optional, e.kind),
    ;
}

/// The contract every type descriptor implements to turn a native result
/// back into a host value, or into the native step that must happen
/// first.
pub trait FfiDecode {
    /// Whether the descriptor can decode this representation.
    spec fn decode_can(&self, v: FfiValue) -> bool;

    /// What a decodable representation decodes into.
    spec fn decode_ok(&self, v: FfiValue, o: DecodeOutcome) -> bool;

    /// Decodes a native result, succeeding exactly on representations the
    /// descriptor understands; a failure is a decode error.
    fn decode(&self, v: &FfiValue) -> (r: Result<DecodeOutcome, FfiError>)
        ensures
            r is Ok <==> self.decode_can(*v),
            r matches Ok(o) ==> self.decode_ok(*v, o),
            r matches Err(e) ==> e.kind == FfiErrorKind::Decode,
    ;

    /// Decodes with the whole call visible, for types whose decoding
    /// needs sibling arguments.  It decodes to the same outcomes, under
    /// the same success condition, as the plain decode; every descriptor
    /// here needs no sibling information and ignores the context.
    fn decode_with_context(
        &self,
        v: &FfiValue,
        ffi_args: &Vec<FfiValue>,
        args: &Vec<Arg>,
    ) -> (r: Result<DecodeOutcome, FfiError>)
        ensures
            r is Ok <==> self.decode_can(*v),
            r matches Ok(o) ==> self.decode_ok(*v, o),
            r matches Err(e) ==> e.kind == FfiErrorKind::Decode,
    ;
}

impl FfiEncode for IntegerType {
    open spec fn encode_can(&self, value: Value, optional: bool) -> bool {
        value is Number || (optional && spec_is_nullish(value))
    }

    open spec fn encode_ok(&self, value: Value, optional: bool, r: FfiValue) -> bool {
        match value {
            Value::Number(n) => r == spec_int_ffi(spec_kind_of(*self), n.bits),
            _ => r == FfiValue::Ptr(0),
        }
    }

    open spec fn encode_err(&self, value: Value, optional: bool, kind: FfiErrorKind) -> bool {
        kind == FfiErrorKind::TypeMismatch
    }

    #[verifier::rlimit(60)]
    fn encode(&self, value: &Value, optional: bool) -> (r: Result<FfiValue, FfiError>) {
        match value {
            Value::Number(n) => {
                let t: i64 = n.trunc_to_i64();
                let fv: FfiValue = match self.kind() {
                    IntegerKind::U8 => {
                        let low: i64 = t % 0x100;
                        FfiValue::U8(if low < 0 { (low + 0x100) as u8 } else { low as u8 })
                    },
                    IntegerKind::I8 => {
                        let low: i64 = t % 0x100;
                        let w: i64 = if low < 0 { low + 0x100 } else { low };
                        FfiValue::I8(if w >= 0x80 { (w - 0x100) as i8 } else { w as i8 })
                    },
                    IntegerKind::U16 => {
                        let low: i64 = t % 0x1_0000;
                        FfiValue::U16(if low < 0 { (low + 0x1_0000) as u16 } else { low as u16 })
                    },
                    IntegerKind::I16 => {
                        let low: i64 = t % 0x1_0000;
                        let w: i64 = if low < 0 { low + 0x1_0000 } else { low };
                        FfiValue::I16(if w >= 0x8000 { (w - 0x1_0000) as i16 } else { w as i16 })
                    },
                    IntegerKind::U32 => {
                        let low: i64 = t % 0x1_0000_0000;
                        FfiValue::U32(
                            if low < 0 { (low + 0x1_0000_0000) as u32 } else { low as u32 },
                        )
                    },
                    IntegerKind::I32 => {
                        let low: i64 = t % 0x1_0000_0000;
                        let w: i64 = if low < 0 { low + 0x1_0000_0000 } else { low };
                        FfiValue::I32(
                            if w >= 0x8000_0000 { (w - 0x1_0000_0000) as i32 } else { w as i32 },
                        )
                    },
                    IntegerKind::U64 => FfiValue::U64(n.trunc_to_u64()),
                    IntegerKind::I64 => FfiValue::I64(t),
                };
                Ok(fv)
            },
            Value::Null | Value::Undefined => {
                if optional {
                    Ok(FfiValue::Ptr(0))
                } else {
                    Err(FfiError::type_mismatch(
                        "expected a number for an integer argument".to_owned(),
                    ))
                }
            },
            _ => Err(FfiError::type_mismatch(
                "expected a number for an integer argument".to_owned(),
            )),
        }
    }
}

impl FfiEncode for FloatType {
    open spec fn encode_can(&self, value: Value, optional: bool) -> bool {
        value is Number || (optional && spec_is_nullish(value))
    }

    open spec fn encode_ok(&self, value: Value, optional: bool, r: FfiValue) -> bool {
        match value {
            Value::Number(n) => match self.size {
                crate::types::float::FloatSize::_64 => r == FfiValue::F64(n.bits),
                crate::types::float::FloatSize::_32 => r is F32 && (897 <= crate::num::biased_exp(
                    n.bits,
                ) <= 1150 && crate::num::fraction(n.bits) & 0x1fff_ffff == 0 ==> r
                    == FfiValue::F32(crate::num::spec_narrow_exact(n.bits))),
            },
            _ => r == FfiValue::Ptr(0),
        }
    }

    open spec fn encode_err(&self, value: Value, optional: bool, kind: FfiErrorKind) -> bool {
        kind == FfiErrorKind::TypeMismatch
    }

    fn encode(&self, value: &Value, optional: bool) -> (r: Result<FfiValue, FfiError>) {
        match value {
            Value::Number(n) => Ok(self.kind().to_ffi_value(*n)),
            Value::Null | Value::Undefined => {
                if optional {
                    Ok(FfiValue::Ptr(0))
                } else {
                    Err(FfiError::type_mismatch(
                        "expected a number for a float argument".to_owned(),
                    ))
                }
            },
            _ => Err(FfiError::type_mismatch(
                "expected a number for a float argument".to_owned(),
            )),
        }
    }
}

impl FfiEncode for StringType {
    open spec fn encode_can(&self, value: Value, optional: bool) -> bool {
        ||| (value matches Value::Text(s) && spec_no_interior_nul(encode_utf8(s@)))
        ||| (optional && spec_is_nullish(value))
    }

    open spec fn encode_ok(&self, value: Value, optional: bool, r: FfiValue) -> bool {
        match value {
            Value::Text(s) => r matches FfiValue::Storage(st) && st.ptr == 0 && (st.kind matches
                FfiStorageKind::CStr(b) && b@ == encode_utf8(s@) + seq![0u8]),
            _ => r == FfiValue::Ptr(0),
        }
    }

    open spec fn encode_err(&self, value: Value, optional: bool, kind: FfiErrorKind) -> bool {
        kind == FfiErrorKind::TypeMismatch
    }

    fn encode(&self, value: &Value, optional: bool) -> (r: Result<FfiValue, FfiError>) {
        match value {
            Value::Text(s) => {
                let bytes = c_string_bytes(s.as_str())?;
                Ok(FfiValue::Storage(FfiStorage { ptr: 0, kind: FfiStorageKind::CStr(bytes) }))
            },
            Value::Null | Value::Undefined => {
                if optional {
                    Ok(FfiValue::Ptr(0))
                } else {
                    Err(FfiError::type_mismatch(
                        "expected a string for a string argument".to_owned(),
                    ))
                }
            },
            _ => Err(FfiError::type_mismatch(
                "expected a string for a string argument".to_owned(),
            )),
        }
    }
}

impl FfiEncode for GObjectType {
    open spec fn encode_can(&self, value: Value, optional: bool) -> bool {
        ||| (value matches Value::Object(h) && h.ptr is Some)
        ||| (optional && spec_is_nullish(value))
    }

    open spec fn encode_ok(&self, value: Value, optional: bool, r: FfiValue) -> bool {
        match value {
            Value::Object(h) => r == (FfiValue::Object {
                ptr: h.ptr->0,
                needs_ref: self.ownership is Full,
            }),
            _ => r == FfiValue::Ptr(0),
        }
    }

    open spec fn encode_err(&self, value: Value, optional: bool, kind: FfiErrorKind) -> bool {
        if value is Object {
            kind == FfiErrorKind::Ownership
        } else {
            kind == FfiErrorKind::TypeMismatch
        }
    }

    fn encode(&self, value: &Value, optional: bool) -> (r: Result<FfiValue, FfiError>) {
        match value {
            Value::Object(handle) => match handle.get_ptr() {
                Some(p) => Ok(FfiValue::Object { ptr: p, needs_ref: self.ownership.is_full() }),
                None => Err(FfiError::ownership(
                    "native object argument has already been released".to_owned(),
                )),
            },
            Value::Null | Value::Undefined => {
                if optional {
                    Ok(FfiValue::Ptr(0))
                } else {
                    Err(FfiError::type_mismatch(
                        "expected a native object argument".to_owned(),
                    ))
                }
            },
            _ => Err(FfiError::type_mismatch(
                "expected a native object argument".to_owned(),
            )),
        }
    }
}

impl FfiEncode for BoxedType {
    open spec fn encode_can(&self, value: Value, optional: bool) -> bool {
        ||| (value matches Value::Object(h) && h.ptr is Some)
        ||| (optional && spec_is_nullish(value))
    }

    open spec fn encode_ok(&self, value: Value, optional: bool, r: FfiValue) -> bool {
        match value {
            Value::Object(h) => r == FfiValue::Ptr(h.ptr->0),
            _ => r == FfiValue::Ptr(0),
        }
    }

    open spec fn encode_err(&self, value: Value, optional: bool, kind: FfiErrorKind) -> bool {
        if value is Object {
            kind == FfiErrorKind::Ownership
        } else {
            kind == FfiErrorKind::TypeMismatch
        }
    }

    fn encode(&self, value: &Value, optional: bool) -> (r: Result<FfiValue, FfiError>) {
        match value {
            Value::Object(handle) => match handle.get_ptr() {
                Some(p) => Ok(FfiValue::Ptr(p)),
                None => Err(FfiError::ownership(
                    "boxed value argument has already been released".to_owned(),
                )),
            },
            Value::Null | Value::Undefined => {
                if optional {
                    Ok(FfiValue::Ptr(0))
                } else {
                    Err(FfiError::type_mismatch(
                        "expected a native handle for a boxed argument".to_owned(),
                    ))
                }
            },
            _ => Err(FfiError::type_mismatch(
                "expected a native handle for a boxed argument".to_owned(),
            )),
        }
    }
}

impl FfiEncode for HashTableType {
    open spec fn encode_can(&self, value: Value, optional: bool) -> bool {
        ||| (match value {
            Value::Array(tuples) => {
                &&& spec_encoder_of(*self.key_type) is Some
                &&& spec_encoder_of(*self.value_type) is Some
                &&& forall|i: int|
                    0 <= i < tuples@.len() ==> spec_pair_ok(
                        spec_encoder_of(*self.key_type)->0,
                        spec_encoder_of(*self.value_type)->0,
                        #[trigger] tuples@[i],
                    )
            },
            _ => false,
        })
        ||| (optional && spec_is_nullish(value))
    }

    open spec fn encode_ok(&self, value: Value, optional: bool, r: FfiValue) -> bool {
        match value {
            Value::Array(tuples) => r matches FfiValue::Storage(st) && st.ptr == 0 && (st.kind
                matches FfiStorageKind::Table(plan) && plan.entries@.len() == tuples@.len() && (
            forall|i: int|
                0 <= i < tuples@.len() ==> (#[trigger] tuples@[i] matches Value::Array(a)
                    && spec_cell_rel(spec_encoder_of(*self.key_type)->0, a@[0], plan.entries@[i].0)
                    && spec_cell_rel(
                    spec_encoder_of(*self.value_type)->0,
                    a@[1],
                    plan.entries@[i].1,
                )))),
            _ => r == FfiValue::Ptr(0),
        }
    }

    open spec fn encode_err(&self, value: Value, optional: bool, kind: FfiErrorKind) -> bool {
        kind == FfiErrorKind::TypeMismatch || kind == FfiErrorKind::Ownership || kind
            == FfiErrorKind::Descriptor
    }

    fn encode(&self, value: &Value, optional: bool) -> (r: Result<FfiValue, FfiError>) {
        match value {
            Value::Array(tuples) => {
                let key_encoder = match HashTableEntryEncoder::from_type(&self.key_type) {
                    Some(e) => e,
                    None => {
                        return Err(FfiError::descriptor(
                            "unsupported hash table key type".to_owned(),
                        ));
                    },
                };
                let value_encoder = match HashTableEntryEncoder::from_type(&self.value_type) {
                    Some(e) => e,
                    None => {
                        return Err(FfiError::descriptor(
                            "unsupported hash table value type".to_owned(),
                        ));
                    },
                };
                let plan = HashTableType::encode_table(tuples, &key_encoder, &value_encoder)?;
                Ok(FfiValue::Storage(FfiStorage { ptr: 0, kind: FfiStorageKind::Table(plan) }))
            },
            Value::Null | Value::Undefined => {
                if optional {
                    Ok(FfiValue::Ptr(0))
                } else {
                    Err(FfiError::type_mismatch(
                        "expected an array of pairs for a hash table argument".to_owned(),
                    ))
                }
            },
            _ => Err(FfiError::type_mismatch(
                "expected an array of pairs for a hash table argument".to_owned(),
            )),
        }
    }
}

/// The cell category of a type, shorthand for the table contracts.
pub open spec fn spec_encoder_of(ty: crate::types::TypeDesc) -> Option<HashTableEntryEncoder> {
    crate::types::hashtable::spec_encoder_from_type(ty)
}

impl FfiDecode for IntegerType {
    open spec fn decode_can(&self, v: FfiValue) -> bool {
        match v {
            FfiValue::U8(_) | FfiValue::U16(_) | FfiValue::U32(_) | FfiValue::U64(_)
                | FfiValue::I8(_) | FfiValue::I16(_) | FfiValue::I32(_) | FfiValue::I64(_) => true,
            _ => false,
        }
    }

    open spec fn decode_ok(&self, v: FfiValue, o: DecodeOutcome) -> bool {
        o matches DecodeOutcome::Done(val) && (val matches Value::Number(n)
            && crate::num::is_integral(n.bits) && {
            let raw: int = match v {
                FfiValue::U8(x) => x as int,
                FfiValue::U16(x) => x as int,
                FfiValue::U32(x) => x as int,
                FfiValue::U64(x) => x as int,
                FfiValue::I8(x) => x as int,
                FfiValue::I16(x) => x as int,
                FfiValue::I32(x) => x as int,
                FfiValue::I64(x) => x as int,
                _ => 0,
            };
            -0x20_0000_0000_0000 < raw < 0x20_0000_0000_0000 ==> trunc_i64(n.bits) == raw
        })
    }

    fn decode(&self, v: &FfiValue) -> (r: Result<DecodeOutcome, FfiError>) {
        match v {
            FfiValue::U8(x) => Ok(DecodeOutcome::Done(Value::Number(crate::num::Num::from_u64(
                *x as u64,
            )))),
            FfiValue::U16(x) => Ok(DecodeOutcome::Done(Value::Number(crate::num::Num::from_u64(
                *x as u64,
            )))),
            FfiValue::U32(x) => Ok(DecodeOutcome::Done(Value::Number(crate::num::Num::from_u64(
                *x as u64,
            )))),
            FfiValue::U64(x) => Ok(DecodeOutcome::Done(Value::Number(crate::num::Num::from_u64(
                *x,
            )))),
            FfiValue::I8(x) => Ok(DecodeOutcome::Done(Value::Number(crate::num::Num::from_i64(
                *x as i64,
            )))),
            FfiValue::I16(x) => Ok(DecodeOutcome::Done(Value::Number(crate::num::Num::from_i64(
                *x as i64,
            )))),
            FfiValue::I32(x) => Ok(DecodeOutcome::Done(Value::Number(crate::num::Num::from_i64(
                *x as i64,
            )))),
            FfiValue::I64(x) => Ok(DecodeOutcome::Done(Value::Number(crate::num::Num::from_i64(
                *x,
            )))),
            _ => Err(FfiError::decode(
                "integer result arrived in a non-integer representation".to_owned(),
            )),
        }
    }

    fn decode_with_context(
        &self,
        v: &FfiValue,
        ffi_args: &Vec<FfiValue>,
        args: &Vec<Arg>,
    ) -> (r: Result<DecodeOutcome, FfiError>) {
        let _ = ffi_args;
        let _ = args;
        self.decode(v)
    }
}

impl FfiDecode for FloatType {
    open spec fn decode_can(&self, v: FfiValue) -> bool {
        v is F32 || v is F64
    }

    open spec fn decode_ok(&self, v: FfiValue, o: DecodeOutcome) -> bool {
        o matches DecodeOutcome::Done(val) && (val matches Value::Number(n) && {
            &&& (v matches FfiValue::F64(bits) ==> n.bits == bits)
            &&& (v matches FfiValue::F32(b) ==> (crate::num::f32_exp(b) != 0 ==> n.bits
                == crate::num::spec_promote_nonsub(b)))
            &&& (v matches FfiValue::F32(b) ==> (crate::num::f32_exp(b) == 0
                && crate::num::f32_frac(b) == 0 ==> n.bits == (if (b >> 31) == 1 {
                0x8000_0000_0000_0000u64
            } else {
                0u64
            })))
        })
    }

    fn decode(&self, v: &FfiValue) -> (r: Result<DecodeOutcome, FfiError>) {
        match v {
            FfiValue::F32(b32) => Ok(DecodeOutcome::Done(Value::Number(
                crate::num::Num::promote_from_f32_bits(*b32),
            ))),
            FfiValue::F64(bits) => Ok(DecodeOutcome::Done(Value::Number(crate::num::Num {
                bits: *bits,
            }))),
            _ => Err(FfiError::decode(
                "float result arrived in a non-float representation".to_owned(),
            )),
        }
    }

    fn decode_with_context(
        &self,
        v: &FfiValue,
        ffi_args: &Vec<FfiValue>,
        args: &Vec<Arg>,
    ) -> (r: Result<DecodeOutcome, FfiError>) {
        let _ = ffi_args;
        let _ = args;
        self.decode(v)
    }
}

impl FfiDecode for StringType {
    open spec fn decode_can(&self, v: FfiValue) -> bool {
        v is Ptr
    }

    open spec fn decode_ok(&self, v: FfiValue, o: DecodeOutcome) -> bool {
        match v {
            FfiValue::Ptr(p) => if p == 0 {
                o == DecodeOutcome::Done(Value::Null)
            } else {
                o == (DecodeOutcome::NeedsCString { ptr: p, free_after: self.ownership is Full })
            },
            _ => false,
        }
    }

    fn decode(&self, v: &FfiValue) -> (r: Result<DecodeOutcome, FfiError>) {
        match v {
            FfiValue::Ptr(p) => {
                if *p == 0 {
                    Ok(DecodeOutcome::Done(Value::Null))
                } else {
                    Ok(DecodeOutcome::NeedsCString { ptr: *p, free_after: self.ownership.is_full() })
                }
            },
            _ => Err(FfiError::decode(
                "string result arrived in a non-pointer representation".to_owned(),
            )),
        }
    }

    fn decode_with_context(
        &self,
        v: &FfiValue,
        ffi_args: &Vec<FfiValue>,
        args: &Vec<Arg>,
    ) -> (r: Result<DecodeOutcome, FfiError>) {
        let _ = ffi_args;
        let _ = args;
        self.decode(v)
    }
}

impl FfiDecode for GObjectType {
    open spec fn decode_can(&self, v: FfiValue) -> bool {
        v is Ptr
    }

    open spec fn decode_ok(&self, v: FfiValue, o: DecodeOutcome) -> bool {
        match v {
            FfiValue::Ptr(p) => if p == 0 {
                o == DecodeOutcome::Done(Value::Null)
            } else {
                o == (DecodeOutcome::NeedsObjectAdopt { ptr: p, full: self.ownership is Full })
            },
            _ => false,
        }
    }

    fn decode(&self, v: &FfiValue) -> (r: Result<DecodeOutcome, FfiError>) {
        match v {
            FfiValue::Ptr(p) => {
                if *p == 0 {
                    Ok(DecodeOutcome::Done(Value::Null))
                } else {
                    Ok(DecodeOutcome::NeedsObjectAdopt {
                        ptr: *p,
                        full: self.ownership.is_full(),
                    })
                }
            },
            _ => Err(FfiError::decode(
                "object result arrived in a non-pointer representation".to_owned(),
            )),
        }
    }

    fn decode_with_context(
        &self,
        v: &FfiValue,
        ffi_args: &Vec<FfiValue>,
        args: &Vec<Arg>,
    ) -> (r: Result<DecodeOutcome, FfiError>) {
        let _ = ffi_args;
        let _ = args;
        self.decode(v)
    }
}

impl FfiDecode for BoxedType {
    open spec fn decode_can(&self, v: FfiValue) -> bool {
        v is Ptr
    }

    open spec fn decode_ok(&self, v: FfiValue, o: DecodeOutcome) -> bool {
        match v {
            FfiValue::Ptr(p) => if p == 0 {
                o == DecodeOutcome::Done(Value::Null)
            } else {
                o == (DecodeOutcome::NeedsBoxedAdopt { ptr: p, full: self.ownership is Full })
            },
            _ => false,
        }
    }

    fn decode(&self, v: &FfiValue) -> (r: Result<DecodeOutcome, FfiError>) {
        match v {
            FfiValue::Ptr(p) => {
                if *p == 0 {
                    Ok(DecodeOutcome::Done(Value::Null))
                } else {
                    Ok(DecodeOutcome::NeedsBoxedAdopt { ptr: *p, full: self.ownership.is_full() })
                }
            },
            _ => Err(FfiError::decode(
                "boxed result arrived in a non-pointer representation".to_owned(),
            )),
        }
    }

    fn decode_with_context(
        &self,
        v: &FfiValue,
        ffi_args: &Vec<FfiValue>,
        args: &Vec<Arg>,
    ) -> (r: Result<DecodeOutcome, FfiError>) {
        let _ = ffi_args;
        let _ = args;
        self.decode(v)
    }
}

impl FfiDecode for HashTableType {
    open spec fn decode_can(&self, v: FfiValue) -> bool {
        v is Ptr
    }

    open spec fn decode_ok(&self, v: FfiValue, o: DecodeOutcome) -> bool {
        match v {
            FfiValue::Ptr(p) => if p == 0 {
                o == DecodeOutcome::Done(Value::Null)
            } else {
                o == (DecodeOutcome::NeedsTableEntries {
                    ptr: p,
                    unref_after: self.ownership is Full,
                })
            },
            _ => false,
        }
    }

    fn decode(&self, v: &FfiValue) -> (r: Result<DecodeOutcome, FfiError>) {
        match v {
            FfiValue::Ptr(p) => {
                if *p == 0 {
                    Ok(DecodeOutcome::Done(Value::Null))
                } else {
                    Ok(DecodeOutcome::NeedsTableEntries {
                        ptr: *p,
                        unref_after: self.ownership.is_full(),
                    })
                }
            },
            _ => Err(FfiError::decode(
                "hash table result arrived in a non-pointer representation".to_owned(),
            )),
        }
    }

    fn decode_with_context(
        &self,
        v: &FfiValue,
        ffi_args: &Vec<FfiValue>,
        args: &Vec<Arg>,
    ) -> (r: Result<DecodeOutcome, FfiError>) {
        let _ = ffi_args;
        let _ = args;
        self.decode(v)
    }
}

/// A null native pointer decodes to the host's null for every
/// pointer-backed descriptor — strings, objects, tables and boxed
/// values — and never to an error.
pub proof fn law_null_pointer_decodes_to_null(
    s: StringType,
    g: GObjectType,
    h: HashTableType,
    b: BoxedType,
)
    ensures
        s.decode_can(FfiValue::Ptr(0)) && s.decode_ok(
            FfiValue::Ptr(0),
            DecodeOutcome::Done(Value::Null),
        ),
        g.decode_can(FfiValue::Ptr(0)) && g.decode_ok(
            FfiValue::Ptr(0),
            DecodeOutcome::Done(Value::Null),
        ),
        h.decode_can(FfiValue::Ptr(0)) && h.decode_ok(
            FfiValue::Ptr(0),
            DecodeOutcome::Done(Value::Null),
        ),
        b.decode_can(FfiValue::Ptr(0)) && b.decode_ok(
            FfiValue::Ptr(0),
            DecodeOutcome::Done(Value::Null),
        ),
{
}

} // verus!
