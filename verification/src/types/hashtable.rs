//! Hash table type descriptor and the table assembly plan.
//!
//! A table argument arrives as an ordered sequence of two-element
//! [key, value] pairs.  Encoding picks hash, equality and free functions
//! from the key and value categories, converts every cell into the word
//! or allocation the native table will hold, and hands the runtime a
//! complete plan: the table itself is native state only the runtime can
//! build.  Decoding turns the cells the runtime read back into pairs.

use vstd::prelude::*;
use vstd::utf8::{decode_utf8, encode_utf8, valid_utf8};

use crate::error::{FfiError, FfiErrorKind};
use crate::num::{is_integral, trunc_i64, Num};
use crate::types::array::ListType;
use crate::types::ownership::Ownership;
use crate::types::string::{c_string_bytes, decode_c_string, spec_no_interior_nul};
use crate::types::TypeDesc;
use crate::value::Value;

verus! {

/// The category a cell type falls into inside a native table: it decides
/// the hash, equality and free functions and the cell representation.
#[derive(Debug, PartialEq, Eq)]
pub enum HashTableEntryEncoder {
    /// String cells, hashed and compared by content, freed.
    Text,
    /// Integers stored directly in the cell word.
    Integer,
    /// Booleans stored directly in the cell word.
    Boolean,
    /// Doubles stored in a small allocation, hashed by value, freed.
    Float,
    /// Native handles stored directly in the cell word.
    NativeHandle,
    /// Pointer arrays of native handles, released by unref.
    PtrArray,
}

/// The hash function a category uses.
#[derive(Debug, Clone, Copy, PartialEq, Eq, Structural)]
pub enum HashFunc {
    /// Content hash of a C string.
    Str,
    /// Value hash of a double.
    Double,
    /// Identity hash of the cell word.
    Direct,
}

/// The equality function a category uses.
#[derive(Debug, Clone, Copy, PartialEq, Eq, Structural)]
pub enum EqualFunc {
    /// Content equality of C strings.
    Str,
    /// Value equality of doubles.
    Double,
    /// Identity of the cell words.
    Direct,
}

/// The free function a category registers for its cells, when it needs
/// one.
#[derive(Debug, Clone, Copy, PartialEq, Eq, Structural)]
pub enum FreeFunc {
    /// Free the cell's allocation.
    Free,
    /// Drop one reference of a pointer array.
    PtrArrayUnref,
}

/// One table cell as the native table will hold it.
#[derive(Debug, Clone, PartialEq, Eq)]
pub enum EntryRepr {
    /// A null-terminated string the runtime copies into the table.
    StrBytes(Vec<u8>),
    /// A value stored directly in the cell word.
    Word(i64),
    /// A double stored behind a small allocation.
    FloatBits(u64),
    /// A native handle (zero for a null object).
    Handle(usize),
    /// A pointer array of native handles.
    PtrArray(Vec<usize>),
}

/// A complete table assembly plan: the functions the table is created
/// with, and every cell pair in declaration order.
#[derive(Debug, Clone, PartialEq, Eq)]
pub struct TablePlan {
    pub key_hash: HashFunc,
    pub key_equal: EqualFunc,
    pub key_free: Option<FreeFunc>,
    pub value_free: Option<FreeFunc>,
    pub entries: Vec<(EntryRepr, EntryRepr)>,
}

/// The category of a cell type, when the type can live in a table.
pub open spec fn spec_encoder_from_type(ty: TypeDesc) -> Option<HashTableEntryEncoder> {
    match ty {
        TypeDesc::Text(_) => Some(HashTableEntryEncoder::Text),
        TypeDesc::Integer(_) => Some(HashTableEntryEncoder::Integer),
        TypeDesc::Boolean => Some(HashTableEntryEncoder::Boolean),
        TypeDesc::Float(_) => Some(HashTableEntryEncoder::Float),
        TypeDesc::GObject(_) | TypeDesc::Boxed(_) | TypeDesc::Struct(_) | TypeDesc::Fundamental(_) => Some(
            HashTableEntryEncoder::NativeHandle,
        ),
        TypeDesc::Array(array_type) => {
            if array_type.list_type == ListType::GPtrArray {
                Some(HashTableEntryEncoder::PtrArray)
            } else {
                None
            }
        },
        _ => None,
    }
}

/// Whether a host value can stand in a native-handle cell.
pub open spec fn spec_handle_ok(v: Value) -> bool {
    match v {
        Value::Object(h) => h.ptr is Some,
        Value::Null | Value::Undefined => true,
        _ => false,
    }
}

/// The cell word a handle-like value stands for: the object's address,
/// or zero for null and undefined.
pub open spec fn spec_handle_word(v: Value) -> usize {
    match v {
        Value::Object(h) => h.ptr->0,
        _ => 0,
    }
}


/// Whether a category can encode a host value at all.
pub open spec fn spec_cell_ok(e: HashTableEntryEncoder, val: Value) -> bool {
    match e {
        HashTableEntryEncoder::Text => val matches Value::Text(s) && spec_no_interior_nul(
            encode_utf8(s@),
        ),
        HashTableEntryEncoder::Integer => val is Number,
        HashTableEntryEncoder::Boolean => val is Boolean,
        HashTableEntryEncoder::Float => val is Number,
        HashTableEntryEncoder::NativeHandle => spec_handle_ok(val),
        HashTableEntryEncoder::PtrArray => val matches Value::Array(items) && (forall|i: int|
            0 <= i < items@.len() ==> spec_handle_ok(#[trigger] items@[i])),
    }
}

/// The exact cell a category encodes a host value into.
pub open spec fn spec_cell_rel(e: HashTableEntryEncoder, val: Value, c: EntryRepr) -> bool {
    match e {
        HashTableEntryEncoder::Text => val matches Value::Text(s) && (c matches
            EntryRepr::StrBytes(b) && b@ == encode_utf8(s@) + seq![0u8]),
        HashTableEntryEncoder::Integer => val matches Value::Number(n) && c == EntryRepr::Word(
            trunc_i64(n.bits) as i64,
        ),
        HashTableEntryEncoder::Boolean => val matches Value::Boolean(b) && c == EntryRepr::Word(
            if b { 1i64 } else { 0i64 },
        ),
        HashTableEntryEncoder::Float => val matches Value::Number(n) && c == EntryRepr::FloatBits(
            n.bits,
        ),
        HashTableEntryEncoder::NativeHandle => c == EntryRepr::Handle(spec_handle_word(val)),
        HashTableEntryEncoder::PtrArray => val matches Value::Array(items) && (c matches
            EntryRepr::PtrArray(p) && p@.len() == items@.len() && (forall|i: int|
            0 <= i < items@.len() ==> p@[i] == spec_handle_word(#[trigger] items@[i]))),
    }
}

/// Whether one [key, value] pair can be encoded under two categories.
pub open spec fn spec_pair_ok(
    key_e: HashTableEntryEncoder,
    val_e: HashTableEntryEncoder,
    t: Value,
) -> bool {
    t matches Value::Array(a) && a@.len() == 2 && spec_cell_ok(key_e, a@[0]) && spec_cell_ok(
        val_e,
        a@[1],
    )
}

/// The error kind a category reports for a value it cannot encode: an
/// ownership error for a released handle, a type mismatch otherwise.
pub open spec fn spec_cell_err(e: HashTableEntryEncoder, val: Value) -> FfiErrorKind {
    match e {
        HashTableEntryEncoder::NativeHandle => if val is Object {
            FfiErrorKind::Ownership
        } else {
            FfiErrorKind::TypeMismatch
        },
        HashTableEntryEncoder::PtrArray => match val {
            Value::Array(items) => if exists|i: int|
                0 <= i < items@.len() && !(#[trigger] items@[i] is Object || items@[i] is Null
                    || items@[i] is Undefined) {
                FfiErrorKind::TypeMismatch
            } else {
                FfiErrorKind::Ownership
            },
            _ => FfiErrorKind::TypeMismatch,
        },
        _ => FfiErrorKind::TypeMismatch,
    }
}

impl HashTableEntryEncoder {
    /// The category of a cell type, when the type can live in a table.
    pub fn from_type(ty: &TypeDesc) -> (r: Option<HashTableEntryEncoder>)
        ensures
            r == spec_encoder_from_type(*ty),
    {
        match ty {
            TypeDesc::Text(_) => Some(HashTableEntryEncoder::Text),
            TypeDesc::Integer(_) => Some(HashTableEntryEncoder::Integer),
            TypeDesc::Boolean => Some(HashTableEntryEncoder::Boolean),
            TypeDesc::Float(_) => Some(HashTableEntryEncoder::Float),
            TypeDesc::GObject(_) | TypeDesc::Boxed(_) | TypeDesc::Struct(_) | TypeDesc::Fundamental(_) => Some(
                HashTableEntryEncoder::NativeHandle,
            ),
            TypeDesc::Array(array_type) => {
                if array_type.list_type == ListType::GPtrArray {
                    Some(HashTableEntryEncoder::PtrArray)
                } else {
                    None
                }
            },
            _ => None,
        }
    }

    /// The hash function this category registers.
    pub fn hash_func(&self) -> (r: HashFunc)
        ensures
            *self is Text ==> r == HashFunc::Str,
            *self is Float ==> r == HashFunc::Double,
            !(*self is Text) && !(*self is Float) ==> r == HashFunc::Direct,
    {
        match self {
            HashTableEntryEncoder::Text => HashFunc::Str,
            HashTableEntryEncoder::Float => HashFunc::Double,
            _ => HashFunc::Direct,
        }
    }

    /// The equality function this category registers.
    pub fn equal_func(&self) -> (r: EqualFunc)
        ensures
            *self is Text ==> r == EqualFunc::Str,
            *self is Float ==> r == EqualFunc::Double,
            !(*self is Text) && !(*self is Float) ==> r == EqualFunc::Direct,
    {
        match self {
            HashTableEntryEncoder::Text => EqualFunc::Str,
            HashTableEntryEncoder::Float => EqualFunc::Double,
            _ => EqualFunc::Direct,
        }
    }

    /// The free function this category registers, when its cells own an
    /// allocation.
    pub fn free_func(&self) -> (r: Option<FreeFunc>)
        ensures
            *self is Text || *self is Float ==> r == Some(FreeFunc::Free),
            *self is PtrArray ==> r == Some(FreeFunc::PtrArrayUnref),
            *self is Integer || *self is Boolean || *self is NativeHandle ==> r is None,
    {
        match self {
            HashTableEntryEncoder::Text | HashTableEntryEncoder::Float => Some(FreeFunc::Free),
            HashTableEntryEncoder::PtrArray => Some(FreeFunc::PtrArrayUnref),
            _ => None,
        }
    }

    /// Converts one host value into the cell this category stores.  A
    /// value of the wrong shape is a type mismatch; a released native
    /// handle is an ownership error, never a silent dangling pointer.
    #[verifier::loop_isolation(false)]
    pub fn encode(&self, val: &Value) -> (r: Result<EntryRepr, FfiError>)
        ensures
            r is Ok <==> spec_cell_ok(*self, *val),
            r matches Ok(c) ==> spec_cell_rel(*self, *val, c),
            r matches Err(e) ==> e.kind == spec_cell_err(*self, *val),
    {
        match self {
            HashTableEntryEncoder::Text => match val {
                Value::Text(s) => match c_string_bytes(s.as_str()) {
                    Ok(b) => Ok(EntryRepr::StrBytes(b)),
                    Err(e) => Err(e),
                },
                _ => Err(FfiError::type_mismatch(
                    "expected a string cell in the hash table".to_owned(),
                )),
            },
            HashTableEntryEncoder::Integer => match val {
                Value::Number(n) => Ok(EntryRepr::Word(n.trunc_to_i64())),
                _ => Err(FfiError::type_mismatch(
                    "expected a number cell in the hash table".to_owned(),
                )),
            },
            HashTableEntryEncoder::Boolean => match val {
                Value::Boolean(b) => Ok(EntryRepr::Word(if *b { 1 } else { 0 })),
                _ => Err(FfiError::type_mismatch(
                    "expected a boolean cell in the hash table".to_owned(),
                )),
            },
            HashTableEntryEncoder::Float => match val {
                Value::Number(n) => Ok(EntryRepr::FloatBits(n.bits)),
                _ => Err(FfiError::type_mismatch(
                    "expected a number cell in the hash table for a float".to_owned(),
                )),
            },
            HashTableEntryEncoder::NativeHandle => match val {
                Value::Object(handle) => match handle.get_ptr() {
                    Some(p) => Ok(EntryRepr::Handle(p)),
                    None => Err(FfiError::ownership(
                        "native object in the hash table has already been released".to_owned(),
                    )),
                },
                Value::Null | Value::Undefined => Ok(EntryRepr::Handle(0)),
                _ => Err(FfiError::type_mismatch(
                    "expected a native object cell in the hash table".to_owned(),
                )),
            },
            HashTableEntryEncoder::PtrArray => match val {
                Value::Array(items) => {
                    let len: usize = items.len();
                    let mut i: usize = 0;
                    while i < len
                        invariant
                            0 <= i <= len,
                            forall|j: int|
                                0 <= j < i ==> (#[trigger] items@[j] is Object || items@[j]
                                    is Null || items@[j] is Undefined),
                        decreases len - i,
                    {
                        match &items[i] {
                            Value::Object(_) | Value::Null | Value::Undefined => {},
                            _ => {
                                return Err(FfiError::type_mismatch(
                                    "expected a native object in the pointer array".to_owned(),
                                ));
                            },
                        }
                        i = i + 1;
                    }
                    let mut ptrs: Vec<usize> = Vec::new();
                    i = 0;
                    while i < len
                        invariant
                            0 <= i <= len,
                            len == items@.len(),
                            ptrs@.len() == i,
                            forall|j: int|
                                0 <= j < len ==> (#[trigger] items@[j] is Object || items@[j]
                                    is Null || items@[j] is Undefined),
                            forall|j: int| 0 <= j < i ==> spec_handle_ok(#[trigger] items@[j]),
                            forall|j: int|
                                0 <= j < i ==> ptrs@[j] == spec_handle_word(
                                    #[trigger] items@[j],
                                ),
                        decreases len - i,
                    {
                        match &items[i] {
                            Value::Object(handle) => match handle.get_ptr() {
                                Some(p) => { ptrs.push(p); },
                                None => {
                                    return Err(FfiError::ownership(
                                        "native object in the pointer array has already been released".to_owned(),
                                    ));
                                },
                            },
                            _ => { ptrs.push(0); },
                        }
                        i = i + 1;
                    }
                    Ok(EntryRepr::PtrArray(ptrs))
                },
                _ => Err(FfiError::type_mismatch(
                    "expected an array for the pointer-array cell".to_owned(),
                )),
            },
        }
    }
}

/// TypeDesc descriptor for native hash tables.
#[derive(Debug, PartialEq, Eq)]
pub struct HashTableType {
    pub key_type: Box<TypeDesc>,
    pub value_type: Box<TypeDesc>,
    pub ownership: Ownership,
}

impl HashTableType {
    /// Creates a new hash table type descriptor.
    pub fn new(key_type: TypeDesc, value_type: TypeDesc, ownership: Ownership) -> (r: Self)
        ensures
            r.key_type == Box::new(key_type),
            r.value_type == Box::new(value_type),
            r.ownership == ownership,
    {
        HashTableType { key_type: Box::new(key_type), value_type: Box::new(value_type), ownership }
    }

    /// Splits a [key, value] pair out of one host value; anything but a
    /// two-element array is a type mismatch.
    fn tuple(value: &Value) -> (r: Result<(&Value, &Value), FfiError>)
        ensures
            r is Ok <==> (value matches Value::Array(a) && a@.len() == 2),
            r matches Ok(p) ==> value matches Value::Array(a) && *p.0 == a@[0] && *p.1 == a@[1],
            r matches Err(e) ==> e.kind == FfiErrorKind::TypeMismatch,
    {
        match value {
            Value::Array(arr) => {
                if arr.len() == 2 {
                    Ok((&arr[0], &arr[1]))
                } else {
                    Err(FfiError::type_mismatch(
                        "expected a [key, value] pair in the hash table".to_owned(),
                    ))
                }
            },
            _ => Err(FfiError::type_mismatch(
                "expected a [key, value] pair in the hash table".to_owned(),
            )),
        }
    }

    /// Assembles the table plan for an ordered sequence of pairs: the
    /// functions both categories register, and each pair's encoded cells
    /// in declaration order.  The plan holds exactly one entry per input
    /// pair; the first cell that cannot be encoded aborts the whole
    /// encode.
    pub fn encode_table(
        tuples: &Vec<Value>,
        key_encoder: &HashTableEntryEncoder,
        value_encoder: &HashTableEntryEncoder,
    ) -> (r: Result<TablePlan, FfiError>)
        ensures
            r is Ok <==> (forall|i: int|
                0 <= i < tuples@.len() ==> spec_pair_ok(
                    *key_encoder,
                    *value_encoder,
                    #[trigger] tuples@[i],
                )),
            r matches Err(e) ==> (e.kind == FfiErrorKind::TypeMismatch || e.kind
                == FfiErrorKind::Ownership),
            r matches Ok(plan) ==> {
                &&& plan.key_hash == spec_hash_func(*key_encoder)
                &&& plan.key_equal == spec_equal_func(*key_encoder)
                &&& plan.key_free == spec_free_func(*key_encoder)
                &&& plan.value_free == spec_free_func(*value_encoder)
                &&& plan.entries@.len() == tuples@.len()
                &&& forall|i: int|
                    0 <= i < tuples@.len() ==> (#[trigger] tuples@[i] matches Value::Array(a)
                        && spec_cell_rel(*key_encoder, a@[0], plan.entries@[i].0)
                        && spec_cell_rel(*value_encoder, a@[1], plan.entries@[i].1))
            },
    {
        let mut entries: Vec<(EntryRepr, EntryRepr)> = Vec::new();
        let mut i: usize = 0;
        let len: usize = tuples.len();
        while i < len
            invariant
                0 <= i <= len,
                len == tuples@.len(),
                entries@.len() == i,
                forall|j: int|
                    0 <= j < i ==> spec_pair_ok(
                        *key_encoder,
                        *value_encoder,
                        #[trigger] tuples@[j],
                    ),
                forall|j: int|
                    0 <= j < i ==> (#[trigger] tuples@[j] matches Value::Array(a)
                        && spec_cell_rel(*key_encoder, a@[0], entries@[j].0) && spec_cell_rel(
                        *value_encoder,
                        a@[1],
                        entries@[j].1,
                    )),
            decreases len - i,
        {
            let pair = Self::tuple(&tuples[i])?;
            let key_cell = key_encoder.encode(pair.0)?;
            let value_cell = value_encoder.encode(pair.1)?;
            entries.push((key_cell, value_cell));
            i = i + 1;
        }
        Ok(TablePlan {
            key_hash: key_encoder.hash_func(),
            key_equal: key_encoder.equal_func(),
            key_free: key_encoder.free_func(),
            value_free: value_encoder.free_func(),
            entries,
        })
    }
}

/// The hash function of a category.
pub open spec fn spec_hash_func(e: HashTableEntryEncoder) -> HashFunc {
    match e {
        HashTableEntryEncoder::Text => HashFunc::Str,
        HashTableEntryEncoder::Float => HashFunc::Double,
        _ => HashFunc::Direct,
    }
}

/// The equality function of a category.
pub open spec fn spec_equal_func(e: HashTableEntryEncoder) -> EqualFunc {
    match e {
        HashTableEntryEncoder::Text => EqualFunc::Str,
        HashTableEntryEncoder::Float => EqualFunc::Double,
        _ => EqualFunc::Direct,
    }
}

/// The free function of a category, when it registers one.
pub open spec fn spec_free_func(e: HashTableEntryEncoder) -> Option<FreeFunc> {
    match e {
        HashTableEntryEncoder::Text | HashTableEntryEncoder::Float => Some(FreeFunc::Free),
        HashTableEntryEncoder::PtrArray => Some(FreeFunc::PtrArrayUnref),
        _ => None,
    }
}

/// One table cell as the runtime read it back while walking a native
/// table: the raw word, or the bytes behind it for content cells.
#[derive(Debug, Clone, PartialEq, Eq)]
pub enum RawCell {
    /// The cell word itself.
    Word(usize),
    /// The C string bytes behind the cell word, terminator stripped.
    CStrBytes(Vec<u8>),
    /// The double bit pattern behind the cell word.
    F64Bits(u64),
}

/// Whether one read-back cell decodes at all: every cell does, except
/// string bytes that are not valid UTF-8.
pub open spec fn spec_cell_decode_ok(cell: RawCell) -> bool {
    match cell {
        RawCell::CStrBytes(b) => valid_utf8(b@),
        _ => true,
    }
}

/// The exact host value a read-back cell decodes into under a cell
/// type: string bytes become the decoded text, double patterns become
/// numbers, and a word is read per the type's category — an integer
/// (exact under `2^53`), a boolean, or a handle with zero as null.
pub open spec fn spec_cell_decode_rel(ty: TypeDesc, cell: RawCell, v: Value) -> bool {
    match cell {
        RawCell::CStrBytes(b) => v matches Value::Text(s) && s@ == decode_utf8(b@),
        RawCell::F64Bits(bits) => v == Value::Number(Num { bits }),
        RawCell::Word(w) => match spec_encoder_from_type(ty) {
            Some(HashTableEntryEncoder::Integer) => v matches Value::Number(n) && is_integral(
                n.bits,
            ) && (-0x20_0000_0000_0000 < as_signed_word(w) < 0x20_0000_0000_0000 ==> trunc_i64(
                n.bits,
            ) == as_signed_word(w)),
            Some(HashTableEntryEncoder::Boolean) => v == Value::Boolean(w != 0),
            _ => if w == 0 {
                v == Value::Null
            } else {
                v == Value::Object(crate::value::ObjectHandle { ptr: Some(w) })
            },
        },
    }
}

/// Turns one read-back cell into a host value under a cell type,
/// succeeding exactly when the cell decodes — only invalid UTF-8 in a
/// string cell fails.
pub fn cell_to_value(ty: &TypeDesc, cell: &RawCell) -> (r: Result<Value, FfiError>)
    ensures
        r is Ok <==> spec_cell_decode_ok(*cell),
        r matches Ok(v) ==> spec_cell_decode_rel(*ty, *cell, v),
        r matches Err(e) ==> e.kind == FfiErrorKind::Decode,
{
    match cell {
        RawCell::CStrBytes(b) => match decode_c_string(b.clone()) {
            Ok(s) => Ok(Value::Text(s)),
            Err(e) => Err(e),
        },
        RawCell::F64Bits(bits) => Ok(Value::Number(Num { bits: *bits })),
        RawCell::Word(w) => match HashTableEntryEncoder::from_type(ty) {
            Some(HashTableEntryEncoder::Integer) => {
                let signed: i64 = word_as_signed(*w);
                Ok(Value::Number(Num::from_i64(signed)))
            },
            Some(HashTableEntryEncoder::Boolean) => Ok(Value::Boolean(*w != 0)),
            _ => {
                if *w == 0 {
                    Ok(Value::Null)
                } else {
                    Ok(Value::Object(crate::value::ObjectHandle::live(*w)))
                }
            },
        },
    }
}

/// The signed value a cell word stores, reinterpreting the machine word
/// as a signed integer.
pub open spec fn as_signed_word(w: usize) -> int {
    if w >= 0x8000_0000_0000_0000 {
        w - 0x1_0000_0000_0000_0000
    } else {
        w as int
    }
}

/// Reinterprets a cell word as the signed integer it stores.
fn word_as_signed(w: usize) -> (r: i64)
    ensures
        r as int == as_signed_word(w),
{
    let w64: u64 = w as u64;
    if w64 >= 0x8000_0000_0000_0000 {
        ((w64 - 0x8000_0000_0000_0000) as i64) + i64::MIN
    } else {
        w64 as i64
    }
}

/// Turns the cell pairs the runtime read out of a native table into
/// the host's pair-array form: one two-element [key, value] array per
/// read entry, in table-walk order, each cell decoded under its
/// declared type.  Succeeds exactly when every cell decodes; the first
/// failing cell decides.
#[verifier::loop_isolation(false)]
pub fn decode_entries(
    key_type: &TypeDesc,
    value_type: &TypeDesc,
    cells: &Vec<(RawCell, RawCell)>,
) -> (r: Result<Value, FfiError>)
    ensures
        r is Ok <==> (forall|i: int|
            0 <= i < cells@.len() ==> spec_cell_decode_ok(#[trigger] cells@[i].0)
                && spec_cell_decode_ok(cells@[i].1)),
        r matches Ok(v) ==> (v matches Value::Array(pairs) && pairs@.len() == cells@.len() && (
        forall|i: int|
            0 <= i < cells@.len() ==> (#[trigger] pairs@[i] matches Value::Array(kv) && kv@.len()
                == 2 && spec_cell_decode_rel(*key_type, cells@[i].0, kv@[0])
                && spec_cell_decode_rel(*value_type, cells@[i].1, kv@[1])))),
        r matches Err(e) ==> e.kind == FfiErrorKind::Decode,
{
    let mut pairs: Vec<Value> = Vec::new();
    let mut i: usize = 0;
    let len: usize = cells.len();
    while i < len
        invariant
            0 <= i <= len,
            len == cells@.len(),
            pairs@.len() == i,
            forall|j: int|
                0 <= j < i ==> spec_cell_decode_ok(#[trigger] cells@[j].0)
                    && spec_cell_decode_ok(cells@[j].1),
            forall|j: int|
                0 <= j < i ==> (#[trigger] pairs@[j] matches Value::Array(kv) && kv@.len() == 2
                    && spec_cell_decode_rel(*key_type, cells@[j].0, kv@[0])
                    && spec_cell_decode_rel(*value_type, cells@[j].1, kv@[1])),
        decreases len - i,
    {
        let key_value = cell_to_value(key_type, &cells[i].0)?;
        let val_value = cell_to_value(value_type, &cells[i].1)?;
        let mut pair: Vec<Value> = Vec::new();
        pair.push(key_value);
        pair.push(val_value);
        pairs.push(Value::Array(pair));
        i = i + 1;
    }
    Ok(Value::Array(pairs))
}

} // verus!
