//! The call dispatcher's compute core.
//!
//! One native call is planned in full before anything native runs: the
//! argument list is converted into call-boundary representations, the
//! calling-convention tags for every argument and for the return value
//! are fixed, and any conversion failure aborts the call before the
//! native layer is reached.  After the native call, the raw return is
//! converted back into a host-level result.  Only the call itself — the
//! symbol lookup and the foreign invocation — is native work.

use vstd::prelude::*;
use vstd::string::StringSliceAdditionalSpecFns;
use vstd::utf8::{decode_utf8, encode_utf8, valid_utf8};

use crate::error::{FfiError, FfiErrorKind};
use crate::num::{is_integral, trunc_i64, Num};
use crate::types::integer::as_signed;
use crate::types::string::{c_string_bytes, decode_c_string, eq_str, spec_no_interior_nul};

verus! {

/// One argument of the plain call protocol: the host layer hands the
/// dispatcher nothing but these shapes.  Float values carry their
/// IEEE-754 bit patterns.
#[derive(Debug, PartialEq, Eq)]
pub enum CallArg {
    U8(u8),
    U16(u16),
    U32(u32),
    U64(u64),
    I8(i8),
    I16(i16),
    I32(i32),
    I64(i64),
    F32(u32),
    F64(u64),
    Boolean(bool),
    Text(String),
    Pointer(usize),
    TextArray(Vec<String>),
    U8Array(Vec<u8>),
    U16Array(Vec<u16>),
    U32Array(Vec<u32>),
    U64Array(Vec<u64>),
    I8Array(Vec<i8>),
    I16Array(Vec<i16>),
    I32Array(Vec<i32>),
    I64Array(Vec<i64>),
    F32Array(Vec<u32>),
    F64Array(Vec<u64>),
}

/// One argument as the native call will see it: strings already copied
/// into null-terminated buffers, everything else as plain machine values
/// whose address the invoker passes.
#[derive(Debug, PartialEq, Eq)]
pub enum FfiArg {
    U8(u8),
    U16(u16),
    U32(u32),
    U64(u64),
    I8(i8),
    I16(i16),
    I32(i32),
    I64(i64),
    F32(u32),
    F64(u64),
    Boolean(u8),
    CStr(Vec<u8>),
    Pointer(usize),
    CStrArray(Vec<Vec<u8>>),
    U8Array(Vec<u8>),
    U16Array(Vec<u16>),
    U32Array(Vec<u32>),
    U64Array(Vec<u64>),
    I8Array(Vec<i8>),
    I16Array(Vec<i16>),
    I32Array(Vec<i32>),
    I64Array(Vec<i64>),
    F32Array(Vec<u32>),
    F64Array(Vec<u64>),
}

/// A calling-convention type tag: which native machine type one slot of
/// the call interface has.
#[derive(Debug, Clone, Copy, PartialEq, Eq, Structural)]
pub enum FfiTypeTag {
    U8,
    U16,
    U32,
    U64,
    I8,
    I16,
    I32,
    I64,
    F32,
    F64,
    Pointer,
    Void,
}

/// Whether a converted argument keeps exactly the contents of the plain
/// argument it came from.  Opaque: callers reveal it where they need the
/// per-shape detail.
#[verifier::opaque]
pub open spec fn spec_arg_rel(a: CallArg, f: FfiArg) -> bool {
    match a {
        CallArg::U8(v) => f == FfiArg::U8(v),
        CallArg::U16(v) => f == FfiArg::U16(v),
        CallArg::U32(v) => f == FfiArg::U32(v),
        CallArg::U64(v) => f == FfiArg::U64(v),
        CallArg::I8(v) => f == FfiArg::I8(v),
        CallArg::I16(v) => f == FfiArg::I16(v),
        CallArg::I32(v) => f == FfiArg::I32(v),
        CallArg::I64(v) => f == FfiArg::I64(v),
        CallArg::F32(v) => f == FfiArg::F32(v),
        CallArg::F64(v) => f == FfiArg::F64(v),
        CallArg::Boolean(b) => f == FfiArg::Boolean(if b { 1u8 } else { 0u8 }),
        CallArg::Text(s) => f matches FfiArg::CStr(b) && b@ == encode_utf8(s@) + seq![0u8],
        CallArg::Pointer(p) => f == FfiArg::Pointer(p),
        CallArg::TextArray(items) => f matches FfiArg::CStrArray(bs) && bs@.len() == items@.len()
            && (forall|i: int|
            0 <= i < items@.len() ==> #[trigger] bs@[i]@ == encode_utf8(items@[i]@) + seq![0u8]),
        CallArg::U8Array(v) => f matches FfiArg::U8Array(w) && w@ == v@,
        CallArg::U16Array(v) => f matches FfiArg::U16Array(w) && w@ == v@,
        CallArg::U32Array(v) => f matches FfiArg::U32Array(w) && w@ == v@,
        CallArg::U64Array(v) => f matches FfiArg::U64Array(w) && w@ == v@,
        CallArg::I8Array(v) => f matches FfiArg::I8Array(w) && w@ == v@,
        CallArg::I16Array(v) => f matches FfiArg::I16Array(w) && w@ == v@,
        CallArg::I32Array(v) => f matches FfiArg::I32Array(w) && w@ == v@,
        CallArg::I64Array(v) => f matches FfiArg::I64Array(w) && w@ == v@,
        CallArg::F32Array(v) => f matches FfiArg::F32Array(w) && w@ == v@,
        CallArg::F64Array(v) => f matches FfiArg::F64Array(w) && w@ == v@,
    }
}

/// Whether a plain argument can be converted: only strings can fail, on
/// an interior zero byte.  Opaque: callers reveal it where they need the
/// per-shape detail.
#[verifier::opaque]
pub open spec fn spec_arg_can(a: CallArg) -> bool {
    match a {
        CallArg::Text(s) => spec_no_interior_nul(encode_utf8(s@)),
        CallArg::TextArray(items) => forall|i: int|
            0 <= i < items@.len() ==> spec_no_interior_nul(encode_utf8(#[trigger] items@[i]@)),
        _ => true,
    }
}

/// The calling-convention tag of an argument shape: numeric values keep
/// their width, booleans travel as an unsigned byte, and everything
/// backed by memory is a pointer.
pub open spec fn spec_arg_tag(f: FfiArg) -> FfiTypeTag {
    match f {
        FfiArg::U8(_) => FfiTypeTag::U8,
        FfiArg::U16(_) => FfiTypeTag::U16,
        FfiArg::U32(_) => FfiTypeTag::U32,
        FfiArg::U64(_) => FfiTypeTag::U64,
        FfiArg::I8(_) => FfiTypeTag::I8,
        FfiArg::I16(_) => FfiTypeTag::I16,
        FfiArg::I32(_) => FfiTypeTag::I32,
        FfiArg::I64(_) => FfiTypeTag::I64,
        FfiArg::F32(_) => FfiTypeTag::F32,
        FfiArg::F64(_) => FfiTypeTag::F64,
        FfiArg::Boolean(_) => FfiTypeTag::U8,
        _ => FfiTypeTag::Pointer,
    }
}

impl FfiArg {
    /// Converts one plain argument into its native form, copying strings
    /// into null-terminated buffers.  Fails exactly when a string holds
    /// an interior zero byte.
    #[verifier::loop_isolation(false)]
    pub fn from_call_arg(arg: &CallArg) -> (r: Result<FfiArg, FfiError>)
        ensures
            r is Ok <==> spec_arg_can(*arg),
            r matches Ok(f) ==> spec_arg_rel(*arg, f),
            r matches Err(e) ==> e.kind == FfiErrorKind::TypeMismatch,
    {
        proof {
            reveal(spec_arg_rel);
            reveal(spec_arg_can);
        }
        match arg {
            CallArg::U8(v) => Ok(FfiArg::U8(*v)),
            CallArg::U16(v) => Ok(FfiArg::U16(*v)),
            CallArg::U32(v) => Ok(FfiArg::U32(*v)),
            CallArg::U64(v) => Ok(FfiArg::U64(*v)),
            CallArg::I8(v) => Ok(FfiArg::I8(*v)),
            CallArg::I16(v) => Ok(FfiArg::I16(*v)),
            CallArg::I32(v) => Ok(FfiArg::I32(*v)),
            CallArg::I64(v) => Ok(FfiArg::I64(*v)),
            CallArg::F32(v) => Ok(FfiArg::F32(*v)),
            CallArg::F64(v) => Ok(FfiArg::F64(*v)),
            CallArg::Boolean(b) => Ok(FfiArg::Boolean(if *b { 1 } else { 0 })),
            CallArg::Text(s) => {
                let bytes = c_string_bytes(s.as_str())?;
                Ok(FfiArg::CStr(bytes))
            },
            CallArg::Pointer(p) => Ok(FfiArg::Pointer(*p)),
            CallArg::TextArray(items) => {
                let mut out: Vec<Vec<u8>> = Vec::new();
                let mut i: usize = 0;
                let len: usize = items.len();
                while i < len
                    invariant
                        0 <= i <= len,
                        len == items@.len(),
                        out@.len() == i,
                        forall|j: int|
                            0 <= j < i ==> #[trigger] out@[j]@ == encode_utf8(items@[j]@) + seq![
                                0u8,
                            ],
                        forall|j: int|
                            0 <= j < i ==> spec_no_interior_nul(
                                encode_utf8(#[trigger] items@[j]@),
                            ),
                    decreases len - i,
                {
                    match c_string_bytes(items[i].as_str()) {
                        Ok(bytes) => {
                            out.push(bytes);
                        },
                        Err(e) => {
                            proof {
                                assert(!spec_no_interior_nul(encode_utf8(items@[i as int]@)));
                            }
                            return Err(e);
                        },
                    }
                    i = i + 1;
                }
                Ok(FfiArg::CStrArray(out))
            },
            CallArg::U8Array(v) => Ok(FfiArg::U8Array(clone_vec(v))),
            CallArg::U16Array(v) => Ok(FfiArg::U16Array(clone_vec(v))),
            CallArg::U32Array(v) => Ok(FfiArg::U32Array(clone_vec(v))),
            CallArg::U64Array(v) => Ok(FfiArg::U64Array(clone_vec(v))),
            CallArg::I8Array(v) => Ok(FfiArg::I8Array(clone_vec(v))),
            CallArg::I16Array(v) => Ok(FfiArg::I16Array(clone_vec(v))),
            CallArg::I32Array(v) => Ok(FfiArg::I32Array(clone_vec(v))),
            CallArg::I64Array(v) => Ok(FfiArg::I64Array(clone_vec(v))),
            CallArg::F32Array(v) => Ok(FfiArg::F32Array(clone_vec(v))),
            CallArg::F64Array(v) => Ok(FfiArg::F64Array(clone_vec(v))),
        }
    }

    /// The calling-convention tag of this argument.
    pub fn type_tag(&self) -> (r: FfiTypeTag)
        ensures
            r == spec_arg_tag(*self),
    {
        match self {
            FfiArg::U8(_) => FfiTypeTag::U8,
            FfiArg::U16(_) => FfiTypeTag::U16,
            FfiArg::U32(_) => FfiTypeTag::U32,
            FfiArg::U64(_) => FfiTypeTag::U64,
            FfiArg::I8(_) => FfiTypeTag::I8,
            FfiArg::I16(_) => FfiTypeTag::I16,
            FfiArg::I32(_) => FfiTypeTag::I32,
            FfiArg::I64(_) => FfiTypeTag::I64,
            FfiArg::F32(_) => FfiTypeTag::F32,
            FfiArg::F64(_) => FfiTypeTag::F64,
            FfiArg::Boolean(_) => FfiTypeTag::U8,
            _ => FfiTypeTag::Pointer,
        }
    }
}

/// The declared return shape of one call.
#[derive(Debug, Clone, Copy, PartialEq, Eq, Structural)]
pub enum ReturnKind {
    Void,
    U8,
    U16,
    U32,
    U64,
    I8,
    I16,
    I32,
    I64,
    F32,
    F64,
    Text,
    Boolean,
    GPointer,
    GObject,
    GObjectBorrowed,
}

impl ReturnKind {
    /// Parses a declared return shape from its protocol name; an unknown
    /// name is a descriptor error the caller reports before the call.
    pub fn from_name(name: &str) -> (r: Option<ReturnKind>)
        ensures
            name@ == "void"@ ==> r == Some(ReturnKind::Void),
            name@ == "u8"@ ==> r == Some(ReturnKind::U8),
            name@ == "u16"@ ==> r == Some(ReturnKind::U16),
            name@ == "u32"@ ==> r == Some(ReturnKind::U32),
            name@ == "u64"@ ==> r == Some(ReturnKind::U64),
            name@ == "i8"@ ==> r == Some(ReturnKind::I8),
            name@ == "i16"@ ==> r == Some(ReturnKind::I16),
            name@ == "i32"@ ==> r == Some(ReturnKind::I32),
            name@ == "i64"@ ==> r == Some(ReturnKind::I64),
            name@ == "f32"@ ==> r == Some(ReturnKind::F32),
            name@ == "f64"@ ==> r == Some(ReturnKind::F64),
            name@ == "string"@ ==> r == Some(ReturnKind::Text),
            name@ == "boolean"@ ==> r == Some(ReturnKind::Boolean),
            name@ == "gpointer"@ ==> r == Some(ReturnKind::GPointer),
            name@ == "gobject"@ ==> r == Some(ReturnKind::GObject),
            name@ == "gobject-borrowed"@ ==> r == Some(ReturnKind::GObjectBorrowed),
            !(name@ == "void"@ || name@ == "u8"@ || name@ == "u16"@ || name@ == "u32"@ || name@
                == "u64"@ || name@ == "i8"@ || name@ == "i16"@ || name@ == "i32"@ || name@
                == "i64"@ || name@ == "f32"@ || name@ == "f64"@ || name@ == "string"@ || name@
                == "boolean"@ || name@ == "gpointer"@ || name@ == "gobject"@ || name@
                == "gobject-borrowed"@) ==> r is None,
    {
        proof {
            reveal_strlit("void");
            reveal_strlit("u8");
            reveal_strlit("u16");
            reveal_strlit("u32");
            reveal_strlit("u64");
            reveal_strlit("i8");
            reveal_strlit("i16");
            reveal_strlit("i32");
            reveal_strlit("i64");
            reveal_strlit("f32");
            reveal_strlit("f64");
            reveal_strlit("string");
            reveal_strlit("boolean");
            reveal_strlit("gpointer");
            reveal_strlit("gobject");
            reveal_strlit("gobject-borrowed");
            assert("void"@.len() == 4);
            assert("u8"@.len() == 2);
            assert("u16"@.len() == 3);
            assert("u32"@.len() == 3);
            assert("u64"@.len() == 3);
            assert("i8"@.len() == 2);
            assert("i16"@.len() == 3);
            assert("i32"@.len() == 3);
            assert("i64"@.len() == 3);
            assert("f32"@.len() == 3);
            assert("f64"@.len() == 3);
            assert("string"@.len() == 6);
            assert("boolean"@.len() == 7);
            assert("gpointer"@.len() == 8);
            assert("gobject"@.len() == 7);
            assert("gobject-borrowed"@.len() == 16);
            assert("u8"@ != "i8"@) by {
                assert("u8"@[0] == 'u' && "i8"@[0] == 'i');
            }
            assert("u16"@ != "u32"@) by {
                assert("u16"@[1] == '1' && "u32"@[1] == '3');
            }
            assert("u16"@ != "u64"@) by {
                assert("u16"@[1] == '1' && "u64"@[1] == '6');
            }
            assert("u16"@ != "i16"@) by {
                assert("u16"@[0] == 'u' && "i16"@[0] == 'i');
            }
            assert("u16"@ != "i32"@) by {
                assert("u16"@[0] == 'u' && "i32"@[0] == 'i');
            }
            assert("u16"@ != "i64"@) by {
                assert("u16"@[0] == 'u' && "i64"@[0] == 'i');
            }
            assert("u16"@ != "f32"@) by {
                assert("u16"@[0] == 'u' && "f32"@[0] == 'f');
            }
            assert("u16"@ != "f64"@) by {
                assert("u16"@[0] == 'u' && "f64"@[0] == 'f');
            }
            assert("u32"@ != "u64"@) by {
                assert("u32"@[1] == '3' && "u64"@[1] == '6');
            }
            assert("u32"@ != "i16"@) by {
                assert("u32"@[0] == 'u' && "i16"@[0] == 'i');
            }
            assert("u32"@ != "i32"@) by {
                assert("u32"@[0] == 'u' && "i32"@[0] == 'i');
            }
            assert("u32"@ != "i64"@) by {
                assert("u32"@[0] == 'u' && "i64"@[0] == 'i');
            }
            assert("u32"@ != "f32"@) by {
                assert("u32"@[0] == 'u' && "f32"@[0] == 'f');
            }
            assert("u32"@ != "f64"@) by {
                assert("u32"@[0] == 'u' && "f64"@[0] == 'f');
            }
            assert("u64"@ != "i16"@) by {
                assert("u64"@[0] == 'u' && "i16"@[0] == 'i');
            }
            assert("u64"@ != "i32"@) by {
                assert("u64"@[0] == 'u' && "i32"@[0] == 'i');
            }
            assert("u64"@ != "i64"@) by {
                assert("u64"@[0] == 'u' && "i64"@[0] == 'i');
            }
            assert("u64"@ != "f32"@) by {
                assert("u64"@[0] == 'u' && "f32"@[0] == 'f');
            }
            assert("u64"@ != "f64"@) by {
                assert("u64"@[0] == 'u' && "f64"@[0] == 'f');
            }
            assert("i16"@ != "i32"@) by {
                assert("i16"@[1] == '1' && "i32"@[1] == '3');
            }
            assert("i16"@ != "i64"@) by {
                assert("i16"@[1] == '1' && "i64"@[1] == '6');
            }
            assert("i16"@ != "f32"@) by {
                assert("i16"@[0] == 'i' && "f32"@[0] == 'f');
            }
            assert("i16"@ != "f64"@) by {
                assert("i16"@[0] == 'i' && "f64"@[0] == 'f');
            }
            assert("i32"@ != "i64"@) by {
                assert("i32"@[1] == '3' && "i64"@[1] == '6');
            }
            assert("i32"@ != "f32"@) by {
                assert("i32"@[0] == 'i' && "f32"@[0] == 'f');
            }
            assert("i32"@ != "f64"@) by {
                assert("i32"@[0] == 'i' && "f64"@[0] == 'f');
            }
            assert("i64"@ != "f32"@) by {
                assert("i64"@[0] == 'i' && "f32"@[0] == 'f');
            }
            assert("i64"@ != "f64"@) by {
                assert("i64"@[0] == 'i' && "f64"@[0] == 'f');
            }
            assert("f32"@ != "f64"@) by {
                assert("f32"@[1] == '3' && "f64"@[1] == '6');
            }
            assert("boolean"@ != "gobject"@) by {
                assert("boolean"@[0] == 'b' && "gobject"@[0] == 'g');
            }
        }
        if eq_str(name, "void") {
            Some(ReturnKind::Void)
        } else if eq_str(name, "u8") {
            Some(ReturnKind::U8)
        } else if eq_str(name, "u16") {
            Some(ReturnKind::U16)
        } else if eq_str(name, "u32") {
            Some(ReturnKind::U32)
        } else if eq_str(name, "u64") {
            Some(ReturnKind::U64)
        } else if eq_str(name, "i8") {
            Some(ReturnKind::I8)
        } else if eq_str(name, "i16") {
            Some(ReturnKind::I16)
        } else if eq_str(name, "i32") {
            Some(ReturnKind::I32)
        } else if eq_str(name, "i64") {
            Some(ReturnKind::I64)
        } else if eq_str(name, "f32") {
            Some(ReturnKind::F32)
        } else if eq_str(name, "f64") {
            Some(ReturnKind::F64)
        } else if eq_str(name, "string") {
            Some(ReturnKind::Text)
        } else if eq_str(name, "boolean") {
            Some(ReturnKind::Boolean)
        } else if eq_str(name, "gpointer") {
            Some(ReturnKind::GPointer)
        } else if eq_str(name, "gobject") {
            Some(ReturnKind::GObject)
        } else if eq_str(name, "gobject-borrowed") {
            Some(ReturnKind::GObjectBorrowed)
        } else {
            None
        }
    }

    /// The calling-convention tag the native call uses for this return
    /// shape.
    pub fn ffi_type_tag(&self) -> (r: FfiTypeTag)
        ensures
            r == spec_return_tag(*self),
    {
        match self {
            ReturnKind::Void => FfiTypeTag::Void,
            ReturnKind::U8 => FfiTypeTag::U8,
            ReturnKind::U16 => FfiTypeTag::U16,
            ReturnKind::U32 => FfiTypeTag::U32,
            ReturnKind::U64 => FfiTypeTag::U64,
            ReturnKind::I8 => FfiTypeTag::I8,
            ReturnKind::I16 => FfiTypeTag::I16,
            ReturnKind::I32 => FfiTypeTag::I32,
            ReturnKind::I64 => FfiTypeTag::I64,
            ReturnKind::F32 => FfiTypeTag::F32,
            ReturnKind::F64 => FfiTypeTag::F64,
            ReturnKind::Text => FfiTypeTag::Pointer,
            ReturnKind::Boolean => FfiTypeTag::U8,
            ReturnKind::GPointer | ReturnKind::GObject | ReturnKind::GObjectBorrowed => FfiTypeTag::Pointer,
        }
    }
}

/// The calling-convention tag of a return shape.
pub open spec fn spec_return_tag(k: ReturnKind) -> FfiTypeTag {
    match k {
        ReturnKind::Void => FfiTypeTag::Void,
        ReturnKind::U8 => FfiTypeTag::U8,
        ReturnKind::U16 => FfiTypeTag::U16,
        ReturnKind::U32 => FfiTypeTag::U32,
        ReturnKind::U64 => FfiTypeTag::U64,
        ReturnKind::I8 => FfiTypeTag::I8,
        ReturnKind::I16 => FfiTypeTag::I16,
        ReturnKind::I32 => FfiTypeTag::I32,
        ReturnKind::I64 => FfiTypeTag::I64,
        ReturnKind::F32 => FfiTypeTag::F32,
        ReturnKind::F64 => FfiTypeTag::F64,
        ReturnKind::Text => FfiTypeTag::Pointer,
        ReturnKind::Boolean => FfiTypeTag::U8,
        ReturnKind::GPointer | ReturnKind::GObject | ReturnKind::GObjectBorrowed => FfiTypeTag::Pointer,
    }
}

/// A complete plan for one native call: the symbol to resolve, every
/// argument in declaration order with its calling-convention tag, and
/// the declared return shape.  Nothing native has happened yet when a
/// plan exists; resolution failures and the call itself are the
/// runtime's.
#[derive(Debug, PartialEq, Eq)]
pub struct CallPlan {
    /// The symbol name's bytes, for lookup in the loaded library.
    pub symbol: Vec<u8>,
    /// The converted arguments, in declaration order.
    pub args: Vec<FfiArg>,
    /// The calling-convention tag of each argument, in the same order.
    pub arg_tags: Vec<FfiTypeTag>,
    /// The declared return shape.
    pub return_kind: ReturnKind,
    /// The calling-convention tag of the return value.
    pub return_tag: FfiTypeTag,
}

/// Builds the plan for one call: converts every argument in declaration
/// Whether `vals` and `tags` are exactly the converted form of `args`:
/// same length, every element related one to one, every tag fixed by its
/// converted element.
pub open spec fn spec_args_converted(
    args: Seq<CallArg>,
    vals: Seq<FfiArg>,
    tags: Seq<FfiTypeTag>,
) -> bool {
    &&& vals.len() == args.len()
    &&& tags.len() == args.len()
    &&& forall|i: int| 0 <= i < args.len() ==> spec_arg_rel(#[trigger] args[i], vals[i])
    &&& forall|i: int| 0 <= i < args.len() ==> #[trigger] tags[i] == spec_arg_tag(vals[i])
}

/// Converts every argument in declaration order and fixes each slot's
/// calling-convention tag; the first failing argument aborts the whole
/// conversion.
#[verifier::loop_isolation(false)]
#[verifier::spinoff_prover]
#[verifier::rlimit(100)]
fn convert_args(args: &Vec<CallArg>) -> (r: Result<(Vec<FfiArg>, Vec<FfiTypeTag>), FfiError>)
    ensures
        r is Ok <==> (forall|i: int| 0 <= i < args@.len() ==> spec_arg_can(#[trigger] args@[i])),
        r matches Ok(c) ==> spec_args_converted(args@, c.0@, c.1@),
        r matches Err(e) ==> e.kind == FfiErrorKind::TypeMismatch,
{
    let mut converted: Vec<FfiArg> = Vec::new();
    let mut tags: Vec<FfiTypeTag> = Vec::new();
    let mut i: usize = 0;
    let len: usize = args.len();
    while i < len
        invariant
            0 <= i <= len,
            len == args@.len(),
            converted@.len() == i,
            tags@.len() == i,
            forall|j: int| 0 <= j < i ==> spec_arg_can(#[trigger] args@[j]),
            forall|j: int| 0 <= j < i ==> spec_arg_rel(#[trigger] args@[j], converted@[j]),
            forall|j: int| 0 <= j < i ==> #[trigger] tags@[j] == spec_arg_tag(converted@[j]),
        decreases len - i,
    {
        let ghost old_converted = converted@;
        let ghost old_tags = tags@;
        let f = FfiArg::from_call_arg(&args[i])?;
        let tag = f.type_tag();
        converted.push(f);
        tags.push(tag);
        proof {
            assert forall|j: int|
                0 <= j < i + 1 implies spec_arg_rel(#[trigger] args@[j], converted@[j]) by {
                if j == i {
                    assert(converted@[j] == converted@[i as int]);
                    assert(spec_arg_rel(args@[j], converted@[j]));
                } else {
                    assert(converted@[j] == old_converted[j]);
                    assert(spec_arg_rel(args@[j], converted@[j]));
                }
            }
            assert forall|j: int|
                0 <= j < i + 1 implies #[trigger] tags@[j] == spec_arg_tag(converted@[j]) by {
                if j == i {
                    assert(converted@[j] == converted@[i as int]);
                    assert(tags@[j] == spec_arg_tag(converted@[j]));
                } else {
                    assert(converted@[j] == old_converted[j]);
                    assert(tags@[j] == old_tags[j]);
                    assert(tags@[j] == spec_arg_tag(converted@[j]));
                }
            }
        }
        i = i + 1;
    }
    proof {
        assert(spec_args_converted(args@, converted@, tags@));
    }
    Ok((converted, tags))
}

/// Copies a symbol name's bytes for lookup in the loaded library.
fn symbol_bytes_of(symbol: &str) -> (r: Vec<u8>)
    ensures
        r@ == encode_utf8(symbol@),
{
    let mut out: Vec<u8> = Vec::new();
    let sb: &[u8] = symbol.as_bytes();
    let mut k: usize = 0;
    let slen: usize = sb.len();
    while k < slen
        invariant
            0 <= k <= slen,
            slen == symbol.spec_bytes().len(),
            sb@ == symbol.spec_bytes(),
            out@ == symbol.spec_bytes().subrange(0, k as int),
        decreases slen - k,
    {
        out.push(sb[k]);
        k = k + 1;
    }
    proof {
        assert(out@ =~= symbol.spec_bytes());
    }
    out
}

/// Builds the plan for one call: converts every argument in declaration
/// order and fixes the call interface.  Any conversion failure aborts
/// the plan before any native work; the first failing argument decides.
pub fn plan_call(symbol: &str, args: &Vec<CallArg>, return_kind: ReturnKind) -> (r: Result<
    CallPlan,
    FfiError,
>)
    ensures
        r is Ok <==> (forall|i: int| 0 <= i < args@.len() ==> spec_arg_can(#[trigger] args@[i])),
        r matches Ok(plan) ==> plan.symbol@ == encode_utf8(symbol@),
        r matches Ok(plan) ==> spec_args_converted(args@, plan.args@, plan.arg_tags@),
        r matches Ok(plan) ==> plan.return_kind == return_kind && plan.return_tag
            == spec_return_tag(return_kind),
        r matches Err(e) ==> e.kind == FfiErrorKind::TypeMismatch,
{
    let pair = convert_args(args)?;
    let (converted, tags) = pair;
    let symbol_bytes = symbol_bytes_of(symbol);
    let return_tag = return_kind.ffi_type_tag();
    Ok(CallPlan { symbol: symbol_bytes, args: converted, arg_tags: tags, return_kind, return_tag })
}

/// The raw value one native call returned, lifted to plain data by the
/// invoker: the machine word zero-extended for integer and pointer
/// returns, the bit pattern for float returns, and the bytes behind the
/// pointer for string returns (absent when the pointer was null).
#[derive(Debug, PartialEq, Eq)]
pub enum RawReturn {
    Void,
    Word(u64),
    F32(u32),
    F64(u64),
    CStr(Option<Vec<u8>>),
    Ptr(usize),
}

/// The host-level result of one call.
#[derive(Debug, PartialEq, Eq)]
pub enum CallResult {
    Number(Num),
    Text(String),
    Boolean(bool),
    GPointer(usize),
    /// A null pointer result of a pointer-backed shape: null decodes to
    /// the host's null, never to an error and never to a made-up value.
    Null,
    Void,
}

/// The signed reading of the low `width` bytes of a raw machine word,
/// two's complement.
pub open spec fn spec_word_signed(w: u64, modulus: int) -> int {
    as_signed((w as int) % modulus, modulus)
}

/// Whether a raw return fits the declared shape, so that decoding it
/// succeeds: machine words for the integer and boolean shapes, the
/// matching bit patterns for floats, a possibly-absent byte copy for
/// strings — valid UTF-8 when present — and a pointer for the
/// pointer-backed shapes.
pub open spec fn spec_return_shape_ok(kind: ReturnKind, raw: RawReturn) -> bool {
    match kind {
        ReturnKind::Void => raw is Void,
        ReturnKind::U8 | ReturnKind::U16 | ReturnKind::U32 | ReturnKind::U64 | ReturnKind::I8
            | ReturnKind::I16 | ReturnKind::I32 | ReturnKind::I64 | ReturnKind::Boolean => raw
            is Word,
        ReturnKind::F32 => raw is F32,
        ReturnKind::F64 => raw is F64,
        ReturnKind::Text => match raw {
            RawReturn::CStr(opt) => match opt {
                Option::None => true,
                Option::Some(bytes) => valid_utf8(bytes@),
            },
            _ => false,
        },
        ReturnKind::GPointer | ReturnKind::GObject | ReturnKind::GObjectBorrowed => raw is Ptr,
    }
}

/// Converts the raw return of one call into the host-level result the
/// declared shape promises, succeeding exactly on raw values that fit
/// the shape.  Integer results become numbers (exactly, for every
/// magnitude under `2^53`); string results are copied and must be valid
/// UTF-8, with a null string pointer decoding to the host's null;
/// pointer-shaped results stay opaque handles for the host layer to
/// adopt.  A raw value that does not fit the declared shape is a decode
/// error — the runtime lifted the wrong width.
pub fn decode_return(kind: ReturnKind, raw: RawReturn) -> (r: Result<CallResult, FfiError>)
    ensures
        r is Ok <==> spec_return_shape_ok(kind, raw),
        r matches Ok(c) ==> match kind {
            ReturnKind::Void => c == CallResult::Void,
            ReturnKind::U8 => raw matches RawReturn::Word(w) && (c matches CallResult::Number(n)
                && is_integral(n.bits) && trunc_i64(n.bits) == (w as int) % 0x100),
            ReturnKind::U16 => raw matches RawReturn::Word(w) && (c matches CallResult::Number(n)
                && is_integral(n.bits) && trunc_i64(n.bits) == (w as int) % 0x1_0000),
            ReturnKind::U32 => raw matches RawReturn::Word(w) && (c matches CallResult::Number(n)
                && is_integral(n.bits) && trunc_i64(n.bits) == (w as int) % 0x1_0000_0000),
            ReturnKind::U64 => raw matches RawReturn::Word(w) && (c matches CallResult::Number(n)
                && is_integral(n.bits) && ((w as int) < 0x20_0000_0000_0000 ==> trunc_i64(n.bits)
                == w as int)),
            ReturnKind::I8 => raw matches RawReturn::Word(w) && (c matches CallResult::Number(n)
                && is_integral(n.bits) && trunc_i64(n.bits) == spec_word_signed(w, 0x100)),
            ReturnKind::I16 => raw matches RawReturn::Word(w) && (c matches CallResult::Number(n)
                && is_integral(n.bits) && trunc_i64(n.bits) == spec_word_signed(w, 0x1_0000)),
            ReturnKind::I32 => raw matches RawReturn::Word(w) && (c matches CallResult::Number(n)
                && is_integral(n.bits) && trunc_i64(n.bits) == spec_word_signed(w, 0x1_0000_0000)),
            ReturnKind::I64 => raw matches RawReturn::Word(w) && (c matches CallResult::Number(n)
                && is_integral(n.bits) && {
                let v = spec_word_signed(w, 0x1_0000_0000_0000_0000);
                -0x20_0000_0000_0000 < v < 0x20_0000_0000_0000 ==> trunc_i64(n.bits) == v
            }),
            ReturnKind::F32 => raw is F32 && c is Number,
            ReturnKind::F64 => raw matches RawReturn::F64(bits) && c == CallResult::Number(
                Num { bits },
            ),
            ReturnKind::Text => match raw {
                RawReturn::CStr(opt) => match opt {
                    Option::None => c == CallResult::Null,
                    Option::Some(bytes) => valid_utf8(bytes@) && (c matches CallResult::Text(s)
                        && s@ == decode_utf8(bytes@)),
                },
                _ => false,
            },
            ReturnKind::Boolean => raw matches RawReturn::Word(w) && c == CallResult::Boolean(
                w != 0,
            ),
            ReturnKind::GPointer | ReturnKind::GObject | ReturnKind::GObjectBorrowed => raw
                matches RawReturn::Ptr(p) && c == CallResult::GPointer(p),
        },
        r matches Err(e) ==> e.kind == FfiErrorKind::Decode,
{
    match kind {
        ReturnKind::Void => match raw {
            RawReturn::Void => Ok(CallResult::Void),
            _ => Err(decode_shape_error()),
        },
        ReturnKind::U8 => match raw {
            RawReturn::Word(w) => {
                let v: u64 = w % 0x100;
                Ok(CallResult::Number(Num::from_u64(v)))
            },
            _ => Err(decode_shape_error()),
        },
        ReturnKind::U16 => match raw {
            RawReturn::Word(w) => {
                let v: u64 = w % 0x1_0000;
                Ok(CallResult::Number(Num::from_u64(v)))
            },
            _ => Err(decode_shape_error()),
        },
        ReturnKind::U32 => match raw {
            RawReturn::Word(w) => {
                let v: u64 = w % 0x1_0000_0000;
                Ok(CallResult::Number(Num::from_u64(v)))
            },
            _ => Err(decode_shape_error()),
        },
        ReturnKind::U64 => match raw {
            RawReturn::Word(w) => Ok(CallResult::Number(Num::from_u64(w))),
            _ => Err(decode_shape_error()),
        },
        ReturnKind::I8 => match raw {
            RawReturn::Word(w) => {
                let low: u64 = w % 0x100;
                let v: i64 = if low >= 0x80 {
                    (low as i64) - 0x100
                } else {
                    low as i64
                };
                Ok(CallResult::Number(Num::from_i64(v)))
            },
            _ => Err(decode_shape_error()),
        },
        ReturnKind::I16 => match raw {
            RawReturn::Word(w) => {
                let low: u64 = w % 0x1_0000;
                let v: i64 = if low >= 0x8000 {
                    (low as i64) - 0x1_0000
                } else {
                    low as i64
                };
                Ok(CallResult::Number(Num::from_i64(v)))
            },
            _ => Err(decode_shape_error()),
        },
        ReturnKind::I32 => match raw {
            RawReturn::Word(w) => {
                let low: u64 = w % 0x1_0000_0000;
                let v: i64 = if low >= 0x8000_0000 {
                    (low as i64) - 0x1_0000_0000
                } else {
                    low as i64
                };
                Ok(CallResult::Number(Num::from_i64(v)))
            },
            _ => Err(decode_shape_error()),
        },
        ReturnKind::I64 => match raw {
            RawReturn::Word(w) => {
                let v: i64 = if w >= 0x8000_0000_0000_0000 {
                    ((w - 0x8000_0000_0000_0000) as i64) + i64::MIN
                } else {
                    w as i64
                };
                Ok(CallResult::Number(Num::from_i64(v)))
            },
            _ => Err(decode_shape_error()),
        },
        ReturnKind::F32 => match raw {
            RawReturn::F32(bits) => Ok(CallResult::Number(Num::promote_from_f32_bits(bits))),
            _ => Err(decode_shape_error()),
        },
        ReturnKind::F64 => match raw {
            RawReturn::F64(bits) => Ok(CallResult::Number(Num { bits })),
            _ => Err(decode_shape_error()),
        },
        ReturnKind::Text => match raw {
            RawReturn::CStr(opt) => match opt {
                Option::None => Ok(CallResult::Null),
                Option::Some(bytes) => {
                    let s = decode_c_string(bytes)?;
                    Ok(CallResult::Text(s))
                },
            },
            _ => Err(decode_shape_error()),
        },
        ReturnKind::Boolean => match raw {
            RawReturn::Word(w) => Ok(CallResult::Boolean(w != 0)),
            _ => Err(decode_shape_error()),
        },
        ReturnKind::GPointer | ReturnKind::GObject | ReturnKind::GObjectBorrowed => match raw {
            RawReturn::Ptr(p) => Ok(CallResult::GPointer(p)),
            _ => Err(decode_shape_error()),
        },
    }
}

/// The decode error for a raw return of the wrong shape.
fn decode_shape_error() -> (r: FfiError)
    ensures
        r.kind == FfiErrorKind::Decode,
{
    FfiError::decode("native return arrived in the wrong raw shape".to_owned())
}

/// A copy of a vector of plain machine values, element for element.
fn clone_vec<T: Copy>(v: &Vec<T>) -> (r: Vec<T>)
    ensures
        r@ == v@,
{
    let mut out: Vec<T> = Vec::new();
    let mut i: usize = 0;
    let len: usize = v.len();
    while i < len
        invariant
            0 <= i <= len,
            len == v@.len(),
            out@ == v@.subrange(0, i as int),
        decreases len - i,
    {
        out.push(v[i]);
        i = i + 1;
    }
    proof {
        assert(out@ =~= v@);
    }
    out
}

} // verus!
