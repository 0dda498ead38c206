//! String type descriptor and the C string codec.
//!
//! Strings cross the boundary as null-terminated byte buffers.  Encoding
//! copies the host string's UTF-8 bytes and appends the terminator,
//! rejecting interior zero bytes; decoding validates that native bytes
//! are UTF-8 before building a host string.

use vstd::prelude::*;
use vstd::string::StringSliceAdditionalSpecFns;
use vstd::utf8::{decode_utf8, encode_utf8_decode_utf8, valid_utf8};

use crate::error::{FfiError, FfiErrorKind};
use crate::types::ownership::Ownership;

verus! {

/// Type descriptor for string types.
///
/// The ownership declaration says whether the native buffer belongs to
/// the callee (borrowed) or is handed over to be freed by the receiver.
#[derive(Debug, Clone, Copy, PartialEq, Eq, Structural)]
pub struct StringType {
    /// Who owns the native buffer.
    pub ownership: Ownership,
}

impl StringType {
    /// Creates a new string type descriptor from a "borrowed" flag.
    pub fn new(is_borrowed: bool) -> (r: Self)
        ensures
            r.ownership == (if is_borrowed { Ownership::Borrowed } else { Ownership::Full }),
    {
        StringType { ownership: Ownership::from_borrowed_flag(is_borrowed) }
    }

    /// Whether the native buffer is borrowed from the callee.
    pub fn is_borrowed(&self) -> (r: bool)
        ensures
            r == (self.ownership is Borrowed),
    {
        !self.ownership.is_full()
    }
}

/// Whether a byte sequence can be a C string body: no zero byte anywhere.
pub open spec fn spec_no_interior_nul(bytes: Seq<u8>) -> bool {
    forall|i: int| 0 <= i < bytes.len() ==> bytes[i] != 0
}

/// Copies a host string into a null-terminated byte buffer.  Fails with a
/// type-mismatch error exactly when the string holds an interior zero
/// byte, which no C string can carry.
pub fn c_string_bytes(s: &str) -> (r: Result<Vec<u8>, FfiError>)
    ensures
        r matches Ok(b) ==> {
            &&& spec_no_interior_nul(s.spec_bytes())
            &&& b@ == s.spec_bytes() + seq![0u8]
        },
        r matches Err(e) ==> {
            &&& !spec_no_interior_nul(s.spec_bytes())
            &&& e.kind == FfiErrorKind::TypeMismatch
        },
{
    let bytes: &[u8] = s.as_bytes();
    let len: usize = bytes.len();
    let mut out: Vec<u8> = Vec::new();
    let mut i: usize = 0;
    while i < len
        invariant
            0 <= i <= len,
            len == s.spec_bytes().len(),
            bytes@ == s.spec_bytes(),
            out@ == s.spec_bytes().subrange(0, i as int),
            forall|j: int| 0 <= j < i ==> s.spec_bytes()[j] != 0,
        decreases len - i,
    {
        let b: u8 = bytes[i];
        if b == 0 {
            return Err(FfiError::type_mismatch(
                "string holds an interior zero byte and cannot cross as a C string".to_owned(),
            ));
        }
        out.push(b);
        i = i + 1;
    }
    proof {
        assert(out@ =~= s.spec_bytes());
    }
    out.push(0);
    Ok(out)
}

/// Builds a host string from the bytes of a native C string (terminator
/// already stripped).  Fails with a decode error exactly when the bytes
/// are not valid UTF-8.
pub fn decode_c_string(bytes: Vec<u8>) -> (r: Result<String, FfiError>)
    ensures
        r matches Ok(s) ==> {
            &&& valid_utf8(bytes@)
            &&& s@ == decode_utf8(bytes@)
        },
        r matches Err(e) ==> {
            &&& !valid_utf8(bytes@)
            &&& e.kind == FfiErrorKind::Decode
        },
{
    match string_from_utf8(bytes) {
        Some(s) => Ok(s),
        None => Err(FfiError::decode("native string is not valid UTF-8".to_owned())),
    }
}

/// Whether two string slices hold the same characters, decided by
/// comparing their UTF-8 bytes: equal bytes decode to equal characters,
/// and equal characters encode to equal bytes.
pub(crate) fn eq_str(a: &str, b: &str) -> (r: bool)
    ensures
        r <==> a@ == b@,
{
    let ab: &[u8] = a.as_bytes();
    let bb: &[u8] = b.as_bytes();
    proof {
        encode_utf8_decode_utf8(a@);
        encode_utf8_decode_utf8(b@);
    }
    if ab.len() != bb.len() {
        return false;
    }
    let len: usize = ab.len();
    let mut i: usize = 0;
    while i < len
        invariant
            0 <= i <= len,
            len == a.spec_bytes().len() == b.spec_bytes().len(),
            ab@ == a.spec_bytes(),
            bb@ == b.spec_bytes(),
            forall|j: int| 0 <= j < i ==> a.spec_bytes()[j] == b.spec_bytes()[j],
        decreases len - i,
    {
        if ab[i] != bb[i] {
            return false;
        }
        i = i + 1;
    }
    proof {
        assert(a.spec_bytes() =~= b.spec_bytes());
        assert(a@ == decode_utf8(a.spec_bytes()));
        assert(b@ == decode_utf8(b.spec_bytes()));
    }
    true
}

/// Relies on std's `String::from_utf8`: it succeeds exactly on valid
/// UTF-8 input and the resulting string holds those bytes' characters.
#[verifier::external_body]
fn string_from_utf8(bytes: Vec<u8>) -> (r: Option<String>)
    ensures
        r is Some <==> valid_utf8(bytes@),
        r matches Some(s) ==> s@ == decode_utf8(bytes@),
{
    String::from_utf8(bytes).ok()
}

} // verus!
