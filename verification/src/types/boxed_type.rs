//! Boxed type descriptor.
//!
//! A boxed argument or result is a heap value copied and freed through
//! functions registered under a type name.  When the name is not yet
//! registered, the runtime derives the conventional `<snake_case>_get_type`
//! symbol from it and loads that symbol from the named library; deriving
//! that symbol name is pure logic and is done here.

use vstd::prelude::*;
use vstd::string::StringSliceAdditionalSpecFns;
use vstd::utf8::encode_utf8;

use crate::types::ownership::Ownership;

verus! {

/// Type descriptor for boxed native types.
#[derive(Debug, Clone, PartialEq, Eq)]
pub struct BoxedType {
    /// Who owns the native value that crosses the boundary.
    pub ownership: Ownership,
    /// The registered type name (for example "GdkRGBA").
    pub inner_type: String,
    /// The library to load the type-registration symbol from, when the
    /// name is not registered yet.
    pub lib: Option<String>,
}

impl BoxedType {
    /// Creates a new boxed type descriptor.
    pub fn new(is_borrowed: bool, inner_type: String, lib: Option<String>) -> (r: Self)
        ensures
            r.ownership == (if is_borrowed { Ownership::Borrowed } else { Ownership::Full }),
            r.inner_type@ == inner_type@,
            lib is Some ==> (r.lib matches Some(l) && l@ == lib->0@),
            lib is None ==> r.lib is None,
    {
        BoxedType { ownership: Ownership::from_borrowed_flag(is_borrowed), inner_type, lib }
    }

    /// Whether the native value is borrowed from the callee.
    pub fn is_borrowed(&self) -> (r: bool)
        ensures
            r == (self.ownership is Borrowed),
    {
        !self.ownership.is_full()
    }

    /// The symbol the runtime loads to register this type: the type name
    /// in snake case followed by `_get_type`.
    pub fn get_type_symbol(&self) -> (r: Vec<u8>)
        ensures
            r@ == spec_snake_case(encode_utf8(self.inner_type@)) + spec_get_type_suffix(),
    {
        type_name_to_get_type_symbol(self.inner_type.as_str())
    }
}

/// Whether a byte is an ASCII uppercase letter.
pub open spec fn spec_is_upper(b: u8) -> bool {
    0x41 <= b <= 0x5a
}

/// What one input byte contributes to the snake-case form: an uppercase
/// letter becomes its lowercase form, preceded by an underscore unless it
/// starts the name; any other byte passes through.
pub open spec fn spec_snake_piece(b: u8, first: bool) -> Seq<u8> {
    if spec_is_upper(b) {
        if first {
            seq![(b + 0x20) as u8]
        } else {
            seq![0x5fu8, (b + 0x20) as u8]
        }
    } else {
        seq![b]
    }
}

/// The snake-case form of a name's bytes.
pub open spec fn spec_snake_case(bytes: Seq<u8>) -> Seq<u8>
    decreases bytes.len(),
{
    if bytes.len() == 0 {
        seq![]
    } else {
        spec_snake_case(bytes.drop_last()) + spec_snake_piece(bytes.last(), bytes.len() == 1)
    }
}

/// The bytes of the `_get_type` suffix.
pub open spec fn spec_get_type_suffix() -> Seq<u8> {
    seq![0x5fu8, 0x67u8, 0x65u8, 0x74u8, 0x5fu8, 0x74u8, 0x79u8, 0x70u8, 0x65u8]
}

/// Derives the conventional type-registration symbol from a type name:
/// "GdkRGBA" becomes "gdk_r_g_b_a_get_type".  Case handling is ASCII;
/// bytes outside the ASCII uppercase range pass through unchanged.
pub fn type_name_to_get_type_symbol(name: &str) -> (r: Vec<u8>)
    ensures
        r@ == spec_snake_case(name.spec_bytes()) + spec_get_type_suffix(),
{
    let bytes: &[u8] = name.as_bytes();
    let len: usize = bytes.len();
    let mut out: Vec<u8> = Vec::new();
    let mut i: usize = 0;
    while i < len
        invariant
            0 <= i <= len,
            len == name.spec_bytes().len(),
            bytes@ == name.spec_bytes(),
            out@ == spec_snake_case(name.spec_bytes().subrange(0, i as int)),
            out@.len() >= i,
        decreases len - i,
    {
        let b: u8 = bytes[i];
        if b >= 0x41 && b <= 0x5a {
            if i != 0 {
                out.push(0x5f);
            }
            out.push(b + 0x20);
        } else {
            out.push(b);
        }
        proof {
            let prefix = name.spec_bytes().subrange(0, i as int);
            let extended = name.spec_bytes().subrange(0, i + 1 as int);
            assert(extended.drop_last() =~= prefix);
            assert(extended.last() == name.spec_bytes()[i as int]);
        }
        i = i + 1;
    }
    proof {
        assert(name.spec_bytes().subrange(0, len as int) =~= name.spec_bytes());
    }
    out.push(0x5f);
    out.push(0x67);
    out.push(0x65);
    out.push(0x74);
    out.push(0x5f);
    out.push(0x74);
    out.push(0x79);
    out.push(0x70);
    out.push(0x65);
    proof {
        assert(out@ =~= spec_snake_case(name.spec_bytes()) + spec_get_type_suffix());
    }
    out
}

} // verus!
