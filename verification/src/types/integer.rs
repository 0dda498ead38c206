//! Integer type descriptors and their byte codec.
//!
//! An integer argument or return value is described by a bit width and a
//! signedness.  Host numbers are cast into the declared width with
//! two's-complement truncation — silent wrapping, as a native C cast would
//! do — and native results are read back with zero- or sign-extension.
//! All multi-byte values travel in little-endian order.

use vstd::prelude::*;
use vstd::bytes::{
    spec_u16_from_le_bytes, spec_u16_to_le_bytes, spec_u32_from_le_bytes, spec_u32_to_le_bytes,
    spec_u64_from_le_bytes, spec_u64_to_le_bytes, lemma_auto_spec_u16_to_from_le_bytes,
    lemma_auto_spec_u32_to_from_le_bytes, lemma_auto_spec_u64_to_from_le_bytes,
    u16_from_le_bytes, u16_to_le_bytes, u32_from_le_bytes, u32_to_le_bytes, u64_from_le_bytes,
    u64_to_le_bytes,
};
use vstd::slice::slice_subrange;

use crate::num::{is_integral, trunc_i64, Num};
use vstd::arithmetic::div_mod::{lemma_small_mod, lemma_mod_add_multiples_vanish};

verus! {

/// Size of an integer type in bits.
#[derive(Debug, Clone, Copy, PartialEq, Eq, Structural)]
pub enum IntegerSize {
    /// 8-bit integer.
    _8,
    /// 16-bit integer.
    _16,
    /// 32-bit integer.
    _32,
    /// 64-bit integer.
    _64,
}

impl IntegerSize {
    /// Parses a bit width; only 8, 16, 32 and 64 describe an integer.
    pub fn from_bits(bits: u64) -> (r: Option<IntegerSize>)
        ensures
            r == spec_size_from_bits(bits),
    {
        match bits {
            8 => Some(IntegerSize::_8),
            16 => Some(IntegerSize::_16),
            32 => Some(IntegerSize::_32),
            64 => Some(IntegerSize::_64),
            _ => None,
        }
    }
}

/// Which widths are integer widths, and which size each one names.
pub open spec fn spec_size_from_bits(bits: u64) -> Option<IntegerSize> {
    if bits == 8 {
        Some(IntegerSize::_8)
    } else if bits == 16 {
        Some(IntegerSize::_16)
    } else if bits == 32 {
        Some(IntegerSize::_32)
    } else if bits == 64 {
        Some(IntegerSize::_64)
    } else {
        None
    }
}

/// Signedness of an integer type.
#[derive(Debug, Clone, Copy, PartialEq, Eq, Structural)]
pub enum IntegerSign {
    /// Unsigned integer.
    Unsigned,
    /// Signed integer.
    Signed,
}

/// Type descriptor for integer types.
#[derive(Debug, Clone, Copy, PartialEq, Eq, Structural)]
pub struct IntegerType {
    /// The size of the integer.
    pub size: IntegerSize,
    /// The signedness of the integer.
    pub sign: IntegerSign,
}

impl IntegerType {
    /// Creates a new integer type with the given size and sign.
    pub fn new(size: IntegerSize, sign: IntegerSign) -> (r: Self)
        ensures
            r.size == size,
            r.sign == sign,
    {
        IntegerType { size, sign }
    }

    /// The closed width-and-sign kind this descriptor names.
    pub fn kind(&self) -> (r: IntegerKind)
        ensures
            r == spec_kind_of(*self),
    {
        match (self.size, self.sign) {
            (IntegerSize::_8, IntegerSign::Unsigned) => IntegerKind::U8,
            (IntegerSize::_8, IntegerSign::Signed) => IntegerKind::I8,
            (IntegerSize::_16, IntegerSign::Unsigned) => IntegerKind::U16,
            (IntegerSize::_16, IntegerSign::Signed) => IntegerKind::I16,
            (IntegerSize::_32, IntegerSign::Unsigned) => IntegerKind::U32,
            (IntegerSize::_32, IntegerSign::Signed) => IntegerKind::I32,
            (IntegerSize::_64, IntegerSign::Unsigned) => IntegerKind::U64,
            (IntegerSize::_64, IntegerSign::Signed) => IntegerKind::I64,
        }
    }
}

/// The kind an integer descriptor names.
pub open spec fn spec_kind_of(t: IntegerType) -> IntegerKind {
    match (t.size, t.sign) {
        (IntegerSize::_8, IntegerSign::Unsigned) => IntegerKind::U8,
        (IntegerSize::_8, IntegerSign::Signed) => IntegerKind::I8,
        (IntegerSize::_16, IntegerSign::Unsigned) => IntegerKind::U16,
        (IntegerSize::_16, IntegerSign::Signed) => IntegerKind::I16,
        (IntegerSize::_32, IntegerSign::Unsigned) => IntegerKind::U32,
        (IntegerSize::_32, IntegerSign::Signed) => IntegerKind::I32,
        (IntegerSize::_64, IntegerSign::Unsigned) => IntegerKind::U64,
        (IntegerSize::_64, IntegerSign::Signed) => IntegerKind::I64,
    }
}

/// One of the eight machine integer shapes.
#[derive(Debug, Clone, Copy, PartialEq, Eq, Structural)]
pub enum IntegerKind {
    U8,
    U16,
    U32,
    U64,
    I8,
    I16,
    I32,
    I64,
}

/// The byte width of a kind.
pub open spec fn spec_byte_size(k: IntegerKind) -> nat {
    match k {
        IntegerKind::U8 | IntegerKind::I8 => 1,
        IntegerKind::U16 | IntegerKind::I16 => 2,
        IntegerKind::U32 | IntegerKind::I32 => 4,
        IntegerKind::U64 | IntegerKind::I64 => 8,
    }
}

/// Whether a kind is unsigned.
pub open spec fn spec_is_unsigned(k: IntegerKind) -> bool {
    match k {
        IntegerKind::U8 | IntegerKind::U16 | IntegerKind::U32 | IntegerKind::U64 => true,
        _ => false,
    }
}

/// Whether `v` lies in the representable range of a kind.
pub open spec fn spec_in_range(k: IntegerKind, v: int) -> bool {
    match k {
        IntegerKind::U8 => 0 <= v < 0x100,
        IntegerKind::U16 => 0 <= v < 0x1_0000,
        IntegerKind::U32 => 0 <= v < 0x1_0000_0000,
        IntegerKind::U64 => 0 <= v < 0x1_0000_0000_0000_0000,
        IntegerKind::I8 => -0x80 <= v < 0x80,
        IntegerKind::I16 => -0x8000 <= v < 0x8000,
        IntegerKind::I32 => -0x8000_0000 <= v < 0x8000_0000,
        IntegerKind::I64 => -0x8000_0000_0000_0000 <= v < 0x8000_0000_0000_0000,
    }
}

/// The little-endian bytes a value writes: the value is first truncated
/// into the kind's width, two's complement, by taking it modulo `2^width`.
pub open spec fn spec_write(k: IntegerKind, v: int) -> Seq<u8> {
    match k {
        IntegerKind::U8 | IntegerKind::I8 => seq![(v % 0x100) as u8],
        IntegerKind::U16 | IntegerKind::I16 => spec_u16_to_le_bytes((v % 0x1_0000) as u16),
        IntegerKind::U32 | IntegerKind::I32 => spec_u32_to_le_bytes((v % 0x1_0000_0000) as u32),
        IntegerKind::U64 | IntegerKind::I64 => spec_u64_to_le_bytes(
            (v % 0x1_0000_0000_0000_0000) as u64,
        ),
    }
}

/// The value read back from the kind's little-endian bytes: the unsigned
/// little-endian sum, sign-extended for the signed kinds.
pub open spec fn spec_read(k: IntegerKind, bytes: Seq<u8>) -> int {
    match k {
        IntegerKind::U8 => bytes[0] as int,
        IntegerKind::I8 => as_signed(bytes[0] as int, 0x100),
        IntegerKind::U16 => spec_u16_from_le_bytes(bytes) as int,
        IntegerKind::I16 => as_signed(spec_u16_from_le_bytes(bytes) as int, 0x1_0000),
        IntegerKind::U32 => spec_u32_from_le_bytes(bytes) as int,
        IntegerKind::I32 => as_signed(spec_u32_from_le_bytes(bytes) as int, 0x1_0000_0000),
        IntegerKind::U64 => spec_u64_from_le_bytes(bytes) as int,
        IntegerKind::I64 => as_signed(
            spec_u64_from_le_bytes(bytes) as int,
            0x1_0000_0000_0000_0000,
        ),
    }
}

/// Reinterprets an unsigned value below `modulus` as two's-complement
/// signed: values at or above half the modulus wrap to negative.
pub open spec fn as_signed(v: int, modulus: int) -> int {
    if v >= modulus / 2 {
        v - modulus
    } else {
        v
    }
}

impl IntegerKind {
    /// Selects a kind from a bit width and a signedness flag; only widths
    /// 8, 16, 32 and 64 name a kind.
    pub fn from_size_and_sign(size: u32, unsigned: bool) -> (r: Option<IntegerKind>)
        ensures
            size == 8 && unsigned ==> r == Some(IntegerKind::U8),
            size == 8 && !unsigned ==> r == Some(IntegerKind::I8),
            size == 16 && unsigned ==> r == Some(IntegerKind::U16),
            size == 16 && !unsigned ==> r == Some(IntegerKind::I16),
            size == 32 && unsigned ==> r == Some(IntegerKind::U32),
            size == 32 && !unsigned ==> r == Some(IntegerKind::I32),
            size == 64 && unsigned ==> r == Some(IntegerKind::U64),
            size == 64 && !unsigned ==> r == Some(IntegerKind::I64),
            size != 8 && size != 16 && size != 32 && size != 64 ==> r is None,
    {
        match (size, unsigned) {
            (8, true) => Some(IntegerKind::U8),
            (8, false) => Some(IntegerKind::I8),
            (16, true) => Some(IntegerKind::U16),
            (16, false) => Some(IntegerKind::I16),
            (32, true) => Some(IntegerKind::U32),
            (32, false) => Some(IntegerKind::I32),
            (64, true) => Some(IntegerKind::U64),
            (64, false) => Some(IntegerKind::I64),
            _ => None,
        }
    }

    /// Whether this kind is unsigned.
    pub fn is_unsigned(&self) -> (r: bool)
        ensures
            r == spec_is_unsigned(*self),
    {
        match self {
            IntegerKind::U8 | IntegerKind::U16 | IntegerKind::U32 | IntegerKind::U64 => true,
            _ => false,
        }
    }

    /// The width of this kind in bytes.
    pub fn byte_size(&self) -> (r: usize)
        ensures
            r == spec_byte_size(*self),
    {
        match self {
            IntegerKind::U8 | IntegerKind::I8 => 1,
            IntegerKind::U16 | IntegerKind::I16 => 2,
            IntegerKind::U32 | IntegerKind::I32 => 4,
            IntegerKind::U64 | IntegerKind::I64 => 8,
        }
    }

    /// Writes `value` as this kind's little-endian bytes, truncating into
    /// the declared width by two's-complement wrapping.
    pub fn write_i64(&self, value: i64) -> (r: Vec<u8>)
        ensures
            r@ == spec_write(*self, value as int),
            r@.len() == spec_byte_size(*self),
    {
        proof {
            lemma_auto_spec_u16_to_from_le_bytes();
            lemma_auto_spec_u32_to_from_le_bytes();
            lemma_auto_spec_u64_to_from_le_bytes();
        }
        match self {
            IntegerKind::U8 | IntegerKind::I8 => {
                let low: i64 = value % 0x100;
                let b: u8 = if low < 0 {
                    (low + 0x100) as u8
                } else {
                    low as u8
                };
                proof {
                    assert(b as int == (value as int) % 0x100) by {
                        assert((value as int) % 0x100 == ((value % 0x100) as int + 0x100)
                            % 0x100);
                    }
                }
                let mut out: Vec<u8> = Vec::new();
                out.push(b);
                out
            },
            IntegerKind::U16 | IntegerKind::I16 => {
                let low: i64 = value % 0x1_0000;
                let w: u16 = if low < 0 {
                    (low + 0x1_0000) as u16
                } else {
                    low as u16
                };
                proof {
                    assert(w as int == (value as int) % 0x1_0000) by {
                        assert((value as int) % 0x1_0000 == ((value % 0x1_0000) as int
                            + 0x1_0000) % 0x1_0000);
                    }
                }
                u16_to_le_bytes(w)
            },
            IntegerKind::U32 | IntegerKind::I32 => {
                let low: i64 = value % 0x1_0000_0000;
                let w: u32 = if low < 0 {
                    (low + 0x1_0000_0000) as u32
                } else {
                    low as u32
                };
                proof {
                    assert(w as int == (value as int) % 0x1_0000_0000) by {
                        assert((value as int) % 0x1_0000_0000 == ((value % 0x1_0000_0000) as int
                            + 0x1_0000_0000) % 0x1_0000_0000);
                    }
                }
                u32_to_le_bytes(w)
            },
            IntegerKind::U64 | IntegerKind::I64 => {
                let w: u64 = if value >= 0 {
                    value as u64
                } else {
                    0x8000_0000_0000_0000u64 + ((value - i64::MIN) as u64)
                };
                proof {
                    assert(w as int == (value as int) % 0x1_0000_0000_0000_0000);
                }
                u64_to_le_bytes(w)
            },
        }
    }

    /// Reads this kind's little-endian bytes back into a signed 64-bit
    /// value, zero-extending the unsigned kinds and sign-extending the
    /// signed ones.  The `U64` kind reads values up to `2^63 - 1`; see
    /// [`IntegerKind::read_u64`] for the full unsigned range.
    pub fn read_i64(&self, bytes: &[u8]) -> (r: i64)
        requires
            bytes@.len() == spec_byte_size(*self),
            *self == IntegerKind::U64 ==> spec_u64_from_le_bytes(bytes@) < 0x8000_0000_0000_0000,
        ensures
            r as int == spec_read(*self, bytes@),
    {
        match self {
            IntegerKind::U8 => bytes[0] as i64,
            IntegerKind::I8 => {
                let v: u8 = bytes[0];
                if v >= 0x80 {
                    (v as i64) - 0x100
                } else {
                    v as i64
                }
            },
            IntegerKind::U16 => u16_from_le_bytes(bytes) as i64,
            IntegerKind::I16 => {
                let v: u16 = u16_from_le_bytes(bytes);
                if v >= 0x8000 {
                    (v as i64) - 0x1_0000
                } else {
                    v as i64
                }
            },
            IntegerKind::U32 => u32_from_le_bytes(bytes) as i64,
            IntegerKind::I32 => {
                let v: u32 = u32_from_le_bytes(bytes);
                if v >= 0x8000_0000 {
                    (v as i64) - 0x1_0000_0000
                } else {
                    v as i64
                }
            },
            IntegerKind::U64 => u64_from_le_bytes(bytes) as i64,
            IntegerKind::I64 => {
                let v: u64 = u64_from_le_bytes(bytes);
                if v >= 0x8000_0000_0000_0000 {
                    ((v - 0x8000_0000_0000_0000) as i64) + i64::MIN
                } else {
                    v as i64
                }
            },
        }
    }

    /// Reads the unsigned kinds into the full `u64` range.
    pub fn read_u64(&self, bytes: &[u8]) -> (r: u64)
        requires
            spec_is_unsigned(*self),
            bytes@.len() == spec_byte_size(*self),
        ensures
            r as int == spec_read(*self, bytes@),
    {
        match self {
            IntegerKind::U8 => bytes[0] as u64,
            IntegerKind::U16 => u16_from_le_bytes(bytes) as u64,
            IntegerKind::U32 => u32_from_le_bytes(bytes) as u64,
            _ => u64_from_le_bytes(bytes),
        }
    }

    /// Reads one value as a host number.  Values whose magnitude stays
    /// under `2^53` — all of them, for widths up to 32 bits — convert
    /// exactly.
    pub fn read_num(&self, bytes: &[u8]) -> (r: Num)
        requires
            bytes@.len() == spec_byte_size(*self),
        ensures
            is_integral(r.bits),
            -0x20_0000_0000_0000 < spec_read(*self, bytes@) < 0x20_0000_0000_0000 ==> trunc_i64(
                r.bits,
            ) == spec_read(*self, bytes@),
    {
        proof {
            lemma_auto_spec_u64_to_from_le_bytes();
        }
        if self.is_unsigned() {
            let v: u64 = self.read_u64(bytes);
            Num::from_u64(v)
        } else {
            let v: i64 = self.read_i64(bytes);
            Num::from_i64(v)
        }
    }

    /// Reads `count` consecutive values of this kind from a packed
    /// little-endian buffer into host numbers.
    #[verifier::loop_isolation(false)]
    pub fn read_slice(&self, bytes: &[u8], count: usize) -> (r: Vec<Num>)
        requires
            bytes@.len() == count * spec_byte_size(*self),
        ensures
            r@.len() == count,
            forall|i: int|
                #![trigger r@[i]]
                0 <= i < count ==> {
                    let v = spec_read(
                        *self,
                        bytes@.subrange(
                            i * spec_byte_size(*self),
                            (i + 1) * spec_byte_size(*self),
                        ),
                    );
                    -0x20_0000_0000_0000 < v < 0x20_0000_0000_0000 ==> trunc_i64(r@[i].bits) == v
                },
    {
        let width: usize = self.byte_size();
        let total: usize = bytes.len();
        let mut out: Vec<Num> = Vec::new();
        let mut i: usize = 0;
        while i < count
            invariant
                0 <= i <= count,
                out@.len() == i,
                forall|j: int|
                    #![trigger out@[j]]
                    0 <= j < i ==> {
                        let v = spec_read(
                            *self,
                            bytes@.subrange(j * width as int, (j + 1) * width as int),
                        );
                        -0x20_0000_0000_0000 < v < 0x20_0000_0000_0000 ==> trunc_i64(out@[j].bits) == v
                    },
            decreases count - i,
        {
            proof {
                assert(i * width <= (i + 1) * width <= count * width) by (nonlinear_arith)
                    requires
                        0 <= i < count,
                        width >= 1,
                ;
                assert((i + 1) * width - i * width == width) by (nonlinear_arith);
                assert(count * width == total);
            }
            let chunk: &[u8] = slice_subrange(bytes, i * width, (i + 1) * width);
            let n = self.read_num(chunk);
            out.push(n);
            i = i + 1;
        }
        out
    }
}

/// Writing a value of a kind's representable range and reading it back
/// through the matching path reproduces it exactly, over the full range of
/// every width: the codec loses nothing.
pub proof fn law_integer_round_trip(k: IntegerKind, v: int)
    requires
        spec_in_range(k, v),
    ensures
        spec_read(k, spec_write(k, v)) == v,
{
    lemma_auto_spec_u16_to_from_le_bytes();
    lemma_auto_spec_u32_to_from_le_bytes();
    lemma_auto_spec_u64_to_from_le_bytes();
    let m: int = match k {
        IntegerKind::U8 | IntegerKind::I8 => 0x100,
        IntegerKind::U16 | IntegerKind::I16 => 0x1_0000,
        IntegerKind::U32 | IntegerKind::I32 => 0x1_0000_0000,
        IntegerKind::U64 | IntegerKind::I64 => 0x1_0000_0000_0000_0000,
    };
    if v >= 0 {
        lemma_small_mod(v as nat, m as nat);
        assert(v % m == v);
    } else {
        lemma_mod_add_multiples_vanish(v, m);
        lemma_small_mod((v + m) as nat, m as nat);
        assert(v % m == v + m);
    }
    match k {
        IntegerKind::U8 | IntegerKind::I8 => {
            let b = (v % 0x100) as u8;
            assert(seq![b][0] == b);
        },
        IntegerKind::U16 | IntegerKind::I16 => {
            let x = (v % 0x1_0000) as u16;
            assert(spec_u16_to_le_bytes(x).len() == 2);
            assert(spec_u16_from_le_bytes(spec_u16_to_le_bytes(x)) == x);
        },
        IntegerKind::U32 | IntegerKind::I32 => {
            let x = (v % 0x1_0000_0000) as u32;
            assert(spec_u32_to_le_bytes(x).len() == 4);
            assert(spec_u32_from_le_bytes(spec_u32_to_le_bytes(x)) == x);
        },
        IntegerKind::U64 | IntegerKind::I64 => {
            let x = (v % 0x1_0000_0000_0000_0000) as u64;
            assert(spec_u64_to_le_bytes(x).len() == 8);
            assert(spec_u64_from_le_bytes(spec_u64_to_le_bytes(x)) == x);
        },
    }
}

} // verus!
