//! Floating point type descriptors and their byte codec.
//!
//! Float values travel as IEEE-754 bit patterns: 32-bit patterns for the
//! narrow kind, 64-bit for the wide one, in little-endian byte order.
//! Carrying patterns rather than machine floats lets the codec state and
//! prove its round trips exactly.

use vstd::prelude::*;
use vstd::bytes::{
    spec_u32_from_le_bytes, spec_u32_to_le_bytes, spec_u64_from_le_bytes, spec_u64_to_le_bytes,
    lemma_auto_spec_u32_to_from_le_bytes, lemma_auto_spec_u64_to_from_le_bytes, u32_from_le_bytes,
    u32_to_le_bytes, u64_from_le_bytes, u64_to_le_bytes,
};

use crate::ffi::value::FfiValue;
use crate::num::{biased_exp, f32_exp, fraction, spec_narrow_exact, spec_promote_nonsub, Num};

verus! {

/// Size of a floating point type.
#[derive(Debug, Clone, Copy, PartialEq, Eq, Structural)]
pub enum FloatSize {
    /// 32-bit float.
    _32,
    /// 64-bit float.
    _64,
}

impl FloatSize {
    /// Parses a bit width; only 32 and 64 describe a float.
    pub fn from_bits(bits: u64) -> (r: Option<FloatSize>)
        ensures
            bits == 32 ==> r == Some(FloatSize::_32),
            bits == 64 ==> r == Some(FloatSize::_64),
            bits != 32 && bits != 64 ==> r is None,
    {
        match bits {
            32 => Some(FloatSize::_32),
            64 => Some(FloatSize::_64),
            _ => None,
        }
    }
}

/// Type descriptor for floating point types.
#[derive(Debug, Clone, Copy, PartialEq, Eq, Structural)]
pub struct FloatType {
    /// The size of the float.
    pub size: FloatSize,
}

impl FloatType {
    /// Creates a new float type with the given size.
    pub fn new(size: FloatSize) -> (r: Self)
        ensures
            r.size == size,
    {
        FloatType { size }
    }

    /// The machine float kind this descriptor names.
    pub fn kind(&self) -> (r: FloatKind)
        ensures
            self.size == FloatSize::_32 ==> r == FloatKind::F32,
            self.size == FloatSize::_64 ==> r == FloatKind::F64,
    {
        match self.size {
            FloatSize::_32 => FloatKind::F32,
            FloatSize::_64 => FloatKind::F64,
        }
    }
}

/// One of the two machine float shapes.
#[derive(Debug, Clone, Copy, PartialEq, Eq, Structural)]
pub enum FloatKind {
    F32,
    F64,
}

/// The byte width of a float kind.
pub open spec fn spec_float_byte_size(k: FloatKind) -> nat {
    match k {
        FloatKind::F32 => 4,
        FloatKind::F64 => 8,
    }
}

/// The little-endian bytes a bit pattern writes; the narrow kind stores
/// the low 32 bits of the pattern.
pub open spec fn spec_float_write(k: FloatKind, bits: u64) -> Seq<u8> {
    match k {
        FloatKind::F32 => spec_u32_to_le_bytes((bits % 0x1_0000_0000) as u32),
        FloatKind::F64 => spec_u64_to_le_bytes(bits),
    }
}

/// The bit pattern read back from a float kind's little-endian bytes,
/// zero-extended for the narrow kind.
pub open spec fn spec_float_read(k: FloatKind, bytes: Seq<u8>) -> u64 {
    match k {
        FloatKind::F32 => spec_u32_from_le_bytes(bytes) as u64,
        FloatKind::F64 => spec_u64_from_le_bytes(bytes),
    }
}

impl FloatKind {
    /// Selects a kind from a bit width; only 32 and 64 name one.
    pub fn from_size(size: u32) -> (r: Option<FloatKind>)
        ensures
            size == 32 ==> r == Some(FloatKind::F32),
            size == 64 ==> r == Some(FloatKind::F64),
            size != 32 && size != 64 ==> r is None,
    {
        match size {
            32 => Some(FloatKind::F32),
            64 => Some(FloatKind::F64),
            _ => None,
        }
    }

    /// The width of this kind in bytes.
    pub fn byte_size(&self) -> (r: usize)
        ensures
            r == spec_float_byte_size(*self),
    {
        match self {
            FloatKind::F32 => 4,
            FloatKind::F64 => 8,
        }
    }

    /// Writes a bit pattern as this kind's little-endian bytes.
    pub fn write_bytes(&self, bits: u64) -> (r: Vec<u8>)
        ensures
            r@ == spec_float_write(*self, bits),
            r@.len() == spec_float_byte_size(*self),
    {
        proof {
            lemma_auto_spec_u32_to_from_le_bytes();
            lemma_auto_spec_u64_to_from_le_bytes();
        }
        match self {
            FloatKind::F32 => {
                let low: u32 = (bits % 0x1_0000_0000) as u32;
                u32_to_le_bytes(low)
            },
            FloatKind::F64 => u64_to_le_bytes(bits),
        }
    }

    /// Reads this kind's little-endian bytes back into a bit pattern.
    pub fn read_bytes(&self, bytes: &[u8]) -> (r: u64)
        requires
            bytes@.len() == spec_float_byte_size(*self),
        ensures
            r == spec_float_read(*self, bytes@),
    {
        match self {
            FloatKind::F32 => u32_from_le_bytes(bytes) as u64,
            FloatKind::F64 => u64_from_le_bytes(bytes),
        }
    }

    /// Reads one value of this kind into a host number, widening the
    /// narrow kind's pattern.  The wide kind is read bit for bit; a
    /// non-subnormal narrow pattern widens to exactly its rebiased form.
    pub fn read_num(&self, bytes: &[u8]) -> (r: Num)
        requires
            bytes@.len() == spec_float_byte_size(*self),
        ensures
            *self == FloatKind::F64 ==> r.bits == spec_float_read(FloatKind::F64, bytes@),
            *self == FloatKind::F32 && f32_exp(spec_float_read(FloatKind::F32, bytes@) as u32)
                != 0 ==> r.bits == spec_promote_nonsub(
                spec_float_read(FloatKind::F32, bytes@) as u32,
            ),
    {
        match self {
            FloatKind::F32 => {
                let b32: u32 = u32_from_le_bytes(bytes);
                Num::promote_from_f32_bits(b32)
            },
            FloatKind::F64 => Num { bits: u64_from_le_bytes(bytes) },
        }
    }

    /// Converts a host number into this kind's call-boundary value,
    /// narrowing it for the 32-bit kind: a value the narrow format holds
    /// exactly — an in-range exponent with no dropped fraction bits —
    /// narrows to exactly its rebiased form, and others round.
    pub fn to_ffi_value(&self, n: Num) -> (r: FfiValue)
        ensures
            *self == FloatKind::F64 ==> r == FfiValue::F64(n.bits),
            *self == FloatKind::F32 ==> r is F32,
            *self == FloatKind::F32 && 897 <= biased_exp(n.bits) <= 1150 && fraction(n.bits)
                & 0x1fff_ffff == 0 ==> r == FfiValue::F32(spec_narrow_exact(n.bits)),
    {
        match self {
            FloatKind::F32 => FfiValue::F32(n.demote_to_f32_bits()),
            FloatKind::F64 => FfiValue::F64(n.bits),
        }
    }
}

/// Round-tripping a 64-bit pattern through the wide codec is the
/// identity: every binary64 value, bit for bit, survives the trip.  The
/// narrow codec is likewise the identity on 32-bit patterns.
pub proof fn law_float_round_trip(k: FloatKind, bits: u64)
    requires
        k == FloatKind::F32 ==> bits < 0x1_0000_0000,
    ensures
        spec_float_read(k, spec_float_write(k, bits)) == bits,
{
    lemma_auto_spec_u32_to_from_le_bytes();
    lemma_auto_spec_u64_to_from_le_bytes();
    match k {
        FloatKind::F32 => {
            assert(bits % 0x1_0000_0000 == bits);
            let x = (bits % 0x1_0000_0000) as u32;
            assert(spec_u32_to_le_bytes(x).len() == 4);
            assert(spec_u32_from_le_bytes(spec_u32_to_le_bytes(x)) == x);
            assert(x as u64 == bits);
        },
        FloatKind::F64 => {
        },
    }
}

} // verus!
