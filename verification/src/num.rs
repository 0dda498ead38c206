//! The host number model.
//!
//! Host-level numbers are IEEE-754 binary64 values.  This module carries
//! such a value as its raw bit pattern and gives the conversions the codec
//! needs — truncation toward zero into a 64-bit integer, and the exact
//! encoding of integers back into a binary64 pattern — as pure integer
//! arithmetic over the bit fields, so that the round trips the codec
//! promises can be proved.

use vstd::prelude::*;
use vstd::arithmetic::power2::{
    pow2, lemma_pow2_adds, lemma_pow2_strictly_increases, lemma_pow2_pos, lemma2_to64,
    lemma2_to64_rest,
};
use vstd::arithmetic::div_mod::{lemma_div_by_multiple, lemma_div_is_ordered};
use vstd::bits::{lemma_u64_shl_is_mul, lemma_u64_shr_is_div};

verus! {

/// A host number: an IEEE-754 binary64 value held as its bit pattern.
#[derive(Debug, Clone, Copy, PartialEq, Eq, Structural)]
pub struct Num {
    pub bits: u64,
}

/// The sign bit of a binary64 pattern.
pub open spec fn sign_bit(bits: u64) -> bool {
    bits >> 63 == 1
}

/// The biased exponent field of a binary64 pattern.
pub open spec fn biased_exp(bits: u64) -> u64 {
    (bits >> 52) & 0x7ff
}

/// The fraction field of a binary64 pattern.
pub open spec fn fraction(bits: u64) -> u64 {
    bits & 0xf_ffff_ffff_ffff
}

/// Whether the pattern is a NaN.
pub open spec fn is_nan(bits: u64) -> bool {
    biased_exp(bits) == 0x7ff && fraction(bits) != 0
}

/// The magnitude of the value, truncated toward zero to an integer.
/// A finite binary64 with biased exponent `e >= 1` and fraction `f` has
/// magnitude `(2^52 + f) * 2^(e - 1075)`; exponents below 1023 give a
/// magnitude under one, which truncates to zero (as do subnormals).
pub open spec fn trunc_magnitude(bits: u64) -> int {
    let e = biased_exp(bits) as int;
    let m = pow2(52) as int + fraction(bits) as int;
    if e < 1023 {
        0
    } else if e >= 1075 {
        m * pow2((e - 1075) as nat) as int
    } else {
        m / pow2((1075 - e) as nat) as int
    }
}

/// The value truncated toward zero and clamped into `i64`, with NaN going
/// to zero — the saturating cast the host runtime applies to numbers.
pub open spec fn trunc_i64(bits: u64) -> int {
    if is_nan(bits) {
        0
    } else {
        let t = trunc_magnitude(bits);
        let v = if sign_bit(bits) { -t } else { t };
        if v < i64::MIN as int {
            i64::MIN as int
        } else if v > i64::MAX as int {
            i64::MAX as int
        } else {
            v
        }
    }
}


/// The value truncated toward zero and clamped into `u64`: negative
/// values and NaN go to zero.
pub open spec fn trunc_u64(bits: u64) -> int {
    if is_nan(bits) {
        0
    } else if sign_bit(bits) {
        0
    } else {
        let t = trunc_magnitude(bits);
        if t > u64::MAX as int {
            u64::MAX as int
        } else {
            t
        }
    }
}

/// Whether a binary64 pattern holds an integer exactly: zeros, and
/// finite values whose fraction carries no bit below the units place.
/// Together with truncation this pins a pattern: an integral pattern's
/// value *is* its truncation.
pub open spec fn is_integral(bits: u64) -> bool {
    let e = biased_exp(bits) as int;
    if e == 0x7ff {
        false
    } else if e >= 1075 {
        true
    } else if e >= 1023 {
        fraction(bits) as int % pow2((1075 - e) as nat) as int == 0
    } else {
        biased_exp(bits) == 0 && fraction(bits) == 0
    }
}

/// The exponent field of a binary32 pattern.
pub open spec fn f32_exp(bits32: u32) -> u32 {
    (bits32 >> 23) & 0xff
}

/// The fraction field of a binary32 pattern.
pub open spec fn f32_frac(bits32: u32) -> u32 {
    bits32 & 0x7f_ffff
}

/// The binary64 pattern that widening a non-subnormal binary32 pattern
/// produces: same sign, exponent rebiased by 896, fraction widened by 29
/// zero bits (with the top exponent mapping to the top exponent).
pub open spec fn spec_promote_nonsub(bits32: u32) -> u64 {
    ((((bits32 >> 31) as u64) << 63) | (((((bits32 >> 23) & 0xff) as u64 + (
    if ((bits32 >> 23) & 0xff) == 0xff { 0x700u64 } else { 896u64 })) as u64) << 52) | (((bits32
        & 0x7f_ffff) as u64) << 29))
}

/// The binary32 pattern that narrowing a binary64 pattern with an
/// exponent in the narrow normal range and no dropped fraction bits
/// produces: same sign, exponent rebiased back, fraction narrowed.
pub open spec fn spec_narrow_exact(bits: u64) -> u32 {
    ((((bits >> 63) as u32) << 31) | (((((bits >> 52) & 0x7ff) - 896) as u32) << 23) | (((bits
        & 0xf_ffff_ffff_ffff) >> 29) as u32))
}

impl Num {
    /// The bit pattern of positive zero.
    pub fn zero() -> (r: Num)
        ensures
            r.bits == 0,
            trunc_i64(r.bits) == 0,
            !sign_bit(r.bits),
            !is_nan(r.bits),
            is_integral(r.bits),
    {
        proof {
            lemma2_to64();
            assert(((0u64 >> 52) & 0x7ff) == 0 && (0u64 & 0xf_ffff_ffff_ffff) == 0 && (0u64
                >> 63) == 0) by (bit_vector);
        }
        Num { bits: 0 }
    }

    /// Truncates the value toward zero into an `i64`, saturating at the
    /// ends of the range, with NaN going to zero.
    pub fn trunc_to_i64(&self) -> (r: i64)
        ensures
            r as int == trunc_i64(self.bits),
    {
        let bits = self.bits;
        let neg: bool = (bits >> 63) == 1;
        let e: u64 = (bits >> 52) & 0x7ff;
        let f: u64 = bits & 0xf_ffff_ffff_ffff;
        proof {
            assert(e == biased_exp(bits) && f == fraction(bits) && neg == sign_bit(bits));
            assert(e <= 0x7ff && f < 0x10_0000_0000_0000u64) by (bit_vector)
                requires
                    e == ((bits >> 52) & 0x7ff),
                    f == (bits & 0xf_ffff_ffff_ffff),
            ;
            lemma2_to64();
            lemma2_to64_rest();
        }
        if e == 0x7ff && f != 0 {
            return 0;
        }
        if e < 1023 {
            return 0;
        }
        let ghost m_spec: int = pow2(52) as int + f as int;
        let sh: u64 = e - 1023;
        if sh >= 63 {
            proof {
                // The magnitude is at least 2^(e - 1023) >= 2^63, so the
                // truncation saturates in both directions.
                assert(e >= 1086);
                lemma_pow2_adds(52, (e - 1075) as nat);
                lemma_pow2_pos((e - 1075) as nat);
                assert(m_spec * pow2((e - 1075) as nat) as int >= pow2(52) as int * pow2(
                    (e - 1075) as nat,
                ) as int) by (nonlinear_arith)
                    requires
                        m_spec >= pow2(52) as int,
                        pow2((e - 1075) as nat) as int > 0,
                ;
                if (e - 1075) + 52 > 63 {
                    lemma_pow2_strictly_increases(63, ((e - 1075) + 52) as nat);
                }
            }
            if neg {
                return i64::MIN;
            } else {
                return i64::MAX;
            }
        }
        let m: u64 = f | 0x10_0000_0000_0000;
        proof {
            assert(m == 0x10_0000_0000_0000u64 + f && m >= 0x10_0000_0000_0000u64 && m
                < 0x20_0000_0000_0000u64) by (bit_vector)
                requires
                    f < 0x10_0000_0000_0000u64,
                    m == (f | 0x10_0000_0000_0000u64),
            ;
            assert(m == m_spec);
        }
        let mag: u64 = if sh >= 52 {
            proof {
                lemma_pow2_adds(53, (sh - 52) as nat);
                lemma_pow2_strictly_increases(((sh - 52) + 53) as nat, 64);
                assert(m * pow2((sh - 52) as nat) < pow2(53) as int * pow2((sh - 52) as nat) as int)
                    by (nonlinear_arith)
                    requires
                        m < pow2(53) as int,
                        pow2((sh - 52) as nat) as int > 0,
                ;
                lemma_pow2_pos((sh - 52) as nat);
                lemma_u64_shl_is_mul(m, (sh - 52) as u64);
            }
            m << (sh - 52)
        } else {
            proof {
                lemma_u64_shr_is_div(m, (52 - sh) as u64);
                lemma_pow2_pos((52 - sh) as nat);
            }
            m >> (52 - sh)
        };
        proof {
            assert(mag as int == trunc_magnitude(bits));
            // The magnitude stays below 2^63, so the cast and negation fit.
            if sh >= 52 {
                lemma_pow2_adds(53, (sh - 52) as nat);
                if ((sh - 52) + 53) < 64 {
                    lemma_pow2_strictly_increases(((sh - 52) + 53) as nat, 64);
                }
                assert(mag < pow2(63)) by {
                    assert(m * pow2((sh - 52) as nat) < pow2(53) as int * pow2(
                        (sh - 52) as nat,
                    ) as int) by (nonlinear_arith)
                        requires
                            m < pow2(53) as int,
                            pow2((sh - 52) as nat) as int > 0,
                    ;
                    lemma_pow2_strictly_increases(((sh - 52) + 53) as nat, 64);
                    assert(((sh - 52) + 53) < 64);
                }
            } else {
                lemma_div_is_ordered(0, m as int, pow2((52 - sh) as nat) as int);
                assert(mag <= m);
            }
            lemma2_to64_rest();
        }
        if neg {
            -(mag as i64)
        } else {
            mag as i64
        }
    }

    /// Encodes an unsigned 64-bit integer as a binary64 pattern.  Values
    /// up to `2^53` are represented exactly — truncating the result gives
    /// the integer back; larger values round to the nearest representable
    /// value, ties to even.
    pub fn from_u64(v: u64) -> (r: Num)
        ensures
            !sign_bit(r.bits),
            !is_nan(r.bits),
            is_integral(r.bits),
            v < 0x20_0000_0000_0000u64 ==> trunc_i64(r.bits) == v as int,
    {
        if v == 0 {
            return Num::zero();
        }
        proof {
            lemma2_to64();
            lemma2_to64_rest();
        }
        let mut m: u64 = v;
        let mut e: u64 = 1075;
        let ghost orig: u64 = v;
        let mut round_bit: bool = false;
        let mut sticky: bool = false;
        while m >= 0x20_0000_0000_0000
            invariant
                1075 <= e <= 1086,
                m >= 1,
                e == 1075 ==> (m == orig && !round_bit && !sticky),
                orig < 0x20_0000_0000_0000u64 ==> (e == 1075 && m == orig),
                e > 1075 ==> m >= 0x10_0000_0000_0000u64,
                (m as int) < pow2((64 - (e - 1075)) as nat) as int,
            decreases m,
        {
            proof {
                lemma2_to64();
                lemma2_to64_rest();
                assert(m / 2 >= 0x10_0000_0000_0000u64 && m / 2 < m) by (bit_vector)
                    requires
                        m >= 0x20_0000_0000_0000u64,
                ;
                // The mantissa halves at most eleven times before it drops
                // under 2^53, so the exponent stays at or under 1086.
                if 64 - (e - 1075) <= 53 {
                    if 64 - (e - 1075) < 53 {
                        lemma_pow2_strictly_increases((64 - (e - 1075)) as nat, 53);
                    }
                    assert(false);
                }
                lemma_pow2_adds((63 - (e - 1075)) as nat, 1);
                assert((m as int) / 2 < pow2((63 - (e - 1075)) as nat) as int) by (nonlinear_arith)
                    requires
                        (m as int) < 2 * pow2((63 - (e - 1075)) as nat) as int,
                        pow2((63 - (e - 1075)) as nat) as int > 0,
                ;
            }
            sticky = sticky || round_bit;
            round_bit = (m & 1) == 1;
            m = m / 2;
            e = e + 1;
        }
        if round_bit && (sticky || (m & 1) == 1) {
            m = m + 1;
            if m == 0x20_0000_0000_0000 {
                m = m / 2;
                e = e + 1;
            }
        }
        proof {
            lemma2_to64();
            lemma2_to64_rest();
            if orig < 0x20_0000_0000_0000u64 {
                assert(e == 1075 && m == orig);
                assert(pow2((1075 - e) as nat) == 1);
                assert(m as int == orig as int * pow2((1075 - e) as nat) as int)
                    by (nonlinear_arith)
                    requires
                        m == orig,
                        pow2((1075 - e) as nat) == 1,
                ;
            }
        }
        while m < 0x10_0000_0000_0000
            invariant
                1023 <= e <= 1087,
                1 <= m < 0x20_0000_0000_0000u64,
                orig < 0x20_0000_0000_0000u64 ==> (m as int == orig as int * pow2(
                    (1075 - e) as nat,
                ) as int && e <= 1075),
                e > 1075 ==> m >= 0x10_0000_0000_0000u64,
                orig >= 0x20_0000_0000_0000u64 ==> e > 1075,
            decreases e,
        {
            proof {
                lemma2_to64();
                // Doubling keeps the represented value: orig * 2^(1075-e)
                // doubles into orig * 2^(1075-(e-1)).
                lemma_pow2_adds((1075 - e) as nat, 1);
                assert(2 * (orig as int * pow2((1075 - e) as nat) as int) == orig as int * (2
                    * pow2((1075 - e) as nat) as int)) by (nonlinear_arith);
                // The exponent stays above 1023: the mantissa reaches 2^52
                // after at most 52 doublings of a positive integer.
                lemma_pow2_pos((1075 - e) as nat);
                assert(orig as int * pow2((1075 - e) as nat) as int >= pow2(
                    (1075 - e) as nat,
                ) as int) by (nonlinear_arith)
                    requires
                        orig >= 1,
                        pow2((1075 - e) as nat) as int > 0,
                ;
                if 1075 - e >= 52 {
                    if 1075 - e > 52 {
                        lemma_pow2_strictly_increases(52, (1075 - e) as nat);
                    }
                    lemma2_to64_rest();
                    assert(false);
                }
            }
            m = m * 2;
            e = e - 1;
        }
        let bits: u64 = (e << 52) | (m & 0xf_ffff_ffff_ffff);
        proof {
            assert(biased_exp(bits) == e && fraction(bits) == (m - 0x10_0000_0000_0000u64)
                && (bits >> 63) == 0) by (bit_vector)
                requires
                    bits == ((e << 52) | (m & 0xf_ffff_ffff_ffffu64)),
                    1023 <= e <= 1087,
                    0x10_0000_0000_0000u64 <= m < 0x20_0000_0000_0000u64,
            ;
            lemma2_to64();
            lemma2_to64_rest();
            if orig < 0x20_0000_0000_0000u64 {
                // Truncation recovers the integer: (2^52 + f) / 2^(1075-e)
                // == orig, because 2^52 + f == orig * 2^(1075-e).
                assert(pow2(52) as int + fraction(bits) as int == m as int);
                lemma_pow2_pos((1075 - e) as nat);
                lemma_div_by_multiple(orig as int, pow2((1075 - e) as nat) as int);
            }
            // The result is integral: below the units place the fraction
            // is zero, because 2^52 + f is a multiple of 2^(1075-e).
            if e < 1075 {
                let k = (1075 - e) as nat;
                let p = pow2(k) as int;
                lemma_pow2_pos(k);
                lemma_pow2_adds((52 - k) as nat, k);
                // m = orig * 2^k and m >= 2^52 force orig >= 2^(52-k).
                assert(m as int == orig as int * p);
                assert(orig as int >= pow2((52 - k) as nat) as int) by (nonlinear_arith)
                    requires
                        orig as int * p >= pow2((52 - k) as nat) as int * p,
                        p > 0,
                ;
                assert(fraction(bits) as int == (orig as int - pow2((52 - k) as nat) as int)
                    * p) by (nonlinear_arith)
                    requires
                        fraction(bits) as int == orig as int * p - pow2((52 - k) as nat) as int
                            * p,
                ;
                vstd::arithmetic::div_mod::lemma_mod_multiples_basic(
                    orig as int - pow2((52 - k) as nat) as int,
                    p,
                );
            }
        }
        Num { bits }
    }

    /// Encodes a signed 64-bit integer as a binary64 pattern, exactly for
    /// magnitudes up to `2^53`.
    pub fn from_i64(v: i64) -> (r: Num)
        ensures
            !is_nan(r.bits),
            is_integral(r.bits),
            -0x20_0000_0000_0000 < (v as int) < 0x20_0000_0000_0000 ==> trunc_i64(r.bits)
                == v as int,
    {
        if v >= 0 {
            Num::from_u64(v as u64)
        } else {
            let mag: u64 = if v == i64::MIN {
                0x8000_0000_0000_0000
            } else {
                (-v) as u64
            };
            let pos = Num::from_u64(mag);
            let pb: u64 = pos.bits;
            proof {
                assert((pb >> 63) == 0 || (pb >> 63) == 1) by (bit_vector);
            }
            let bits: u64 = pb | 0x8000_0000_0000_0000;
            proof {
                assert(((bits >> 52) & 0x7ff) == ((pb >> 52) & 0x7ff) && (bits
                    & 0xf_ffff_ffff_ffff) == (pb & 0xf_ffff_ffff_ffff) && (bits >> 63) == 1)
                    by (bit_vector)
                    requires
                        bits == (pb | 0x8000_0000_0000_0000u64),
                        (pb >> 63) == 0,
                ;
            }
            Num { bits }
        }
    }

    /// Encodes an unsigned 32-bit integer exactly.
    pub fn from_u32(v: u32) -> (r: Num)
        ensures
            trunc_i64(r.bits) == v as int,
            !sign_bit(r.bits),
            is_integral(r.bits),
    {
        Num::from_u64(v as u64)
    }

    /// Truncates the value toward zero into a `u64`, saturating below at
    /// zero and above at the top of the range, with NaN going to zero.
    pub fn trunc_to_u64(&self) -> (r: u64)
        ensures
            r as int == trunc_u64(self.bits),
    {
        let bits = self.bits;
        let neg: bool = (bits >> 63) == 1;
        let e: u64 = (bits >> 52) & 0x7ff;
        let f: u64 = bits & 0xf_ffff_ffff_ffff;
        proof {
            assert(e == biased_exp(bits) && f == fraction(bits) && neg == sign_bit(bits));
            assert(e <= 0x7ff && f < 0x10_0000_0000_0000u64) by (bit_vector)
                requires
                    e == ((bits >> 52) & 0x7ff),
                    f == (bits & 0xf_ffff_ffff_ffff),
            ;
            lemma2_to64();
            lemma2_to64_rest();
        }
        if e == 0x7ff && f != 0 {
            return 0;
        }
        if neg {
            return 0;
        }
        if e < 1023 {
            return 0;
        }
        let ghost m_spec: int = pow2(52) as int + f as int;
        let sh: u64 = e - 1023;
        if sh >= 64 {
            proof {
                assert(e >= 1087);
                lemma_pow2_adds(52, (e - 1075) as nat);
                lemma_pow2_pos((e - 1075) as nat);
                assert(m_spec * pow2((e - 1075) as nat) as int >= pow2(52) as int * pow2(
                    (e - 1075) as nat,
                ) as int) by (nonlinear_arith)
                    requires
                        m_spec >= pow2(52) as int,
                        pow2((e - 1075) as nat) as int > 0,
                ;
                if (e - 1075) + 52 > 64 {
                    lemma_pow2_strictly_increases(64, ((e - 1075) + 52) as nat);
                }
                assert(pow2(64) == 0x1_0000_0000_0000_0000) by {
                    lemma_pow2_adds(63, 1);
                    lemma2_to64();
                    lemma2_to64_rest();
                }
            }
            return u64::MAX;
        }
        let m: u64 = f | 0x10_0000_0000_0000;
        proof {
            assert(m == 0x10_0000_0000_0000u64 + f && m >= 0x10_0000_0000_0000u64 && m
                < 0x20_0000_0000_0000u64) by (bit_vector)
                requires
                    f < 0x10_0000_0000_0000u64,
                    m == (f | 0x10_0000_0000_0000u64),
            ;
            assert(m == m_spec);
        }
        if sh >= 52 {
            proof {
                lemma_pow2_adds(53, (sh - 52) as nat);
                if ((sh - 52) + 53) < 65 {
                }
                assert(m * pow2((sh - 52) as nat) < pow2(53) as int * pow2((sh - 52) as nat) as int)
                    by (nonlinear_arith)
                    requires
                        m < pow2(53) as int,
                        pow2((sh - 52) as nat) as int > 0,
                ;
                lemma_pow2_pos((sh - 52) as nat);
                if (sh - 52) + 53 <= 64 {
                    if (sh - 52) + 53 < 64 {
                        lemma_pow2_strictly_increases(((sh - 52) + 53) as nat, 64);
                    }
                    assert(pow2(64) == 0x1_0000_0000_0000_0000) by {
                        lemma_pow2_adds(63, 1);
                        lemma2_to64();
                        lemma2_to64_rest();
                    }
                }
                lemma_u64_shl_is_mul(m, (sh - 52) as u64);
            }
            m << (sh - 52)
        } else {
            proof {
                lemma_u64_shr_is_div(m, (52 - sh) as u64);
                lemma_pow2_pos((52 - sh) as nat);
            }
            m >> (52 - sh)
        }
    }

    /// Widens an IEEE-754 binary32 pattern into the binary64 pattern of
    /// the same value.  The conversion is exact for every binary32 value;
    /// the stated contract covers zeros, normal values, infinities and
    /// NaN payloads, which reconstruct bit for bit on the way back.
    pub fn promote_from_f32_bits(bits32: u32) -> (r: Num)
        ensures
            f32_exp(bits32) != 0 ==> r.bits == spec_promote_nonsub(bits32),
            f32_exp(bits32) == 0 && f32_frac(bits32) == 0 ==> r.bits == (
            if (bits32 >> 31) == 1 { 0x8000_0000_0000_0000u64 } else { 0u64 }),
    {
        let sign: u64 = ((bits32 >> 31) as u64) << 63;
        let e32: u32 = (bits32 >> 23) & 0xff;
        let f32v: u32 = bits32 & 0x7f_ffff;
        proof {
            assert(e32 == ((bits32 >> 23) & 0xff) && e32 <= 0xff && f32v < 0x80_0000u32)
                by (bit_vector)
                requires
                    e32 == ((bits32 >> 23) & 0xff),
                    f32v == (bits32 & 0x7f_ffff),
            ;
            assert(sign == if (bits32 >> 31) == 1 { 0x8000_0000_0000_0000u64 } else { 0u64 })
                by (bit_vector)
                requires
                    sign == (((bits32 >> 31) as u64) << 63),
            ;
        }
        if e32 == 0xff {
            // Infinity or NaN: top exponent, payload widened.
            let r: u64 = sign | 0x7ff0_0000_0000_0000 | ((f32v as u64) << 29);
            proof {
                assert(r == ((((bits32 >> 31) as u64) << 63) | (((((bits32 >> 23) & 0xff) as u64
                    + 0x700) as u64) << 52) | (((bits32 & 0x7f_ffff) as u64) << 29))) by (bit_vector)
                    requires
                        r == (sign | 0x7ff0_0000_0000_0000u64 | ((f32v as u64) << 29)),
                        sign == (((bits32 >> 31) as u64) << 63),
                        f32v == (bits32 & 0x7f_ffff),
                        ((bits32 >> 23) & 0xff) == 0xff,
                ;
                assert(r == spec_promote_nonsub(bits32));
            }
            return Num { bits: r };
        }
        if e32 == 0 {
            if f32v == 0 {
                return Num { bits: sign };
            }
            // Subnormal: the value is f * 2^-149; normalise it into the
            // wider format, where it is representable as a normal value.
            let mut m: u64 = f32v as u64;
            let mut e: u64 = 897;
            proof {
                lemma2_to64();
            }
            while m < 0x80_0000
                invariant
                    1 <= m < 0x100_0000u64,
                    874 <= e <= 897,
                    (m as int) >= pow2((897 - e) as nat) as int,
                decreases e,
            {
                proof {
                    lemma_pow2_adds((897 - e) as nat, 1);
                    lemma2_to64();
                    if e == 874 {
                        lemma2_to64_rest();
                        assert(pow2(23) == 0x80_0000) by {
                            lemma2_to64();
                        }
                        assert(false);
                    }
                }
                m = m * 2;
                e = e - 1;
            }
            let frac64: u64 = (m & 0x7f_ffff) << 29;
            let r: u64 = sign | (e << 52) | frac64;
            return Num { bits: r };
        }
        // Normal: rebias the exponent by 1023 - 127 and widen the fraction.
        let e64: u64 = (e32 as u64) + 896;
        let r: u64 = sign | (e64 << 52) | ((f32v as u64) << 29);
        proof {
            assert(r == ((((bits32 >> 31) as u64) << 63) | (((((bits32 >> 23) & 0xff) as u64
                + 896) as u64) << 52) | (((bits32 & 0x7f_ffff) as u64) << 29))) by (bit_vector)
                requires
                    r == (sign | ((((e32 as u64) + 896) as u64) << 52) | ((f32v as u64) << 29)),
                    sign == (((bits32 >> 31) as u64) << 63),
                    e32 == ((bits32 >> 23) & 0xff),
                    f32v == (bits32 & 0x7f_ffff),
                    1 <= e32 <= 0xfe,
            ;
            assert(r == spec_promote_nonsub(bits32));
        }
        Num { bits: r }
    }

    /// Narrows this binary64 pattern into a binary32 pattern, rounding to
    /// nearest, ties to even; values beyond the binary32 range become
    /// infinities, and values too small for it flush toward zero through
    /// the subnormal range.  A pattern that came from widening a binary32
    /// value narrows back to that exact value, stated here for zeros,
    /// normal values, infinities and NaNs.
    pub fn demote_to_f32_bits(&self) -> (r: u32)
        ensures
            897 <= biased_exp(self.bits) <= 1150 && (fraction(self.bits) & 0x1fff_ffff) == 0
                ==> r == spec_narrow_exact(self.bits),
            self.bits == 0 ==> r == 0,
            self.bits == 0x8000_0000_0000_0000u64 ==> r == 0x8000_0000u32,
    {
        let bits = self.bits;
        let sign32: u32 = ((bits >> 63) as u32) << 31;
        let e: u64 = (bits >> 52) & 0x7ff;
        let f: u64 = bits & 0xf_ffff_ffff_ffff;
        proof {
            assert(e <= 0x7ff && f < 0x10_0000_0000_0000u64 && ((bits >> 63) as u32) <= 1)
                by (bit_vector)
                requires
                    e == ((bits >> 52) & 0x7ff),
                    f == (bits & 0xf_ffff_ffff_ffff),
            ;
            assert((bits == 0 ==> (e == 0 && f == 0 && sign32 == 0)) && (bits
                == 0x8000_0000_0000_0000u64 ==> (e == 0 && f == 0 && sign32 == 0x8000_0000u32)))
                by (bit_vector)
                requires
                    e == ((bits >> 52) & 0x7ff),
                    f == (bits & 0xf_ffff_ffff_ffff),
                    sign32 == (((bits >> 63) as u32) << 31),
            ;
        }
        if e == 0x7ff {
            // Infinity or NaN: keep the class; keep a NaN marked NaN even
            // if its payload's top bits vanish.
            let payload: u32 = (f >> 29) as u32;
            let payload32: u32 = if f != 0 && payload == 0 {
                0x40_0000
            } else {
                payload
            };
            proof {
                assert((f >> 29) < 0x80_0000u64) by (bit_vector)
                    requires
                        f < 0x10_0000_0000_0000u64,
                ;
            }
            return sign32 | 0x7f80_0000 | payload32;
        }
        if e > 1150 {
            // Too large for the narrow range: infinity.
            return sign32 | 0x7f80_0000;
        }
        if e < 874 {
            // Too small even for the subnormal range: signed zero.
            return sign32;
        }
        if e >= 897 {
            // Normal target range.  Round the 29 dropped fraction bits.
            let e32: u32 = (e - 896) as u32;
            let keep: u32 = (f >> 29) as u32;
            let dropped: u64 = f & 0x1fff_ffff;
            proof {
                assert((f >> 29) < 0x80_0000u64 && ((f >> 29) << 29) | (f & 0x1fff_ffffu64) == f)
                    by (bit_vector)
                    requires
                        f < 0x10_0000_0000_0000u64,
                ;
            }
            let rounded: u32 = if dropped > 0x1000_0000 || (dropped == 0x1000_0000 && (keep & 1)
                == 1) {
                keep + 1
            } else {
                keep
            };
            if rounded == 0x80_0000 {
                // The fraction overflowed into the next binade.
                if e32 + 1 >= 0xff {
                    return sign32 | 0x7f80_0000;
                }
                return sign32 | ((e32 + 1) << 23);
            }
            let r: u32 = sign32 | (e32 << 23) | rounded;
            proof {
                if (f & 0x1fff_ffff) == 0 {
                    assert(dropped == 0);
                    assert(rounded == keep);
                    assert(r == ((((bits >> 63) as u32) << 31) | (((((bits >> 52) & 0x7ff)
                        - 896) as u32) << 23) | (((bits & 0xf_ffff_ffff_ffff) >> 29) as u32)))
                        by (bit_vector)
                        requires
                            r == (sign32 | (e32 << 23) | keep),
                            keep == ((f >> 29) as u32),
                            e32 == ((e - 896) as u32),
                            sign32 == (((bits >> 63) as u32) << 31),
                            e == ((bits >> 52) & 0x7ff),
                            f == (bits & 0xf_ffff_ffff_ffff),
                            897 <= e <= 1150,
                    ;
                    assert(r == spec_narrow_exact(bits));
                }
            }
            return r;
        }
        // Subnormal target: shift the significand (with its implicit bit)
        // right until the exponent reaches the subnormal scale, rounding
        // once at the end.
        let shift: u64 = 897 - e;
        let wide: u64 = (f | 0x10_0000_0000_0000) >> 28;
        proof {
            assert(wide < 0x200_0000u64) by (bit_vector)
                requires
                    wide == ((f | 0x10_0000_0000_0000u64) >> 28),
                    f < 0x10_0000_0000_0000u64,
            ;
        }
        let mut sig: u64 = wide;
        let mut i: u64 = 0;
        let mut sticky: bool = false;
        while i < shift
            invariant
                0 <= i <= shift,
                shift <= 23,
                sig < 0x200_0000u64,
            decreases shift - i,
        {
            sticky = sticky || ((sig & 1) == 1);
            sig = sig / 2;
            i = i + 1;
        }
        let keep: u32 = (sig >> 1) as u32;
        proof {
            assert(keep < 0x100_0000u32) by (bit_vector)
                requires
                    keep == ((sig >> 1) as u32),
                    sig < 0x200_0000u64,
            ;
        }
        let round_bit: bool = (sig & 1) == 1;
        let rounded: u32 = if round_bit && (sticky || (keep & 1) == 1) {
            keep + 1
        } else {
            keep
        };
        if rounded >= 0x80_0000 {
            return sign32 | (1u32 << 23) | (rounded & 0x7f_ffff);
        }
        sign32 | rounded
    }
}


/// Widening a normal binary32 value into the wide format and narrowing
/// it back is the identity: the wide format carries every such value
/// exactly, with 29 spare fraction bits and an in-range exponent.
pub proof fn law_f32_widen_narrow_identity(bits32: u32)
    requires
        1 <= f32_exp(bits32) <= 0xfe,
    ensures
        897 <= biased_exp(spec_promote_nonsub(bits32)) <= 1150,
        fraction(spec_promote_nonsub(bits32)) & 0x1fff_ffff == 0,
        spec_narrow_exact(spec_promote_nonsub(bits32)) == bits32,
{
    let w = spec_promote_nonsub(bits32);
    assert(w == ((((bits32 >> 31) as u64) << 63) | (((((bits32 >> 23) & 0xff) as u64
        + 896) as u64) << 52) | (((bits32 & 0x7f_ffff) as u64) << 29)));
    assert((897 <= ((w >> 52) & 0x7ff) && ((w >> 52) & 0x7ff) <= 1150) && ((w
        & 0xf_ffff_ffff_ffff) & 0x1fff_ffff) == 0 && ((((w >> 63) as u32) << 31) | (((((w
        >> 52) & 0x7ff) - 896) as u32) << 23) | (((w & 0xf_ffff_ffff_ffff) >> 29) as u32))
        == bits32) by (bit_vector)
        requires
            w == ((((bits32 >> 31) as u64) << 63) | (((((bits32 >> 23) & 0xff) as u64
                + 896) as u64) << 52) | (((bits32 & 0x7f_ffff) as u64) << 29)),
            1 <= ((bits32 >> 23) & 0xff),
            ((bits32 >> 23) & 0xff) <= 0xfe,
    ;
}

} // verus!
