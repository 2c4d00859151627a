//! Integer model of the wire encoding of motor speeds.
//!
//! On the wire a motor speed travels as the four big-endian bytes of an
//! IEEE 754 single-precision number.  The receiver rounds the decoded
//! value to four decimal places before range-checking it, so the only
//! information a frame can carry into the system is a signed count of
//! ten-thousandths.  This module models both directions of that
//! conversion exactly, over plain integers:
//!
//! - [`spec_tt_of_bits`] / [`tt_of_bits`]: from the 32 bits of the wire
//!   number to the count of ten-thousandths nearest to its value (halves
//!   round away from zero), refusing not-a-number and infinite patterns
//!   and counts beyond one full scale.
//! - [`spec_bits_of_tt`] / [`bits_of_tt`]: from a count of
//!   ten-thousandths to the bits of the single-precision number nearest
//!   to `count / 10000` (by the round-to-nearest rule; no tie is
//!   reachable from this range).
//!
//! [`lemma_tt_bits_round_trip`] proves that the two functions invert each
//! other, which is what makes the wire round-trip law of the protocol
//! hold for every representable speed.

use vstd::prelude::*;
use vstd::arithmetic::div_mod::{
    lemma_fundamental_div_mod, lemma_fundamental_div_mod_converse_div,
    lemma_fundamental_div_mod_converse_mod,
};
use vstd::arithmetic::mul::{lemma_mul_inequality, lemma_mul_is_distributive_add_other_way};
use vstd::arithmetic::power2::{
    lemma2_to64, lemma2_to64_rest, lemma_pow2_adds, lemma_pow2_pos, lemma_pow2_strictly_increases,
    pow2,
};

verus! {

/// Sign bit of a single-precision bit pattern.
pub open spec fn spec_bits_sign(bits: u32) -> int {
    (bits as int) / 0x80000000
}

/// Biased exponent field of a single-precision bit pattern.
pub open spec fn spec_bits_exp(bits: u32) -> int {
    ((bits as int) / 0x800000) % 0x100
}

/// Fraction field of a single-precision bit pattern.
pub open spec fn spec_bits_frac(bits: u32) -> int {
    (bits as int) % 0x800000
}

/// `num / pow2(sh)` rounded to the nearest integer, halves rounding up.
pub open spec fn round_div_pow2(num: int, sh: nat) -> int
    recommends
        num >= 0,
        sh >= 1,
{
    (num + pow2((sh - 1) as nat)) / (pow2(sh) as int)
}

/// The magnitude, in ten-thousandths rounded to the nearest count, of the
/// single-precision value with biased exponent field `exp` and fraction
/// field `frac`.  A finite value with exponent field `exp >= 1` equals
/// `(0x800000 + frac) / pow2(150 - exp)`; a subnormal (`exp == 0`) equals
/// `frac / pow2(149)`.
pub open spec fn spec_magnitude_tt(exp: int, frac: int) -> int
    recommends
        0 <= exp <= 254,
        0 <= frac < 0x800000,
{
    if exp == 0 {
        round_div_pow2(frac * 10000, 149)
    } else if exp <= 149 {
        round_div_pow2((0x800000 + frac) * 10000, (150 - exp) as nat)
    } else {
        (0x800000 + frac) * 10000 * (pow2((exp - 150) as nat) as int)
    }
}

/// The signed count of ten-thousandths carried by a single-precision bit
/// pattern: `None` for not-a-number and infinite patterns and for values
/// whose rounded magnitude exceeds one full scale.
pub open spec fn spec_tt_of_bits(bits: u32) -> Option<int> {
    let exp = spec_bits_exp(bits);
    let frac = spec_bits_frac(bits);
    if exp == 255 {
        None
    } else {
        let mag = spec_magnitude_tt(exp, frac);
        if mag > 10000 {
            None
        } else if spec_bits_sign(bits) == 1 {
            Some(-mag)
        } else {
            Some(mag)
        }
    }
}

/// The smallest shift at or above `sh` that scales a magnitude `m` of
/// ten-thousandths into the mantissa range `[pow2(23) * 10000, ...)`.
/// For `1 <= m <= 10000` the search starting at 23 always stops by 37.
pub open spec fn spec_enc_shift(m: int, sh: nat) -> nat
    recommends
        1 <= m <= 10000,
        23 <= sh <= 37,
    decreases 37 - sh,
{
    if sh >= 37 || m * pow2(sh) >= 10000 * pow2(23) {
        sh
    } else {
        spec_enc_shift(m, sh + 1)
    }
}

/// The bit pattern, assembled as an integer, with sign bit `sign`, biased
/// exponent field `exp` and fraction field `frac`.
pub open spec fn spec_assemble_bits(sign: int, exp: int, frac: int) -> int {
    sign * 0x80000000 + exp * 0x800000 + frac
}

/// The single-precision bit pattern nearest to `tt / 10000`, for a signed
/// count `tt` of ten-thousandths within one full scale.  Zero encodes as
/// the all-zero pattern.
pub open spec fn spec_bits_of_tt(tt: int) -> u32
    recommends
        -10000 <= tt <= 10000,
{
    if tt == 0 {
        0u32
    } else {
        let sign: int = if tt < 0 {
            1
        } else {
            0
        };
        let m: int = if tt < 0 {
            -tt
        } else {
            tt
        };
        let sh = spec_enc_shift(m, 23);
        let mant = (m * pow2(sh) + 5000) / 10000;
        if mant == pow2(24) {
            spec_assemble_bits(sign, 151 - sh, 0) as u32
        } else {
            spec_assemble_bits(sign, 150 - sh, mant - 0x800000) as u32
        }
    }
}

/// `pow2(k)` as a machine word.
pub fn pow2_u64(k: u64) -> (r: u64)
    requires
        k <= 63,
    ensures
        r == pow2(k as nat),
{
    let mut i: u64 = 0;
    let mut acc: u64 = 1;
    proof {
        lemma2_to64();
    }
    while i < k
        invariant
            i <= k <= 63,
            acc == pow2(i as nat),
        decreases k - i,
    {
        proof {
            lemma_pow2_adds(i as nat, 1);
            lemma2_to64();
            if i + 1 < 63 {
                lemma_pow2_strictly_increases((i + 1) as nat, 63);
            }
            lemma2_to64_rest();
        }
        acc = acc * 2;
        i = i + 1;
    }
    acc
}

/// Decodes a single-precision bit pattern into the signed count of
/// ten-thousandths nearest to its value, refusing not-a-number and
/// infinite patterns and counts beyond one full scale.
pub fn tt_of_bits(bits: u32) -> (r: Option<i32>)
    ensures
        match r {
            Some(tt) => spec_tt_of_bits(bits) == Some(tt as int) && -10000 <= tt <= 10000,
            None => spec_tt_of_bits(bits) is None,
        },
{
    let sign: u32 = bits / 0x80000000;
    let expf: u32 = (bits / 0x800000) % 0x100;
    let frac: u32 = bits % 0x800000;
    if expf == 255 {
        return None;
    }
    if expf >= 150 {
        proof {
            lemma_magnitude_large_exp(expf as int, frac as int);
        }
        return None;
    }
    let mant: u64 = if expf == 0 {
        frac as u64
    } else {
        0x800000u64 + frac as u64
    };
    let sh: u64 = if expf == 0 {
        149
    } else {
        150 - expf as u64
    };
    let mag: u64 = if sh >= 39 {
        proof {
            lemma_round_div_small(mant as int, sh as nat);
        }
        0
    } else {
        let num: u64 = mant * 10000;
        let half: u64 = pow2_u64(sh - 1);
        let den: u64 = pow2_u64(sh);
        proof {
            lemma_pow2_pos(sh as nat);
            lemma_pow2_bounds_38();
            lemma_pow2_le((sh - 1) as nat, 38);
        }
        (num + half) / den
    };
    if mag > 10000 {
        None
    } else {
        let tt: i32 = mag as i32;
        if sign == 1 {
            Some(-tt)
        } else {
            Some(tt)
        }
    }
}

/// `pow2(38)` and the bounds on it that the decoder needs.
proof fn lemma_pow2_bounds_38()
    ensures
        pow2(38) == 0x4000000000,
        pow2(22) == 0x400000,
        pow2(23) == 0x800000,
        pow2(24) == 0x1000000,
{
    lemma2_to64();
    lemma2_to64_rest();
}

/// Monotonicity of `pow2` in its non-strict form.
proof fn lemma_pow2_le(a: nat, b: nat)
    requires
        a <= b,
    ensures
        pow2(a) <= pow2(b),
{
    if a < b {
        lemma_pow2_strictly_increases(a, b);
    }
}

/// A mantissa scaled by ten thousand vanishes under a shift of 39 or
/// more: the rounded quotient is zero.
proof fn lemma_round_div_small(mant: int, sh: nat)
    requires
        0 <= mant < 0x1000000,
        39 <= sh,
    ensures
        round_div_pow2(mant * 10000, sh) == 0,
{
    let num: int = mant * 10000;
    assert(num < 0x4000000000) by (nonlinear_arith)
        requires
            0 <= mant < 0x1000000,
            num == mant * 10000,
    ;
    lemma_pow2_bounds_38();
    lemma_pow2_le(38, (sh - 1) as nat);
    lemma_pow2_pos((sh - 1) as nat);
    lemma_pow2_pos(sh);
    lemma_pow2_adds((sh - 1) as nat, 1);
    lemma2_to64();
    assert(pow2(sh) == pow2((sh - 1) as nat) * 2);
    assert(num + pow2((sh - 1) as nat) < pow2(sh));
    lemma_fundamental_div_mod_converse_div(
        num + pow2((sh - 1) as nat) as int,
        pow2(sh) as int,
        0,
        num + pow2((sh - 1) as nat) as int,
    );
}

/// Encodes a signed count of ten-thousandths within one full scale as
/// the single-precision bit pattern nearest to `tt / 10000`.
pub fn bits_of_tt(tt: i32) -> (bits: u32)
    requires
        -10000 <= tt <= 10000,
    ensures
        bits == spec_bits_of_tt(tt as int),
{
    if tt == 0 {
        return 0;
    }
    let sign: u32 = if tt < 0 {
        1
    } else {
        0
    };
    let m: u64 = if tt < 0 {
        (-tt) as u64
    } else {
        tt as u64
    };
    let mut sh: u64 = 23;
    let mut p: u64 = pow2_u64(23);
    proof {
        lemma2_to64();
    }
    loop
        invariant
            1 <= m <= 10000,
            23 <= sh <= 37,
            p == pow2(sh as nat),
            spec_enc_shift(m as int, 23) == spec_enc_shift(m as int, sh as nat),
            sh > 23 ==> (m as int) * pow2((sh - 1) as nat) < 10000 * pow2(23),
        ensures
            23 <= sh <= 37,
            p == pow2(sh as nat),
            sh as nat == spec_enc_shift(m as int, 23),
            (m as int) * pow2(sh as nat) >= 10000 * pow2(23),
            sh > 23 ==> (m as int) * pow2((sh - 1) as nat) < 10000 * pow2(23),
        decreases 37 - sh,
    {
        proof {
            lemma2_to64();
            lemma2_to64_rest();
            lemma_pow2_le(sh as nat, 37);
            lemma_mul_inequality(m as int, 10000, pow2(sh as nat) as int);
            assert((m as int) * pow2(sh as nat) <= 10000 * pow2(37));
        }
        let prod: u64 = m * p;
        if prod >= 83886080000u64 {
            break;
        }
        proof {
            if sh >= 37 {
                lemma_mul_inequality(1, m as int, pow2(37) as int);
                assert(false);
            }
        }
        sh = sh + 1;
        p = p * 2;
        proof {
            lemma_pow2_adds((sh - 1) as nat, 1);
            lemma2_to64();
        }
    }
    proof {
        lemma2_to64();
        lemma_mant_bounds(m as int, sh as nat);
        lemma_mul_inequality(m as int, 10000, pow2(sh as nat) as int);
        lemma2_to64_rest();
        lemma_pow2_le(sh as nat, 37);
    }
    let mant: u64 = (m * p + 5000) / 10000;
    if mant == 0x1000000 {
        sign * 0x80000000 + (151 - sh as u32) * 0x800000
    } else {
        sign * 0x80000000 + (150 - sh as u32) * 0x800000 + (mant as u32 - 0x800000)
    }
}

/// Properties of the encoder's shift search: starting anywhere at or
/// below 37, it stops at a shift that scales the magnitude into the
/// mantissa range, and stops at the first such shift.
proof fn lemma_enc_shift_props(m: int, sh0: nat)
    requires
        1 <= m <= 10000,
        23 <= sh0 <= 37,
        sh0 > 23 ==> m * pow2((sh0 - 1) as nat) < 10000 * pow2(23),
    ensures
        ({
            let sh = spec_enc_shift(m, sh0);
            &&& sh0 <= sh <= 37
            &&& m * pow2(sh) >= 10000 * pow2(23)
            &&& sh > 23 ==> m * pow2((sh - 1) as nat) < 10000 * pow2(23)
        }),
    decreases 37 - sh0,
{
    lemma2_to64();
    lemma2_to64_rest();
    if sh0 >= 37 {
        lemma_mul_inequality(1, m, pow2(37) as int);
    } else if m * pow2(sh0) >= 10000 * pow2(23) {
    } else {
        lemma_enc_shift_props(m, sh0 + 1);
    }
}

/// Bounds on the rounded mantissa produced by the encoder: it lies in
/// the mantissa range and approximates the scaled magnitude to within
/// half a rounding step.
proof fn lemma_mant_bounds(m: int, sh: nat)
    requires
        1 <= m <= 10000,
        23 <= sh <= 37,
        m * pow2(sh) >= 10000 * pow2(23),
        sh > 23 ==> m * pow2((sh - 1) as nat) < 10000 * pow2(23),
    ensures
        ({
            let mant = (m * pow2(sh) + 5000) / 10000;
            &&& pow2(23) <= mant <= pow2(24)
            &&& (sh == 23 ==> mant == pow2(23))
            &&& mant * 10000 >= m * pow2(sh) - 4999
            &&& mant * 10000 <= m * pow2(sh) + 5000
        }),
{
    lemma2_to64();
    let scaled: int = m * pow2(sh);
    let mant: int = (scaled + 5000) / 10000;
    lemma_fundamental_div_mod(scaled + 5000, 10000);
    if sh == 23 {
        lemma_mul_inequality(m, 10000, pow2(23) as int);
    } else {
        lemma_pow2_adds((sh - 1) as nat, 1);
        assert(scaled == m * (pow2((sh - 1) as nat) * 2));
        assert(m * (pow2((sh - 1) as nat) * 2) == (m * pow2((sh - 1) as nat)) * 2)
            by (nonlinear_arith);
        lemma2_to64_rest();
    }
}

/// Recovering a magnitude from its rounded mantissa: dividing the scaled
/// mantissa back down, rounding to nearest, returns exactly the
/// magnitude the encoder started from.
proof fn lemma_decode_mant(m: int, mant: int, sh: nat)
    requires
        1 <= m <= 10000,
        23 <= sh <= 37,
        mant * 10000 >= m * pow2(sh) - 4999,
        mant * 10000 <= m * pow2(sh) + 5000,
    ensures
        round_div_pow2(mant * 10000, sh) == m,
{
    lemma2_to64();
    let p: int = pow2(sh) as int;
    let h: int = pow2((sh - 1) as nat) as int;
    lemma_pow2_adds((sh - 1) as nat, 1);
    assert(p == h * 2);
    lemma_pow2_le(22, (sh - 1) as nat);
    let num: int = mant * 10000 + h;
    assert(num >= m * p);
    assert(num < m * p + p);
    lemma_mul_is_distributive_add_other_way(p, m, 1);
    lemma_fundamental_div_mod_converse_div(num, p, m, num - m * p);
}

/// Field decomposition of an assembled bit pattern: the sign, exponent
/// and fraction fields read back exactly what was assembled.
proof fn lemma_bits_fields(sign: int, exp: int, frac: int)
    requires
        sign == 0 || sign == 1,
        0 <= exp <= 254,
        0 <= frac < 0x800000,
    ensures
        ({
            let b = spec_assemble_bits(sign, exp, frac);
            &&& 0 <= b < 0x100000000
            &&& spec_bits_sign(b as u32) == sign
            &&& spec_bits_exp(b as u32) == exp
            &&& spec_bits_frac(b as u32) == frac
        }),
{
    let b: int = spec_assemble_bits(sign, exp, frac);
    assert((sign * 256 + exp) * 0x800000 == sign * 0x80000000 + exp * 0x800000)
        by (nonlinear_arith);
    assert(b == (sign * 256 + exp) * 0x800000 + frac);
    lemma_fundamental_div_mod_converse_div(b, 0x80000000, sign, exp * 0x800000 + frac);
    lemma_fundamental_div_mod_converse_div(b, 0x800000, sign * 256 + exp, frac);
    lemma_fundamental_div_mod_converse_mod(b, 0x800000, sign * 256 + exp, frac);
    lemma_fundamental_div_mod_converse_mod(sign * 256 + exp, 256, sign, exp);
    assert(b as u32 as int == b);
}

/// The wire round trip for speeds: decoding the bit pattern that encodes
/// any representable signed count of ten-thousandths returns exactly
/// that count.
pub proof fn lemma_tt_bits_round_trip(tt: int)
    requires
        -10000 <= tt <= 10000,
    ensures
        spec_tt_of_bits(spec_bits_of_tt(tt)) == Some(tt),
{
    lemma2_to64();
    if tt == 0 {
        assert(spec_bits_of_tt(0) == 0u32);
        assert(spec_bits_sign(0u32) == 0);
        assert(spec_bits_exp(0u32) == 0);
        assert(spec_bits_frac(0u32) == 0);
        lemma_pow2_pos(148);
        lemma_pow2_adds(148, 1);
        lemma_fundamental_div_mod_converse_div(pow2(148) as int, pow2(149) as int, 0, pow2(148) as int);
        assert(spec_magnitude_tt(0, 0) == 0);
    } else {
        let sign: int = if tt < 0 {
            1
        } else {
            0
        };
        let m: int = if tt < 0 {
            -tt
        } else {
            tt
        };
        lemma_enc_shift_props(m, 23);
        let sh = spec_enc_shift(m, 23);
        lemma_mant_bounds(m, sh);
        let mant: int = (m * pow2(sh) + 5000) / 10000;
        if mant == pow2(24) {
            let sh2: nat = (sh - 1) as nat;
            assert(sh > 23);
            let exp: int = 151 - sh;
            lemma_bits_fields(sign, exp, 0);
            let b = spec_assemble_bits(sign, exp, 0) as u32;
            assert(spec_bits_of_tt(tt) == b);
            lemma_pow2_adds(sh2, 1);
            assert(mant * 10000 == ((pow2(23) * 2) as int) * 10000) by {
                lemma_pow2_adds(23, 1);
            }
            assert((pow2(23) * 2) * 10000 == (pow2(23) * 10000) * 2) by (nonlinear_arith);
            assert(m * pow2(sh) == (m * pow2(sh2)) * 2) by (nonlinear_arith)
                requires
                    pow2(sh) == pow2(sh2) * 2,
            ;
            assert(pow2(23) * 10000 >= m * pow2(sh2) - 4999);
            assert(pow2(23) * 10000 <= m * pow2(sh2) + 5000);
            lemma_decode_mant(m, pow2(23) as int, sh2);
            assert(spec_magnitude_tt(exp, 0) == round_div_pow2((pow2(23) as int) * 10000, (150 - exp) as nat));
            assert((150 - exp) as nat == sh2);
        } else {
            let exp: int = 150 - sh;
            let frac: int = mant - 0x800000;
            lemma_bits_fields(sign, exp, frac);
            let b = spec_assemble_bits(sign, exp, frac) as u32;
            assert(spec_bits_of_tt(tt) == b);
            lemma_decode_mant(m, mant, sh);
            assert(spec_magnitude_tt(exp, frac) == round_div_pow2(mant * 10000, (150 - exp) as nat));
            assert((150 - exp) as nat == sh);
        }
    }
}

/// A finite value whose biased exponent field is 150 or more lies far
/// beyond one full scale.
proof fn lemma_magnitude_large_exp(exp: int, frac: int)
    requires
        150 <= exp <= 254,
        0 <= frac < 0x800000,
    ensures
        spec_magnitude_tt(exp, frac) > 10000,
{
    let mant: int = 0x800000 + frac;
    let scaled: int = mant * 10000;
    assert(scaled >= 0x800000 * 10000) by (nonlinear_arith)
        requires
            mant >= 0x800000,
            scaled == mant * 10000,
    ;
    lemma_pow2_pos((exp - 150) as nat);
    let p: int = pow2((exp - 150) as nat) as int;
    assert(scaled * p >= scaled) by (nonlinear_arith)
        requires
            p >= 1,
            scaled >= 0,
    ;
}

} // verus!
