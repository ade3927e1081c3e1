//! Whether the instant that a JSON number names lies before a given second.

use crate::json::JsonNumber;
use vstd::arithmetic::div_mod::lemma_fundamental_div_mod;
use vstd::arithmetic::power2::{lemma2_to64, lemma_pow2_pos, lemma_pow2_strictly_increases, pow2};
use vstd::bits::{lemma_u64_shl_is_mul, lemma_u64_shr_is_div};
use vstd::prelude::*;

verus! {

/// The bit of a binary64 value that holds its sign.
pub const SIGN_BIT: u64 = 0x8000_0000_0000_0000;

/// Two to the power 52: the bit that a normal binary64 value has above its
/// fraction.
pub const HIDDEN_BIT: u64 = 0x10_0000_0000_0000;

/// The exponent field of a binary64 value whose last mantissa bit counts 1.
pub const UNIT_EXPONENT: u64 = 1075;

/// The exponent field that marks an infinity or a NaN.
pub const SPECIAL_EXPONENT: u64 = 2047;

/// Whether the sign bit is set.
pub open spec fn binary64_negative(bits: u64) -> bool {
    bits >= SIGN_BIT
}

/// The exponent field: 11 bits.
pub open spec fn binary64_exponent(bits: u64) -> int {
    ((bits % SIGN_BIT) / HIDDEN_BIT) as int
}

/// The fraction field: 52 bits.
pub open spec fn binary64_fraction(bits: u64) -> int {
    (bits % HIDDEN_BIT) as int
}

/// The mantissa as an integer: the fraction, with the hidden bit above it
/// unless the value is subnormal.
pub open spec fn binary64_mantissa(bits: u64) -> int {
    if binary64_exponent(bits) == 0 {
        binary64_fraction(bits)
    } else {
        HIDDEN_BIT + binary64_fraction(bits)
    }
}

/// The power of two that the mantissa is scaled by: the magnitude of the
/// value is `mantissa * 2^scale`.
pub open spec fn binary64_scale(bits: u64) -> int {
    if binary64_exponent(bits) == 0 {
        1 - UNIT_EXPONENT
    } else {
        binary64_exponent(bits) - UNIT_EXPONENT
    }
}

/// The binary64 value with these bits is finite and less than `now`.
pub open spec fn binary64_before(bits: u64, now: u64) -> bool {
    let mantissa = binary64_mantissa(bits);
    let scale = binary64_scale(bits);
    &&& binary64_exponent(bits) != SPECIAL_EXPONENT
    &&& if binary64_negative(bits) {
        mantissa > 0 || now > 0
    } else if scale >= 0 {
        mantissa * pow2(scale as nat) < now
    } else {
        mantissa < now * pow2((-scale) as nat)
    }
}

/// The number, read as seconds since the epoch, names an instant before
/// the second `now`.
pub open spec fn number_before(number: JsonNumber, now: u64) -> bool {
    match number {
        JsonNumber::Unsigned(n) => n < now,
        JsonNumber::Negative(n) => n < now,
        JsonNumber::Binary64(bits) => binary64_before(bits, now),
    }
}

proof fn lemma_scaled_up_overflows(mantissa: int, factor: int)
    requires
        mantissa >= 0x10_0000_0000_0000,
        factor >= 4096,
    ensures
        mantissa * factor >= 0x1_0000_0000_0000_0000,
{
    assert(mantissa * factor >= 0x10_0000_0000_0000 * 4096) by (nonlinear_arith)
        requires
            mantissa >= 0x10_0000_0000_0000,
            factor >= 4096,
    ;
}

proof fn lemma_scaled_up_fits(mantissa: int, factor: int)
    requires
        0 <= mantissa < 0x20_0000_0000_0000,
        0 < factor <= 2048,
    ensures
        mantissa * factor < 0x1_0000_0000_0000_0000,
{
    assert(mantissa * factor <= 0x20_0000_0000_0000 * 2048 - 2048) by (nonlinear_arith)
        requires
            0 <= mantissa <= 0x20_0000_0000_0000 - 1,
            0 < factor <= 2048,
    ;
}

proof fn lemma_below_multiple(x: int, n: int, d: int)
    requires
        0 <= x,
        0 <= n,
        0 < d,
    ensures
        x < n * d <==> x / d < n,
{
    lemma_fundamental_div_mod(x, d);
    let q = x / d;
    let r = x % d;
    assert(0 <= r < d);
    if q < n {
        assert(d * q + d <= d * n) by (nonlinear_arith)
            requires
                q + 1 <= n,
                0 < d,
        ;
        assert(n * d == d * n) by (nonlinear_arith);
    } else {
        assert(d * q >= d * n) by (nonlinear_arith)
            requires
                q >= n,
                0 < d,
        ;
        assert(n * d == d * n) by (nonlinear_arith);
    }
}

/// Whether the binary64 value with these bits is finite and less than `now`.
pub fn binary64_is_before(bits: u64, now: u64) -> (r: bool)
    ensures
        r == binary64_before(bits, now),
{
    let negative = bits >= SIGN_BIT;
    let exponent: u64 = (bits % SIGN_BIT) / HIDDEN_BIT;
    let fraction: u64 = bits % HIDDEN_BIT;
    if exponent == SPECIAL_EXPONENT {
        return false;
    }
    assert(exponent < 2047);
    let mantissa: u64 = if exponent == 0 {
        fraction
    } else {
        HIDDEN_BIT + fraction
    };
    if negative {
        return mantissa > 0 || now > 0;
    }
    let field: u64 = if exponent == 0 {
        1
    } else {
        exponent
    };
    if field >= UNIT_EXPONENT {
        let shift: u64 = field - UNIT_EXPONENT;
        if shift >= 12 {
            proof {
                lemma2_to64();
                if shift > 12 {
                    lemma_pow2_strictly_increases(12, shift as nat);
                }
                lemma_scaled_up_overflows(mantissa as int, pow2(shift as nat) as int);
            }
            false
        } else {
            proof {
                lemma2_to64();
                lemma_pow2_pos(shift as nat);
                if shift < 11 {
                    lemma_pow2_strictly_increases(shift as nat, 11);
                }
                lemma_scaled_up_fits(mantissa as int, pow2(shift as nat) as int);
                lemma_u64_shl_is_mul(mantissa, shift);
            }
            (mantissa << shift) < now
        }
    } else {
        let shift: u64 = UNIT_EXPONENT - field;
        if shift >= 64 {
            proof {
                lemma2_to64();
                if shift > 64 {
                    lemma_pow2_strictly_increases(64, shift as nat);
                }
                let factor = pow2(shift as nat) as int;
                assert(now > 0 ==> now * factor >= factor) by (nonlinear_arith)
                    requires
                        factor > 0,
                ;
                assert(now == 0 ==> now * factor == 0) by (nonlinear_arith);
            }
            now > 0
        } else {
            proof {
                lemma_pow2_pos(shift as nat);
                lemma_u64_shr_is_div(mantissa, shift);
                lemma_below_multiple(mantissa as int, now as int, pow2(shift as nat) as int);
            }
            (mantissa >> shift) < now
        }
    }
}

/// Whether the number, read as seconds since the epoch, names an instant
/// before the second `now`.
pub fn is_before(number: JsonNumber, now: u64) -> (r: bool)
    ensures
        r == number_before(number, now),
{
    match number {
        JsonNumber::Unsigned(n) => n < now,
        JsonNumber::Negative(n) => n < 0 || (n as u64) < now,
        JsonNumber::Binary64(bits) => binary64_is_before(bits, now),
    }
}

} // verus!
