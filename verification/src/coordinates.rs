//! Coordinates: degrees as binary64 numbers, held by their bits.
//!
//! A quest holds its latitude and longitude as the 64 bits of a binary64 number: one bit
//! of sign, eleven bits of exponent, 52 bits of fraction. The field rules compare these
//! bits as integers. This module says which number the bits stand for, and proves that the
//! comparison of the bits decides what the comparison of the numbers would.

use vstd::prelude::*;
use vstd::arithmetic::power2::{
    lemma2_to64_rest, lemma_pow2_adds, lemma_pow2_pos, lemma_pow2_strictly_increases,
    lemma_pow2_unfold, pow2,
};

use crate::utils::{valid_latitude, valid_longitude};

verus! {

/// The sign bit: 1 for a negative number.
pub open spec fn sign_of(bits: u64) -> int {
    bits as int / 0x8000_0000_0000_0000
}

/// The exponent field: 0 for zero and the subnormal numbers, 2047 for the infinite ones
/// and for what is no number, and between them the binary exponent plus 1023.
pub open spec fn exponent_of(bits: u64) -> int {
    (bits as int / 0x10_0000_0000_0000) % 2048
}

/// The fraction field: the 52 bits behind the leading bit of the significand.
pub open spec fn fraction_of(bits: u64) -> int {
    bits as int % 0x10_0000_0000_0000
}

/// The magnitude of the finite number that `bits` encode, counted in units of 2^-1074, the
/// smallest positive binary64 number: the fraction for a subnormal number, and otherwise
/// the significand, with its leading bit, shifted by the exponent.
pub open spec fn scaled_magnitude(bits: u64) -> int {
    if exponent_of(bits) == 0 {
        fraction_of(bits)
    } else {
        (0x10_0000_0000_0000 + fraction_of(bits)) * pow2((exponent_of(bits) - 1) as nat)
    }
}

/// Whether `bits` encode a number of at least `low` and at most `high` degrees, for whole
/// degrees `0 < low <= high`: a finite number that is not negative and whose magnitude
/// lies between the two.
pub open spec fn degrees_between(bits: u64, low: nat, high: nat) -> bool {
    &&& sign_of(bits) == 0
    &&& exponent_of(bits) < 2047
    &&& low * pow2(1074) <= scaled_magnitude(bits) <= high * pow2(1074)
}

/// Within one exponent the numbers are ordered as their bits are, and the numbers of
/// every other exponent lie outside: for an exponent field `field` and two significands
/// `low <= high` of 53 bits, the finite numbers that are not negative and have a magnitude
/// between `low` and `high`, shifted by that exponent, are those whose bits lie between
/// the encodings of the two.
proof fn lemma_ordered_within_exponent(bits: u64, field: nat, low: int, high: int)
    requires
        1 <= field <= 2046,
        0x10_0000_0000_0000 <= low <= high < 0x20_0000_0000_0000,
    ensures
        (sign_of(bits) == 0 && exponent_of(bits) < 2047 && low * pow2((field - 1) as nat)
            <= scaled_magnitude(bits) <= high * pow2((field - 1) as nat)) <==> (field
            * 0x10_0000_0000_0000 + (low - 0x10_0000_0000_0000) <= bits <= field
            * 0x10_0000_0000_0000 + (high - 0x10_0000_0000_0000)),
{
    let unit: int = 0x10_0000_0000_0000;
    let e = exponent_of(bits);
    let f = fraction_of(bits);
    let weight = pow2((field - 1) as nat) as int;
    lemma_pow2_pos((field - 1) as nat);
    assert(low * weight <= high * weight) by (nonlinear_arith)
        requires
            low <= high,
            weight > 0,
    ;
    assert(unit * weight <= low * weight) by (nonlinear_arith)
        requires
            unit <= low,
            weight > 0,
    ;
    assert(high * weight < 2 * unit * weight) by (nonlinear_arith)
        requires
            high < 2 * unit,
            weight > 0,
    ;
    if sign_of(bits) == 0 && e < 2047 {
        assert(bits == e * unit + f);
        if e == 0 {
            assert(scaled_magnitude(bits) < unit);
            assert(unit <= unit * weight) by (nonlinear_arith)
                requires
                    weight > 0,
                    unit > 0,
            ;
        } else {
            let own = pow2((e - 1) as nat) as int;
            lemma_pow2_pos((e - 1) as nat);
            assert(scaled_magnitude(bits) == (unit + f) * own);
            if e < field {
                lemma_pow2_unfold(e as nat);
                if e < field - 1 {
                    lemma_pow2_strictly_increases(e as nat, (field - 1) as nat);
                }
                assert(pow2(e as nat) <= weight);
                assert((unit + f) * own < unit * weight) by (nonlinear_arith)
                    requires
                        0 <= f < unit,
                        own > 0,
                        2 * own <= weight,
                ;
            } else if e > field {
                lemma_pow2_unfold(field);
                if e - 1 > field {
                    lemma_pow2_strictly_increases(field, (e - 1) as nat);
                }
                assert(2 * weight <= own);
                assert((unit + f) * own >= 2 * unit * weight) by (nonlinear_arith)
                    requires
                        0 <= f,
                        unit > 0,
                        weight > 0,
                        2 * weight <= own,
                ;
            } else {
                assert(own == weight);
                assert((low * weight <= (unit + f) * weight) <==> (low <= unit + f))
                    by (nonlinear_arith)
                    requires
                        weight > 0,
                ;
                assert(((unit + f) * weight <= high * weight) <==> (unit + f <= high))
                    by (nonlinear_arith)
                    requires
                        weight > 0,
                ;
            }
        }
    } else {
        assert(bits >= 2047 * unit);
    }
}

/// The bits that the latitude rule accepts are the encodings of the numbers from 26 to 31
/// degrees, ends included, and of no other number.
pub proof fn lemma_latitude_bits(bits: u64)
    ensures
        valid_latitude(bits) <==> degrees_between(bits, 26, 31),
{
    lemma2_to64_rest();
    lemma_pow2_adds(48, 1026);
    let weight = pow2(1026) as int;
    let low: int = 0x1A_0000_0000_0000;
    let high: int = 0x1F_0000_0000_0000;
    assert(26 * (pow2(48) * weight) == low * weight) by (nonlinear_arith)
        requires
            pow2(48) == 0x1_0000_0000_0000,
            low == 26 * 0x1_0000_0000_0000,
    ;
    assert(31 * (pow2(48) * weight) == high * weight) by (nonlinear_arith)
        requires
            pow2(48) == 0x1_0000_0000_0000,
            high == 31 * 0x1_0000_0000_0000,
    ;
    lemma_ordered_within_exponent(bits, 1027, low, high);
}

/// The bits that the longitude rule accepts are the encodings of the numbers from 80 to
/// 89 degrees, ends included, and of no other number.
pub proof fn lemma_longitude_bits(bits: u64)
    ensures
        valid_longitude(bits) <==> degrees_between(bits, 80, 89),
{
    lemma2_to64_rest();
    lemma_pow2_adds(46, 1028);
    let weight = pow2(1028) as int;
    let low: int = 0x14_0000_0000_0000;
    let high: int = 0x16_4000_0000_0000;
    assert(80 * (pow2(46) * weight) == low * weight) by (nonlinear_arith)
        requires
            pow2(46) == 0x4000_0000_0000,
            low == 80 * 0x4000_0000_0000,
    ;
    assert(89 * (pow2(46) * weight) == high * weight) by (nonlinear_arith)
        requires
            pow2(46) == 0x4000_0000_0000,
            high == 89 * 0x4000_0000_0000,
    ;
    lemma_ordered_within_exponent(bits, 1029, low, high);
}

} // verus!
