//! Detection sensitivities.
//!
//! A sensitivity is a single-precision binary floating-point number, held
//! here by its bit pattern: one sign bit, eight exponent bits and
//! twenty-three fraction bits. The native engine accepts only values in the
//! closed interval from zero to one.

use vstd::prelude::*;
use vstd::arithmetic::power2::{
    lemma2_to64, lemma_pow2_adds, lemma_pow2_pos, lemma_pow2_strictly_increases, pow2,
};

verus! {

/// The sign bit of a bit pattern.
pub open spec fn sign_of(bits: u32) -> nat {
    (bits as nat) / 0x8000_0000
}

/// The biased exponent of a bit pattern.
pub open spec fn exponent_of(bits: u32) -> nat {
    ((bits as nat) / 0x80_0000) % 256
}

/// The fraction field of a bit pattern.
pub open spec fn fraction_of(bits: u32) -> nat {
    (bits as nat) % 0x80_0000
}

/// Whether the bit pattern stands for a number, rather than for an infinity
/// or for no number at all.
pub open spec fn is_finite(bits: u32) -> bool {
    exponent_of(bits) != 255
}

/// The absolute value of a finite bit pattern, counted in units of
/// 2 to the power -149, the smallest positive value of the format.
pub open spec fn magnitude(bits: u32) -> nat {
    if exponent_of(bits) == 0 {
        fraction_of(bits)
    } else {
        (0x80_0000 + fraction_of(bits)) * pow2((exponent_of(bits) - 1) as nat)
    }
}

/// Whether the number a bit pattern stands for lies in the closed interval
/// from zero to one. One is 2 to the power 149 units; a zero of either sign
/// counts as zero.
pub open spec fn in_unit_interval(bits: u32) -> bool {
    &&& is_finite(bits)
    &&& (sign_of(bits) == 0 || magnitude(bits) == 0)
    &&& magnitude(bits) <= pow2(149)
}

/// The bit pattern of one half, the sensitivity used when none is given.
pub const DEFAULT_SENSITIVITY_BITS: u32 = 0x3F00_0000;

/// One sensitivity, in the native engine's number format.
#[derive(PartialEq, Eq, Clone, Copy, Debug, Structural)]
pub struct Sensitivity {
    pub bits: u32,
}

proof fn lemma_magnitude_against_one(exponent: nat, fraction: nat)
    requires
        1 <= exponent <= 254,
        fraction < 0x80_0000,
    ensures
        exponent <= 126 ==> (0x80_0000 + fraction) * pow2((exponent - 1) as nat) < pow2(149),
        exponent == 127 && fraction == 0 ==> (0x80_0000 + fraction) * pow2(
            (exponent - 1) as nat,
        ) == pow2(149),
        exponent == 127 && fraction > 0 ==> (0x80_0000 + fraction) * pow2((exponent - 1) as nat)
            > pow2(149),
        exponent >= 128 ==> (0x80_0000 + fraction) * pow2((exponent - 1) as nat) > pow2(149),
{
    lemma2_to64();
    let p = pow2((exponent - 1) as nat);
    let one = pow2(126);
    lemma_pow2_adds(23, 126);
    lemma_pow2_adds(24, 125);
    lemma_pow2_pos((exponent - 1) as nat);
    lemma_pow2_pos(126);
    assert(pow2(23) == 0x80_0000);
    assert(pow2(24) == 0x100_0000);
    assert(0x80_0000 * one == pow2(149));
    if exponent <= 126 {
        if exponent < 126 {
            lemma_pow2_strictly_increases((exponent - 1) as nat, 125);
        }
        assert(p <= pow2(125));
        assert((0x80_0000 + fraction) * p < 0x100_0000 * pow2(125)) by (nonlinear_arith)
            requires
                fraction < 0x80_0000,
                0 < p <= pow2(125),
        ;
    } else if exponent == 127 {
        assert((0x80_0000 + fraction) * one == 0x80_0000 * one + fraction * one)
            by (nonlinear_arith);
        assert(fraction > 0 ==> fraction * one > 0) by (nonlinear_arith)
            requires
                one > 0,
        ;
    } else {
        lemma_pow2_strictly_increases(126, (exponent - 1) as nat);
        assert((0x80_0000 + fraction) * p > 0x80_0000 * one) by (nonlinear_arith)
            requires
                p > one,
                one > 0,
        ;
    }
}

/// The bit patterns of the numbers from zero to one are exactly those up to
/// the pattern of one, and the pattern of negative zero.
pub proof fn unit_interval_patterns(bits: u32)
    ensures
        in_unit_interval(bits) <==> (bits <= 0x3F80_0000 || bits == 0x8000_0000),
{
    let exponent = exponent_of(bits);
    let fraction = fraction_of(bits);
    lemma_pow2_pos(149);
    if 1 <= exponent <= 254 {
        lemma_magnitude_against_one(exponent, fraction);
        lemma_pow2_pos((exponent - 1) as nat);
        assert((0x80_0000 + fraction) * pow2((exponent - 1) as nat) > 0) by (nonlinear_arith)
            requires
                pow2((exponent - 1) as nat) > 0,
        ;
    } else if exponent == 0 {
        lemma2_to64();
        lemma_pow2_strictly_increases(23, 149);
    }
}

/// A copy of a list of sensitivities.
pub fn copy_sensitivities(all: &[Sensitivity]) -> (copy: Vec<Sensitivity>)
    ensures
        copy@ == all@,
{
    let mut copy: Vec<Sensitivity> = Vec::new();
    let mut i: usize = 0;
    while i < all.len()
        invariant
            i <= all@.len(),
            copy@ == all@.take(i as int),
        decreases all@.len() - i,
    {
        copy.push(all[i]);
        assert(copy@ =~= all@.take(i + 1));
        i += 1;
    }
    assert(copy@ =~= all@);
    copy
}

impl Sensitivity {
    /// The sensitivity with the given bit pattern.
    pub fn from_bits(bits: u32) -> (s: Sensitivity)
        ensures
            s.bits == bits,
    {
        Sensitivity { bits }
    }

    /// The bit pattern of the sensitivity.
    pub fn to_bits(&self) -> (bits: u32)
        ensures
            bits == self.bits,
    {
        self.bits
    }

    /// One half.
    pub fn default_value() -> (s: Sensitivity)
        ensures
            s.bits == DEFAULT_SENSITIVITY_BITS,
            in_unit_interval(s.bits),
    {
        proof {
            unit_interval_patterns(DEFAULT_SENSITIVITY_BITS);
        }
        Sensitivity { bits: DEFAULT_SENSITIVITY_BITS }
    }

    /// Whether the sensitivity lies in the closed interval from zero to one.
    pub fn is_valid(&self) -> (r: bool)
        ensures
            r == in_unit_interval(self.bits),
    {
        proof {
            unit_interval_patterns(self.bits);
        }
        self.bits <= 0x3F80_0000 || self.bits == 0x8000_0000
    }
}

} // verus!
