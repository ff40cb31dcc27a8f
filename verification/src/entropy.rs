//! Entropy values, carried as binary64 bit patterns.
//!
//! An entropy estimate is a double-precision number. This module holds such
//! a number by its IEEE 754 bit pattern and compares two of them the way the
//! IEEE 754 comparison predicates do: a NaN compares false with everything,
//! the two zeros are equal, and otherwise the sign and the magnitude decide.

use vstd::arithmetic::power2::{
    lemma2_to64, lemma2_to64_rest, lemma_pow2_adds, lemma_pow2_pos, lemma_pow2_strictly_increases,
    pow2,
};
use vstd::prelude::*;

verus! {

/// The sign bit of a binary64 pattern.
pub const SIGN_BIT: u64 = 0x8000_0000_0000_0000;

/// The pattern of positive infinity; every larger magnitude is a NaN.
pub const INFINITY_BITS: u64 = 0x7FF0_0000_0000_0000;

/// The pattern of 6.0, above which an entropy counts as elevated.
pub const ELEVATED_BITS: u64 = 0x4018_0000_0000_0000;

/// The pattern of 7.5, above which an entropy counts as high.
pub const HIGH_BITS: u64 = 0x401E_0000_0000_0000;

/// The pattern of the binary64 number nearest to 7.9, above which data is
/// taken to be indistinguishable from random.
pub const VERY_HIGH_BITS: u64 = 0x401F_9999_9999_999A;

/// Two to the power of 52: the weight of the exponent field in a pattern.
pub const FRACTION_RANGE: u64 = 0x10_0000_0000_0000;

/// What a magnitude below that of infinity encodes, times two to the power
/// of 1075, which makes it a whole number: with a zero exponent field the
/// fraction field counts units of the smallest number there is, and
/// otherwise an implied one stands before the fraction and the exponent
/// field doubles the number with each step.
pub open spec fn scaled(magnitude: int) -> int {
    let exponent = magnitude / (FRACTION_RANGE as int);
    let fraction = magnitude % (FRACTION_RANGE as int);
    if exponent == 0 {
        fraction * 2
    } else {
        (FRACTION_RANGE + fraction) * pow2(exponent as nat)
    }
}

/// An entropy in bits per byte, as the bit pattern of a binary64 number.
#[derive(Clone, Copy, Debug, PartialEq, Eq, Structural)]
pub struct Entropy {
    pub bits: u64,
}

impl Entropy {
    /// The entropy with the given pattern.
    pub open spec fn of(bits: u64) -> Entropy {
        Entropy { bits }
    }

    /// The pattern without its sign bit.
    pub open spec fn magnitude(self) -> int {
        if self.bits >= SIGN_BIT {
            self.bits - SIGN_BIT
        } else {
            self.bits as int
        }
    }

    /// True for the patterns that encode no number.
    pub open spec fn is_nan(self) -> bool {
        self.magnitude() > INFINITY_BITS
    }

    /// An integer that orders the patterns as their numbers are ordered:
    /// the magnitude, negated where the sign bit is set.
    pub open spec fn rank(self) -> int {
        if self.bits >= SIGN_BIT {
            -self.magnitude()
        } else {
            self.magnitude()
        }
    }

    /// `self > other` on the encoded numbers.
    pub open spec fn above(self, other: Entropy) -> bool {
        !self.is_nan() && !other.is_nan() && self.rank() > other.rank()
    }

    /// `self >= other` on the encoded numbers.
    pub open spec fn at_least(self, other: Entropy) -> bool {
        !self.is_nan() && !other.is_nan() && self.rank() >= other.rank()
    }

    /// `self <= other` on the encoded numbers.
    pub open spec fn at_most(self, other: Entropy) -> bool {
        other.at_least(self)
    }

    /// `min <= self <= max` on the encoded numbers.
    pub open spec fn within(self, min: Entropy, max: Entropy) -> bool {
        self.at_least(min) && self.at_most(max)
    }

    /// True for the patterns that encode a number and not an infinity.
    pub open spec fn is_finite(self) -> bool {
        self.magnitude() < INFINITY_BITS
    }

    /// The encoded number, times two to the power of 1075.
    pub open spec fn scaled_value(self) -> int {
        if self.bits >= SIGN_BIT {
            -scaled(self.magnitude())
        } else {
            scaled(self.magnitude())
        }
    }

    /// Wraps a bit pattern.
    pub fn from_bits(bits: u64) -> (e: Entropy)
        ensures
            e.bits == bits,
    {
        Entropy { bits }
    }

    /// The bit pattern.
    pub fn to_bits(&self) -> (bits: u64)
        ensures
            bits == self.bits,
    {
        self.bits
    }

    /// The entropy of no data at all: positive zero.
    pub fn zero() -> (e: Entropy)
        ensures
            e.bits == 0,
    {
        Entropy { bits: 0 }
    }

    /// The threshold 6.0.
    pub fn elevated() -> (e: Entropy)
        ensures
            e.bits == ELEVATED_BITS,
    {
        Entropy { bits: ELEVATED_BITS }
    }

    /// The threshold 7.5.
    pub fn high() -> (e: Entropy)
        ensures
            e.bits == HIGH_BITS,
    {
        Entropy { bits: HIGH_BITS }
    }

    /// The threshold 7.9.
    pub fn very_high() -> (e: Entropy)
        ensures
            e.bits == VERY_HIGH_BITS,
    {
        Entropy { bits: VERY_HIGH_BITS }
    }

    /// True when the pattern encodes no number.
    pub fn nan(&self) -> (r: bool)
        ensures
            r == self.is_nan(),
    {
        let magnitude: u64 = if self.bits >= SIGN_BIT {
            self.bits - SIGN_BIT
        } else {
            self.bits
        };
        magnitude > INFINITY_BITS
    }

    /// The rank as a machine integer.
    fn signed_rank(&self) -> (r: i128)
        ensures
            r == self.rank(),
    {
        if self.bits >= SIGN_BIT {
            -((self.bits - SIGN_BIT) as i128)
        } else {
            self.bits as i128
        }
    }

    /// Tests `self > other`.
    pub fn exceeds(&self, other: &Entropy) -> (r: bool)
        ensures
            r == self.above(*other),
    {
        !self.nan() && !other.nan() && self.signed_rank() > other.signed_rank()
    }

    /// Tests `min <= self <= max`.
    pub fn in_range(&self, min: &Entropy, max: &Entropy) -> (r: bool)
        ensures
            r == self.within(*min, *max),
    {
        !self.nan() && !min.nan() && !max.nan() && self.signed_rank() >= min.signed_rank()
            && self.signed_rank() <= max.signed_rank()
    }
}

/// A larger magnitude encodes a larger number.
proof fn lemma_scaled_increases(a: int, b: int)
    requires
        0 <= a < b < INFINITY_BITS,
    ensures
        0 <= scaled(a) < scaled(b),
{
    let range = FRACTION_RANGE as int;
    let (ea, fa) = (a / range, a % range);
    let (eb, fb) = (b / range, b % range);
    lemma_pow2_pos(ea as nat);
    let (pa, pb) = (pow2(ea as nat) as int, pow2(eb as nat) as int);
    if ea == eb {
        assert((range + fa) * pa < (range + fb) * pa) by (nonlinear_arith)
            requires
                fa < fb,
                0 < pa,
        ;
    } else {
        lemma2_to64();
        assert(pb >= 2 && (ea > 0 ==> pb >= 2 * pa)) by {
            lemma_pow2_adds(1, ea as nat);
            if ea + 1 < eb {
                lemma_pow2_strictly_increases((ea + 1) as nat, eb as nat);
            }
        }
        assert((range + fb) * pb >= range * pb) by (nonlinear_arith)
            requires
                0 <= fb,
                0 < pb,
        ;
        if ea != 0 {
            assert((range + fa) * pa < range * pb) by (nonlinear_arith)
                requires
                    0 <= fa < range,
                    0 < pa,
                    pb >= 2 * pa,
            ;
        }
    }
}

/// The order of the ranks is the order of the numbers: of two finite
/// patterns, the one with the larger rank encodes the larger number, and
/// patterns of equal rank encode equal numbers.
pub proof fn lemma_rank_orders_numbers(a: Entropy, b: Entropy)
    requires
        a.is_finite(),
        b.is_finite(),
    ensures
        a.rank() < b.rank() <==> a.scaled_value() < b.scaled_value(),
        a.rank() == b.rank() <==> a.scaled_value() == b.scaled_value(),
{
    let (ma, mb) = (a.magnitude(), b.magnitude());
    if ma < mb {
        lemma_scaled_increases(ma, mb);
    } else if mb < ma {
        lemma_scaled_increases(mb, ma);
    }
    if 0 < mb {
        lemma_scaled_increases(0, mb);
    }
}

/// What the thresholds encode: 6.0 and 7.5 exactly, and the binary64
/// number next to 7.9, which lies above 7.9 by four tenths of the distance
/// to its neighbours.
pub proof fn lemma_thresholds()
    ensures
        Entropy::of(0).scaled_value() == 0,
        Entropy::of(ELEVATED_BITS).scaled_value() == 6 * pow2(1075),
        2 * Entropy::of(HIGH_BITS).scaled_value() == 15 * pow2(1075),
        10 * Entropy::of(VERY_HIGH_BITS).scaled_value() == 79 * pow2(1075) + 4 * pow2(1025),
{
    lemma2_to64_rest();
    lemma_pow2_adds(50, 1025);
    let unit = pow2(1025) as int;
    assert(scaled(ELEVATED_BITS as int) == 0x18_0000_0000_0000 * unit);
    assert(scaled(HIGH_BITS as int) == 0x1E_0000_0000_0000 * unit);
    assert(scaled(VERY_HIGH_BITS as int) == 0x1F_9999_9999_999A * unit);
}

} // verus!
