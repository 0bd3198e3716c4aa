//! Binary64 numbers, held by their bit pattern.
//!
//! The verifier has no floating-point arithmetic, so a number is carried as
//! the 64 bits of its IEEE 754 encoding and ordered by them. Callers convert
//! with `to_bits` and `from_bits` of the primitive type.

use vstd::prelude::*;
use vstd::arithmetic::power2::{lemma2_to64, lemma_pow2_strictly_increases, pow2};
use vstd::bits::{lemma_u64_shl_is_mul, lemma_u64_shr_is_div};

verus! {

/// The sign bit of a binary64 encoding.
pub const SIGN_BIT: u64 = 0x8000_0000_0000_0000;

/// The exponent field of a binary64 encoding.
pub const EXPONENT_BITS: u64 = 0x7ff0_0000_0000_0000;

/// The fraction field of a binary64 encoding.
pub const FRACTION_BITS: u64 = 0x000f_ffff_ffff_ffff;

/// Everything but the sign bit.
pub const MAGNITUDE_BITS: u64 = 0x7fff_ffff_ffff_ffff;

/// The bit that a normal number's significand has above its fraction.
pub const HIDDEN_BIT: u64 = 0x0010_0000_0000_0000;

/// The exponent field of 1.0: the bias of the encoding.
pub const EXPONENT_OF_ONE: u64 = 1023;

/// The exponent field of the numbers whose significand counts in units of
/// one.
pub const EXPONENT_OF_UNITS: u64 = 1075;

/// The largest exponent field of a number below 2^63 in size.
pub const EXPONENT_OF_LARGEST: u64 = 1085;

/// A binary64 number, identified by its encoding.
#[derive(Clone, Copy, Debug, PartialEq, Eq)]
pub struct Float64 {
    pub bits: u64,
}

impl Float64 {
    /// The encoding with the sign bit cleared.
    pub open spec fn magnitude(self) -> u64 {
        self.bits & MAGNITUDE_BITS
    }

    /// Whether the sign bit is set.
    pub open spec fn is_negative(self) -> bool {
        self.bits & SIGN_BIT != 0
    }

    /// Whether the encoding is a NaN: all exponent bits set and a non-zero
    /// fraction.
    pub open spec fn is_nan(self) -> bool {
        self.bits & EXPONENT_BITS == EXPONENT_BITS && self.bits & FRACTION_BITS != 0
    }

    /// Whether the encoding is neither a NaN nor an infinity.
    pub open spec fn is_finite(self) -> bool {
        self.bits & EXPONENT_BITS != EXPONENT_BITS
    }

    /// The position of the number on the number line: encodings of numbers
    /// that are not NaN are ordered as their ranks are, and both zeros have
    /// rank 0.
    pub open spec fn rank(self) -> int {
        if self.is_negative() {
            -(self.magnitude() as int)
        } else {
            self.magnitude() as int
        }
    }

    /// `self < other` as IEEE 754 defines it: false when either is a NaN.
    pub open spec fn lt(self, other: Float64) -> bool {
        !self.is_nan() && !other.is_nan() && self.rank() < other.rank()
    }

    /// `self <= other` as IEEE 754 defines it: false when either is a NaN.
    pub open spec fn le(self, other: Float64) -> bool {
        !self.is_nan() && !other.is_nan() && self.rank() <= other.rank()
    }

    /// The exponent field, as a number.
    pub open spec fn exponent(self) -> u64 {
        (self.bits & EXPONENT_BITS) >> 52
    }

    /// The significand of a normal number: the fraction with the hidden bit
    /// above it.
    pub open spec fn significand(self) -> u64 {
        (self.bits & FRACTION_BITS) | HIDDEN_BIT
    }

    /// The whole part of the size of a number that is at least 1 and below
    /// 2^63 in size: the significand, shifted to count in units of one.
    pub open spec fn whole_part(self) -> u64 {
        if self.exponent() >= EXPONENT_OF_UNITS {
            self.significand() << (self.exponent() - EXPONENT_OF_UNITS) as u64
        } else {
            self.significand() >> (EXPONENT_OF_UNITS - self.exponent()) as u64
        }
    }

    /// The number as an integer: the fraction is dropped, a number too large
    /// or too small for `i64` becomes the nearest bound, and a NaN becomes 0.
    pub open spec fn truncated(self) -> int {
        if self.is_nan() || self.exponent() < EXPONENT_OF_ONE {
            0
        } else if self.exponent() > EXPONENT_OF_LARGEST {
            if self.is_negative() {
                i64::MIN as int
            } else {
                i64::MAX as int
            }
        } else if self.is_negative() {
            -(self.whole_part() as int)
        } else {
            self.whole_part() as int
        }
    }

    /// The number with the given encoding.
    pub fn from_bits(bits: u64) -> (r: Float64)
        ensures
            r.bits == bits,
    {
        Float64 { bits }
    }

    /// The encoding of the number.
    pub fn to_bits(&self) -> (r: u64)
        ensures
            r == self.bits,
    {
        self.bits
    }

    /// Positive zero.
    pub fn zero() -> (r: Float64)
        ensures
            r.bits == 0,
            r.rank() == 0,
            !r.is_nan(),
    {
        assert(0u64 & MAGNITUDE_BITS == 0) by (bit_vector);
        assert(0u64 & SIGN_BIT == 0) by (bit_vector);
        assert(0u64 & EXPONENT_BITS == 0) by (bit_vector);
        Float64 { bits: 0 }
    }

    /// Tells whether the encoding is a NaN.
    pub fn nan(&self) -> (r: bool)
        ensures
            r == self.is_nan(),
    {
        self.bits & EXPONENT_BITS == EXPONENT_BITS && self.bits & FRACTION_BITS != 0
    }

    /// Tells whether the number is neither a NaN nor an infinity.
    pub fn finite(&self) -> (r: bool)
        ensures
            r == self.is_finite(),
    {
        self.bits & EXPONENT_BITS != EXPONENT_BITS
    }

    /// The number as an integer: the fraction is dropped, a number too large
    /// or too small for `i64` becomes the nearest bound, and a NaN becomes 0.
    pub fn truncate(&self) -> (r: i64)
        ensures
            r == self.truncated(),
    {
        let bits: u64 = self.bits;
        let exponent: u64 = (bits & EXPONENT_BITS) >> 52;
        let negative: bool = bits & SIGN_BIT != 0;
        assert((bits & EXPONENT_BITS) >> 52 <= 2047) by (bit_vector);
        if self.nan() || exponent < EXPONENT_OF_ONE {
            0
        } else if exponent > EXPONENT_OF_LARGEST {
            if negative {
                i64::MIN
            } else {
                i64::MAX
            }
        } else {
            let significand: u64 = (bits & FRACTION_BITS) | HIDDEN_BIT;
            let whole: u64 = if exponent >= EXPONENT_OF_UNITS {
                let shift: u64 = exponent - EXPONENT_OF_UNITS;
                assert(shift <= 10 ==> ((bits & FRACTION_BITS) | HIDDEN_BIT) << shift
                    < 0x8000_0000_0000_0000) by (bit_vector);
                significand << shift
            } else {
                let shift: u64 = EXPONENT_OF_UNITS - exponent;
                assert(shift <= 52 ==> ((bits & FRACTION_BITS) | HIDDEN_BIT) >> shift
                    < 0x8000_0000_0000_0000) by (bit_vector);
                significand >> shift
            };
            if negative {
                -(whole as i64)
            } else {
                whole as i64
            }
        }
    }

    /// The rank of the number, as a machine integer.
    fn signed_rank(&self) -> (r: i128)
        ensures
            r == self.rank(),
    {
        let magnitude: u64 = self.bits & MAGNITUDE_BITS;
        if self.bits & SIGN_BIT != 0 {
            -(magnitude as i128)
        } else {
            magnitude as i128
        }
    }

    /// Strict comparison: `self < other`, false when either is a NaN.
    pub fn less_than(&self, other: &Float64) -> (r: bool)
        ensures
            r == self.lt(*other),
    {
        !self.nan() && !other.nan() && self.signed_rank() < other.signed_rank()
    }

    /// Strict comparison: `self > other`, false when either is a NaN.
    pub fn greater_than(&self, other: &Float64) -> (r: bool)
        ensures
            r == other.lt(*self),
    {
        other.less_than(self)
    }
}

/// What the whole part is in arithmetic: for a number that is at least 1 and
/// below 2^63 in size, the significand times 2^(exponent - 1075), without
/// its fraction.
pub proof fn lemma_whole_part(x: Float64)
    requires
        EXPONENT_OF_ONE <= x.exponent() <= EXPONENT_OF_LARGEST,
    ensures
        HIDDEN_BIT <= x.significand() < 2 * HIDDEN_BIT,
        x.exponent() >= EXPONENT_OF_UNITS ==> x.whole_part() == x.significand() * pow2(
            (x.exponent() - EXPONENT_OF_UNITS) as nat,
        ),
        x.exponent() < EXPONENT_OF_UNITS ==> x.whole_part() == x.significand() as nat / pow2(
            (EXPONENT_OF_UNITS - x.exponent()) as nat,
        ),
        1 <= x.whole_part() < 0x8000_0000_0000_0000,
{
    let bits = x.bits;
    let significand = x.significand();
    let exponent = x.exponent();
    assert(HIDDEN_BIT <= (bits & FRACTION_BITS) | HIDDEN_BIT < 2 * HIDDEN_BIT) by (bit_vector);
    lemma2_to64();
    if exponent >= EXPONENT_OF_UNITS {
        let shift: u64 = (exponent - EXPONENT_OF_UNITS) as u64;
        if shift < 10 {
            lemma_pow2_strictly_increases(shift as nat, 10);
        }
        assert(pow2(shift as nat) <= 1024);
        assert(pow2(shift as nat) >= 1) by {
            if shift > 0 {
                lemma_pow2_strictly_increases(0, shift as nat);
            }
        }
        assert(significand * pow2(shift as nat) < 0x8000_0000_0000_0000) by (nonlinear_arith)
            requires
                significand < 0x0020_0000_0000_0000,
                pow2(shift as nat) <= 1024,
        ;
        assert(significand * pow2(shift as nat) >= 1) by (nonlinear_arith)
            requires
                significand >= 1,
                pow2(shift as nat) >= 1,
        ;
        lemma_u64_shl_is_mul(significand, shift);
    } else {
        let shift: u64 = (EXPONENT_OF_UNITS - exponent) as u64;
        lemma_u64_shr_is_div(significand, shift);
        assert(shift <= 52 && HIDDEN_BIT <= significand ==> 1 <= significand >> shift
            <= significand) by (bit_vector);
    }
}

/// The order of binary64 numbers is strict: nothing is below itself, and the
/// order is transitive.
pub proof fn lemma_lt_is_strict(a: Float64, b: Float64, c: Float64)
    ensures
        !a.lt(a),
        a.lt(b) ==> !b.lt(a),
        a.lt(b) && b.lt(c) ==> a.lt(c),
{
}

/// Of two numbers neither of which is a NaN, exactly one of `a < b`,
/// `b < a` and `a <= b <= a` holds.
pub proof fn lemma_lt_is_total(a: Float64, b: Float64)
    requires
        !a.is_nan(),
        !b.is_nan(),
    ensures
        a.le(b) <==> !b.lt(a),
        a.lt(b) || b.lt(a) || (a.le(b) && b.le(a)),
{
}

} // verus!
