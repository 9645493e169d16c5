//! Single-precision numbers held by their bit pattern.
//!
//! The scene graph measures sizes and offsets in single-precision IEEE 754
//! numbers. The synchronization rules only ever copy such a number, negate
//! it, or ask whether it lies below zero, and all three are exact operations
//! on the 32 bits. A [`Scalar`] therefore keeps the bits, and the host turns
//! bits into numbers and back at its boundary.
//!
//! What number the bits stand for is [`Scalar::value`]; the lemmas of this
//! module tie the operations on bits to it.

use vstd::arithmetic::power2::{lemma2_to64, lemma_pow2_adds, lemma_pow2_pos, pow2};
use vstd::prelude::*;

verus! {

/// The sign bit of a single-precision bit pattern.
pub const SIGN_BIT: u32 = 0x8000_0000;

/// The bits of positive infinity: every exponent bit set, no fraction bit.
/// Larger magnitudes are NaNs.
pub const INFINITY_BITS: u32 = 0x7f80_0000;

/// One more than the largest fraction: the fraction has 23 bits.
pub const FRACTION_RANGE: u32 = 0x80_0000;

/// The bits of `1`: a clear sign, the biased exponent 127, an empty fraction.
pub const ONE_BITS: u32 = 0x3f80_0000;

/// The bits of `-1`: those of `1` with the sign bit set.
pub const MINUS_ONE_BITS: u32 = 0xbf80_0000;

/// A single-precision IEEE 754 number, held by its 32 bits: one sign bit,
/// eight exponent bits, twenty-three fraction bits.
///
/// Two scalars are equal when their bits are. This is identity, not numeric
/// equality: the two zeros differ, and a NaN equals itself.
#[derive(Clone, Copy, Debug, PartialEq, Eq, Structural)]
pub struct Scalar {
    pub bits: u32,
}

impl Scalar {
    /// Whether the sign bit is set.
    pub open spec fn sign(self) -> bool {
        self.bits >= SIGN_BIT
    }

    /// The exponent and fraction bits read as one number. Among the numbers
    /// of one sign, a larger magnitude lies further from zero.
    pub open spec fn magnitude(self) -> int {
        if self.sign() {
            self.bits - SIGN_BIT
        } else {
            self.bits as int
        }
    }

    /// The eight exponent bits. From 1 to 254 they give the power of two that
    /// the number is scaled by, less a bias of 127.
    pub open spec fn exponent(self) -> int {
        self.magnitude() / (FRACTION_RANGE as int)
    }

    /// The twenty-three fraction bits.
    pub open spec fn fraction(self) -> int {
        self.magnitude() % (FRACTION_RANGE as int)
    }

    /// Neither an infinity nor a NaN: the exponent bits are not all set.
    pub open spec fn is_finite(self) -> bool {
        self.magnitude() < INFINITY_BITS
    }

    /// The number that a finite scalar stands for, counted in steps of
    /// `2^-149`, the smallest step between two single-precision numbers.
    ///
    /// With exponent bits `e` of at least 1 and fraction bits `f`, the number
    /// is `(2^23 + f) * 2^(e - 150)`; with no exponent bit set it is
    /// `f * 2^-149`; with the sign bit set it is the opposite.
    pub open spec fn value(self) -> int
        recommends
            self.is_finite(),
    {
        let steps = if self.exponent() == 0 {
            self.fraction()
        } else {
            (FRACTION_RANGE + self.fraction()) * pow2((self.exponent() - 1) as nat)
        };
        if self.sign() {
            -steps
        } else {
            steps
        }
    }

    /// Not a number: the exponent bits are all set and the fraction is not empty.
    pub open spec fn is_nan(self) -> bool {
        self.magnitude() > INFINITY_BITS
    }

    /// One of the two zeros.
    pub open spec fn is_zero(self) -> bool {
        self.magnitude() == 0
    }

    /// The number lies strictly below zero. A NaN and the negative zero do not.
    pub open spec fn lt_zero(self) -> bool {
        self.sign() && !self.is_zero() && !self.is_nan()
    }

    /// The number lies strictly above zero. A NaN and the positive zero do not.
    pub open spec fn gt_zero(self) -> bool {
        !self.sign() && !self.is_zero() && !self.is_nan()
    }

    /// The number is zero or lies above it. A NaN does not; both zeros do.
    pub open spec fn ge_zero(self) -> bool {
        self.is_zero() || self.gt_zero()
    }

    /// The positive zero.
    pub open spec fn spec_zero() -> Scalar {
        Scalar { bits: 0 }
    }

    /// The number `1`.
    pub open spec fn spec_one() -> Scalar {
        Scalar { bits: ONE_BITS }
    }

    /// The number `-1`.
    pub open spec fn spec_minus_one() -> Scalar {
        Scalar { bits: MINUS_ONE_BITS }
    }

    /// The number of the same magnitude and the other sign.
    pub open spec fn spec_neg(self) -> Scalar {
        if self.sign() {
            Scalar { bits: (self.bits - SIGN_BIT) as u32 }
        } else {
            Scalar { bits: (self.bits + SIGN_BIT) as u32 }
        }
    }

    /// The scalar with these bits.
    pub fn from_bits(bits: u32) -> (s: Scalar)
        ensures
            s.bits == bits,
    {
        Scalar { bits }
    }

    /// The bits of this scalar.
    pub fn to_bits(self) -> (bits: u32)
        ensures
            bits == self.bits,
    {
        self.bits
    }

    /// The positive zero.
    #[verifier::when_used_as_spec(spec_zero)]
    pub fn zero() -> (s: Scalar)
        ensures
            s == Scalar::spec_zero(),
    {
        Scalar { bits: 0 }
    }

    /// The number `1`.
    #[verifier::when_used_as_spec(spec_one)]
    pub fn one() -> (s: Scalar)
        ensures
            s == Scalar::spec_one(),
    {
        Scalar { bits: ONE_BITS }
    }

    /// The number `-1`.
    #[verifier::when_used_as_spec(spec_minus_one)]
    pub fn minus_one() -> (s: Scalar)
        ensures
            s == Scalar::spec_minus_one(),
    {
        Scalar { bits: MINUS_ONE_BITS }
    }

    /// Negation: the sign bit flips and every other bit stays.
    #[verifier::when_used_as_spec(spec_neg)]
    pub fn neg(self) -> (r: Scalar)
        ensures
            r == self.spec_neg(),
    {
        if self.bits >= SIGN_BIT {
            Scalar { bits: self.bits - SIGN_BIT }
        } else {
            Scalar { bits: self.bits + SIGN_BIT }
        }
    }

    /// Whether the number lies strictly below zero.
    pub fn is_negative(self) -> (b: bool)
        ensures
            b == self.lt_zero(),
    {
        self.bits > SIGN_BIT && self.bits - SIGN_BIT <= INFINITY_BITS
    }

    /// Whether the number lies strictly above zero.
    pub fn is_positive(self) -> (b: bool)
        ensures
            b == self.gt_zero(),
    {
        0 < self.bits && self.bits <= INFINITY_BITS
    }

    /// Whether the number is zero or lies above it.
    pub fn is_non_negative(self) -> (b: bool)
        ensures
            b == self.ge_zero(),
    {
        self.bits <= INFINITY_BITS || self.bits == SIGN_BIT
    }
}

/// The value of the number `1`: it takes `2^149` of the smallest steps.
pub open spec fn unit_value() -> int {
    pow2(149) as int
}

/// Negation flips the sign and keeps the magnitude. So it keeps what kind
/// of number it is, swaps the two sides of zero, never gives the number
/// itself, gives it back when done twice, and gives the opposite value.
pub proof fn lemma_negation(x: Scalar)
    ensures
        x.neg().sign() == !x.sign(),
        x.neg().magnitude() == x.magnitude(),
        x.neg().is_nan() == x.is_nan(),
        x.neg().is_finite() == x.is_finite(),
        x.neg().is_zero() == x.is_zero(),
        x.neg().lt_zero() == x.gt_zero(),
        x.neg().gt_zero() == x.lt_zero(),
        x.neg() != x,
        x.neg().neg() == x,
        x.neg().value() == -x.value(),
{
}

/// The tests on the bits of a finite scalar are the tests on its value.
pub proof fn lemma_sign_of_value(x: Scalar)
    requires
        x.is_finite(),
    ensures
        x.is_zero() == (x.value() == 0),
        x.lt_zero() == (x.value() < 0),
        x.gt_zero() == (x.value() > 0),
        x.ge_zero() == (x.value() >= 0),
{
    let e = x.exponent();
    let f = x.fraction();
    if e != 0 {
        let scale = pow2((e - 1) as nat) as int;
        lemma_pow2_pos((e - 1) as nat);
        assert((FRACTION_RANGE + f) * scale > 0) by (nonlinear_arith)
            requires
                FRACTION_RANGE + f > 0,
                scale > 0,
        ;
    }
}

/// The named scalars stand for the numbers they are named after.
pub proof fn lemma_named_values()
    ensures
        Scalar::zero().is_finite() && Scalar::zero().value() == 0,
        Scalar::one().is_finite() && Scalar::one().value() == unit_value(),
        Scalar::minus_one().is_finite() && Scalar::minus_one().value() == -unit_value(),
{
    lemma2_to64();
    lemma_pow2_adds(23, 126);
}

} // verus!
