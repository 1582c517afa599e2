//! IEEE 754 double-precision numbers, held by their bit pattern.
//!
//! Thresholds, scales and correlation scores are real numbers that the host
//! computes in double precision. Here such a number is its 64 bits: one sign
//! bit, eleven exponent bits, fifty-two fraction bits. Ordering two numbers
//! needs no arithmetic on them: among numbers of one sign the magnitude
//! bits order as the numbers do.

use vstd::prelude::*;
use vstd::arithmetic::power2::{
    lemma2_to64,
    lemma_pow2_pos,
    lemma_pow2_strictly_increases,
    lemma_pow2_unfold,
    pow2,
};

verus! {

/// Two to the power 63: the weight of the sign bit.
pub const SIGN_WEIGHT: u64 = 0x8000_0000_0000_0000;

/// The magnitude bits of infinity: every exponent bit set, no fraction bit.
pub const INFINITY_MAGNITUDE: u64 = 0x7FF0_0000_0000_0000;

/// Two to the power 52: the weight of the lowest exponent bit.
pub const FRACTION_WEIGHT: u64 = 0x10_0000_0000_0000;

/// The bits of 1.0.
pub const ONE_BITS: u64 = 0x3FF0_0000_0000_0000;

/// The bits of -1.0.
pub const MINUS_ONE_BITS: u64 = 0xBFF0_0000_0000_0000;

/// A double-precision number, as its bit pattern.
#[derive(Clone, Copy, Debug, PartialEq, Eq, Structural)]
pub struct Binary64 {
    pub bits: u64,
}

impl Binary64 {
    /// The bits without the sign: exponent and fraction.
    pub open spec fn magnitude(self) -> int {
        self.bits as int % 0x8000_0000_0000_0000
    }

    /// Whether the sign bit is set.
    pub open spec fn sign(self) -> bool {
        self.bits >= 0x8000_0000_0000_0000
    }

    /// Not a number: every exponent bit set and some fraction bit too.
    pub open spec fn is_nan(self) -> bool {
        self.magnitude() > 0x7FF0_0000_0000_0000
    }

    /// Infinity, of either sign.
    pub open spec fn is_infinite(self) -> bool {
        self.magnitude() == 0x7FF0_0000_0000_0000
    }

    /// The eleven exponent bits, as a number.
    pub open spec fn exponent_field(self) -> int {
        self.magnitude() / 0x10_0000_0000_0000
    }

    /// The fifty-two fraction bits, as a number.
    pub open spec fn fraction_field(self) -> int {
        self.magnitude() % 0x10_0000_0000_0000
    }

    /// The significand of a finite number, as a natural number: the fraction
    /// bits, with a leading one unless the exponent bits are all zero. The
    /// number's absolute value is `significand() * 2^binary_exponent()`.
    pub open spec fn significand(self) -> nat {
        if self.exponent_field() == 0 {
            self.fraction_field() as nat
        } else {
            (self.fraction_field() + 0x10_0000_0000_0000) as nat
        }
    }

    /// The power of two by which the significand of a finite number is
    /// multiplied.
    pub open spec fn binary_exponent(self) -> int {
        if self.exponent_field() == 0 {
            -1074
        } else {
            self.exponent_field() - 1075
        }
    }

    /// Neither infinite nor not a number.
    pub open spec fn is_finite(self) -> bool {
        self.magnitude() < 0x7FF0_0000_0000_0000
    }

    /// The absolute value of a finite number, counted in units of two to the
    /// power -1074, the smallest positive double.
    pub open spec fn scaled_value(self) -> nat {
        self.significand() * pow2((self.binary_exponent() + 1074) as nat)
    }

    /// The value of a finite number, in the same units.
    pub open spec fn signed_value(self) -> int {
        if self.sign() {
            -(self.scaled_value() as int)
        } else {
            self.scaled_value() as int
        }
    }

    /// An integer that orders as the number does: the magnitude, negated
    /// under a set sign bit. Both zeros have rank 0.
    pub open spec fn rank(self) -> int {
        if self.sign() {
            -self.magnitude()
        } else {
            self.magnitude()
        }
    }

    /// `self >= other` as double-precision numbers compare: false as soon
    /// as either is not a number, and the two zeros are equal.
    pub open spec fn spec_at_least(self, other: Binary64) -> bool {
        &&& !self.is_nan()
        &&& !other.is_nan()
        &&& self.rank() >= other.rank()
    }

    /// A number between -1 and 1, both included.
    pub open spec fn spec_within_unit(self) -> bool {
        &&& !self.is_nan()
        &&& self.magnitude() <= 0x3FF0_0000_0000_0000
    }

    /// The number with these bits.
    pub fn from_bits(bits: u64) -> (number: Binary64)
        ensures
            number.bits == bits,
    {
        Binary64 { bits }
    }

    /// Whether `self >= other` holds of the two numbers.
    #[verifier::when_used_as_spec(spec_at_least)]
    pub fn at_least(self, other: Binary64) -> (holds: bool)
        ensures
            holds == self.spec_at_least(other),
    {
        let mine: u64 = self.bits % SIGN_WEIGHT;
        let theirs: u64 = other.bits % SIGN_WEIGHT;
        if mine > INFINITY_MAGNITUDE || theirs > INFINITY_MAGNITUDE {
            return false;
        }
        if self.bits >= SIGN_WEIGHT {
            if other.bits >= SIGN_WEIGHT {
                mine <= theirs
            } else {
                mine == 0 && theirs == 0
            }
        } else {
            if other.bits >= SIGN_WEIGHT {
                true
            } else {
                mine >= theirs
            }
        }
    }

    /// Whether the number lies between -1 and 1, both included.
    #[verifier::when_used_as_spec(spec_within_unit)]
    pub fn within_unit(self) -> (holds: bool)
        ensures
            holds == self.spec_within_unit(),
    {
        self.bits % SIGN_WEIGHT <= ONE_BITS
    }
}

/// Every number but not-a-number is at least itself.
pub proof fn lemma_at_least_reflexive(a: Binary64)
    ensures
        a.spec_at_least(a) == !a.is_nan(),
{
}

/// `at_least` is transitive.
pub proof fn lemma_at_least_transitive(a: Binary64, b: Binary64, c: Binary64)
    requires
        a.spec_at_least(b),
        b.spec_at_least(c),
    ensures
        a.spec_at_least(c),
{
}

/// Of two numbers, one is at least the other.
pub proof fn lemma_at_least_total(a: Binary64, b: Binary64)
    requires
        !a.is_nan(),
        !b.is_nan(),
    ensures
        a.spec_at_least(b) || b.spec_at_least(a),
{
}

/// Numbers that are each at least the other have the same bits, or are the
/// two zeros.
pub proof fn lemma_at_least_antisymmetric(a: Binary64, b: Binary64)
    requires
        a.spec_at_least(b),
        b.spec_at_least(a),
    ensures
        a.bits == b.bits || (a.magnitude() == 0 && b.magnitude() == 0),
{
}

/// Being within the unit interval is being between -1.0 and 1.0.
pub proof fn lemma_within_unit_is_between(a: Binary64)
    ensures
        a.spec_within_unit() <==> (a.spec_at_least(Binary64 { bits: MINUS_ONE_BITS })
            && (Binary64 { bits: ONE_BITS }).spec_at_least(a)),
{
}

/// Among finite numbers, larger magnitude bits mean a larger absolute value.
pub proof fn lemma_magnitude_orders_values(a: Binary64, b: Binary64)
    requires
        a.is_finite(),
        b.is_finite(),
        a.magnitude() > b.magnitude(),
    ensures
        a.scaled_value() > b.scaled_value(),
{
    let high: nat = (a.binary_exponent() + 1074) as nat;
    let low: nat = (b.binary_exponent() + 1074) as nat;
    let more: nat = a.significand();
    let less: nat = b.significand();
    lemma_pow2_pos(high);
    lemma_pow2_pos(low);
    if a.exponent_field() == b.exponent_field() {
        assert(more * pow2(high) > less * pow2(high)) by (nonlinear_arith)
            requires
                more > less,
                pow2(high) > 0,
        ;
    } else if b.exponent_field() == 0 {
        lemma2_to64();
        assert(more * pow2(high) >= more) by (nonlinear_arith)
            requires
                pow2(high) >= 1,
        ;
        assert(less * pow2(0) == less) by (nonlinear_arith)
            requires
                pow2(0) == 1,
        ;
    } else {
        lemma_pow2_unfold(low + 1);
        if low + 1 < high {
            lemma_pow2_strictly_increases(low + 1, high);
        }
        assert(more * pow2(high) > less * pow2(low)) by (nonlinear_arith)
            requires
                more >= 0x10_0000_0000_0000,
                less < 0x20_0000_0000_0000,
                pow2(high) >= 2 * pow2(low),
                pow2(low) > 0,
        ;
    }
}

/// Finite numbers compare as their values do.
pub proof fn lemma_at_least_is_value_order(a: Binary64, b: Binary64)
    requires
        a.is_finite(),
        b.is_finite(),
    ensures
        a.spec_at_least(b) <==> a.signed_value() >= b.signed_value(),
{
    let zero = Binary64 { bits: 0 };
    lemma2_to64();
    assert(zero.scaled_value() == 0) by (nonlinear_arith)
        requires
            zero.scaled_value() == zero.significand() * pow2(0),
            zero.significand() == 0,
    ;
    if a.magnitude() > b.magnitude() {
        lemma_magnitude_orders_values(a, b);
    }
    if b.magnitude() > a.magnitude() {
        lemma_magnitude_orders_values(b, a);
    }
    if a.magnitude() > 0 {
        lemma_magnitude_orders_values(a, zero);
    }
    if b.magnitude() > 0 {
        lemma_magnitude_orders_values(b, zero);
    }
}

} // verus!
