//! IEEE-754 binary64 numbers, held as their bit patterns and read with
//! integer arithmetic only.

use vstd::prelude::*;
use vstd::arithmetic::power2::{pow2, lemma_pow2_strictly_increases, lemma2_to64, lemma2_to64_rest};
use crate::dyadic::{Dyadic, HIDDEN_BIT};

verus! {

/// Two to the power 63: the weight of the sign bit.
pub const SIGN_BIT: u64 = 0x8000_0000_0000_0000;

/// The exponent field of infinities and of NaNs.
pub const EXPONENT_SPECIAL: u64 = 2047;

/// What the exponent field of a normal number exceeds the exponent of its
/// magnitude by: the bias of the format and the 52 bits of the fraction.
pub const EXPONENT_OFFSET: i32 = 1075;

/// A binary64 number, held as its bit pattern.
#[derive(Clone, Copy, Debug, PartialEq, Eq, Structural)]
pub struct Binary64 {
    pub bits: u64,
}

impl Binary64 {
    /// The sign bit is set.
    pub open spec fn negative(self) -> bool {
        self.bits >= SIGN_BIT
    }

    /// The eleven bits below the sign bit.
    pub open spec fn exponent_field(self) -> nat {
        ((self.bits / HIDDEN_BIT) % 2048) as nat
    }

    /// The low 52 bits.
    pub open spec fn fraction(self) -> nat {
        (self.bits % HIDDEN_BIT) as nat
    }

    pub open spec fn nan(self) -> bool {
        self.exponent_field() == EXPONENT_SPECIAL && self.fraction() != 0
    }

    pub open spec fn infinite(self) -> bool {
        self.exponent_field() == EXPONENT_SPECIAL && self.fraction() == 0
    }

    pub open spec fn finite(self) -> bool {
        self.exponent_field() < EXPONENT_SPECIAL
    }

    /// A finite number with the hidden bit set.
    pub open spec fn normal(self) -> bool {
        0 < self.exponent_field() < EXPONENT_SPECIAL
    }

    /// The absolute value of a finite number.
    pub open spec fn magnitude(self) -> Dyadic {
        if self.exponent_field() == 0 {
            Dyadic { significand: self.fraction() as u64, exponent: (1 - EXPONENT_OFFSET) as i32 }
        } else {
            Dyadic {
                significand: (HIDDEN_BIT + self.fraction()) as u64,
                exponent: (self.exponent_field() - EXPONENT_OFFSET) as i32,
            }
        }
    }

    /// The number is less than the whole number `limit`, as IEEE-754 orders
    /// them: no NaN is less than anything, and minus zero is zero.
    pub open spec fn below(self, limit: nat) -> bool {
        if self.nan() {
            false
        } else if self.negative() {
            self.infinite() || self.magnitude().significand > 0 || limit > 0
        } else {
            self.finite() && self.magnitude().below(limit)
        }
    }

    pub fn from_bits(bits: u64) -> (number: Binary64)
        ensures
            number.bits == bits,
    {
        Binary64 { bits }
    }

    pub fn to_bits(&self) -> (bits: u64)
        ensures
            bits == self.bits,
    {
        self.bits
    }

    pub fn is_negative(&self) -> (negative: bool)
        ensures
            negative == self.negative(),
    {
        self.bits >= SIGN_BIT
    }

    pub fn is_nan(&self) -> (nan: bool)
        ensures
            nan == self.nan(),
    {
        (self.bits / HIDDEN_BIT) % 2048 == EXPONENT_SPECIAL && self.bits % HIDDEN_BIT != 0
    }

    pub fn is_infinite(&self) -> (infinite: bool)
        ensures
            infinite == self.infinite(),
    {
        (self.bits / HIDDEN_BIT) % 2048 == EXPONENT_SPECIAL && self.bits % HIDDEN_BIT == 0
    }

    pub fn is_finite(&self) -> (finite: bool)
        ensures
            finite == self.finite(),
    {
        (self.bits / HIDDEN_BIT) % 2048 < EXPONENT_SPECIAL
    }

    pub fn is_normal(&self) -> (normal: bool)
        ensures
            normal == self.normal(),
    {
        let field: u64 = (self.bits / HIDDEN_BIT) % 2048;
        0 < field && field < EXPONENT_SPECIAL
    }

    /// The absolute value of the number, if it is finite.
    pub fn finite_magnitude(&self) -> (magnitude: Option<Dyadic>)
        ensures
            magnitude == if self.finite() {
                Some(self.magnitude())
            } else {
                None
            },
            self.finite() ==> self.magnitude().well_formed(),
            self.finite() ==> -1074 <= self.magnitude().exponent <= 971,
            self.normal() <==> self.finite() && HIDDEN_BIT <= self.magnitude().significand,
    {
        let field: u64 = (self.bits / HIDDEN_BIT) % 2048;
        let fraction: u64 = self.bits % HIDDEN_BIT;
        if field == 0 {
            Some(Dyadic { significand: fraction, exponent: 1 - EXPONENT_OFFSET })
        } else if field < EXPONENT_SPECIAL {
            Some(Dyadic { significand: HIDDEN_BIT + fraction, exponent: field as i32 - EXPONENT_OFFSET })
        } else {
            None
        }
    }

    pub fn is_below(&self, limit: u64) -> (less: bool)
        ensures
            less == self.below(limit as nat),
    {
        if self.is_nan() {
            false
        } else {
            match self.finite_magnitude() {
                Some(magnitude) => if self.is_negative() {
                    magnitude.significand > 0 || limit > 0
                } else {
                    magnitude.is_below(limit)
                },
                None => self.is_negative(),
            }
        }
    }
}

/// A number below a limit is below every greater limit.
pub proof fn lemma_below_widens(number: Binary64, smaller: nat, larger: nat)
    requires
        smaller <= larger,
        number.below(smaller),
    ensures
        number.below(larger),
{
    if !number.negative() {
        let magnitude = number.magnitude();
        assert(smaller * magnitude.denominator() <= larger * magnitude.denominator())
            by (nonlinear_arith)
            requires
                smaller <= larger,
        ;
    }
}

/// A number that is neither NaN nor below a limit of at least two is not
/// negative, and if it is finite it is normal.
pub proof fn lemma_not_below_is_normal(number: Binary64, limit: nat)
    requires
        !number.nan(),
        !number.below(limit),
        limit >= 2,
    ensures
        !number.negative(),
        number.finite() ==> number.normal(),
{
    if number.finite() && !number.normal() {
        let magnitude = number.magnitude();
        lemma2_to64();
        lemma2_to64_rest();
        lemma_pow2_strictly_increases(52, 1074);
        assert(limit * pow2(1074) >= pow2(1074)) by (nonlinear_arith)
            requires
                limit >= 1,
        ;
        assert(magnitude.numerator() == magnitude.significand as nat * 1);
    }
}

} // verus!
