//! Non-negative numbers of the form `significand * 2^exponent`, compared and
//! rounded with integer arithmetic only.

use vstd::prelude::*;
use vstd::arithmetic::div_mod::{
    lemma_basic_div, lemma_fundamental_div_mod, lemma_mod_bound, lemma_small_mod,
};
use vstd::arithmetic::power2::{
    pow2, lemma_pow2_pos, lemma_pow2_strictly_increases, lemma2_to64, lemma2_to64_rest,
};
use vstd::bits::lemma_u64_shl_is_mul;
use crate::decimal::Decimal;

verus! {

/// Two to the power 52: the least significand of a normal binary64 number.
pub const HIDDEN_BIT: u64 = 0x10_0000_0000_0000;

/// The integer nearest to `numerator / denominator`; of two equally near, the
/// even one.
pub open spec fn round_half_even(numerator: nat, denominator: nat) -> nat {
    let quotient = numerator / denominator;
    let twice = 2 * (numerator % denominator);
    if twice < denominator || (twice == denominator && quotient % 2 == 0) {
        quotient
    } else {
        quotient + 1
    }
}

/// No whole number is nearer to `numerator / denominator` than the rounded
/// quotient: the two differ by half a unit at most.
pub proof fn lemma_round_half_even_is_nearest(numerator: nat, denominator: nat)
    requires
        denominator > 0,
    ensures
        2 * (round_half_even(numerator, denominator) * denominator - numerator) <= denominator,
        2 * (numerator - round_half_even(numerator, denominator) * denominator) <= denominator,
{
    let quotient = numerator / denominator;
    let rest = numerator % denominator;
    lemma_fundamental_div_mod(numerator as int, denominator as int);
    lemma_mod_bound(numerator as int, denominator as int);
    assert(numerator == denominator * quotient + rest);
    assert((quotient + 1) * denominator == denominator * quotient + denominator)
        by (nonlinear_arith);
    assert(quotient * denominator == denominator * quotient) by (nonlinear_arith);
}

/// The quotient of two whole numbers, rounded to the nearest whole number.
pub fn rounded_quotient(numerator: u64, denominator: u64) -> (nearest: u64)
    requires
        denominator > 0,
    ensures
        nearest == round_half_even(numerator as nat, denominator as nat),
{
    let quotient: u64 = numerator / denominator;
    let rest: u64 = numerator % denominator;
    if rest < denominator - rest || (rest == denominator - rest && quotient % 2 == 0) {
        quotient
    } else {
        proof {
            lemma_fundamental_div_mod(numerator as int, denominator as int);
            assert(denominator >= 2);
            assert(denominator * quotient >= 2 * quotient) by (nonlinear_arith)
                requires
                    denominator >= 2,
            ;
        }
        quotient + 1
    }
}

/// Two to the power `shift`.
pub fn power_of_two(shift: u32) -> (power: u64)
    requires
        shift < 64,
    ensures
        power == pow2(shift as nat),
        power > 0,
{
    proof {
        lemma_pow2_pos(shift as nat);
        lemma2_to64();
        lemma2_to64_rest();
        if shift < 63 {
            lemma_pow2_strictly_increases(shift as nat, 63);
        }
        lemma_u64_shl_is_mul(1, shift as u64);
    }
    1u64 << shift
}

/// A non-negative number `significand * 2^exponent`.
#[derive(Clone, Copy, Debug, PartialEq, Eq, Structural)]
pub struct Dyadic {
    pub significand: u64,
    pub exponent: i32,
}

impl Dyadic {
    /// The number is `numerator() / denominator()`.
    pub open spec fn numerator(self) -> nat {
        self.significand as nat * pow2(
            if self.exponent > 0 {
                self.exponent as nat
            } else {
                0
            },
        )
    }

    pub open spec fn denominator(self) -> nat {
        pow2(
            if self.exponent < 0 {
                (-self.exponent) as nat
            } else {
                0
            },
        )
    }

    /// The significand has 54 bits at most: room for every binary64
    /// significand, and for ten times one in a machine word.
    pub open spec fn well_formed(self) -> bool {
        self.significand <= 2 * HIDDEN_BIT
    }

    /// The number is less than the whole number `limit`.
    pub open spec fn below(self, limit: nat) -> bool {
        self.numerator() < limit * self.denominator()
    }

    /// The number is the whole number `count`.
    pub open spec fn is_whole(self, count: nat) -> bool {
        self.numerator() == count * self.denominator()
    }

    /// The number is not greater than `other`.
    pub open spec fn at_most(self, other: Dyadic) -> bool {
        self.numerator() * other.denominator() <= other.numerator() * self.denominator()
    }

    /// The number times `scale`, rounded to the nearest whole number.
    pub open spec fn rounded(self, scale: nat) -> nat {
        round_half_even(self.numerator() * scale, self.denominator())
    }

    /// The quotient by a thousand of a number whose significand has just 53
    /// bits, rounded to such a significand. Of the magnitude of a binary64
    /// number from a thousand on this is the magnitude of its binary64
    /// quotient by a thousand.
    pub open spec fn thousandth(self) -> Dyadic {
        if self.significand as nat * 1024 < 1000 * (2 * HIDDEN_BIT) {
            Dyadic {
                significand: round_half_even(self.significand as nat * 1024, 1000) as u64,
                exponent: (self.exponent - 10) as i32,
            }
        } else {
            Dyadic {
                significand: round_half_even(self.significand as nat * 512, 1000) as u64,
                exponent: (self.exponent - 9) as i32,
            }
        }
    }

    pub fn is_below(&self, limit: u64) -> (less: bool)
        ensures
            less == self.below(limit as nat),
    {
        let wide: u128 = self.significand as u128;
        let bound: u128 = limit as u128;
        let shift: u32 = if self.exponent >= 0 {
            self.exponent as u32
        } else {
            (-(self.exponent as i64)) as u32
        };
        proof {
            lemma2_to64();
            if shift > 64 {
                lemma_pow2_strictly_increases(64, shift as nat);
            }
        }
        if self.exponent >= 0 {
            assert(self.denominator() == 1);
            assert(self.numerator() == wide * pow2(shift as nat));
            if wide == 0 {
                assert(wide * pow2(shift as nat) == 0) by (nonlinear_arith)
                    requires
                        wide == 0,
                ;
                limit > 0
            } else if shift >= 64 {
                assert(wide * pow2(shift as nat) >= pow2(shift as nat)) by (nonlinear_arith)
                    requires
                        wide >= 1,
                ;
                false
            } else {
                let scale: u128 = power_of_two(shift) as u128;
                assert(wide * scale < 0x1_0000_0000_0000_0000 * 0x1_0000_0000_0000_0000)
                    by (nonlinear_arith)
                    requires
                        wide < 0x1_0000_0000_0000_0000,
                        scale < 0x1_0000_0000_0000_0000,
                ;
                wide * scale < bound
            }
        } else {
            assert(self.numerator() == wide * 1);
            assert(self.denominator() == pow2(shift as nat));
            if limit == 0 {
                assert(bound * pow2(shift as nat) == 0) by (nonlinear_arith)
                    requires
                        bound == 0,
                ;
                false
            } else if shift >= 64 {
                assert(bound * pow2(shift as nat) >= pow2(shift as nat)) by (nonlinear_arith)
                    requires
                        bound >= 1,
                ;
                true
            } else {
                let scale: u128 = power_of_two(shift) as u128;
                assert(bound * scale < 0x1_0000_0000_0000_0000 * 0x1_0000_0000_0000_0000)
                    by (nonlinear_arith)
                    requires
                        bound < 0x1_0000_0000_0000_0000,
                        scale < 0x1_0000_0000_0000_0000,
                ;
                wide < bound * scale
            }
        }
    }

    /// The number times `scale`, rounded to the nearest whole number.
    fn round_times(&self, scale: u64) -> (nearest: Decimal)
        requires
            self.well_formed(),
            1 <= scale <= 10,
        ensures
            nearest.well_formed(),
            nearest@ == self.rounded(scale as nat),
    {
        assert(self.significand * scale <= 2 * HIDDEN_BIT * 10) by (nonlinear_arith)
            requires
                self.significand <= 2 * HIDDEN_BIT,
                scale <= 10,
        ;
        let scaled: u64 = self.significand * scale;
        let shift: u32 = if self.exponent >= 0 {
            self.exponent as u32
        } else {
            (-(self.exponent as i64)) as u32
        };
        proof {
            lemma2_to64();
        }
        if self.exponent >= 0 {
            let mut nearest = Decimal::from_u64(scaled);
            nearest.scale_by_power_of_two(shift);
            proof {
                let power = pow2(shift as nat);
                assert(self.denominator() == 1);
                assert(self.significand as nat * power * scale as nat == scaled as nat * power)
                    by (nonlinear_arith)
                    requires
                        scaled == self.significand * scale,
                ;
            }
            nearest
        } else {
            assert(self.numerator() == self.significand as nat * 1);
            assert(self.denominator() == pow2(shift as nat));
            if shift >= 64 {
                proof {
                    if shift > 64 {
                        lemma_pow2_strictly_increases(64, shift as nat);
                    }
                    lemma_basic_div(scaled as int, pow2(shift as nat) as int);
                    lemma_small_mod(scaled as nat, pow2(shift as nat));
                }
                Decimal::from_u64(0)
            } else {
                Decimal::from_u64(rounded_quotient(scaled, power_of_two(shift)))
            }
        }
    }

    /// The number rounded to the nearest whole number.
    pub fn to_whole(&self) -> (nearest: Decimal)
        requires
            self.well_formed(),
        ensures
            nearest.well_formed(),
            nearest@ == self.rounded(1),
    {
        self.round_times(1)
    }

    /// Ten times the number, rounded to the nearest whole number: the number
    /// in tenths.
    pub fn to_tenths(&self) -> (nearest: Decimal)
        requires
            self.well_formed(),
        ensures
            nearest.well_formed(),
            nearest@ == self.rounded(10),
    {
        self.round_times(10)
    }

    /// Divides by a thousand as binary64 does.
    pub fn divide_by_thousand(&self) -> (quotient: Dyadic)
        requires
            HIDDEN_BIT <= self.significand < 2 * HIDDEN_BIT,
            self.exponent >= i32::MIN + 10,
        ensures
            quotient == self.thousandth(),
            quotient.well_formed(),
    {
        if self.significand < 0x1F_4000_0000_0000 {
            Dyadic {
                significand: rounded_quotient(self.significand * 1024, 1000),
                exponent: self.exponent - 10,
            }
        } else {
            Dyadic {
                significand: rounded_quotient(self.significand * 512, 1000),
                exponent: self.exponent - 9,
            }
        }
    }
}

pub proof fn lemma_denominator_is_positive(number: Dyadic)
    ensures
        number.denominator() > 0,
{
    lemma_pow2_pos(0);
    if number.exponent < 0 {
        lemma_pow2_pos((-number.exponent) as nat);
    }
}

/// What is not greater than a number below a limit is below that limit.
pub proof fn lemma_at_most_keeps_below(smaller: Dyadic, larger: Dyadic, limit: nat)
    requires
        smaller.at_most(larger),
    ensures
        larger.below(limit) ==> smaller.below(limit),
{
    lemma_denominator_is_positive(smaller);
    lemma_denominator_is_positive(larger);
    if larger.below(limit) {
        let a = smaller.numerator();
        let b = smaller.denominator();
        let c = larger.numerator();
        let d = larger.denominator();
        assert(a < limit * b) by (nonlinear_arith)
            requires
                a * d <= c * b,
                c < limit * d,
                b > 0,
                d > 0,
        ;
    }
}

/// The quotient by a thousand is correctly rounded: its significand has 53
/// bits, or is the power of two that follows them, and it differs from the
/// thousandth of the number by half a unit of its last place at most.
pub proof fn lemma_thousandth_is_nearest(number: Dyadic)
    requires
        HIDDEN_BIT <= number.significand < 2 * HIDDEN_BIT,
        number.exponent >= i32::MIN + 10,
    ensures
        HIDDEN_BIT <= number.thousandth().significand <= 2 * HIDDEN_BIT,
        number.exponent - number.thousandth().exponent == 9 || number.exponent
            - number.thousandth().exponent == 10,
        ({
            let quotient = number.thousandth();
            let wide = number.significand as nat * pow2(
                (number.exponent - quotient.exponent) as nat,
            );
            &&& 2 * (quotient.significand * 1000 - wide) <= 1000
            &&& 2 * (wide - quotient.significand * 1000) <= 1000
        }),
{
    lemma2_to64();
    let significand = number.significand as nat;
    if significand * 1024 < 1000 * (2 * HIDDEN_BIT) {
        lemma_round_half_even_is_nearest(significand * 1024, 1000);
    } else {
        lemma_round_half_even_is_nearest(significand * 512, 1000);
    }
}

} // verus!
