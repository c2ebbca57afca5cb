//! Whole numbers of any size in decimal digits, and their text.

use vstd::prelude::*;
use vstd::arithmetic::power2::{pow2, lemma2_to64, lemma_pow2_unfold};

verus! {

/// `String::push` appends one character and leaves what was there as it was.
pub assume_specification[ String::push ](text: &mut String, letter: char)
    ensures
        final(text)@ == old(text)@.push(letter),
;

/// The character that writes one decimal digit.
pub open spec fn digit_char(digit: nat) -> char {
    ((digit + 48) as u8) as char
}

/// The decimal digits of `number`, the most significant first, with no
/// leading zero but for zero itself.
pub open spec fn decimal_text(number: nat) -> Seq<char>
    decreases number,
{
    if number < 10 {
        seq![digit_char(number)]
    } else {
        decimal_text(number / 10).push(digit_char(number % 10))
    }
}

/// The number that a row of decimal digits writes, the most significant
/// first.
pub open spec fn digits_value(digits: Seq<u8>) -> nat
    decreases digits.len(),
{
    if digits.len() == 0 {
        0
    } else {
        10 * digits_value(digits.drop_last()) + digits.last() as nat
    }
}

/// Every item is a decimal digit, and the first is zero only when it stands
/// alone.
pub open spec fn canonical_digits(digits: Seq<u8>) -> bool {
    &&& digits.len() >= 1
    &&& forall|i: int| 0 <= i < digits.len() ==> #[trigger] digits[i] < 10
    &&& digits.len() > 1 ==> digits[0] != 0
}

/// The characters that write a row of digits one by one.
pub open spec fn digits_text(digits: Seq<u8>) -> Seq<char> {
    Seq::new(digits.len(), |i: int| digit_char(digits[i] as nat))
}

/// One more digit at the end: ten times the number before, and the digit.
pub proof fn lemma_digits_value_push(front: Seq<u8>, digit: u8)
    ensures
        digits_value(front.push(digit)) == 10 * digits_value(front) + digit as nat,
{
    assert(front.push(digit).drop_last() =~= front);
}

/// A canonical row of more than one digit writes ten or more.
pub proof fn lemma_leading_digit_counts(digits: Seq<u8>)
    requires
        canonical_digits(digits),
    ensures
        digits.len() > 1 ==> digits_value(digits) >= 10,
        digits[0] != 0 ==> digits_value(digits) >= 1,
        digits_value(digits.drop_last()) == digits_value(digits) / 10,
        digits.last() as nat == digits_value(digits) % 10,
    decreases digits.len(),
{
    if digits.len() > 1 {
        let front = digits.drop_last();
        assert(front[0] == digits[0]);
        assert(canonical_digits(front));
        lemma_leading_digit_counts(front);
    } else {
        assert(digits.drop_last().len() == 0);
    }
}

/// A canonical row of digits is the decimal text of the number it writes.
pub proof fn lemma_canonical_digits_are_decimal_text(digits: Seq<u8>)
    requires
        canonical_digits(digits),
    ensures
        decimal_text(digits_value(digits)) == digits_text(digits),
    decreases digits.len(),
{
    lemma_leading_digit_counts(digits);
    if digits.len() > 1 {
        let front = digits.drop_last();
        assert(front[0] == digits[0]);
        assert(canonical_digits(front));
        lemma_canonical_digits_are_decimal_text(front);
        assert(digits_text(digits) =~= digits_text(front).push(digit_char(digits.last() as nat)));
    } else {
        assert(digits.drop_last().len() == 0);
        assert(digits_text(digits) =~= seq![digit_char(digits[0] as nat)]);
    }
}

/// A whole number of any size, written in decimal.
#[derive(Clone, Debug, PartialEq, Eq)]
pub struct Decimal {
    digits: Vec<u8>,
}

impl View for Decimal {
    type V = nat;

    closed spec fn view(&self) -> nat {
        digits_value(self.digits@)
    }
}

impl Decimal {
    pub closed spec fn well_formed(&self) -> bool {
        canonical_digits(self.digits@)
    }

    pub fn from_u64(number: u64) -> (decimal: Decimal)
        ensures
            decimal.well_formed(),
            decimal@ == number,
        decreases number,
    {
        if number < 10 {
            let mut digits: Vec<u8> = Vec::new();
            digits.push(number as u8);
            proof {
                lemma_digits_value_push(Seq::empty(), number as u8);
            }
            Decimal { digits }
        } else {
            let mut decimal = Decimal::from_u64(number / 10);
            let ghost front = decimal.digits@;
            proof {
                lemma_leading_digit_counts(front);
            }
            decimal.digits.push((number % 10) as u8);
            proof {
                lemma_digits_value_push(front, (number % 10) as u8);
                assert(decimal.digits@[0] == front[0]);
            }
            decimal
        }
    }

    /// Replaces the number by its double.
    pub fn double(&mut self)
        requires
            old(self).well_formed(),
        ensures
            final(self).well_formed(),
            final(self)@ == 2 * old(self)@,
    {
        let length: usize = self.digits.len();
        let mut doubled: Vec<u8> = Vec::new();
        if self.digits[0] >= 5 {
            doubled.push(1);
            proof {
                lemma_digits_value_push(Seq::empty(), 1);
            }
        }
        assert(self.digits@.subrange(0, 0) =~= Seq::empty());
        let mut place: usize = 0;
        while place < length
            invariant
                length == self.digits@.len(),
                canonical_digits(self.digits@),
                place <= length,
                forall|i: int| 0 <= i < doubled@.len() ==> #[trigger] doubled@[i] < 10,
                digits_value(doubled@) == 2 * digits_value(self.digits@.subrange(0, place as int))
                    + (if place < length && self.digits@[place as int] >= 5 {
                    1nat
                } else {
                    0nat
                }),
                place > 0 ==> doubled@.len() >= 1,
                doubled@.len() == 0 ==> place == 0 && self.digits@[0] < 5,
                doubled@.len() >= 1 ==> doubled@[0] != 0 || (doubled@.len() == 1 && place == length),
            decreases length - place,
        {
            let digit: u8 = self.digits[place];
            let carried: u8 = if place + 1 < length && self.digits[place + 1] >= 5 {
                1
            } else {
                0
            };
            let low: u8 = if digit >= 5 {
                2 * digit - 10
            } else {
                2 * digit
            };
            let ghost before = doubled@;
            doubled.push(low + carried);
            proof {
                let front = self.digits@.subrange(0, place as int);
                assert(self.digits@.subrange(0, place as int + 1) =~= front.push(digit));
                lemma_digits_value_push(front, digit);
                lemma_digits_value_push(before, (low + carried) as u8);
                if before.len() > 0 {
                    assert(doubled@[0] == before[0]);
                }
            }
            place = place + 1;
        }
        assert(self.digits@.subrange(0, length as int) =~= self.digits@);
        self.digits = doubled;
    }

    /// Multiplies the number by two to the power `exponent`.
    pub fn scale_by_power_of_two(&mut self, exponent: u32)
        requires
            old(self).well_formed(),
        ensures
            final(self).well_formed(),
            final(self)@ == old(self)@ * pow2(exponent as nat),
    {
        let mut done: u32 = 0;
        let ghost start: nat = self@;
        proof {
            lemma2_to64();
        }
        while done < exponent
            invariant
                done <= exponent,
                self.well_formed(),
                self@ == start * pow2(done as nat),
            decreases exponent - done,
        {
            let ghost half: nat = pow2(done as nat);
            self.double();
            done = done + 1;
            proof {
                lemma_pow2_unfold(done as nat);
                assert(2 * (start * half) == start * (2 * half)) by (nonlinear_arith);
            }
        }
    }

    /// Parts the number into its tens and its last digit.
    pub fn split_last(self) -> (parts: (Decimal, u8))
        requires
            self.well_formed(),
        ensures
            parts.0.well_formed(),
            parts.0@ == self@ / 10,
            parts.1 as nat == self@ % 10,
    {
        proof {
            lemma_leading_digit_counts(self.digits@);
        }
        let mut digits = self.digits;
        let ghost whole = digits@;
        let last: u8 = digits[digits.len() - 1];
        if digits.len() == 1 {
            assert(whole.drop_last().len() == 0);
            (Decimal::from_u64(0), last)
        } else {
            digits.pop();
            assert(digits@ =~= whole.drop_last());
            assert(digits@[0] == whole[0]);
            (Decimal { digits }, last)
        }
    }

    /// The decimal text of the number.
    pub fn to_text(&self) -> (text: String)
        requires
            self.well_formed(),
        ensures
            text@ == decimal_text(self@),
    {
        let mut text = String::new();
        let length: usize = self.digits.len();
        let mut place: usize = 0;
        while place < length
            invariant
                length == self.digits@.len(),
                canonical_digits(self.digits@),
                place <= length,
                text@ == digits_text(self.digits@.subrange(0, place as int)),
            decreases length - place,
        {
            let digit: u8 = self.digits[place];
            text.push((digit + 48) as char);
            assert(text@ =~= digits_text(self.digits@.subrange(0, place as int + 1)));
            place = place + 1;
        }
        proof {
            assert(self.digits@.subrange(0, length as int) =~= self.digits@);
            lemma_canonical_digits_are_decimal_text(self.digits@);
        }
        text
    }
}

} // verus!
