//! The text of a dyadic number with no or with one decimal place.

use vstd::prelude::*;
use crate::decimal::{decimal_text, digit_char};
use crate::dyadic::Dyadic;

verus! {

/// The number rounded to the nearest whole number, in decimal.
pub open spec fn whole_text(number: Dyadic) -> Seq<char> {
    decimal_text(number.rounded(1))
}

/// The number rounded to the nearest tenth, in decimal: the whole part, a
/// point, and the tenths.
pub open spec fn one_place_text(number: Dyadic) -> Seq<char> {
    let tenths = number.rounded(10);
    decimal_text(tenths / 10).push('.').push(digit_char(tenths % 10))
}

pub fn format_whole(number: &Dyadic) -> (text: String)
    requires
        number.well_formed(),
    ensures
        text@ == whole_text(*number),
{
    number.to_whole().to_text()
}

pub fn format_one_place(number: &Dyadic) -> (text: String)
    requires
        number.well_formed(),
    ensures
        text@ == one_place_text(*number),
{
    let (whole, tenth) = number.to_tenths().split_last();
    let mut text = whole.to_text();
    text.push('.');
    text.push((tenth + 48) as char);
    text
}

} // verus!
