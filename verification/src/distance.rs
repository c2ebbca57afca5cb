//! The distance between the bus and the stop: its alert tier and the text
//! that the page shows for it.

use vstd::prelude::*;
use crate::binary64::{Binary64, lemma_below_widens, lemma_not_below_is_normal};
use crate::dyadic::{lemma_at_most_keeps_below, lemma_denominator_is_positive};
use crate::fixed::{format_one_place, format_whole, one_place_text, whole_text};

verus! {

/// Below this many meters the bus is close.
pub const CLOSE_DISTANCE_THRESHOLD: u64 = 750;

/// Below this many meters the bus is closer still.
pub const CLOSER_DISTANCE_THRESHOLD: u64 = 250;

/// From this many meters on the label counts kilometers.
pub const KILOMETER: u64 = 1000;

/// How near the bus is to the stop.
#[derive(Clone, Copy, Debug, PartialEq, Eq, Structural)]
pub enum AlertTier {
    Far,
    Close,
    Closer,
}

/// A distance in meters.
#[derive(Clone, Copy, Debug, PartialEq, Eq, Structural)]
pub struct Distance {
    pub meters: Binary64,
}

/// The thresholds belong to the farther tier: a distance of just the close
/// threshold is far, one of just the closer threshold is close.
pub proof fn lemma_thresholds_are_exclusive(distance: Distance)
    requires
        distance.meters.finite(),
        !distance.meters.negative(),
    ensures
        distance.meters.magnitude().is_whole(CLOSE_DISTANCE_THRESHOLD as nat) ==> distance.tier()
            == AlertTier::Far,
        distance.meters.magnitude().is_whole(CLOSER_DISTANCE_THRESHOLD as nat) ==> distance.tier()
            == AlertTier::Close,
{
    let magnitude = distance.meters.magnitude();
    lemma_denominator_is_positive(magnitude);
    assert(CLOSER_DISTANCE_THRESHOLD * magnitude.denominator() < CLOSE_DISTANCE_THRESHOLD
        * magnitude.denominator()) by (nonlinear_arith)
        requires
            magnitude.denominator() > 0,
            CLOSER_DISTANCE_THRESHOLD < CLOSE_DISTANCE_THRESHOLD,
    ;
}

/// Of two distances that are numbers and not negative, the shorter is in a
/// tier at least as near as the longer.
pub proof fn lemma_shorter_is_nearer(shorter: Distance, longer: Distance)
    requires
        shorter.meters.finite(),
        longer.meters.finite(),
        !shorter.meters.negative(),
        !longer.meters.negative(),
        shorter.meters.magnitude().at_most(longer.meters.magnitude()),
    ensures
        longer.tier() == AlertTier::Closer ==> shorter.tier() == AlertTier::Closer,
        longer.tier() == AlertTier::Close ==> shorter.tier() != AlertTier::Far,
        shorter.tier() == AlertTier::Far ==> longer.tier() == AlertTier::Far,
{
    let near = shorter.meters.magnitude();
    let far = longer.meters.magnitude();
    lemma_at_most_keeps_below(near, far, CLOSE_DISTANCE_THRESHOLD as nat);
    lemma_at_most_keeps_below(near, far, CLOSER_DISTANCE_THRESHOLD as nat);
    if longer.meters.below(CLOSER_DISTANCE_THRESHOLD as nat) {
        lemma_below_widens(
            longer.meters,
            CLOSER_DISTANCE_THRESHOLD as nat,
            CLOSE_DISTANCE_THRESHOLD as nat,
        );
    }
    if shorter.meters.below(CLOSER_DISTANCE_THRESHOLD as nat) {
        lemma_below_widens(
            shorter.meters,
            CLOSER_DISTANCE_THRESHOLD as nat,
            CLOSE_DISTANCE_THRESHOLD as nat,
        );
    }
}

impl Distance {
    /// The tier of the distance: `Closer` below the closer threshold, `Close`
    /// from there to below the close threshold, `Far` from there on and for
    /// NaN.
    pub open spec fn tier(self) -> AlertTier {
        if !self.meters.below(CLOSE_DISTANCE_THRESHOLD as nat) {
            AlertTier::Far
        } else if !self.meters.below(CLOSER_DISTANCE_THRESHOLD as nat) {
            AlertTier::Close
        } else {
            AlertTier::Closer
        }
    }

    /// The text of the distance: whole meters below a kilometer, kilometers
    /// with one decimal place from there on, each rounded to the nearest and
    /// a half to the even neighbor. The kilometers are the binary64 quotient
    /// of the meters by a thousand. What is not a distance is written too: a
    /// negative number with its sign, an infinite one as `inf`, NaN as `NaN`.
    pub open spec fn label_text(self) -> Seq<char> {
        let number = self.meters;
        if number.nan() {
            "NaN meters"@
        } else if number.below(KILOMETER as nat) {
            let sign = if number.negative() {
                seq!['-']
            } else {
                Seq::<char>::empty()
            };
            let amount = if number.infinite() {
                "inf"@
            } else {
                whole_text(number.magnitude())
            };
            sign + amount + " meters"@
        } else if number.infinite() {
            "inf kilometers"@
        } else {
            one_place_text(number.magnitude().thousandth()) + " kilometers"@
        }
    }

    pub fn from_bits(bits: u64) -> (distance: Distance)
        ensures
            distance.meters.bits == bits,
    {
        Distance { meters: Binary64 { bits } }
    }

    pub fn classify(&self) -> (tier: AlertTier)
        ensures
            tier == self.tier(),
            tier == AlertTier::Far <==> !self.meters.below(CLOSE_DISTANCE_THRESHOLD as nat),
            tier == AlertTier::Close <==> self.meters.below(CLOSE_DISTANCE_THRESHOLD as nat)
                && !self.meters.below(CLOSER_DISTANCE_THRESHOLD as nat),
            tier == AlertTier::Closer <==> self.meters.below(CLOSER_DISTANCE_THRESHOLD as nat),
    {
        proof {
            if self.meters.below(CLOSER_DISTANCE_THRESHOLD as nat) {
                lemma_below_widens(
                    self.meters,
                    CLOSER_DISTANCE_THRESHOLD as nat,
                    CLOSE_DISTANCE_THRESHOLD as nat,
                );
            }
        }
        if !self.meters.is_below(CLOSE_DISTANCE_THRESHOLD) {
            AlertTier::Far
        } else if !self.meters.is_below(CLOSER_DISTANCE_THRESHOLD) {
            AlertTier::Close
        } else {
            AlertTier::Closer
        }
    }

    pub fn label(&self) -> (text: String)
        ensures
            text@ == self.label_text(),
    {
        let number = self.meters;
        if number.is_nan() {
            return "NaN meters".to_owned();
        }
        let magnitude = number.finite_magnitude();
        if number.is_below(KILOMETER) {
            let mut text = String::new();
            if number.is_negative() {
                text.push('-');
            }
            let ghost sign = text@;
            match magnitude {
                Some(magnitude) => {
                    let amount = format_whole(&magnitude);
                    text.append(amount.as_str());
                },
                None => {
                    text.append("inf");
                },
            }
            text.append(" meters");
            assert(sign =~= if number.negative() {
                seq!['-']
            } else {
                Seq::<char>::empty()
            });
            text
        } else {
            match magnitude {
                Some(magnitude) => {
                    proof {
                        lemma_not_below_is_normal(number, KILOMETER as nat);
                    }
                    let mut text = format_one_place(&magnitude.divide_by_thousand());
                    text.append(" kilometers");
                    text
                },
                None => "inf kilometers".to_owned(),
            }
        }
    }
}

} // verus!
