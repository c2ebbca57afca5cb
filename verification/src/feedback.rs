//! What the page does for a distance: the label it shows and the timers it
//! starts.

use vstd::prelude::*;
use crate::distance::{AlertTier, Distance};
use crate::error::{MonitorError, PageElement};
use crate::flash::FlashState;

verus! {

/// Milliseconds until the page reloads.
pub const PAGE_RELOAD_TIMEOUT: i32 = 60000;

/// What stands before the distance on the page.
pub const DISTANCE_CAPTION: &'static str = "Distance:";

/// What to do to the page, once, at startup.
#[derive(Clone, Debug, PartialEq, Eq)]
pub struct Feedback {
    /// The text of the distance, to insert beside the route display.
    pub label: String,
    /// The tier of the distance.
    pub tier: AlertTier,
    /// The state of the highlight before the first tick.
    pub state: FlashState,
    /// The period of the flashing timer in milliseconds, if one is to run.
    pub flash_interval: Option<i32>,
    /// The delay of the reload timer in milliseconds; this timer always runs.
    pub reload_delay: i32,
}

/// Which of the parts that the feedback needs the page has. It is taken
/// before anything on the page is changed.
#[derive(Clone, Copy, Debug, PartialEq, Eq, Structural)]
pub struct PageSurvey {
    /// The display of the route, beside which the label goes.
    pub route_info: bool,
    /// The first row of that display.
    pub first_row: bool,
    /// The first column of that row.
    pub first_column: bool,
    /// The map that flashes.
    pub map: bool,
}

impl PageSurvey {
    /// The part that is needed for a tier and is not there, if any: the
    /// anchor of the label from the outside in, then the map, which only
    /// flashing needs.
    pub open spec fn missing(self, tier: AlertTier) -> Option<PageElement> {
        if !self.route_info {
            Some(PageElement::RouteInfo)
        } else if !self.first_row {
            Some(PageElement::FirstRow)
        } else if !self.first_column {
            Some(PageElement::FirstColumn)
        } else if tier != AlertTier::Far && !self.map {
            Some(PageElement::MapContainer)
        } else {
            None
        }
    }

    pub fn first_missing(&self, tier: AlertTier) -> (element: Option<PageElement>)
        ensures
            element == self.missing(tier),
    {
        if !self.route_info {
            Some(PageElement::RouteInfo)
        } else if !self.first_row {
            Some(PageElement::FirstRow)
        } else if !self.first_column {
            Some(PageElement::FirstColumn)
        } else if tier.flash_interval().is_some() && !self.map {
            Some(PageElement::MapContainer)
        } else {
            None
        }
    }
}

/// Plans the feedback for a distance on a page. With a part missing nothing
/// is planned, so that nothing on the page changes and no timer starts.
/// Else the plan holds the label, one reload timer, and a flashing timer
/// unless the bus is far.
pub fn plan_feedback(distance: &Distance, survey: &PageSurvey) -> (planned: Result<
    Feedback,
    MonitorError,
>)
    ensures
        match planned {
            Ok(feedback) => {
                &&& survey.missing(distance.tier()) is None
                &&& feedback.label@ == distance.label_text()
                &&& feedback.tier == distance.tier()
                &&& feedback.state == distance.tier().starting_state()
                &&& feedback.flash_interval == distance.tier().interval()
                &&& feedback.reload_delay == PAGE_RELOAD_TIMEOUT
            },
            Err(error) => {
                &&& error is ElementNotFound
                &&& survey.missing(distance.tier()) == Some(error->ElementNotFound_0)
            },
        },
{
    let tier = distance.classify();
    match survey.first_missing(tier) {
        Some(element) => Err(MonitorError::ElementNotFound(element)),
        None => Ok(
            Feedback {
                label: distance.label(),
                tier,
                state: tier.initial_state(),
                flash_interval: tier.flash_interval(),
                reload_delay: PAGE_RELOAD_TIMEOUT,
            },
        ),
    }
}

} // verus!
