//! Proximity evaluation for a transit-tracking page: where the bus and the
//! stop are, how near the bus is, and what the page shows for it.
//!
//! - [`extract`] reads the two positions out of the page's JSON fields.
//! - [`distance`] sorts a distance into an alert tier and writes its label.
//! - [`flash`] is the state machine of the flashing highlight.
//! - [`feedback`] plans the label and the timers for one page load.
//! - [`error`] lists what ends a run.
//!
//! Numbers are binary64 throughout, held as bit patterns: [`binary64`] and
//! [`dyadic`] compare, divide and round them in integers, [`decimal`] and
//! [`fixed`] write them out, and [`json`] is the door to `serde_json`.

pub mod binary64;
pub mod decimal;
pub mod distance;
pub mod dyadic;
pub mod error;
pub mod extract;
pub mod feedback;
pub mod fixed;
pub mod flash;
pub mod json;
