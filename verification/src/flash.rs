//! The flashing highlight: whether it runs, how fast, and what each tick of
//! its timer does.

use vstd::prelude::*;
use crate::distance::AlertTier;
use crate::error::MonitorError;

verus! {

/// Milliseconds between two ticks while the bus is close.
pub const CLOSE_DISTANCE_FLASH_INTERVAL: i32 = 500;

/// Milliseconds between two ticks while the bus is closer still.
pub const CLOSER_DISTANCE_FLASH_INTERVAL: i32 = 200;

/// Whether the highlight is on the map.
#[derive(Clone, Copy, Debug, PartialEq, Eq, Structural)]
pub enum FlashPhase {
    On,
    Off,
}

/// The state of the highlight. It is set once, from the tier; ticks move it
/// between the two phases of `Flashing` and never to or from `Idle`.
#[derive(Clone, Copy, Debug, PartialEq, Eq, Structural)]
pub enum FlashState {
    Idle,
    Flashing(FlashPhase),
}

/// What a tick does to the style of the map.
#[derive(Clone, Copy, Debug, PartialEq, Eq, Structural)]
pub enum StyleAction {
    /// Leave the style as it is.
    Keep,
    /// Set the highlight.
    Highlight,
    /// Take the highlight away.
    Restore,
}

impl AlertTier {
    /// The period of the flashing timer; no timer runs while the bus is far.
    pub open spec fn interval(self) -> Option<i32> {
        match self {
            AlertTier::Far => None,
            AlertTier::Close => Some(CLOSE_DISTANCE_FLASH_INTERVAL),
            AlertTier::Closer => Some(CLOSER_DISTANCE_FLASH_INTERVAL),
        }
    }

    /// The state before the first tick.
    pub open spec fn starting_state(self) -> FlashState {
        match self {
            AlertTier::Far => FlashState::Idle,
            _ => FlashState::Flashing(FlashPhase::Off),
        }
    }

    pub fn flash_interval(&self) -> (period: Option<i32>)
        ensures
            period == self.interval(),
            period is Some <==> *self != AlertTier::Far,
    {
        match self {
            AlertTier::Far => None,
            AlertTier::Close => Some(CLOSE_DISTANCE_FLASH_INTERVAL),
            AlertTier::Closer => Some(CLOSER_DISTANCE_FLASH_INTERVAL),
        }
    }

    pub fn initial_state(&self) -> (state: FlashState)
        ensures
            state == self.starting_state(),
    {
        match self {
            AlertTier::Far => FlashState::Idle,
            _ => FlashState::Flashing(FlashPhase::Off),
        }
    }
}

impl FlashState {
    /// The state after one tick.
    pub open spec fn after_tick(self) -> FlashState {
        match self {
            FlashState::Idle => FlashState::Idle,
            FlashState::Flashing(FlashPhase::Off) => FlashState::Flashing(FlashPhase::On),
            FlashState::Flashing(FlashPhase::On) => FlashState::Flashing(FlashPhase::Off),
        }
    }

    /// What one tick does to the map.
    pub open spec fn tick_action(self) -> StyleAction {
        match self {
            FlashState::Idle => StyleAction::Keep,
            FlashState::Flashing(FlashPhase::Off) => StyleAction::Highlight,
            FlashState::Flashing(FlashPhase::On) => StyleAction::Restore,
        }
    }

    /// The state after `count` ticks.
    pub open spec fn after_ticks(self, count: nat) -> FlashState
        decreases count,
    {
        if count == 0 {
            self
        } else {
            self.after_tick().after_ticks((count - 1) as nat)
        }
    }

    pub open spec fn flashing(self) -> bool {
        self is Flashing
    }

    pub fn is_flashing(&self) -> (flashing: bool)
        ensures
            flashing == self.flashing(),
    {
        match self {
            FlashState::Idle => false,
            FlashState::Flashing(_) => true,
        }
    }

    /// One tick of the timer: moves to the next state and says what to do to
    /// the map.
    pub fn tick(&mut self) -> (action: StyleAction)
        ensures
            *final(self) == old(self).after_tick(),
            action == old(self).tick_action(),
    {
        match *self {
            FlashState::Idle => StyleAction::Keep,
            FlashState::Flashing(FlashPhase::Off) => {
                *self = FlashState::Flashing(FlashPhase::On);
                StyleAction::Highlight
            },
            FlashState::Flashing(FlashPhase::On) => {
                *self = FlashState::Flashing(FlashPhase::Off);
                StyleAction::Restore
            },
        }
    }
}

/// What follows from the page's answer to a change of style: a refusal ends
/// the run.
pub fn style_outcome(accepted: bool) -> (outcome: Result<(), MonitorError>)
    ensures
        outcome == if accepted {
            Ok::<(), MonitorError>(())
        } else {
            Err::<(), MonitorError>(MonitorError::StyleMutationFailed)
        },
{
    if accepted {
        Ok(())
    } else {
        Err(MonitorError::StyleMutationFailed)
    }
}

/// What follows from the page's answer to the reload: a refusal ends the
/// run.
pub fn reload_outcome(accepted: bool) -> (outcome: Result<(), MonitorError>)
    ensures
        outcome == if accepted {
            Ok::<(), MonitorError>(())
        } else {
            Err::<(), MonitorError>(MonitorError::NavigationFailed)
        },
{
    if accepted {
        Ok(())
    } else {
        Err(MonitorError::NavigationFailed)
    }
}

/// Ticks never start the flashing and never stop it.
pub proof fn lemma_ticks_keep_flashing(state: FlashState, count: nat)
    ensures
        state.after_ticks(count).flashing() == state.flashing(),
    decreases count,
{
    if count > 0 {
        lemma_ticks_keep_flashing(state.after_tick(), (count - 1) as nat);
    }
}

/// Two ticks bring the state back: the phases alternate.
pub proof fn lemma_ticks_alternate(state: FlashState, count: nat)
    ensures
        state.after_ticks(count) == if count % 2 == 0 {
            state
        } else {
            state.after_tick()
        },
    decreases count,
{
    if count > 0 {
        lemma_ticks_alternate(state.after_tick(), (count - 1) as nat);
    }
}

/// While it flashes, the map is highlighted by every other tick and
/// restored by the ticks between, the first tick highlighting.
pub proof fn lemma_tick_actions_alternate(tier: AlertTier, count: nat)
    requires
        tier != AlertTier::Far,
    ensures
        tier.starting_state().after_ticks(count).tick_action() == if count % 2 == 0 {
            StyleAction::Highlight
        } else {
            StyleAction::Restore
        },
{
    lemma_ticks_alternate(tier.starting_state(), count);
}

} // verus!
