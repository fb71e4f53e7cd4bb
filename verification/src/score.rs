//! The score tracker.
//!
//! The score is a counter that only crossing events increase and only a new
//! game resets. It is mutated exclusively through the per-tick event queues:
//! crossings become [`IncreaseScoreEvent`]s, and the handler applies
//! increases and resets, publishing a [`ScoreUpdatedEvent`] whenever the
//! value actually changes.

use crate::player::PlayerCrossedPillarEvent;
use crate::units::sat_add_u32;
use vstd::prelude::*;

verus! {

/// The running score.
#[derive(Clone, Copy, Debug, PartialEq, Eq, Structural)]
pub struct Score(pub u32);

/// Request to increment the score by one.
#[derive(Clone, Copy, Debug, PartialEq, Eq, Structural)]
pub struct IncreaseScoreEvent;

/// Notification that the score changed, carrying the new value.
#[derive(Clone, Copy, Debug, PartialEq, Eq, Structural)]
pub struct ScoreUpdatedEvent(pub u32);

/// The score after `increases` single increments and, afterwards, `reset`:
/// increments saturate at `u32::MAX`, and a reset wins over any increment
/// applied in the same tick.
pub open spec fn score_stepped(s: Score, increases: nat, reset: bool) -> Score {
    if reset {
        Score(0)
    } else {
        Score(sat_add_u32(s.0, increases))
    }
}

/// Converts each crossing observed this tick into a score increase request.
pub fn scoring_system(
    crossed_events: &Vec<PlayerCrossedPillarEvent>,
    increase_score_events: &mut Vec<IncreaseScoreEvent>,
)
    ensures
        final(increase_score_events)@.len() == old(increase_score_events)@.len()
            + crossed_events@.len(),
{
    let mut i: usize = 0;
    while i < crossed_events.len()
        invariant
            i <= crossed_events@.len(),
            increase_score_events@.len() == old(increase_score_events)@.len() + i,
        decreases crossed_events@.len() - i,
    {
        increase_score_events.push(IncreaseScoreEvent);
        i += 1;
    }
}

/// Applies this tick's increase requests and reset to the score and
/// publishes a [`ScoreUpdatedEvent`] exactly when the value changed.
pub fn score_event_handler_system(
    score: &mut Score,
    increase_score_events: &Vec<IncreaseScoreEvent>,
    reset: bool,
    score_updated_events: &mut Vec<ScoreUpdatedEvent>,
)
    ensures
        *final(score) == score_stepped(*old(score), increase_score_events@.len(), reset),
        final(score_updated_events)@ == if final(score).0 != old(score).0 {
            old(score_updated_events)@.push(ScoreUpdatedEvent(final(score).0))
        } else {
            old(score_updated_events)@
        },
{
    let old_score: u32 = score.0;
    let mut i: usize = 0;
    while i < increase_score_events.len()
        invariant
            i <= increase_score_events@.len(),
            score.0 == sat_add_u32(old(score).0, i as nat),
        decreases increase_score_events@.len() - i,
    {
        if score.0 < u32::MAX {
            score.0 = score.0 + 1;
        }
        i += 1;
    }
    if reset {
        score.0 = 0;
    }
    if old_score != score.0 {
        score_updated_events.push(ScoreUpdatedEvent(score.0));
    }
}

} // verus!
