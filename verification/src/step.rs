//! The boundary-aware step policy: the one piece of real domain logic.
//! Near the bottom of the range the requested step is overridden by the
//! minimal step of one, so that rapid key presses cannot overshoot into
//! flicker; everywhere else the request passes through unchanged.

use vstd::prelude::*;

use crate::Direction;

verus! {

/// The effective step for a given current level, requested step and
/// direction. A deliberate, discontinuous, boundary-only override: it
/// does not scale, it only clamps to the minimal granular step near zero.
/// A requested step of zero outside the boundary band passes through
/// unchanged.
pub open spec fn spec_adjusted_step(current: u32, requested: u32, direction: Direction) -> u32 {
    if direction == Direction::Increase && current < 10 {
        1u32
    } else if direction == Direction::Decrease && current <= 10 {
        1u32
    } else {
        requested
    }
}

/// Computes the effective brightness delta from the current level, the
/// requested step and the direction.
pub fn adjust_step(current: u32, requested: u32, direction: Direction) -> (effective: u32)
    ensures
        effective == spec_adjusted_step(current, requested, direction),
{
    match direction {
        Direction::Increase if current < 10 => 1,
        Direction::Decrease if current <= 10 => 1,
        _ => requested,
    }
}

/// Law: for every level below ten, an increase uses the minimal step of
/// one, whatever step was requested.
pub proof fn lemma_increase_low_band_min_step(current: u32, requested: u32)
    requires
        current < 10,
    ensures
        spec_adjusted_step(current, requested, Direction::Increase) == 1,
{
}

/// Law: for every level of at most ten, a decrease uses the minimal step
/// of one, whatever step was requested.
pub proof fn lemma_decrease_low_band_min_step(current: u32, requested: u32)
    requires
        current <= 10,
    ensures
        spec_adjusted_step(current, requested, Direction::Decrease) == 1,
{
}

/// Law: outside the boundary band the requested step passes through
/// unchanged, in either direction.
pub proof fn lemma_identity_outside_band(current: u32, requested: u32, direction: Direction)
    requires
        11 <= current <= 100,
    ensures
        spec_adjusted_step(current, requested, direction) == requested,
{
}

} // verus!
