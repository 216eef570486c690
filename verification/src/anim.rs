//! The eased animation of the displayed score. The displayed value is kept
//! in thousandths of a score point, so one score point is 1000 units and
//! the snap threshold of a tenth of a point is 100 units. Each tick moves
//! the displayed value a fifth of the way toward the target; once within
//! the threshold it snaps to the target exactly, and further ticks leave
//! it there.

use vstd::prelude::*;

verus! {

/// One score point, in animation units (thousandths of a point).
pub const MILLI_PER_POINT: u32 = 1000;

/// Divisor of the remaining distance covered by one tick.
pub const SMOOTHING: u32 = 5;

/// Snap threshold: a tenth of a score point, in animation units.
pub const SNAP_MILLI: u32 = 100;

/// Distance between the displayed value and its target.
pub open spec fn distance(animated: int, target: int) -> int {
    if animated <= target {
        target - animated
    } else {
        animated - target
    }
}

/// Whether the animation still has to advance: the displayed value sits
/// farther from the target than the snap threshold.
#[derive(Clone, Copy, Debug, PartialEq, Eq, Structural)]
pub enum AnimationState {
    Settling,
    Settled,
}

/// The state the animation is in for a given displayed value and target.
pub open spec fn state_of(animated: int, target: int) -> AnimationState {
    if distance(animated, target) > SNAP_MILLI {
        AnimationState::Settling
    } else {
        AnimationState::Settled
    }
}

/// The value one tick moves the displayed value to: a fifth of the way
/// toward the target, or the target itself once within the threshold.
pub open spec fn tick_spec(animated: int, target: int) -> int {
    if distance(animated, target) <= SNAP_MILLI {
        target
    } else if animated <= target {
        animated + (target - animated) / (SMOOTHING as int)
    } else {
        animated - (animated - target) / (SMOOTHING as int)
    }
}

/// Reports whether the animation is settling or settled, i.e. whether the
/// host still needs to schedule redraws.
pub fn animation_state(animated: u32, target: u32) -> (r: AnimationState)
    ensures
        r == state_of(animated as int, target as int),
{
    let d = if animated <= target {
        target - animated
    } else {
        animated - target
    };
    if d > SNAP_MILLI {
        AnimationState::Settling
    } else {
        AnimationState::Settled
    }
}

/// Advances the displayed value one frame toward the target. Total for
/// all inputs: the result always lies between the old value and the
/// target, so the arithmetic cannot overflow.
pub fn tick(animated: u32, target: u32) -> (r: u32)
    ensures
        r == tick_spec(animated as int, target as int),
{
    if animated <= target {
        let d = target - animated;
        if d <= SNAP_MILLI {
            target
        } else {
            animated + d / SMOOTHING
        }
    } else {
        let d = animated - target;
        if d <= SNAP_MILLI {
            target
        } else {
            animated - d / SMOOTHING
        }
    }
}

/// Monotonic approach without overshoot: every tick keeps the displayed
/// value between its old position and the target, and whenever the value
/// is off target the tick strictly shrinks the distance. At the target
/// the tick is a no-op, so the settled state is a fixed point.
pub proof fn lemma_tick_approaches(animated: int, target: int)
    ensures
        animated <= target ==> animated <= tick_spec(animated, target) <= target,
        animated >= target ==> target <= tick_spec(animated, target) <= animated,
        animated != target ==> distance(tick_spec(animated, target), target) < distance(
            animated,
            target,
        ),
        animated == target ==> tick_spec(animated, target) == animated,
{
}

/// A tick taken in the settled state snaps the displayed value to the
/// target exactly, and the target itself is a settled fixed point: once
/// there, further ticks change nothing and no redraw is needed.
pub proof fn lemma_tick_settles(animated: int, target: int)
    ensures
        state_of(animated, target) == AnimationState::Settled ==> tick_spec(animated, target)
            == target,
        tick_spec(target, target) == target,
        state_of(target, target) == AnimationState::Settled,
{
}

} // verus!
