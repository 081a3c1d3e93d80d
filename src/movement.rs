//! The discrete decisions of one movement tick: whether the jump and the
//! friction phase apply, and which acceleration model drives the tick.

use vstd::prelude::*;

verus! {

/// The acceleration model that drives a tick.
#[derive(Copy, Clone, Debug, PartialEq, Eq, Structural)]
pub enum MovementKind {
    /// The ground model.
    Ground,
    /// The air model.
    Air,
    /// The air model's override for pure sideways strafing.
    AirTurning,
}

/// The model that drives a tick: the ground model when grounded; in the air,
/// the turning override when the input is a pure sideways strafe and the
/// profile has one, else the air model.
pub open spec fn movement_for(is_grounded: bool, is_turning: bool, has_air_turning: bool) -> MovementKind {
    if is_grounded {
        MovementKind::Ground
    } else if is_turning && has_air_turning {
        MovementKind::AirTurning
    } else {
        MovementKind::Air
    }
}

/// Picks the acceleration model for a tick; `has_air_turning` says whether
/// the profile defines the turning override.
pub fn effective_movement_kind(is_grounded: bool, is_turning: bool, has_air_turning: bool) -> (r:
    MovementKind)
    ensures
        r == movement_for(is_grounded, is_turning, has_air_turning),
{
    if is_grounded {
        MovementKind::Ground
    } else {
        if is_turning {
            if has_air_turning {
                return MovementKind::AirTurning;
            }
        }
        MovementKind::Air
    }
}

/// The phases that one tick applies, in order: jump, friction, acceleration
/// by `movement`; gravity and integration always follow.
#[derive(Copy, Clone, Debug, PartialEq, Eq, Structural)]
pub struct TickPlan {
    /// Add the jump impulse to the vertical velocity.
    pub jump: bool,
    /// Apply ground friction to the horizontal velocity.
    pub friction: bool,
    /// The acceleration model.
    pub movement: MovementKind,
}

/// Plans one tick. A grounded entity that wants to jump jumps and is airborne
/// for the rest of the tick; friction applies only to an entity still
/// grounded after that; the acceleration model follows the same status.
pub fn plan_tick(is_grounded: bool, is_jumping: bool, is_turning: bool, has_air_turning: bool) -> (r:
    TickPlan)
    ensures
        r.jump == (is_grounded && is_jumping),
        r.friction == (is_grounded && !is_jumping),
        r.movement == movement_for(is_grounded && !is_jumping, is_turning, has_air_turning),
{
    let jump = is_grounded && is_jumping;
    let still_grounded = is_grounded && !jump;
    TickPlan {
        jump,
        friction: still_grounded,
        movement: effective_movement_kind(still_grounded, is_turning, has_air_turning),
    }
}

} // verus!
