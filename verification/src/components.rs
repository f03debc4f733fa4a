//! Per-entity facets: motion state, wrap policy, control profile.
//!
//! All continuous quantities are fixed-point: an integer field holds
//! thousandths of a world unit (so a radius of `128_000` is 128 units).
//! Integer fixed-point values are always finite, which discharges the
//! finiteness invariant on velocities by construction.

use vstd::prelude::*;

verus! {

/// Motion state facet: position, velocity and orientation of an entity in a
/// 2D plane, plus its angular rate.  Mutated every tick by the (external)
/// movement-integration pass; created with explicit initial values at spawn.
#[derive(Clone, Copy, Debug, PartialEq, Eq, Structural)]
pub struct MotionState {
    /// Position, in thousandths of a unit.
    pub x: i64,
    pub y: i64,
    /// Orientation angle, in thousandths of a radian.
    pub rot: i64,
    /// Velocity, in thousandths of a unit per second.
    pub vx: i64,
    pub vy: i64,
    /// Angular rate, in thousandths of a radian per second.
    pub rot_rate: i64,
}

impl MotionState {
    /// Builds a motion state for an entity living in the 2D plane, from its
    /// initial position, orientation, velocity and angular rate.
    pub fn new_in_plane(x: i64, y: i64, rot: i64, vx: i64, vy: i64, rot_rate: i64) -> (m:
        MotionState)
        ensures
            m == (MotionState { x, y, rot, vx, vy, rot_rate }),
    {
        MotionState { x, y, rot, vx, vy, rot_rate }
    }
}

/// Wrap policy facet: the toroidal-boundary radius (in thousandths of a
/// unit) at which the movement-integration pass wraps an entity to the
/// opposite edge of the play field.  Fixed for the entity's lifetime.
#[derive(Clone, Copy, Debug, PartialEq, Eq, Structural)]
pub struct WrapPolicy {
    /// Boundary radius, in thousandths of a unit; always positive.
    pub radius: i64,
}

impl WrapPolicy {
    /// A wrap policy is well formed when its radius is positive.
    pub open spec fn wf(self) -> bool {
        self.radius > 0
    }

    pub fn new(radius: i64) -> (w: WrapPolicy)
        requires
            radius > 0,
        ensures
            w == (WrapPolicy { radius }),
            w.wf(),
    {
        WrapPolicy { radius }
    }
}

/// Control profile facet: input-response tuning for a player-controlled
/// entity.  All values are static tuning constants, read by the (external)
/// control system.
#[derive(Clone, Copy, Debug, PartialEq, Eq, Structural)]
pub struct ControlProfile {
    /// Maximum linear speed, in thousandths of a unit per second.
    pub max_speed: i64,
    /// Maximum turn rate, in thousandths of a radian per second.
    pub max_turn_rate: i64,
    /// Acceleration, in thousandths of a unit per second squared.
    pub acceleration: i64,
}

impl ControlProfile {
    /// A control profile is well formed when every tuning value is positive.
    pub open spec fn wf(self) -> bool {
        self.max_speed > 0 && self.max_turn_rate > 0 && self.acceleration > 0
    }

    pub fn new(max_speed: i64, max_turn_rate: i64, acceleration: i64) -> (c: ControlProfile)
        requires
            max_speed > 0,
            max_turn_rate > 0,
            acceleration > 0,
        ensures
            c == (ControlProfile { max_speed, max_turn_rate, acceleration }),
            c.wf(),
    {
        ControlProfile { max_speed, max_turn_rate, acceleration }
    }
}

} // verus!
