//! Per-entity data records: 2D integer vectors, the stand-alone physics
//! components, and the aggregate [`MotionState`] that the per-tick systems
//! read and write.

use crate::math::{clamp_to, clamp_value, SCALE};
use vstd::prelude::*;

verus! {

/// Default per-entity friction, in thousandths per quantum (0.95).
pub const DEFAULT_FRICTION: i64 = 950;

/// A 2D vector of sub-units.
#[derive(Clone, Copy, Debug, PartialEq, Eq, Structural)]
pub struct Vec2i {
    pub x: i64,
    pub y: i64,
}

impl Vec2i {
    /// The vector with the given components.
    pub fn new(x: i64, y: i64) -> (v: Vec2i)
        ensures
            v.x == x,
            v.y == y,
    {
        Vec2i { x, y }
    }

    /// The zero vector.
    pub fn zero() -> (v: Vec2i)
        ensures
            v.x == 0,
            v.y == 0,
    {
        Vec2i { x: 0, y: 0 }
    }
}

/// Marker for the player-controlled cube.
#[derive(Clone, Copy, Debug, PartialEq, Eq, Structural)]
pub struct Player;

/// Stand-alone velocity component, in sub-units per quantum.
#[derive(Clone, Copy, Debug, PartialEq, Eq, Structural)]
pub struct LinearVelocity(pub Vec2i);

impl LinearVelocity {
    /// A velocity with the given components.
    pub fn new(x: i64, y: i64) -> (v: LinearVelocity)
        ensures
            v.0.x == x,
            v.0.y == y,
    {
        LinearVelocity(Vec2i { x, y })
    }

    /// A velocity at rest.
    pub fn zero() -> (v: LinearVelocity)
        ensures
            v.0.x == 0,
            v.0.y == 0,
    {
        LinearVelocity(Vec2i { x: 0, y: 0 })
    }
}

/// Stand-alone acceleration component, in sub-units per quantum squared.
#[derive(Clone, Copy, Debug, PartialEq, Eq, Structural)]
pub struct Acceleration(pub Vec2i);

impl Acceleration {
    /// An acceleration with the given components.
    pub fn new(x: i64, y: i64) -> (a: Acceleration)
        ensures
            a.0.x == x,
            a.0.y == y,
    {
        Acceleration(Vec2i { x, y })
    }

    /// No applied force.
    pub fn zero() -> (a: Acceleration)
        ensures
            a.0.x == 0,
            a.0.y == 0,
    {
        Acceleration(Vec2i { x: 0, y: 0 })
    }
}

/// Whether a damping coefficient is a fraction in `[0, SCALE]`:
/// 0 is no damping, SCALE stops the body within one quantum.
pub open spec fn valid_friction(f: int) -> bool {
    0 <= f <= SCALE
}

/// Stand-alone damping coefficient, in thousandths per quantum.
#[derive(Clone, Copy, Debug, PartialEq, Eq, Structural)]
pub struct Friction(pub i64);

impl Friction {
    /// A coefficient, pulled into `[0, SCALE]` so that every constructed
    /// value is a valid fraction.
    pub fn new(friction: i64) -> (f: Friction)
        ensures
            f.0 == clamp_to(friction as int, 0, SCALE as int),
            valid_friction(f.0 as int),
    {
        Friction(clamp_value(friction, 0, SCALE))
    }
}

impl Default for Friction {
    /// The friction a freshly spawned body carries.
    fn default() -> (f: Friction)
        ensures
            f.0 == DEFAULT_FRICTION,
    {
        Friction(DEFAULT_FRICTION)
    }
}

/// Aggregate motion record for one body. `acceleration` is transient: a
/// force source writes it each tick and the integrator consumes and clears
/// it, so forces never accumulate across ticks.
#[derive(Clone, Copy, Debug, PartialEq, Eq, Structural)]
pub struct MotionState {
    /// World-space position, in sub-units.
    pub position: Vec2i,
    /// Velocity, in sub-units per quantum.
    pub velocity: Vec2i,
    /// Acceleration, in sub-units per quantum squared.
    pub acceleration: Vec2i,
    /// Per-entity damping coefficient, in thousandths per quantum.
    pub friction: i64,
}

impl MotionState {
    /// Well-formed: the damping coefficient is a valid fraction.
    pub open spec fn wf(self) -> bool {
        valid_friction(self.friction as int)
    }

    /// A record with the given fields; the friction is pulled into range,
    /// so the result is always well-formed.
    pub fn new(position: Vec2i, velocity: Vec2i, acceleration: Vec2i, friction: i64) -> (m:
        MotionState)
        ensures
            m.position == position,
            m.velocity == velocity,
            m.acceleration == acceleration,
            m.friction == clamp_to(friction as int, 0, SCALE as int),
            m.wf(),
    {
        MotionState { position, velocity, acceleration, friction: clamp_value(friction, 0, SCALE) }
    }
}

impl Default for MotionState {
    /// The state of a freshly spawned body: at the origin, at rest, with no
    /// applied force and the default friction.
    fn default() -> (m: MotionState)
        ensures
            m.position.x == 0 && m.position.y == 0,
            m.velocity.x == 0 && m.velocity.y == 0,
            m.acceleration.x == 0 && m.acceleration.y == 0,
            m.friction == DEFAULT_FRICTION,
            m.wf(),
    {
        MotionState {
            position: Vec2i { x: 0, y: 0 },
            velocity: Vec2i { x: 0, y: 0 },
            acceleration: Vec2i { x: 0, y: 0 },
            friction: DEFAULT_FRICTION,
        }
    }
}

} // verus!
