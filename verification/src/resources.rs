//! The process-wide world configuration: the playable rectangle and its
//! collision response.

use crate::components::Vec2i;
use crate::math::{clamp_to, clamp_value, FACTOR_LIMIT, SCALE};
use vstd::prelude::*;

verus! {

/// Ambient damping the world applies to every body, in thousandths per
/// quantum (0.1).
pub const DEFAULT_WORLD_FRICTION: i64 = 100;

/// Default bounce multiplier, in thousandths: 2000 doubles the speed of a
/// reflected component.
pub const DEFAULT_BOUNCE_FACTOR: i64 = 2000;

/// Largest window extent `from_window_size` accepts, in sub-units.
pub const WINDOW_LIMIT: i64 = 2_000_000_000_000;

/// World boundaries resource defining the playable area.
#[derive(Clone, Copy, Debug, PartialEq, Eq, Structural)]
pub struct WorldBounds {
    /// Lower-left corner of the playable rectangle, in sub-units.
    pub min: Vec2i,
    /// Upper-right corner of the playable rectangle, in sub-units.
    pub max: Vec2i,
    /// Ambient damping coefficient, in thousandths per quantum.
    pub friction: i64,
    /// Multiplier applied to a reflected velocity component, in thousandths.
    pub bounce_factor: i64,
}

impl WorldBounds {
    /// Well-formed: a non-degenerate rectangle, a valid friction fraction,
    /// and a bounce multiplier `mul_frac` can take.
    pub open spec fn wf(self) -> bool {
        &&& self.min.x < self.max.x
        &&& self.min.y < self.max.y
        &&& 0 <= self.friction <= SCALE
        &&& 0 <= self.bounce_factor <= FACTOR_LIMIT
    }

    /// Bounds from window dimensions with a margin: the rectangle is centred
    /// on the origin and each half-extent is half the window minus the
    /// margin. A degenerate rectangle is a configuration error, so the
    /// margin must leave at least one sub-unit of half-extent on each axis.
    pub fn from_window_size(width: i64, height: i64, margin: i64) -> (b: WorldBounds)
        requires
            0 <= margin,
            2 * margin + 2 <= width <= WINDOW_LIMIT,
            2 * margin + 2 <= height <= WINDOW_LIMIT,
        ensures
            b.max.x == width / 2 - margin,
            b.max.y == height / 2 - margin,
            b.min.x == -b.max.x,
            b.min.y == -b.max.y,
            b.friction == DEFAULT_WORLD_FRICTION,
            b.bounce_factor == DEFAULT_BOUNCE_FACTOR,
            b.wf(),
    {
        let half_width = ((width as u64) / 2) as i64 - margin;
        let half_height = ((height as u64) / 2) as i64 - margin;
        WorldBounds {
            min: Vec2i { x: -half_width, y: -half_height },
            max: Vec2i { x: half_width, y: half_height },
            friction: DEFAULT_WORLD_FRICTION,
            bounce_factor: DEFAULT_BOUNCE_FACTOR,
        }
    }

    /// Bounds for a typical game window: 1280 by 720 units with a 50-unit
    /// margin, in milli-unit sub-units.
    pub fn default_bounds() -> (b: WorldBounds)
        ensures
            b.min.x == -590_000 && b.min.y == -310_000,
            b.max.x == 590_000 && b.max.y == 310_000,
            b.friction == DEFAULT_WORLD_FRICTION,
            b.bounce_factor == DEFAULT_BOUNCE_FACTOR,
            b.wf(),
    {
        Self::from_window_size(1_280_000, 720_000, 50_000)
    }

    /// Whether a position lies inside the rectangle, boundary included.
    pub fn contains(&self, position: Vec2i) -> (r: bool)
        ensures
            r == (self.min.x <= position.x <= self.max.x && self.min.y <= position.y
                <= self.max.y),
    {
        position.x >= self.min.x && position.x <= self.max.x && position.y >= self.min.y
            && position.y <= self.max.y
    }

    /// The position pulled into the rectangle, axis by axis.
    pub fn clamp_position(&self, position: Vec2i) -> (r: Vec2i)
        requires
            self.min.x <= self.max.x,
            self.min.y <= self.max.y,
        ensures
            r.x as int == clamp_to(position.x as int, self.min.x as int, self.max.x as int),
            r.y as int == clamp_to(position.y as int, self.min.y as int, self.max.y as int),
    {
        Vec2i {
            x: clamp_value(position.x, self.min.x, self.max.x),
            y: clamp_value(position.y, self.min.y, self.max.y),
        }
    }
}

impl Default for WorldBounds {
    /// The same rectangle as `default_bounds`.
    fn default() -> (b: WorldBounds)
        ensures
            b.min.x == -590_000 && b.min.y == -310_000,
            b.max.x == 590_000 && b.max.y == 310_000,
            b.friction == DEFAULT_WORLD_FRICTION,
            b.bounce_factor == DEFAULT_BOUNCE_FACTOR,
            b.wf(),
    {
        Self::default_bounds()
    }
}

} // verus!
