//! A fixed-timestep 2D physics core for a cube that glides inside an
//! axis-aligned rectangle: per-tick input mapping, velocity/position
//! integration with exponential damping, and boundary reflection.
//!
//! All quantities are integers. Distances are counted in sub-units (a host
//! picks the physical meaning; the defaults below read naturally as
//! milli-units), time in whole simulation quanta, and dimensionless
//! coefficients (friction, bounce) in thousandths (see [`math::SCALE`]).
//! Damping multiplies a velocity component by `(SCALE - friction) / SCALE`
//! once per elapsed quantum, so the decay over a span of time depends only on
//! the total number of quanta, never on how the host slices that span into
//! ticks.

pub mod components;
pub mod input;
pub mod laws;
pub mod math;
pub mod resources;
pub mod systems;
