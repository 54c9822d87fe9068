//! The per-tick systems: ambient world friction, the integrator, and the
//! boundary resolver. Within one tick the host runs them in a fixed order —
//! input mapper, then integrator, then boundary resolver — and each body is
//! independent of every other, so the per-body steps may run in any order or
//! in parallel across bodies.

use crate::components::{MotionState, Vec2i};
use crate::math::{
    clamp_to, clamp_value, damp_n, damp_value, mag, mul_frac, scale_by, MAG_LIMIT, SCALE,
};
use crate::resources::WorldBounds;
use vstd::prelude::*;

verus! {

/// Largest number of elapsed quanta one tick may carry (one minute at sixty
/// quanta per second).
pub const DT_LIMIT: i64 = 3600;

/// Largest acceleration magnitude a tick accepts, in sub-units per quantum
/// squared.
pub const ACC_LIMIT: i64 = 1_000_000_000;

/// Largest velocity magnitude a tick accepts, in sub-units per quantum.
pub const VEL_LIMIT: i64 = 1_000_000_000_000;

/// Largest position magnitude a tick accepts, in sub-units.
pub const POS_LIMIT: i64 = 1_000_000_000_000;

/// The fraction of a velocity component that one quantum of damping keeps.
pub open spec fn keep_of(friction: int) -> int {
    SCALE - friction
}

/// Magnitudes under which no arithmetic of one tick can overflow.
pub open spec fn in_simulation_range(m: MotionState) -> bool {
    &&& mag(m.position.x as int) <= POS_LIMIT
    &&& mag(m.position.y as int) <= POS_LIMIT
    &&& mag(m.velocity.x as int) <= VEL_LIMIT
    &&& mag(m.velocity.y as int) <= VEL_LIMIT
    &&& mag(m.acceleration.x as int) <= ACC_LIMIT
    &&& mag(m.acceleration.y as int) <= ACC_LIMIT
}

/// One velocity component after an integration tick of `dt` quanta: the
/// acceleration acts over the whole tick, then each elapsed quantum damps
/// the sum.
pub open spec fn integrated_vel(v: int, a: int, friction: int, dt: int) -> int {
    damp_n(v + a * dt, keep_of(friction), dt as nat)
}

/// How one body looks after an integration tick: velocity takes the
/// acceleration and the damping, position takes the new velocity, and the
/// acceleration is cleared — always, even for an empty tick, so that a stale
/// force cannot leak into a later tick. A tick of zero or negative elapsed
/// time moves nothing: a safe no-op, not a fault.
pub open spec fn integrated(post: MotionState, pre: MotionState, dt: int) -> bool {
    &&& post.friction == pre.friction
    &&& post.acceleration.x == 0 && post.acceleration.y == 0
    &&& dt <= 0 ==> post.velocity == pre.velocity && post.position == pre.position
    &&& dt > 0 ==> {
        &&& post.velocity.x as int == integrated_vel(
            pre.velocity.x as int,
            pre.acceleration.x as int,
            pre.friction as int,
            dt,
        )
        &&& post.velocity.y as int == integrated_vel(
            pre.velocity.y as int,
            pre.acceleration.y as int,
            pre.friction as int,
            dt,
        )
        &&& post.position.x as int == pre.position.x + post.velocity.x * dt
        &&& post.position.y as int == pre.position.y + post.velocity.y * dt
    }
}

/// Integrator for one body. Velocity first takes the acceleration, then the
/// damping — that order is part of the contract — and position then takes
/// the damped velocity; the transient acceleration is cleared
/// unconditionally.
pub fn integrate(ms: &mut MotionState, dt: i64)
    requires
        old(ms).wf(),
        in_simulation_range(*old(ms)),
        dt <= DT_LIMIT,
    ensures
        integrated(*final(ms), *old(ms), dt as int),
        final(ms).wf(),
{
    if dt > 0 {
        let keep = SCALE - ms.friction;
        let ax = ms.acceleration.x;
        let ay = ms.acceleration.y;
        proof {
            assert(-3_600_000_000_000 <= (ax as int) * (dt as int) <= 3_600_000_000_000)
                by (nonlinear_arith)
                requires
                    -1_000_000_000 <= ax as int <= 1_000_000_000,
                    0 < dt as int <= 3600,
            ;
            assert(-3_600_000_000_000 <= (ay as int) * (dt as int) <= 3_600_000_000_000)
                by (nonlinear_arith)
                requires
                    -1_000_000_000 <= ay as int <= 1_000_000_000,
                    0 < dt as int <= 3600,
            ;
        }
        let vx = ms.velocity.x + ax * dt;
        let vy = ms.velocity.y + ay * dt;
        let dvx = damp_value(vx, keep, dt);
        let dvy = damp_value(vy, keep, dt);
        proof {
            assert(-16_560_000_000_000_000 <= (dvx as int) * (dt as int)
                <= 16_560_000_000_000_000) by (nonlinear_arith)
                requires
                    -4_600_000_000_000 <= dvx as int <= 4_600_000_000_000,
                    0 < dt as int <= 3600,
            ;
            assert(-16_560_000_000_000_000 <= (dvy as int) * (dt as int)
                <= 16_560_000_000_000_000) by (nonlinear_arith)
                requires
                    -4_600_000_000_000 <= dvy as int <= 4_600_000_000_000,
                    0 < dt as int <= 3600,
            ;
        }
        ms.velocity.x = dvx;
        ms.velocity.y = dvy;
        ms.position.x = ms.position.x + dvx * dt;
        ms.position.y = ms.position.y + dvy * dt;
    }
    ms.acceleration.x = 0;
    ms.acceleration.y = 0;
}

/// How one body looks after `dt` quanta of the world's ambient damping:
/// velocity decays by the world's friction, everything else is untouched.
pub open spec fn world_damped(post: MotionState, pre: MotionState, friction: int, dt: int) -> bool {
    &&& post.friction == pre.friction
    &&& post.acceleration == pre.acceleration
    &&& post.position == pre.position
    &&& dt <= 0 ==> post.velocity == pre.velocity
    &&& dt > 0 ==> {
        &&& post.velocity.x as int == damp_n(pre.velocity.x as int, keep_of(friction), dt as nat)
        &&& post.velocity.y as int == damp_n(pre.velocity.y as int, keep_of(friction), dt as nat)
    }
}

/// Ambient damping for one body, independent of its own friction.
pub fn apply_world_friction(ms: &mut MotionState, bounds: &WorldBounds, dt: i64)
    requires
        bounds.wf(),
        mag(old(ms).velocity.x as int) <= MAG_LIMIT,
        mag(old(ms).velocity.y as int) <= MAG_LIMIT,
        dt <= DT_LIMIT,
    ensures
        world_damped(*final(ms), *old(ms), bounds.friction as int, dt as int),
{
    if dt > 0 {
        let keep = SCALE - bounds.friction;
        ms.velocity.x = damp_value(ms.velocity.x, keep, dt);
        ms.velocity.y = damp_value(ms.velocity.y, keep, dt);
    }
}

/// Whether a position component touches or lies past a wall: the boundary
/// itself counts as a hit, so a body exactly on the wall reflects rather
/// than sticks.
pub open spec fn hits(p: int, lo: int, hi: int) -> bool {
    p <= lo || p >= hi
}

/// One position component after boundary resolution: clamped into the walls
/// on a hit, untouched otherwise.
pub open spec fn resolved_pos(p: int, lo: int, hi: int) -> int {
    if hits(p, lo, hi) {
        clamp_to(p, lo, hi)
    } else {
        p
    }
}

/// One velocity component after boundary resolution: on a hit, first scaled
/// by the bounce factor, then reversed — the factor touches only the
/// magnitude, the sign flip is unconditional.
pub open spec fn resolved_vel(p: int, v: int, lo: int, hi: int, bounce: int) -> int {
    if hits(p, lo, hi) {
        -scale_by(v, bounce)
    } else {
        v
    }
}

/// How one body looks after the boundary resolver: the two axes are tested
/// against the walls independently — a corner overshoot reflects both — and
/// each hit axis has its velocity reflected and its position clamped.
pub open spec fn bounds_resolved(post: MotionState, pre: MotionState, b: WorldBounds) -> bool {
    &&& post.friction == pre.friction
    &&& post.acceleration == pre.acceleration
    &&& post.position.x as int == resolved_pos(pre.position.x as int, b.min.x as int, b.max.x as int)
    &&& post.position.y as int == resolved_pos(pre.position.y as int, b.min.y as int, b.max.y as int)
    &&& post.velocity.x as int == resolved_vel(
        pre.position.x as int,
        pre.velocity.x as int,
        b.min.x as int,
        b.max.x as int,
        b.bounce_factor as int,
    )
    &&& post.velocity.y as int == resolved_vel(
        pre.position.y as int,
        pre.velocity.y as int,
        b.min.y as int,
        b.max.y as int,
        b.bounce_factor as int,
    )
}

/// Boundary resolver for one body. The check is stateless and re-evaluated
/// from scratch every tick, so a body pinned exactly on a wall reflects
/// every tick.
pub fn resolve_bounds(ms: &mut MotionState, bounds: &WorldBounds)
    requires
        bounds.wf(),
        mag(old(ms).velocity.x as int) <= MAG_LIMIT,
        mag(old(ms).velocity.y as int) <= MAG_LIMIT,
    ensures
        bounds_resolved(*final(ms), *old(ms), *bounds),
{
    if ms.position.x <= bounds.min.x || ms.position.x >= bounds.max.x {
        let scaled = mul_frac(ms.velocity.x, bounds.bounce_factor);
        ms.velocity.x = -scaled;
        ms.position.x = clamp_value(ms.position.x, bounds.min.x, bounds.max.x);
    }
    if ms.position.y <= bounds.min.y || ms.position.y >= bounds.max.y {
        let scaled = mul_frac(ms.velocity.y, bounds.bounce_factor);
        ms.velocity.y = -scaled;
        ms.position.y = clamp_value(ms.position.y, bounds.min.y, bounds.max.y);
    }
}

/// World friction system: applies the world's ambient damping to every body.
pub fn world_friction(world: &mut Vec<MotionState>, bounds: &WorldBounds, dt: i64)
    requires
        bounds.wf(),
        dt <= DT_LIMIT,
        forall|j: int|
            0 <= j < old(world)@.len() ==> in_simulation_range(#[trigger] old(world)@[j]),
    ensures
        final(world)@.len() == old(world)@.len(),
        forall|j: int|
            0 <= j < old(world)@.len() ==> world_damped(
                #[trigger] final(world)@[j],
                old(world)@[j],
                bounds.friction as int,
                dt as int,
            ),
{
    let n = world.len();
    let mut idx: usize = 0;
    while idx < n
        invariant
            n == old(world)@.len(),
            world@.len() == old(world)@.len(),
            0 <= idx <= n,
            bounds.wf(),
            dt <= DT_LIMIT,
            forall|j: int|
                0 <= j < old(world)@.len() ==> in_simulation_range(#[trigger] old(world)@[j]),
            forall|j: int|
                0 <= j < idx ==> world_damped(
                    #[trigger] world@[j],
                    old(world)@[j],
                    bounds.friction as int,
                    dt as int,
                ),
            forall|j: int| idx <= j < n ==> #[trigger] world@[j] == old(world)@[j],
        decreases n - idx,
    {
        let ms = &mut world[idx];
        apply_world_friction(ms, bounds, dt);
        idx = idx + 1;
    }
}

/// Physics integration system: one integration tick for every body.
pub fn player_physics_integration(world: &mut Vec<MotionState>, dt: i64)
    requires
        dt <= DT_LIMIT,
        forall|j: int|
            0 <= j < old(world)@.len() ==> (#[trigger] old(world)@[j]).wf() && in_simulation_range(
                old(world)@[j],
            ),
    ensures
        final(world)@.len() == old(world)@.len(),
        forall|j: int|
            0 <= j < old(world)@.len() ==> integrated(
                #[trigger] final(world)@[j],
                old(world)@[j],
                dt as int,
            ),
{
    let n = world.len();
    let mut idx: usize = 0;
    while idx < n
        invariant
            n == old(world)@.len(),
            world@.len() == old(world)@.len(),
            0 <= idx <= n,
            dt <= DT_LIMIT,
            forall|j: int|
                0 <= j < old(world)@.len() ==> (#[trigger] old(world)@[j]).wf()
                    && in_simulation_range(old(world)@[j]),
            forall|j: int|
                0 <= j < idx ==> integrated(#[trigger] world@[j], old(world)@[j], dt as int),
            forall|j: int| idx <= j < n ==> #[trigger] world@[j] == old(world)@[j],
        decreases n - idx,
    {
        let ms = &mut world[idx];
        integrate(ms, dt);
        idx = idx + 1;
    }
}

/// Boundary collision system: resolves every body against the world bounds.
pub fn boundary_collision(world: &mut Vec<MotionState>, bounds: &WorldBounds)
    requires
        bounds.wf(),
        forall|j: int|
            0 <= j < old(world)@.len() ==> mag((#[trigger] old(world)@[j]).velocity.x as int)
                <= MAG_LIMIT && mag(old(world)@[j].velocity.y as int) <= MAG_LIMIT,
    ensures
        final(world)@.len() == old(world)@.len(),
        forall|j: int|
            0 <= j < old(world)@.len() ==> bounds_resolved(
                #[trigger] final(world)@[j],
                old(world)@[j],
                *bounds,
            ),
{
    let n = world.len();
    let mut idx: usize = 0;
    while idx < n
        invariant
            n == old(world)@.len(),
            world@.len() == old(world)@.len(),
            0 <= idx <= n,
            bounds.wf(),
            forall|j: int|
                0 <= j < old(world)@.len() ==> mag((#[trigger] old(world)@[j]).velocity.x as int)
                    <= MAG_LIMIT && mag(old(world)@[j].velocity.y as int) <= MAG_LIMIT,
            forall|j: int|
                0 <= j < idx ==> bounds_resolved(#[trigger] world@[j], old(world)@[j], *bounds),
            forall|j: int| idx <= j < n ==> #[trigger] world@[j] == old(world)@[j],
        decreases n - idx,
    {
        let ms = &mut world[idx];
        resolve_bounds(ms, bounds);
        idx = idx + 1;
    }
}

} // verus!
