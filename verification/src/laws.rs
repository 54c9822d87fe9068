//! The laws of the simulation, stated over the same spec functions the
//! systems' contracts use: damping convergence, tick-rate independence,
//! diagonal normalization, and boundary reflection.

use crate::components::MotionState;
use crate::input::{accel_x, accel_y, diag_of, dir_x, dir_y, force_of, InputState};
use crate::math::{
    damp_n, lemma_damp_n_bound, lemma_damp_n_split, lemma_damp_n_strict, lemma_sqrt_floor_bounds,
    mag, scale_by, sqrt_floor, SCALE,
};
use vstd::arithmetic::div_mod::lemma_fundamental_div_mod;
use crate::resources::WorldBounds;
use crate::systems::{bounds_resolved, integrated, keep_of};
use vstd::prelude::*;

verus! {

/// Squared Euclidean magnitude of a velocity vector, in spec integers.
pub open spec fn mag_sq(x: int, y: int) -> int {
    x * x + y * y
}

/// Damping convergence: with no applied force and strictly positive
/// friction, one integration tick of any positive length never grows the
/// velocity magnitude, and strictly shrinks it while it is nonzero.
/// Repeated ticks therefore drive the magnitude monotonically toward zero.
pub proof fn lemma_damping_convergence(pre: MotionState, post: MotionState, dt: int)
    requires
        integrated(post, pre, dt),
        pre.acceleration.x == 0,
        pre.acceleration.y == 0,
        0 < pre.friction <= SCALE,
        0 < dt,
    ensures
        mag(post.velocity.x as int) <= mag(pre.velocity.x as int),
        mag(post.velocity.y as int) <= mag(pre.velocity.y as int),
        mag_sq(post.velocity.x as int, post.velocity.y as int) <= mag_sq(
            pre.velocity.x as int,
            pre.velocity.y as int,
        ),
        pre.velocity.x != 0 || pre.velocity.y != 0 ==> mag_sq(
            post.velocity.x as int,
            post.velocity.y as int,
        ) < mag_sq(pre.velocity.x as int, pre.velocity.y as int),
{
    let keep = keep_of(pre.friction as int);
    let vx = pre.velocity.x as int;
    let vy = pre.velocity.y as int;
    assert((pre.acceleration.x as int) * dt == 0) by (nonlinear_arith)
        requires
            pre.acceleration.x as int == 0,
    ;
    assert((pre.acceleration.y as int) * dt == 0) by (nonlinear_arith)
        requires
            pre.acceleration.y as int == 0,
    ;
    lemma_axis_damping(vx, keep, dt as nat);
    lemma_axis_damping(vy, keep, dt as nat);
    let px = post.velocity.x as int;
    let py = post.velocity.y as int;
    assert(px * px <= vx * vx && (vx != 0 ==> px * px < vx * vx)) by (nonlinear_arith)
        requires
            mag(px) <= mag(vx),
            vx != 0 ==> mag(px) < mag(vx),
            mag(px) == if px < 0 {
                -px
            } else {
                px
            },
            mag(vx) == if vx < 0 {
                -vx
            } else {
                vx
            },
    ;
    assert(py * py <= vy * vy && (vy != 0 ==> py * py < vy * vy)) by (nonlinear_arith)
        requires
            mag(py) <= mag(vy),
            vy != 0 ==> mag(py) < mag(vy),
            mag(py) == if py < 0 {
                -py
            } else {
                py
            },
            mag(vy) == if vy < 0 {
                -vy
            } else {
                vy
            },
    ;
}

/// Damping is monotone in elapsed time: however many further quanta — and
/// so however many further ticks — elapse, the damped value never grows its
/// magnitude back.
pub proof fn lemma_damping_monotone(v: int, keep: int, n1: nat, n2: nat)
    requires
        0 <= keep <= SCALE,
        n1 <= n2,
    ensures
        mag(damp_n(v, keep, n2)) <= mag(damp_n(v, keep, n1)),
{
    lemma_damp_n_split(v, keep, n1, (n2 - n1) as nat);
    lemma_damp_n_bound(damp_n(v, keep, n1), keep, (n2 - n1) as nat);
}

/// One axis of the convergence argument, over the damping spec itself.
proof fn lemma_axis_damping(v: int, keep: int, n: nat)
    requires
        0 <= keep < SCALE,
        n >= 1,
    ensures
        mag(damp_n(v, keep, n)) <= mag(v),
        v != 0 ==> mag(damp_n(v, keep, n)) < mag(v),
{
    lemma_damp_n_bound(v, keep, n);
    if v != 0 {
        lemma_damp_n_strict(v, keep, n);
    }
}

/// Tick-rate independence: with no applied force, one integration tick of
/// `m + n` quanta leaves exactly the velocity that a tick of `m` quanta
/// followed by a tick of `n` quanta leaves. The damping decay depends only
/// on the elapsed time, never on how the host slices it into ticks.
pub proof fn lemma_tick_rate_independence(
    pre: MotionState,
    once: MotionState,
    first: MotionState,
    twice: MotionState,
    m: int,
    n: int,
)
    requires
        pre.acceleration.x == 0,
        pre.acceleration.y == 0,
        integrated(once, pre, m + n),
        integrated(first, pre, m),
        integrated(twice, first, n),
        0 < m,
        0 < n,
    ensures
        twice.velocity.x == once.velocity.x,
        twice.velocity.y == once.velocity.y,
{
    let keep = keep_of(pre.friction as int);
    let vx = pre.velocity.x as int;
    let vy = pre.velocity.y as int;
    assert((pre.acceleration.x as int) * (m + n) == 0 && (pre.acceleration.x as int) * m == 0)
        by (nonlinear_arith)
        requires
            pre.acceleration.x as int == 0,
    ;
    assert((pre.acceleration.y as int) * (m + n) == 0 && (pre.acceleration.y as int) * m == 0)
        by (nonlinear_arith)
        requires
            pre.acceleration.y as int == 0,
    ;
    assert((first.acceleration.x as int) * n == 0 && (first.acceleration.y as int) * n == 0)
        by (nonlinear_arith)
        requires
            first.acceleration.x as int == 0,
            first.acceleration.y as int == 0,
    ;
    assert((m + n) as nat == m as nat + n as nat);
    lemma_damp_n_split(vx, keep, m as nat, n as nat);
    lemma_damp_n_split(vy, keep, m as nat, n as nat);
}

/// Diagonal normalization: when both axes are pressed, each axis gets the
/// same magnitude `k = diag_of(force)`, and the squared magnitude of the
/// whole vector brackets the squared force within one fixed-point step —
/// never the sqrt-2-times-faster vector of the raw sum.
pub proof fn lemma_diagonal_normalization(i: InputState)
    requires
        dir_x(i) != 0,
        dir_y(i) != 0,
    ensures
        mag(accel_x(i)) == diag_of(force_of(i)),
        mag(accel_y(i)) == diag_of(force_of(i)),
        2 * diag_of(force_of(i)) * diag_of(force_of(i)) <= force_of(i) * force_of(i),
        force_of(i) * force_of(i) <= 2 * (diag_of(force_of(i)) + 1) * (diag_of(force_of(i)) + 1),
{
    let f = force_of(i);
    let half = ((f * f) / 2) as nat;
    let k = diag_of(f);
    lemma_sqrt_floor_bounds(half);
    assert(f * f >= 0) by (nonlinear_arith);
    assert(k == sqrt_floor(half) as int);
    assert(k * k <= half as int) by (nonlinear_arith)
        requires
            k == sqrt_floor(half) as int,
            sqrt_floor(half) * sqrt_floor(half) <= half,
    ;
    assert((half as int) < (k + 1) * (k + 1)) by (nonlinear_arith)
        requires
            k == sqrt_floor(half) as int,
            half < (sqrt_floor(half) + 1) * (sqrt_floor(half) + 1),
    ;
    let ff = f * f;
    let e = ff / 2;
    lemma_fundamental_div_mod(ff, 2);
    assert(half as int == e);
    assert(2 * k * k <= ff) by (nonlinear_arith)
        requires
            k * k <= e,
            ff == 2 * e + ff % 2,
            0 <= ff % 2 < 2,
    ;
    assert(ff <= 2 * (k + 1) * (k + 1)) by (nonlinear_arith)
        requires
            e < (k + 1) * (k + 1),
            ff == 2 * e + ff % 2,
            0 <= ff % 2 < 2,
    ;
    assert(accel_x(i) == dir_x(i) * k);
    assert(accel_y(i) == dir_y(i) * k);
    assert(mag(dir_x(i) * k) == k && mag(dir_y(i) * k) == k) by (nonlinear_arith)
        requires
            dir_x(i) == 1 || dir_x(i) == -1,
            dir_y(i) == 1 || dir_y(i) == -1,
            k >= 0,
            mag(dir_x(i) * k) == if dir_x(i) * k < 0 {
                -(dir_x(i) * k)
            } else {
                dir_x(i) * k
            },
            mag(dir_y(i) * k) == if dir_y(i) * k < 0 {
                -(dir_y(i) * k)
            } else {
                dir_y(i) * k
            },
    ;
}

/// Boundary reflection: a body on or past the right wall, still between the
/// floor and the ceiling, ends the resolver tick clamped to the wall with
/// its X velocity scaled by the bounce factor and reversed; the Y axis is
/// untouched.
pub proof fn lemma_boundary_reflection(pre: MotionState, post: MotionState, b: WorldBounds)
    requires
        bounds_resolved(post, pre, b),
        b.wf(),
        pre.position.x >= b.max.x,
        b.min.y < pre.position.y < b.max.y,
    ensures
        post.position.x == b.max.x,
        post.velocity.x as int == -scale_by(pre.velocity.x as int, b.bounce_factor as int),
        post.position.y == pre.position.y,
        post.velocity.y == pre.velocity.y,
{
}

/// Double-axis reflection: a body past both the right wall and the ceiling
/// in the same tick has both position components clamped and both velocity
/// components reflected — never just one axis.
pub proof fn lemma_double_axis_reflection(pre: MotionState, post: MotionState, b: WorldBounds)
    requires
        bounds_resolved(post, pre, b),
        b.wf(),
        pre.position.x >= b.max.x,
        pre.position.y >= b.max.y,
    ensures
        post.position.x == b.max.x,
        post.position.y == b.max.y,
        post.velocity.x as int == -scale_by(pre.velocity.x as int, b.bounce_factor as int),
        post.velocity.y as int == -scale_by(pre.velocity.y as int, b.bounce_factor as int),
{
}

} // verus!
