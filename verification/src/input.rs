//! The input mapper: turns one snapshot of pressed logical directions and
//! modifiers into the acceleration written into a body's motion state.

use crate::components::{MotionState, Vec2i};
use crate::math::{isqrt, lemma_sqrt_floor_bounds, sqrt_floor};
use vstd::prelude::*;

verus! {

/// Base acceleration from input, in sub-units per quantum squared.
pub const INPUT_FORCE: i64 = 3000;

/// Factor one held modifier applies to the force; the two modifiers compose
/// multiplicatively when both are held.
pub const BOOST_FACTOR: i64 = 3;

/// Pressed-state of the four logical directions plus the two modifiers, for
/// one tick. The host ORs all key aliases of one direction into its flag, so
/// a direction contributes one unit however many of its keys are down.
#[derive(Clone, Copy, Debug, PartialEq, Eq, Structural)]
pub struct InputState {
    pub up: bool,
    pub down: bool,
    pub left: bool,
    pub right: bool,
    /// Either shift key.
    pub shift: bool,
    /// The primary mouse button.
    pub mouse: bool,
}

/// Signed unit contribution of one axis: opposite directions cancel.
pub open spec fn axis_dir(pos: bool, neg: bool) -> int {
    (if pos {
        1int
    } else {
        0int
    }) - (if neg {
        1int
    } else {
        0int
    })
}

/// Raw X direction of a snapshot.
pub open spec fn dir_x(i: InputState) -> int {
    axis_dir(i.right, i.left)
}

/// Raw Y direction of a snapshot.
pub open spec fn dir_y(i: InputState) -> int {
    axis_dir(i.up, i.down)
}

/// The input force once held modifiers are applied.
pub open spec fn force_of(i: InputState) -> int {
    (INPUT_FORCE as int) * (if i.shift {
        BOOST_FACTOR as int
    } else {
        1int
    }) * (if i.mouse {
        BOOST_FACTOR as int
    } else {
        1int
    })
}

/// Per-axis magnitude of a diagonal acceleration of total magnitude `f`:
/// the floor of `f / sqrt(2)`, so that the diagonal is never faster than an
/// axis-aligned push of the same force.
pub open spec fn diag_of(f: int) -> int {
    sqrt_floor(((f * f) / 2) as nat) as int
}

/// X component of the acceleration a snapshot produces.
pub open spec fn accel_x(i: InputState) -> int {
    if dir_x(i) == 0 {
        0
    } else if dir_y(i) == 0 {
        dir_x(i) * force_of(i)
    } else {
        dir_x(i) * diag_of(force_of(i))
    }
}

/// Y component of the acceleration a snapshot produces.
pub open spec fn accel_y(i: InputState) -> int {
    if dir_y(i) == 0 {
        0
    } else if dir_x(i) == 0 {
        dir_y(i) * force_of(i)
    } else {
        dir_y(i) * diag_of(force_of(i))
    }
}

/// How one body looks after the input mapper ran on it: the acceleration is
/// overwritten — not added to — and everything else is untouched.
pub open spec fn input_applied(post: MotionState, pre: MotionState, i: InputState) -> bool {
    &&& post.acceleration.x as int == accel_x(i)
    &&& post.acceleration.y as int == accel_y(i)
    &&& post.position == pre.position
    &&& post.velocity == pre.velocity
    &&& post.friction == pre.friction
}

/// Maps one snapshot to an acceleration vector: each axis contributes a
/// signed unit, a nonzero vector is normalized to the force's magnitude
/// before scaling, and no pressed key at all yields the zero vector.
pub fn input_acceleration(input: &InputState) -> (a: Vec2i)
    ensures
        a.x as int == accel_x(*input),
        a.y as int == accel_y(*input),
{
    let dx: i64 = (if input.right {
        1
    } else {
        0
    }) - (if input.left {
        1
    } else {
        0
    });
    let dy: i64 = (if input.up {
        1
    } else {
        0
    }) - (if input.down {
        1
    } else {
        0
    });
    let mut force: i64 = INPUT_FORCE;
    if input.shift {
        force = force * BOOST_FACTOR;
    }
    if input.mouse {
        force = force * BOOST_FACTOR;
    }
    if dx == 0 && dy == 0 {
        Vec2i { x: 0, y: 0 }
    } else if dx == 0 {
        Vec2i { x: 0, y: if dy == 1 { force } else { -force } }
    } else if dy == 0 {
        Vec2i { x: if dx == 1 { force } else { -force }, y: 0 }
    } else {
        proof {
            assert((force as int) * (force as int) <= 729_000_000) by (nonlinear_arith)
                requires
                    0 <= force as int <= 27_000,
            ;
        }
        let half_sq = ((force as u64) * (force as u64)) / 2;
        let q = isqrt(half_sq);
        proof {
            lemma_sqrt_floor_bounds(half_sq as nat);
            assert(q as int <= 63_245) by (nonlinear_arith)
                requires
                    (q as int) * (q as int) <= 4_000_000_000,
                    0 <= q as int,
            ;
        }
        let k = q as i64;
        Vec2i {
            x: if dx == 1 {
                k
            } else {
                -k
            },
            y: if dy == 1 {
                k
            } else {
                -k
            },
        }
    }
}

/// Overwrites the body's acceleration with the mapped input force.
pub fn apply_input(ms: &mut MotionState, input: &InputState)
    ensures
        input_applied(*final(ms), *old(ms), *input),
{
    let a = input_acceleration(input);
    ms.acceleration = a;
}

/// Input handling system: writes the mapped acceleration of one snapshot
/// into every controlled body.
pub fn handle_input(input: &InputState, world: &mut Vec<MotionState>)
    ensures
        final(world)@.len() == old(world)@.len(),
        forall|j: int|
            0 <= j < old(world)@.len() ==> input_applied(
                #[trigger] final(world)@[j],
                old(world)@[j],
                *input,
            ),
{
    let n = world.len();
    let mut idx: usize = 0;
    while idx < n
        invariant
            n == old(world)@.len(),
            world@.len() == old(world)@.len(),
            0 <= idx <= n,
            forall|j: int| 0 <= j < idx ==> input_applied(#[trigger] world@[j], old(world)@[j], *input),
            forall|j: int| idx <= j < n ==> #[trigger] world@[j] == old(world)@[j],
        decreases n - idx,
    {
        let ms = &mut world[idx];
        apply_input(ms, input);
        idx = idx + 1;
    }
}

} // verus!
