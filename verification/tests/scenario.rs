//! End-to-end tick pipeline: a body spawned at the origin is pushed right by
//! constant input for one simulated second of sixty quanta, reaches the
//! right wall, and bounces back with doubled speed.

use cube_physics::components::MotionState;
use cube_physics::input::{handle_input, InputState};
use cube_physics::resources::WorldBounds;
use cube_physics::systems::{boundary_collision, player_physics_integration};

#[test]
fn constant_push_reaches_the_wall_and_bounces() {
    let bounds = WorldBounds::default_bounds();
    assert_eq!(bounds.min.x, -590_000);
    assert_eq!(bounds.max.x, 590_000);
    assert_eq!(bounds.bounce_factor, 2000);

    let mut world = vec![MotionState::default()];
    // 49 thousandths per quantum is the sixty-quanta-per-second equivalent
    // of a 0.95-per-second damping coefficient.
    world[0].friction = 49;

    let push_right = InputState {
        up: false,
        down: false,
        left: false,
        right: true,
        shift: false,
        mouse: false,
    };

    let mut bounced = false;
    let mut prev_x = 0i64;
    for _ in 0..60 {
        handle_input(&push_right, &mut world);
        player_physics_integration(&mut world, 1);
        let overshoot = world[0].position.x >= bounds.max.x;
        let vel_before = world[0].velocity.x;
        boundary_collision(&mut world, &bounds);
        // the wall never lets the body escape
        assert!(world[0].position.x <= bounds.max.x);
        assert!(world[0].position.y == 0 && world[0].velocity.y == 0);
        if overshoot && !bounced {
            // first wall hit: clamped to the wall, velocity doubled and
            // reversed — the speed grows on the bounce
            assert_eq!(world[0].position.x, bounds.max.x);
            assert!(vel_before > 0);
            assert_eq!(world[0].velocity.x, -2 * vel_before);
            assert!(world[0].velocity.x.abs() > vel_before.abs());
            bounced = true;
        }
        if !bounced {
            // before the first hit the body keeps moving right
            assert!(world[0].position.x >= prev_x);
        }
        prev_x = world[0].position.x;
    }
    // one simulated second of this push is plenty to reach the wall
    assert!(bounced);
}
