//! Integrator behaviour: acceleration application, time-scaled damping, the
//! unconditional acceleration reset, and tick-rate independence.

use cube_physics::components::MotionState;
use cube_physics::resources::WorldBounds;
use cube_physics::systems::{
    apply_world_friction, integrate, player_physics_integration, world_friction,
};

fn body(vx: i64, vy: i64, ax: i64, ay: i64, friction: i64) -> MotionState {
    let mut ms = MotionState::default();
    ms.velocity.x = vx;
    ms.velocity.y = vy;
    ms.acceleration.x = ax;
    ms.acceleration.y = ay;
    ms.friction = friction;
    ms
}

#[test]
fn integrate_applies_acceleration_then_damping() {
    // velocity (10 + 4*1) = 14, damped once keeping 500/1000: 7.
    let mut ms = body(10, 0, 4, 0, 500);
    integrate(&mut ms, 1);
    assert_eq!(ms.velocity.x, 7);
    assert_eq!(ms.velocity.y, 0);
    // position takes the damped velocity: 0 + 7*1.
    assert_eq!(ms.position.x, 7);
    assert_eq!(ms.position.y, 0);
    assert_eq!(ms.acceleration.x, 0);
    assert_eq!(ms.acceleration.y, 0);
}

#[test]
fn half_damping_halves_velocity_in_one_quantum() {
    // friction 500 (one half): initial velocity (10, 0) ends the quantum at (5, 0).
    let mut ms = body(10, 0, 0, 0, 500);
    integrate(&mut ms, 1);
    assert_eq!(ms.velocity.x, 5);
    assert_eq!(ms.velocity.y, 0);
}

#[test]
fn full_friction_stops_within_one_quantum() {
    let mut ms = body(123_456, -789, 0, 0, 1000);
    integrate(&mut ms, 1);
    assert_eq!(ms.velocity.x, 0);
    assert_eq!(ms.velocity.y, 0);
}

#[test]
fn zero_friction_keeps_velocity() {
    let mut ms = body(4321, -17, 0, 0, 0);
    integrate(&mut ms, 3);
    assert_eq!(ms.velocity.x, 4321);
    assert_eq!(ms.velocity.y, -17);
    assert_eq!(ms.position.x, 3 * 4321);
    assert_eq!(ms.position.y, 3 * -17);
}

#[test]
fn acceleration_reset_is_unconditional() {
    // A tick of no elapsed time moves nothing but still clears the force.
    let mut ms = body(10, 20, 55, -66, 950);
    integrate(&mut ms, 0);
    assert_eq!(ms.velocity.x, 10);
    assert_eq!(ms.velocity.y, 20);
    assert_eq!(ms.position.x, 0);
    assert_eq!(ms.position.y, 0);
    assert_eq!(ms.acceleration.x, 0);
    assert_eq!(ms.acceleration.y, 0);
    // A negative tick is the same safe no-op, not a fault.
    let mut ms = body(10, 20, 55, -66, 950);
    integrate(&mut ms, -5);
    assert_eq!(ms.velocity.x, 10);
    assert_eq!(ms.acceleration.x, 0);
    assert_eq!(ms.acceleration.y, 0);
}

#[test]
fn damping_convergence_over_repeated_ticks() {
    // friction 49 per quantum, no force: speed falls monotonically.
    let mut ms = body(10_000, -8_000, 0, 0, 49);
    let mut last_x = 10_000i64;
    let mut last_y = 8_000i64;
    for _ in 0..60 {
        integrate(&mut ms, 1);
        assert!(ms.velocity.x.abs() <= last_x);
        assert!(ms.velocity.y.abs() <= last_y);
        last_x = ms.velocity.x.abs();
        last_y = ms.velocity.y.abs();
    }
    assert!(last_x < 10_000);
    assert!(last_y < 8_000);
}

#[test]
fn tick_rate_independence_of_velocity_decay() {
    // One tick of sixty quanta and two ticks of thirty quanta end with the
    // same velocity, exactly.
    let once = {
        let mut ms = body(10_000, 4_000, 0, 0, 49);
        integrate(&mut ms, 60);
        ms
    };
    let twice = {
        let mut ms = body(10_000, 4_000, 0, 0, 49);
        integrate(&mut ms, 30);
        integrate(&mut ms, 30);
        ms
    };
    assert_eq!(once.velocity.x, twice.velocity.x);
    assert_eq!(once.velocity.y, twice.velocity.y);
}

#[test]
fn world_friction_damps_all_bodies() {
    let bounds = WorldBounds::default_bounds();
    // default world friction 100: one quantum keeps 900/1000.
    let mut world = vec![body(1000, -500, 7, 8, 950), body(-40, 60, 0, 0, 0)];
    world_friction(&mut world, &bounds, 1);
    assert_eq!(world[0].velocity.x, 900);
    assert_eq!(world[0].velocity.y, -450);
    assert_eq!(world[1].velocity.x, -36);
    assert_eq!(world[1].velocity.y, 54);
    // ambient damping touches nothing else
    assert_eq!(world[0].acceleration.x, 7);
    assert_eq!(world[0].position.x, 0);
    assert_eq!(world[0].friction, 950);
}

#[test]
fn apply_world_friction_ignores_entity_friction() {
    let bounds = WorldBounds::default_bounds();
    let mut ms = body(1000, 0, 0, 0, 950);
    apply_world_friction(&mut ms, &bounds, 1);
    // decays by the world's 100, not the entity's 950
    assert_eq!(ms.velocity.x, 900);
}

#[test]
fn integration_system_matches_single_step() {
    let mut world = vec![body(10, 0, 4, 0, 500), body(0, 100, 0, 0, 0)];
    player_physics_integration(&mut world, 1);
    assert_eq!(world[0].velocity.x, 7);
    assert_eq!(world[0].position.x, 7);
    assert_eq!(world[0].acceleration.x, 0);
    assert_eq!(world[1].velocity.y, 100);
    assert_eq!(world[1].position.y, 100);
}
