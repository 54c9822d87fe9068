//! Boundary resolver behaviour and the world-bounds resource.

use cube_physics::components::{MotionState, Vec2i};
use cube_physics::resources::{WorldBounds, DEFAULT_BOUNCE_FACTOR, DEFAULT_WORLD_FRICTION};
use cube_physics::systems::{boundary_collision, resolve_bounds};

fn at(px: i64, py: i64, vx: i64, vy: i64) -> MotionState {
    let mut ms = MotionState::default();
    ms.position.x = px;
    ms.position.y = py;
    ms.velocity.x = vx;
    ms.velocity.y = vy;
    ms
}

#[test]
fn reflection_clamps_and_reverses_scaled_velocity() {
    // Past the right wall: position clamps to the wall, the X velocity is
    // scaled by the bounce factor (2000: doubled) and then reversed.
    let b = WorldBounds::default_bounds();
    let mut ms = at(590_500, 0, 700, 0);
    resolve_bounds(&mut ms, &b);
    assert_eq!(ms.position.x, 590_000);
    assert_eq!(ms.velocity.x, -1400);
    assert_eq!(ms.position.y, 0);
    assert_eq!(ms.velocity.y, 0);
}

#[test]
fn double_axis_overshoot_reflects_both_axes() {
    let b = WorldBounds::default_bounds();
    let mut ms = at(600_000, 320_000, 500, 300);
    resolve_bounds(&mut ms, &b);
    assert_eq!(ms.position.x, 590_000);
    assert_eq!(ms.position.y, 310_000);
    assert_eq!(ms.velocity.x, -1000);
    assert_eq!(ms.velocity.y, -600);
}

#[test]
fn exactly_on_the_wall_counts_as_a_hit() {
    let b = WorldBounds::default_bounds();
    let mut ms = at(590_000, 0, 100, 0);
    resolve_bounds(&mut ms, &b);
    assert_eq!(ms.position.x, 590_000);
    assert_eq!(ms.velocity.x, -200);
    // and on the low wall too
    let mut ms = at(-590_000, 0, -100, 0);
    resolve_bounds(&mut ms, &b);
    assert_eq!(ms.position.x, -590_000);
    assert_eq!(ms.velocity.x, 200);
}

#[test]
fn inside_the_rectangle_nothing_changes() {
    let b = WorldBounds::default_bounds();
    let mut ms = at(100, -200, 5_000, -6_000);
    resolve_bounds(&mut ms, &b);
    assert_eq!(ms.position.x, 100);
    assert_eq!(ms.position.y, -200);
    assert_eq!(ms.velocity.x, 5_000);
    assert_eq!(ms.velocity.y, -6_000);
}

#[test]
fn elastic_bounce_keeps_magnitude() {
    // bounce factor 1000 is perfectly elastic: the reflected component only
    // flips sign.
    let mut b = WorldBounds::default_bounds();
    b.bounce_factor = 1000;
    let mut ms = at(591_000, 0, 250, 0);
    resolve_bounds(&mut ms, &b);
    assert_eq!(ms.velocity.x, -250);
}

#[test]
fn boundary_system_resolves_every_body() {
    let b = WorldBounds::default_bounds();
    let mut world = vec![at(591_000, 0, 100, 0), at(0, -311_000, 0, -40), at(1, 2, 3, 4)];
    boundary_collision(&mut world, &b);
    assert_eq!(world[0].position.x, 590_000);
    assert_eq!(world[0].velocity.x, -200);
    assert_eq!(world[1].position.y, -310_000);
    assert_eq!(world[1].velocity.y, 80);
    assert_eq!(world[2].position.x, 1);
    assert_eq!(world[2].velocity.y, 4);
}

#[test]
fn from_window_size_centres_the_rectangle() {
    let b = WorldBounds::from_window_size(1_280_000, 720_000, 50_000);
    assert_eq!(b.min.x, -590_000);
    assert_eq!(b.min.y, -310_000);
    assert_eq!(b.max.x, 590_000);
    assert_eq!(b.max.y, 310_000);
    assert_eq!(b.friction, DEFAULT_WORLD_FRICTION);
    assert_eq!(b.bounce_factor, DEFAULT_BOUNCE_FACTOR);
}

#[test]
fn default_bounds_match_the_typical_window() {
    let b = WorldBounds::default_bounds();
    let d = WorldBounds::default();
    assert_eq!(b, d);
    assert_eq!(b.max.x, 590_000);
    assert_eq!(b.max.y, 310_000);
}

#[test]
fn contains_is_boundary_inclusive() {
    let b = WorldBounds::default_bounds();
    assert!(b.contains(Vec2i::new(0, 0)));
    assert!(b.contains(Vec2i::new(590_000, 310_000)));
    assert!(b.contains(Vec2i::new(-590_000, -310_000)));
    assert!(!b.contains(Vec2i::new(590_001, 0)));
    assert!(!b.contains(Vec2i::new(0, -310_001)));
}

#[test]
fn clamp_position_pulls_into_the_rectangle() {
    let b = WorldBounds::default_bounds();
    let p = b.clamp_position(Vec2i::new(700_000, -900_000));
    assert_eq!(p.x, 590_000);
    assert_eq!(p.y, -310_000);
    let q = b.clamp_position(Vec2i::new(12, 34));
    assert_eq!(q.x, 12);
    assert_eq!(q.y, 34);
}
