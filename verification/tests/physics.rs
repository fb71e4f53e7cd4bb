//! Tests of the kinematic integrator, the jump impulse and the bounds
//! check.

use flappy_core::game_state::GameStateType;
use flappy_core::player::check_bounds;
use flappy_core::units::{advance, Vec2i, SUBPIXELS_PER_PIXEL};
use flappy_core::world::{AssetLoadState, TickInput, Viewport, World};

fn viewport() -> Viewport {
    // a very tall window, so free-fall tests stay inside the play bounds
    Viewport { width: 1280 * SUBPIXELS_PER_PIXEL, height: 100_000 * SUBPIXELS_PER_PIXEL }
}

fn idle() -> TickInput {
    TickInput {
        dt_ms: 0,
        jump_pressed: false,
        start_pressed: false,
        restart_pressed: false,
        assets: AssetLoadState::InProgress,
    }
}

fn playing_world(vp: &Viewport) -> World {
    let mut w = World::new(vp);
    let loaded = TickInput { assets: AssetLoadState::Loaded, ..idle() };
    w.tick_with_gap(&loaded, vp, 0);
    let start = TickInput { start_pressed: true, ..idle() };
    w.tick_with_gap(&start, vp, 0);
    assert_eq!(w.game_state.0, GameStateType::Playing);
    w
}

#[test]
fn advance_is_exact_and_saturates() {
    assert_eq!(advance(5, 3, 10), 35);
    assert_eq!(advance(-5, -3, 10), -35);
    assert_eq!(advance(0, 0, u32::MAX), 0);
    assert_eq!(advance(i64::MAX, 1, 1), i64::MAX);
    assert_eq!(advance(i64::MIN, -1, 1), i64::MIN);
    assert_eq!(advance(i64::MAX - 10, 1, 7), i64::MAX - 3);
}

#[test]
fn one_second_of_gravity_integrates_exactly() {
    let vp = viewport();
    let mut w = playing_world(&vp);
    let one_second = TickInput { dt_ms: 1000, ..idle() };
    w.tick_with_gap(&one_second, &vp, 0);
    // velocity: 9.81 * 60 pixels per second of gravity, after one second
    assert_eq!(w.player.mover.velocity.y, -588_600_000);
    // position: the new velocity applied for the whole second
    assert_eq!(w.player.position.y, -588_600_000_000);
    assert_eq!(w.player.position.x, 0);
    assert_eq!(w.player.mover.velocity.x, 0);
}

#[test]
fn jump_overwrites_vertical_velocity() {
    let vp = viewport();
    let mut w = playing_world(&vp);
    // build up a large downward velocity first
    let fall = TickInput { dt_ms: 2000, ..idle() };
    w.tick_with_gap(&fall, &vp, 0);
    assert_eq!(w.player.mover.velocity.y, -1_177_200_000);
    // a tap resets the climb speed regardless of the current fall speed
    let jump = TickInput { jump_pressed: true, ..idle() };
    w.tick_with_gap(&jump, &vp, 0);
    assert_eq!(w.player.mover.velocity.y, 300_000_000);
}

#[test]
fn jump_is_ignored_outside_playing() {
    let vp = viewport();
    let mut w = World::new(&vp);
    let jump = TickInput { jump_pressed: true, ..idle() };
    w.tick_with_gap(&jump, &vp, 0);
    assert_eq!(w.player.mover.velocity.y, 0);
}

#[test]
fn check_bounds_is_a_hard_boundary() {
    let h = 720 * SUBPIXELS_PER_PIXEL;
    assert!(!check_bounds(0, h));
    assert!(!check_bounds(360 * SUBPIXELS_PER_PIXEL, h));
    assert!(check_bounds(360 * SUBPIXELS_PER_PIXEL + 1, h));
    assert!(!check_bounds(-360 * SUBPIXELS_PER_PIXEL, h));
    assert!(check_bounds(-360 * SUBPIXELS_PER_PIXEL - 1, h));
}

#[test]
fn check_bounds_is_idempotent() {
    // re-checking an unchanged position can never change the verdict
    let h = 720 * SUBPIXELS_PER_PIXEL;
    let y = 361 * SUBPIXELS_PER_PIXEL;
    let first = check_bounds(y, h);
    let second = check_bounds(y, h);
    assert_eq!(first, second);
    assert!(first);
}

#[test]
fn single_boundary_crossing_emits_one_kill() {
    let vp = Viewport { width: 1280 * SUBPIXELS_PER_PIXEL, height: 720 * SUBPIXELS_PER_PIXEL };
    let mut w = playing_world(&vp);
    // place the player just past the upper bound; no pillar is active, so
    // the only possible kill is the bounds kill, and it fires exactly once
    w.player.position.y = 361 * SUBPIXELS_PER_PIXEL;
    let ev = w.tick_with_gap(&idle(), &vp, 0);
    assert_eq!(ev.killed.len(), 1);
    assert_eq!(w.game_state.0, GameStateType::GameOver);
}

#[test]
fn player_leaves_bounds_for_one_tick_before_the_kill() {
    // the boundary is not a clamp: the position keeps integrating, only
    // the phase ends the game
    let vp = Viewport { width: 1280 * SUBPIXELS_PER_PIXEL, height: 720 * SUBPIXELS_PER_PIXEL };
    let mut w = playing_world(&vp);
    let long_fall = TickInput { dt_ms: 3_000, ..idle() };
    w.tick_with_gap(&long_fall, &vp, 0);
    assert_eq!(w.game_state.0, GameStateType::GameOver);
    assert!(w.player.position.y < -360 * SUBPIXELS_PER_PIXEL);
    assert_eq!(w.player.position, Vec2i { x: 0, y: -5_297_400_000_000 });
}
