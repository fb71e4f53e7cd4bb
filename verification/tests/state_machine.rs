//! Tests of the phase machine: loading, starting, dying and restarting.

use flappy_core::game_state::{
    is_game_over, is_loading, is_playing, is_start_screen, GameState, GameStateType,
};
use flappy_core::units::SUBPIXELS_PER_PIXEL;
use flappy_core::world::{AssetLoadState, TickInput, Viewport, World};

fn viewport() -> Viewport {
    Viewport { width: 1280 * SUBPIXELS_PER_PIXEL, height: 720 * SUBPIXELS_PER_PIXEL }
}

fn idle() -> TickInput {
    TickInput {
        dt_ms: 0,
        jump_pressed: false,
        start_pressed: false,
        restart_pressed: false,
        assets: AssetLoadState::InProgress,
    }
}

/// Drives a fresh world to the `Playing` phase.
fn playing_world(vp: &Viewport) -> World {
    let mut w = World::new(vp);
    let loaded = TickInput { assets: AssetLoadState::Loaded, ..idle() };
    w.tick_with_gap(&loaded, vp, 0);
    let start = TickInput { start_pressed: true, ..idle() };
    w.tick_with_gap(&start, vp, 0);
    assert_eq!(w.game_state.0, GameStateType::Playing);
    w
}

#[test]
fn initial_world_is_loading_and_parked() {
    let vp = viewport();
    let w = World::new(&vp);
    assert_eq!(w.game_state.0, GameStateType::Loading);
    assert_eq!(w.score.0, 0);
    assert_eq!(w.player.position.x, 0);
    assert_eq!(w.player.position.y, 0);
    assert_eq!(w.player.mover.velocity.y, 0);
    assert_eq!(w.player.mover.acceleration.y, -588_600);
    assert!(w.player.mover.active);
    assert_eq!(w.pillars.len(), 10);
    for p in &w.pillars {
        assert!(!p.mover.active);
        assert!(!p.player_crossed);
        assert_eq!(p.position.x, vp.width);
        assert_eq!(p.mover.velocity.x, -150_000_000);
    }
    assert_eq!(w.pillar_spawner_timer.period_ms, 3000);
    assert_eq!(w.pillar_spawner_timer.elapsed_ms, 0);
}

#[test]
fn loading_finishes_to_start_screen() {
    let vp = viewport();
    let mut w = World::new(&vp);
    let loaded = TickInput { assets: AssetLoadState::Loaded, ..idle() };
    let ev = w.tick_with_gap(&loaded, &vp, 0);
    assert_eq!(w.game_state.0, GameStateType::StartScreen);
    assert_eq!(ev.loading_finished.len(), 1);
    assert_eq!(ev.state_changes.len(), 1);
    assert_eq!(ev.state_changes[0].0, GameStateType::StartScreen);
}

#[test]
fn loading_failure_never_leaves_loading() {
    let vp = viewport();
    let mut w = World::new(&vp);
    let failed = TickInput { assets: AssetLoadState::Failed, ..idle() };
    for _ in 0..5 {
        let ev = w.tick_with_gap(&failed, &vp, 0);
        assert_eq!(w.game_state.0, GameStateType::Loading);
        assert_eq!(ev.state_changes.len(), 0);
        assert_eq!(ev.loading_finished.len(), 0);
    }
}

#[test]
fn start_edge_starts_the_game() {
    let vp = viewport();
    let mut w = World::new(&vp);
    let loaded = TickInput { assets: AssetLoadState::Loaded, ..idle() };
    w.tick_with_gap(&loaded, &vp, 0);
    let start = TickInput { start_pressed: true, ..idle() };
    let ev = w.tick_with_gap(&start, &vp, 0);
    assert_eq!(w.game_state.0, GameStateType::Playing);
    assert_eq!(ev.new_games.len(), 1);
    assert_eq!(ev.state_changes.len(), 1);
    assert_eq!(ev.state_changes[0].0, GameStateType::Playing);
}

#[test]
fn start_edge_ignored_while_loading() {
    let vp = viewport();
    let mut w = World::new(&vp);
    let start = TickInput { start_pressed: true, ..idle() };
    let ev = w.tick_with_gap(&start, &vp, 0);
    assert_eq!(w.game_state.0, GameStateType::Loading);
    assert_eq!(ev.new_games.len(), 0);
    assert_eq!(ev.state_changes.len(), 0);
}

#[test]
fn falling_out_of_bounds_ends_the_game() {
    let vp = viewport();
    let mut w = playing_world(&vp);
    // ten seconds of free fall take the player far below the window
    let long_fall = TickInput { dt_ms: 10_000, ..idle() };
    let ev = w.tick_with_gap(&long_fall, &vp, 0);
    assert_eq!(w.game_state.0, GameStateType::GameOver);
    assert_eq!(ev.killed.len(), 1);
    assert_eq!(ev.state_changes.len(), 1);
    assert_eq!(ev.state_changes[0].0, GameStateType::GameOver);
}

#[test]
fn restart_in_game_over_resets_everything() {
    let vp = viewport();
    let mut w = playing_world(&vp);
    // score a point first, so the reset is visible
    w.pillars[3].mover.active = true;
    w.pillars[3].position.x = -33 * SUBPIXELS_PER_PIXEL;
    w.pillars[3].position.y = 0;
    let ev = w.tick_with_gap(&idle(), &vp, 0);
    assert_eq!(ev.crossed.len(), 1);
    assert_eq!(w.score.0, 1);
    // die
    let long_fall = TickInput { dt_ms: 10_000, ..idle() };
    w.tick_with_gap(&long_fall, &vp, 0);
    assert_eq!(w.game_state.0, GameStateType::GameOver);
    // advance the timer a little so the reset of the timer is visible too
    let restart = TickInput { restart_pressed: true, ..idle() };
    let ev = w.tick_with_gap(&restart, &vp, 0);
    assert_eq!(w.game_state.0, GameStateType::Playing);
    assert_eq!(w.score.0, 0);
    assert_eq!(w.player.position.x, 0);
    assert_eq!(w.player.position.y, 0);
    assert_eq!(w.player.mover.velocity.x, 0);
    assert_eq!(w.player.mover.velocity.y, 0);
    for p in &w.pillars {
        assert!(!p.mover.active);
        assert!(!p.player_crossed);
        assert_eq!(p.position.x, vp.width);
    }
    assert_eq!(w.pillar_spawner_timer.elapsed_ms, 0);
    assert_eq!(ev.new_games.len(), 1);
    assert_eq!(ev.state_changes.len(), 1);
    assert_eq!(ev.state_changes[0].0, GameStateType::Playing);
    // the score was 1 and is 0 again: the change is published
    assert_eq!(ev.score_updates.len(), 1);
    assert_eq!(ev.score_updates[0].0, 0);
}

fn assert_worlds_equal(a: &World, b: &World) {
    assert_eq!(a.game_state.0, b.game_state.0);
    assert_eq!(a.score.0, b.score.0);
    assert_eq!(a.player, b.player);
    assert_eq!(a.pillars, b.pillars);
    assert_eq!(a.pillar_spawner_timer, b.pillar_spawner_timer);
}

#[test]
fn restart_is_a_no_op_outside_game_over() {
    let vp = viewport();
    // in the Playing phase
    let mut with_restart = playing_world(&vp);
    let mut without = playing_world(&vp);
    let step = TickInput { dt_ms: 16, ..idle() };
    let pressed = TickInput { restart_pressed: true, ..step };
    let ev_a = with_restart.tick_with_gap(&pressed, &vp, 0);
    let ev_b = without.tick_with_gap(&step, &vp, 0);
    assert_worlds_equal(&with_restart, &without);
    assert_eq!(ev_a.new_games.len(), 0);
    assert_eq!(ev_a.state_changes.len(), ev_b.state_changes.len());

    // in the StartScreen phase
    let mut w = World::new(&vp);
    let loaded = TickInput { assets: AssetLoadState::Loaded, ..idle() };
    w.tick_with_gap(&loaded, &vp, 0);
    let restart = TickInput { restart_pressed: true, ..idle() };
    let ev = w.tick_with_gap(&restart, &vp, 0);
    assert_eq!(w.game_state.0, GameStateType::StartScreen);
    assert_eq!(ev.new_games.len(), 0);
    assert_eq!(ev.state_changes.len(), 0);

    // in the Loading phase
    let mut w = World::new(&vp);
    let ev = w.tick_with_gap(&restart, &vp, 0);
    assert_eq!(w.game_state.0, GameStateType::Loading);
    assert_eq!(ev.new_games.len(), 0);
    assert_eq!(ev.state_changes.len(), 0);
}

#[test]
fn nothing_moves_outside_playing() {
    let vp = viewport();
    let mut w = World::new(&vp);
    let loaded = TickInput { assets: AssetLoadState::Loaded, ..idle() };
    w.tick_with_gap(&loaded, &vp, 0);
    // on the start screen, time passes but nothing integrates or spawns
    let step = TickInput { dt_ms: 5000, jump_pressed: true, ..idle() };
    let ev = w.tick_with_gap(&step, &vp, 0);
    assert_eq!(w.game_state.0, GameStateType::StartScreen);
    assert_eq!(w.player.position.y, 0);
    assert_eq!(w.player.mover.velocity.y, 0);
    assert_eq!(w.pillar_spawner_timer.elapsed_ms, 0);
    for p in &w.pillars {
        assert!(!p.mover.active);
        assert_eq!(p.position.x, vp.width);
    }
    assert_eq!(ev.killed.len(), 0);
    assert_eq!(ev.crossed.len(), 0);
    assert!(!ev.pool_exhausted);
}

#[test]
fn state_helpers_report_the_phase() {
    let gs = GameState(GameStateType::Playing);
    assert!(is_playing(&gs));
    assert!(!is_game_over(&gs));
    assert!(!is_loading(&gs));
    assert!(!is_start_screen(&gs));
    let gs = GameState(GameStateType::GameOver);
    assert!(is_game_over(&gs));
    let gs = GameState(GameStateType::Loading);
    assert!(is_loading(&gs));
    let gs = GameState(GameStateType::StartScreen);
    assert!(is_start_screen(&gs));
}
