//! Tests of the pillar pool: collision, crossing, spawning, recycling and
//! the spawn timer.

use flappy_core::game_state::GameStateType;
use flappy_core::pillars::PillarSpawnerTimer;
use flappy_core::units::SUBPIXELS_PER_PIXEL;
use flappy_core::world::{AssetLoadState, TickInput, Viewport, World};

fn viewport() -> Viewport {
    Viewport { width: 1280 * SUBPIXELS_PER_PIXEL, height: 720 * SUBPIXELS_PER_PIXEL }
}

fn idle() -> TickInput {
    TickInput {
        dt_ms: 0,
        jump_pressed: false,
        start_pressed: false,
        restart_pressed: false,
        assets: AssetLoadState::InProgress,
    }
}

fn playing_world(vp: &Viewport) -> World {
    let mut w = World::new(vp);
    let loaded = TickInput { assets: AssetLoadState::Loaded, ..idle() };
    w.tick_with_gap(&loaded, vp, 0);
    let start = TickInput { start_pressed: true, ..idle() };
    w.tick_with_gap(&start, vp, 0);
    assert_eq!(w.game_state.0, GameStateType::Playing);
    w
}

#[test]
fn player_inside_gap_survives_and_crosses_once() {
    // player at y = 0, an obstacle active at x = 0 with its gap centered at
    // y = 0: the gap is 150 tall, the player margin 23 on each side, so the
    // survivable band is -52 .. 52 and the player survives
    let vp = viewport();
    let mut w = playing_world(&vp);
    w.pillars[0].mover.active = true;
    w.pillars[0].position.x = 0;
    w.pillars[0].position.y = 0;
    let ev = w.tick_with_gap(&idle(), &vp, 0);
    assert_eq!(ev.killed.len(), 0);
    assert_eq!(ev.crossed.len(), 0);
    assert_eq!(w.game_state.0, GameStateType::Playing);
    assert!(!w.pillars[0].player_crossed);

    // once the pillar passes three quarters of the way (x below -32), a
    // single crossing fires and the score becomes 1
    w.pillars[0].position.x = -33 * SUBPIXELS_PER_PIXEL;
    let ev = w.tick_with_gap(&idle(), &vp, 0);
    assert_eq!(ev.killed.len(), 0);
    assert_eq!(ev.crossed.len(), 1);
    assert!(w.pillars[0].player_crossed);
    assert_eq!(w.score.0, 1);
    assert_eq!(ev.score_updates.len(), 1);
    assert_eq!(ev.score_updates[0].0, 1);

    // checking again does not fire a second crossing
    let ev = w.tick_with_gap(&idle(), &vp, 0);
    assert_eq!(ev.crossed.len(), 0);
    assert_eq!(w.score.0, 1);
    assert_eq!(ev.score_updates.len(), 0);
}

#[test]
fn player_outside_gap_is_killed() {
    let vp = viewport();
    let mut w = playing_world(&vp);
    w.pillars[0].mover.active = true;
    w.pillars[0].position.x = 0;
    w.pillars[0].position.y = 0;
    // the survivable band around a gap at 0 is -52 .. 52: one subpixel
    // above it is fatal
    w.player.position.y = 52 * SUBPIXELS_PER_PIXEL + 1;
    let ev = w.tick_with_gap(&idle(), &vp, 0);
    assert_eq!(ev.killed.len(), 1);
    assert_eq!(ev.crossed.len(), 0);
    assert_eq!(w.game_state.0, GameStateType::GameOver);
}

#[test]
fn gap_boundary_is_forgiving_to_the_edge() {
    let vp = viewport();
    let mut w = playing_world(&vp);
    w.pillars[0].mover.active = true;
    w.pillars[0].position.x = 0;
    w.pillars[0].position.y = 0;
    // exactly at the band's edge the player survives
    w.player.position.y = 52 * SUBPIXELS_PER_PIXEL;
    let ev = w.tick_with_gap(&idle(), &vp, 0);
    assert_eq!(ev.killed.len(), 0);
    let mut w = playing_world(&vp);
    w.pillars[0].mover.active = true;
    w.pillars[0].position.x = 0;
    w.pillars[0].position.y = 0;
    w.player.position.y = -52 * SUBPIXELS_PER_PIXEL;
    let ev = w.tick_with_gap(&idle(), &vp, 0);
    assert_eq!(ev.killed.len(), 0);
}

#[test]
fn crossing_needs_three_quarters_passed() {
    let vp = viewport();
    let mut w = playing_world(&vp);
    w.pillars[0].mover.active = true;
    w.pillars[0].position.x = -32 * SUBPIXELS_PER_PIXEL;
    w.pillars[0].position.y = 0;
    // exactly at -32 pixels the crossing has not happened yet
    let ev = w.tick_with_gap(&idle(), &vp, 0);
    assert_eq!(ev.crossed.len(), 0);
    // one subpixel further it has
    w.pillars[0].position.x = -32 * SUBPIXELS_PER_PIXEL - 1;
    let ev = w.tick_with_gap(&idle(), &vp, 0);
    assert_eq!(ev.crossed.len(), 1);
}

#[test]
fn inactive_pillar_neither_kills_nor_scores() {
    let vp = viewport();
    let mut w = playing_world(&vp);
    w.pillars[0].mover.active = false;
    w.pillars[0].position.x = 0;
    w.pillars[0].position.y = 300 * SUBPIXELS_PER_PIXEL;
    let ev = w.tick_with_gap(&idle(), &vp, 0);
    assert_eq!(ev.killed.len(), 0);
    assert_eq!(ev.crossed.len(), 0);
}

#[test]
fn pillar_past_left_edge_is_recycled() {
    let vp = viewport();
    let mut w = playing_world(&vp);
    // past -(width / 2) - (pillar width / 2) = -704 pixels
    w.pillars[2].mover.active = true;
    w.pillars[2].player_crossed = true;
    w.pillars[2].position.x = -704 * SUBPIXELS_PER_PIXEL - 1;
    w.pillars[2].position.y = 40 * SUBPIXELS_PER_PIXEL;
    w.tick_with_gap(&idle(), &vp, 0);
    assert!(!w.pillars[2].mover.active);
    assert_eq!(w.pillars[2].position.x, vp.width);
    // recycling does not touch the vertical offset
    assert_eq!(w.pillars[2].position.y, 40 * SUBPIXELS_PER_PIXEL);
}

#[test]
fn pillar_at_left_edge_is_not_recycled_yet() {
    let vp = viewport();
    let mut w = playing_world(&vp);
    w.pillars[2].mover.active = true;
    w.pillars[2].position.x = -704 * SUBPIXELS_PER_PIXEL;
    w.tick_with_gap(&idle(), &vp, 0);
    assert!(w.pillars[2].mover.active);
}

#[test]
fn spawn_timer_fires_on_the_period() {
    let mut t = PillarSpawnerTimer::new(3000);
    assert!(!t.tick(1000));
    assert!(!t.tick(1000));
    assert_eq!(t.elapsed_ms, 2000);
    assert!(t.tick(1000));
    assert_eq!(t.elapsed_ms, 0);
    // an overshoot carries into the next interval
    assert!(t.tick(4500));
    assert_eq!(t.elapsed_ms, 1500);
    assert!(!t.tick(1499));
    assert!(t.tick(1));
    assert_eq!(t.elapsed_ms, 0);
    t.reset();
    assert_eq!(t.elapsed_ms, 0);
    assert_eq!(t.period_ms, 3000);
}

#[test]
fn spawn_fills_the_pool_in_order_then_reports_exhaustion() {
    // a wide, tall viewport: over eleven spawn intervals nothing scrolls
    // back off screen and the falling player stays inside the bounds
    let vp = Viewport {
        width: 5000 * SUBPIXELS_PER_PIXEL,
        height: 1_000_000 * SUBPIXELS_PER_PIXEL,
    };
    let mut w = playing_world(&vp);
    let interval = TickInput { dt_ms: 3000, ..idle() };
    for k in 0..10 {
        let ev = w.tick_with_gap(&interval, &vp, 7 * SUBPIXELS_PER_PIXEL);
        assert!(!ev.pool_exhausted);
        // one firing activates exactly one previously inactive pillar, in
        // pool order
        for (i, p) in w.pillars.iter().enumerate() {
            assert_eq!(p.mover.active, i <= k);
        }
        assert!(!w.pillars[k].player_crossed);
        assert_eq!(w.pillars[k].position.y, 7 * SUBPIXELS_PER_PIXEL);
    }
    // all ten are active: a further firing spawns nothing and surfaces the
    // diagnostic
    let ev = w.tick_with_gap(&interval, &vp, 0);
    assert!(ev.pool_exhausted);
    for p in &w.pillars {
        assert!(p.mover.active);
    }
}

#[test]
fn spawned_pillar_sits_just_off_the_right_edge() {
    let vp = viewport();
    let mut w = playing_world(&vp);
    let interval = TickInput { dt_ms: 3000, ..idle() };
    let ev = w.tick_with_gap(&interval, &vp, -100 * SUBPIXELS_PER_PIXEL);
    assert!(!ev.pool_exhausted);
    assert!(w.pillars[0].mover.active);
    // x = width / 2 + pillar width / 2 = 640 + 64 pixels
    assert_eq!(w.pillars[0].position.x, 704 * SUBPIXELS_PER_PIXEL);
    assert_eq!(w.pillars[0].position.y, -100 * SUBPIXELS_PER_PIXEL);
}

#[test]
fn random_spawn_offset_stays_in_the_declared_band() {
    // through the public tick, the drawn offset must lie within
    // +- (height - 100) / 2; with a 720-tall window that is +- 310 pixels
    let vp = viewport();
    for _ in 0..20 {
        let mut w = playing_world(&vp);
        let interval = TickInput { dt_ms: 3000, ..idle() };
        let ev = w.tick(&interval, &vp);
        assert!(!ev.pool_exhausted);
        assert!(w.pillars[0].mover.active);
        assert_eq!(w.pillars[0].position.x, 704 * SUBPIXELS_PER_PIXEL);
        let y = w.pillars[0].position.y;
        assert!(y >= -310 * SUBPIXELS_PER_PIXEL);
        assert!(y <= 310 * SUBPIXELS_PER_PIXEL);
    }
}

#[test]
fn no_spawn_before_the_interval_completes() {
    // tall enough that two seconds of free fall stay inside the bounds
    let vp = Viewport {
        width: 1280 * SUBPIXELS_PER_PIXEL,
        height: 100_000 * SUBPIXELS_PER_PIXEL,
    };
    let mut w = playing_world(&vp);
    let step = TickInput { dt_ms: 1000, ..idle() };
    w.tick_with_gap(&step, &vp, 0);
    w.tick_with_gap(&step, &vp, 0);
    for p in &w.pillars {
        assert!(!p.mover.active);
    }
    assert_eq!(w.pillar_spawner_timer.elapsed_ms, 2000);
}
