//! The simulation context and the per-tick driver.
//!
//! A [`World`] bundles the shared state that the subsystems mutate: the
//! current phase, the score, the player, the pillar pool and the spawn
//! timer. The host calls [`World::tick`] once per frame with the elapsed
//! time, the input edges and the viewport; the tick runs the sub-phases in
//! their fixed order — physics, input, decision logic, event reactions —
//! and returns the per-tick event queues for the host's audio and UI to
//! react to. The whole transition is captured by the mathematical function
//! [`tick_spec`], which the driver is proved to implement exactly, up to
//! the randomly drawn spawn offset.

use crate::game_state::{
    finish_loading_system, game_over_system, is_game_over, is_loading, is_playing,
    is_start_screen, start_new_system, FinishLoadingEvent, GameState, GameStateType,
    OnGameStateChangedEvent, StartNewGameEvent,
};
use crate::pillars::{
    cross_count, integrate_pillars, kill_count, lemma_first_inactive_from_range,
    lemma_pillar_ops_preserve_wf,
    mover_window_left_despawn_bound_system, pillar_despawned, pillar_integrated, pillar_new_game,
    pillar_parked, pillar_spawn_system, pillar_wf, player_pillar_check_system, pool_after_check,
    pool_spawned, pool_wf, setup_pillars, timer_fires, timer_reset, timer_ticked, timer_wf,
    Pillar, PillarSpawnerTimer, NEXT_PILLAR_SPAWN_TIME_MS, PILLAR_POOL_SIZE, PILLAR_SPEED,
    PILLAR_WIDTH, SPAWN_MARGIN,
};
use crate::player::{
    integrate_player, out_of_bounds, player_after_input, player_bounds_check_system,
    player_input_system, player_integrated, player_new_game, player_spawned, setup_player, Player,
    PlayerCrossedPillarEvent, PlayerKilledEvent, PLAYER_GRAVITY,
};
use crate::rng::random_in_range;
use crate::score::{
    score_event_handler_system, score_stepped, scoring_system, IncreaseScoreEvent, Score,
    ScoreUpdatedEvent,
};
use crate::units::{Vec2i, MAX_WINDOW_DIM};
use vstd::prelude::*;

verus! {

/// The window's dimensions in subpixels, treated as a read-only per-tick
/// query.
#[derive(Clone, Copy, Debug, PartialEq, Eq, Structural)]
pub struct Viewport {
    pub width: i64,
    pub height: i64,
}

/// The window sizes the simulation accepts: positive, no larger than
/// [`MAX_WINDOW_DIM`] on either axis, and tall enough to leave room for the
/// spawn placement formula `(height - SPAWN_MARGIN) / 2`.
pub open spec fn viewport_wf(vp: Viewport) -> bool {
    &&& 0 < vp.width <= MAX_WINDOW_DIM
    &&& SPAWN_MARGIN <= vp.height <= MAX_WINDOW_DIM
}

/// Tests a viewport against the sizes the simulation accepts.
pub fn check_viewport(vp: &Viewport) -> (r: bool)
    ensures
        r == viewport_wf(*vp),
{
    0 < vp.width && vp.width <= MAX_WINDOW_DIM && SPAWN_MARGIN <= vp.height && vp.height
        <= MAX_WINDOW_DIM
}

/// Lowest vertical gap offset a spawn may draw.
pub open spec fn spawn_gap_low(vp: Viewport) -> i64 {
    (-((vp.height - SPAWN_MARGIN) / 2)) as i64
}

/// Highest vertical gap offset a spawn may draw.
pub open spec fn spawn_gap_high(vp: Viewport) -> i64 {
    ((vp.height - SPAWN_MARGIN) / 2) as i64
}

/// What the host reports about asset loading.
#[derive(Clone, Copy, Debug, PartialEq, Eq, Structural)]
pub enum AssetLoadState {
    InProgress,
    Loaded,
    Failed,
}

/// Everything the host hands the simulation for one tick: the elapsed time
/// and the edge-triggered inputs. `start_pressed` is the start-screen start
/// edge, `restart_pressed` the game-over restart edge; each is consulted
/// only in its phase.
#[derive(Clone, Copy, Debug, PartialEq, Eq, Structural)]
pub struct TickInput {
    pub dt_ms: u32,
    pub jump_pressed: bool,
    pub start_pressed: bool,
    pub restart_pressed: bool,
    pub assets: AssetLoadState,
}

/// The typed event queues one tick fills, drained by the host after the
/// tick. Events not consumed this tick are gone: queues start empty every
/// tick.
pub struct TickEvents {
    pub state_changes: Vec<OnGameStateChangedEvent>,
    pub new_games: Vec<StartNewGameEvent>,
    pub loading_finished: Vec<FinishLoadingEvent>,
    pub killed: Vec<PlayerKilledEvent>,
    pub crossed: Vec<PlayerCrossedPillarEvent>,
    pub score_increases: Vec<IncreaseScoreEvent>,
    pub score_updates: Vec<ScoreUpdatedEvent>,
    pub pool_exhausted: bool,
}

/// Mathematical content of [`TickEvents`]: the payload-free queues count,
/// the payload-carrying queues keep their payloads in order.
#[verifier::ext_equal]
pub ghost struct TickEventsModel {
    pub state_changes: Seq<GameStateType>,
    pub new_games: nat,
    pub loading_finished: nat,
    pub killed: nat,
    pub crossed: nat,
    pub score_increases: nat,
    pub score_updates: Seq<u32>,
    pub pool_exhausted: bool,
}

impl View for TickEvents {
    type V = TickEventsModel;

    open spec fn view(&self) -> TickEventsModel {
        TickEventsModel {
            state_changes: self.state_changes@.map_values(|e: OnGameStateChangedEvent| e.0),
            new_games: self.new_games@.len(),
            loading_finished: self.loading_finished@.len(),
            killed: self.killed@.len(),
            crossed: self.crossed@.len(),
            score_increases: self.score_increases@.len(),
            score_updates: self.score_updates@.map_values(|e: ScoreUpdatedEvent| e.0),
            pool_exhausted: self.pool_exhausted,
        }
    }
}

/// The model of freshly created, empty queues.
pub open spec fn empty_events() -> TickEventsModel {
    TickEventsModel {
        state_changes: Seq::empty(),
        new_games: 0,
        loading_finished: 0,
        killed: 0,
        crossed: 0,
        score_increases: 0,
        score_updates: Seq::empty(),
        pool_exhausted: false,
    }
}

impl TickEvents {
    /// Creates empty queues for one tick.
    pub fn new() -> (ev: TickEvents)
        ensures
            ev@ == empty_events(),
            ev.state_changes@ == Seq::<OnGameStateChangedEvent>::empty(),
            ev.new_games@ == Seq::<StartNewGameEvent>::empty(),
            ev.loading_finished@ == Seq::<FinishLoadingEvent>::empty(),
            ev.killed@ == Seq::<PlayerKilledEvent>::empty(),
            ev.crossed@ == Seq::<PlayerCrossedPillarEvent>::empty(),
            ev.score_increases@ == Seq::<IncreaseScoreEvent>::empty(),
            ev.score_updates@ == Seq::<ScoreUpdatedEvent>::empty(),
            ev.pool_exhausted == false,
    {
        let ev = TickEvents {
            state_changes: Vec::new(),
            new_games: Vec::new(),
            loading_finished: Vec::new(),
            killed: Vec::new(),
            crossed: Vec::new(),
            score_increases: Vec::new(),
            score_updates: Vec::new(),
            pool_exhausted: false,
        };
        proof {
            assert(ev@ =~= empty_events());
        }
        ev
    }
}

/// The simulation context: all shared state, owned by the driver and
/// mutated in place by exactly one sub-phase per tick.
pub struct World {
    pub game_state: GameState,
    pub score: Score,
    pub player: Player,
    pub pillars: Vec<Pillar>,
    pub pillar_spawner_timer: PillarSpawnerTimer,
}

/// Mathematical content of a [`World`].
#[verifier::ext_equal]
pub ghost struct WorldModel {
    pub phase: GameStateType,
    pub score: u32,
    pub player: Player,
    pub pillars: Seq<Pillar>,
    pub timer: PillarSpawnerTimer,
}

impl View for World {
    type V = WorldModel;

    open spec fn view(&self) -> WorldModel {
        WorldModel {
            phase: self.game_state.0,
            score: self.score.0,
            player: self.player,
            pillars: self.pillars@,
            timer: self.pillar_spawner_timer,
        }
    }
}

/// The world invariant: a well-formed pool and timer, and a player that is
/// always active with constant downward gravity. Constructors establish it
/// and every tick preserves it.
pub open spec fn world_wf(w: WorldModel) -> bool {
    &&& pool_wf(w.pillars)
    &&& w.player.mover.active
    &&& w.player.mover.acceleration == (Vec2i { x: 0, y: (-PLAYER_GRAVITY) as i64 })
    &&& timer_wf(w.timer)
}

/// Tests the world invariant, for hosts that build or patch a [`World`] by
/// hand rather than through [`World::new`] and [`World::tick`].
pub fn check_world(w: &World) -> (r: bool)
    ensures
        r == world_wf(w@),
{
    let mut pillars_ok = true;
    let mut i: usize = 0;
    while i < w.pillars.len()
        invariant
            i <= w.pillars@.len(),
            pillars_ok == forall|j: int| 0 <= j < i ==> pillar_wf(#[trigger] w.pillars@[j]),
        decreases w.pillars@.len() - i,
    {
        let p = &w.pillars[i];
        let ok = p.mover.velocity.x == -PILLAR_SPEED && p.mover.velocity.y == 0
            && p.mover.acceleration.x == 0 && p.mover.acceleration.y == 0
            && p.despawn_bound.object_width == PILLAR_WIDTH;
        proof {
            assert(ok == pillar_wf(w.pillars@[i as int]));
        }
        pillars_ok = pillars_ok && ok;
        i += 1;
    }
    pillars_ok = pillars_ok && w.pillars.len() == PILLAR_POOL_SIZE;
    let player_ok = w.player.mover.active && w.player.mover.acceleration.x == 0
        && w.player.mover.acceleration.y == -PLAYER_GRAVITY;
    let timer_ok = 0 < w.pillar_spawner_timer.period_ms && w.pillar_spawner_timer.elapsed_ms
        < w.pillar_spawner_timer.period_ms;
    pillars_ok && player_ok && timer_ok
}

/// The world as process start creates it: loading, scoreless, the player
/// freshly spawned, every pillar parked and the spawn timer at zero.
pub open spec fn initial_world(vp: Viewport) -> WorldModel {
    WorldModel {
        phase: GameStateType::Loading,
        score: 0,
        player: player_spawned(),
        pillars: Seq::new(PILLAR_POOL_SIZE as nat, |i: int| pillar_parked(vp.width, 0)),
        timer: PillarSpawnerTimer { period_ms: NEXT_PILLAR_SPAWN_TIME_MS, elapsed_ms: 0 },
    }
}

impl World {
    /// Creates the simulation in its initial state for the given viewport.
    pub fn new(viewport: &Viewport) -> (w: World)
        requires
            viewport_wf(*viewport),
        ensures
            w@ == initial_world(*viewport),
            world_wf(w@),
    {
        let w = World {
            game_state: GameState(GameStateType::Loading),
            score: Score(0),
            player: setup_player(),
            pillars: setup_pillars(viewport.width),
            pillar_spawner_timer: PillarSpawnerTimer::new(NEXT_PILLAR_SPAWN_TIME_MS),
        };
        proof {
            assert(w@ =~= initial_world(*viewport));
        }
        w
    }
}

/// The world after the physics sub-phase: while the game is playing, the
/// player and every active pillar integrate, then the pool's left-edge
/// sweep runs; in any other phase nothing moves.
pub open spec fn world_after_physics(w: WorldModel, dt_ms: u32, vp: Viewport) -> WorldModel {
    if w.phase is Playing {
        WorldModel {
            phase: w.phase,
            score: w.score,
            player: player_integrated(w.player, dt_ms),
            pillars: w.pillars.map_values(
                |p: Pillar| pillar_despawned(pillar_integrated(p, dt_ms), vp.width),
            ),
            timer: w.timer,
        }
    } else {
        w
    }
}

/// `n` copies of one phase, as published by a reaction that drains a queue
/// of `n` events.
pub open spec fn repeated_phase(phase: GameStateType, n: nat) -> Seq<GameStateType> {
    Seq::new(n, |i: int| phase)
}

/// A whole tick's result: the next world and the events the tick emitted.
#[verifier::ext_equal]
pub ghost struct TickOutcome {
    pub world: WorldModel,
    pub events: TickEventsModel,
}

/// The mathematical transition of one tick, given the vertical gap offset
/// `gap_y` that a due spawn would use. The sub-phases run in their fixed
/// order on the pre-tick phase `w.phase`:
///
/// 1. physics — integration and the left-edge sweep, only while playing;
/// 2. input — a jump edge overwrites the player's vertical velocity;
/// 3. decision logic — the bounds check, the per-pillar collision or
///    crossing verdicts, the spawn timer with at most one spawn, the
///    restart edge (consulted only in `GameOver`), the start edge
///    (consulted only in `StartScreen`) and the finished-loading signal
///    (consulted only in `Loading`);
/// 4. reactions — the queued events move the phase, reset the world for a
///    new game and update the score, publishing every phase change and any
///    actual score change.
pub open spec fn tick_spec(w: WorldModel, inp: TickInput, vp: Viewport, gap_y: i64) -> TickOutcome {
    let playing = w.phase is Playing;
    // physics, then input
    let w1 = world_after_physics(w, inp.dt_ms, vp);
    let moved_player = player_after_input(w1.player, playing, inp.jump_pressed);
    let player_y = moved_player.position.y;
    // decision logic
    let bounds_kills: nat = if playing && out_of_bounds(player_y, vp.height) {
        1
    } else {
        0
    };
    let pillar_kills: nat = if playing {
        kill_count(w1.pillars, player_y)
    } else {
        0
    };
    let crossings: nat = if playing {
        cross_count(w1.pillars, player_y)
    } else {
        0
    };
    let checked = if playing {
        pool_after_check(w1.pillars, player_y)
    } else {
        w1.pillars
    };
    let spawn_due = playing && timer_fires(w.timer, inp.dt_ms);
    let ticked_timer = if playing {
        timer_ticked(w.timer, inp.dt_ms)
    } else {
        w.timer
    };
    let spawned = if spawn_due {
        pool_spawned(checked, vp.width, gap_y)
    } else {
        (checked, false)
    };
    let start_new = (w.phase is GameOver && inp.restart_pressed) || (w.phase is StartScreen
        && inp.start_pressed);
    let loading_done = w.phase is Loading && inp.assets is Loaded;
    let kills: nat = bounds_kills + pillar_kills;
    // reactions
    let phase = if loading_done {
        GameStateType::StartScreen
    } else if start_new {
        GameStateType::Playing
    } else if kills > 0 {
        GameStateType::GameOver
    } else {
        w.phase
    };
    let new_score = score_stepped(Score(w.score), crossings, start_new).0;
    TickOutcome {
        world: WorldModel {
            phase,
            score: new_score,
            player: if start_new {
                player_new_game(moved_player)
            } else {
                moved_player
            },
            pillars: if start_new {
                spawned.0.map_values(|p: Pillar| pillar_new_game(p, vp.width))
            } else {
                spawned.0
            },
            timer: if start_new {
                timer_reset(ticked_timer)
            } else {
                ticked_timer
            },
        },
        events: TickEventsModel {
            state_changes: repeated_phase(
                GameStateType::StartScreen,
                if loading_done {
                    1nat
                } else {
                    0nat
                },
            ) + repeated_phase(
                GameStateType::Playing,
                if start_new {
                    1nat
                } else {
                    0nat
                },
            ) + repeated_phase(GameStateType::GameOver, kills),
            new_games: if start_new {
                1
            } else {
                0
            },
            loading_finished: if loading_done {
                1
            } else {
                0
            },
            killed: kills,
            crossed: crossings,
            score_increases: crossings,
            score_updates: if new_score != w.score {
                seq![new_score]
            } else {
                Seq::empty()
            },
            pool_exhausted: spawned.1,
        },
    }
}

/// A tick keeps the world well-formed: no sub-phase touches a pillar's
/// velocity, acceleration or sweep width, the player's gravity or activity,
/// or the timer's period, and a ticked timer stays inside its period.
pub proof fn lemma_tick_preserves_wf(w: WorldModel, inp: TickInput, vp: Viewport, gap_y: i64)
    requires
        world_wf(w),
        viewport_wf(vp),
    ensures
        world_wf(tick_spec(w, inp, vp, gap_y).world),
{
    let playing = w.phase is Playing;
    let w1 = world_after_physics(w, inp.dt_ms, vp);
    let moved_player = player_after_input(w1.player, playing, inp.jump_pressed);
    let player_y = moved_player.position.y;
    assert forall|i: int| 0 <= i < w1.pillars.len() implies pillar_wf(
        #[trigger] w1.pillars[i],
    ) by {
        lemma_pillar_ops_preserve_wf(w.pillars[i], inp.dt_ms, vp.width, player_y, gap_y);
        lemma_pillar_ops_preserve_wf(
            pillar_integrated(w.pillars[i], inp.dt_ms),
            inp.dt_ms,
            vp.width,
            player_y,
            gap_y,
        );
    }
    let checked = if playing {
        pool_after_check(w1.pillars, player_y)
    } else {
        w1.pillars
    };
    assert forall|i: int| 0 <= i < checked.len() implies pillar_wf(#[trigger] checked[i]) by {
        lemma_pillar_ops_preserve_wf(w1.pillars[i], inp.dt_ms, vp.width, player_y, gap_y);
    }
    let spawn_due = playing && timer_fires(w.timer, inp.dt_ms);
    let spawned = if spawn_due {
        pool_spawned(checked, vp.width, gap_y)
    } else {
        (checked, false)
    };
    lemma_first_inactive_from_range(checked, 0);
    assert forall|i: int| 0 <= i < spawned.0.len() implies pillar_wf(#[trigger] spawned.0[i]) by {
        lemma_pillar_ops_preserve_wf(checked[i], inp.dt_ms, vp.width, player_y, gap_y);
    }
    let final_pillars = tick_spec(w, inp, vp, gap_y).world.pillars;
    assert forall|i: int| 0 <= i < final_pillars.len() implies pillar_wf(
        #[trigger] final_pillars[i],
    ) by {
        lemma_pillar_ops_preserve_wf(spawned.0[i], inp.dt_ms, vp.width, player_y, gap_y);
    }
}

impl World {
    /// Advances the simulation by one tick, using `gap_y` as the vertical
    /// gap offset of a spawn in case one is due. The sub-phases run in
    /// their fixed order — physics, input, decision logic, event reactions
    /// — and the returned queues hold exactly the events this tick
    /// emitted. The whole transition equals [`tick_spec`].
    pub fn tick_with_gap(&mut self, input: &TickInput, viewport: &Viewport, gap_y: i64) -> (events:
        TickEvents)
        requires
            world_wf(old(self)@),
            viewport_wf(*viewport),
        ensures
            final(self)@ == tick_spec(old(self)@, *input, *viewport, gap_y).world,
            events@ == tick_spec(old(self)@, *input, *viewport, gap_y).events,
            world_wf(final(self)@),
    {
        let ghost w0 = self@;
        let mut events = TickEvents::new();
        let playing = is_playing(&self.game_state);

        // physics: integrate the active bodies, then sweep the left edge
        if playing {
            self.player = integrate_player(self.player, input.dt_ms);
            integrate_pillars(&mut self.pillars, input.dt_ms);
            proof {
                assert forall|i: int| 0 <= i < self.pillars@.len() implies (#[trigger] self
                    .pillars@[i]).despawn_bound.object_width >= 0 by {
                    assert(self.pillars@[i] == pillar_integrated(w0.pillars[i], input.dt_ms));
                    assert(pillar_wf(w0.pillars[i]));
                }
            }
            mover_window_left_despawn_bound_system(&mut self.pillars, viewport.width);
        }
        let ghost w1 = world_after_physics(w0, input.dt_ms, *viewport);
        proof {
            if playing {
                assert(self.pillars@ =~= w1.pillars);
            }
            assert(self@ =~= w1);
        }

        // input: a jump edge overwrites the vertical velocity
        player_input_system(&mut self.player, playing, input.jump_pressed);
        proof {
            assert(self.player == player_after_input(w1.player, playing, input.jump_pressed));
        }

        // decision logic: bounds, collisions and crossings, the spawn
        // timer, and the phase-specific input edges
        let player_y = self.player.position.y;
        player_bounds_check_system(&self.player, playing, viewport.height, &mut events.killed);
        player_pillar_check_system(
            &mut self.pillars,
            playing,
            player_y,
            &mut events.crossed,
            &mut events.killed,
        );
        let exhausted = pillar_spawn_system(
            &mut self.pillars,
            &mut self.pillar_spawner_timer,
            playing,
            input.dt_ms,
            viewport.width,
            gap_y,
        );
        events.pool_exhausted = exhausted;
        if is_game_over(&self.game_state) && input.restart_pressed {
            events.new_games.push(StartNewGameEvent);
        }
        if is_start_screen(&self.game_state) && input.start_pressed {
            events.new_games.push(StartNewGameEvent);
        }
        if is_loading(&self.game_state) && matches!(input.assets, AssetLoadState::Loaded) {
            events.loading_finished.push(FinishLoadingEvent);
        }

        // event reactions, in fixed order: loading, new game, kill, score
        finish_loading_system(
            &mut self.game_state,
            &events.loading_finished,
            &mut events.state_changes,
        );
        start_new_system(&mut self.game_state, &events.new_games, &mut events.state_changes);
        let started = events.new_games.len() > 0;
        if started {
            crate::player::new_game_system(&mut self.player);
            crate::pillars::new_game_system(&mut self.pillars, viewport.width);
            self.pillar_spawner_timer.reset();
        }
        game_over_system(&mut self.game_state, &events.killed, &mut events.state_changes);
        scoring_system(&events.crossed, &mut events.score_increases);
        score_event_handler_system(
            &mut self.score,
            &events.score_increases,
            started,
            &mut events.score_updates,
        );

        proof {
            let o = tick_spec(w0, *input, *viewport, gap_y);
            assert(events@.state_changes =~= o.events.state_changes);
            assert(events@.score_updates =~= o.events.score_updates);
            assert(events@ =~= o.events);
            assert(self@.pillars =~= o.world.pillars);
            assert(self@ =~= o.world);
            lemma_tick_preserves_wf(w0, *input, *viewport, gap_y);
        }
        events
    }

    /// Advances the simulation by one tick, drawing the spawn offset
    /// uniformly at random from
    /// `spawn_gap_low(viewport) ..= spawn_gap_high(viewport)`. Apart from
    /// that draw the tick is the deterministic transition [`tick_spec`].
    pub fn tick(&mut self, input: &TickInput, viewport: &Viewport) -> (events: TickEvents)
        requires
            world_wf(old(self)@),
            viewport_wf(*viewport),
        ensures
            world_wf(final(self)@),
            exists|gap_y: i64|
                {
                    &&& spawn_gap_low(*viewport) <= gap_y <= spawn_gap_high(*viewport)
                    &&& final(self)@ == (#[trigger] tick_spec(
                        old(self)@,
                        *input,
                        *viewport,
                        gap_y,
                    )).world
                    &&& events@ == tick_spec(old(self)@, *input, *viewport, gap_y).events
                },
    {
        let hi: i64 = (viewport.height - SPAWN_MARGIN) / 2;
        let lo: i64 = -hi;
        let gap_y = random_in_range(lo, hi);
        let events = self.tick_with_gap(input, viewport, gap_y);
        proof {
            assert(spawn_gap_low(*viewport) <= gap_y <= spawn_gap_high(*viewport));
            assert(final(self)@ == tick_spec(old(self)@, *input, *viewport, gap_y).world
                && events@ == tick_spec(old(self)@, *input, *viewport, gap_y).events);
        }
        events
    }
}

} // verus!
