//! Properties of the tick transition, stated and proved once and for all
//! inputs over [`tick_spec`].

use crate::game_state::GameStateType;
use crate::pillars::{
    first_inactive, kill_count, lemma_first_inactive_from_range, pillar_despawned,
    pillar_integrated, pillar_verdict,
};
use crate::player::{out_of_bounds, player_after_input};
use crate::units::Vec2i;
use crate::world::{
    tick_spec, world_after_physics, world_wf, TickInput, Viewport, WorldModel,
};
use vstd::prelude::*;

verus! {

/// While the game is not in the `Playing` phase, a tick moves nothing: no
/// kinematic body's velocity or position changes, no pillar is spawned or
/// recycled, the spawn timer does not advance and the score keeps its
/// value; no kill, crossing or score event is emitted. The one exception
/// the state machine allows is the start of a new game — a restart edge in
/// `GameOver` or a start edge in `StartScreen` — which repositions the
/// bodies while the phase is not `Playing`; those two inputs are excluded
/// here.
pub proof fn lemma_paused_world_static(w: WorldModel, inp: TickInput, vp: Viewport, gap_y: i64)
    requires
        !(w.phase is Playing),
        !(w.phase is GameOver && inp.restart_pressed),
        !(w.phase is StartScreen && inp.start_pressed),
    ensures
        tick_spec(w, inp, vp, gap_y).world.player == w.player,
        tick_spec(w, inp, vp, gap_y).world.pillars == w.pillars,
        tick_spec(w, inp, vp, gap_y).world.timer == w.timer,
        tick_spec(w, inp, vp, gap_y).world.score == w.score,
        tick_spec(w, inp, vp, gap_y).events.killed == 0,
        tick_spec(w, inp, vp, gap_y).events.crossed == 0,
        tick_spec(w, inp, vp, gap_y).events.score_updates == Seq::<u32>::empty(),
        !tick_spec(w, inp, vp, gap_y).events.pool_exhausted,
{
}

/// A restart edge received while the phase is `GameOver` starts a new
/// game: afterwards the score is zero, the player is back at the origin
/// with zero velocity, every pillar is inactive, unscored and parked at
/// `x = viewport width`, the spawn timer's elapsed time is cleared, and
/// the phase is `Playing` — published as the tick's one phase change.
pub proof fn lemma_restart_resets(w: WorldModel, inp: TickInput, vp: Viewport, gap_y: i64)
    requires
        world_wf(w),
        w.phase is GameOver,
        inp.restart_pressed,
    ensures
        ({
            let o = tick_spec(w, inp, vp, gap_y);
            &&& o.world.phase is Playing
            &&& o.world.score == 0
            &&& o.world.player.position == (Vec2i { x: 0, y: 0 })
            &&& o.world.player.mover.velocity == (Vec2i { x: 0, y: 0 })
            &&& o.world.pillars.len() == w.pillars.len()
            &&& forall|i: int|
                0 <= i < o.world.pillars.len() ==> {
                    &&& !(#[trigger] o.world.pillars[i]).mover.active
                    &&& !o.world.pillars[i].player_crossed
                    &&& o.world.pillars[i].position.x == vp.width
                }
            &&& o.world.timer.elapsed_ms == 0
            &&& o.world.timer.period_ms == w.timer.period_ms
            &&& o.events.state_changes =~= seq![GameStateType::Playing]
            &&& o.events.new_games == 1
        }),
{
}

/// A restart edge received while the phase is `Playing`, `StartScreen` or
/// `Loading` is a no-op: the tick's whole outcome, state and events alike,
/// is the same as without the edge.
pub proof fn lemma_restart_ignored(w: WorldModel, inp: TickInput, vp: Viewport, gap_y: i64)
    requires
        !(w.phase is GameOver),
    ensures
        ({
            let without = TickInput {
                dt_ms: inp.dt_ms,
                jump_pressed: inp.jump_pressed,
                start_pressed: inp.start_pressed,
                restart_pressed: false,
                assets: inp.assets,
            };
            tick_spec(w, inp, vp, gap_y) == tick_spec(w, without, vp, gap_y)
        }),
{
    let without = TickInput {
        dt_ms: inp.dt_ms,
        jump_pressed: inp.jump_pressed,
        start_pressed: inp.start_pressed,
        restart_pressed: false,
        assets: inp.assets,
    };
    assert(tick_spec(w, inp, vp, gap_y) =~= tick_spec(w, without, vp, gap_y));
}

/// While a pillar stays active, its `player_crossed` flag only rises from
/// `false` to `true`, never back: after a tick that neither recycles the
/// pillar at the left edge during its physics sub-phase nor starts a new
/// game, a pillar that was active and scored is still scored.
pub proof fn lemma_crossed_monotone(
    w: WorldModel,
    inp: TickInput,
    vp: Viewport,
    gap_y: i64,
    i: int,
)
    requires
        world_wf(w),
        0 <= i < w.pillars.len(),
        w.pillars[i].mover.active,
        w.pillars[i].player_crossed,
        // the pillar is not recycled by this tick's left-edge sweep
        pillar_despawned(pillar_integrated(w.pillars[i], inp.dt_ms), vp.width).mover.active,
        // and no new game starts this tick
        !(w.phase is GameOver && inp.restart_pressed),
        !(w.phase is StartScreen && inp.start_pressed),
    ensures
        tick_spec(w, inp, vp, gap_y).world.pillars[i].player_crossed,
        tick_spec(w, inp, vp, gap_y).world.pillars[i].mover.active,
{
    let o = tick_spec(w, inp, vp, gap_y);
    let w1 = world_after_physics(w, inp.dt_ms, vp);
    if w.phase is Playing {
        let py = player_after_input(w1.player, true, inp.jump_pressed).position.y;
        let checked = crate::pillars::pool_after_check(w1.pillars, py);
        assert(w1.pillars[i] == pillar_despawned(
            pillar_integrated(w.pillars[i], inp.dt_ms),
            vp.width,
        ));
        assert(checked[i].player_crossed && checked[i].mover.active);
        if w.phase is Playing && crate::pillars::timer_fires(w.timer, inp.dt_ms) {
            lemma_first_inactive_from_range(checked, 0);
            match first_inactive(checked) {
                Some(j) => {
                    assert(!checked[j].mover.active);
                    assert(j != i);
                    assert(o.world.pillars[i] == checked[i]);
                },
                None => {},
            }
        }
    }
}

/// A crossing is detected for a pillar only while its `player_crossed`
/// flag is still clear, and the same tick sets the flag. Together with
/// [`lemma_crossed_monotone`] and [`lemma_no_second_cross`], at most one
/// crossing event is emitted per pillar activation.
pub proof fn lemma_cross_sets_flag(w: WorldModel, inp: TickInput, vp: Viewport, gap_y: i64, i: int)
    requires
        world_wf(w),
        0 <= i < w.pillars.len(),
    ensures
        ({
            let w1 = world_after_physics(w, inp.dt_ms, vp);
            let py = player_after_input(
                w1.player,
                w.phase is Playing,
                inp.jump_pressed,
            ).position.y;
            (w.phase is Playing && pillar_verdict(w1.pillars[i], py) is Crossing) ==> {
                &&& !w1.pillars[i].player_crossed
                &&& tick_spec(w, inp, vp, gap_y).world.pillars[i].player_crossed
            }
        }),
{
    let o = tick_spec(w, inp, vp, gap_y);
    let w1 = world_after_physics(w, inp.dt_ms, vp);
    let py = player_after_input(w1.player, w.phase is Playing, inp.jump_pressed).position.y;
    if w.phase is Playing && pillar_verdict(w1.pillars[i], py) is Crossing {
        let checked = crate::pillars::pool_after_check(w1.pillars, py);
        assert(checked[i].player_crossed && checked[i].mover.active);
        let start_new = (w.phase is GameOver && inp.restart_pressed) || (w.phase is StartScreen
            && inp.start_pressed);
        assert(!start_new);
        if crate::pillars::timer_fires(w.timer, inp.dt_ms) {
            lemma_first_inactive_from_range(checked, 0);
            match first_inactive(checked) {
                Some(j) => {
                    assert(!checked[j].mover.active);
                    assert(j != i);
                },
                None => {},
            }
        }
    }
}

/// A pillar whose crossing was detected in one tick cannot have a crossing
/// detected again in the next tick: by then it is either still active with
/// its `player_crossed` flag set, or it has been deactivated — and a
/// crossing needs an active pillar with a clear flag. A new crossing takes
/// a full recycle-then-respawn in between.
pub proof fn lemma_no_second_cross(
    w: WorldModel,
    inp1: TickInput,
    vp1: Viewport,
    gap_y1: i64,
    inp2: TickInput,
    vp2: Viewport,
    gap_y2: i64,
    i: int,
)
    requires
        world_wf(w),
        0 <= i < w.pillars.len(),
        w.phase is Playing,
        ({
            let w1 = world_after_physics(w, inp1.dt_ms, vp1);
            let py1 = player_after_input(w1.player, true, inp1.jump_pressed).position.y;
            pillar_verdict(w1.pillars[i], py1) is Crossing
        }),
    ensures
        ({
            let between = tick_spec(w, inp1, vp1, gap_y1).world;
            let w2 = world_after_physics(between, inp2.dt_ms, vp2);
            let py2 = player_after_input(
                w2.player,
                between.phase is Playing,
                inp2.jump_pressed,
            ).position.y;
            !(pillar_verdict(w2.pillars[i], py2) is Crossing)
        }),
{
    lemma_cross_sets_flag(w, inp1, vp1, gap_y1, i);
    let between = tick_spec(w, inp1, vp1, gap_y1).world;
    let w1 = world_after_physics(w, inp1.dt_ms, vp1);
    let py1 = player_after_input(w1.player, true, inp1.jump_pressed).position.y;
    let checked = crate::pillars::pool_after_check(w1.pillars, py1);
    assert(checked.len() == w.pillars.len());
    if crate::pillars::timer_fires(w.timer, inp1.dt_ms) {
        lemma_first_inactive_from_range(checked, 0);
    }
    assert(between.pillars.len() == w.pillars.len());
    assert(between.pillars[i].player_crossed || !between.pillars[i].mover.active);
    let w2 = world_after_physics(between, inp2.dt_ms, vp2);
    assert(w2.pillars[i] == if between.phase is Playing {
        pillar_despawned(pillar_integrated(between.pillars[i], inp2.dt_ms), vp2.width)
    } else {
        between.pillars[i]
    });
}

/// Each firing of the spawn timer while playing activates exactly one
/// previously inactive pillar — the first in the pool's fixed scan order —
/// placing it just off the right edge, unscored, with its gap at `gap_y`;
/// every other pillar keeps the state the detector left it. Once every
/// pillar is active, a firing changes no pillar and only raises the
/// pool-exhausted diagnostic.
pub proof fn lemma_spawn_activates_first_inactive(
    w: WorldModel,
    inp: TickInput,
    vp: Viewport,
    gap_y: i64,
)
    requires
        world_wf(w),
        w.phase is Playing,
        crate::pillars::timer_fires(w.timer, inp.dt_ms),
    ensures
        ({
            let o = tick_spec(w, inp, vp, gap_y);
            let w1 = world_after_physics(w, inp.dt_ms, vp);
            let py = player_after_input(w1.player, true, inp.jump_pressed).position.y;
            let checked = crate::pillars::pool_after_check(w1.pillars, py);
            match first_inactive(checked) {
                Some(j) => {
                    &&& 0 <= j < checked.len()
                    &&& !checked[j].mover.active
                    &&& forall|k: int| 0 <= k < j ==> (#[trigger] checked[k]).mover.active
                    &&& o.world.pillars[j] == crate::pillars::pillar_spawned(
                        checked[j],
                        vp.width,
                        gap_y,
                    )
                    &&& forall|k: int|
                        0 <= k < checked.len() && k != j ==> o.world.pillars[k] == #[trigger] checked[k]
                    &&& !o.events.pool_exhausted
                },
                None => {
                    &&& o.world.pillars == checked
                    &&& forall|k: int|
                        0 <= k < checked.len() ==> (#[trigger] checked[k]).mover.active
                    &&& o.events.pool_exhausted
                },
            }
        }),
{
    let w1 = world_after_physics(w, inp.dt_ms, vp);
    let py = player_after_input(w1.player, true, inp.jump_pressed).position.y;
    let checked = crate::pillars::pool_after_check(w1.pillars, py);
    lemma_first_inactive_from_range(checked, 0);
}

/// One tick's inputs, for stating properties of whole runs: what the host
/// handed the tick and the gap offset its spawn would use.
#[verifier::ext_equal]
pub ghost struct RunStep {
    pub input: TickInput,
    pub viewport: Viewport,
    pub gap_y: i64,
}

/// The world after a run of ticks.
pub open spec fn run_world(w: WorldModel, steps: Seq<RunStep>) -> WorldModel
    decreases steps.len(),
{
    if steps.len() == 0 {
        w
    } else {
        run_world(
            tick_spec(w, steps[0].input, steps[0].viewport, steps[0].gap_y).world,
            steps.drop_first(),
        )
    }
}

/// Whether a tick detects a crossing of pillar `i`: one crossing event of
/// the tick is attributable to that pillar.
pub open spec fn pillar_crossing_in_tick(
    w: WorldModel,
    inp: TickInput,
    vp: Viewport,
    gap_y: i64,
    i: int,
) -> nat {
    let w1 = world_after_physics(w, inp.dt_ms, vp);
    let py = player_after_input(w1.player, w.phase is Playing, inp.jump_pressed).position.y;
    if w.phase is Playing && 0 <= i < w1.pillars.len() && pillar_verdict(
        w1.pillars[i],
        py,
    ) is Crossing {
        1
    } else {
        0
    }
}

/// Whether a tick spawns into pool slot `i`, beginning a new activation of
/// that pillar.
pub open spec fn pillar_spawn_in_tick(
    w: WorldModel,
    inp: TickInput,
    vp: Viewport,
    gap_y: i64,
    i: int,
) -> nat {
    let w1 = world_after_physics(w, inp.dt_ms, vp);
    let py = player_after_input(w1.player, w.phase is Playing, inp.jump_pressed).position.y;
    let checked = if w.phase is Playing {
        crate::pillars::pool_after_check(w1.pillars, py)
    } else {
        w1.pillars
    };
    if w.phase is Playing && crate::pillars::timer_fires(w.timer, inp.dt_ms) && first_inactive(
        checked,
    ) == Some(i) {
        1
    } else {
        0
    }
}

/// How many crossings of pillar `i` a run of ticks detects.
pub open spec fn run_crossings(w: WorldModel, steps: Seq<RunStep>, i: int) -> nat
    decreases steps.len(),
{
    if steps.len() == 0 {
        0
    } else {
        pillar_crossing_in_tick(w, steps[0].input, steps[0].viewport, steps[0].gap_y, i)
            + run_crossings(
            tick_spec(w, steps[0].input, steps[0].viewport, steps[0].gap_y).world,
            steps.drop_first(),
            i,
        )
    }
}

/// How many times a run of ticks spawns into pool slot `i`.
pub open spec fn run_spawns(w: WorldModel, steps: Seq<RunStep>, i: int) -> nat
    decreases steps.len(),
{
    if steps.len() == 0 {
        0
    } else {
        pillar_spawn_in_tick(w, steps[0].input, steps[0].viewport, steps[0].gap_y, i)
            + run_spawns(
            tick_spec(w, steps[0].input, steps[0].viewport, steps[0].gap_y).world,
            steps.drop_first(),
            i,
        )
    }
}

/// Whether pillar `i` could still be crossed in its current activation:
/// it is active and not yet scored.
pub open spec fn crossing_potential(w: WorldModel, i: int) -> nat {
    if 0 <= i < w.pillars.len() && w.pillars[i].mover.active && !w.pillars[i].player_crossed {
        1
    } else {
        0
    }
}

/// One tick consumes at most the crossing potential that slot `i` carried
/// into it, plus the potential a spawn into the slot grants anew: detecting
/// a crossing spends the potential (the flag rises), and only a respawn
/// restores it.
pub proof fn lemma_crossing_budget_per_tick(
    w: WorldModel,
    inp: TickInput,
    vp: Viewport,
    gap_y: i64,
    i: int,
)
    requires
        world_wf(w),
        0 <= i < w.pillars.len(),
    ensures
        pillar_crossing_in_tick(w, inp, vp, gap_y, i) + crossing_potential(
            tick_spec(w, inp, vp, gap_y).world,
            i,
        ) <= crossing_potential(w, i) + pillar_spawn_in_tick(w, inp, vp, gap_y, i),
{
    let o = tick_spec(w, inp, vp, gap_y);
    let w1 = world_after_physics(w, inp.dt_ms, vp);
    let py = player_after_input(w1.player, w.phase is Playing, inp.jump_pressed).position.y;
    if w.phase is Playing {
        let checked = crate::pillars::pool_after_check(w1.pillars, py);
        assert(w1.pillars[i] == pillar_despawned(
            pillar_integrated(w.pillars[i], inp.dt_ms),
            vp.width,
        ));
        if crate::pillars::timer_fires(w.timer, inp.dt_ms) {
            lemma_first_inactive_from_range(checked, 0);
        }
    }
}

/// At most one crossing event is emitted per pillar activation: over any
/// run of ticks, the crossings detected for pool slot `i` number at most
/// one for the activation the slot may already be in, plus one for each
/// time the run spawns into the slot afresh.
pub proof fn lemma_at_most_one_crossing_per_activation(
    w: WorldModel,
    steps: Seq<RunStep>,
    i: int,
)
    requires
        world_wf(w),
        0 <= i < w.pillars.len(),
        forall|k: int| 0 <= k < steps.len() ==> crate::world::viewport_wf(
            (#[trigger] steps[k]).viewport,
        ),
    ensures
        run_crossings(w, steps, i) <= crossing_potential(w, i) + run_spawns(w, steps, i),
    decreases steps.len(),
{
    if steps.len() > 0 {
        let o = tick_spec(w, steps[0].input, steps[0].viewport, steps[0].gap_y);
        lemma_crossing_budget_per_tick(w, steps[0].input, steps[0].viewport, steps[0].gap_y, i);
        crate::world::lemma_tick_preserves_wf(
            w,
            steps[0].input,
            steps[0].viewport,
            steps[0].gap_y,
        );
        assert(o.world.pillars.len() == w.pillars.len());
        assert forall|k: int| 0 <= k < steps.drop_first().len() implies crate::world::viewport_wf(
            (#[trigger] steps.drop_first()[k]).viewport,
        ) by {
            assert(steps.drop_first()[k] == steps[k + 1]);
        }
        lemma_at_most_one_crossing_per_activation(o.world, steps.drop_first(), i);
    }
}

/// The bounds detector is a pure function of the player's vertical
/// position and the window height — re-evaluating it within a tick on an
/// unchanged position cannot change the verdict — and one tick emits at
/// most one kill event beyond those of the colliding pillars: a single
/// boundary crossing never double-fires.
pub proof fn lemma_bounds_kill_at_most_once(w: WorldModel, inp: TickInput, vp: Viewport, gap_y: i64)
    ensures
        ({
            let w1 = world_after_physics(w, inp.dt_ms, vp);
            let py = player_after_input(
                w1.player,
                w.phase is Playing,
                inp.jump_pressed,
            ).position.y;
            let pillar_kills: nat = if w.phase is Playing {
                kill_count(w1.pillars, py)
            } else {
                0
            };
            let o = tick_spec(w, inp, vp, gap_y);
            &&& o.events.killed <= pillar_kills + 1
            &&& o.events.killed == pillar_kills + (if w.phase is Playing && out_of_bounds(
                py,
                vp.height,
            ) {
                1nat
            } else {
                0nat
            })
        }),
{
}

} // verus!
