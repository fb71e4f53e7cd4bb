//! The obstacle pool and spawner.
//!
//! Ten pillar entities are created once and never destroyed: "spawning" and
//! "despawning" toggle each pillar's `active` flag and move it. A repeating
//! timer fires at most once per tick while the game is playing; each firing
//! scans the pool in its fixed order and activates the first inactive pillar
//! just off the window's right edge, at a caller-chosen vertical gap offset.
//! If every pillar is active the request is dropped and only a diagnostic is
//! surfaced. Per tick, every active pillar in the player's horizontal lane
//! is tested: the player either collides with a pillar (a kill) or, once the
//! pillar has scrolled three quarters of the way past the center, crosses it
//! and scores — at most once per activation, guarded by `player_crossed`.

use crate::mover::{
    body_despawned_at_left, body_integrated, despawn_body_at_left, integrate_body, Mover,
    MoverWindowLeftDespawnBound,
};
use crate::player::{PlayerCrossedPillarEvent, PlayerKilledEvent};
use crate::units::{Vec2i, MAX_WINDOW_DIM, SUBPIXELS_PER_PIXEL};
use vstd::prelude::*;

verus! {

/// Vertical extent of a pillar pair's gap, in subpixels (150 pixels).
pub const PILLAR_GAP: i64 = 150 * SUBPIXELS_PER_PIXEL;

/// Width of a pillar, in subpixels (128 pixels).
pub const PILLAR_WIDTH: i64 = 128 * SUBPIXELS_PER_PIXEL;

/// Height of the player's sprite as collision sees it, in subpixels
/// (46 pixels). Half of it pads each side of a pillar's gap, an
/// intentionally forgiving hitbox smaller than the full sprite.
pub const PLAYER_VISIBLE_HEIGHT: i64 = 46 * SUBPIXELS_PER_PIXEL;

/// Period of the spawn timer, in milliseconds.
pub const NEXT_PILLAR_SPAWN_TIME_MS: u32 = 3000;

/// Leftward scroll speed of a pillar, in subpixels per millisecond
/// (150 pixels per second).
pub const PILLAR_SPEED: i64 = 150_000_000;

/// Number of pillar entities in the pool.
pub const PILLAR_POOL_SIZE: usize = 10;

/// Vertical margin excluded from gap placement, in subpixels (100 pixels):
/// a spawned gap center is drawn from
/// `-(window_height - SPAWN_MARGIN) / 2 ..= (window_height - SPAWN_MARGIN) / 2`.
pub const SPAWN_MARGIN: i64 = 100 * SUBPIXELS_PER_PIXEL;

/// One pillar pair: a kinematic body, the position of its gap's center, and
/// the flag that guards scoring so each activation is scored at most once.
#[derive(Clone, Copy, Debug, PartialEq, Eq, Structural)]
pub struct Pillar {
    pub player_crossed: bool,
    pub mover: Mover,
    pub position: Vec2i,
    pub despawn_bound: MoverWindowLeftDespawnBound,
}

/// The per-pillar invariant: constant leftward velocity, no acceleration,
/// and the left-edge sweep keyed to the pillar's width. Gameplay only ever
/// toggles `active`, moves the pillar, and flips `player_crossed`.
pub open spec fn pillar_wf(p: Pillar) -> bool {
    &&& p.mover.velocity == (Vec2i { x: (-PILLAR_SPEED) as i64, y: 0 })
    &&& p.mover.acceleration == (Vec2i { x: 0, y: 0 })
    &&& p.despawn_bound.object_width == PILLAR_WIDTH
}

/// The pool invariant: fixed size, every pillar well-formed.
pub open spec fn pool_wf(pillars: Seq<Pillar>) -> bool {
    &&& pillars.len() == PILLAR_POOL_SIZE
    &&& forall|i: int| 0 <= i < pillars.len() ==> pillar_wf(#[trigger] pillars[i])
}

/// A pillar as the pool creates it and as a new game resets it: inactive,
/// unscored, parked at `x = window_width`, out of view right of the window.
pub open spec fn pillar_parked(window_width: i64, y: i64) -> Pillar {
    Pillar {
        player_crossed: false,
        mover: Mover {
            active: false,
            velocity: Vec2i { x: (-PILLAR_SPEED) as i64, y: 0 },
            acceleration: Vec2i { x: 0, y: 0 },
        },
        position: Vec2i { x: window_width, y },
        despawn_bound: MoverWindowLeftDespawnBound { object_width: PILLAR_WIDTH },
    }
}

/// Creates the pool: [`PILLAR_POOL_SIZE`] parked pillars.
pub fn setup_pillars(window_width: i64) -> (pillars: Vec<Pillar>)
    ensures
        pillars@ == Seq::new(PILLAR_POOL_SIZE as nat, |i: int| pillar_parked(window_width, 0)),
        pool_wf(pillars@),
{
    let mut pillars: Vec<Pillar> = Vec::new();
    let mut i: usize = 0;
    while i < PILLAR_POOL_SIZE
        invariant
            i <= PILLAR_POOL_SIZE,
            pillars@.len() == i,
            forall|j: int| 0 <= j < i ==> pillars@[j] == pillar_parked(window_width, 0),
        decreases PILLAR_POOL_SIZE - i,
    {
        pillars.push(Pillar {
            player_crossed: false,
            mover: Mover {
                active: false,
                velocity: Vec2i { x: -PILLAR_SPEED, y: 0 },
                acceleration: Vec2i { x: 0, y: 0 },
            },
            position: Vec2i { x: window_width, y: 0 },
            despawn_bound: MoverWindowLeftDespawnBound { object_width: PILLAR_WIDTH },
        });
        i += 1;
    }
    proof {
        assert(pillars@ =~= Seq::new(PILLAR_POOL_SIZE as nat, |i: int| pillar_parked(
            window_width,
            0,
        )));
    }
    pillars
}

/// A pillar after one integration step of its body.
pub open spec fn pillar_integrated(p: Pillar, dt_ms: u32) -> Pillar {
    let stepped = body_integrated(p.mover, p.position, dt_ms);
    Pillar {
        player_crossed: p.player_crossed,
        mover: stepped.0,
        position: stepped.1,
        despawn_bound: p.despawn_bound,
    }
}

/// A pillar after the left-edge sweep.
pub open spec fn pillar_despawned(p: Pillar, window_width: i64) -> Pillar {
    let swept = body_despawned_at_left(p.despawn_bound, p.mover, p.position, window_width);
    Pillar {
        player_crossed: p.player_crossed,
        mover: swept.0,
        position: swept.1,
        despawn_bound: p.despawn_bound,
    }
}

/// Integrates every pillar in the pool over `dt_ms` milliseconds.
pub fn integrate_pillars(pillars: &mut Vec<Pillar>, dt_ms: u32)
    ensures
        final(pillars)@ == old(pillars)@.map_values(|p: Pillar| pillar_integrated(p, dt_ms)),
{
    let ghost orig = pillars@;
    let mut i: usize = 0;
    while i < pillars.len()
        invariant
            i <= pillars@.len(),
            pillars@.len() == orig.len(),
            forall|j: int| 0 <= j < i ==> pillars@[j] == pillar_integrated(#[trigger] orig[j], dt_ms),
            forall|j: int| i <= j < orig.len() ==> pillars@[j] == #[trigger] orig[j],
        decreases pillars@.len() - i,
    {
        let p = pillars[i];
        let (mover, position) = integrate_body(p.mover, p.position, dt_ms);
        pillars[i] = Pillar {
            player_crossed: p.player_crossed,
            mover,
            position,
            despawn_bound: p.despawn_bound,
        };
        i += 1;
    }
    proof {
        assert(pillars@ =~= orig.map_values(|p: Pillar| pillar_integrated(p, dt_ms)));
    }
}

/// Runs the left-edge sweep over the pool: pillars that have fully scrolled
/// past the window's left edge are deactivated and parked at
/// `x = window_width`.
pub fn mover_window_left_despawn_bound_system(pillars: &mut Vec<Pillar>, window_width: i64)
    requires
        window_width >= 0,
        forall|i: int|
            0 <= i < old(pillars)@.len() ==> (#[trigger] old(
                pillars,
            )@[i]).despawn_bound.object_width >= 0,
    ensures
        final(pillars)@ == old(pillars)@.map_values(
            |p: Pillar| pillar_despawned(p, window_width),
        ),
{
    let ghost orig = pillars@;
    let mut i: usize = 0;
    while i < pillars.len()
        invariant
            i <= pillars@.len(),
            pillars@.len() == orig.len(),
            window_width >= 0,
            forall|j: int| 0 <= j < orig.len() ==> (#[trigger] orig[j]).despawn_bound.object_width
                >= 0,
            forall|j: int| 0 <= j < i ==> pillars@[j] == pillar_despawned(
                #[trigger] orig[j],
                window_width,
            ),
            forall|j: int| i <= j < orig.len() ==> pillars@[j] == #[trigger] orig[j],
        decreases pillars@.len() - i,
    {
        let p = pillars[i];
        proof {
            assert(p == orig[i as int]);
        }
        let (mover, position) = despawn_body_at_left(
            p.despawn_bound,
            p.mover,
            p.position,
            window_width,
        );
        pillars[i] = Pillar {
            player_crossed: p.player_crossed,
            mover,
            position,
            despawn_bound: p.despawn_bound,
        };
        i += 1;
    }
    proof {
        assert(pillars@ =~= orig.map_values(|p: Pillar| pillar_despawned(p, window_width)));
    }
}

/// What the detector concludes about one pillar this tick.
#[derive(Clone, Copy, Debug, PartialEq, Eq, Structural)]
pub enum PillarVerdict {
    /// Not in the player's lane, inactive, or passed cleanly.
    Clear,
    /// The player's hitbox overlaps a pillar: a kill.
    Collision,
    /// The pillar scrolled three quarters past center with the player alive
    /// in its gap and has not been scored yet: a crossing.
    Crossing,
}

/// Vertical position of the gap's upper boundary.
pub open spec fn gap_top(p: Pillar) -> int {
    p.position.y + PILLAR_GAP / 2
}

/// Vertical position of the gap's lower boundary.
pub open spec fn gap_bottom(p: Pillar) -> int {
    p.position.y - PILLAR_GAP / 2
}

/// Whether the pillar's horizontal extent overlaps the player's lane at
/// `x = 0`.
pub open spec fn in_player_lane(p: Pillar) -> bool {
    -(PILLAR_WIDTH / 2) <= p.position.x <= PILLAR_WIDTH / 2
}

/// Whether the player's hitbox overlaps a pillar: its center is less than
/// half the player's visible height away from a gap boundary.
pub open spec fn hits_pillar(p: Pillar, player_y: i64) -> bool {
    ||| player_y > gap_top(p) - PLAYER_VISIBLE_HEIGHT / 2
    ||| player_y < gap_bottom(p) + PLAYER_VISIBLE_HEIGHT / 2
}

/// The detector's verdict on one pillar. Only an active pillar in the
/// player's lane can kill or be crossed; a collision shadows a crossing, and
/// a crossing needs the pillar three quarters past center
/// (`x < -PILLAR_WIDTH / 4`) and not yet scored.
pub open spec fn pillar_verdict(p: Pillar, player_y: i64) -> PillarVerdict {
    if p.mover.active && in_player_lane(p) {
        if hits_pillar(p, player_y) {
            PillarVerdict::Collision
        } else if p.position.x < -(PILLAR_WIDTH / 4) && !p.player_crossed {
            PillarVerdict::Crossing
        } else {
            PillarVerdict::Clear
        }
    } else {
        PillarVerdict::Clear
    }
}

/// Computes the detector's verdict on one pillar.
pub fn check_pillar(p: &Pillar, player_y: i64) -> (v: PillarVerdict)
    ensures
        v == pillar_verdict(*p, player_y),
{
    if p.mover.active && p.position.x <= PILLAR_WIDTH / 2 && p.position.x >= -(PILLAR_WIDTH / 2) {
        let top: i128 = p.position.y as i128 + (PILLAR_GAP / 2) as i128;
        let bottom: i128 = p.position.y as i128 - (PILLAR_GAP / 2) as i128;
        let margin: i128 = (PLAYER_VISIBLE_HEIGHT / 2) as i128;
        if (player_y as i128) > top - margin || (player_y as i128) < bottom + margin {
            PillarVerdict::Collision
        } else if p.position.x < -(PILLAR_WIDTH / 4) && !p.player_crossed {
            PillarVerdict::Crossing
        } else {
            PillarVerdict::Clear
        }
    } else {
        PillarVerdict::Clear
    }
}

/// A pillar after the detector ran: a crossing marks it scored, anything
/// else leaves it untouched.
pub open spec fn pillar_after_check(p: Pillar, player_y: i64) -> Pillar {
    if pillar_verdict(p, player_y) is Crossing {
        Pillar {
            player_crossed: true,
            mover: p.mover,
            position: p.position,
            despawn_bound: p.despawn_bound,
        }
    } else {
        p
    }
}

/// The whole pool after the detector ran.
pub open spec fn pool_after_check(pillars: Seq<Pillar>, player_y: i64) -> Seq<Pillar> {
    pillars.map_values(|p: Pillar| pillar_after_check(p, player_y))
}

/// How many pillars of the pool the detector finds in collision with the
/// player.
pub open spec fn kill_count(pillars: Seq<Pillar>, player_y: i64) -> nat
    decreases pillars.len(),
{
    if pillars.len() == 0 {
        0
    } else {
        kill_count(pillars.drop_last(), player_y) + if pillar_verdict(
            pillars.last(),
            player_y,
        ) is Collision {
            1nat
        } else {
            0nat
        }
    }
}

/// How many pillars of the pool the detector finds newly crossed.
pub open spec fn cross_count(pillars: Seq<Pillar>, player_y: i64) -> nat
    decreases pillars.len(),
{
    if pillars.len() == 0 {
        0
    } else {
        cross_count(pillars.drop_last(), player_y) + if pillar_verdict(
            pillars.last(),
            player_y,
        ) is Crossing {
            1nat
        } else {
            0nat
        }
    }
}

/// Runs the detector over the pool while the game is playing: emits one
/// [`PlayerKilledEvent`] per colliding pillar, and one
/// [`PlayerCrossedPillarEvent`] per newly crossed pillar, marking that
/// pillar scored. Outside the `Playing` phase nothing happens.
pub fn player_pillar_check_system(
    pillars: &mut Vec<Pillar>,
    playing: bool,
    player_y: i64,
    cross_events: &mut Vec<PlayerCrossedPillarEvent>,
    killed_events: &mut Vec<PlayerKilledEvent>,
)
    ensures
        final(pillars)@ == if playing {
            pool_after_check(old(pillars)@, player_y)
        } else {
            old(pillars)@
        },
        final(killed_events)@.len() == old(killed_events)@.len() + if playing {
            kill_count(old(pillars)@, player_y)
        } else {
            0nat
        },
        final(cross_events)@.len() == old(cross_events)@.len() + if playing {
            cross_count(old(pillars)@, player_y)
        } else {
            0nat
        },
{
    if !playing {
        return ;
    }
    let ghost orig = pillars@;
    let ghost killed0 = killed_events@.len();
    let ghost crossed0 = cross_events@.len();
    let mut i: usize = 0;
    while i < pillars.len()
        invariant
            i <= pillars@.len(),
            pillars@.len() == orig.len(),
            forall|j: int| 0 <= j < i ==> pillars@[j] == pillar_after_check(
                #[trigger] orig[j],
                player_y,
            ),
            forall|j: int| i <= j < orig.len() ==> pillars@[j] == #[trigger] orig[j],
            killed_events@.len() == killed0 + kill_count(orig.take(i as int), player_y),
            cross_events@.len() == crossed0 + cross_count(orig.take(i as int), player_y),
        decreases pillars@.len() - i,
    {
        let p = pillars[i];
        proof {
            assert(p == orig[i as int]);
            assert(orig.take(i + 1).drop_last() =~= orig.take(i as int));
            assert(orig.take(i + 1).last() == orig[i as int]);
        }
        match check_pillar(&p, player_y) {
            PillarVerdict::Collision => {
                killed_events.push(PlayerKilledEvent);
            },
            PillarVerdict::Crossing => {
                pillars[i] = Pillar {
                    player_crossed: true,
                    mover: p.mover,
                    position: p.position,
                    despawn_bound: p.despawn_bound,
                };
                cross_events.push(PlayerCrossedPillarEvent);
            },
            PillarVerdict::Clear => {},
        }
        i += 1;
    }
    proof {
        assert(orig.take(orig.len() as int) =~= orig);
        assert(pillars@ =~= pool_after_check(orig, player_y));
    }
}

/// The repeating spawn timer. It accumulates elapsed milliseconds and fires
/// at most once per tick, when the accumulated time reaches the period;
/// whatever it overshot carries into the next interval.
#[derive(Clone, Copy, Debug, PartialEq, Eq, Structural)]
pub struct PillarSpawnerTimer {
    pub period_ms: u32,
    pub elapsed_ms: u32,
}

/// The timer invariant: a positive period, with the accumulated time
/// strictly inside it.
pub open spec fn timer_wf(t: PillarSpawnerTimer) -> bool {
    0 < t.period_ms && t.elapsed_ms < t.period_ms
}

/// Whether ticking the timer by `dt_ms` completes its interval.
pub open spec fn timer_fires(t: PillarSpawnerTimer, dt_ms: u32) -> bool {
    t.elapsed_ms + dt_ms >= t.period_ms
}

/// The timer after a tick of `dt_ms` milliseconds: the accumulated time
/// grows by `dt_ms` and, if the interval completed, wraps around the period.
pub open spec fn timer_ticked(t: PillarSpawnerTimer, dt_ms: u32) -> PillarSpawnerTimer {
    if timer_fires(t, dt_ms) {
        PillarSpawnerTimer {
            period_ms: t.period_ms,
            elapsed_ms: ((t.elapsed_ms + dt_ms) % (t.period_ms as int)) as u32,
        }
    } else {
        PillarSpawnerTimer { period_ms: t.period_ms, elapsed_ms: (t.elapsed_ms + dt_ms) as u32 }
    }
}

/// The timer with its accumulated time cleared.
pub open spec fn timer_reset(t: PillarSpawnerTimer) -> PillarSpawnerTimer {
    PillarSpawnerTimer { period_ms: t.period_ms, elapsed_ms: 0 }
}

impl PillarSpawnerTimer {
    /// Creates a repeating timer with the given period.
    pub fn new(period_ms: u32) -> (t: PillarSpawnerTimer)
        requires
            period_ms > 0,
        ensures
            t == (PillarSpawnerTimer { period_ms, elapsed_ms: 0u32 }),
            timer_wf(t),
    {
        PillarSpawnerTimer { period_ms, elapsed_ms: 0 }
    }

    /// Advances the timer by `dt_ms` milliseconds and reports whether the
    /// interval completed this tick.
    pub fn tick(&mut self, dt_ms: u32) -> (fired: bool)
        requires
            timer_wf(*old(self)),
        ensures
            fired == timer_fires(*old(self), dt_ms),
            *final(self) == timer_ticked(*old(self), dt_ms),
            timer_wf(*final(self)),
    {
        let total: u64 = self.elapsed_ms as u64 + dt_ms as u64;
        if total >= self.period_ms as u64 {
            self.elapsed_ms = (total % self.period_ms as u64) as u32;
            true
        } else {
            self.elapsed_ms = total as u32;
            false
        }
    }

    /// Clears the accumulated time; the next interval starts from zero.
    pub fn reset(&mut self)
        ensures
            *final(self) == timer_reset(*old(self)),
    {
        self.elapsed_ms = 0;
    }
}

/// The index of the first inactive pillar at or after position `i` of the
/// pool's fixed scan order, if any.
pub open spec fn first_inactive_from(pillars: Seq<Pillar>, i: int) -> Option<int>
    decreases pillars.len() - i,
{
    if i < 0 || i >= pillars.len() {
        None
    } else if !pillars[i].mover.active {
        Some(i)
    } else {
        first_inactive_from(pillars, i + 1)
    }
}

/// The index of the first inactive pillar in the pool's fixed scan order,
/// if any.
pub open spec fn first_inactive(pillars: Seq<Pillar>) -> Option<int> {
    first_inactive_from(pillars, 0)
}

/// A pillar as a spawn activates it: scoreable again, scrolling, placed
/// just off the window's right edge with its gap centered at `gap_y`.
pub open spec fn pillar_spawned(p: Pillar, window_width: i64, gap_y: i64) -> Pillar {
    Pillar {
        player_crossed: false,
        mover: Mover {
            active: true,
            velocity: p.mover.velocity,
            acceleration: p.mover.acceleration,
        },
        position: Vec2i {
            x: (window_width / 2 + PILLAR_WIDTH / 2) as i64,
            y: gap_y,
        },
        despawn_bound: p.despawn_bound,
    }
}

/// The pool after a spawn request: the first inactive pillar is activated at
/// `gap_y`, or, if every pillar is active, nothing changes and the request
/// is reported as dropped.
pub open spec fn pool_spawned(pillars: Seq<Pillar>, window_width: i64, gap_y: i64) -> (
    Seq<Pillar>,
    bool,
) {
    match first_inactive(pillars) {
        Some(i) => (pillars.update(i, pillar_spawned(pillars[i], window_width, gap_y)), false),
        None => (pillars, true),
    }
}

/// Activates the first inactive pillar of the pool at vertical offset
/// `gap_y`, just off the window's right edge. Returns `true` when the pool
/// is exhausted and the request was dropped.
pub fn spawn_into_pool(pillars: &mut Vec<Pillar>, window_width: i64, gap_y: i64) -> (exhausted:
    bool)
    requires
        0 <= window_width <= MAX_WINDOW_DIM,
    ensures
        final(pillars)@ == pool_spawned(old(pillars)@, window_width, gap_y).0,
        exhausted == pool_spawned(old(pillars)@, window_width, gap_y).1,
{
    let mut i: usize = 0;
    while i < pillars.len()
        invariant
            i <= pillars@.len(),
            pillars@ == old(pillars)@,
            0 <= window_width <= MAX_WINDOW_DIM,
            first_inactive(pillars@) == first_inactive_from(pillars@, i as int),
        decreases pillars@.len() - i,
    {
        let p = pillars[i];
        if !p.mover.active {
            pillars[i] = Pillar {
                player_crossed: false,
                mover: Mover {
                    active: true,
                    velocity: p.mover.velocity,
                    acceleration: p.mover.acceleration,
                },
                position: Vec2i { x: window_width / 2 + PILLAR_WIDTH / 2, y: gap_y },
                despawn_bound: p.despawn_bound,
            };
            return false;
        }
        i += 1;
    }
    true
}

/// Ticks the spawn timer while the game is playing and, on each completed
/// interval, activates the first inactive pillar at vertical offset
/// `gap_y`. Returns `true` when a spawn was due but every pillar was
/// already active, so the request was dropped: the caller surfaces this as
/// a non-fatal diagnostic.
pub fn pillar_spawn_system(
    pillars: &mut Vec<Pillar>,
    timer: &mut PillarSpawnerTimer,
    playing: bool,
    dt_ms: u32,
    window_width: i64,
    gap_y: i64,
) -> (exhausted: bool)
    requires
        timer_wf(*old(timer)),
        0 <= window_width <= MAX_WINDOW_DIM,
    ensures
        *final(timer) == if playing {
            timer_ticked(*old(timer), dt_ms)
        } else {
            *old(timer)
        },
        timer_wf(*final(timer)),
        ({
            let due = playing && timer_fires(*old(timer), dt_ms);
            &&& final(pillars)@ == if due {
                pool_spawned(old(pillars)@, window_width, gap_y).0
            } else {
                old(pillars)@
            }
            &&& exhausted == (due && pool_spawned(old(pillars)@, window_width, gap_y).1)
        }),
{
    if playing && timer.tick(dt_ms) {
        spawn_into_pool(pillars, window_width, gap_y)
    } else {
        false
    }
}

/// A pillar as a new game resets it: deactivated, unscored, parked at
/// `x = window_width`; its vertical offset is left as it was.
pub open spec fn pillar_new_game(p: Pillar, window_width: i64) -> Pillar {
    Pillar {
        player_crossed: false,
        mover: Mover {
            active: false,
            velocity: p.mover.velocity,
            acceleration: p.mover.acceleration,
        },
        position: Vec2i { x: window_width, y: p.position.y },
        despawn_bound: p.despawn_bound,
    }
}

/// Resets the pool for a new game: every pillar is deactivated, marked
/// unscored, and parked at `x = window_width`; its vertical offset is left
/// as it was.
pub fn new_game_system(pillars: &mut Vec<Pillar>, window_width: i64)
    ensures
        final(pillars)@ == old(pillars)@.map_values(
            |p: Pillar| pillar_new_game(p, window_width),
        ),
{
    let ghost orig = pillars@;
    let mut i: usize = 0;
    while i < pillars.len()
        invariant
            i <= pillars@.len(),
            pillars@.len() == orig.len(),
            forall|j: int| 0 <= j < i ==> pillars@[j] == (Pillar {
                player_crossed: false,
                mover: Mover {
                    active: false,
                    velocity: (#[trigger] orig[j]).mover.velocity,
                    acceleration: orig[j].mover.acceleration,
                },
                position: Vec2i { x: window_width, y: orig[j].position.y },
                despawn_bound: orig[j].despawn_bound,
            }),
            forall|j: int| i <= j < orig.len() ==> pillars@[j] == #[trigger] orig[j],
        decreases pillars@.len() - i,
    {
        let p = pillars[i];
        pillars[i] = Pillar {
            player_crossed: false,
            mover: Mover {
                active: false,
                velocity: p.mover.velocity,
                acceleration: p.mover.acceleration,
            },
            position: Vec2i { x: window_width, y: p.position.y },
            despawn_bound: p.despawn_bound,
        };
        i += 1;
    }
    proof {
        assert(pillars@ =~= orig.map_values(|p: Pillar| pillar_new_game(p, window_width)));
    }
}

/// A well-formed pillar stays well-formed under every per-pillar operation
/// of the pool: the operations toggle `active`, move the pillar and flip
/// `player_crossed`, but never touch its velocity, its acceleration or its
/// sweep width.
pub proof fn lemma_pillar_ops_preserve_wf(
    p: Pillar,
    dt_ms: u32,
    window_width: i64,
    player_y: i64,
    gap_y: i64,
)
    requires
        pillar_wf(p),
    ensures
        pillar_wf(pillar_integrated(p, dt_ms)),
        pillar_wf(pillar_despawned(p, window_width)),
        pillar_wf(pillar_after_check(p, player_y)),
        pillar_wf(pillar_spawned(p, window_width, gap_y)),
        pillar_wf(pillar_new_game(p, window_width)),
        pillar_integrated(p, dt_ms).position.y == p.position.y,
{
}

/// A found first-inactive index lies in the pool, names an inactive pillar
/// and is the first such in scan order; none exists at all when every
/// pillar is active.
pub proof fn lemma_first_inactive_from_range(pillars: Seq<Pillar>, i: int)
    requires
        0 <= i,
    ensures
        first_inactive_from(pillars, i) matches Some(j) ==> i <= j < pillars.len()
            && !pillars[j].mover.active && forall|k: int|
            i <= k < j ==> (#[trigger] pillars[k]).mover.active,
        first_inactive_from(pillars, i) is None ==> forall|j: int|
            i <= j < pillars.len() ==> (#[trigger] pillars[j]).mover.active,
    decreases pillars.len() - i,
{
    if i < 0 || i >= pillars.len() {
    } else if !pillars[i].mover.active {
    } else {
        lemma_first_inactive_from_range(pillars, i + 1);
    }
}

} // verus!
