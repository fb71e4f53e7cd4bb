//! The player entity and its controller.
//!
//! The player is a single entity that falls under constant gravity. While
//! the game is in the `Playing` phase, a jump edge overwrites its vertical
//! velocity with a fixed upward impulse (a tap always resets climb speed),
//! and leaving the vertical play bounds emits a kill: a hard boundary, not a
//! clamp, so the player may visibly leave the window for one tick before the
//! kill registers.

use crate::mover::{body_integrated, integrate_body, Mover};
use crate::units::Vec2i;
use vstd::prelude::*;

verus! {

/// Downward acceleration of the player, in subpixels per millisecond
/// squared. Equal to 9.81 * 60 pixels per second squared.
pub const PLAYER_GRAVITY: i64 = 588_600;

/// Vertical velocity set by a jump, in subpixels per millisecond. Equal to
/// 5 * 60 pixels per second.
pub const LEAP_Y_VELOCITY: i64 = 300_000_000;

/// Notification that the player passed a pillar's gap and scored.
#[derive(Clone, Copy, Debug, PartialEq, Eq, Structural)]
pub struct PlayerCrossedPillarEvent;

/// Notification that the player collided with a pillar or left the play
/// bounds.
#[derive(Clone, Copy, Debug, PartialEq, Eq, Structural)]
pub struct PlayerKilledEvent;

/// The player entity: its kinematic body and its position, in subpixels,
/// relative to the window's center.
#[derive(Clone, Copy, Debug, PartialEq, Eq, Structural)]
pub struct Player {
    pub mover: Mover,
    pub position: Vec2i,
}

/// The player as it is created and as a new game resets it: at the origin,
/// motionless, with constant downward gravity, always active.
pub open spec fn player_spawned() -> Player {
    Player {
        mover: Mover {
            active: true,
            velocity: Vec2i { x: 0, y: 0 },
            acceleration: Vec2i { x: 0, y: (-PLAYER_GRAVITY) as i64 },
        },
        position: Vec2i { x: 0, y: 0 },
    }
}

/// Creates the player entity.
pub fn setup_player() -> (p: Player)
    ensures
        p == player_spawned(),
{
    Player {
        mover: Mover {
            active: true,
            velocity: Vec2i { x: 0, y: 0 },
            acceleration: Vec2i { x: 0, y: -PLAYER_GRAVITY },
        },
        position: Vec2i { x: 0, y: 0 },
    }
}

/// The player after one integration step.
pub open spec fn player_integrated(p: Player, dt_ms: u32) -> Player {
    let stepped = body_integrated(p.mover, p.position, dt_ms);
    Player { mover: stepped.0, position: stepped.1 }
}

/// Integrates the player over `dt_ms` milliseconds.
pub fn integrate_player(p: Player, dt_ms: u32) -> (r: Player)
    ensures
        r == player_integrated(p, dt_ms),
{
    let (mover, position) = integrate_body(p.mover, p.position, dt_ms);
    Player { mover, position }
}

/// The player after the jump input is applied: while playing, a jump edge
/// overwrites the vertical velocity with [`LEAP_Y_VELOCITY`]; otherwise the
/// player is untouched.
pub open spec fn player_after_input(p: Player, playing: bool, jump_pressed: bool) -> Player {
    if playing && jump_pressed {
        Player {
            mover: Mover {
                active: p.mover.active,
                velocity: Vec2i { x: p.mover.velocity.x, y: LEAP_Y_VELOCITY },
                acceleration: p.mover.acceleration,
            },
            position: p.position,
        }
    } else {
        p
    }
}

/// Applies the jump input to the player.
pub fn player_input_system(p: &mut Player, playing: bool, jump_pressed: bool)
    ensures
        *final(p) == player_after_input(*old(p), playing, jump_pressed),
{
    if playing && jump_pressed {
        p.mover.velocity.y = LEAP_Y_VELOCITY;
    }
}

/// Whether a vertical position lies outside the play bounds
/// `-window_height / 2 ..= window_height / 2`.
pub open spec fn out_of_bounds(y: i64, window_height: i64) -> bool {
    y < -(window_height / 2) || y > window_height / 2
}

/// Tests a vertical position against the play bounds. The test is a pure
/// function of the position and the window height, so re-checking an
/// unchanged position within a tick can never yield a different verdict.
pub fn check_bounds(y: i64, window_height: i64) -> (r: bool)
    requires
        window_height >= 0,
    ensures
        r == out_of_bounds(y, window_height),
{
    y < -(window_height / 2) || y > window_height / 2
}

/// Emits a kill if the game is playing and the player is outside the
/// vertical play bounds. At most one [`PlayerKilledEvent`] is appended.
pub fn player_bounds_check_system(
    p: &Player,
    playing: bool,
    window_height: i64,
    killed_events: &mut Vec<PlayerKilledEvent>,
)
    requires
        window_height >= 0,
    ensures
        final(killed_events)@ == if playing && out_of_bounds(p.position.y, window_height) {
            old(killed_events)@.push(PlayerKilledEvent)
        } else {
            old(killed_events)@
        },
{
    if playing && check_bounds(p.position.y, window_height) {
        killed_events.push(PlayerKilledEvent);
    }
}

/// The player as a new game resets it: back to the origin with zero
/// velocity, keeping its activity and its constant gravity.
pub open spec fn player_new_game(p: Player) -> Player {
    Player {
        mover: Mover {
            active: p.mover.active,
            velocity: Vec2i { x: 0, y: 0 },
            acceleration: p.mover.acceleration,
        },
        position: Vec2i { x: 0, y: 0 },
    }
}

/// Resets the player for a new game: back to the origin with zero velocity.
pub fn new_game_system(p: &mut Player)
    ensures
        *final(p) == player_new_game(*old(p)),
{
    p.position = Vec2i { x: 0, y: 0 };
    p.mover.velocity = Vec2i { x: 0, y: 0 };
}

} // verus!
