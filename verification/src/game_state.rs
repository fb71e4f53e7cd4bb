//! The game-state machine.
//!
//! The game is always in exactly one phase: `Loading`, `StartScreen`,
//! `Playing` or `GameOver`. The only mutator is [`update_game_state`], which
//! overwrites the phase and publishes an [`OnGameStateChangedEvent`] carrying
//! the new value, so no transition happens silently.

use crate::player::PlayerKilledEvent;
use vstd::prelude::*;

verus! {

/// The top-level mode of the game.
#[derive(Clone, Copy, Debug, PartialEq, Eq, Structural)]
pub enum GameStateType {
    Loading,
    StartScreen,
    Playing,
    GameOver,
}

/// Notification that a new game begins: either a first start from the start
/// screen or a restart after a game over. Reactors reset the player, the
/// pillar pool, the spawn timer and the score when they observe it.
#[derive(Clone, Copy, Debug, PartialEq, Eq, Structural)]
pub struct StartNewGameEvent;

/// Notification that every asset the host declared has finished loading.
#[derive(Clone, Copy, Debug, PartialEq, Eq, Structural)]
pub struct FinishLoadingEvent;

/// Notification that the phase changed, carrying the new phase.
#[derive(Clone, Copy, Debug, PartialEq, Eq, Structural)]
pub struct OnGameStateChangedEvent(pub GameStateType);

/// The process-wide current phase.
#[derive(Clone, Copy, Debug, PartialEq, Eq, Structural)]
pub struct GameState(pub GameStateType);

/// Whether the simulation is in the `Playing` phase.
pub fn is_playing(game_state: &GameState) -> (r: bool)
    ensures
        r == (game_state.0 is Playing),
{
    matches!(game_state.0, GameStateType::Playing)
}

/// Whether the simulation is in the `GameOver` phase.
pub fn is_game_over(game_state: &GameState) -> (r: bool)
    ensures
        r == (game_state.0 is GameOver),
{
    matches!(game_state.0, GameStateType::GameOver)
}

/// Whether the simulation is in the `Loading` phase.
pub fn is_loading(game_state: &GameState) -> (r: bool)
    ensures
        r == (game_state.0 is Loading),
{
    matches!(game_state.0, GameStateType::Loading)
}

/// Whether the simulation is in the `StartScreen` phase.
pub fn is_start_screen(game_state: &GameState) -> (r: bool)
    ensures
        r == (game_state.0 is StartScreen),
{
    matches!(game_state.0, GameStateType::StartScreen)
}

/// Overwrites the current phase and publishes the change.
pub fn update_game_state(
    new_state: GameStateType,
    game_status: &mut GameState,
    on_change_events: &mut Vec<OnGameStateChangedEvent>,
)
    ensures
        final(game_status).0 == new_state,
        final(on_change_events)@ == old(on_change_events)@.push(
            OnGameStateChangedEvent(new_state),
        ),
{
    game_status.0 = new_state;
    on_change_events.push(OnGameStateChangedEvent(new_state));
}

/// Applies this tick's finished-loading notifications: each one moves the
/// game to the start screen and publishes the change.
pub fn finish_loading_system(
    game_status: &mut GameState,
    finish_loading_events: &Vec<FinishLoadingEvent>,
    on_change_events: &mut Vec<OnGameStateChangedEvent>,
)
    ensures
        final(game_status).0 == if finish_loading_events@.len() > 0 {
            GameStateType::StartScreen
        } else {
            old(game_status).0
        },
        final(on_change_events)@ == old(on_change_events)@ + Seq::new(
            finish_loading_events@.len(),
            |i: int| OnGameStateChangedEvent(GameStateType::StartScreen),
        ),
{
    let mut i: usize = 0;
    while i < finish_loading_events.len()
        invariant
            i <= finish_loading_events@.len(),
            game_status.0 == if i > 0 {
                GameStateType::StartScreen
            } else {
                old(game_status).0
            },
            on_change_events@ == old(on_change_events)@ + Seq::new(
                i as nat,
                |j: int| OnGameStateChangedEvent(GameStateType::StartScreen),
            ),
        decreases finish_loading_events@.len() - i,
    {
        update_game_state(GameStateType::StartScreen, game_status, on_change_events);
        i += 1;
        proof {
            assert(on_change_events@ =~= old(on_change_events)@ + Seq::new(
                i as nat,
                |j: int| OnGameStateChangedEvent(GameStateType::StartScreen),
            ));
        }
    }
    proof {
        assert(on_change_events@ =~= old(on_change_events)@ + Seq::new(
            finish_loading_events@.len(),
            |i: int| OnGameStateChangedEvent(GameStateType::StartScreen),
        ));
    }
}

/// Applies this tick's new-game notifications: each one moves the game to
/// the `Playing` phase and publishes the change.
pub fn start_new_system(
    game_status: &mut GameState,
    start_events: &Vec<StartNewGameEvent>,
    on_change_events: &mut Vec<OnGameStateChangedEvent>,
)
    ensures
        final(game_status).0 == if start_events@.len() > 0 {
            GameStateType::Playing
        } else {
            old(game_status).0
        },
        final(on_change_events)@ == old(on_change_events)@ + Seq::new(
            start_events@.len(),
            |i: int| OnGameStateChangedEvent(GameStateType::Playing),
        ),
{
    let mut i: usize = 0;
    while i < start_events.len()
        invariant
            i <= start_events@.len(),
            game_status.0 == if i > 0 {
                GameStateType::Playing
            } else {
                old(game_status).0
            },
            on_change_events@ == old(on_change_events)@ + Seq::new(
                i as nat,
                |j: int| OnGameStateChangedEvent(GameStateType::Playing),
            ),
        decreases start_events@.len() - i,
    {
        update_game_state(GameStateType::Playing, game_status, on_change_events);
        i += 1;
        proof {
            assert(on_change_events@ =~= old(on_change_events)@ + Seq::new(
                i as nat,
                |j: int| OnGameStateChangedEvent(GameStateType::Playing),
            ));
        }
    }
    proof {
        assert(on_change_events@ =~= old(on_change_events)@ + Seq::new(
            start_events@.len(),
            |i: int| OnGameStateChangedEvent(GameStateType::Playing),
        ));
    }
}

/// Applies this tick's kill notifications: each one moves the game to the
/// `GameOver` phase and publishes the change.
pub fn game_over_system(
    game_status: &mut GameState,
    killed_events: &Vec<PlayerKilledEvent>,
    on_change_events: &mut Vec<OnGameStateChangedEvent>,
)
    ensures
        final(game_status).0 == if killed_events@.len() > 0 {
            GameStateType::GameOver
        } else {
            old(game_status).0
        },
        final(on_change_events)@ == old(on_change_events)@ + Seq::new(
            killed_events@.len(),
            |i: int| OnGameStateChangedEvent(GameStateType::GameOver),
        ),
{
    let mut i: usize = 0;
    while i < killed_events.len()
        invariant
            i <= killed_events@.len(),
            game_status.0 == if i > 0 {
                GameStateType::GameOver
            } else {
                old(game_status).0
            },
            on_change_events@ == old(on_change_events)@ + Seq::new(
                i as nat,
                |j: int| OnGameStateChangedEvent(GameStateType::GameOver),
            ),
        decreases killed_events@.len() - i,
    {
        update_game_state(GameStateType::GameOver, game_status, on_change_events);
        i += 1;
        proof {
            assert(on_change_events@ =~= old(on_change_events)@ + Seq::new(
                i as nat,
                |j: int| OnGameStateChangedEvent(GameStateType::GameOver),
            ));
        }
    }
    proof {
        assert(on_change_events@ =~= old(on_change_events)@ + Seq::new(
            killed_events@.len(),
            |i: int| OnGameStateChangedEvent(GameStateType::GameOver),
        ));
    }
}

} // verus!
