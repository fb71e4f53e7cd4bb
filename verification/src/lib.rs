//! Verified core of a side-scrolling obstacle-avoidance arcade game.
//!
//! A player entity falls under constant gravity and can leap upward on input,
//! while a fixed pool of obstacle pairs ("pillars") scrolls leftward across
//! the screen. Colliding with a pillar or leaving the vertical play bounds
//! ends the game; passing through a pillar's gap scores a point.
//!
//! The library holds the whole simulation: the kinematic integrator, the
//! pillar pool with its spawn timer, collision and crossing detection, the
//! game-state machine, the score tracker, and the per-tick event queues that
//! connect them. Geometry is measured in integer subpixels and time in whole
//! milliseconds, so every step of the simulation has an exact contract. A
//! host loop (rendering, input, audio) drives [`world::World::tick`] once per
//! frame and reacts to the events it returns.

pub mod game_state;
pub mod laws;
pub mod mover;
pub mod pillars;
pub mod player;
mod rng;
pub mod score;
pub mod units;
pub mod world;
