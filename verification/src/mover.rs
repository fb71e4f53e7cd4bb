//! The kinematic integrator.
//!
//! Every moving entity owns a [`Mover`]: an `active` flag, a velocity and a
//! constant acceleration. While the game is in the `Playing` phase, each
//! active body advances by `velocity += acceleration * dt` followed by
//! `position += velocity * dt`; inactive bodies are skipped entirely.
//! Entities that carry a [`MoverWindowLeftDespawnBound`] are deactivated and
//! parked at the window's right edge once they scroll fully past its left
//! edge.

use crate::units::{advance, advanced, Vec2i};
use vstd::prelude::*;

verus! {

/// Kinematic state of one entity. The acceleration is fixed per entity kind
/// (gravity for the player, zero for pillars) and is never mutated by
/// gameplay logic; only the velocity and the externally held position change
/// at runtime. `active == false` means "off stage": the body keeps its state
/// but does not move.
#[derive(Clone, Copy, Debug, PartialEq, Eq, Structural)]
pub struct Mover {
    pub active: bool,
    pub velocity: Vec2i,
    pub acceleration: Vec2i,
}

/// Marks an entity that is recycled once it has fully scrolled past the
/// window's left edge; `object_width` is the entity's visible width in
/// subpixels.
#[derive(Clone, Copy, Debug, PartialEq, Eq, Structural)]
pub struct MoverWindowLeftDespawnBound {
    pub object_width: i64,
}

/// One integration step of a body's velocity: `velocity += acceleration * dt`,
/// saturating at the limits of `i64`.
pub open spec fn mover_integrated(m: Mover, dt_ms: u32) -> Mover {
    Mover {
        active: m.active,
        velocity: Vec2i {
            x: advanced(m.velocity.x, m.acceleration.x, dt_ms),
            y: advanced(m.velocity.y, m.acceleration.y, dt_ms),
        },
        acceleration: m.acceleration,
    }
}

/// One integration step of a body: for an active body the velocity advances
/// by the acceleration and then the position advances by the new velocity;
/// an inactive body is left untouched.
pub open spec fn body_integrated(m: Mover, position: Vec2i, dt_ms: u32) -> (Mover, Vec2i) {
    if m.active {
        let moved = mover_integrated(m, dt_ms);
        (
            moved,
            Vec2i {
                x: advanced(position.x, moved.velocity.x, dt_ms),
                y: advanced(position.y, moved.velocity.y, dt_ms),
            },
        )
    } else {
        (m, position)
    }
}

/// Integrates one body over `dt_ms` milliseconds.
pub fn integrate_body(m: Mover, position: Vec2i, dt_ms: u32) -> (r: (Mover, Vec2i))
    ensures
        r == body_integrated(m, position, dt_ms),
{
    if m.active {
        let velocity = Vec2i {
            x: advance(m.velocity.x, m.acceleration.x, dt_ms),
            y: advance(m.velocity.y, m.acceleration.y, dt_ms),
        };
        let moved = Mover { active: m.active, velocity, acceleration: m.acceleration };
        let position = Vec2i {
            x: advance(position.x, moved.velocity.x, dt_ms),
            y: advance(position.y, moved.velocity.y, dt_ms),
        };
        (moved, position)
    } else {
        (m, position)
    }
}

/// Whether an active body has scrolled fully past the window's left edge,
/// that is, its position lies left of `-window_width / 2 - object_width / 2`.
pub open spec fn off_left_edge(
    bound: MoverWindowLeftDespawnBound,
    m: Mover,
    position: Vec2i,
    window_width: i64,
) -> bool {
    m.active && position.x < -(window_width / 2) - bound.object_width / 2
}

/// A body once the left-edge sweep has run: a body that is off the left edge
/// is deactivated and parked at `x = window_width`, well right of the view;
/// any other body is untouched.
pub open spec fn body_despawned_at_left(
    bound: MoverWindowLeftDespawnBound,
    m: Mover,
    position: Vec2i,
    window_width: i64,
) -> (Mover, Vec2i) {
    if off_left_edge(bound, m, position, window_width) {
        (
            Mover { active: false, velocity: m.velocity, acceleration: m.acceleration },
            Vec2i { x: window_width, y: position.y },
        )
    } else {
        (m, position)
    }
}

/// Runs the left-edge sweep on one body.
pub fn despawn_body_at_left(
    bound: MoverWindowLeftDespawnBound,
    m: Mover,
    position: Vec2i,
    window_width: i64,
) -> (r: (Mover, Vec2i))
    requires
        window_width >= 0,
        bound.object_width >= 0,
    ensures
        r == body_despawned_at_left(bound, m, position, window_width),
{
    if m.active && position.x < -(window_width / 2) - bound.object_width / 2 {
        (
            Mover { active: false, velocity: m.velocity, acceleration: m.acceleration },
            Vec2i { x: window_width, y: position.y },
        )
    } else {
        (m, position)
    }
}

} // verus!
