//! Integer units for the simulation.
//!
//! Positions are measured in subpixels (a fixed fraction of a screen pixel),
//! velocities in subpixels per millisecond and accelerations in subpixels per
//! millisecond squared. With one pixel split into a billion subpixels, all of
//! the game's tuning constants are exact integers, and one integration step
//! is a plain multiply-and-add with no rounding.

use vstd::prelude::*;

verus! {

/// How many subpixels make up one screen pixel.
pub const SUBPIXELS_PER_PIXEL: i64 = 1_000_000_000;

/// Largest window width or height the simulation accepts, in subpixels
/// (a million pixels). Keeping window sizes in this range keeps every
/// geometric comparison inside `i64`.
pub const MAX_WINDOW_DIM: i64 = 1_000_000 * SUBPIXELS_PER_PIXEL;

/// A two-dimensional vector in subpixel units.
#[derive(Clone, Copy, Debug, PartialEq, Eq, Structural)]
pub struct Vec2i {
    pub x: i64,
    pub y: i64,
}

/// `x` clamped to the range of `i64`.
pub open spec fn sat64(x: int) -> i64 {
    if x > i64::MAX {
        i64::MAX
    } else if x < i64::MIN {
        i64::MIN
    } else {
        x as i64
    }
}

/// The value `base` advanced by `rate` for `dt_ms` milliseconds, saturating
/// at the limits of `i64`.
pub open spec fn advanced(base: i64, rate: i64, dt_ms: u32) -> i64 {
    sat64(base + rate * dt_ms)
}

/// Computes `base + rate * dt_ms`, saturating at the limits of `i64`.
pub fn advance(base: i64, rate: i64, dt_ms: u32) -> (r: i64)
    ensures
        r == advanced(base, rate, dt_ms),
{
    proof {
        assert(i64::MIN * u32::MAX <= rate * dt_ms <= i64::MAX * u32::MAX) by (nonlinear_arith)
            requires
                i64::MIN <= rate <= i64::MAX,
                0 <= dt_ms <= u32::MAX,
        ;
    }
    let wide: i128 = (rate as i128) * (dt_ms as i128);
    let sum: i128 = (base as i128) + wide;
    if sum > i64::MAX as i128 {
        i64::MAX
    } else if sum < i64::MIN as i128 {
        i64::MIN
    } else {
        sum as i64
    }
}

/// `a + b` clamped to the range of `u32`.
pub open spec fn sat_add_u32(a: u32, b: nat) -> u32 {
    if a + b > u32::MAX {
        u32::MAX
    } else {
        (a + b) as u32
    }
}

} // verus!
