//! Bounds clamp: keep the player's sprite inside the playable rectangle.
//!
//! Each axis is clamped independently into `[half_extent, dimension -
//! half_extent]`, upper bound first, lower bound last. On a degenerate
//! viewport smaller than the sprite the two bounds cross and the
//! lower-bound-applied-last policy wins: the result is exactly the lower
//! bound. No error is raised in either case.

use vstd::prelude::*;
use crate::units::{Vec2, Viewport};

verus! {

/// Side length of the player's square sprite, in world units.
pub const PLAYER_SIZE: i64 = 200;

/// Half the player sprite's side, in subunits: `(PLAYER_SIZE / 2) * POS_SCALE`.
pub const PLAYER_HALF_EXTENT: i64 = 100_000_000;

/// Clamp `x` into `[lo, hi]`, applying the upper bound first and the lower
/// bound last, so that when `hi < lo` the result is `lo`.
pub open spec fn clamp_low_last(x: int, lo: int, hi: int) -> int {
    let capped = if x > hi {
        hi
    } else {
        x
    };
    if capped < lo {
        lo
    } else {
        capped
    }
}

/// Where the clamp sends the player's position for viewport `vp`, on each
/// axis: into `[PLAYER_HALF_EXTENT, dimension - PLAYER_HALF_EXTENT]`.
pub open spec fn confined_x(pos: Vec2, vp: Viewport) -> int {
    clamp_low_last(pos.x as int, PLAYER_HALF_EXTENT as int, vp.width - PLAYER_HALF_EXTENT)
}

/// The y-axis counterpart of `confined_x`.
pub open spec fn confined_y(pos: Vec2, vp: Viewport) -> int {
    clamp_low_last(pos.y as int, PLAYER_HALF_EXTENT as int, vp.height - PLAYER_HALF_EXTENT)
}

/// Clamp one coordinate into `[lo, hi]`, lower bound applied last.
fn clamp_axis(x: i64, lo: i64, hi: i64) -> (r: i64)
    ensures
        r == clamp_low_last(x as int, lo as int, hi as int),
{
    let capped: i64 = if x > hi {
        hi
    } else {
        x
    };
    if capped < lo {
        lo
    } else {
        capped
    }
}

/// Restrict a player position to the playable rectangle of `vp`.
///
/// On a viewport at least as large as the sprite, each output coordinate lies
/// in `[PLAYER_HALF_EXTENT, dimension - PLAYER_HALF_EXTENT]` and an
/// in-bounds input passes through unchanged. On a degenerate axis
/// (`dimension < 2 * PLAYER_HALF_EXTENT`) the output is exactly
/// `PLAYER_HALF_EXTENT`, the lower bound.
pub fn confine_player_movement(pos: &Vec2, vp: &Viewport) -> (r: Vec2)
    requires
        vp.wf(),
    ensures
        r.x == confined_x(*pos, *vp),
        r.y == confined_y(*pos, *vp),
        vp.width >= 2 * PLAYER_HALF_EXTENT ==> PLAYER_HALF_EXTENT <= r.x <= vp.width
            - PLAYER_HALF_EXTENT,
        vp.height >= 2 * PLAYER_HALF_EXTENT ==> PLAYER_HALF_EXTENT <= r.y <= vp.height
            - PLAYER_HALF_EXTENT,
        vp.width < 2 * PLAYER_HALF_EXTENT ==> r.x == PLAYER_HALF_EXTENT,
        vp.height < 2 * PLAYER_HALF_EXTENT ==> r.y == PLAYER_HALF_EXTENT,
        r.in_range(),
{
    let x = clamp_axis(pos.x, PLAYER_HALF_EXTENT, vp.width - PLAYER_HALF_EXTENT);
    let y = clamp_axis(pos.y, PLAYER_HALF_EXTENT, vp.height - PLAYER_HALF_EXTENT);
    Vec2 { x, y }
}

} // verus!
