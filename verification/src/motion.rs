//! Player motion: integrate the movement direction against elapsed frame
//! time and the fixed player speed.
//!
//! The update is the pure rule `new = pos + dir * PLAYER_SPEED * dt`; it does
//! not itself enforce bounds. The scales are chosen so that the displacement
//! is a single exact product: a direction component is `1/DIR_SCALE` units,
//! `dt` is `1/1000` seconds, and a coordinate subunit is
//! `1/(DIR_SCALE * 1000)` world units, so no division (and so no rounding)
//! occurs and the displacement is exactly linear in `dt`.

use vstd::prelude::*;
use crate::input::{Direction, DIR_SCALE};
use crate::units::{Vec2, COORD_LIMIT};

verus! {

/// Player speed, in world units per second.
pub const PLAYER_SPEED: i64 = 500;

/// Largest frame time the motion rule accepts, in milliseconds; far above any
/// real frame, it only keeps the displacement product inside `i64`.
pub const MAX_FRAME_MS: u64 = 1_000_000_000;

/// Largest one-frame displacement magnitude, in subunits:
/// `DIR_SCALE * PLAYER_SPEED * MAX_FRAME_MS`.
pub const MAX_FRAME_STEP: i64 = 500_000_000_000_000;

/// Displacement along one axis, in subunits, for direction component `c`
/// after `dt` milliseconds.
pub open spec fn displacement(c: int, dt: int) -> int {
    c * PLAYER_SPEED * dt
}

/// Integrate one frame of motion: `pos + dir * PLAYER_SPEED * dt`, exactly,
/// on each axis.
pub fn player_movement(pos: &Vec2, dir: &Direction, dt_ms: u64) -> (r: Vec2)
    requires
        pos.in_range(),
        -DIR_SCALE <= dir.x <= DIR_SCALE,
        -DIR_SCALE <= dir.y <= DIR_SCALE,
        dt_ms <= MAX_FRAME_MS,
    ensures
        r.x == pos.x + displacement(dir.x as int, dt_ms as int),
        r.y == pos.y + displacement(dir.y as int, dt_ms as int),
        -COORD_LIMIT - MAX_FRAME_STEP <= r.x <= COORD_LIMIT + MAX_FRAME_STEP,
        -COORD_LIMIT - MAX_FRAME_STEP <= r.y <= COORD_LIMIT + MAX_FRAME_STEP,
{
    proof {
        lemma_displacement_bound(dir.x as int, dt_ms as int);
        lemma_displacement_bound(dir.y as int, dt_ms as int);
    }
    let vx: i64 = dir.x * PLAYER_SPEED;
    let vy: i64 = dir.y * PLAYER_SPEED;
    let dx: i64 = vx * (dt_ms as i64);
    let dy: i64 = vy * (dt_ms as i64);
    Vec2 { x: pos.x + dx, y: pos.y + dy }
}

/// A direction component within `±DIR_SCALE` moves the player by at most
/// `MAX_FRAME_STEP` subunits in one frame.
proof fn lemma_displacement_bound(c: int, dt: int)
    by (nonlinear_arith)
    requires
        -DIR_SCALE <= c <= DIR_SCALE,
        0 <= dt <= MAX_FRAME_MS,
    ensures
        -MAX_FRAME_STEP <= displacement(c, dt) <= MAX_FRAME_STEP,
        -MAX_FRAME_STEP <= c * PLAYER_SPEED * dt <= MAX_FRAME_STEP,
        -DIR_SCALE * PLAYER_SPEED <= c * PLAYER_SPEED <= DIR_SCALE * PLAYER_SPEED,
{
}

/// The motion rule is linear in the frame time: with the direction fixed,
/// doubling `dt` exactly doubles the displacement on each axis.
pub proof fn lemma_motion_linear_in_dt(c: int, dt: int)
    by (nonlinear_arith)
    ensures
        displacement(c, 2 * dt) == 2 * displacement(c, dt),
{
}

} // verus!
