//! Collision test and enemy respawn.
//!
//! The player touches the enemy when the Euclidean distance between their
//! positions falls below the player's half-extent (the enemy's own size is
//! deliberately ignored, preserving the game's loose threshold). Working in
//! exact integers, the test compares squared distances, which agrees exactly
//! with comparing the real distances. A respawn samples each axis uniformly
//! from `[0, dimension)` by scaling a fresh 32-bit random draw.

use vstd::prelude::*;
use vstd::arithmetic::div_mod::{lemma_div_pos_is_pos, lemma_multiply_divide_lt};
use vstd::arithmetic::mul::lemma_mul_inequality;
use crate::bounds::PLAYER_HALF_EXTENT;
use crate::units::{Vec2, Viewport, COORD_LIMIT};

verus! {

/// Squared Euclidean distance between two points, in squared subunits.
pub open spec fn dist_sq(p: Vec2, e: Vec2) -> int {
    (p.x - e.x) * (p.x - e.x) + (p.y - e.y) * (p.y - e.y)
}

/// The collision rule fires: the distance between player and enemy is below
/// the player's half-extent.
pub open spec fn collides(p: Vec2, e: Vec2) -> bool {
    dist_sq(p, e) < PLAYER_HALF_EXTENT * PLAYER_HALF_EXTENT
}

/// The point lies inside the viewport's respawn region `[0, width) x [0,
/// height)`.
pub open spec fn in_respawn_region(p: Vec2, vp: Viewport) -> bool {
    0 <= p.x < vp.width && 0 <= p.y < vp.height
}

/// Relies on `rand::random`: a fresh sample of the `Standard` distribution.
/// Nothing is assumed of the value drawn; every `u32` may come back.
#[verifier::external_body]
fn random_u32() -> u32 {
    rand::random::<u32>()
}

/// Decide whether player and enemy currently touch.
pub fn players_touch(player: &Vec2, enemy: &Vec2) -> (r: bool)
    requires
        player.in_range(),
        enemy.in_range(),
    ensures
        r == collides(*player, *enemy),
{
    proof {
        lemma_sq_bound(player.x - enemy.x);
        lemma_sq_bound(player.y - enemy.y);
        assert(PLAYER_HALF_EXTENT as int * PLAYER_HALF_EXTENT as int
            == 10_000_000_000_000_000) by (nonlinear_arith);
    }
    let dx: i128 = player.x as i128 - enemy.x as i128;
    let dy: i128 = player.y as i128 - enemy.y as i128;
    let d2: i128 = dx * dx + dy * dy;
    d2 < 10_000_000_000_000_000i128
}

/// The square of a coordinate difference stays far inside `i128`.
proof fn lemma_sq_bound(d: int)
    by (nonlinear_arith)
    requires
        -2 * COORD_LIMIT <= d <= 2 * COORD_LIMIT,
    ensures
        0 <= d * d <= 4 * COORD_LIMIT * COORD_LIMIT,
{
}

/// Scale a uniform 32-bit draw onto `[0, extent)`: the exact quotient
/// `(r * extent) / 2^32`.
pub fn scale_to_extent(r: u32, extent: i64) -> (v: i64)
    requires
        0 < extent,
    ensures
        v == (r as int * extent as int) / 0x1_0000_0000,
        0 <= v < extent,
{
    proof {
        lemma_mul_inequality(r as int, 0xffff_ffff, extent as int);
        lemma_multiply_divide_lt(r as int * extent as int, 0x1_0000_0000, extent as int);
        lemma_div_pos_is_pos(r as int * extent as int, 0x1_0000_0000);
    }
    let wide: u128 = (r as u128) * (extent as u128);
    (wide / 0x1_0000_0000u128) as i64
}

/// Draw a fresh position for the enemy, sampling each axis independently
/// from `[0, dimension)`. The draw is random, so only the region that every
/// outcome lands in is promised.
pub fn spawn_enemy_position(vp: &Viewport) -> (p: Vec2)
    requires
        vp.wf(),
    ensures
        in_respawn_region(p, *vp),
        p.in_range(),
{
    let rx = random_u32();
    let ry = random_u32();
    let x = scale_to_extent(rx, vp.width);
    let y = scale_to_extent(ry, vp.height);
    Vec2 { x, y }
}

} // verus!
