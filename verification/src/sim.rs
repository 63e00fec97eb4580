//! The simulation state and the per-frame update rules.
//!
//! The state owns exactly one player position, one enemy position and the
//! score counter, so the "exactly one of each" assumption of the game is an
//! invariant of the type rather than a per-frame query. A harness drives the
//! game by calling `step` once per frame, which applies the rules in the
//! required order: input mapping, motion, bounds clamp, then collision.

use vstd::prelude::*;
use crate::bounds::{clamp_low_last, confine_player_movement, PLAYER_HALF_EXTENT};
use crate::collision::{collides, in_respawn_region, players_touch, spawn_enemy_position};
use crate::input::{dir_x, dir_y, input_direction, KeySet};
use crate::motion::{displacement, player_movement, MAX_FRAME_MS};
use crate::units::{Vec2, Viewport};

verus! {

/// The whole mutable state of the game: the two singleton entities'
/// positions and the score.
#[derive(Clone, Copy, PartialEq, Eq, Structural, Debug)]
pub struct GameState {
    pub player: Vec2,
    pub enemy: Vec2,
    pub score: u64,
}

impl GameState {
    /// Both positions within the simulation's coordinate bound.
    pub open spec fn wf(self) -> bool {
        self.player.in_range() && self.enemy.in_range()
    }

    /// Start a game: the player at the viewport's centre, the enemy at a
    /// random position inside the viewport, the score at zero.
    pub fn new(vp: &Viewport) -> (s: GameState)
        requires
            vp.wf(),
        ensures
            s.player.x == vp.width / 2,
            s.player.y == vp.height / 2,
            in_respawn_region(s.enemy, *vp),
            s.score == 0,
            s.wf(),
    {
        GameState { player: vp.center(), enemy: spawn_enemy_position(vp), score: 0 }
    }
}

/// Resolve one frame's collision: when player and enemy touch, relocate the
/// enemy to a random position inside the viewport and raise the score by
/// exactly one; otherwise change nothing. The player is never moved here.
pub fn player_hit_enemy(state: &mut GameState, vp: &Viewport) -> (hit: bool)
    requires
        old(state).wf(),
        vp.wf(),
        old(state).score < u64::MAX,
    ensures
        hit == collides(old(state).player, old(state).enemy),
        final(state).player == old(state).player,
        !hit ==> *final(state) == *old(state),
        hit ==> final(state).score == old(state).score + 1,
        hit ==> in_respawn_region(final(state).enemy, *vp),
        final(state).score >= old(state).score,
        final(state).wf(),
{
    let hit = players_touch(&state.player, &state.enemy);
    if hit {
        state.enemy = spawn_enemy_position(vp);
        state.score = state.score + 1;
    }
    hit
}

/// Advance the simulation by one frame: map the held keys to a direction,
/// integrate the player's motion over `dt_ms`, clamp the player into the
/// viewport, then resolve collision against the enemy. Returns whether a
/// collision was resolved this frame.
pub fn step(state: &mut GameState, keys: &KeySet, dt_ms: u64, vp: &Viewport) -> (hit: bool)
    requires
        old(state).wf(),
        vp.wf(),
        dt_ms <= MAX_FRAME_MS,
        old(state).score < u64::MAX,
    ensures
        final(state).player.x == clamp_low_last(
            old(state).player.x + displacement(dir_x(*keys), dt_ms as int),
            PLAYER_HALF_EXTENT as int,
            vp.width - PLAYER_HALF_EXTENT,
        ),
        final(state).player.y == clamp_low_last(
            old(state).player.y + displacement(dir_y(*keys), dt_ms as int),
            PLAYER_HALF_EXTENT as int,
            vp.height - PLAYER_HALF_EXTENT,
        ),
        hit == collides(final(state).player, old(state).enemy),
        hit ==> final(state).score == old(state).score + 1 && in_respawn_region(
            final(state).enemy,
            *vp,
        ),
        !hit ==> final(state).score == old(state).score && final(state).enemy == old(
            state,
        ).enemy,
        final(state).score >= old(state).score,
        final(state).wf(),
{
    let dir = input_direction(keys);
    let moved = player_movement(&state.player, &dir, dt_ms);
    let confined = confine_player_movement(&moved, vp);
    state.player = confined;
    player_hit_enemy(state, vp)
}

} // verus!
