use arcade_core::bounds::{confine_player_movement, PLAYER_HALF_EXTENT};
use arcade_core::collision::players_touch;
use arcade_core::input::{input_direction, KeySet, DIR_SCALE, DIR_SQ_MIN};
use arcade_core::motion::player_movement;
use arcade_core::sim::{player_hit_enemy, step, GameState};
use arcade_core::units::{Vec2, Viewport, POS_SCALE};

fn keys(left: bool, right: bool, up: bool, down: bool) -> KeySet {
    let mut k = KeySet::none();
    k.left = left;
    k.right = right;
    k.up = up;
    k.down = down;
    k
}

#[test]
fn no_keys_give_zero_vector() {
    let d = input_direction(&KeySet::none());
    assert_eq!(d.x, 0);
    assert_eq!(d.y, 0);
}

#[test]
fn cancelling_keys_give_zero_vector() {
    let d = input_direction(&keys(true, true, true, true));
    assert_eq!(d.x, 0);
    assert_eq!(d.y, 0);
}

#[test]
fn letter_aliases_act_as_arrows() {
    let mut k = KeySet::none();
    k.d = true;
    k.w = true;
    let via_letters = input_direction(&k);
    let via_arrows = input_direction(&keys(false, true, true, false));
    assert_eq!(via_letters, via_arrows);
}

#[test]
fn axis_direction_has_exact_unit_length() {
    let d = input_direction(&keys(true, false, false, false));
    assert_eq!(d.x, -DIR_SCALE);
    assert_eq!(d.y, 0);
    assert_eq!(d.x * d.x + d.y * d.y, DIR_SCALE * DIR_SCALE);
}

#[test]
fn diagonal_direction_has_unit_length_within_epsilon() {
    let d = input_direction(&keys(false, true, true, false));
    let sq = d.x * d.x + d.y * d.y;
    assert!(DIR_SQ_MIN <= sq && sq <= DIR_SCALE * DIR_SCALE);
    let len = ((sq as f64).sqrt()) / (DIR_SCALE as f64);
    assert!((len - 1.0).abs() < 1e-3);
}

#[test]
fn motion_moves_at_player_speed() {
    // 500 units/s for 16 ms moves the player exactly 8 units.
    let d = input_direction(&keys(false, true, false, false));
    let p = Vec2::from_units(100, 100);
    let m = player_movement(&p, &d, 16);
    assert_eq!(m.x, 108 * POS_SCALE);
    assert_eq!(m.y, 100 * POS_SCALE);
}

#[test]
fn doubling_frame_time_doubles_displacement() {
    let d = input_direction(&keys(false, true, true, false));
    let p = Vec2::from_units(40, 60);
    let once = player_movement(&p, &d, 17);
    let twice = player_movement(&p, &d, 34);
    assert_eq!(twice.x - p.x, 2 * (once.x - p.x));
    assert_eq!(twice.y - p.y, 2 * (once.y - p.y));
}

#[test]
fn confine_keeps_player_inside_viewport() {
    let vp = Viewport::from_units(800, 600);
    for &(x, y) in &[(0i64, 0i64), (400, 300), (-250, 900), (799, 599), (5000, -5000)] {
        let c = confine_player_movement(&Vec2::from_units(x, y), &vp);
        assert!(PLAYER_HALF_EXTENT <= c.x && c.x <= vp.width - PLAYER_HALF_EXTENT);
        assert!(PLAYER_HALF_EXTENT <= c.y && c.y <= vp.height - PLAYER_HALF_EXTENT);
    }
}

#[test]
fn confine_leaves_interior_points_alone() {
    let vp = Viewport::from_units(800, 600);
    let p = Vec2::from_units(400, 300);
    let c = confine_player_movement(&p, &vp);
    assert_eq!(c, p);
}

#[test]
fn degenerate_viewport_clamps_to_lower_bound() {
    // Width 50 is smaller than the 200-unit sprite: the bounds cross, the
    // lower bound is applied last, and x = 500 lands on 100, not on -50.
    let vp = Viewport::from_units(50, 600);
    let c = confine_player_movement(&Vec2::from_units(500, 300), &vp);
    assert_eq!(c.x, 100 * POS_SCALE);
}

#[test]
fn distant_pair_does_not_touch() {
    let p = Vec2::from_units(0, 0);
    let e = Vec2::from_units(1000, 1000);
    // Distance is about 1414.2 units, well above the 100-unit threshold.
    assert!(!players_touch(&p, &e));
}

#[test]
fn coincident_pair_touches() {
    let p = Vec2::from_units(100, 100);
    assert!(players_touch(&p, &p));
}

#[test]
fn threshold_distance_does_not_touch() {
    // Exactly 100 units apart: the rule requires strictly less.
    let p = Vec2::from_units(0, 0);
    let e = Vec2::from_units(100, 0);
    assert!(!players_touch(&p, &e));
    let closer = Vec2 { x: 100 * POS_SCALE - 1, y: 0 };
    assert!(players_touch(&p, &closer));
}

#[test]
fn collision_increments_score_and_relocates_enemy() {
    let vp = Viewport::from_units(800, 600);
    let mut state = GameState {
        player: Vec2::from_units(100, 100),
        enemy: Vec2::from_units(100, 100),
        score: 5,
    };
    let hit = player_hit_enemy(&mut state, &vp);
    assert!(hit);
    assert_eq!(state.score, 6);
    assert!(0 <= state.enemy.x && state.enemy.x < vp.width);
    assert!(0 <= state.enemy.y && state.enemy.y < vp.height);
    assert_eq!(state.player, Vec2::from_units(100, 100));
}

#[test]
fn miss_changes_nothing() {
    let vp = Viewport::from_units(800, 600);
    let before = GameState {
        player: Vec2::from_units(0, 0),
        enemy: Vec2::from_units(1000, 1000),
        score: 7,
    };
    let mut state = before;
    let hit = player_hit_enemy(&mut state, &vp);
    assert!(!hit);
    assert_eq!(state, before);
}

#[test]
fn new_game_starts_centred_with_zero_score() {
    let vp = Viewport::from_units(800, 600);
    for _ in 0..100 {
        let s = GameState::new(&vp);
        assert_eq!(s.player.x, 400 * POS_SCALE);
        assert_eq!(s.player.y, 300 * POS_SCALE);
        assert!(0 <= s.enemy.x && s.enemy.x < vp.width);
        assert!(0 <= s.enemy.y && s.enemy.y < vp.height);
        assert_eq!(s.score, 0);
    }
}

#[test]
fn step_runs_motion_then_clamp_then_collision() {
    let vp = Viewport::from_units(800, 600);
    let mut state = GameState {
        // 4 units short of the enemy; far inside the bounds.
        player: Vec2::from_units(296, 300),
        enemy: Vec2::from_units(400, 300),
        score: 0,
    };
    // 16 ms to the right moves 8 units, to x = 304: now 96 units from the
    // enemy, inside the 100-unit threshold.
    let hit = step(&mut state, &keys(false, true, false, false), 16, &vp);
    assert!(hit);
    assert_eq!(state.player.x, 304 * POS_SCALE);
    assert_eq!(state.player.y, 300 * POS_SCALE);
    assert_eq!(state.score, 1);
}

#[test]
fn step_clamps_before_collision() {
    let vp = Viewport::from_units(800, 600);
    let mut state = GameState {
        // Motion alone would carry the player to x = 808, out of bounds and
        // 168 units from the enemy; the clamp pulls it back to 700, 60 units
        // from the enemy, and only then is collision evaluated.
        player: Vec2::from_units(800, 300),
        enemy: Vec2::from_units(640, 300),
        score: 0,
    };
    let hit = step(&mut state, &keys(false, true, false, false), 16, &vp);
    assert_eq!(state.player.x, 700 * POS_SCALE);
    assert!(hit);
    assert_eq!(state.score, 1);
}

#[test]
fn step_without_input_leaves_still_player_in_place() {
    let vp = Viewport::from_units(800, 600);
    let mut state = GameState {
        player: Vec2::from_units(400, 300),
        enemy: Vec2::from_units(100, 100),
        score: 3,
    };
    let hit = step(&mut state, &KeySet::none(), 16, &vp);
    assert!(!hit);
    assert_eq!(state.player, Vec2::from_units(400, 300));
    assert_eq!(state.enemy, Vec2::from_units(100, 100));
    assert_eq!(state.score, 3);
}
