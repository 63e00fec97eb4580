//! Input mapping: from the set of currently-held keys to a movement
//! direction.
//!
//! Each axis sums unit contributions — left/right cancel, as do up/down — and
//! a nonzero sum is normalized to (nearly) unit length. Directions are carried
//! in fixed point, `DIR_SCALE` per unit length, so a diagonal component is
//! `DIR_DIAG` = round(DIR_SCALE / sqrt(2)).

use vstd::prelude::*;

verus! {

/// Fixed-point one for direction components.
pub const DIR_SCALE: i64 = 1_000;

/// Per-axis component of a normalized diagonal: `DIR_SCALE / sqrt(2)`,
/// rounded to the nearest integer below.
pub const DIR_DIAG: i64 = 707;

/// Smallest squared length of a nonzero direction; `2 * DIR_DIAG * DIR_DIAG`,
/// just under `DIR_SCALE * DIR_SCALE` because of fixed-point rounding.
pub const DIR_SQ_MIN: i64 = 999_698;

/// The directional keys held during one frame. Each arrow key has a letter
/// alias that acts identically.
#[derive(Clone, Copy, PartialEq, Eq, Structural, Debug)]
pub struct KeySet {
    pub left: bool,
    pub right: bool,
    pub up: bool,
    pub down: bool,
    pub a: bool,
    pub d: bool,
    pub w: bool,
    pub s: bool,
}

impl KeySet {
    /// A key set with nothing held.
    pub fn none() -> (r: KeySet)
        ensures
            !r.left && !r.right && !r.up && !r.down && !r.a && !r.d && !r.w && !r.s,
    {
        KeySet {
            left: false,
            right: false,
            up: false,
            down: false,
            a: false,
            d: false,
            w: false,
            s: false,
        }
    }
}

/// A movement direction in fixed point: the zero vector, a unit axis vector
/// (`±DIR_SCALE` on one axis), or a normalized diagonal (`±DIR_DIAG` on both).
#[derive(Clone, Copy, PartialEq, Eq, Structural, Debug)]
pub struct Direction {
    pub x: i64,
    pub y: i64,
}

/// Leftward movement is requested.
pub open spec fn left_held(k: KeySet) -> bool {
    k.left || k.a
}

/// Rightward movement is requested.
pub open spec fn right_held(k: KeySet) -> bool {
    k.right || k.d
}

/// Upward movement is requested.
pub open spec fn up_held(k: KeySet) -> bool {
    k.up || k.w
}

/// Downward movement is requested.
pub open spec fn down_held(k: KeySet) -> bool {
    k.down || k.s
}

/// No directional key at all is held.
pub open spec fn no_key_held(k: KeySet) -> bool {
    !left_held(k) && !right_held(k) && !up_held(k) && !down_held(k)
}

/// Signed sum of the horizontal unit contributions, in {-1, 0, 1}.
pub open spec fn net_x(k: KeySet) -> int {
    (if right_held(k) { 1int } else { 0int }) - (if left_held(k) { 1int } else { 0int })
}

/// Signed sum of the vertical unit contributions, in {-1, 0, 1}.
pub open spec fn net_y(k: KeySet) -> int {
    (if up_held(k) { 1int } else { 0int }) - (if down_held(k) { 1int } else { 0int })
}

/// Fixed-point x component of the normalized direction for key set `k`.
pub open spec fn dir_x(k: KeySet) -> int {
    if net_y(k) == 0 {
        net_x(k) * DIR_SCALE
    } else {
        net_x(k) * DIR_DIAG
    }
}

/// Fixed-point y component of the normalized direction for key set `k`.
pub open spec fn dir_y(k: KeySet) -> int {
    if net_x(k) == 0 {
        net_y(k) * DIR_SCALE
    } else {
        net_y(k) * DIR_DIAG
    }
}

/// Map the held keys to a movement direction.
///
/// With no directional key held (or with every held contribution cancelled by
/// its opposite) the result is the zero vector. A nonzero result has unit
/// length up to fixed-point rounding: its squared length lies within
/// `[DIR_SQ_MIN, DIR_SCALE * DIR_SCALE]`.
pub fn input_direction(k: &KeySet) -> (r: Direction)
    ensures
        r.x == dir_x(*k),
        r.y == dir_y(*k),
        no_key_held(*k) ==> r.x == 0 && r.y == 0,
        (r.x != 0 || r.y != 0) ==> DIR_SQ_MIN <= r.x * r.x + r.y * r.y <= DIR_SCALE
            * DIR_SCALE,
{
    let mut sx: i64 = 0;
    let mut sy: i64 = 0;
    if k.right || k.d {
        sx = sx + 1;
    }
    if k.left || k.a {
        sx = sx - 1;
    }
    if k.up || k.w {
        sy = sy + 1;
    }
    if k.down || k.s {
        sy = sy - 1;
    }
    let x: i64 = if sx == 0 {
        0
    } else if sy == 0 {
        if sx > 0 {
            DIR_SCALE
        } else {
            -DIR_SCALE
        }
    } else {
        if sx > 0 {
            DIR_DIAG
        } else {
            -DIR_DIAG
        }
    };
    let y: i64 = if sy == 0 {
        0
    } else if sx == 0 {
        if sy > 0 {
            DIR_SCALE
        } else {
            -DIR_SCALE
        }
    } else {
        if sy > 0 {
            DIR_DIAG
        } else {
            -DIR_DIAG
        }
    };
    proof {
        assert((x != 0 || y != 0) ==> DIR_SQ_MIN <= x * x + y * y <= DIR_SCALE * DIR_SCALE)
            by (nonlinear_arith)
            requires
                (x == 0 && y == 0) || (y == 0 && (x == DIR_SCALE || x == -DIR_SCALE)) || (x == 0
                    && (y == DIR_SCALE || y == -DIR_SCALE)) || ((x == DIR_DIAG || x == -DIR_DIAG)
                    && (y == DIR_DIAG || y == -DIR_DIAG)),
        ;
    }
    Direction { x, y }
}

} // verus!
