//! Fixed-point coordinate model.
//!
//! World coordinates are carried as `i64` subunits, `POS_SCALE` subunits per
//! world unit. All simulation arithmetic is exact integer arithmetic on this
//! scale; `COORD_LIMIT` bounds every coordinate the simulation keeps between
//! frames, leaving ample headroom below `i64::MAX` for one frame's worth of
//! motion and for squared distances computed in `i128`.

use vstd::prelude::*;

verus! {

/// Coordinate subunits per world unit.
pub const POS_SCALE: i64 = 1_000_000;

/// Bound on every coordinate held across frames, in subunits (one billion
/// world units): positions inside any viewport stay far below it.
pub const COORD_LIMIT: i64 = 1_000_000_000_000_000;

/// A 2D point or displacement in coordinate subunits.
#[derive(Clone, Copy, PartialEq, Eq, Structural, Debug)]
pub struct Vec2 {
    pub x: i64,
    pub y: i64,
}

impl Vec2 {
    /// Both coordinates within the simulation's coordinate bound.
    pub open spec fn in_range(self) -> bool {
        -COORD_LIMIT <= self.x <= COORD_LIMIT && -COORD_LIMIT <= self.y <= COORD_LIMIT
    }

    pub fn new(x: i64, y: i64) -> (r: Vec2)
        ensures
            r.x == x,
            r.y == y,
    {
        Vec2 { x, y }
    }

    /// Build a point from whole world units.
    pub fn from_units(x: i64, y: i64) -> (r: Vec2)
        requires
            -1_000_000_000 <= x <= 1_000_000_000,
            -1_000_000_000 <= y <= 1_000_000_000,
        ensures
            r.x == x * POS_SCALE,
            r.y == y * POS_SCALE,
            r.in_range(),
    {
        Vec2 { x: x * POS_SCALE, y: y * POS_SCALE }
    }
}

/// The playable rectangle `[0, width] x [0, height]`, in subunits. Supplied
/// live each frame by the windowing collaborator; never cached by the rules.
#[derive(Clone, Copy, PartialEq, Eq, Structural, Debug)]
pub struct Viewport {
    pub width: i64,
    pub height: i64,
}

impl Viewport {
    /// A usable viewport: positive extents within the coordinate bound.
    pub open spec fn wf(self) -> bool {
        0 < self.width <= COORD_LIMIT && 0 < self.height <= COORD_LIMIT
    }

    /// Build a viewport from whole world units.
    pub fn from_units(width: i64, height: i64) -> (r: Viewport)
        requires
            0 < width <= 1_000_000_000,
            0 < height <= 1_000_000_000,
        ensures
            r.width == width * POS_SCALE,
            r.height == height * POS_SCALE,
            r.wf(),
    {
        Viewport { width: width * POS_SCALE, height: height * POS_SCALE }
    }

    /// The window centre, where the player first spawns.
    pub fn center(&self) -> (r: Vec2)
        requires
            self.wf(),
        ensures
            r.x == self.width / 2,
            r.y == self.height / 2,
            r.in_range(),
    {
        Vec2 { x: self.width / 2, y: self.height / 2 }
    }
}

} // verus!
