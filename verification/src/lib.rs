//! Simulation core of a small 2D chase game: a player sprite moves inside a
//! window, a single enemy sits at a random position, and touching the enemy
//! respawns it elsewhere and raises a score counter.
//!
//! The engine that renders sprites, polls the keyboard and drives the frame
//! loop is an external collaborator; this crate holds only the per-frame
//! update rules, stated over exact fixed-point coordinates so that every rule
//! carries a proved contract. One world unit is `units::POS_SCALE` coordinate
//! subunits; frame time is measured in whole milliseconds.

pub mod bounds;
pub mod collision;
pub mod input;
pub mod motion;
pub mod sim;
pub mod units;

pub use sim::GameState;
pub use units::{Vec2, Viewport};
