//! Runtime core of a 2D side-scrolling platformer: sprite/transform layer,
//! frame-based animation, axis-aligned collision detection, entity simulation
//! (player, enemies, platforms, pickups), per-frame level simulation with
//! procedural platform regeneration, and a hierarchical screen state machine.
//!
//! All geometry is measured in milli-units (one thousandth of a world unit,
//! origin at screen center, `+y` up) and all time in milliseconds, so that
//! every simulation step is exact integer arithmetic. Rendering, asset
//! loading and the window system are external collaborators: this crate only
//! keeps the state they read.

pub mod background;
pub mod collision;
pub mod enemy;
pub mod game;
pub mod gui;
pub mod input_mgr;
pub mod platform;
pub mod player;
pub mod rng;
pub mod screen_mgr;
pub mod screens;
pub mod shape;
pub mod texture;

use vstd::prelude::*;

verus! {

/// Largest magnitude a world coordinate (in milli-units) may take. Mutators
/// clamp to this range; it is far outside the visible play field, so inside
/// the play field the clamped arithmetic coincides with the exact one.
pub const COORD_LIMIT: i64 = 1_000_000_000_000;

/// Largest frame delta (in milliseconds) a single update accepts.
pub const MAX_DT: i64 = 1_000_000_000;

/// What a world coordinate becomes after a mutation: the exact result,
/// brought back into the coordinate range if it left it.
pub open spec fn clamp_coord(v: int) -> int {
    if v < -COORD_LIMIT {
        -COORD_LIMIT as int
    } else if v > COORD_LIMIT {
        COORD_LIMIT as int
    } else {
        v
    }
}

/// Exec form of `clamp_coord` for `i64` values that cannot overflow.
pub fn clamp_i64(v: i64) -> (r: i64)
    ensures
        r as int == clamp_coord(v as int),
{
    if v < -COORD_LIMIT {
        -COORD_LIMIT
    } else if v > COORD_LIMIT {
        COORD_LIMIT
    } else {
        v
    }
}

} // verus!
