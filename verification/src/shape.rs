//! World geometry constants and the flip axis used when mirroring sprites.
//!
//! Coordinates are in milli-units: one thousandth of a world unit. The world
//! origin is the screen center, `+x` right and `+y` up.

use vstd::prelude::*;

verus! {

/// Screen height in milli-units.
pub const SCREEN_HEIGHT: i64 = 576_000;

/// Screen width in milli-units.
pub const SCREEN_WIDTH: i64 = 768_000;

/// Lowest visible `y`.
pub const BOTTOM: i64 = -288_000;

/// Highest visible `y`.
pub const TOP: i64 = 288_000;

/// Leftmost visible `x`.
pub const LEFT: i64 = -384_000;

/// Rightmost visible `x`.
pub const RIGHT: i64 = 384_000;

/// Axis along which a sprite's texture coordinates are flipped.
#[derive(Debug, PartialEq, Eq, Structural, Clone, Copy)]
pub enum Direction {
    Horizontal,
    Vertical,
}

} // verus!
