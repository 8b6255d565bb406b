//! Fixed-point plane geometry: points, rectangles and RGB colors.
//!
//! A coordinate is an `i64` counting thousandths of a logical pixel, so
//! `1000` units are one pixel. Coordinates are kept inside a generous bound,
//! `COORD_LIMIT`, so that adding a tooltip offset or a tooltip extent can
//! never overflow.

use vstd::prelude::*;

verus! {

/// Fixed-point units per logical pixel.
pub const UNITS_PER_PX: i64 = 1000;

/// Bound on coordinates the library works with, in units (one billion
/// pixels either way: far beyond any screen, yet small enough that all
/// placement arithmetic stays inside `i64`).
pub const COORD_LIMIT: i64 = 1_000_000_000_000;

/// A point of the plane, in fixed-point units.
#[derive(Clone, Copy, PartialEq, Eq, Structural, Debug)]
pub struct Pos {
    pub x: i64,
    pub y: i64,
}

impl Pos {
    /// Both coordinates lie inside the working bound.
    pub open spec fn wf(self) -> bool {
        &&& -COORD_LIMIT <= self.x <= COORD_LIMIT
        &&& -COORD_LIMIT <= self.y <= COORD_LIMIT
    }
}

/// An axis-aligned rectangle, as its two corners.
#[derive(Clone, Copy, PartialEq, Eq, Structural, Debug)]
pub struct Rect {
    /// Top-left corner.
    pub min: Pos,
    /// Bottom-right corner.
    pub max: Pos,
}

/// An opaque RGB color.
#[derive(Clone, Copy, PartialEq, Eq, Structural, Debug)]
pub struct Color {
    pub r: u8,
    pub g: u8,
    pub b: u8,
}

} // verus!
