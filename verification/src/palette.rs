//! The fixed six-color palette and the rule that picks a marker's color
//! from the x coordinate of the click.
//!
//! The color is `palette[floor(x_px) mod 6]`, where `x_px` is the click's x
//! coordinate in pixels, taken as 0 when negative (screen coordinates are
//! non-negative; a negative coordinate is clamped rather than rejected).

use vstd::prelude::*;

use crate::geom::{Color, UNITS_PER_PX};

verus! {

/// Number of colors in the palette.
pub const PALETTE_LEN: usize = 6;

/// The palette, in the order colors are cycled through.
pub open spec fn spec_palette() -> Seq<Color> {
    seq![
        Color { r: 0, g: 254, b: 223 },
        Color { r: 255, g: 244, b: 92 },
        Color { r: 254, g: 144, b: 44 },
        Color { r: 254, g: 4, b: 4 },
        Color { r: 254, g: 58, b: 163 },
        Color { r: 174, g: 0, b: 217 },
    ]
}

/// The palette as a vector.
pub fn palette() -> (v: Vec<Color>)
    ensures
        v@ == spec_palette(),
{
    let v = vec![
        Color { r: 0, g: 254, b: 223 },
        Color { r: 255, g: 244, b: 92 },
        Color { r: 254, g: 144, b: 44 },
        Color { r: 254, g: 4, b: 4 },
        Color { r: 254, g: 58, b: 163 },
        Color { r: 174, g: 0, b: 217 },
    ];
    proof {
        assert(v@ =~= spec_palette());
    }
    v
}

/// The whole pixels of a fixed-point coordinate, clamped to 0 from below.
pub open spec fn spec_floor_px(x: int) -> int {
    if x < 0 {
        0
    } else {
        x / (UNITS_PER_PX as int)
    }
}

/// Index into the palette for a click at x coordinate `x` (in units).
pub open spec fn spec_color_index(x: int) -> int {
    spec_floor_px(x) % (PALETTE_LEN as int)
}

/// The palette color for a click at x coordinate `x` (in units).
pub open spec fn spec_marker_color(x: int) -> Color {
    spec_palette()[spec_color_index(x)]
}

/// Index into the palette for a click at x coordinate `x` (in units).
pub fn color_index(x: i64) -> (r: usize)
    ensures
        r as int == spec_color_index(x as int),
        r < PALETTE_LEN,
{
    if x < 0 {
        0
    } else {
        let px: u64 = (x as u64) / (UNITS_PER_PX as u64);
        (px % (PALETTE_LEN as u64)) as usize
    }
}

/// The palette color for a click at x coordinate `x` (in units).
pub fn pick_color(x: i64) -> (c: Color)
    ensures
        c == spec_marker_color(x as int),
{
    let colors = palette();
    let i = color_index(x);
    proof {
        assert(colors@.len() == 6);
    }
    colors[i]
}

} // verus!
