//! Tooltip auto-placement.
//!
//! The tooltip of the marker at zero-based index `i` sits at an angle of
//! `i` tenths of a full half-turn — one thirty-sixth of a turn, ten degrees,
//! per index — on a circle of 50 px around the marker's own position:
//!
//! ```text
//! angle(i) = (2*pi / 36) * i
//! offset   = (50 * sin(angle(i)), 50 * cos(angle(i)))
//! min      = marker.pos + offset
//! max      = min + (width, height)
//! ```
//!
//! The two offset components are tabulated in fixed-point units (thousandths
//! of a pixel), rounded to the nearest unit; the angle repeats every 36
//! indices, so the table has 36 entries per axis. Placement is a pure
//! function of a marker's index and position, so running the pass twice
//! changes nothing the second time.

use vstd::prelude::*;

use crate::geom::{Pos, Rect};
use crate::marker::{Marker, Tooltip};

verus! {

/// Number of angular steps in a full turn; the placement angle repeats with
/// this period.
pub const ANGLE_STEPS: usize = 36;

/// Width of every tooltip box, in units (60 px).
pub const TOOLTIP_WIDTH: i64 = 60000;

/// Height of every tooltip box, in units (40 px).
pub const TOOLTIP_HEIGHT: i64 = 40000;

/// Horizontal tooltip offset for angle step `k`: `50 * sin(k * 10 degrees)`
/// in pixels, tabulated in units rounded to the nearest unit.
pub open spec fn spec_offset_x_units(k: int) -> int {
    if k == 0 { 0 }
    else if k == 1 { 8682 }
    else if k == 2 { 17101 }
    else if k == 3 { 25000 }
    else if k == 4 { 32139 }
    else if k == 5 { 38302 }
    else if k == 6 { 43301 }
    else if k == 7 { 46985 }
    else if k == 8 { 49240 }
    else if k == 9 { 50000 }
    else if k == 10 { 49240 }
    else if k == 11 { 46985 }
    else if k == 12 { 43301 }
    else if k == 13 { 38302 }
    else if k == 14 { 32139 }
    else if k == 15 { 25000 }
    else if k == 16 { 17101 }
    else if k == 17 { 8682 }
    else if k == 18 { 0 }
    else if k == 19 { -8682 }
    else if k == 20 { -17101 }
    else if k == 21 { -25000 }
    else if k == 22 { -32139 }
    else if k == 23 { -38302 }
    else if k == 24 { -43301 }
    else if k == 25 { -46985 }
    else if k == 26 { -49240 }
    else if k == 27 { -50000 }
    else if k == 28 { -49240 }
    else if k == 29 { -46985 }
    else if k == 30 { -43301 }
    else if k == 31 { -38302 }
    else if k == 32 { -32139 }
    else if k == 33 { -25000 }
    else if k == 34 { -17101 }
    else { -8682 }
}

/// Vertical tooltip offset for angle step `k`: `50 * cos(k * 10 degrees)`
/// in pixels, tabulated in units rounded to the nearest unit.
pub open spec fn spec_offset_y_units(k: int) -> int {
    if k == 0 { 50000 }
    else if k == 1 { 49240 }
    else if k == 2 { 46985 }
    else if k == 3 { 43301 }
    else if k == 4 { 38302 }
    else if k == 5 { 32139 }
    else if k == 6 { 25000 }
    else if k == 7 { 17101 }
    else if k == 8 { 8682 }
    else if k == 9 { 0 }
    else if k == 10 { -8682 }
    else if k == 11 { -17101 }
    else if k == 12 { -25000 }
    else if k == 13 { -32139 }
    else if k == 14 { -38302 }
    else if k == 15 { -43301 }
    else if k == 16 { -46985 }
    else if k == 17 { -49240 }
    else if k == 18 { -50000 }
    else if k == 19 { -49240 }
    else if k == 20 { -46985 }
    else if k == 21 { -43301 }
    else if k == 22 { -38302 }
    else if k == 23 { -32139 }
    else if k == 24 { -25000 }
    else if k == 25 { -17101 }
    else if k == 26 { -8682 }
    else if k == 27 { 0 }
    else if k == 28 { 8682 }
    else if k == 29 { 17101 }
    else if k == 30 { 25000 }
    else if k == 31 { 32139 }
    else if k == 32 { 38302 }
    else if k == 33 { 43301 }
    else if k == 34 { 46985 }
    else { 49240 }
}

/// Horizontal tooltip offset for angle step `k`, in units.
pub fn offset_x_units(k: usize) -> (r: i64)
    requires
        k < ANGLE_STEPS,
    ensures
        r as int == spec_offset_x_units(k as int),
        -50000 <= r <= 50000,
{
    match k {
        0 => 0,
        1 => 8682,
        2 => 17101,
        3 => 25000,
        4 => 32139,
        5 => 38302,
        6 => 43301,
        7 => 46985,
        8 => 49240,
        9 => 50000,
        10 => 49240,
        11 => 46985,
        12 => 43301,
        13 => 38302,
        14 => 32139,
        15 => 25000,
        16 => 17101,
        17 => 8682,
        18 => 0,
        19 => -8682,
        20 => -17101,
        21 => -25000,
        22 => -32139,
        23 => -38302,
        24 => -43301,
        25 => -46985,
        26 => -49240,
        27 => -50000,
        28 => -49240,
        29 => -46985,
        30 => -43301,
        31 => -38302,
        32 => -32139,
        33 => -25000,
        34 => -17101,
        _ => -8682,
    }
}

/// Vertical tooltip offset for angle step `k`, in units.
pub fn offset_y_units(k: usize) -> (r: i64)
    requires
        k < ANGLE_STEPS,
    ensures
        r as int == spec_offset_y_units(k as int),
        -50000 <= r <= 50000,
{
    match k {
        0 => 50000,
        1 => 49240,
        2 => 46985,
        3 => 43301,
        4 => 38302,
        5 => 32139,
        6 => 25000,
        7 => 17101,
        8 => 8682,
        9 => 0,
        10 => -8682,
        11 => -17101,
        12 => -25000,
        13 => -32139,
        14 => -38302,
        15 => -43301,
        16 => -46985,
        17 => -49240,
        18 => -50000,
        19 => -49240,
        20 => -46985,
        21 => -43301,
        22 => -38302,
        23 => -32139,
        24 => -25000,
        25 => -17101,
        26 => -8682,
        27 => 0,
        28 => 8682,
        29 => 17101,
        30 => 25000,
        31 => 32139,
        32 => 38302,
        33 => 43301,
        34 => 46985,
        _ => 49240,
    }
}

/// Text shown in every tooltip (a constant placeholder).
pub open spec fn spec_tooltip_text() -> Seq<char> {
    "zzl"@
}

/// Text shown in every tooltip (a constant placeholder).
pub fn tooltip_text() -> (s: String)
    ensures
        s@ == spec_tooltip_text(),
{
    String::from_str("zzl")
}

/// `t` is the tooltip that placement computes for a marker standing at
/// `pos` with zero-based index `i`.
pub open spec fn tooltip_placed(pos: Pos, i: int, t: Tooltip) -> bool {
    let k = i % (ANGLE_STEPS as int);
    &&& t.rect.min.x == pos.x + spec_offset_x_units(k)
    &&& t.rect.min.y == pos.y + spec_offset_y_units(k)
    &&& t.rect.max.x == t.rect.min.x + TOOLTIP_WIDTH
    &&& t.rect.max.y == t.rect.min.y + TOOLTIP_HEIGHT
    &&& t.content@ == spec_tooltip_text()
}

/// `after` is `before` with its tooltip replaced by the placed one for
/// index `i`; everything else is untouched.
pub open spec fn placed_marker(before: Marker, after: Marker, i: int) -> bool {
    &&& after.pos == before.pos
    &&& after.radius == before.radius
    &&& after.color == before.color
    &&& after.tooltip matches Some(t) && tooltip_placed(before.pos, i, t)
}

/// `after` is `before` with every marker's tooltip replaced by the placed
/// one for its index.
pub open spec fn placed_all(before: Seq<Marker>, after: Seq<Marker>) -> bool {
    &&& after.len() == before.len()
    &&& forall|i: int| 0 <= i < before.len() ==> placed_marker(before[i], #[trigger] after[i], i)
}

/// Replace every marker's tooltip with the placed one for its index. Runs
/// on every frame; a no-op relative to positions, radii and colors, and
/// total over every sequence, the empty one included.
pub fn set_tooltip_position(markers: &mut Vec<Marker>)
    requires
        forall|i: int| 0 <= i < old(markers)@.len() ==> (#[trigger] old(markers)@[i]).pos.wf(),
    ensures
        placed_all(old(markers)@, final(markers)@),
{
    let n = markers.len();
    let mut idx: usize = 0;
    while idx < n
        invariant
            n == markers@.len(),
            markers@.len() == old(markers)@.len(),
            forall|j: int| 0 <= j < old(markers)@.len() ==> (#[trigger] old(markers)@[j]).pos.wf(),
            forall|j: int| idx <= j < n ==> #[trigger] markers@[j] == old(markers)@[j],
            forall|j: int| 0 <= j < idx ==> placed_marker(old(markers)@[j], #[trigger] markers@[j], j),
        decreases n - idx,
    {
        let k = idx % ANGLE_STEPS;
        let dx = offset_x_units(k);
        let dy = offset_y_units(k);
        let pos = markers[idx].pos;
        let radius = markers[idx].radius;
        let color = markers[idx].color;
        let min = Pos { x: pos.x + dx, y: pos.y + dy };
        let max = Pos { x: min.x + TOOLTIP_WIDTH, y: min.y + TOOLTIP_HEIGHT };
        let tooltip = Tooltip { rect: Rect { min, max }, content: tooltip_text() };
        markers.set(idx, Marker { pos, radius, color, tooltip: Some(tooltip) });
        idx += 1;
    }
}

/// `a` and `b` draw identically: same position, radius and color, and both
/// carry a tooltip with the same rectangle and the same text.
pub open spec fn marker_eqv(a: Marker, b: Marker) -> bool {
    &&& a.pos == b.pos
    &&& a.radius == b.radius
    &&& a.color == b.color
    &&& a.tooltip is Some
    &&& b.tooltip is Some
    &&& a.tooltip->Some_0.rect == b.tooltip->Some_0.rect
    &&& a.tooltip->Some_0.content@ == b.tooltip->Some_0.content@
}

/// Placement is idempotent: placing an already-placed sequence again yields
/// markers with the same positions, radii, colors, tooltip rectangles and
/// tooltip text as before.
pub proof fn lemma_placement_idempotent(before: Seq<Marker>, once: Seq<Marker>, twice: Seq<Marker>)
    requires
        placed_all(before, once),
        placed_all(once, twice),
    ensures
        twice.len() == once.len(),
        forall|i: int| 0 <= i < once.len() ==> marker_eqv(once[i], #[trigger] twice[i]),
{
    assert forall|i: int| 0 <= i < once.len() implies marker_eqv(once[i], #[trigger] twice[i]) by {
        assert(placed_marker(before[i], once[i], i));
        assert(placed_marker(once[i], twice[i], i));
    }
}

} // verus!
