//! The render pass: turning the current marker sequence into drawing
//! commands.
//!
//! For every marker, in sequence order: a filled circle at the marker's
//! position; then, when a tooltip is attached, a filled rectangle for the
//! tooltip box and a line segment from the marker to the box's top-left
//! corner. A pure read: the markers are not changed, and an empty sequence
//! yields no commands at all.

use vstd::prelude::*;

use crate::geom::{Color, Pos, Rect};
use crate::marker::Marker;

verus! {

/// Corner rounding of the tooltip box, in units (1 px).
pub const RECT_ROUNDING: i64 = 1000;

/// Width of the marker-to-tooltip connector line, in units (1 px).
pub const LINE_WIDTH: i64 = 1000;

/// Fill color of every tooltip box (a light blue).
pub open spec fn spec_tooltip_fill() -> Color {
    Color { r: 173, g: 216, b: 230 }
}

/// Fill color of every tooltip box (a light blue).
pub fn tooltip_fill() -> (c: Color)
    ensures
        c == spec_tooltip_fill(),
{
    Color { r: 173, g: 216, b: 230 }
}

/// Color of the marker-to-tooltip connector line (a mid gray).
pub open spec fn spec_line_color() -> Color {
    Color { r: 160, g: 160, b: 160 }
}

/// Color of the marker-to-tooltip connector line (a mid gray).
pub fn line_color() -> (c: Color)
    ensures
        c == spec_line_color(),
{
    Color { r: 160, g: 160, b: 160 }
}

/// One drawing command handed to the host toolkit.
#[derive(Clone, Copy, PartialEq, Eq, Structural, Debug)]
pub enum DrawCmd {
    /// A filled circle.
    CircleFilled { center: Pos, radius: i64, color: Color },
    /// A filled rectangle with rounded corners.
    RectFilled { rect: Rect, rounding: i64, color: Color },
    /// A straight line segment of the given width.
    LineSegment { from: Pos, to: Pos, width: i64, color: Color },
}

/// The commands drawn for one marker: its circle, then — when a tooltip is
/// attached — the tooltip box and the connector line.
pub open spec fn spec_marker_cmds(m: Marker) -> Seq<DrawCmd> {
    let circle = DrawCmd::CircleFilled { center: m.pos, radius: m.radius, color: m.color };
    match m.tooltip {
        Some(t) => seq![
            circle,
            DrawCmd::RectFilled { rect: t.rect, rounding: RECT_ROUNDING, color: spec_tooltip_fill() },
            DrawCmd::LineSegment {
                from: m.pos,
                to: t.rect.min,
                width: LINE_WIDTH,
                color: spec_line_color(),
            },
        ],
        None => seq![circle],
    }
}

/// The commands drawn for a whole marker sequence, in sequence order.
pub open spec fn spec_render(ms: Seq<Marker>) -> Seq<DrawCmd>
    decreases ms.len(),
{
    if ms.len() == 0 {
        Seq::empty()
    } else {
        spec_render(ms.drop_last()) + spec_marker_cmds(ms.last())
    }
}

/// Extending the rendered sequence by one marker appends exactly that
/// marker's commands.
proof fn lemma_render_snoc(ms: Seq<Marker>, i: int)
    requires
        0 <= i < ms.len(),
    ensures
        spec_render(ms.take(i + 1)) == spec_render(ms.take(i)) + spec_marker_cmds(ms[i]),
{
    assert(ms.take(i + 1).drop_last() =~= ms.take(i));
    assert(ms.take(i + 1).last() == ms[i]);
    assert(ms.take(i + 1).len() == i + 1);
}

/// Issue the drawing commands for the current markers, in order. An empty
/// sequence yields zero commands.
pub fn render_pass(markers: &Vec<Marker>) -> (cmds: Vec<DrawCmd>)
    ensures
        cmds@ == spec_render(markers@),
        markers@.len() == 0 ==> cmds@.len() == 0,
{
    let mut cmds: Vec<DrawCmd> = Vec::new();
    let n = markers.len();
    let mut i: usize = 0;
    while i < n
        invariant
            n == markers@.len(),
            cmds@ == spec_render(markers@.take(i as int)),
            i <= n,
        decreases n - i,
    {
        let m = &markers[i];
        cmds.push(DrawCmd::CircleFilled { center: m.pos, radius: m.radius, color: m.color });
        match &m.tooltip {
            Some(t) => {
                cmds.push(
                    DrawCmd::RectFilled { rect: t.rect, rounding: RECT_ROUNDING, color: tooltip_fill() },
                );
                cmds.push(
                    DrawCmd::LineSegment {
                        from: m.pos,
                        to: t.rect.min,
                        width: LINE_WIDTH,
                        color: line_color(),
                    },
                );
            },
            None => {},
        }
        proof {
            lemma_render_snoc(markers@, i as int);
            assert(cmds@ =~= spec_render(markers@.take(i as int + 1)));
        }
        i += 1;
    }
    proof {
        assert(markers@.take(n as int) =~= markers@);
    }
    cmds
}

} // verus!
