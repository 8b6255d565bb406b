//! The marker data model: a user-placed colored dot with an optional
//! tooltip box attached to it.

use vstd::prelude::*;

use crate::geom::{Color, Pos, Rect};

verus! {

/// Radius every marker is drawn with, in units (6 px).
pub const MARKER_RADIUS: i64 = 6000;

/// A colored circular marker placed where the user clicked.
#[derive(Clone, Debug)]
pub struct Marker {
    /// Where the user clicked.
    pub pos: Pos,
    /// Radius of the drawn dot, in units.
    pub radius: i64,
    /// Fill color, picked from the palette by the click's x coordinate.
    pub color: Color,
    /// The attached tooltip; `None` only between creation and the next
    /// placement pass.
    pub tooltip: Option<Tooltip>,
}

/// The tooltip box belonging to one marker.
#[derive(Clone, Debug)]
pub struct Tooltip {
    /// Where the box stands.
    pub rect: Rect,
    /// Text shown inside the box.
    pub content: String,
}

} // verus!
