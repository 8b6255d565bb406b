//! A small marker-board library: an ordered store of colored circular
//! markers, a deterministic tooltip-placement pass that positions a tooltip
//! box around each marker, a render pass that turns the current markers into
//! a sequence of drawing commands, and a close-confirmation gate for the
//! surrounding window.
//!
//! Coordinates are carried as fixed-point integers (thousandths of a logical
//! pixel), so every computation here is exact integer arithmetic.

pub mod close_gate;
pub mod geom;
pub mod marker;
pub mod palette;
pub mod placement;
pub mod render;
pub mod state;
