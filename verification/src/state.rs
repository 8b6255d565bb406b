//! The whole application state and the per-frame update.
//!
//! The state is one struct: the close-confirmation gate, the "add mode"
//! flag, the ordered marker store and the color palette. The host toolkit's
//! event loop hands the events of each frame to [`AppState::frame_update`],
//! which re-places all tooltips, renders the markers, handles the buttons
//! and a qualifying click, and decides the confirmation dialog — in that
//! order, so a marker added this frame is first drawn on the next one.

use vstd::prelude::*;

use crate::close_gate::CloseGate;
use crate::geom::{Color, Pos};
use crate::marker::{Marker, MARKER_RADIUS};
use crate::palette::{palette, pick_color, spec_marker_color, spec_palette};
use crate::placement::{placed_all, set_tooltip_position};
use crate::render::{render_pass, spec_render, DrawCmd};

verus! {

/// The events of one frame, as the host toolkit reports them.
#[derive(Clone, Copy, Debug)]
pub struct FrameInput {
    /// The "stop take points" button was clicked.
    pub stop_clicked: bool,
    /// The "begin take points" button was clicked.
    pub begin_clicked: bool,
    /// Some pointer click happened this frame.
    pub pointer_clicked: bool,
    /// Latest known pointer position, if any.
    pub pointer_pos: Option<Pos>,
    /// "Cancel" was clicked in the confirmation dialog.
    pub cancel_clicked: bool,
    /// "Yes" was clicked in the confirmation dialog.
    pub confirm_clicked: bool,
}

/// What one frame asks the host toolkit to do.
pub struct FrameOutput {
    /// Drawing commands for the markers and tooltips, in order.
    pub commands: Vec<DrawCmd>,
    /// The application asks the host to close the window.
    pub close_requested: bool,
    /// The confirmation dialog is to be shown.
    pub show_dialog: bool,
}

/// The whole application state.
pub struct AppState {
    /// The close-confirmation gate.
    pub gate: CloseGate,
    /// Whether a pointer click drops a new marker.
    pub add_point: bool,
    /// The ordered marker store: appended to on a qualifying click, never
    /// removed from or reordered.
    pub markers: Vec<Marker>,
    /// The color palette markers cycle through.
    pub colors: Vec<Color>,
}

/// The marker a qualifying click at `pos` appends: fixed radius, color
/// picked from the palette by the click's x coordinate, no tooltip yet.
pub open spec fn spec_new_marker(pos: Pos) -> Marker {
    Marker {
        pos,
        radius: MARKER_RADIUS,
        color: spec_marker_color(pos.x as int),
        tooltip: None,
    }
}

/// Add mode while the click of this frame is tested: "stop" is handled
/// before the click.
pub open spec fn spec_mode_at_click(before: bool, input: FrameInput) -> bool {
    if input.stop_clicked {
        false
    } else {
        before
    }
}

/// Add mode after the frame: "begin" is handled after the click.
pub open spec fn spec_mode_after(before: bool, input: FrameInput) -> bool {
    if input.begin_clicked {
        true
    } else {
        spec_mode_at_click(before, input)
    }
}

/// Whether this frame appends a marker: add mode holds when the click is
/// tested, some click happened, a pointer position is known, and the click
/// was not a mode button's own — clicking either button never itself
/// creates a marker ("stop" already turns add mode off before the click is
/// tested; "begin" is excluded here).
pub open spec fn spec_click_adds(before: bool, input: FrameInput) -> bool {
    &&& spec_mode_at_click(before, input)
    &&& !input.begin_clicked
    &&& input.pointer_clicked
    &&& input.pointer_pos is Some
}

/// The close-confirmation state after the dialog buttons of this frame:
/// the buttons count only while the dialog is on screen, and a "Yes" wins
/// over a simultaneous "Cancel".
pub open spec fn spec_gate_after(gate: CloseGate, input: FrameInput) -> CloseGate {
    if !gate.spec_dialog_shown() {
        gate
    } else if input.confirm_clicked {
        CloseGate::ClosingAllowed
    } else if input.cancel_clicked {
        gate.spec_after_cancel()
    } else {
        gate
    }
}

impl AppState {
    /// The state is well formed: the palette is the fixed one and every
    /// stored marker position lies inside the working bound.
    pub open spec fn wf(self) -> bool {
        &&& self.colors@ == spec_palette()
        &&& forall|i: int| 0 <= i < self.markers@.len() ==> (#[trigger] self.markers@[i]).pos.wf()
    }

    /// A fresh session: gate open, add mode off, no markers, the fixed
    /// palette.
    pub fn new() -> (s: AppState)
        ensures
            s.wf(),
            s.gate == CloseGate::Open,
            !s.add_point,
            s.markers@.len() == 0,
            s.colors@ == spec_palette(),
    {
        AppState { gate: CloseGate::new(), add_point: false, markers: Vec::new(), colors: palette() }
    }

    /// Handle a window-close request from the host: deny it and raise the
    /// confirmation dialog until closing was confirmed. Touches nothing but
    /// the close-confirmation state.
    pub fn on_close_event(&mut self) -> (permit: bool)
        ensures
            permit == (old(self).gate == CloseGate::ClosingAllowed),
            final(self).gate == old(self).gate.spec_after_request(),
            final(self).add_point == old(self).add_point,
            final(self).markers@ == old(self).markers@,
            final(self).colors@ == old(self).colors@,
    {
        self.gate.request_close()
    }

    /// Append the marker for a click at `pos`. Existing markers are kept
    /// unchanged, in order, in front of the new one.
    pub fn add_marker(&mut self, pos: Pos)
        requires
            old(self).wf(),
            pos.wf(),
        ensures
            final(self).wf(),
            final(self).markers@ == old(self).markers@.push(spec_new_marker(pos)),
            final(self).gate == old(self).gate,
            final(self).add_point == old(self).add_point,
            final(self).colors@ == old(self).colors@,
    {
        let color = pick_color(pos.x);
        self.markers.push(Marker { pos, radius: MARKER_RADIUS, color, tooltip: None });
    }

    /// One frame. In order: re-place all tooltips, render every marker and
    /// tooltip, handle the two mode buttons and a qualifying click, then
    /// the confirmation dialog's buttons. A click on either mode button
    /// only switches the mode and never appends a marker. The commands
    /// render the placed markers of this frame — a marker appended this
    /// frame is not yet among them.
    pub fn frame_update(&mut self, input: FrameInput) -> (out: FrameOutput)
        requires
            old(self).wf(),
            input.pointer_pos matches Some(p) ==> p.wf(),
        ensures
            final(self).wf(),
            final(self).colors@ == old(self).colors@,
            final(self).add_point == spec_mode_after(old(self).add_point, input),
            final(self).gate == spec_gate_after(old(self).gate, input),
            placed_all(
                old(self).markers@,
                final(self).markers@.take(old(self).markers@.len() as int),
            ),
            final(self).markers@.len() == old(self).markers@.len()
                + if spec_click_adds(old(self).add_point, input) { 1int } else { 0int },
            spec_click_adds(old(self).add_point, input) ==> final(self).markers@.last()
                == spec_new_marker(input.pointer_pos->Some_0),
            out.commands@ == spec_render(
                final(self).markers@.take(old(self).markers@.len() as int),
            ),
            out.close_requested == (old(self).gate.spec_dialog_shown() && input.confirm_clicked),
            out.show_dialog == spec_gate_after(old(self).gate, input).spec_dialog_shown(),
    {
        set_tooltip_position(&mut self.markers);
        let commands = render_pass(&self.markers);
        let ghost placed: Seq<Marker> = self.markers@;

        if input.stop_clicked {
            self.add_point = false;
        }
        if self.add_point && input.pointer_clicked && !input.begin_clicked {
            if let Some(pos) = input.pointer_pos {
                self.add_marker(pos);
            }
        }
        if input.begin_clicked {
            self.add_point = true;
        }

        let mut close_requested = false;
        if self.gate.dialog_shown() {
            if input.cancel_clicked {
                self.gate.cancel();
            }
            if input.confirm_clicked {
                self.gate.confirm();
                close_requested = true;
            }
        }
        let show_dialog = self.gate.dialog_shown();

        proof {
            assert(self.markers@.take(old(self).markers@.len() as int) =~= placed);
        }
        FrameOutput { commands, close_requested, show_dialog }
    }
}

impl Default for AppState {
    /// Same as [`AppState::new`].
    fn default() -> (s: AppState)
        ensures
            s.wf(),
            s.gate == CloseGate::Open,
            !s.add_point,
            s.markers@.len() == 0,
            s.colors@ == spec_palette(),
    {
        AppState::new()
    }
}

/// Cancelling the confirmation dialog dismisses it with no further effect:
/// while it is up after a close request (`ConfirmPending`), a frame with
/// "Cancel" clicked and "Yes" not clicked returns the close-confirmation
/// state to `Open` and requests no close, whatever else the frame's input
/// holds.
pub proof fn lemma_cancel_dismisses_without_effect(input: FrameInput)
    requires
        input.cancel_clicked,
        !input.confirm_clicked,
    ensures
        spec_gate_after(CloseGate::ConfirmPending, input) == CloseGate::Open,
        !spec_gate_after(CloseGate::ConfirmPending, input).spec_dialog_shown(),
{
}

/// Appending a marker to a sequence never mutates the existing markers:
/// each keeps its position, radius, color and tooltip, at its old index.
pub proof fn lemma_append_preserves_existing(s: Seq<Marker>, m: Marker)
    ensures
        s.push(m).len() == s.len() + 1,
        forall|i: int| 0 <= i < s.len() ==> #[trigger] s.push(m)[i] == s[i],
        s.push(m)[s.len() as int] == m,
{
}

} // verus!
