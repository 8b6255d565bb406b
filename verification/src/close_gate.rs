//! The close-confirmation gate: a three-state machine that decides whether a
//! window-close request is honoured.
//!
//! The window starts `Open`. The first close request is denied and only opens
//! a confirmation prompt (`ConfirmPending`). From the prompt the user either
//! cancels, which returns it to `Open`, or confirms, which moves it to
//! the terminal `ClosingAllowed` state; a close request is then granted.

use vstd::prelude::*;

verus! {

/// State of the close-confirmation gate.
#[derive(Clone, Copy, PartialEq, Eq, Structural, Debug)]
pub enum CloseGate {
    /// No close request is pending; the confirmation prompt is hidden.
    Open,
    /// A close request arrived; the confirmation prompt is on screen.
    ConfirmPending,
    /// The user confirmed; closing is permitted. Terminal.
    ClosingAllowed,
}

impl CloseGate {
    /// The state a fresh session starts with.
    pub fn new() -> (g: CloseGate)
        ensures
            g == CloseGate::Open,
    {
        CloseGate::Open
    }

    /// Whether the confirmation prompt is on screen in this state.
    pub open spec fn spec_dialog_shown(self) -> bool {
        self != CloseGate::Open
    }

    pub fn dialog_shown(&self) -> (r: bool)
        ensures
            r == self.spec_dialog_shown(),
    {
        match self {
            CloseGate::Open => false,
            CloseGate::ConfirmPending => true,
            CloseGate::ClosingAllowed => true,
        }
    }

    /// The state after a window-close request.
    pub open spec fn spec_after_request(self) -> CloseGate {
        if self == CloseGate::ClosingAllowed {
            CloseGate::ClosingAllowed
        } else {
            CloseGate::ConfirmPending
        }
    }

    /// Handle a window-close request. Until closing was confirmed the request
    /// is denied and the confirmation prompt is put on screen; once
    /// `ClosingAllowed` was reached the request is granted.
    pub fn request_close(&mut self) -> (permit: bool)
        ensures
            permit == (*old(self) == CloseGate::ClosingAllowed),
            *final(self) == old(self).spec_after_request(),
    {
        match *self {
            CloseGate::ClosingAllowed => true,
            _ => {
                *self = CloseGate::ConfirmPending;
                false
            },
        }
    }

    /// The state after the user cancels the confirmation prompt: a pending
    /// request is dismissed; a confirmed close stays confirmed.
    pub open spec fn spec_after_cancel(self) -> CloseGate {
        if self == CloseGate::ConfirmPending {
            CloseGate::Open
        } else {
            self
        }
    }

    /// The user selected "Cancel" in the confirmation prompt.
    pub fn cancel(&mut self)
        ensures
            *final(self) == old(self).spec_after_cancel(),
    {
        if *self == CloseGate::ConfirmPending {
            *self = CloseGate::Open;
        }
    }

    /// The user selected "Yes" in the confirmation prompt: closing is
    /// permitted from now on.
    pub fn confirm(&mut self)
        ensures
            *final(self) == CloseGate::ClosingAllowed,
    {
        *self = CloseGate::ClosingAllowed;
    }
}

} // verus!
