//! Requests the handlers make of their collaborators.
//!
//! Every model mutation that needs outside work — a redraw, a layout pass, a
//! protocol message, a selection transfer — is recorded as an [`Action`] on
//! the state's pending queue. The event loop drains the queue and performs
//! each action; nothing in this crate blocks on the outcome.

use vstd::prelude::*;

use crate::geometry::{Rect, Size};
use crate::resize_grab::CursorIcon;
use crate::window::WindowId;

verus! {

/// Which selection (clipboard or primary) a selection event concerns.
#[derive(Clone, Copy, Debug, PartialEq, Eq, Structural)]
pub enum SelectionTarget {
    Clipboard,
    Primary,
}

/// One request to a collaborator outside the model.
#[derive(Clone, Debug)]
pub enum Action {
    /// Ask the redraw scheduler for a new frame on this output.
    ScheduleRender { output: String },
    /// Ask the layout engine to recompute this output.
    RequestLayout { output: String },
    /// Begin a layout transaction on this output.
    BeginLayoutTransaction { output: String },
    /// Capture visual snapshots on this output for outgoing transitions.
    CaptureSnapshots { output: String },
    /// Recompute keyboard focus on this output.
    UpdateKeyboardFocus { output: String },
    /// Ask the placement policy to give this window geometry and tags.
    PlaceWindow { window: WindowId, output: String },
    /// Ask the window-rule evaluator to run for this window.
    RequestWindowRules { window: WindowId },
    /// Re-evaluate this window's state against the layout.
    UpdateWindowStateAndLayout { window: WindowId },
    /// Send a pending configure to a native toplevel: whether the
    /// client-visible resizing flag is set, and the negotiated size if one
    /// is pending.
    SendPendingConfigure { window: WindowId, resizing: bool, size: Option<Size> },
    /// Send an explicit configure rectangle to a foreign window.
    ConfigureForeign { window: WindowId, geometry: Rect },
    /// Tell the foreign protocol whether this window is mapped.
    SetForeignMapped { window: WindowId, mapped: bool },
    /// Push this bottom-to-top order to the foreign protocol's stacking
    /// primitive.
    RestackForeign { windows: Vec<WindowId> },
    /// Set the pointer cursor image.
    SetCursor { icon: CursorIcon },
    /// Begin an interactive move grab on this window.
    StartMoveGrab { window: WindowId, button: u32 },
    /// Ask the other domain to write the selection in this mime type.
    RequestSelectionTransfer { selection: SelectionTarget, mime_type: String },
    /// Offer a selection with these mime types to the native domain.
    SetSelection { selection: SelectionTarget, mime_types: Vec<String> },
    /// Withdraw the selection from the native domain.
    ClearSelection { selection: SelectionTarget },
}

} // verus!
