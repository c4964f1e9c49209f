//! The per-compositor state handed by exclusive reference into every event
//! handler: the shared model, the pointer's active-grab slot, the cursor,
//! keyboard focus, selection bookkeeping and the pending action queue.

use vstd::prelude::*;

use crate::actions::Action;
use crate::model::Pinnacle;
use crate::resize_grab::{CursorIcon, ResizeSurfaceGrab};
use crate::window::WindowId;

verus! {

/// The whole compositor state.
#[derive(Debug)]
pub struct State {
    pub pinnacle: Pinnacle,
    /// The pointer device's active-grab slot; at most one grab exists per
    /// pointer at a time.
    pub active_grab: Option<ResizeSurfaceGrab>,
    /// The cursor image currently shown.
    pub cursor_icon: CursorIcon,
    /// The window holding keyboard focus, if any window does.
    pub keyboard_focus: Option<WindowId>,
    /// Whether this compositor currently owns the clipboard selection it
    /// bridged from the foreign domain.
    pub clipboard_selection_set: bool,
    /// Likewise for the primary selection.
    pub primary_selection_set: bool,
    /// Requests to collaborators, drained by the event loop.
    pub pending: Vec<Action>,
}

impl State {
    /// The model is well-formed and any held grab's recorded geometry is in
    /// range.
    pub open spec fn wf(self) -> bool {
        &&& self.pinnacle.wf()
        &&& (self.active_grab matches Some(g) ==> g.wf())
    }

    /// A fresh state around an empty model.
    pub fn new() -> (s: State)
        ensures
            s.wf(),
            s.pinnacle.windows@ =~= Seq::<crate::window::Window>::empty(),
            s.active_grab is None,
            s.cursor_icon == CursorIcon::Default,
            s.keyboard_focus is None,
            !s.clipboard_selection_set,
            !s.primary_selection_set,
            s.pending@ =~= Seq::<Action>::empty(),
    {
        State {
            pinnacle: Pinnacle::new(),
            active_grab: None,
            cursor_icon: CursorIcon::Default,
            keyboard_focus: None,
            clipboard_selection_set: false,
            primary_selection_set: false,
            pending: Vec::new(),
        }
    }
}

} // verus!
