//! A widget wrapping a child and reacting to mouse input. Each `on_*`
//! builder stores the message to emit for that event; a widget that has any
//! callback gets a widget id so events can find it.

use vstd::prelude::*;

use crate::widget::{WidgetId, WidgetIdCounter};
use crate::wire;

verus! {

/// The cursor shape shown while the pointer is over a mouse area.
#[derive(Clone, Copy, Debug, PartialEq, Eq, Hash, Structural)]
pub enum Interaction {
    NoCursor,
    Idle,
    Pointer,
    Grab,
    Text,
    Crosshair,
    Grabbing,
    ResizeHorizontal,
    ResizeVertical,
    ResizeDiagonalUp,
    ResizeDiagonalDown,
    NotAllowed,
    ZoomIn,
    ZoomOut,
    Cell,
    Move,
    Copy,
    Help,
}

impl Interaction {
    /// The code this interaction travels as on the wire.
    pub open spec fn spec_code(self) -> i32 {
        match self {
            Interaction::NoCursor => 0,
            Interaction::Idle => 1,
            Interaction::Pointer => 2,
            Interaction::Grab => 3,
            Interaction::Text => 4,
            Interaction::Crosshair => 5,
            Interaction::Grabbing => 6,
            Interaction::ResizeHorizontal => 7,
            Interaction::ResizeVertical => 8,
            Interaction::ResizeDiagonalUp => 9,
            Interaction::ResizeDiagonalDown => 10,
            Interaction::NotAllowed => 11,
            Interaction::ZoomIn => 12,
            Interaction::ZoomOut => 13,
            Interaction::Cell => 14,
            Interaction::Move => 15,
            Interaction::Copy => 16,
            Interaction::Help => 17,
        }
    }

    /// Encodes this interaction for the wire.
    pub fn code(self) -> (r: i32)
        ensures
            r == self.spec_code(),
    {
        match self {
            Interaction::NoCursor => 0,
            Interaction::Idle => 1,
            Interaction::Pointer => 2,
            Interaction::Grab => 3,
            Interaction::Text => 4,
            Interaction::Crosshair => 5,
            Interaction::Grabbing => 6,
            Interaction::ResizeHorizontal => 7,
            Interaction::ResizeVertical => 8,
            Interaction::ResizeDiagonalUp => 9,
            Interaction::ResizeDiagonalDown => 10,
            Interaction::NotAllowed => 11,
            Interaction::ZoomIn => 12,
            Interaction::ZoomOut => 13,
            Interaction::Cell => 14,
            Interaction::Move => 15,
            Interaction::Copy => 16,
            Interaction::Help => 17,
        }
    }
}

/// A widget definition: the tree a config hands to the toolkit.
#[derive(Debug)]
pub enum WidgetDef<Msg> {
    /// A plain text widget.
    Text(String),
    /// A mouse area wrapping a child.
    MouseArea(Box<MouseArea<Msg>>),
}

/// A widget that reacts to mouse input on behalf of its child.
#[derive(Debug)]
pub struct MouseArea<Msg> {
    pub child: WidgetDef<Msg>,
    pub interaction: Option<Interaction>,
    pub unique_id: Option<String>,
    pub widget_id: Option<WidgetId>,
    pub on_press: Option<Msg>,
    pub on_release: Option<Msg>,
    pub on_double_click: Option<Msg>,
    pub on_right_press: Option<Msg>,
    pub on_right_release: Option<Msg>,
    pub on_middle_press: Option<Msg>,
    pub on_middle_release: Option<Msg>,
    pub on_enter: Option<Msg>,
    pub on_exit: Option<Msg>,
}

/// The widget id after a builder that needs one ran: an already-assigned id
/// is kept; otherwise the counter's next id is taken.
pub open spec fn spec_assigned_id(cur: Option<WidgetId>, c: WidgetIdCounter) -> Option<WidgetId> {
    match cur {
        Some(w) => Some(w),
        None => Some(WidgetId(c.next)),
    }
}

/// The counter after a builder that needs an id ran.
pub open spec fn spec_counter_after(cur: Option<WidgetId>, c: WidgetIdCounter) -> WidgetIdCounter {
    match cur {
        Some(_) => c,
        None => WidgetIdCounter { next: (c.next + 1) as u32 },
    }
}

impl<Msg> MouseArea<Msg> {
    /// A mouse area around `child` with no callbacks and no id.
    pub fn new(child: WidgetDef<Msg>) -> (r: MouseArea<Msg>)
        ensures
            r.child == child,
            r.interaction is None,
            r.unique_id is None,
            r.widget_id is None,
            r.on_press is None,
            r.on_release is None,
            r.on_double_click is None,
            r.on_right_press is None,
            r.on_right_release is None,
            r.on_middle_press is None,
            r.on_middle_release is None,
            r.on_enter is None,
            r.on_exit is None,
    {
        MouseArea {
            child,
            interaction: None,
            unique_id: None,
            widget_id: None,
            on_press: None,
            on_release: None,
            on_double_click: None,
            on_right_press: None,
            on_right_release: None,
            on_middle_press: None,
            on_middle_release: None,
            on_enter: None,
            on_exit: None,
        }
    }

    /// Sets the cursor shown over this area.
    pub fn interaction(self, interaction: Interaction) -> (r: MouseArea<Msg>)
        ensures
            r == (MouseArea { interaction: Some(interaction), ..self }),
    {
        MouseArea { interaction: Some(interaction), ..self }
    }

    /// Names this area so operations can address it; assigns a widget id if
    /// none is assigned yet.
    pub fn unique_id(self, unique_id: String, ids: &mut WidgetIdCounter) -> (r: MouseArea<Msg>)
        requires
            old(ids).next < u32::MAX,
        ensures
            r == (MouseArea {
                widget_id: spec_assigned_id(self.widget_id, *old(ids)),
                unique_id: Some(unique_id),
                ..self
            }),
            *final(ids) == spec_counter_after(self.widget_id, *old(ids)),
    {
        let widget_id = assign_id(self.widget_id, ids);
        MouseArea { widget_id, unique_id: Some(unique_id), ..self }
    }

    /// Emits `on_press` on a left press.
    pub fn on_press(self, on_press: Msg, ids: &mut WidgetIdCounter) -> (r: MouseArea<Msg>)
        requires
            old(ids).next < u32::MAX,
        ensures
            r == (MouseArea {
                widget_id: spec_assigned_id(self.widget_id, *old(ids)),
                on_press: Some(on_press),
                ..self
            }),
            *final(ids) == spec_counter_after(self.widget_id, *old(ids)),
    {
        let widget_id = assign_id(self.widget_id, ids);
        MouseArea { widget_id, on_press: Some(on_press), ..self }
    }

    /// Emits `on_release` on a left release.
    pub fn on_release(self, on_release: Msg, ids: &mut WidgetIdCounter) -> (r: MouseArea<Msg>)
        requires
            old(ids).next < u32::MAX,
        ensures
            r == (MouseArea {
                widget_id: spec_assigned_id(self.widget_id, *old(ids)),
                on_release: Some(on_release),
                ..self
            }),
            *final(ids) == spec_counter_after(self.widget_id, *old(ids)),
    {
        let widget_id = assign_id(self.widget_id, ids);
        MouseArea { widget_id, on_release: Some(on_release), ..self }
    }

    /// Emits `on_double_click` on a double click.
    pub fn on_double_click(self, on_double_click: Msg, ids: &mut WidgetIdCounter) -> (r: MouseArea<
        Msg,
    >)
        requires
            old(ids).next < u32::MAX,
        ensures
            r == (MouseArea {
                widget_id: spec_assigned_id(self.widget_id, *old(ids)),
                on_double_click: Some(on_double_click),
                ..self
            }),
            *final(ids) == spec_counter_after(self.widget_id, *old(ids)),
    {
        let widget_id = assign_id(self.widget_id, ids);
        MouseArea { widget_id, on_double_click: Some(on_double_click), ..self }
    }

    /// Emits `on_right_press` on a right press.
    pub fn on_right_press(self, on_right_press: Msg, ids: &mut WidgetIdCounter) -> (r: MouseArea<
        Msg,
    >)
        requires
            old(ids).next < u32::MAX,
        ensures
            r == (MouseArea {
                widget_id: spec_assigned_id(self.widget_id, *old(ids)),
                on_right_press: Some(on_right_press),
                ..self
            }),
            *final(ids) == spec_counter_after(self.widget_id, *old(ids)),
    {
        let widget_id = assign_id(self.widget_id, ids);
        MouseArea { widget_id, on_right_press: Some(on_right_press), ..self }
    }

    /// Emits `on_right_release` on a right release.
    pub fn on_right_release(self, on_right_release: Msg, ids: &mut WidgetIdCounter) -> (r:
        MouseArea<Msg>)
        requires
            old(ids).next < u32::MAX,
        ensures
            r == (MouseArea {
                widget_id: spec_assigned_id(self.widget_id, *old(ids)),
                on_right_release: Some(on_right_release),
                ..self
            }),
            *final(ids) == spec_counter_after(self.widget_id, *old(ids)),
    {
        let widget_id = assign_id(self.widget_id, ids);
        MouseArea { widget_id, on_right_release: Some(on_right_release), ..self }
    }

    /// Emits `on_middle_press` on a middle press.
    pub fn on_middle_press(self, on_middle_press: Msg, ids: &mut WidgetIdCounter) -> (r: MouseArea<
        Msg,
    >)
        requires
            old(ids).next < u32::MAX,
        ensures
            r == (MouseArea {
                widget_id: spec_assigned_id(self.widget_id, *old(ids)),
                on_middle_press: Some(on_middle_press),
                ..self
            }),
            *final(ids) == spec_counter_after(self.widget_id, *old(ids)),
    {
        let widget_id = assign_id(self.widget_id, ids);
        MouseArea { widget_id, on_middle_press: Some(on_middle_press), ..self }
    }

    /// Emits `on_middle_release` on a middle release.
    pub fn on_middle_release(self, on_middle_release: Msg, ids: &mut WidgetIdCounter) -> (r:
        MouseArea<Msg>)
        requires
            old(ids).next < u32::MAX,
        ensures
            r == (MouseArea {
                widget_id: spec_assigned_id(self.widget_id, *old(ids)),
                on_middle_release: Some(on_middle_release),
                ..self
            }),
            *final(ids) == spec_counter_after(self.widget_id, *old(ids)),
    {
        let widget_id = assign_id(self.widget_id, ids);
        MouseArea { widget_id, on_middle_release: Some(on_middle_release), ..self }
    }

    /// Emits `on_enter` when the pointer enters the area.
    pub fn on_enter(self, on_enter: Msg, ids: &mut WidgetIdCounter) -> (r: MouseArea<Msg>)
        requires
            old(ids).next < u32::MAX,
        ensures
            r == (MouseArea {
                widget_id: spec_assigned_id(self.widget_id, *old(ids)),
                on_enter: Some(on_enter),
                ..self
            }),
            *final(ids) == spec_counter_after(self.widget_id, *old(ids)),
    {
        let widget_id = assign_id(self.widget_id, ids);
        MouseArea { widget_id, on_enter: Some(on_enter), ..self }
    }

    /// Emits `on_exit` when the pointer leaves the area.
    pub fn on_exit(self, on_exit: Msg, ids: &mut WidgetIdCounter) -> (r: MouseArea<Msg>)
        requires
            old(ids).next < u32::MAX,
        ensures
            r == (MouseArea {
                widget_id: spec_assigned_id(self.widget_id, *old(ids)),
                on_exit: Some(on_exit),
                ..self
            }),
            *final(ids) == spec_counter_after(self.widget_id, *old(ids)),
    {
        let widget_id = assign_id(self.widget_id, ids);
        MouseArea { widget_id, on_exit: Some(on_exit), ..self }
    }

    /// Encodes this mouse area for the wire: each callback collapses to
    /// whether one is registered, the child is encoded recursively.
    pub fn into_wire(self) -> (r: wire::MouseArea)
        ensures
            r.on_press == self.on_press is Some,
            r.on_release == self.on_release is Some,
            r.on_double_click == self.on_double_click is Some,
            r.on_right_press == self.on_right_press is Some,
            r.on_right_release == self.on_right_release is Some,
            r.on_middle_press == self.on_middle_press is Some,
            r.on_middle_release == self.on_middle_release is Some,
            r.on_enter == self.on_enter is Some,
            !r.on_scroll,
            r.on_exit == self.on_exit is Some,
            !r.on_move,
            r.interaction == (match self.interaction {
                Some(i) => Some(i.spec_code()),
                None => None,
            }),
            r.widget_id == (match self.widget_id {
                Some(w) => Some(w.0),
                None => None,
            }),
            r.unique_id == self.unique_id,
            r.child is Some,
        decreases self,
    {
        let MouseArea {
            child,
            interaction,
            unique_id,
            widget_id,
            on_press,
            on_release,
            on_double_click,
            on_right_press,
            on_right_release,
            on_middle_press,
            on_middle_release,
            on_enter,
            on_exit,
        } = self;
        let inter = match interaction {
            Some(i) => Some(i.code()),
            None => None,
        };
        wire::MouseArea {
            child: Some(Box::new(child.into_wire())),
            on_press: on_press.is_some(),
            on_release: on_release.is_some(),
            on_double_click: on_double_click.is_some(),
            on_right_press: on_right_press.is_some(),
            on_right_release: on_right_release.is_some(),
            on_middle_press: on_middle_press.is_some(),
            on_middle_release: on_middle_release.is_some(),
            on_enter: on_enter.is_some(),
            on_scroll: false,
            on_exit: on_exit.is_some(),
            on_move: false,
            interaction: inter,
            widget_id: match widget_id {
                Some(w) => Some(w.to_inner()),
                None => None,
            },
            unique_id,
        }
    }
}

impl<Msg> WidgetDef<Msg> {
    /// Encodes a widget tree for the wire.
    pub fn into_wire(self) -> (r: wire::Widget)
        ensures
            self is Text ==> (r matches wire::Widget::Text(t) && t == self->Text_0),
            self is MouseArea ==> r is MouseArea,
        decreases self,
    {
        match self {
            WidgetDef::Text(t) => wire::Widget::Text(t),
            WidgetDef::MouseArea(m) => wire::Widget::MouseArea(Box::new((*m).into_wire())),
        }
    }
}

/// Keeps an assigned widget id or takes the next one from the counter.
fn assign_id(cur: Option<WidgetId>, ids: &mut WidgetIdCounter) -> (r: Option<WidgetId>)
    requires
        old(ids).next < u32::MAX,
    ensures
        r == spec_assigned_id(cur, *old(ids)),
        *final(ids) == spec_counter_after(cur, *old(ids)),
{
    match cur {
        Some(w) => Some(w),
        None => Some(ids.next_id()),
    }
}

} // verus!
