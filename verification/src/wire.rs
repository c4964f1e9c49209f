//! Plain mirrors of the configuration protocol's wire messages. Each field
//! is a plain value; the transport that carries them lives outside this
//! crate. The conversion functions in the API modules state exactly how
//! the library's types map onto these messages.

use vstd::prelude::*;

verus! {

/// A mode as the wire carries it: every component optional.
#[derive(Clone, Copy, Debug, PartialEq, Eq, Structural)]
pub struct Mode {
    pub pixel_width: Option<u32>,
    pub pixel_height: Option<u32>,
    pub refresh_rate_millihz: Option<u32>,
}

/// The answer to an output-properties query.
#[derive(Clone, Debug)]
pub struct OutputPropertiesResponse {
    pub make: Option<String>,
    pub model: Option<String>,
    pub x: Option<i32>,
    pub y: Option<i32>,
    pub logical_width: Option<u32>,
    pub logical_height: Option<u32>,
    pub current_mode: Option<Mode>,
    pub preferred_mode: Option<Mode>,
    pub modes: Vec<Mode>,
    pub physical_width: Option<u32>,
    pub physical_height: Option<u32>,
    pub focused: Option<bool>,
    pub tag_ids: Vec<u32>,
    pub scale_millis: Option<u32>,
    pub transform: Option<i32>,
    pub serial_str: Option<String>,
    pub keyboard_focus_stack_window_ids: Vec<u32>,
    pub enabled: Option<bool>,
    pub powered: Option<bool>,
}

/// A widget tree as the wire carries it.
#[derive(Debug)]
pub enum Widget {
    Text(String),
    MouseArea(Box<MouseArea>),
}

/// A mouse area as the wire carries it: each callback collapses to whether
/// one is registered.
#[derive(Debug)]
pub struct MouseArea {
    pub child: Option<Box<Widget>>,
    pub on_press: bool,
    pub on_release: bool,
    pub on_double_click: bool,
    pub on_right_press: bool,
    pub on_right_release: bool,
    pub on_middle_press: bool,
    pub on_middle_release: bool,
    pub on_enter: bool,
    pub on_scroll: bool,
    pub on_exit: bool,
    pub on_move: bool,
    pub interaction: Option<i32>,
    pub widget_id: Option<u32>,
    pub unique_id: Option<String>,
}

/// A focus operation as the wire carries it.
#[derive(Clone, Debug, PartialEq, Eq)]
pub enum FocusableOp {
    Focus { id: String },
    Unfocus,
    FocusNext,
    FocusPrev,
}

/// A focusable-widget operation message.
#[derive(Clone, Debug, PartialEq, Eq)]
pub struct Focusable {
    pub op: Option<FocusableOp>,
}

/// A text-input operation as the wire carries it.
#[derive(Clone, Debug, PartialEq, Eq)]
pub enum TextInputOp {
    MoveCursor { id: String, position: u64 },
    MoveCursorFront { id: String },
    MoveCursorEnd { id: String },
    SelectAll { id: String },
}

/// A text-input operation message.
#[derive(Clone, Debug, PartialEq, Eq)]
pub struct TextInput {
    pub op: Option<TextInputOp>,
}

/// The target of a widget operation.
#[derive(Clone, Debug, PartialEq, Eq)]
pub enum OperationTarget {
    Focusable(Focusable),
    TextInput(TextInput),
}

/// A widget operation message.
#[derive(Clone, Debug, PartialEq, Eq)]
pub struct Operation {
    pub target: Option<OperationTarget>,
}

/// One state's text-input style as the wire carries it.
#[derive(Clone, Copy, Debug, PartialEq, Eq, Structural)]
pub struct TextInputStyleInner {
    pub background: Option<crate::widget::Background>,
    pub border: Option<crate::widget::Border>,
    pub icon: Option<crate::widget::Color>,
    pub placeholder: Option<crate::widget::Color>,
    pub value: Option<crate::widget::Color>,
    pub selection: Option<crate::widget::Color>,
}

/// A text-input style message: one inner style per widget state.
#[derive(Clone, Copy, Debug, PartialEq, Eq, Structural)]
pub struct TextInputStyle {
    pub active: Option<TextInputStyleInner>,
    pub hovered: Option<TextInputStyleInner>,
    pub focused: Option<TextInputStyleInner>,
    pub hover_focused: Option<TextInputStyleInner>,
    pub disabled: Option<TextInputStyleInner>,
}

} // verus!
