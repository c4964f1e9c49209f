//! Styling for text-input widgets: one [`Style`] per widget state,
//! collected in [`Styles`], and the side an input icon sits on.

use vstd::prelude::*;

use crate::widget::{Background, Border, Color};
use crate::wire;

verus! {

/// Which side of a text input an icon sits on.
#[derive(Clone, Copy, PartialEq, Eq, Debug, Structural)]
pub enum Side {
    Left,
    Right,
}

/// The style of one text-input state.
#[derive(Clone, Copy, PartialEq, Eq, Debug, Default, Structural)]
pub struct Style {
    pub background: Option<Background>,
    pub border: Option<Border>,
    pub icon: Option<Color>,
    pub placeholder: Option<Color>,
    pub value: Option<Color>,
    pub selection: Option<Color>,
}

/// Styles for every state of a text input.
#[derive(Clone, Copy, PartialEq, Eq, Debug, Default, Structural)]
pub struct Styles {
    pub active: Option<Style>,
    pub hovered: Option<Style>,
    pub focused: Option<Style>,
    pub hover_focused: Option<Style>,
    pub disabled: Option<Style>,
}

impl Styles {
    /// Styles with nothing set.
    pub fn new() -> (r: Styles)
        ensures
            r.active is None,
            r.hovered is None,
            r.focused is None,
            r.hover_focused is None,
            r.disabled is None,
    {
        Styles { active: None, hovered: None, focused: None, hover_focused: None, disabled: None }
    }

    /// Sets the style of the active state.
    pub fn active(self, style: Style) -> (r: Styles)
        ensures
            r == (Styles { active: Some(style), ..self }),
    {
        Styles { active: Some(style), ..self }
    }

    /// Sets the style of the hovered state.
    pub fn hovered(self, style: Style) -> (r: Styles)
        ensures
            r == (Styles { hovered: Some(style), ..self }),
    {
        Styles { hovered: Some(style), ..self }
    }

    /// Sets the style of the focused state.
    pub fn focused(self, style: Style) -> (r: Styles)
        ensures
            r == (Styles { focused: Some(style), ..self }),
    {
        Styles { focused: Some(style), ..self }
    }

    /// Sets the style of the hovered-and-focused state.
    pub fn hover_focused(self, style: Style) -> (r: Styles)
        ensures
            r == (Styles { hover_focused: Some(style), ..self }),
    {
        Styles { hover_focused: Some(style), ..self }
    }

    /// Sets the style of the disabled state.
    pub fn disabled(self, style: Style) -> (r: Styles)
        ensures
            r == (Styles { disabled: Some(style), ..self }),
    {
        Styles { disabled: Some(style), ..self }
    }

    /// Encodes these styles for the wire, state by state.
    pub fn into_wire(self) -> (r: wire::TextInputStyle)
        ensures
            r.active == (match self.active {
                Some(s) => Some(s.spec_into_wire()),
                None => None,
            }),
            r.hovered == (match self.hovered {
                Some(s) => Some(s.spec_into_wire()),
                None => None,
            }),
            r.focused == (match self.focused {
                Some(s) => Some(s.spec_into_wire()),
                None => None,
            }),
            r.hover_focused == (match self.hover_focused {
                Some(s) => Some(s.spec_into_wire()),
                None => None,
            }),
            r.disabled == (match self.disabled {
                Some(s) => Some(s.spec_into_wire()),
                None => None,
            }),
    {
        wire::TextInputStyle {
            active: map_style(self.active),
            hovered: map_style(self.hovered),
            focused: map_style(self.focused),
            hover_focused: map_style(self.hover_focused),
            disabled: map_style(self.disabled),
        }
    }
}

impl Style {
    /// A style with nothing set.
    pub fn new() -> (r: Style)
        ensures
            r.background is None,
            r.border is None,
            r.icon is None,
            r.placeholder is None,
            r.value is None,
            r.selection is None,
    {
        Style {
            background: None,
            border: None,
            icon: None,
            placeholder: None,
            value: None,
            selection: None,
        }
    }

    /// Sets the background.
    pub fn background(self, background: Background) -> (r: Style)
        ensures
            r == (Style { background: Some(background), ..self }),
    {
        Style { background: Some(background), ..self }
    }

    /// Sets the border.
    pub fn border(self, border: Border) -> (r: Style)
        ensures
            r == (Style { border: Some(border), ..self }),
    {
        Style { border: Some(border), ..self }
    }

    /// Sets the icon color.
    pub fn icon(self, color: Color) -> (r: Style)
        ensures
            r == (Style { icon: Some(color), ..self }),
    {
        Style { icon: Some(color), ..self }
    }

    /// Sets the placeholder-text color.
    pub fn placeholder(self, color: Color) -> (r: Style)
        ensures
            r == (Style { placeholder: Some(color), ..self }),
    {
        Style { placeholder: Some(color), ..self }
    }

    /// Sets the value-text color.
    pub fn value(self, color: Color) -> (r: Style)
        ensures
            r == (Style { value: Some(color), ..self }),
    {
        Style { value: Some(color), ..self }
    }

    /// Sets the selection highlight color.
    pub fn selection(self, color: Color) -> (r: Style)
        ensures
            r == (Style { selection: Some(color), ..self }),
    {
        Style { selection: Some(color), ..self }
    }

    /// The wire form of this style: the same six components.
    pub open spec fn spec_into_wire(self) -> wire::TextInputStyleInner {
        wire::TextInputStyleInner {
            background: self.background,
            border: self.border,
            icon: self.icon,
            placeholder: self.placeholder,
            value: self.value,
            selection: self.selection,
        }
    }

    /// Encodes this style for the wire.
    pub fn into_wire(self) -> (r: wire::TextInputStyleInner)
        ensures
            r == self.spec_into_wire(),
    {
        wire::TextInputStyleInner {
            background: self.background,
            border: self.border,
            icon: self.icon,
            placeholder: self.placeholder,
            value: self.value,
            selection: self.selection,
        }
    }
}

/// Encodes an optional per-state style.
fn map_style(s: Option<Style>) -> (r: Option<wire::TextInputStyleInner>)
    ensures
        r == (match s {
            Some(st) => Some(st.spec_into_wire()),
            None => None,
        }),
{
    match s {
        Some(st) => Some(st.into_wire()),
        None => None,
    }
}

} // verus!
