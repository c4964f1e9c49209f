//! Shared building blocks of the widget toolkit's API: widget identities
//! and the plain style values widgets are painted with.

use vstd::prelude::*;

verus! {

/// Identifies a widget instance across updates of the widget tree.
#[derive(Clone, Copy, Debug, PartialEq, Eq, Hash, Structural)]
pub struct WidgetId(pub u32);

impl WidgetId {
    /// The raw id carried on the wire.
    pub fn to_inner(self) -> (r: u32)
        ensures
            r == self.0,
    {
        self.0
    }
}

/// Allocates fresh widget ids. The toolkit keeps one per connection and
/// hands it to every builder that may need to identify its widget.
#[derive(Clone, Copy, Debug, PartialEq, Eq, Structural)]
pub struct WidgetIdCounter {
    pub next: u32,
}

impl WidgetIdCounter {
    /// A counter starting at zero.
    pub fn new() -> (r: WidgetIdCounter)
        ensures
            r.next == 0,
    {
        WidgetIdCounter { next: 0 }
    }

    /// Allocates the next widget id.
    pub fn next_id(&mut self) -> (r: WidgetId)
        requires
            old(self).next < u32::MAX,
        ensures
            r == WidgetId(old(self).next),
            final(self).next == old(self).next + 1,
    {
        let id = WidgetId(self.next);
        self.next = self.next + 1;
        id
    }
}

/// An sRGB color with alpha, each channel in 0..=255.
#[derive(Clone, Copy, Debug, PartialEq, Eq, Hash, Structural)]
pub struct Color {
    pub red: u8,
    pub green: u8,
    pub blue: u8,
    pub alpha: u8,
}

/// What a widget's background is painted with.
#[derive(Clone, Copy, Debug, PartialEq, Eq, Hash, Structural)]
pub enum Background {
    Color(Color),
}

/// A widget border: its color, line width and corner radius in pixels.
#[derive(Clone, Copy, Debug, PartialEq, Eq, Hash, Structural)]
pub struct Border {
    pub color: Color,
    pub width: u32,
    pub radius: u32,
}

} // verus!
