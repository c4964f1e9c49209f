//! Widget operations: commands a config sends to update the internal state
//! of focusable and text-input widgets.

use vstd::prelude::*;

use crate::wire;

verus! {

/// An operation on a focusable widget.
#[derive(Clone, Debug, PartialEq)]
pub enum Focusable {
    /// Focus the widget with this id.
    Focus(String),
    /// Drop focus.
    Unfocus,
    /// Focus the next focusable widget.
    FocusNext,
    /// Focus the previous focusable widget.
    FocusPrev,
}

/// An operation on a text-input widget.
#[derive(Clone, Debug, PartialEq)]
pub enum TextInput {
    /// Put the cursor at a position in the widget with this id.
    MoveCursor { id: String, position: usize },
    /// Put the cursor at the front.
    MoveCursorFront(String),
    /// Put the cursor at the end.
    MoveCursorEnd(String),
    /// Select the whole contents.
    SelectAll(String),
}

/// A widget operation: update the internal state of some widget.
#[derive(Clone, Debug, PartialEq)]
pub enum Operation {
    Focusable(Focusable),
    TextInput(TextInput),
}

/// Focuses the widget with the given id.
pub fn focus(widget_id: String) -> (r: Operation)
    ensures
        r == Operation::Focusable(Focusable::Focus(widget_id)),
{
    Operation::Focusable(Focusable::Focus(widget_id))
}

/// Drops widget focus.
pub fn unfocus() -> (r: Operation)
    ensures
        r == Operation::Focusable(Focusable::Unfocus),
{
    Operation::Focusable(Focusable::Unfocus)
}

/// Focuses the next focusable widget.
pub fn focus_next() -> (r: Operation)
    ensures
        r == Operation::Focusable(Focusable::FocusNext),
{
    Operation::Focusable(Focusable::FocusNext)
}

/// Focuses the previous focusable widget.
pub fn focus_previous() -> (r: Operation)
    ensures
        r == Operation::Focusable(Focusable::FocusPrev),
{
    Operation::Focusable(Focusable::FocusPrev)
}

/// Puts the text cursor at `position` in the widget with the given id.
pub fn move_cursor(widget_id: String, position: usize) -> (r: Operation)
    ensures
        r == Operation::TextInput(TextInput::MoveCursor { id: widget_id, position }),
{
    Operation::TextInput(TextInput::MoveCursor { id: widget_id, position })
}

/// Puts the text cursor at the front of the widget with the given id.
pub fn move_cursor_front(widget_id: String) -> (r: Operation)
    ensures
        r == Operation::TextInput(TextInput::MoveCursorFront(widget_id)),
{
    Operation::TextInput(TextInput::MoveCursorFront(widget_id))
}

/// Puts the text cursor at the end of the widget with the given id.
pub fn move_cursor_end(widget_id: String) -> (r: Operation)
    ensures
        r == Operation::TextInput(TextInput::MoveCursorEnd(widget_id)),
{
    Operation::TextInput(TextInput::MoveCursorEnd(widget_id))
}

/// Selects the whole contents of the widget with the given id.
pub fn select_all(widget_id: String) -> (r: Operation)
    ensures
        r == Operation::TextInput(TextInput::SelectAll(widget_id)),
{
    Operation::TextInput(TextInput::SelectAll(widget_id))
}

impl Focusable {
    /// The wire form of this operation.
    pub open spec fn spec_into_wire(self) -> wire::Focusable {
        wire::Focusable {
            op: Some(
                match self {
                    Focusable::Focus(id) => wire::FocusableOp::Focus { id },
                    Focusable::Unfocus => wire::FocusableOp::Unfocus,
                    Focusable::FocusNext => wire::FocusableOp::FocusNext,
                    Focusable::FocusPrev => wire::FocusableOp::FocusPrev,
                },
            ),
        }
    }

    /// Encodes this operation for the wire.
    pub fn into_wire(self) -> (r: wire::Focusable)
        ensures
            r == self.spec_into_wire(),
    {
        let op = match self {
            Focusable::Focus(id) => wire::FocusableOp::Focus { id },
            Focusable::Unfocus => wire::FocusableOp::Unfocus,
            Focusable::FocusNext => wire::FocusableOp::FocusNext,
            Focusable::FocusPrev => wire::FocusableOp::FocusPrev,
        };
        wire::Focusable { op: Some(op) }
    }
}

impl TextInput {
    /// The wire form of this operation; the cursor position widens to the
    /// wire's integer.
    pub open spec fn spec_into_wire(self) -> wire::TextInput {
        wire::TextInput {
            op: Some(
                match self {
                    TextInput::MoveCursor { id, position } => wire::TextInputOp::MoveCursor {
                        id,
                        position: position as u64,
                    },
                    TextInput::MoveCursorFront(id) => wire::TextInputOp::MoveCursorFront { id },
                    TextInput::MoveCursorEnd(id) => wire::TextInputOp::MoveCursorEnd { id },
                    TextInput::SelectAll(id) => wire::TextInputOp::SelectAll { id },
                },
            ),
        }
    }

    /// Encodes this operation for the wire.
    pub fn into_wire(self) -> (r: wire::TextInput)
        ensures
            r == self.spec_into_wire(),
    {
        let op = match self {
            TextInput::MoveCursor { id, position } => wire::TextInputOp::MoveCursor {
                id,
                position: position as u64,
            },
            TextInput::MoveCursorFront(id) => wire::TextInputOp::MoveCursorFront { id },
            TextInput::MoveCursorEnd(id) => wire::TextInputOp::MoveCursorEnd { id },
            TextInput::SelectAll(id) => wire::TextInputOp::SelectAll { id },
        };
        wire::TextInput { op: Some(op) }
    }
}

impl Operation {
    /// The wire form of this operation.
    pub open spec fn spec_into_wire(self) -> wire::Operation {
        wire::Operation {
            target: Some(
                match self {
                    Operation::Focusable(f) => wire::OperationTarget::Focusable(
                        f.spec_into_wire(),
                    ),
                    Operation::TextInput(t) => wire::OperationTarget::TextInput(
                        t.spec_into_wire(),
                    ),
                },
            ),
        }
    }

    /// Encodes this operation for the wire.
    pub fn into_wire(self) -> (r: wire::Operation)
        ensures
            r == self.spec_into_wire(),
    {
        let target = match self {
            Operation::Focusable(f) => wire::OperationTarget::Focusable(f.into_wire()),
            Operation::TextInput(t) => wire::OperationTarget::TextInput(t.into_wire()),
        };
        wire::Operation { target: Some(target) }
    }
}

} // verus!
