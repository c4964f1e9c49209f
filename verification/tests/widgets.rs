//! Widget building: mouse areas, widget ids, operations, styles, and
//! their wire encodings.

use pinnacle::mouse_area::{Interaction, MouseArea, WidgetDef};
use pinnacle::operation::{
    self, focus, focus_next, focus_previous, move_cursor, move_cursor_end, move_cursor_front,
    select_all, unfocus, Focusable, Operation,
};
use pinnacle::text_input::{Side, Style, Styles};
use pinnacle::widget::{Background, Border, Color, WidgetId, WidgetIdCounter};
use pinnacle::wire;

fn text(s: &str) -> WidgetDef<u8> {
    WidgetDef::Text(s.to_string())
}

#[test]
fn mouse_area_starts_with_nothing_registered() {
    let m = MouseArea::new(text("hello"));
    assert!(m.widget_id.is_none());
    assert!(m.on_press.is_none());
    assert!(m.on_exit.is_none());
    assert!(m.interaction.is_none());
}

#[test]
fn first_callback_assigns_a_widget_id_once() {
    let mut ids = WidgetIdCounter::new();
    let m = MouseArea::new(text("hello"))
        .on_press(1u8, &mut ids)
        .on_release(2u8, &mut ids)
        .on_enter(3u8, &mut ids);
    assert_eq!(m.widget_id, Some(WidgetId(0)));
    assert_eq!(m.on_press, Some(1));
    assert_eq!(m.on_release, Some(2));
    assert_eq!(m.on_enter, Some(3));
    // only the first builder took an id
    assert_eq!(ids.next, 1);
    let m2 = MouseArea::new(text("other")).on_double_click(9u8, &mut ids);
    assert_eq!(m2.widget_id, Some(WidgetId(1)));
    assert_eq!(ids.next, 2);
}

#[test]
fn every_callback_builder_registers_its_message() {
    let mut ids = WidgetIdCounter::new();
    let m = MouseArea::new(text("t"))
        .interaction(Interaction::Grab)
        .unique_id("panel".to_string(), &mut ids)
        .on_right_press(4u8, &mut ids)
        .on_right_release(5u8, &mut ids)
        .on_middle_press(6u8, &mut ids)
        .on_middle_release(7u8, &mut ids)
        .on_exit(8u8, &mut ids);
    assert_eq!(m.interaction, Some(Interaction::Grab));
    assert_eq!(m.unique_id.as_deref(), Some("panel"));
    assert_eq!(m.on_right_press, Some(4));
    assert_eq!(m.on_right_release, Some(5));
    assert_eq!(m.on_middle_press, Some(6));
    assert_eq!(m.on_middle_release, Some(7));
    assert_eq!(m.on_exit, Some(8));
}

#[test]
fn mouse_area_wire_encoding_collapses_callbacks_to_flags() {
    let mut ids = WidgetIdCounter::new();
    let m = MouseArea::new(text("hello"))
        .interaction(Interaction::Pointer)
        .on_press(1u8, &mut ids);
    let w = m.into_wire();
    assert!(w.on_press);
    assert!(!w.on_release);
    assert!(!w.on_scroll);
    assert!(!w.on_move);
    assert_eq!(w.interaction, Some(2));
    assert_eq!(w.widget_id, Some(0));
    match w.child.as_deref() {
        Some(wire::Widget::Text(t)) => assert_eq!(t, "hello"),
        other => panic!("expected a text child, got {:?}", other),
    }
}

#[test]
fn nested_mouse_areas_encode_recursively() {
    let inner = MouseArea::new(text("inner"));
    let outer = MouseArea::new(WidgetDef::MouseArea(Box::new(inner)));
    let w = outer.into_wire();
    match w.child.as_deref() {
        Some(wire::Widget::MouseArea(inner)) => match inner.child.as_deref() {
            Some(wire::Widget::Text(t)) => assert_eq!(t, "inner"),
            other => panic!("expected text grandchild, got {:?}", other),
        },
        other => panic!("expected mouse-area child, got {:?}", other),
    }
}

#[test]
fn interaction_codes_are_stable() {
    assert_eq!(Interaction::NoCursor.code(), 0);
    assert_eq!(Interaction::Pointer.code(), 2);
    assert_eq!(Interaction::Help.code(), 17);
}

#[test]
fn operation_constructors_build_their_variants() {
    assert_eq!(
        focus("a".to_string()),
        Operation::Focusable(Focusable::Focus("a".to_string()))
    );
    assert_eq!(unfocus(), Operation::Focusable(Focusable::Unfocus));
    assert_eq!(focus_next(), Operation::Focusable(Focusable::FocusNext));
    assert_eq!(focus_previous(), Operation::Focusable(Focusable::FocusPrev));
    assert_eq!(
        move_cursor("t".to_string(), 4),
        Operation::TextInput(operation::TextInput::MoveCursor { id: "t".to_string(), position: 4 })
    );
    assert_eq!(
        move_cursor_front("t".to_string()),
        Operation::TextInput(operation::TextInput::MoveCursorFront("t".to_string()))
    );
    assert_eq!(
        move_cursor_end("t".to_string()),
        Operation::TextInput(operation::TextInput::MoveCursorEnd("t".to_string()))
    );
    assert_eq!(
        select_all("t".to_string()),
        Operation::TextInput(operation::TextInput::SelectAll("t".to_string()))
    );
}

#[test]
fn operations_encode_for_the_wire() {
    let w = focus("a".to_string()).into_wire();
    match w.target {
        Some(wire::OperationTarget::Focusable(f)) => {
            assert_eq!(f.op, Some(wire::FocusableOp::Focus { id: "a".to_string() }));
        }
        other => panic!("expected a focusable target, got {:?}", other),
    }
    let w = move_cursor("t".to_string(), 4).into_wire();
    match w.target {
        Some(wire::OperationTarget::TextInput(t)) => {
            assert_eq!(
                t.op,
                Some(wire::TextInputOp::MoveCursor { id: "t".to_string(), position: 4 })
            );
        }
        other => panic!("expected a text-input target, got {:?}", other),
    }
}

#[test]
fn styles_builders_set_one_state_each() {
    let c = Color { red: 1, green: 2, blue: 3, alpha: 255 };
    let style = Style::new()
        .background(Background::Color(c))
        .border(Border { color: c, width: 2, radius: 4 })
        .icon(c)
        .placeholder(c)
        .value(c)
        .selection(c);
    assert_eq!(style.background, Some(Background::Color(c)));
    assert_eq!(style.border, Some(Border { color: c, width: 2, radius: 4 }));
    let styles = Styles::new()
        .active(style)
        .hovered(style)
        .focused(style)
        .hover_focused(style)
        .disabled(style);
    assert_eq!(styles.active, Some(style));
    assert_eq!(styles.disabled, Some(style));

    let w = styles.into_wire();
    assert_eq!(w.active, Some(style.into_wire()));
    assert_eq!(w.hovered, Some(style.into_wire()));
    let partial = Styles::new().focused(style).into_wire();
    assert_eq!(partial.active, None);
    assert!(partial.focused.is_some());
}

#[test]
fn icon_sides_are_two() {
    assert_ne!(Side::Left, Side::Right);
}
