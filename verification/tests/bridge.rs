//! The foreign-protocol lifecycle bridge: mapping, configure decisions,
//! state flags, selections, and the stacking-order reconciliation.

use pinnacle::actions::{Action, SelectionTarget};
use pinnacle::geometry::{Point, Rect, Size};
use pinnacle::model::Tag;
use pinnacle::resize_grab::{ForeignResizeEdge, ResizeSurfaceState};
use pinnacle::state::State;
use pinnacle::window::{Window, WindowSurface};
use pinnacle::xwayland::ForeignWindow;

fn foreign(id: u32, surface: Option<u32>, override_redirect: bool, x: i32, y: i32) -> ForeignWindow {
    ForeignWindow {
        id,
        surface,
        override_redirect,
        xwm: 1,
        geometry: Rect { loc: Point { x, y }, size: Size { w: 60, h: 40 } },
    }
}

#[test]
fn override_redirect_window_maps_immediately_at_its_own_location() {
    // self-declared location (50,50): it appears in the Space there at
    // once, raised, with no window-rule evaluation dispatched
    let mut st = State::new();
    st.mapped_override_redirect_window(foreign(7, Some(70), true, 50, 50));

    assert_eq!(st.pinnacle.element_location(7), Some(Point { x: 50, y: 50 }));
    assert_eq!(st.pinnacle.z_index_stack[0], 7);
    let wi = st.pinnacle.find_window(7).unwrap();
    assert!(st.pinnacle.windows[wi].mapped);
    assert!(!st
        .pending
        .iter()
        .any(|a| matches!(a, Action::RequestWindowRules { .. })));
}

#[test]
fn map_request_registers_but_does_not_map_yet() {
    let mut st = State::new();
    st.pinnacle.focused_output = Some("main".to_string());
    st.map_window_request(foreign(3, Some(30), false, 10, 10), true);

    let wi = st.pinnacle.find_window(3).unwrap();
    assert!(!st.pinnacle.windows[wi].mapped);
    assert!(st.pinnacle.element_location(3).is_none());
    // placement and a window-rule evaluation were requested, in that order
    assert!(matches!(
        &st.pending[0],
        Action::PlaceWindow { window: 3, output } if output == "main"
    ));
    assert!(matches!(st.pending[1], Action::RequestWindowRules { window: 3 }));
    assert_eq!(st.pending.len(), 2);
}

#[test]
fn map_request_without_rule_dispatch_maps_at_once() {
    let mut st = State::new();
    st.map_window_request(foreign(3, Some(30), false, 10, 10), false);
    assert!(matches!(st.pending[0], Action::RequestWindowRules { window: 3 }));
    assert!(matches!(
        st.pending[1],
        Action::SetForeignMapped { window: 3, mapped: true }
    ));
}

#[test]
fn map_request_ignores_override_redirect_windows() {
    let mut st = State::new();
    st.map_window_request(foreign(3, Some(30), true, 10, 10), true);
    assert!(st.pinnacle.find_window(3).is_none());
    assert!(st.pending.is_empty());
}

#[test]
fn map_window_notify_maps_at_the_floating_location() {
    let mut st = State::new();
    st.map_window_request(foreign(3, Some(30), false, 10, 10), true);
    let wi = st.pinnacle.find_window(3).unwrap();
    st.pinnacle.set_floating_loc(wi, Some(Point { x: 25, y: 35 }));

    st.map_window_notify(3);
    assert_eq!(st.pinnacle.element_location(3), Some(Point { x: 25, y: 35 }));
    assert_eq!(st.pinnacle.z_index_stack[0], 3);
}

#[test]
fn unmap_and_destroy_remove_the_window_atomically() {
    let mut st = State::new();
    st.mapped_override_redirect_window(foreign(7, Some(70), true, 50, 50));
    st.unmapped_window(7);
    assert!(st.pinnacle.find_window(7).is_none());
    assert!(st.pinnacle.space_index(7).is_none());
    assert!(st.pinnacle.stack_index(7).is_none());

    st.mapped_override_redirect_window(foreign(8, Some(80), true, 0, 0));
    st.destroyed_window(8);
    assert!(st.pinnacle.find_window(8).is_none());
    assert!(st.pinnacle.space_index(8).is_none());
    assert!(st.pinnacle.stack_index(8).is_none());
}

#[test]
fn configure_request_is_granted_for_floating_and_unknown_windows() {
    let mut st = State::new();
    // unknown window: the client has not mapped yet, so the request is
    // granted to let it map properly
    let cur = Rect { loc: Point { x: 0, y: 0 }, size: Size { w: 100, h: 100 } };
    st.configure_request(9, cur, Some(5), None, Some(200), None);
    match &st.pending[0] {
        Action::ConfigureForeign { window, geometry } => {
            assert_eq!(*window, 9);
            assert_eq!(
                *geometry,
                Rect { loc: Point { x: 5, y: 0 }, size: Size { w: 200, h: 100 } }
            );
        }
        other => panic!("expected ConfigureForeign, got {:?}", other),
    }
}

#[test]
fn configure_request_is_ignored_for_tiled_windows() {
    let mut st = State::new();
    st.map_window_request(foreign(3, Some(30), false, 10, 10), true);
    let wi = st.pinnacle.find_window(3).unwrap();
    let mut w = st.pinnacle.windows.remove(wi);
    w.floating = false;
    st.pinnacle.windows.insert(wi, w);
    let n0 = st.pending.len();

    let cur = Rect { loc: Point { x: 0, y: 0 }, size: Size { w: 100, h: 100 } };
    st.configure_request(3, cur, Some(5), Some(5), None, None);
    assert_eq!(st.pending.len(), n0);
}

#[test]
fn configure_notify_follows_override_redirect_windows_only() {
    let mut st = State::new();
    st.mapped_override_redirect_window(foreign(7, Some(70), true, 50, 50));
    st.configure_notify(
        7,
        Rect { loc: Point { x: 80, y: 90 }, size: Size { w: 60, h: 40 } },
    );
    assert_eq!(st.pinnacle.element_location(7), Some(Point { x: 80, y: 90 }));

    // a managed window is repositioned by the compositor only
    st.map_window_request(foreign(3, Some(30), false, 0, 0), true);
    st.map_window_notify(3);
    let before = st.pinnacle.element_location(3);
    st.configure_notify(
        3,
        Rect { loc: Point { x: 500, y: 500 }, size: Size { w: 60, h: 40 } },
    );
    assert_eq!(st.pinnacle.element_location(3), before);
}

#[test]
fn state_requests_update_flags_and_ask_for_layout() {
    let mut st = State::new();
    st.map_window_request(foreign(3, Some(30), false, 0, 0), true);
    let n0 = st.pending.len();

    st.maximize_request(3);
    let wi = st.pinnacle.find_window(3).unwrap();
    assert!(st.pinnacle.windows[wi].maximized);
    assert!(matches!(
        st.pending[n0],
        Action::UpdateWindowStateAndLayout { window: 3 }
    ));
    st.unmaximize_request(3);
    let wi = st.pinnacle.find_window(3).unwrap();
    assert!(!st.pinnacle.windows[wi].maximized);

    st.fullscreen_request(3);
    let wi = st.pinnacle.find_window(3).unwrap();
    assert!(st.pinnacle.windows[wi].fullscreen);
    st.unfullscreen_request(3);
    let wi = st.pinnacle.find_window(3).unwrap();
    assert!(!st.pinnacle.windows[wi].fullscreen);
}

#[test]
fn foreign_resize_request_routes_into_the_grab_machinery() {
    let mut st = State::new();
    st.mapped_override_redirect_window(foreign(7, Some(70), true, 0, 0));
    // an override-redirect window is still floating and mapped, so the
    // request installs a grab with the converted edge
    st.resize_request(7, 272, ForeignResizeEdge::BottomRight, Point { x: 10, y: 10 });
    let grab = st.active_grab.expect("grab should be installed");
    assert_eq!(grab.window, 7);
    let wi = st.pinnacle.find_window(7).unwrap();
    assert!(matches!(
        st.pinnacle.windows[wi].resize_state,
        ResizeSurfaceState::Resizing { .. }
    ));
}

#[test]
fn move_request_asks_for_a_move_grab() {
    let mut st = State::new();
    st.mapped_override_redirect_window(foreign(7, Some(70), true, 0, 0));
    let n0 = st.pending.len();
    st.move_request(7, 272);
    assert!(matches!(
        st.pending[n0],
        Action::StartMoveGrab { window: 7, button: 272 }
    ));
}

#[test]
fn selection_access_requires_focus_in_the_same_domain() {
    let mut st = State::new();
    st.mapped_override_redirect_window(foreign(7, Some(70), true, 0, 0));
    assert!(!st.allow_selection_access(1));
    st.keyboard_focus = Some(7);
    assert!(st.allow_selection_access(1));
    // focus on a window of another window-manager connection refuses access
    assert!(!st.allow_selection_access(2));
}

#[test]
fn selections_are_offered_transferred_and_cleared() {
    let mut st = State::new();
    st.new_selection(SelectionTarget::Clipboard, vec!["text".to_string()]);
    assert!(st.clipboard_selection_set);
    st.send_selection(SelectionTarget::Clipboard, "text".to_string());
    st.cleared_selection(SelectionTarget::Clipboard);
    assert!(!st.clipboard_selection_set);
    assert!(matches!(
        st.pending[0],
        Action::SetSelection { selection: SelectionTarget::Clipboard, .. }
    ));
    assert!(matches!(
        st.pending[1],
        Action::RequestSelectionTransfer { selection: SelectionTarget::Clipboard, .. }
    ));
    assert!(matches!(
        st.pending[2],
        Action::ClearSelection { selection: SelectionTarget::Clipboard }
    ));
    // clearing a selection this bridge never offered is a no-op
    let n0 = st.pending.len();
    st.cleared_selection(SelectionTarget::Primary);
    assert_eq!(st.pending.len(), n0);
}

#[test]
fn restack_raises_active_tag_windows_above_the_rest() {
    let mut st = State::new();
    st.pinnacle.tags = vec![Tag { id: 1, active: true }, Tag { id: 2, active: false }];
    st.pinnacle.xwm_active = true;
    // three managed foreign windows and one override-redirect one
    for (id, tag) in [(1u32, 1u32), (2, 2), (3, 1)] {
        let mut w = Window::new(
            id,
            WindowSurface::X11 { surface: Some(10 + id), override_redirect: false, xwm: 1 },
            Rect { loc: Point { x: 0, y: 0 }, size: Size { w: 10, h: 10 } },
        );
        w.tags = vec![tag];
        st.pinnacle.insert_window(w);
        st.pinnacle.map_element(id, Point { x: 0, y: 0 }, true);
    }
    let w = Window::new(
        4,
        WindowSurface::X11 { surface: Some(14), override_redirect: true, xwm: 1 },
        Rect { loc: Point { x: 0, y: 0 }, size: Size { w: 10, h: 10 } },
    );
    st.pinnacle.insert_window(w);
    st.pinnacle.map_element(4, Point { x: 0, y: 0 }, true);

    // stack front-to-back is [4, 3, 2, 1]; bottom-to-top [1, 2, 3, 4]
    let mut pending = Vec::new();
    st.pinnacle.update_xwayland_stacking_order(&mut pending);
    match &pending[0] {
        Action::RestackForeign { windows } => {
            // inactive-tag windows first, then active ones, bottom-to-top
            // within each group; the override-redirect window is absent
            assert_eq!(windows, &vec![2, 1, 3]);
        }
        other => panic!("expected RestackForeign, got {:?}", other),
    }
}

#[test]
fn restack_is_silent_without_a_window_manager() {
    let st = State::new();
    let mut pending = Vec::new();
    st.pinnacle.update_xwayland_stacking_order(&mut pending);
    assert!(pending.is_empty());
}

#[test]
fn remove_xwayland_window_asks_its_output_to_relayout() {
    let mut st = State::new();
    st.pinnacle.outputs = vec![pinnacle::model::OutputState {
        name: "main".to_string(),
        loc: Point { x: 0, y: 0 },
        size: Size { w: 1920, h: 1080 },
        scale_millis: 1000,
        layer_surfaces: Vec::new(),
        snapshot: None,
    }];
    st.mapped_override_redirect_window(foreign(7, Some(70), true, 50, 50));
    let n0 = st.pending.len();
    st.remove_xwayland_window(7);
    assert!(st.pinnacle.find_window(7).is_none());
    let tail: Vec<_> = st.pending[n0..].iter().collect();
    assert!(matches!(tail[0], Action::CaptureSnapshots { .. }));
    assert!(matches!(tail[1], Action::BeginLayoutTransaction { .. }));
    assert!(matches!(tail[2], Action::RequestLayout { .. }));
    assert!(matches!(tail[3], Action::UpdateKeyboardFocus { .. }));
    assert!(matches!(tail[4], Action::ScheduleRender { .. }));
}
