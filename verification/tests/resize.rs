//! Interactive-resize behaviour: candidate sizes, the commit state
//! machine, and the position correction on commit.

use pinnacle::actions::Action;
use pinnacle::geometry::{Point, Rect, Size};
use pinnacle::model::Pinnacle;
use pinnacle::resize_grab::{
    resize_candidate_size, GrabStartData, ResizeEdge, ResizeSurfaceGrab, ResizeSurfaceState,
};
use pinnacle::state::State;
use pinnacle::window::{Window, WindowSurface};

fn wayland_window(id: u32, surface: u32, w: i32, h: i32) -> Window {
    Window::new(
        id,
        WindowSurface::Wayland { surface },
        Rect { loc: Point { x: 0, y: 0 }, size: Size { w, h } },
    )
}

fn state_with_mapped_window(id: u32, surface: u32, loc: Point, w: i32, h: i32) -> State {
    let mut st = State::new();
    st.pinnacle.insert_window(wayland_window(id, surface, w, h));
    st.pinnacle.map_element(id, loc, true);
    st
}

#[test]
fn grab_motion_scenario_top_left() {
    // grab at (100,100) on a 200x200 window, edges TopLeft, min 50x50;
    // pointer moves to (80,120): width grows by 20, height shrinks by 20
    let candidate = resize_candidate_size(
        ResizeEdge::TopLeft,
        Size { w: 200, h: 200 },
        Point { x: 80 - 100, y: 120 - 100 },
        Size { w: 50, h: 50 },
        Size { w: 0, h: 0 },
    );
    assert_eq!(candidate, Size { w: 220, h: 180 });
}

#[test]
fn candidate_clamps_to_min_with_floor_of_one() {
    // dragging far enough right with the left edge shrinks to the minimum
    let candidate = resize_candidate_size(
        ResizeEdge::Left,
        Size { w: 200, h: 200 },
        Point { x: 500, y: 0 },
        Size { w: 50, h: 50 },
        Size { w: 0, h: 0 },
    );
    assert_eq!(candidate, Size { w: 50, h: 200 });
    // with no advertised minimum the floor is one pixel per axis
    let candidate = resize_candidate_size(
        ResizeEdge::Left,
        Size { w: 200, h: 200 },
        Point { x: 500, y: 0 },
        Size { w: 0, h: 0 },
        Size { w: 0, h: 0 },
    );
    assert_eq!(candidate, Size { w: 1, h: 200 });
}

#[test]
fn candidate_clamps_to_max_only_when_one_is_given() {
    // a maximum of zero means no upper clamp in that axis
    let candidate = resize_candidate_size(
        ResizeEdge::Right,
        Size { w: 200, h: 200 },
        Point { x: 5000, y: 0 },
        Size { w: 1, h: 1 },
        Size { w: 0, h: 0 },
    );
    assert_eq!(candidate.w, 5200);
    let candidate = resize_candidate_size(
        ResizeEdge::Right,
        Size { w: 200, h: 200 },
        Point { x: 5000, y: 0 },
        Size { w: 1, h: 1 },
        Size { w: 800, h: 0 },
    );
    assert_eq!(candidate.w, 800);
}

#[test]
fn resizing_is_axis_independent() {
    // the size from a diagonal delta equals the width from its horizontal
    // component alone paired with the height from its vertical one
    for edge in [
        ResizeEdge::TopLeft,
        ResizeEdge::BottomRight,
        ResizeEdge::Left,
        ResizeEdge::Top,
        ResizeEdge::NoEdge,
    ] {
        let initial = Size { w: 300, h: 200 };
        let min = Size { w: 40, h: 40 };
        let max = Size { w: 500, h: 0 };
        let delta = Point { x: -70, y: 130 };
        let full = resize_candidate_size(edge, initial, delta, min, max);
        let horizontal =
            resize_candidate_size(edge, initial, Point { x: delta.x, y: 0 }, min, max);
        let vertical =
            resize_candidate_size(edge, initial, Point { x: 0, y: delta.y }, min, max);
        assert_eq!(full, Size { w: horizontal.w, h: vertical.h });
    }
}

#[test]
fn candidate_ignores_axes_the_edge_does_not_hold() {
    let candidate = resize_candidate_size(
        ResizeEdge::Bottom,
        Size { w: 300, h: 300 },
        Point { x: 250, y: -40 },
        Size { w: 0, h: 0 },
        Size { w: 0, h: 0 },
    );
    assert_eq!(candidate, Size { w: 300, h: 260 });
}

#[test]
fn on_commit_steps_the_state_machine() {
    let payload = (
        ResizeEdge::Left,
        Point { x: 5, y: 6 },
        Size { w: 100, h: 100 },
    );
    let mut s = ResizeSurfaceState::Idle;
    assert_eq!(s.on_commit(), None);
    assert_eq!(s, ResizeSurfaceState::Idle);

    let mut s = ResizeSurfaceState::Resizing {
        edges: payload.0,
        initial_window_loc: payload.1,
        initial_window_size: payload.2,
    };
    assert_eq!(s.on_commit(), Some(payload));
    // a commit while the grab is live leaves the state in Resizing
    assert!(matches!(s, ResizeSurfaceState::Resizing { .. }));

    let mut s = ResizeSurfaceState::WaitingForLastCommit {
        edges: payload.0,
        initial_window_loc: payload.1,
        initial_window_size: payload.2,
    };
    assert_eq!(s.on_commit(), Some(payload));
    assert_eq!(s, ResizeSurfaceState::Idle);
}

#[test]
fn release_always_goes_to_waiting_never_idle() {
    let mut st = state_with_mapped_window(1, 10, Point { x: 0, y: 0 }, 200, 200);
    st.resize_request_server(10, Point { x: 100, y: 100 }, ResizeEdge::Right, 272);
    let mut grab = st.active_grab.take().expect("grab should be installed");

    // even without any motion the release hands the surface to
    // WaitingForLastCommit, with the original geometry as the anchor
    let unset = grab.button(&mut st.pinnacle, &mut st.pending, false);
    assert!(unset);
    let wi = st.pinnacle.find_window(1).unwrap();
    match st.pinnacle.windows[wi].resize_state {
        ResizeSurfaceState::WaitingForLastCommit {
            edges,
            initial_window_loc,
            initial_window_size,
        } => {
            assert_eq!(edges, ResizeEdge::Right);
            assert_eq!(initial_window_loc, Point { x: 0, y: 0 });
            assert_eq!(initial_window_size, Size { w: 200, h: 200 });
        }
        other => panic!("expected WaitingForLastCommit, got {:?}", other),
    }
}

#[test]
fn motion_updates_floating_size_and_sends_configure() {
    let mut st = state_with_mapped_window(1, 10, Point { x: 0, y: 0 }, 200, 200);
    st.resize_request_server(10, Point { x: 100, y: 100 }, ResizeEdge::BottomRight, 272);
    let mut grab = st.active_grab.take().expect("grab should be installed");
    let before = st.pending.len();

    let unset = grab.motion(&mut st.pinnacle, &mut st.pending, Point { x: 130, y: 110 });
    assert!(!unset);
    assert_eq!(grab.last_window_size, Size { w: 230, h: 210 });
    let wi = st.pinnacle.find_window(1).unwrap();
    assert_eq!(st.pinnacle.windows[wi].floating_size, Some(Size { w: 230, h: 210 }));
    match &st.pending[before] {
        Action::SendPendingConfigure { window, resizing, size } => {
            assert_eq!(*window, 1);
            assert!(*resizing);
            assert_eq!(*size, Some(Size { w: 230, h: 210 }));
        }
        other => panic!("expected SendPendingConfigure, got {:?}", other),
    }
}

#[test]
fn motion_unsets_when_the_window_died() {
    let mut st = state_with_mapped_window(1, 10, Point { x: 0, y: 0 }, 200, 200);
    st.resize_request_server(10, Point { x: 100, y: 100 }, ResizeEdge::Top, 272);
    let mut grab = st.active_grab.take().expect("grab should be installed");
    st.pinnacle.remove_window(1);

    let unset = grab.motion(&mut st.pinnacle, &mut st.pending, Point { x: 90, y: 90 });
    assert!(unset);
}

#[test]
fn commit_corrects_top_left_axes_only() {
    // window resized from the TopLeft corner; original anchor (10,10),
    // original size 200x200; the client committed 180x190
    let mut st = state_with_mapped_window(1, 10, Point { x: 10, y: 10 }, 200, 200);
    let wi = st.pinnacle.find_window(1).unwrap();
    st.pinnacle.set_geometry(
        wi,
        Rect { loc: Point { x: 0, y: 0 }, size: Size { w: 180, h: 190 } },
    );
    st.pinnacle.set_resize_state(
        wi,
        ResizeSurfaceState::WaitingForLastCommit {
            edges: ResizeEdge::TopLeft,
            initial_window_loc: Point { x: 10, y: 10 },
            initial_window_size: Size { w: 200, h: 200 },
        },
    );

    st.pinnacle.move_surface_if_resized(10, &mut st.pending);

    let wi = st.pinnacle.find_window(1).unwrap();
    // corrected by original + (original size − committed size) per held axis
    assert_eq!(
        st.pinnacle.windows[wi].floating_loc,
        Some(Point { x: 10 + (200 - 180), y: 10 + (200 - 190) })
    );
    assert_eq!(st.pinnacle.element_location(1), Some(Point { x: 30, y: 20 }));
    assert_eq!(st.pinnacle.windows[wi].resize_state, ResizeSurfaceState::Idle);
}

#[test]
fn commit_without_held_top_left_edges_keeps_location() {
    let mut st = state_with_mapped_window(1, 10, Point { x: 10, y: 10 }, 200, 200);
    let wi = st.pinnacle.find_window(1).unwrap();
    st.pinnacle.set_geometry(
        wi,
        Rect { loc: Point { x: 0, y: 0 }, size: Size { w: 150, h: 150 } },
    );
    st.pinnacle.set_resize_state(
        wi,
        ResizeSurfaceState::WaitingForLastCommit {
            edges: ResizeEdge::BottomRight,
            initial_window_loc: Point { x: 10, y: 10 },
            initial_window_size: Size { w: 200, h: 200 },
        },
    );

    st.pinnacle.move_surface_if_resized(10, &mut st.pending);

    assert_eq!(st.pinnacle.element_location(1), Some(Point { x: 10, y: 10 }));
    let wi = st.pinnacle.find_window(1).unwrap();
    assert_eq!(st.pinnacle.windows[wi].resize_state, ResizeSurfaceState::Idle);
}

#[test]
fn commit_while_resizing_stays_resizing() {
    let mut st = state_with_mapped_window(1, 10, Point { x: 10, y: 10 }, 200, 200);
    let wi = st.pinnacle.find_window(1).unwrap();
    st.pinnacle.set_resize_state(
        wi,
        ResizeSurfaceState::Resizing {
            edges: ResizeEdge::Left,
            initial_window_loc: Point { x: 10, y: 10 },
            initial_window_size: Size { w: 200, h: 200 },
        },
    );

    st.pinnacle.move_surface_if_resized(10, &mut st.pending);

    let wi = st.pinnacle.find_window(1).unwrap();
    assert!(matches!(
        st.pinnacle.windows[wi].resize_state,
        ResizeSurfaceState::Resizing { .. }
    ));
}

#[test]
fn resize_request_is_refused_for_tiled_windows() {
    let mut st = state_with_mapped_window(1, 10, Point { x: 0, y: 0 }, 200, 200);
    let wi = st.pinnacle.find_window(1).unwrap();
    let mut w = st.pinnacle.windows.remove(wi);
    w.floating = false;
    st.pinnacle.windows.insert(wi, w);

    st.resize_request_server(10, Point { x: 50, y: 50 }, ResizeEdge::Left, 272);
    assert!(st.active_grab.is_none());
    assert!(st.pending.is_empty());
}

#[test]
fn resize_request_is_refused_for_dead_windows() {
    let mut st = state_with_mapped_window(1, 10, Point { x: 0, y: 0 }, 200, 200);
    let wi = st.pinnacle.find_window(1).unwrap();
    let mut w = st.pinnacle.windows.remove(wi);
    w.alive = false;
    st.pinnacle.windows.insert(wi, w);

    st.resize_request_server(10, Point { x: 50, y: 50 }, ResizeEdge::Left, 272);
    assert!(st.active_grab.is_none());
}

#[test]
fn grab_start_records_resizing_state() {
    let mut st = state_with_mapped_window(7, 70, Point { x: 3, y: 4 }, 120, 80);
    let grab = ResizeSurfaceGrab::start(
        &mut st.pinnacle,
        GrabStartData { location: Point { x: 9, y: 9 }, button: 273 },
        7,
        ResizeEdge::Bottom,
        Point { x: 3, y: 4 },
        Size { w: 120, h: 80 },
        273,
    )
    .expect("window has a surface, so the grab must start");
    assert_eq!(grab.window, 7);
    assert_eq!(grab.last_window_size, Size { w: 120, h: 80 });
    let wi = st.pinnacle.find_window(7).unwrap();
    assert!(matches!(
        st.pinnacle.windows[wi].resize_state,
        ResizeSurfaceState::Resizing { .. }
    ));
}
