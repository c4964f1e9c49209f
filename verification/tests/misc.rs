//! Odds and ends: cursor shapes, edge conversion, coordinate sanitizing,
//! and the render scheduler.

use pinnacle::actions::Action;
use pinnacle::geometry::{sanitize_rect, Point, Rect, Size};
use pinnacle::resize_grab::{CursorIcon, ForeignResizeEdge, ResizeEdge};
use pinnacle::state::State;

#[test]
fn each_edge_picks_its_cursor() {
    assert_eq!(ResizeEdge::NoEdge.cursor_icon(), CursorIcon::Default);
    assert_eq!(ResizeEdge::Top.cursor_icon(), CursorIcon::NResize);
    assert_eq!(ResizeEdge::Bottom.cursor_icon(), CursorIcon::SResize);
    assert_eq!(ResizeEdge::Left.cursor_icon(), CursorIcon::WResize);
    assert_eq!(ResizeEdge::Right.cursor_icon(), CursorIcon::EResize);
    assert_eq!(ResizeEdge::TopLeft.cursor_icon(), CursorIcon::NwResize);
    assert_eq!(ResizeEdge::TopRight.cursor_icon(), CursorIcon::NeResize);
    assert_eq!(ResizeEdge::BottomLeft.cursor_icon(), CursorIcon::SwResize);
    assert_eq!(ResizeEdge::BottomRight.cursor_icon(), CursorIcon::SeResize);
}

#[test]
fn foreign_edges_convert_one_to_one() {
    assert_eq!(
        ResizeEdge::from_foreign(ForeignResizeEdge::TopLeft),
        ResizeEdge::TopLeft
    );
    assert_eq!(
        ResizeEdge::from_foreign(ForeignResizeEdge::Bottom),
        ResizeEdge::Bottom
    );
}

#[test]
fn sanitizing_clamps_client_rectangles() {
    let r = sanitize_rect(Rect {
        loc: Point { x: i32::MIN, y: 17 },
        size: Size { w: -5, h: i32::MAX },
    });
    assert_eq!(r.loc, Point { x: -1_000_000_000, y: 17 });
    assert_eq!(r.size, Size { w: 0, h: 1_000_000_000 });
}

#[test]
fn schedule_render_queues_one_request() {
    let mut st = State::new();
    st.schedule_render(&"main".to_string());
    assert_eq!(st.pending.len(), 1);
    assert!(matches!(
        &st.pending[0],
        Action::ScheduleRender { output } if output == "main"
    ));
}

#[test]
fn overlap_is_strict_on_edges() {
    let a = Rect { loc: Point { x: 0, y: 0 }, size: Size { w: 10, h: 10 } };
    let touching = Rect { loc: Point { x: 10, y: 0 }, size: Size { w: 10, h: 10 } };
    let inside = Rect { loc: Point { x: 9, y: 9 }, size: Size { w: 1, h: 1 } };
    assert!(!a.overlaps(&touching));
    assert!(a.overlaps(&inside));
}
