//! Interactive resize: the edge being dragged, the per-surface resize-commit
//! state machine, and the candidate-size computation that turns pointer
//! deltas into clamped window sizes.
//!
//! The grab object itself and the handlers that drive it against the shared
//! model live in the second half of this file.

use vstd::prelude::*;

use crate::actions::Action;
use crate::geometry::{coord_in_range, spec_clamp_coord, clamp_coord, Point, Rect, Size, COORD_LIMIT};
use crate::model::Pinnacle;
use crate::state::State;
use crate::window::{SurfaceId, Window, WindowSurface};

verus! {

/// The window edge or corner held during an interactive resize.
#[derive(Clone, Copy, Debug, PartialEq, Eq, Hash, Structural)]
pub enum ResizeEdge {
    NoEdge,
    Top,
    Bottom,
    Left,
    Right,
    TopLeft,
    TopRight,
    BottomLeft,
    BottomRight,
}

/// The edge enum of the foreign (X11-style) protocol, which has no `None`.
#[derive(Clone, Copy, Debug, PartialEq, Eq, Hash, Structural)]
pub enum ForeignResizeEdge {
    Top,
    Bottom,
    Left,
    Right,
    TopLeft,
    TopRight,
    BottomLeft,
    BottomRight,
}

/// The pointer cursor shown while hovering a resize edge.
#[derive(Clone, Copy, Debug, PartialEq, Eq, Hash, Structural)]
pub enum CursorIcon {
    Default,
    NResize,
    SResize,
    WResize,
    EResize,
    NwResize,
    NeResize,
    SwResize,
    SeResize,
}

/// Dragging this edge changes the width by the negative of the pointer delta.
pub open spec fn edge_resizes_left(e: ResizeEdge) -> bool {
    match e {
        ResizeEdge::Left | ResizeEdge::TopLeft | ResizeEdge::BottomLeft => true,
        _ => false,
    }
}

/// Dragging this edge changes the width by the pointer delta.
pub open spec fn edge_resizes_right(e: ResizeEdge) -> bool {
    match e {
        ResizeEdge::Right | ResizeEdge::TopRight | ResizeEdge::BottomRight => true,
        _ => false,
    }
}

/// Dragging this edge changes the height by the negative of the pointer delta.
pub open spec fn edge_resizes_top(e: ResizeEdge) -> bool {
    match e {
        ResizeEdge::Top | ResizeEdge::TopLeft | ResizeEdge::TopRight => true,
        _ => false,
    }
}

/// Dragging this edge changes the height by the pointer delta.
pub open spec fn edge_resizes_bottom(e: ResizeEdge) -> bool {
    match e {
        ResizeEdge::Bottom | ResizeEdge::BottomLeft | ResizeEdge::BottomRight => true,
        _ => false,
    }
}

impl ResizeEdge {
    /// The edge that stands for the given foreign-protocol edge.
    pub open spec fn spec_from_foreign(e: ForeignResizeEdge) -> ResizeEdge {
        match e {
            ForeignResizeEdge::Top => ResizeEdge::Top,
            ForeignResizeEdge::Bottom => ResizeEdge::Bottom,
            ForeignResizeEdge::Left => ResizeEdge::Left,
            ForeignResizeEdge::Right => ResizeEdge::Right,
            ForeignResizeEdge::TopLeft => ResizeEdge::TopLeft,
            ForeignResizeEdge::TopRight => ResizeEdge::TopRight,
            ForeignResizeEdge::BottomLeft => ResizeEdge::BottomLeft,
            ForeignResizeEdge::BottomRight => ResizeEdge::BottomRight,
        }
    }

    /// Converts a foreign-protocol edge into the unified edge.
    pub fn from_foreign(e: ForeignResizeEdge) -> (r: ResizeEdge)
        ensures
            r == Self::spec_from_foreign(e),
    {
        match e {
            ForeignResizeEdge::Top => ResizeEdge::Top,
            ForeignResizeEdge::Bottom => ResizeEdge::Bottom,
            ForeignResizeEdge::Left => ResizeEdge::Left,
            ForeignResizeEdge::Right => ResizeEdge::Right,
            ForeignResizeEdge::TopLeft => ResizeEdge::TopLeft,
            ForeignResizeEdge::TopRight => ResizeEdge::TopRight,
            ForeignResizeEdge::BottomLeft => ResizeEdge::BottomLeft,
            ForeignResizeEdge::BottomRight => ResizeEdge::BottomRight,
        }
    }

    /// The cursor that belongs to this edge.
    pub open spec fn spec_cursor_icon(self) -> CursorIcon {
        match self {
            ResizeEdge::NoEdge => CursorIcon::Default,
            ResizeEdge::Top => CursorIcon::NResize,
            ResizeEdge::Bottom => CursorIcon::SResize,
            ResizeEdge::Left => CursorIcon::WResize,
            ResizeEdge::Right => CursorIcon::EResize,
            ResizeEdge::TopLeft => CursorIcon::NwResize,
            ResizeEdge::TopRight => CursorIcon::NeResize,
            ResizeEdge::BottomLeft => CursorIcon::SwResize,
            ResizeEdge::BottomRight => CursorIcon::SeResize,
        }
    }

    /// Picks the pointer cursor shown while this edge is dragged.
    pub fn cursor_icon(&self) -> (r: CursorIcon)
        ensures
            r == self.spec_cursor_icon(),
    {
        match self {
            ResizeEdge::NoEdge => CursorIcon::Default,
            ResizeEdge::Top => CursorIcon::NResize,
            ResizeEdge::Bottom => CursorIcon::SResize,
            ResizeEdge::Left => CursorIcon::WResize,
            ResizeEdge::Right => CursorIcon::EResize,
            ResizeEdge::TopLeft => CursorIcon::NwResize,
            ResizeEdge::TopRight => CursorIcon::NeResize,
            ResizeEdge::BottomLeft => CursorIcon::SwResize,
            ResizeEdge::BottomRight => CursorIcon::SeResize,
        }
    }
}

/// Per-surface resize-commit state.
///
/// `Idle`: no resize pending. `Resizing`: a grab is in flight; the held edges
/// and the pre-resize geometry are recorded. `WaitingForLastCommit`: the grab
/// ended locally but the client has not yet acknowledged the final size with
/// a buffer commit. The recorded location and size are always the *original*
/// pre-resize ones, because the final position must be computed against that
/// anchor once the committed size is known.
#[derive(Clone, Copy, Debug, PartialEq, Eq, Structural)]
pub enum ResizeSurfaceState {
    Idle,
    Resizing {
        edges: ResizeEdge,
        initial_window_loc: Point,
        initial_window_size: Size,
    },
    WaitingForLastCommit {
        edges: ResizeEdge,
        initial_window_loc: Point,
        initial_window_size: Size,
    },
}

impl ResizeSurfaceState {
    /// The recorded geometry is inside the stored coordinate range.
    pub open spec fn payload_in_range(self) -> bool {
        match self {
            ResizeSurfaceState::Idle => true,
            ResizeSurfaceState::Resizing { initial_window_loc, initial_window_size, .. } =>
                initial_window_loc.in_range() && initial_window_size.in_range(),
            ResizeSurfaceState::WaitingForLastCommit {
                initial_window_loc,
                initial_window_size,
                ..
            } => initial_window_loc.in_range() && initial_window_size.in_range(),
        }
    }

    /// Steps the state machine on a buffer commit from the surface.
    ///
    /// `Idle` stays `Idle` and reports nothing. `Resizing` reports its payload
    /// and stays `Resizing` (the commit arrived while the grab is still
    /// live). `WaitingForLastCommit` reports its payload and resets to
    /// `Idle`: the commit is the client's acknowledgment of the final size.
    pub fn on_commit(&mut self) -> (r: Option<(ResizeEdge, Point, Size)>)
        ensures
            match *old(self) {
                ResizeSurfaceState::Idle => r is None && *final(self) == *old(self),
                ResizeSurfaceState::Resizing { edges, initial_window_loc, initial_window_size } => {
                    &&& r == Some((edges, initial_window_loc, initial_window_size))
                    &&& *final(self) == *old(self)
                },
                ResizeSurfaceState::WaitingForLastCommit {
                    edges,
                    initial_window_loc,
                    initial_window_size,
                } => {
                    &&& r == Some((edges, initial_window_loc, initial_window_size))
                    &&& *final(self) == ResizeSurfaceState::Idle
                },
            },
    {
        match *self {
            ResizeSurfaceState::Idle => None,
            ResizeSurfaceState::Resizing { edges, initial_window_loc, initial_window_size } => {
                Some((edges, initial_window_loc, initial_window_size))
            },
            ResizeSurfaceState::WaitingForLastCommit {
                edges,
                initial_window_loc,
                initial_window_size,
            } => {
                *self = ResizeSurfaceState::Idle;
                Some((edges, initial_window_loc, initial_window_size))
            },
        }
    }
}

/// Width candidate before clamping: the held edge decides whether the
/// horizontal pointer delta grows, shrinks or leaves the width.
pub open spec fn spec_new_width(e: ResizeEdge, initial_w: int, dx: int) -> int {
    if edge_resizes_left(e) {
        initial_w - dx
    } else if edge_resizes_right(e) {
        initial_w + dx
    } else {
        initial_w
    }
}

/// Height candidate before clamping, from the vertical pointer delta.
pub open spec fn spec_new_height(e: ResizeEdge, initial_h: int, dy: int) -> int {
    if edge_resizes_top(e) {
        initial_h - dy
    } else if edge_resizes_bottom(e) {
        initial_h + dy
    } else {
        initial_h
    }
}

/// Clamps one axis of a candidate size: the lower bound is the advertised
/// minimum with a floor of one pixel; the upper bound is the advertised
/// maximum, or `i32::MAX` (no upper clamp) when the maximum is zero.
pub open spec fn spec_clamp_dim(v: int, min: int, max: int) -> int {
    let lo: int = if min < 1 {
        1
    } else {
        min
    };
    let hi: int = if max != 0 {
        max
    } else {
        i32::MAX as int
    };
    if v < lo {
        lo
    } else if v > hi {
        hi
    } else {
        v
    }
}

/// The advertised size limits are usable: non-negative, and each axis'
/// maximum (where one is given) admits at least the effective minimum.
/// The clamp is only defined on limits that satisfy this.
pub open spec fn size_limits_ok(min_size: Size, max_size: Size) -> bool {
    &&& min_size.in_range()
    &&& max_size.in_range()
    &&& (max_size.w == 0 || (max_size.w >= 1 && max_size.w >= min_size.w))
    &&& (max_size.h == 0 || (max_size.h >= 1 && max_size.h >= min_size.h))
}

/// The clamped width a resize from `e` by horizontal delta `dx` produces.
pub open spec fn spec_candidate_w(
    e: ResizeEdge,
    initial: Size,
    dx: int,
    min_size: Size,
    max_size: Size,
) -> int {
    spec_clamp_dim(spec_new_width(e, initial.w as int, dx), min_size.w as int, max_size.w as int)
}

/// The clamped height a resize from `e` by vertical delta `dy` produces.
pub open spec fn spec_candidate_h(
    e: ResizeEdge,
    initial: Size,
    dy: int,
    min_size: Size,
    max_size: Size,
) -> int {
    spec_clamp_dim(spec_new_height(e, initial.h as int, dy), min_size.h as int, max_size.h as int)
}

/// Computes the candidate size for a resize from `edges` by pointer delta
/// `delta`, clamped per axis into the advertised limits.
pub fn resize_candidate_size(
    edges: ResizeEdge,
    initial: Size,
    delta: Point,
    min_size: Size,
    max_size: Size,
) -> (r: Size)
    requires
        initial.in_range(),
        size_limits_ok(min_size, max_size),
    ensures
        r.w as int == spec_candidate_w(edges, initial, delta.x as int, min_size, max_size),
        r.h as int == spec_candidate_h(edges, initial, delta.y as int, min_size, max_size),
        1 <= r.w,
        1 <= r.h,
        min_size.w <= r.w || r.w == 1,
        min_size.h <= r.h || r.h == 1,
        max_size.w != 0 ==> r.w <= max_size.w,
        max_size.h != 0 ==> r.h <= max_size.h,
{
    let w = clamp_dim(
        axis_candidate(
            edge_is_left(edges),
            edge_is_right(edges),
            initial.w,
            delta.x,
        ),
        min_size.w,
        max_size.w,
    );
    let h = clamp_dim(
        axis_candidate(
            edge_is_top(edges),
            edge_is_bottom(edges),
            initial.h,
            delta.y,
        ),
        min_size.h,
        max_size.h,
    );
    Size { w, h }
}

/// Exec test for [`edge_resizes_left`].
pub fn edge_is_left(e: ResizeEdge) -> (r: bool)
    ensures
        r == edge_resizes_left(e),
{
    match e {
        ResizeEdge::Left | ResizeEdge::TopLeft | ResizeEdge::BottomLeft => true,
        _ => false,
    }
}

/// Exec test for [`edge_resizes_right`].
pub fn edge_is_right(e: ResizeEdge) -> (r: bool)
    ensures
        r == edge_resizes_right(e),
{
    match e {
        ResizeEdge::Right | ResizeEdge::TopRight | ResizeEdge::BottomRight => true,
        _ => false,
    }
}

/// Exec test for [`edge_resizes_top`].
pub fn edge_is_top(e: ResizeEdge) -> (r: bool)
    ensures
        r == edge_resizes_top(e),
{
    match e {
        ResizeEdge::Top | ResizeEdge::TopLeft | ResizeEdge::TopRight => true,
        _ => false,
    }
}

/// Exec test for [`edge_resizes_bottom`].
pub fn edge_is_bottom(e: ResizeEdge) -> (r: bool)
    ensures
        r == edge_resizes_bottom(e),
{
    match e {
        ResizeEdge::Bottom | ResizeEdge::BottomLeft | ResizeEdge::BottomRight => true,
        _ => false,
    }
}

/// One axis of the unclamped candidate, widened so it cannot overflow.
fn axis_candidate(shrinks: bool, grows: bool, initial: i32, d: i32) -> (r: i64)
    requires
        coord_in_range(initial as int),
        !(shrinks && grows),
    ensures
        r as int == if shrinks {
            initial - d
        } else if grows {
            initial + d
        } else {
            initial as int
        },
{
    if shrinks {
        initial as i64 - d as i64
    } else if grows {
        initial as i64 + d as i64
    } else {
        initial as i64
    }
}

/// Clamps one axis into the advertised limits; see [`spec_clamp_dim`].
fn clamp_dim(v: i64, min: i32, max: i32) -> (r: i32)
    requires
        0 <= min <= COORD_LIMIT,
        max == 0 || (1 <= max && min <= max),
        max <= COORD_LIMIT,
    ensures
        r as int == spec_clamp_dim(v as int, min as int, max as int),
{
    let lo: i32 = if min < 1 {
        1
    } else {
        min
    };
    let hi: i32 = if max != 0 {
        max
    } else {
        i32::MAX
    };
    if v < lo as i64 {
        lo
    } else if v > hi as i64 {
        hi
    } else {
        v as i32
    }
}

/// The candidate size of a resize from `e` by the full pointer delta, as a
/// pair of width and height.
pub open spec fn spec_candidate_size(
    e: ResizeEdge,
    initial: Size,
    delta: Point,
    min_size: Size,
    max_size: Size,
) -> (int, int) {
    (
        spec_candidate_w(e, initial, delta.x as int, min_size, max_size),
        spec_candidate_h(e, initial, delta.y as int, min_size, max_size),
    )
}

/// Axis independence of resizing: for every edge set and pointer delta, the
/// final size a resize produces equals the size produced by the delta
/// decomposed into its horizontal and vertical components and applied
/// independently — the width of the horizontal-only resize paired with the
/// height of the vertical-only one.
pub proof fn lemma_resize_axis_independence(
    e: ResizeEdge,
    initial: Size,
    delta: Point,
    min_size: Size,
    max_size: Size,
)
    ensures
        ({
            let full = spec_candidate_size(e, initial, delta, min_size, max_size);
            let horizontal = spec_candidate_size(
                e,
                initial,
                Point { x: delta.x, y: 0 },
                min_size,
                max_size,
            );
            let vertical = spec_candidate_size(
                e,
                initial,
                Point { x: 0, y: delta.y },
                min_size,
                max_size,
            );
            full == (horizontal.0, vertical.1)
        }),
{
}

impl ResizeSurfaceState {
    /// The held edges recorded in an in-flight state.
    pub open spec fn spec_edges(self) -> ResizeEdge
        recommends
            !(self is Idle),
    {
        match self {
            ResizeSurfaceState::Idle => ResizeEdge::NoEdge,
            ResizeSurfaceState::Resizing { edges, .. } => edges,
            ResizeSurfaceState::WaitingForLastCommit { edges, .. } => edges,
        }
    }

    /// The pre-resize location recorded in an in-flight state.
    pub open spec fn spec_initial_loc(self) -> Point
        recommends
            !(self is Idle),
    {
        match self {
            ResizeSurfaceState::Idle => Point { x: 0, y: 0 },
            ResizeSurfaceState::Resizing { initial_window_loc, .. } => initial_window_loc,
            ResizeSurfaceState::WaitingForLastCommit { initial_window_loc, .. } =>
                initial_window_loc,
        }
    }

    /// The pre-resize size recorded in an in-flight state.
    pub open spec fn spec_initial_size(self) -> Size
        recommends
            !(self is Idle),
    {
        match self {
            ResizeSurfaceState::Idle => Size { w: 0, h: 0 },
            ResizeSurfaceState::Resizing { initial_window_size, .. } => initial_window_size,
            ResizeSurfaceState::WaitingForLastCommit { initial_window_size, .. } =>
                initial_window_size,
        }
    }

    /// The state after a buffer commit: `WaitingForLastCommit` resets to
    /// `Idle`; the others stay as they are.
    pub open spec fn spec_after_commit(self) -> ResizeSurfaceState {
        match self {
            ResizeSurfaceState::WaitingForLastCommit { .. } => ResizeSurfaceState::Idle,
            _ => self,
        }
    }
}

/// The pointer-grab claim recorded when a resize begins: what the pointer
/// was doing, which window is manipulated, and the geometry at grab start.
#[derive(Clone, Copy, Debug, PartialEq, Eq, Structural)]
pub struct GrabStartData {
    /// Where the pointer was when the grab was claimed.
    pub location: Point,
    /// The button that claimed it.
    pub button: u32,
}

/// One in-progress interactive resize. Lives in the pointer device's
/// active-grab slot while the triggering button stays pressed.
#[derive(Clone, Copy, Debug, PartialEq, Eq, Structural)]
pub struct ResizeSurfaceGrab {
    /// Pointer location at grab start.
    pub start_location: Point,
    /// The window being resized.
    pub window: crate::window::WindowId,
    /// The edge or corner being dragged.
    pub edges: ResizeEdge,
    /// The window's location when the grab began.
    pub initial_window_loc: Point,
    /// The window's size when the grab began.
    pub initial_window_size: Size,
    /// The most recently negotiated size.
    pub last_window_size: Size,
    /// The pointer button that initiated the grab.
    pub button_used: u32,
}

impl ResizeSurfaceGrab {
    /// The recorded geometry is inside the stored coordinate range.
    pub open spec fn wf(self) -> bool {
        &&& self.start_location.in_range()
        &&& self.initial_window_loc.in_range()
        &&& self.initial_window_size.in_range()
    }

    /// Starts an interactive resize of `window`.
    ///
    /// Fails (returns no grab) if the window is not registered or has no
    /// native surface to negotiate with. On success the surface's
    /// resize-commit state becomes `Resizing`, carrying the held edges and
    /// the pre-resize geometry.
    pub fn start(
        pinnacle: &mut Pinnacle,
        start_data: GrabStartData,
        window: crate::window::WindowId,
        edges: ResizeEdge,
        initial_window_loc: Point,
        initial_window_size: Size,
        button_used: u32,
    ) -> (r: Option<ResizeSurfaceGrab>)
        requires
            old(pinnacle).wf(),
            start_data.location.in_range(),
            initial_window_loc.in_range(),
            initial_window_size.in_range(),
        ensures
            final(pinnacle).wf(),
            r is Some <==> (old(pinnacle).has_window(window) && old(pinnacle).window_of(
                window,
            ).spec_wl_surface() is Some),
            r matches Some(g) ==> {
                &&& g == (ResizeSurfaceGrab {
                    start_location: start_data.location,
                    window,
                    edges,
                    initial_window_loc,
                    initial_window_size,
                    last_window_size: initial_window_size,
                    button_used,
                })
                &&& g.wf()
                &&& final(pinnacle).windows@ == old(pinnacle).windows@.update(
                    old(pinnacle).window_idx(window),
                    Window {
                        resize_state: ResizeSurfaceState::Resizing {
                            edges,
                            initial_window_loc,
                            initial_window_size,
                        },
                        ..old(pinnacle).window_of(window)
                    },
                )
            },
            r is None ==> *final(pinnacle) == *old(pinnacle),
            final(pinnacle).space == old(pinnacle).space,
            final(pinnacle).z_index_stack == old(pinnacle).z_index_stack,
            old(pinnacle).same_aux(*final(pinnacle)),
            forall|x: crate::window::WindowId|
                final(pinnacle).has_window(x) <==> old(pinnacle).has_window(x),
            forall|x: crate::window::WindowId|
                final(pinnacle).in_space(x) <==> old(pinnacle).in_space(x),
            forall|x: crate::window::WindowId|
                old(pinnacle).in_space(x) ==> final(pinnacle).spec_space_loc(x) == old(
                    pinnacle,
                ).spec_space_loc(x),
    {
        let wi = match pinnacle.find_window(window) {
            Some(i) => i,
            None => {
                return None;
            },
        };
        proof {
            old(pinnacle).lemma_window_idx(wi as int);
        }
        match pinnacle.windows[wi].wl_surface() {
            Some(_) => {},
            None => {
                return None;
            },
        }
        pinnacle.set_resize_state(
            wi,
            ResizeSurfaceState::Resizing { edges, initial_window_loc, initial_window_size },
        );
        Some(
            ResizeSurfaceGrab {
                start_location: start_data.location,
                window,
                edges,
                initial_window_loc,
                initial_window_size,
                last_window_size: initial_window_size,
                button_used,
            },
        )
    }

    /// What one pointer-motion event does while the grab is live.
    ///
    /// If the window has died, the grab reports that it must unset itself
    /// and touches nothing. Otherwise the candidate size computed from the
    /// pointer delta (clamped into the advertised limits) becomes the last
    /// known size, is written into the window's floating geometry, and is
    /// sent to the client as a pending-resize configure; a managed foreign
    /// window gets an explicit configure at its current location instead.
    pub open spec fn spec_motion(
        g: ResizeSurfaceGrab,
        g2: ResizeSurfaceGrab,
        p: Pinnacle,
        p2: Pinnacle,
        pend: Seq<Action>,
        pend2: Seq<Action>,
        event_location: Point,
        unset: bool,
    ) -> bool {
        let dead = !p.has_window(g.window) || !p.window_of(g.window).alive;
        if dead {
            &&& unset
            &&& p2 == p
            &&& g2 == g
            &&& pend2 == pend
        } else {
            let wi = p.window_idx(g.window);
            let w = p.windows@[wi];
            let dx = event_location.x - g.start_location.x;
            let dy = event_location.y - g.start_location.y;
            let nw = spec_candidate_w(g.edges, g.initial_window_size, dx, w.min_size, w.max_size);
            let nh = spec_candidate_h(g.edges, g.initial_window_size, dy, w.min_size, w.max_size);
            let nsz = Size { w: nw as i32, h: nh as i32 };
            &&& !unset
            &&& g2 == (ResizeSurfaceGrab { last_window_size: nsz, ..g })
            &&& p2.windows@ == p.windows@.update(wi, Window { floating_size: Some(nsz), ..w })
            &&& p2.space == p.space
            &&& p2.z_index_stack == p.z_index_stack
            &&& (w.surface is Wayland ==> pend2 == pend.push(
                Action::SendPendingConfigure { window: g.window, resizing: true, size: Some(nsz) },
            ))
            &&& (w.spec_is_x11_override_redirect() ==> pend2 == pend)
            &&& ((w.surface matches WindowSurface::X11 { override_redirect: false, .. })
                ==> if p.in_space(g.window) {
                pend2 == pend.push(
                    Action::ConfigureForeign {
                        window: g.window,
                        geometry: Rect { loc: p.spec_space_loc(g.window), size: nsz },
                    },
                )
            } else {
                pend2 == pend
            })
        }
    }

    /// Handles a pointer-motion event; returns whether the grab unset
    /// itself because its window died.
    pub fn motion(
        &mut self,
        pinnacle: &mut Pinnacle,
        pending: &mut Vec<Action>,
        event_location: Point,
    ) -> (unset: bool)
        requires
            old(pinnacle).wf(),
            old(self).wf(),
            event_location.in_range(),
        ensures
            final(pinnacle).wf(),
            final(self).wf(),
            Self::spec_motion(
                *old(self),
                *final(self),
                *old(pinnacle),
                *final(pinnacle),
                old(pending)@,
                final(pending)@,
                event_location,
                unset,
            ),
    {
        let wi = match pinnacle.find_window(self.window) {
            Some(i) => i,
            None => {
                return true;
            },
        };
        proof {
            old(pinnacle).lemma_window_idx(wi as int);
        }
        if !pinnacle.windows[wi].alive {
            return true;
        }
        let dx64 = event_location.x as i64 - self.start_location.x as i64;
        let dy64 = event_location.y as i64 - self.start_location.y as i64;
        let delta = Point { x: dx64 as i32, y: dy64 as i32 };
        let min_size = pinnacle.windows[wi].min_size;
        let max_size = pinnacle.windows[wi].max_size;
        let sz = resize_candidate_size(
            self.edges,
            self.initial_window_size,
            delta,
            min_size,
            max_size,
        );
        self.last_window_size = sz;
        let surf = pinnacle.windows[wi].surface;
        pinnacle.set_floating_size(wi, Some(sz));
        match surf {
            WindowSurface::Wayland { .. } => {
                pending.push(
                    Action::SendPendingConfigure {
                        window: self.window,
                        resizing: true,
                        size: Some(sz),
                    },
                );
            },
            WindowSurface::X11 { override_redirect, .. } => {
                if !override_redirect {
                    match pinnacle.element_location(self.window) {
                        Some(loc) => {
                            pending.push(
                                Action::ConfigureForeign {
                                    window: self.window,
                                    geometry: Rect { loc, size: sz },
                                },
                            );
                        },
                        None => {},
                    }
                }
            },
        }
        false
    }

    /// What releasing the grab does: the surface's resize-commit state
    /// always transitions to `WaitingForLastCommit` — never directly to
    /// `Idle` — carrying the held edges and the *original* pre-resize
    /// geometry, so that the position correction can run once the client
    /// commits its final buffer. A native toplevel is additionally sent a
    /// configure that clears the client-visible resizing flag and names the
    /// last negotiated size. A dead window, an override-redirect foreign
    /// window or one without a native surface is left untouched.
    pub open spec fn spec_ungrab(
        g: ResizeSurfaceGrab,
        p: Pinnacle,
        p2: Pinnacle,
        pend: Seq<Action>,
        pend2: Seq<Action>,
    ) -> bool {
        let gone = !p.has_window(g.window) || !p.window_of(g.window).alive;
        let wi = p.window_idx(g.window);
        let w = p.windows@[wi];
        let waiting = ResizeSurfaceState::WaitingForLastCommit {
            edges: g.edges,
            initial_window_loc: g.initial_window_loc,
            initial_window_size: g.initial_window_size,
        };
        if gone {
            &&& p2 == p
            &&& pend2 == pend
        } else if w.surface is Wayland {
            &&& p2.windows@ == p.windows@.update(wi, Window { resize_state: waiting, ..w })
            &&& p2.space == p.space
            &&& p2.z_index_stack == p.z_index_stack
            &&& pend2 == pend.push(
                Action::SendPendingConfigure {
                    window: g.window,
                    resizing: false,
                    size: Some(g.last_window_size),
                },
            )
        } else if !w.spec_is_x11_override_redirect() && w.spec_wl_surface() is Some {
            &&& p2.windows@ == p.windows@.update(wi, Window { resize_state: waiting, ..w })
            &&& p2.space == p.space
            &&& p2.z_index_stack == p.z_index_stack
            &&& pend2 == pend
        } else {
            &&& p2 == p
            &&& pend2 == pend
        }
    }

    /// Ends the grab; see [`Self::spec_ungrab`].
    pub fn ungrab(&mut self, pinnacle: &mut Pinnacle, pending: &mut Vec<Action>)
        requires
            old(pinnacle).wf(),
            old(self).wf(),
        ensures
            final(pinnacle).wf(),
            *final(self) == *old(self),
            Self::spec_ungrab(
                *old(self),
                *old(pinnacle),
                *final(pinnacle),
                old(pending)@,
                final(pending)@,
            ),
    {
        let wi = match pinnacle.find_window(self.window) {
            Some(i) => i,
            None => {
                return;
            },
        };
        proof {
            old(pinnacle).lemma_window_idx(wi as int);
        }
        if !pinnacle.windows[wi].alive {
            return;
        }
        let waiting = ResizeSurfaceState::WaitingForLastCommit {
            edges: self.edges,
            initial_window_loc: self.initial_window_loc,
            initial_window_size: self.initial_window_size,
        };
        match pinnacle.windows[wi].surface {
            WindowSurface::Wayland { .. } => {
                pending.push(
                    Action::SendPendingConfigure {
                        window: self.window,
                        resizing: false,
                        size: Some(self.last_window_size),
                    },
                );
                pinnacle.set_resize_state(wi, waiting);
            },
            WindowSurface::X11 { surface, override_redirect, .. } => {
                if override_redirect {
                    return;
                }
                match surface {
                    Some(_) => {
                        pinnacle.set_resize_state(wi, waiting);
                    },
                    None => {},
                }
            },
        }
    }

    /// Handles a pointer-button event. The caller reports whether the
    /// triggering button is still held; once it is released the grab ends
    /// (see [`Self::spec_ungrab`]) and asks to be unset. Other button
    /// events pass through untouched.
    pub fn button(
        &mut self,
        pinnacle: &mut Pinnacle,
        pending: &mut Vec<Action>,
        triggering_button_still_pressed: bool,
    ) -> (unset: bool)
        requires
            old(pinnacle).wf(),
            old(self).wf(),
        ensures
            final(pinnacle).wf(),
            *final(self) == *old(self),
            unset == !triggering_button_still_pressed,
            triggering_button_still_pressed ==> *final(pinnacle) == *old(pinnacle)
                && final(pending)@ == old(pending)@,
            !triggering_button_still_pressed ==> Self::spec_ungrab(
                *old(self),
                *old(pinnacle),
                *final(pinnacle),
                old(pending)@,
                final(pending)@,
            ),
    {
        if triggering_button_still_pressed {
            false
        } else {
            self.ungrab(pinnacle, pending);
            true
        }
    }
}

/// The corrected x coordinate after a commit: holding a left edge pins the
/// window's right edge by shifting x by the difference between the original
/// and the committed width; otherwise the current location stands.
pub open spec fn spec_corrected_x(
    e: ResizeEdge,
    loc0: Point,
    size0: Size,
    committed: Size,
    cur: Point,
) -> int {
    if edge_resizes_left(e) {
        spec_clamp_coord(loc0.x + size0.w - committed.w)
    } else {
        cur.x as int
    }
}

/// The corrected y coordinate after a commit, for a held top edge.
pub open spec fn spec_corrected_y(
    e: ResizeEdge,
    loc0: Point,
    size0: Size,
    committed: Size,
    cur: Point,
) -> int {
    if edge_resizes_top(e) {
        spec_clamp_coord(loc0.y + size0.h - committed.h)
    } else {
        cur.y as int
    }
}

impl Pinnacle {
    /// Applies the resize position correction on a buffer commit from
    /// `surface`.
    ///
    /// If the surface's resize-commit state is `Idle`, or its window is not
    /// floating or not mapped, nothing happens. Otherwise the state steps
    /// (`WaitingForLastCommit` resets to `Idle`; `Resizing` stays), and for
    /// each held top/left edge the corresponding coordinate is corrected to
    /// `original location + (original size − committed size)`, keeping the
    /// opposite edge pinned. The corrected location lands in the window's
    /// floating geometry and in the Space mapping, and a managed foreign
    /// window is additionally sent an explicit configure.
    #[verifier::rlimit(40)]
    pub fn move_surface_if_resized(&mut self, surface: SurfaceId, pending: &mut Vec<Action>)
        requires
            old(self).wf(),
        ensures
            final(self).wf(),
            ({
                let p = *old(self);
                if !p.has_surface_window(surface) {
                    *final(self) == p && final(pending)@ == old(pending)@
                } else {
                    let wi = p.surface_window_idx(surface);
                    let w = p.windows@[wi];
                    let id = w.id;
                    if !w.floating || !p.in_space(id) || w.resize_state is Idle {
                        *final(self) == p && final(pending)@ == old(pending)@
                    } else {
                        let e = w.resize_state.spec_edges();
                        let loc0 = w.resize_state.spec_initial_loc();
                        let size0 = w.resize_state.spec_initial_size();
                        let cur = p.spec_space_loc(id);
                        let nx = spec_corrected_x(e, loc0, size0, w.geometry.size, cur);
                        let ny = spec_corrected_y(e, loc0, size0, w.geometry.size, cur);
                        let nl = Point { x: nx as i32, y: ny as i32 };
                        let moved = edge_resizes_left(e) || edge_resizes_top(e);
                        &&& final(self).window_of(id).resize_state
                            == w.resize_state.spec_after_commit()
                        &&& final(self).window_of(id).floating_loc == Some(nl)
                        &&& final(self).window_of(id).mapped
                        &&& (moved ==> final(self).spec_space_loc(id) == nl)
                        &&& (!moved ==> final(self).space == p.space)
                        &&& ((moved && w.is_x11() && !w.spec_is_x11_override_redirect())
                            ==> final(pending)@ == old(pending)@.push(
                            Action::ConfigureForeign {
                                window: id,
                                geometry: Rect { loc: nl, size: w.geometry.size },
                            },
                        ))
                        &&& (!(moved && w.is_x11() && !w.spec_is_x11_override_redirect())
                            ==> final(pending)@ == old(pending)@)
                        &&& (forall|x: crate::window::WindowId|
                            final(self).has_window(x) <==> p.has_window(x))
                        &&& (forall|x: crate::window::WindowId|
                            x != id ==> (final(self).in_space(x) <==> p.in_space(x)))
                        &&& (forall|x: crate::window::WindowId|
                            x != id && p.in_space(x) ==> final(self).spec_space_loc(x)
                                == p.spec_space_loc(x))
                        &&& (forall|x: crate::window::WindowId|
                            x != id && p.has_window(x) ==> final(self).window_of(x)
                                == p.window_of(x))
                    }
                }
            }),
    {
        let ghost p = *old(self);
        let wi = match self.window_for_surface(surface) {
            Some(i) => i,
            None => {
                return;
            },
        };
        proof {
            p.lemma_surface_window_idx(wi as int);
            p.lemma_window_idx(wi as int);
        }
        if !self.windows[wi].floating {
            return;
        }
        let id = self.windows[wi].id;
        let cur = match self.element_location(id) {
            Some(l) => l,
            None => {
                return;
            },
        };
        let geom_size = self.windows[wi].geometry.size;
        let surf = self.windows[wi].surface;
        let rs = self.windows[wi].resize_state;
        let mut rs2 = rs;
        let payload = rs2.on_commit();
        let (e, loc0, size0) = match payload {
            Some(t) => t,
            None => {
                return;
            },
        };
        self.set_resize_state(wi, rs2);
        let moved_x = edge_is_left(e);
        let moved_y = edge_is_top(e);
        let nx = if moved_x {
            clamp_coord(loc0.x as i64 + size0.w as i64 - geom_size.w as i64)
        } else {
            cur.x
        };
        let ny = if moved_y {
            clamp_coord(loc0.y as i64 + size0.h as i64 - geom_size.h as i64)
        } else {
            cur.y
        };
        let nl = Point { x: nx, y: ny };
        self.set_floating_loc(wi, Some(nl));
        proof {
            assert(self.windows@[wi as int].id == id);
            self.lemma_window_idx(wi as int);
        }
        if moved_x || moved_y {
            self.map_element(id, nl, false);
            match surf {
                WindowSurface::X11 { override_redirect, .. } => {
                    if !override_redirect {
                        pending.push(
                            Action::ConfigureForeign {
                                window: id,
                                geometry: Rect { loc: nl, size: geom_size },
                            },
                        );
                    }
                },
                _ => {},
            }
        }
        proof {
            assert(self.windows@[p.window_idx(id) as int].id == id);
            self.lemma_window_idx(p.window_idx(id));
        }
    }
}

impl State {
    /// Whether a resize request for `surface` will be honoured: the surface
    /// has a window, the window is alive and floating (a tiled window
    /// cannot be interactively resized) and currently mapped.
    pub open spec fn spec_resize_request_ok(p: Pinnacle, surface: SurfaceId) -> bool {
        &&& p.has_surface_window(surface)
        &&& p.windows@[p.surface_window_idx(surface)].alive
        &&& p.windows@[p.surface_window_idx(surface)].floating
        &&& p.in_space(p.windows@[p.surface_window_idx(surface)].id)
    }

    /// The grab a resize request installs, and the model after it: the
    /// surface's commit state becomes `Resizing` with the pre-resize
    /// geometry, and the grab records the same anchor.
    pub open spec fn spec_resize_request(
        s: State,
        s2: State,
        surface: SurfaceId,
        start_location: Point,
        edges: ResizeEdge,
        button_used: u32,
    ) -> bool {
        let p = s.pinnacle;
        let wi = p.surface_window_idx(surface);
        let w = p.windows@[wi];
        let id = w.id;
        let loc0 = p.spec_space_loc(id);
        let size0 = w.geometry.size;
        &&& s2.pinnacle.windows@ == p.windows@.update(
            wi,
            Window {
                resize_state: ResizeSurfaceState::Resizing {
                    edges,
                    initial_window_loc: loc0,
                    initial_window_size: size0,
                },
                ..w
            },
        )
        &&& s2.pinnacle.space == p.space
        &&& s2.pinnacle.z_index_stack == p.z_index_stack
        &&& p.same_aux(s2.pinnacle)
        &&& s2.active_grab == Some(
            ResizeSurfaceGrab {
                start_location,
                window: id,
                edges,
                initial_window_loc: loc0,
                initial_window_size: size0,
                last_window_size: size0,
                button_used,
            },
        )
        &&& (w.surface is Wayland ==> s2.pending@ == s.pending@.push(
            Action::SendPendingConfigure { window: id, resizing: true, size: None },
        ))
        &&& (!(w.surface is Wayland) ==> s2.pending@ == s.pending@)
        &&& s2.keyboard_focus == s.keyboard_focus
        &&& s2.clipboard_selection_set == s.clipboard_selection_set
        &&& s2.primary_selection_set == s.primary_selection_set
    }

    /// The client asked for an interactive resize, e.g. by a drag on its own
    /// edge. Honoured only with valid grab-start data and on a floating,
    /// mapped window; otherwise nothing happens.
    pub fn resize_request_client(
        &mut self,
        surface: SurfaceId,
        start_data: Option<GrabStartData>,
        edges: ResizeEdge,
        button_used: u32,
    )
        requires
            old(self).wf(),
            start_data matches Some(sd) ==> sd.location.in_range(),
        ensures
            final(self).wf(),
            (start_data is Some && Self::spec_resize_request_ok(old(self).pinnacle, surface))
                ==> Self::spec_resize_request(
                *old(self),
                *final(self),
                surface,
                start_data->0.location,
                edges,
                button_used,
            ) && final(self).cursor_icon == old(self).cursor_icon,
            !(start_data is Some && Self::spec_resize_request_ok(old(self).pinnacle, surface))
                ==> *final(self) == *old(self),
    {
        let sd = match start_data {
            Some(sd) => sd,
            None => {
                return;
            },
        };
        let wi = match self.pinnacle.window_for_surface(surface) {
            Some(i) => i,
            None => {
                return;
            },
        };
        proof {
            old(self).pinnacle.lemma_surface_window_idx(wi as int);
            old(self).pinnacle.lemma_window_idx(wi as int);
        }
        if !self.pinnacle.windows[wi].alive {
            return;
        }
        if !self.pinnacle.windows[wi].floating {
            return;
        }
        let id = self.pinnacle.windows[wi].id;
        let loc = match self.pinnacle.element_location(id) {
            Some(l) => l,
            None => {
                return;
            },
        };
        let size = self.pinnacle.windows[wi].geometry.size;
        match self.pinnacle.windows[wi].surface {
            WindowSurface::Wayland { .. } => {
                self.pending.push(
                    Action::SendPendingConfigure { window: id, resizing: true, size: None },
                );
            },
            _ => {},
        }
        let grab = ResizeSurfaceGrab::start(
            &mut self.pinnacle,
            sd,
            id,
            edges,
            loc,
            size,
            button_used,
        );
        match grab {
            Some(g) => {
                self.active_grab = Some(g);
            },
            None => {
                proof {
                    assert(false);
                }
            },
        }
    }

    /// The compositor itself starts an interactive resize, e.g. a modified
    /// drag; grab-start data is synthesised from the pointer's current
    /// location, and the cursor takes the edge's resize shape.
    pub fn resize_request_server(
        &mut self,
        surface: SurfaceId,
        pointer_location: Point,
        edges: ResizeEdge,
        button_used: u32,
    )
        requires
            old(self).wf(),
            pointer_location.in_range(),
        ensures
            final(self).wf(),
            Self::spec_resize_request_ok(old(self).pinnacle, surface) ==> Self::spec_resize_request(
                *old(self),
                *final(self),
                surface,
                pointer_location,
                edges,
                button_used,
            ) && final(self).cursor_icon == edges.spec_cursor_icon(),
            !Self::spec_resize_request_ok(old(self).pinnacle, surface) ==> *final(self) == *old(
                self,
            ),
    {
        let wi = match self.pinnacle.window_for_surface(surface) {
            Some(i) => i,
            None => {
                return;
            },
        };
        proof {
            old(self).pinnacle.lemma_surface_window_idx(wi as int);
            old(self).pinnacle.lemma_window_idx(wi as int);
        }
        if !self.pinnacle.windows[wi].alive {
            return;
        }
        if !self.pinnacle.windows[wi].floating {
            return;
        }
        let id = self.pinnacle.windows[wi].id;
        let loc = match self.pinnacle.element_location(id) {
            Some(l) => l,
            None => {
                return;
            },
        };
        let size = self.pinnacle.windows[wi].geometry.size;
        match self.pinnacle.windows[wi].surface {
            WindowSurface::Wayland { .. } => {
                self.pending.push(
                    Action::SendPendingConfigure { window: id, resizing: true, size: None },
                );
            },
            _ => {},
        }
        let start_data = GrabStartData { location: pointer_location, button: button_used };
        let grab = ResizeSurfaceGrab::start(
            &mut self.pinnacle,
            start_data,
            id,
            edges,
            loc,
            size,
            button_used,
        );
        match grab {
            Some(g) => {
                self.active_grab = Some(g);
                self.cursor_icon = edges.cursor_icon();
            },
            None => {
                proof {
                    assert(false);
                }
            },
        }
    }
}

} // verus!
