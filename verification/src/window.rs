//! The window entity: one unit of user-visible content, shared between the
//! grab state machine, the lifecycle bridge and the render pipeline.

use vstd::prelude::*;

use crate::geometry::{Point, Rect, Size};
use crate::resize_grab::{size_limits_ok, ResizeSurfaceState};

verus! {

/// Identity of a window in the registry.
pub type WindowId = u32;

/// Identity of a client surface (the renderable unit beneath a window).
pub type SurfaceId = u32;

/// The protocol a window's underlying surface speaks.
///
/// A foreign-protocol (X11-style) window may not have a native surface yet,
/// and may be override-redirect: self-positioning and exempt from normal
/// window management.
#[derive(Clone, Copy, Debug, PartialEq, Eq, Structural)]
pub enum WindowSurface {
    Wayland { surface: SurfaceId },
    X11 { surface: Option<SurfaceId>, override_redirect: bool, xwm: u32 },
}

/// A popup attached to a window's main surface: rendered at an offset from
/// the parent, with its own geometry origin.
#[derive(Clone, Copy, Debug, PartialEq, Eq, Structural)]
pub struct Popup {
    pub surface: SurfaceId,
    pub offset: Point,
    pub geometry_loc: Point,
}

/// A unit of user-visible content.
///
/// Owned by the compositor's window registry; the Space mapping and the
/// Z-order stack refer to it by [`WindowId`] only.
#[derive(Clone, Debug)]
pub struct Window {
    pub id: WindowId,
    pub surface: WindowSurface,
    /// False once the underlying surface is destroyed.
    pub alive: bool,
    /// Whether the window currently stands in the Space mapping.
    pub mapped: bool,
    /// Floating layout mode; tiled windows refuse interactive resizes and
    /// client-requested configures.
    pub floating: bool,
    pub maximized: bool,
    pub fullscreen: bool,
    /// Visibility groups this window belongs to.
    pub tags: Vec<u32>,
    /// Current committed geometry.
    pub geometry: Rect,
    /// Floating location, independent of any tiling-imposed geometry.
    pub floating_loc: Option<Point>,
    /// Floating size, updated live during an interactive resize.
    pub floating_size: Option<Size>,
    /// Client-advertised minimum size; zero means none.
    pub min_size: Size,
    /// Client-advertised maximum size; zero means none.
    pub max_size: Size,
    /// Per-surface resize-commit state.
    pub resize_state: ResizeSurfaceState,
    /// Popups attached to the main surface.
    pub popups: Vec<Popup>,
}

impl Window {
    /// The native surface beneath this window, if it has one.
    pub open spec fn spec_wl_surface(self) -> Option<SurfaceId> {
        match self.surface {
            WindowSurface::Wayland { surface } => Some(surface),
            WindowSurface::X11 { surface, .. } => surface,
        }
    }

    /// Whether this is a foreign-protocol window.
    pub open spec fn is_x11(self) -> bool {
        self.surface is X11
    }

    /// Whether this is an override-redirect foreign window.
    pub open spec fn spec_is_x11_override_redirect(self) -> bool {
        match self.surface {
            WindowSurface::X11 { override_redirect, .. } => override_redirect,
            _ => false,
        }
    }

    /// Geometry and limits are in range and the commit-state payload too.
    pub open spec fn wf(self) -> bool {
        &&& self.geometry.in_range()
        &&& size_limits_ok(self.min_size, self.max_size)
        &&& self.resize_state.payload_in_range()
        &&& (self.floating_loc matches Some(p) ==> p.in_range())
        &&& forall|i: int|
            0 <= i < self.popups@.len() ==> (#[trigger] self.popups@[i]).offset.in_range()
                && self.popups@[i].geometry_loc.in_range()
    }

    /// The native surface beneath this window, if it has one.
    pub fn wl_surface(&self) -> (r: Option<SurfaceId>)
        ensures
            r == self.spec_wl_surface(),
    {
        match self.surface {
            WindowSurface::Wayland { surface } => Some(surface),
            WindowSurface::X11 { surface, .. } => surface,
        }
    }

    /// Whether this is an override-redirect foreign window.
    pub fn is_x11_override_redirect(&self) -> (r: bool)
        ensures
            r == self.spec_is_x11_override_redirect(),
    {
        match self.surface {
            WindowSurface::X11 { override_redirect, .. } => override_redirect,
            _ => false,
        }
    }

    /// This window with its `mapped` flag replaced.
    pub open spec fn with_mapped(self, v: bool) -> Window {
        Window { mapped: v, ..self }
    }

    /// A fresh window for a surface, not yet mapped, floating until the
    /// layout policy decides otherwise, with no advertised size limits.
    pub fn new(id: WindowId, surface: WindowSurface, geometry: Rect) -> (w: Window)
        requires
            geometry.in_range(),
        ensures
            w.id == id,
            w.surface == surface,
            w.geometry == geometry,
            w.alive,
            !w.mapped,
            w.floating,
            !w.maximized,
            !w.fullscreen,
            w.tags@ == Seq::<u32>::empty(),
            w.floating_loc is None,
            w.floating_size is None,
            w.min_size == (Size { w: 0, h: 0 }),
            w.max_size == (Size { w: 0, h: 0 }),
            w.resize_state == ResizeSurfaceState::Idle,
            w.popups@ == Seq::<Popup>::empty(),
            w.wf(),
    {
        Window {
            id,
            surface,
            alive: true,
            mapped: false,
            floating: true,
            maximized: false,
            fullscreen: false,
            tags: Vec::new(),
            geometry,
            floating_loc: None,
            floating_size: None,
            min_size: Size { w: 0, h: 0 },
            max_size: Size { w: 0, h: 0 },
            resize_state: ResizeSurfaceState::Idle,
            popups: Vec::new(),
        }
    }
}

} // verus!
