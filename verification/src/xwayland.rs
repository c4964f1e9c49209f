//! The foreign-protocol (X11-style) window lifecycle bridge: reconciles
//! map/unmap/destroy/configure/selection notifications with the shared
//! window model and keeps the two protocol domains' stacking orders
//! consistent.
//!
//! Every handler mutates the model and records what its collaborators must
//! do as [`Action`]s; a misbehaving client can make a handler drop its
//! request, never fail.

use vstd::prelude::*;

use crate::actions::{Action, SelectionTarget};
use crate::geometry::{sanitize_rect, spec_sanitize_rect, Point, Rect, Size, COORD_LIMIT};
use crate::model::Pinnacle;
use crate::resize_grab::{ForeignResizeEdge, ResizeEdge};
use crate::state::State;
use crate::window::{SurfaceId, Window, WindowId, WindowSurface};

verus! {

/// What the foreign protocol tells us about one of its windows.
#[derive(Clone, Copy, Debug, PartialEq, Eq, Structural)]
pub struct ForeignWindow {
    /// The foreign window's own identity, reused as the window id.
    pub id: WindowId,
    /// The native surface bound to it, once one exists.
    pub surface: Option<SurfaceId>,
    /// Override-redirect windows position themselves and bypass management.
    pub override_redirect: bool,
    /// The window-manager connection the window belongs to.
    pub xwm: u32,
    /// Its self-declared geometry.
    pub geometry: Rect,
}

impl State {
    /// Whether a foreign window may be created for `data`: the id and the
    /// surface must both be new to the registry.
    pub open spec fn spec_foreign_window_new(p: Pinnacle, data: ForeignWindow) -> bool {
        &&& !p.has_window(data.id)
        &&& (data.surface matches Some(su) ==> !p.has_surface_window(su))
    }

    /// A map request for a managed (non-override-redirect) foreign window:
    /// a window is created and registered (not yet mapped), the placement
    /// policy is asked to place it on the focused output, and a window-rule
    /// evaluation is requested; if the caller reports that no evaluation
    /// was dispatched, the window is told it may map at once.
    pub fn map_window_request(&mut self, data: ForeignWindow, window_rule_request_sent: bool)
        requires
            old(self).wf(),
        ensures
            final(self).wf(),
            data.override_redirect ==> *final(self) == *old(self),
            !data.override_redirect && !Self::spec_foreign_window_new(old(self).pinnacle, data)
                ==> *final(self) == *old(self),
            (!data.override_redirect && Self::spec_foreign_window_new(old(self).pinnacle, data))
                ==> ({
                let p = old(self).pinnacle;
                let neww = final(self).pinnacle.windows@.last();
                let n0 = old(self).pending@.len() as int;
                let k1: int = if p.focused_output is Some {
                    1
                } else {
                    0
                };
                let k2: int = if !window_rule_request_sent {
                    1
                } else {
                    0
                };
                &&& final(self).pinnacle.windows@ == p.windows@.push(neww)
                &&& neww.id == data.id
                &&& neww.surface == (WindowSurface::X11 {
                    surface: data.surface,
                    override_redirect: false,
                    xwm: data.xwm,
                })
                &&& neww.alive
                &&& !neww.mapped
                &&& neww.floating
                &&& !neww.maximized
                &&& !neww.fullscreen
                &&& neww.geometry == spec_sanitize_rect(data.geometry)
                &&& neww.resize_state is Idle
                &&& !final(self).pinnacle.in_space(data.id)
                &&& final(self).pinnacle.space == p.space
                &&& final(self).pinnacle.z_index_stack == p.z_index_stack
                &&& p.same_aux(final(self).pinnacle)
                &&& final(self).pending@.len() == n0 + k1 + 1 + k2
                &&& final(self).pending@.subrange(0, n0) == old(self).pending@
                &&& (p.focused_output matches Some(fo) ==> (final(self).pending@[n0]
                    matches Action::PlaceWindow { window, output } && window == data.id && output@
                    == fo@))
                &&& final(self).pending@[n0 + k1] == (Action::RequestWindowRules {
                    window: data.id,
                })
                &&& (!window_rule_request_sent ==> final(self).pending@[n0 + k1 + 1] == (
                Action::SetForeignMapped { window: data.id, mapped: true }))
                &&& final(self).active_grab == old(self).active_grab
                &&& final(self).cursor_icon == old(self).cursor_icon
                &&& final(self).keyboard_focus == old(self).keyboard_focus
            }),
    {
        if data.override_redirect {
            return ;
        }
        match self.pinnacle.find_window(data.id) {
            Some(_) => {
                return ;
            },
            None => {},
        }
        match data.surface {
            Some(su) => {
                match self.pinnacle.window_for_surface(su) {
                    Some(i) => {
                        proof {
                            self.pinnacle.lemma_surface_window_idx(i as int);
                        }
                        return ;
                    },
                    None => {},
                }
            },
            None => {},
        }
        let geometry = sanitize_rect(data.geometry);
        let w = Window::new(
            data.id,
            WindowSurface::X11 {
                surface: data.surface,
                override_redirect: false,
                xwm: data.xwm,
            },
            geometry,
        );
        self.pinnacle.insert_window(w);
        match &self.pinnacle.focused_output {
            Some(fo) => {
                let output = fo.clone();
                self.pending.push(Action::PlaceWindow { window: data.id, output });
            },
            None => {},
        }
        self.pending.push(Action::RequestWindowRules { window: data.id });
        if !window_rule_request_sent {
            self.pending.push(Action::SetForeignMapped { window: data.id, mapped: true });
        }
        proof {
            assert(final(self).pending@.subrange(0, old(self).pending@.len() as int) =~= old(self).pending@);
        }
    }

    /// An override-redirect foreign window mapped itself: it is registered,
    /// handed to the placement policy for bookkeeping, and mapped into the
    /// Space and the front of the Z-order stack immediately at its
    /// self-declared location, with no window-rule evaluation. Every output
    /// it intersects is asked to redraw.
    pub fn mapped_override_redirect_window(&mut self, data: ForeignWindow)
        requires
            old(self).wf(),
        ensures
            final(self).wf(),
            !data.override_redirect ==> *final(self) == *old(self),
            data.override_redirect && !Self::spec_foreign_window_new(old(self).pinnacle, data)
                ==> *final(self) == *old(self),
            (data.override_redirect && Self::spec_foreign_window_new(old(self).pinnacle, data))
                ==> ({
                let p = old(self).pinnacle;
                let loc = spec_sanitize_rect(data.geometry).loc;
                let n0 = old(self).pending@.len() as int;
                let k1: int = if p.focused_output is Some {
                    1
                } else {
                    0
                };
                let renders = Pinnacle::spec_outputs_overlapping(
                    p.outputs@,
                    spec_sanitize_rect(data.geometry),
                );
                &&& final(self).pinnacle.has_window(data.id)
                &&& final(self).pinnacle.window_of(data.id).spec_is_x11_override_redirect()
                &&& final(self).pinnacle.window_of(data.id).mapped
                &&& final(self).pinnacle.in_space(data.id)
                &&& final(self).pinnacle.spec_space_loc(data.id) == loc
                &&& final(self).pinnacle.z_index_stack@.len() > 0
                &&& final(self).pinnacle.z_index_stack@[0] == data.id
                &&& final(self).pending@.len() == n0 + k1 + renders.len()
                &&& final(self).pending@.subrange(0, n0) == old(self).pending@
                &&& (p.focused_output matches Some(fo) ==> (final(self).pending@[n0]
                    matches Action::PlaceWindow { window, output } && window == data.id && output@
                    == fo@))
                &&& (forall|k: int|
                    0 <= k < renders.len() ==> ((#[trigger] final(self).pending@[n0 + k1 + k])
                        matches Action::ScheduleRender { output } && output@ == renders[k]@))
            }),
    {
        if !data.override_redirect {
            return ;
        }
        match self.pinnacle.find_window(data.id) {
            Some(_) => {
                return ;
            },
            None => {},
        }
        match data.surface {
            Some(su) => {
                match self.pinnacle.window_for_surface(su) {
                    Some(i) => {
                        proof {
                            self.pinnacle.lemma_surface_window_idx(i as int);
                        }
                        return ;
                    },
                    None => {},
                }
            },
            None => {},
        }
        let geometry = sanitize_rect(data.geometry);
        let loc = geometry.loc;
        let w = Window::new(
            data.id,
            WindowSurface::X11 {
                surface: data.surface,
                override_redirect: true,
                xwm: data.xwm,
            },
            geometry,
        );
        self.pinnacle.insert_window(w);
        self.pinnacle.map_element(data.id, loc, true);
        match &self.pinnacle.focused_output {
            Some(fo) => {
                let output = fo.clone();
                self.pending.push(Action::PlaceWindow { window: data.id, output });
                proof {
                    let n0 = old(self).pending@.len() as int;
                    assert(self.pending@[n0] matches Action::PlaceWindow { window, output: o }
                        && window == data.id && o@ == old(self).pinnacle.focused_output->0@);
                }
            },
            None => {},
        }
        let renders = self.pinnacle.outputs_overlapping(geometry);
        let ghost renders_seq = Pinnacle::spec_outputs_overlapping(
            self.pinnacle.outputs@,
            geometry,
        );
        proof {
            let f = |n: String| n@;
            assert(renders@.map_values(f).len() == renders@.len());
            assert(renders_seq.map_values(f).len() == renders_seq.len());
            assert forall|k: int| 0 <= k < renders@.len() implies renders@[k]@ == renders_seq[
                k
            ]@ by {
                assert(renders@.map_values(f)[k] == f(renders@[k]));
                assert(renders_seq.map_values(f)[k] == f(renders_seq[k]));
            }
        }
        let ghost mid = *self;
        let mut i: usize = 0;
        while i < renders.len()
            invariant
                i <= renders@.len(),
                renders@.len() == renders_seq.len(),
                forall|k: int| 0 <= k < renders@.len() ==> (#[trigger] renders@[k])@ == renders_seq[k]@,
                self.pinnacle == mid.pinnacle,
                self.active_grab == mid.active_grab,
                self.cursor_icon == mid.cursor_icon,
                self.keyboard_focus == mid.keyboard_focus,
                self.clipboard_selection_set == mid.clipboard_selection_set,
                self.primary_selection_set == mid.primary_selection_set,
                self.pending@.len() == mid.pending@.len() + i,
                self.pending@.subrange(0, mid.pending@.len() as int) == mid.pending@,
                forall|k: int|
                    0 <= k < i ==> ((#[trigger] self.pending@[mid.pending@.len() + k])
                        matches Action::ScheduleRender { output } && output@ == renders_seq[k]@),
            decreases renders@.len() - i,
        {
            let output = renders[i].clone();
            let ghost prevp = self.pending@;
            self.pending.push(Action::ScheduleRender { output });
            proof {
                assert(self.pending@.subrange(0, mid.pending@.len() as int) =~= mid.pending@);
                assert(self.pending@[mid.pending@.len() + i] matches Action::ScheduleRender {
                    output: o,
                } && o@ == renders_seq[i as int]@);
            }
            i = i + 1;
        }
        proof {
            assert forall|k: int|
                0 <= k < mid.pending@.len() implies self.pending@[k] == mid.pending@[k] by {
                assert(self.pending@.subrange(0, mid.pending@.len() as int)[k] == self.pending@[
                    k
                ]);
            }
            assert(final(self).pending@.subrange(0, old(self).pending@.len() as int) =~= old(self).pending@);
        }
    }
}

impl State {
    /// What mapping a ready window does: it enters the Space at its
    /// floating location (or the origin, if none was ever assigned), is
    /// raised, and every output it now intersects is asked to redraw.
    pub open spec fn spec_map_new_window(s: State, s2: State, window: WindowId) -> bool {
        let p = s.pinnacle;
        let w = p.window_of(window);
        let loc = match w.floating_loc {
            Some(l) => l,
            None => Point { x: 0, y: 0 },
        };
        let n0 = s.pending@.len() as int;
        let renders = Pinnacle::spec_outputs_overlapping(
            p.outputs@,
            Rect { loc, size: w.geometry.size },
        );
        &&& s2.pinnacle.in_space(window)
        &&& s2.pinnacle.spec_space_loc(window) == loc
        &&& s2.pinnacle.z_index_stack@.len() > 0
        &&& s2.pinnacle.z_index_stack@[0] == window
        &&& s2.pinnacle.window_of(window).mapped
        &&& (forall|x: WindowId| x != window ==> (s2.pinnacle.in_space(x) <==> p.in_space(x)))
        &&& s2.pending@.len() == n0 + renders.len()
        &&& s2.pending@.subrange(0, n0) == s.pending@
        &&& (forall|k: int|
            0 <= k < renders.len() ==> ((#[trigger] s2.pending@[n0 + k])
                matches Action::ScheduleRender { output } && output@ == renders[k]@))
        &&& s2.active_grab == s.active_grab
        &&& s2.cursor_icon == s.cursor_icon
        &&& s2.keyboard_focus == s.keyboard_focus
    }

    /// Maps a window that has completed its initial map handshake; see
    /// [`Self::spec_map_new_window`].
    pub fn map_new_window(&mut self, window: WindowId)
        requires
            old(self).wf(),
            old(self).pinnacle.has_window(window),
        ensures
            final(self).wf(),
            Self::spec_map_new_window(*old(self), *final(self), window),
    {
        let wi = self.pinnacle.find_window(window).unwrap();
        proof {
            old(self).pinnacle.lemma_window_idx(wi as int);
        }
        let loc = match self.pinnacle.windows[wi].floating_loc {
            Some(l) => l,
            None => Point { x: 0, y: 0 },
        };
        let size = self.pinnacle.windows[wi].geometry.size;
        proof {
            assert(old(self).pinnacle.window_of(window).wf());
        }
        self.pinnacle.map_element(window, loc, true);
        let rect = Rect { loc, size };
        let renders = self.pinnacle.outputs_overlapping(rect);
        let ghost renders_seq = Pinnacle::spec_outputs_overlapping(self.pinnacle.outputs@, rect);
        proof {
            let f = |n: String| n@;
            assert(renders@.map_values(f).len() == renders@.len());
            assert(renders_seq.map_values(f).len() == renders_seq.len());
            assert forall|k: int| 0 <= k < renders@.len() implies renders@[k]@ == renders_seq[
                k
            ]@ by {
                assert(renders@.map_values(f)[k] == f(renders@[k]));
                assert(renders_seq.map_values(f)[k] == f(renders_seq[k]));
            }
        }
        let ghost mid = *self;
        let mut i: usize = 0;
        while i < renders.len()
            invariant
                i <= renders@.len(),
                renders@.len() == renders_seq.len(),
                forall|k: int|
                    0 <= k < renders@.len() ==> (#[trigger] renders@[k])@ == renders_seq[k]@,
                self.pinnacle == mid.pinnacle,
                self.active_grab == mid.active_grab,
                self.cursor_icon == mid.cursor_icon,
                self.keyboard_focus == mid.keyboard_focus,
                self.clipboard_selection_set == mid.clipboard_selection_set,
                self.primary_selection_set == mid.primary_selection_set,
                self.pending@.len() == mid.pending@.len() + i,
                self.pending@.subrange(0, mid.pending@.len() as int) == mid.pending@,
                forall|k: int|
                    0 <= k < i ==> ((#[trigger] self.pending@[mid.pending@.len() + k])
                        matches Action::ScheduleRender { output } && output@ == renders_seq[k]@),
            decreases renders@.len() - i,
        {
            let output = renders[i].clone();
            self.pending.push(Action::ScheduleRender { output });
            proof {
                assert(self.pending@.subrange(0, mid.pending@.len() as int) =~= mid.pending@);
            }
            i = i + 1;
        }
        proof {
            assert forall|k: int|
                0 <= k < mid.pending@.len() implies self.pending@[k] == mid.pending@[k] by {
                assert(self.pending@.subrange(0, mid.pending@.len() as int)[k] == self.pending@[
                    k
                ]);
            }
            assert(final(self).pending@.subrange(0, old(self).pending@.len() as int) =~= old(self).pending@);
        }
    }

    /// The foreign client finished mapping: look the window up and map it
    /// into the model; an unknown window is a stale notification and is
    /// dropped.
    pub fn map_window_notify(&mut self, window: WindowId)
        requires
            old(self).wf(),
        ensures
            final(self).wf(),
            !old(self).pinnacle.has_window(window) ==> *final(self) == *old(self),
            old(self).pinnacle.has_window(window) ==> Self::spec_map_new_window(
                *old(self),
                *final(self),
                window,
            ),
    {
        match self.pinnacle.find_window(window) {
            Some(_) => {
                self.map_new_window(window);
            },
            None => {},
        }
    }

    /// Removes a foreign window from the registry, Space and Z-order stack
    /// atomically, captures a visual snapshot of its output for the outgoing
    /// transition first, and asks that output to begin a layout transaction,
    /// relayout, refocus and redraw. A window on no output is only removed.
    pub fn remove_xwayland_window(&mut self, window: WindowId)
        requires
            old(self).wf(),
        ensures
            final(self).wf(),
            !old(self).pinnacle.has_window(window) ==> *final(self) == *old(self),
            old(self).pinnacle.has_window(window) ==> ({
                let p = old(self).pinnacle;
                let n0 = old(self).pending@.len() as int;
                let overlapping = Pinnacle::spec_outputs_overlapping(
                    p.outputs@,
                    Rect {
                        loc: p.spec_space_loc(window),
                        size: p.window_of(window).geometry.size,
                    },
                );
                let has_out = p.in_space(window) && overlapping.len() > 0;
                &&& !final(self).pinnacle.has_window(window)
                &&& !final(self).pinnacle.in_space(window)
                &&& !final(self).pinnacle.in_stack(window)
                &&& (forall|x: WindowId|
                    x != window ==> (final(self).pinnacle.has_window(x) <==> old(self).pinnacle.has_window(x)))
                &&& (forall|x: WindowId|
                    x != window ==> (final(self).pinnacle.in_space(x) <==> old(self).pinnacle.in_space(x)))
                &&& (forall|x: WindowId|
                    x != window ==> (final(self).pinnacle.in_stack(x) <==> old(self).pinnacle.in_stack(x)))
                &&& final(self).pending@.subrange(0, n0) == old(self).pending@
                &&& (!has_out ==> final(self).pending@ == old(self).pending@)
                &&& (has_out ==> {
                    &&& final(self).pending@.len() == n0 + 5
                    &&& (final(self).pending@[n0] matches Action::CaptureSnapshots { output }
                        && output@ == overlapping[0]@)
                    &&& (final(self).pending@[n0 + 1] matches Action::BeginLayoutTransaction {
                        output,
                    } && output@ == overlapping[0]@)
                    &&& (final(self).pending@[n0 + 2] matches Action::RequestLayout { output }
                        && output@ == overlapping[0]@)
                    &&& (final(self).pending@[n0 + 3] matches Action::UpdateKeyboardFocus {
                        output,
                    } && output@ == overlapping[0]@)
                    &&& (final(self).pending@[n0 + 4] matches Action::ScheduleRender { output }
                        && output@ == overlapping[0]@)
                })
            }),
    {
        match self.pinnacle.find_window(window) {
            Some(_) => {},
            None => {
                return ;
            },
        }
        let out = self.pinnacle.output_for_window(window);
        match &out {
            Some(name) => {
                let output = name.clone();
                self.pending.push(Action::CaptureSnapshots { output });
            },
            None => {},
        }
        self.pinnacle.remove_window(window);
        match out {
            Some(name) => {
                let o1 = name.clone();
                let o2 = name.clone();
                let o3 = name.clone();
                let o4 = name.clone();
                self.pending.push(Action::BeginLayoutTransaction { output: o1 });
                self.pending.push(Action::RequestLayout { output: o2 });
                self.pending.push(Action::UpdateKeyboardFocus { output: o3 });
                self.pending.push(Action::ScheduleRender { output: o4 });
            },
            None => {},
        }
        proof {
            assert(final(self).pending@.subrange(0, old(self).pending@.len() as int) =~= old(self).pending@);
        }
    }

    /// A foreign window unmapped: it is told it is unmapped (unless it is
    /// override-redirect, which manages itself) and removed from the model.
    pub fn unmapped_window(&mut self, window: WindowId)
        requires
            old(self).wf(),
        ensures
            final(self).wf(),
            !old(self).pinnacle.has_window(window) ==> *final(self) == *old(self),
            old(self).pinnacle.has_window(window) ==> ({
                let n0 = old(self).pending@.len() as int;
                let or = old(self).pinnacle.window_of(window).spec_is_x11_override_redirect();
                &&& !final(self).pinnacle.has_window(window)
                &&& !final(self).pinnacle.in_space(window)
                &&& !final(self).pinnacle.in_stack(window)
                &&& final(self).pending@.subrange(0, n0) == old(self).pending@
                &&& (!or ==> final(self).pending@.len() > n0 && final(self).pending@[n0] == (
                Action::SetForeignMapped { window, mapped: false }))
                &&& (or ==> final(self).pending@.len() == n0 || final(self).pending@.len() == n0
                    + 5)
            }),
    {
        let wi = match self.pinnacle.find_window(window) {
            Some(i) => i,
            None => {
                return ;
            },
        };
        proof {
            self.pinnacle.lemma_window_idx(wi as int);
        }
        if !self.pinnacle.windows[wi].is_x11_override_redirect() {
            self.pending.push(Action::SetForeignMapped { window, mapped: false });
            proof {
                assert(self.pending@[old(self).pending@.len() as int] == (
                Action::SetForeignMapped { window, mapped: false }));
            }
        }
        let ghost mid = *self;
        self.remove_xwayland_window(window);
        proof {
            let n0 = old(self).pending@.len() as int;
            let nm = mid.pending@.len() as int;
            assert(self.pending@.subrange(0, nm) == mid.pending@);
            assert forall|k: int| 0 <= k < nm implies self.pending@[k] == mid.pending@[k] by {
                assert(self.pending@.subrange(0, nm)[k] == self.pending@[k]);
            }
            assert(final(self).pending@.subrange(0, n0) =~= old(self).pending@);
        }
    }

    /// A foreign window was destroyed: it is removed from the model; its
    /// registry entry does not outlive the surface.
    pub fn destroyed_window(&mut self, window: WindowId)
        requires
            old(self).wf(),
        ensures
            final(self).wf(),
            !old(self).pinnacle.has_window(window) ==> *final(self) == *old(self),
            old(self).pinnacle.has_window(window) ==> ({
                let p = old(self).pinnacle;
                let n0 = old(self).pending@.len() as int;
                let overlapping = Pinnacle::spec_outputs_overlapping(
                    p.outputs@,
                    Rect {
                        loc: p.spec_space_loc(window),
                        size: p.window_of(window).geometry.size,
                    },
                );
                let has_out = p.in_space(window) && overlapping.len() > 0;
                &&& !final(self).pinnacle.has_window(window)
                &&& !final(self).pinnacle.in_space(window)
                &&& !final(self).pinnacle.in_stack(window)
                &&& (forall|x: WindowId|
                    x != window ==> (final(self).pinnacle.has_window(x) <==> old(self).pinnacle.has_window(x)))
                &&& (forall|x: WindowId|
                    x != window ==> (final(self).pinnacle.in_space(x) <==> old(self).pinnacle.in_space(x)))
                &&& (forall|x: WindowId|
                    x != window ==> (final(self).pinnacle.in_stack(x) <==> old(self).pinnacle.in_stack(x)))
                &&& final(self).pending@.subrange(0, n0) == old(self).pending@
                &&& (!has_out ==> final(self).pending@ == old(self).pending@)
                &&& (has_out ==> {
                    &&& final(self).pending@.len() == n0 + 5
                    &&& (final(self).pending@[n0] matches Action::CaptureSnapshots { output }
                        && output@ == overlapping[0]@)
                    &&& (final(self).pending@[n0 + 1] matches Action::BeginLayoutTransaction {
                        output,
                    } && output@ == overlapping[0]@)
                    &&& (final(self).pending@[n0 + 2] matches Action::RequestLayout { output }
                        && output@ == overlapping[0]@)
                    &&& (final(self).pending@[n0 + 3] matches Action::UpdateKeyboardFocus {
                        output,
                    } && output@ == overlapping[0]@)
                    &&& (final(self).pending@[n0 + 4] matches Action::ScheduleRender { output }
                        && output@ == overlapping[0]@)
                })
            }),
    {
        self.remove_xwayland_window(window);
    }

    /// The geometry a configure request resolves to: each component the
    /// client named replaces the current one, and the result is clamped
    /// into the stored range.
    pub open spec fn spec_configure_merge(
        current: Rect,
        x: Option<i32>,
        y: Option<i32>,
        w: Option<u32>,
        h: Option<u32>,
    ) -> Rect {
        spec_sanitize_rect(
            Rect {
                loc: Point {
                    x: match x {
                        Some(v) => v,
                        None => current.loc.x,
                    },
                    y: match y {
                        Some(v) => v,
                        None => current.loc.y,
                    },
                },
                size: Size {
                    w: match w {
                        Some(v) => if v > COORD_LIMIT as u32 {
                            COORD_LIMIT
                        } else {
                            v as i32
                        },
                        None => current.size.w,
                    },
                    h: match h {
                        Some(v) => if v > COORD_LIMIT as u32 {
                            COORD_LIMIT
                        } else {
                            v as i32
                        },
                        None => current.size.h,
                    },
                },
            },
        )
    }

    /// A foreign client asked to move or resize itself. The request is
    /// granted — answered with a configure for the merged geometry — only if
    /// the window is override-redirect or floating, or has not completed its
    /// initial map yet (no window means no competing layout policy);
    /// otherwise it is ignored, since tiled windows are managed by layout
    /// policy, not by client request.
    pub fn configure_request(
        &mut self,
        window: WindowId,
        current_geometry: Rect,
        x: Option<i32>,
        y: Option<i32>,
        w: Option<u32>,
        h: Option<u32>,
    )
        requires
            old(self).wf(),
        ensures
            final(self).wf(),
            ({
                let p = old(self).pinnacle;
                let should = if p.has_window(window) {
                    p.window_of(window).spec_is_x11_override_redirect() || p.window_of(
                        window,
                    ).floating
                } else {
                    true
                };
                if should {
                    &&& final(self).pending@ == old(self).pending@.push(
                        Action::ConfigureForeign {
                            window,
                            geometry: Self::spec_configure_merge(current_geometry, x, y, w, h),
                        },
                    )
                    &&& final(self).pinnacle == p
                    &&& final(self).active_grab == old(self).active_grab
                    &&& final(self).cursor_icon == old(self).cursor_icon
                    &&& final(self).keyboard_focus == old(self).keyboard_focus
                } else {
                    *final(self) == *old(self)
                }
            }),
    {
        let should = match self.pinnacle.find_window(window) {
            Some(wi) => {
                proof {
                    self.pinnacle.lemma_window_idx(wi as int);
                }
                self.pinnacle.windows[wi].is_x11_override_redirect()
                    || self.pinnacle.windows[wi].floating
            },
            None => true,
        };
        if should {
            let nx = match x {
                Some(v) => v,
                None => current_geometry.loc.x,
            };
            let ny = match y {
                Some(v) => v,
                None => current_geometry.loc.y,
            };
            let nw = match w {
                Some(v) => if v > COORD_LIMIT as u32 {
                    COORD_LIMIT
                } else {
                    v as i32
                },
                None => current_geometry.size.w,
            };
            let nh = match h {
                Some(v) => if v > COORD_LIMIT as u32 {
                    COORD_LIMIT
                } else {
                    v as i32
                },
                None => current_geometry.size.h,
            };
            let merged = sanitize_rect(
                Rect { loc: Point { x: nx, y: ny }, size: Size { w: nw, h: nh } },
            );
            self.pending.push(Action::ConfigureForeign { window, geometry: merged });
        }
    }

    /// An override-redirect foreign window moved itself: the Space follows
    /// its self-declared location. Managed windows are repositioned by the
    /// compositor only, so anything else is ignored.
    pub fn configure_notify(&mut self, window: WindowId, geometry: Rect)
        requires
            old(self).wf(),
        ensures
            final(self).wf(),
            ({
                let p = old(self).pinnacle;
                let self_positioned = p.has_window(window) && p.window_of(
                    window,
                ).spec_is_x11_override_redirect() && p.in_space(window);
                if self_positioned {
                    &&& final(self).pinnacle.spec_space_loc(window) == spec_sanitize_rect(
                        geometry,
                    ).loc
                    &&& final(self).pinnacle.z_index_stack@.len() > 0
                    &&& final(self).pinnacle.z_index_stack@[0] == window
                    &&& final(self).pending == old(self).pending
                } else {
                    *final(self) == *old(self)
                }
            }),
    {
        let wi = match self.pinnacle.find_window(window) {
            Some(i) => i,
            None => {
                return ;
            },
        };
        proof {
            self.pinnacle.lemma_window_idx(wi as int);
        }
        if !self.pinnacle.windows[wi].is_x11_override_redirect() {
            return ;
        }
        match self.pinnacle.space_index(window) {
            Some(_) => {},
            None => {
                return ;
            },
        }
        let loc = sanitize_rect(geometry).loc;
        self.pinnacle.map_element(window, loc, true);
    }
}

impl State {
    /// The foreign client asked to maximize: record the flag and have the
    /// layout re-evaluate the window. Windows without a native surface are
    /// not yet part of the model's layout and are skipped.
    pub fn maximize_request(&mut self, window: WindowId)
        requires
            old(self).wf(),
        ensures
            final(self).wf(),
            ({
                let p = old(self).pinnacle;
                if p.has_window(window) && p.window_of(window).spec_wl_surface() is Some {
                    &&& final(self).pinnacle.windows@ == p.windows@.update(
                        p.window_idx(window),
                        Window { maximized: true, ..p.window_of(window) },
                    )
                    &&& final(self).pending@ == old(self).pending@.push(
                        Action::UpdateWindowStateAndLayout { window },
                    )
                } else {
                    *final(self) == *old(self)
                }
            }),
    {
        let wi = match self.pinnacle.find_window(window) {
            Some(i) => i,
            None => {
                return ;
            },
        };
        proof {
            self.pinnacle.lemma_window_idx(wi as int);
        }
        match self.pinnacle.windows[wi].wl_surface() {
            Some(_) => {},
            None => {
                return ;
            },
        }
        self.pinnacle.set_maximized(wi, true);
        self.pending.push(Action::UpdateWindowStateAndLayout { window });
    }

    /// The foreign client asked to leave maximized state.
    pub fn unmaximize_request(&mut self, window: WindowId)
        requires
            old(self).wf(),
        ensures
            final(self).wf(),
            ({
                let p = old(self).pinnacle;
                if p.has_window(window) && p.window_of(window).spec_wl_surface() is Some {
                    &&& final(self).pinnacle.windows@ == p.windows@.update(
                        p.window_idx(window),
                        Window { maximized: false, ..p.window_of(window) },
                    )
                    &&& final(self).pending@ == old(self).pending@.push(
                        Action::UpdateWindowStateAndLayout { window },
                    )
                } else {
                    *final(self) == *old(self)
                }
            }),
    {
        let wi = match self.pinnacle.find_window(window) {
            Some(i) => i,
            None => {
                return ;
            },
        };
        proof {
            self.pinnacle.lemma_window_idx(wi as int);
        }
        match self.pinnacle.windows[wi].wl_surface() {
            Some(_) => {},
            None => {
                return ;
            },
        }
        self.pinnacle.set_maximized(wi, false);
        self.pending.push(Action::UpdateWindowStateAndLayout { window });
    }

    /// The foreign client asked to go fullscreen.
    pub fn fullscreen_request(&mut self, window: WindowId)
        requires
            old(self).wf(),
        ensures
            final(self).wf(),
            ({
                let p = old(self).pinnacle;
                if p.has_window(window) && p.window_of(window).spec_wl_surface() is Some {
                    &&& final(self).pinnacle.windows@ == p.windows@.update(
                        p.window_idx(window),
                        Window { fullscreen: true, ..p.window_of(window) },
                    )
                    &&& final(self).pending@ == old(self).pending@.push(
                        Action::UpdateWindowStateAndLayout { window },
                    )
                } else {
                    *final(self) == *old(self)
                }
            }),
    {
        let wi = match self.pinnacle.find_window(window) {
            Some(i) => i,
            None => {
                return ;
            },
        };
        proof {
            self.pinnacle.lemma_window_idx(wi as int);
        }
        match self.pinnacle.windows[wi].wl_surface() {
            Some(_) => {},
            None => {
                return ;
            },
        }
        self.pinnacle.set_fullscreen(wi, true);
        self.pending.push(Action::UpdateWindowStateAndLayout { window });
    }

    /// The foreign client asked to leave fullscreen.
    pub fn unfullscreen_request(&mut self, window: WindowId)
        requires
            old(self).wf(),
        ensures
            final(self).wf(),
            ({
                let p = old(self).pinnacle;
                if p.has_window(window) && p.window_of(window).spec_wl_surface() is Some {
                    &&& final(self).pinnacle.windows@ == p.windows@.update(
                        p.window_idx(window),
                        Window { fullscreen: false, ..p.window_of(window) },
                    )
                    &&& final(self).pending@ == old(self).pending@.push(
                        Action::UpdateWindowStateAndLayout { window },
                    )
                } else {
                    *final(self) == *old(self)
                }
            }),
    {
        let wi = match self.pinnacle.find_window(window) {
            Some(i) => i,
            None => {
                return ;
            },
        };
        proof {
            self.pinnacle.lemma_window_idx(wi as int);
        }
        match self.pinnacle.windows[wi].wl_surface() {
            Some(_) => {},
            None => {
                return ;
            },
        }
        self.pinnacle.set_fullscreen(wi, false);
        self.pending.push(Action::UpdateWindowStateAndLayout { window });
    }

    /// The foreign client started an edge drag: routed into the
    /// compositor-side resize request (clients of this protocol often hand
    /// over no grab data of their own, so the pointer's location supplies
    /// it).
    pub fn resize_request(
        &mut self,
        window: WindowId,
        button: u32,
        edges: ForeignResizeEdge,
        pointer_location: Point,
    )
        requires
            old(self).wf(),
            pointer_location.in_range(),
        ensures
            final(self).wf(),
            ({
                let p = old(self).pinnacle;
                if p.has_window(window) && p.window_of(window).spec_wl_surface() is Some {
                    let su = p.window_of(window).spec_wl_surface()->0;
                    let e = ResizeEdge::spec_from_foreign(edges);
                    &&& (Self::spec_resize_request_ok(p, su) ==> Self::spec_resize_request(
                        *old(self),
                        *final(self),
                        su,
                        pointer_location,
                        e,
                        button,
                    ) && final(self).cursor_icon == e.spec_cursor_icon())
                    &&& (!Self::spec_resize_request_ok(p, su) ==> *final(self) == *old(self))
                } else {
                    *final(self) == *old(self)
                }
            }),
    {
        let wi = match self.pinnacle.find_window(window) {
            Some(i) => i,
            None => {
                return ;
            },
        };
        proof {
            self.pinnacle.lemma_window_idx(wi as int);
        }
        let su = match self.pinnacle.windows[wi].wl_surface() {
            Some(s) => s,
            None => {
                return ;
            },
        };
        let e = ResizeEdge::from_foreign(edges);
        self.resize_request_server(su, pointer_location, e, button);
    }

    /// The foreign client started a titlebar drag: ask for an interactive
    /// move grab. The move grab updates location only, never size, and has
    /// no commit-state machine, since location changes need no client
    /// acknowledgment.
    pub fn move_request(&mut self, window: WindowId, button: u32)
        requires
            old(self).wf(),
        ensures
            final(self).wf(),
            ({
                let p = old(self).pinnacle;
                if p.has_window(window) && p.window_of(window).spec_wl_surface() is Some {
                    &&& final(self).pending@ == old(self).pending@.push(
                        Action::StartMoveGrab { window, button },
                    )
                    &&& final(self).pinnacle == p
                    &&& final(self).active_grab == old(self).active_grab
                } else {
                    *final(self) == *old(self)
                }
            }),
    {
        let wi = match self.pinnacle.find_window(window) {
            Some(i) => i,
            None => {
                return ;
            },
        };
        proof {
            self.pinnacle.lemma_window_idx(wi as int);
        }
        match self.pinnacle.windows[wi].wl_surface() {
            Some(_) => {},
            None => {
                return ;
            },
        }
        self.pending.push(Action::StartMoveGrab { window, button });
    }

    /// Whether a selection request from the window-manager connection `xwm`
    /// may read the native domain's selection: only while a window of that
    /// connection holds keyboard focus, preventing cross-domain selection
    /// leakage.
    pub fn allow_selection_access(&self, xwm: u32) -> (r: bool)
        requires
            self.wf(),
        ensures
            r == (self.keyboard_focus matches Some(id) && self.pinnacle.has_window(id)
                && (self.pinnacle.window_of(id).surface matches WindowSurface::X11 { xwm: x, .. }
                && x == xwm)),
    {
        let id = match self.keyboard_focus {
            Some(id) => id,
            None => {
                return false;
            },
        };
        let wi = match self.pinnacle.find_window(id) {
            Some(i) => i,
            None => {
                return false;
            },
        };
        proof {
            self.pinnacle.lemma_window_idx(wi as int);
        }
        match self.pinnacle.windows[wi].surface {
            WindowSurface::X11 { xwm: x, .. } => x == xwm,
            _ => false,
        }
    }

    /// The foreign domain wants the current native selection written to it
    /// in the given mime type: ask the native side for a transfer.
    pub fn send_selection(&mut self, selection: SelectionTarget, mime_type: String)
        requires
            old(self).wf(),
        ensures
            final(self).wf(),
            final(self).pending@ == old(self).pending@.push(
                Action::RequestSelectionTransfer { selection, mime_type },
            ),
            final(self).pinnacle == old(self).pinnacle,
            final(self).active_grab == old(self).active_grab,
            final(self).clipboard_selection_set == old(self).clipboard_selection_set,
            final(self).primary_selection_set == old(self).primary_selection_set,
    {
        self.pending.push(Action::RequestSelectionTransfer { selection, mime_type });
    }

    /// The foreign domain took the selection: offer it, with its mime
    /// types, to the native domain, and remember that the offer is ours.
    pub fn new_selection(&mut self, selection: SelectionTarget, mime_types: Vec<String>)
        requires
            old(self).wf(),
        ensures
            final(self).wf(),
            final(self).pending@ == old(self).pending@.push(
                Action::SetSelection { selection, mime_types },
            ),
            final(self).pinnacle == old(self).pinnacle,
            selection is Clipboard ==> final(self).clipboard_selection_set && final(self).primary_selection_set == old(self).primary_selection_set,
            selection is Primary ==> final(self).primary_selection_set && final(self).clipboard_selection_set == old(self).clipboard_selection_set,
    {
        match selection {
            SelectionTarget::Clipboard => {
                self.clipboard_selection_set = true;
            },
            SelectionTarget::Primary => {
                self.primary_selection_set = true;
            },
        }
        self.pending.push(Action::SetSelection { selection, mime_types });
    }

    /// The foreign domain dropped the selection: withdraw the native-side
    /// offer, but only if the standing offer is the one this bridge made.
    pub fn cleared_selection(&mut self, selection: SelectionTarget)
        requires
            old(self).wf(),
        ensures
            final(self).wf(),
            ({
                let ours = match selection {
                    SelectionTarget::Clipboard => old(self).clipboard_selection_set,
                    SelectionTarget::Primary => old(self).primary_selection_set,
                };
                if ours {
                    &&& final(self).pending@ == old(self).pending@.push(
                        Action::ClearSelection { selection },
                    )
                    &&& final(self).pinnacle == old(self).pinnacle
                    &&& (selection is Clipboard ==> !final(self).clipboard_selection_set && final(self).primary_selection_set == old(self).primary_selection_set)
                    &&& (selection is Primary ==> !final(self).primary_selection_set && final(self).clipboard_selection_set == old(self).clipboard_selection_set)
                } else {
                    *final(self) == *old(self)
                }
            }),
    {
        match selection {
            SelectionTarget::Clipboard => {
                if self.clipboard_selection_set {
                    self.clipboard_selection_set = false;
                    self.pending.push(Action::ClearSelection { selection });
                }
            },
            SelectionTarget::Primary => {
                if self.primary_selection_set {
                    self.primary_selection_set = false;
                    self.pending.push(Action::ClearSelection { selection });
                }
            },
        }
    }
}

impl Pinnacle {
    /// The managed foreign windows of `ids` (in order) that match
    /// `active`: those on an active tag when `active` holds, the others
    /// when it does not. Override-redirect windows stack themselves and are
    /// never included.
    pub open spec fn spec_restack_pick(self, ids: Seq<WindowId>, active: bool) -> Seq<WindowId>
        decreases ids.len(),
    {
        if ids.len() == 0 {
            Seq::empty()
        } else {
            let rest = self.spec_restack_pick(ids.drop_last(), active);
            let id = ids.last();
            if self.has_window(id) && self.window_of(id).is_x11() && !self.window_of(
                id,
            ).spec_is_x11_override_redirect() && self.spec_on_active_tag(self.window_of(id))
                == active {
                rest.push(id)
            } else {
                rest
            }
        }
    }

    /// The bottom-to-top order pushed to the foreign protocol's stacking
    /// primitive: the unified Z-order restricted to managed foreign
    /// windows, with the windows on active tags raised as a group above all
    /// others, preserving relative order within each group.
    pub open spec fn spec_restack_order(self) -> Seq<WindowId> {
        let rev = self.z_index_stack@.reverse();
        self.spec_restack_pick(rev, false) + self.spec_restack_pick(rev, true)
    }

    /// Pushes the unified Z-order to the foreign protocol whenever its
    /// window-manager connection is up; see [`Self::spec_restack_order`].
    pub fn update_xwayland_stacking_order(&self, pending: &mut Vec<Action>)
        requires
            self.wf(),
        ensures
            !self.xwm_active ==> final(pending)@ == old(pending)@,
            self.xwm_active ==> {
                &&& final(pending)@.len() == old(pending)@.len() + 1
                &&& final(pending)@.subrange(0, old(pending)@.len() as int) == old(pending)@
                &&& (final(pending)@.last() matches Action::RestackForeign { windows }
                    && windows@ == self.spec_restack_order())
            },
    {
        if !self.xwm_active {
            return ;
        }
        let ghost rev = self.z_index_stack@.reverse();
        let mut inactive: Vec<WindowId> = Vec::new();
        let mut active: Vec<WindowId> = Vec::new();
        let n = self.z_index_stack.len();
        let mut j: usize = 0;
        while j < n
            invariant
                self.wf(),
                n == self.z_index_stack@.len(),
                rev == self.z_index_stack@.reverse(),
                j <= n,
                inactive@ == self.spec_restack_pick(rev.take(j as int), false),
                active@ == self.spec_restack_pick(rev.take(j as int), true),
            decreases n - j,
        {
            let id = self.z_index_stack[n - 1 - j];
            proof {
                assert(rev[j as int] == self.z_index_stack@[n - 1 - j]);
                assert(rev.take(j as int + 1).drop_last() =~= rev.take(j as int));
                assert(rev.take(j as int + 1).last() == rev[j as int]);
            }
            match self.find_window(id) {
                Some(wi) => {
                    proof {
                        self.lemma_window_idx(wi as int);
                    }
                    let keep = match self.windows[wi].surface {
                        WindowSurface::X11 { override_redirect, .. } => !override_redirect,
                        _ => false,
                    };
                    if keep {
                        if self.is_on_active_tag(wi) {
                            active.push(id);
                        } else {
                            inactive.push(id);
                        }
                    }
                },
                None => {},
            }
            j = j + 1;
        }
        proof {
            assert(rev.take(n as int) =~= rev);
        }
        let mut list = inactive;
        let mut active = active;
        list.append(&mut active);
        pending.push(Action::RestackForeign { windows: list });
        proof {
            assert(final(pending)@.subrange(0, old(pending)@.len() as int) =~= old(pending)@);
        }
    }
}

} // verus!
