//! The shared window/output model: the window registry, the Space mapping
//! from window to global location, the Z-order stack, outputs and tags.
//!
//! The model is one explicit state struct passed by exclusive reference into
//! every event handler; the event loop delivers events serially, so this is
//! the single writer. Its well-formedness ties the three window collections
//! together: the Z-order stack and the Space mapping hold exactly the mapped
//! windows, without duplicates.

use vstd::prelude::*;
use vstd::pervasive::VecAdditionalExecFns;

use crate::geometry::{Point, Rect, Size};
use crate::window::{SurfaceId, Window, WindowId};

verus! {

/// One entry of the Space mapping: a window and its integer-pixel location
/// in the shared global coordinate system.
#[derive(Clone, Copy, Debug, PartialEq, Eq, Structural)]
pub struct SpaceEntry {
    pub window: WindowId,
    pub loc: Point,
}

/// A visibility group. Windows tagged with an active tag are displayed.
#[derive(Clone, Copy, Debug, PartialEq, Eq, Structural)]
pub struct Tag {
    pub id: u32,
    pub active: bool,
}

/// A physical display: its location and logical size in the global space,
/// its fractional scale in thousandths (1000 is a scale of one), the
/// layer-shell surfaces pinned to it, and an optional in-flight
/// layout-transition snapshot.
#[derive(Clone, Debug)]
pub struct OutputState {
    pub name: String,
    pub loc: Point,
    pub size: Size,
    pub scale_millis: u32,
    pub layer_surfaces: Vec<crate::render::LayerSurface>,
    pub snapshot: Option<crate::render::LayoutSnapshot>,
}

/// The shared model.
#[derive(Debug)]
pub struct Pinnacle {
    /// The window registry: owner of every window.
    pub windows: Vec<Window>,
    /// Front-to-back paint order of the mapped windows; index 0 is the top.
    pub z_index_stack: Vec<WindowId>,
    /// The Space mapping; a window absent from it is unmapped.
    pub space: Vec<SpaceEntry>,
    pub outputs: Vec<OutputState>,
    pub tags: Vec<Tag>,
    /// Name of the output that most recently saw pointer motion.
    pub focused_output: Option<String>,
    /// Whether the foreign-protocol window manager connection is up.
    pub xwm_active: bool,
}

impl Pinnacle {
    /// An empty model: no windows, outputs or tags.
    pub fn new() -> (p: Pinnacle)
        ensures
            p.wf(),
            p.windows@ =~= Seq::<Window>::empty(),
            p.z_index_stack@ =~= Seq::<WindowId>::empty(),
            p.space@ =~= Seq::<SpaceEntry>::empty(),
            p.outputs@ =~= Seq::<OutputState>::empty(),
            p.tags@ =~= Seq::<Tag>::empty(),
            p.focused_output is None,
            !p.xwm_active,
    {
        Pinnacle {
            windows: Vec::new(),
            z_index_stack: Vec::new(),
            space: Vec::new(),
            outputs: Vec::new(),
            tags: Vec::new(),
            focused_output: None,
            xwm_active: false,
        }
    }

    /// The registry holds a window with this id.
    pub open spec fn has_window(self, id: WindowId) -> bool {
        exists|i: int| 0 <= i < self.windows@.len() && (#[trigger] self.windows@[i]).id == id
    }

    /// The registry index of the window with this id.
    pub open spec fn window_idx(self, id: WindowId) -> int {
        choose|i: int| 0 <= i < self.windows@.len() && (#[trigger] self.windows@[i]).id == id
    }

    /// The registered window with this id.
    pub open spec fn window_of(self, id: WindowId) -> Window {
        self.windows@[self.window_idx(id)]
    }

    /// The Space mapping holds this window.
    pub open spec fn in_space(self, id: WindowId) -> bool {
        exists|i: int| 0 <= i < self.space@.len() && (#[trigger] self.space@[i]).window == id
    }

    /// The Space index of this window's entry.
    pub open spec fn space_idx(self, id: WindowId) -> int {
        choose|i: int| 0 <= i < self.space@.len() && (#[trigger] self.space@[i]).window == id
    }

    /// The location the Space mapping assigns to this window.
    pub open spec fn spec_space_loc(self, id: WindowId) -> Point {
        self.space@[self.space_idx(id)].loc
    }

    /// The Z-order stack holds this window.
    pub open spec fn in_stack(self, id: WindowId) -> bool {
        exists|i: int| 0 <= i < self.z_index_stack@.len() && self.z_index_stack@[i] == id
    }

    /// Window ids are unique, no two windows share a native surface, and
    /// every window is well-formed.
    pub open spec fn windows_wf(self) -> bool {
        &&& forall|i: int, j: int|
            0 <= i < j < self.windows@.len() ==> (#[trigger] self.windows@[i]).id != (
            #[trigger] self.windows@[j]).id
        &&& forall|i: int, j: int|
            0 <= i < j < self.windows@.len() && (#[trigger] self.windows@[i]).spec_wl_surface()
                is Some ==> self.windows@[i].spec_wl_surface() != (
            #[trigger] self.windows@[j]).spec_wl_surface()
        &&& forall|i: int| 0 <= i < self.windows@.len() ==> (#[trigger] self.windows@[i]).wf()
    }

    /// Some window owns this native surface.
    pub open spec fn has_surface_window(self, s: SurfaceId) -> bool {
        exists|i: int|
            0 <= i < self.windows@.len() && (#[trigger] self.windows@[i]).spec_wl_surface()
                == Some(s)
    }

    /// The registry index of the window owning this native surface.
    pub open spec fn surface_window_idx(self, s: SurfaceId) -> int {
        choose|i: int|
            0 <= i < self.windows@.len() && (#[trigger] self.windows@[i]).spec_wl_surface()
                == Some(s)
    }

    /// A surface owner's index is the one `surface_window_idx` picks.
    pub proof fn lemma_surface_window_idx(self, i: int)
        requires
            self.windows_wf(),
            0 <= i < self.windows@.len(),
            self.windows@[i].spec_wl_surface() is Some,
        ensures
            self.has_surface_window(self.windows@[i].spec_wl_surface()->0),
            self.surface_window_idx(self.windows@[i].spec_wl_surface()->0) == i,
    {
        let s = self.windows@[i].spec_wl_surface()->0;
        assert(self.has_surface_window(s));
        let j = self.surface_window_idx(s);
        if i < j {
            assert(self.windows@[i].spec_wl_surface() != self.windows@[j].spec_wl_surface());
        } else if j < i {
            assert(self.windows@[j].spec_wl_surface() != self.windows@[i].spec_wl_surface());
        }
    }

    /// Space entries name registered windows, at most once, at in-range
    /// locations.
    pub open spec fn space_wf(self) -> bool {
        &&& forall|i: int, j: int|
            0 <= i < j < self.space@.len() ==> (#[trigger] self.space@[i]).window != (
            #[trigger] self.space@[j]).window
        &&& forall|i: int|
            0 <= i < self.space@.len() ==> self.has_window((#[trigger] self.space@[i]).window)
        &&& forall|i: int| 0 <= i < self.space@.len() ==> (#[trigger] self.space@[i]).loc.in_range()
    }

    /// The Z-order stack holds exactly the windows of the Space mapping,
    /// without duplicates.
    pub open spec fn stack_wf(self) -> bool {
        &&& forall|i: int, j: int|
            0 <= i < j < self.z_index_stack@.len() ==> self.z_index_stack@[i] != self.z_index_stack@[j]
        &&& forall|i: int|
            0 <= i < self.z_index_stack@.len() ==> self.in_space(#[trigger] self.z_index_stack@[i])
        &&& forall|i: int|
            0 <= i < self.space@.len() ==> self.in_stack((#[trigger] self.space@[i]).window)
    }

    /// A window's `mapped` flag agrees with its presence in the Space.
    pub open spec fn mapped_wf(self) -> bool {
        forall|i: int|
            0 <= i < self.windows@.len() ==> ((#[trigger] self.windows@[i]).mapped <==> self.in_space(
                self.windows@[i].id,
            ))
    }

    /// Output names are unique; locations, sizes and layer-shell surface
    /// locations are in range.
    pub open spec fn outputs_wf(self) -> bool {
        &&& forall|i: int, j: int|
            0 <= i < j < self.outputs@.len() ==> (#[trigger] self.outputs@[i]).name != (
            #[trigger] self.outputs@[j]).name
        &&& forall|i: int|
            0 <= i < self.outputs@.len() ==> (#[trigger] self.outputs@[i]).loc.in_range() && (
            #[trigger] self.outputs@[i]).size.in_range()
        &&& forall|i: int, k: int|
            0 <= i < self.outputs@.len() && 0 <= k < (#[trigger] self.outputs@[i]).layer_surfaces@.len()
                ==> (#[trigger] self.outputs@[i].layer_surfaces@[k]).loc.in_range()
    }

    /// Tag ids are unique.
    pub open spec fn tags_wf(self) -> bool {
        forall|i: int, j: int|
            0 <= i < j < self.tags@.len() ==> (#[trigger] self.tags@[i]).id != (
            #[trigger] self.tags@[j]).id
    }

    /// Well-formedness of the whole model.
    pub open spec fn wf(self) -> bool {
        &&& self.windows_wf()
        &&& self.space_wf()
        &&& self.stack_wf()
        &&& self.mapped_wf()
        &&& self.outputs_wf()
        &&& self.tags_wf()
    }

    /// A registered window's index is the one `window_idx` picks.
    pub proof fn lemma_window_idx(self, i: int)
        requires
            self.windows_wf(),
            0 <= i < self.windows@.len(),
        ensures
            self.has_window(self.windows@[i].id),
            self.window_idx(self.windows@[i].id) == i,
            self.window_of(self.windows@[i].id) == self.windows@[i],
    {
        let id = self.windows@[i].id;
        assert(self.has_window(id));
        let j = self.window_idx(id);
        if i < j {
            assert(self.windows@[i].id != self.windows@[j].id);
        } else if j < i {
            assert(self.windows@[j].id != self.windows@[i].id);
        }
    }

    /// A Space entry's index is the one `space_idx` picks.
    pub proof fn lemma_space_idx(self, i: int)
        requires
            self.space_wf(),
            0 <= i < self.space@.len(),
        ensures
            self.in_space(self.space@[i].window),
            self.space_idx(self.space@[i].window) == i,
            self.spec_space_loc(self.space@[i].window) == self.space@[i].loc,
    {
        let id = self.space@[i].window;
        assert(self.in_space(id));
        let j = self.space_idx(id);
        if i < j {
            assert(self.space@[i].window != self.space@[j].window);
        } else if j < i {
            assert(self.space@[j].window != self.space@[i].window);
        }
    }

    /// Round-trip invariant: a window is present in the Space mapping iff it
    /// is present in the Z-order stack.
    pub proof fn lemma_space_stack_round_trip(self, id: WindowId)
        requires
            self.wf(),
        ensures
            self.in_space(id) <==> self.in_stack(id),
    {
        if self.in_space(id) {
            let i = choose|i: int|
                0 <= i < self.space@.len() && (#[trigger] self.space@[i]).window == id;
            assert(self.in_stack(self.space@[i].window));
        }
        if self.in_stack(id) {
            let i = choose|i: int|
                0 <= i < self.z_index_stack@.len() && self.z_index_stack@[i] == id;
            assert(self.in_space(self.z_index_stack@[i]));
        }
    }

    /// Finds the registry index of the window with this id.
    pub fn find_window(&self, id: WindowId) -> (r: Option<usize>)
        ensures
            match r {
                Some(i) => i < self.windows@.len() && self.windows@[i as int].id == id,
                None => !self.has_window(id),
            },
    {
        let mut i: usize = 0;
        while i < self.windows.len()
            invariant
                i <= self.windows@.len(),
                forall|k: int| 0 <= k < i ==> (#[trigger] self.windows@[k]).id != id,
            decreases self.windows@.len() - i,
        {
            if self.windows[i].id == id {
                return Some(i);
            }
            i = i + 1;
        }
        None
    }

    /// Finds the registry index of the first window whose native surface is
    /// the given one; this is how events addressed to a surface reach their
    /// window.
    pub fn window_for_surface(&self, surface: SurfaceId) -> (r: Option<usize>)
        ensures
            match r {
                Some(i) => {
                    &&& i < self.windows@.len()
                    &&& self.windows@[i as int].spec_wl_surface() == Some(surface)
                    &&& forall|k: int|
                        0 <= k < i ==> (#[trigger] self.windows@[k]).spec_wl_surface() != Some(
                            surface,
                        )
                },
                None => forall|k: int|
                    0 <= k < self.windows@.len() ==> (#[trigger] self.windows@[k]).spec_wl_surface()
                        != Some(surface),
            },
    {
        let mut i: usize = 0;
        while i < self.windows.len()
            invariant
                i <= self.windows@.len(),
                forall|k: int|
                    0 <= k < i ==> (#[trigger] self.windows@[k]).spec_wl_surface() != Some(surface),
            decreases self.windows@.len() - i,
        {
            let found = match self.windows[i].wl_surface() {
                Some(s) => s == surface,
                None => false,
            };
            if found {
                return Some(i);
            }
            i = i + 1;
        }
        None
    }

    /// Finds the Space index of this window's entry.
    pub fn space_index(&self, id: WindowId) -> (r: Option<usize>)
        ensures
            match r {
                Some(i) => i < self.space@.len() && self.space@[i as int].window == id,
                None => !self.in_space(id),
            },
    {
        let mut i: usize = 0;
        while i < self.space.len()
            invariant
                i <= self.space@.len(),
                forall|k: int| 0 <= k < i ==> (#[trigger] self.space@[k]).window != id,
            decreases self.space@.len() - i,
        {
            if self.space[i].window == id {
                return Some(i);
            }
            i = i + 1;
        }
        None
    }

    /// The location the Space mapping assigns to this window, if mapped.
    pub fn element_location(&self, id: WindowId) -> (r: Option<Point>)
        requires
            self.wf(),
        ensures
            r is Some <==> self.in_space(id),
            r matches Some(loc) ==> loc == self.spec_space_loc(id) && loc.in_range(),
    {
        match self.space_index(id) {
            Some(i) => {
                proof {
                    self.lemma_space_idx(i as int);
                }
                Some(self.space[i].loc)
            },
            None => None,
        }
    }

    /// Finds the Z-order index of this window.
    pub fn stack_index(&self, id: WindowId) -> (r: Option<usize>)
        ensures
            match r {
                Some(i) => i < self.z_index_stack@.len() && self.z_index_stack@[i as int] == id,
                None => !self.in_stack(id),
            },
    {
        let mut i: usize = 0;
        while i < self.z_index_stack.len()
            invariant
                i <= self.z_index_stack@.len(),
                forall|k: int| 0 <= k < i ==> self.z_index_stack@[k] != id,
            decreases self.z_index_stack@.len() - i,
        {
            if self.z_index_stack[i] == id {
                return Some(i);
            }
            i = i + 1;
        }
        None
    }

    /// Whether this tag id names an active tag.
    pub open spec fn spec_tag_active(self, tid: u32) -> bool {
        exists|i: int| 0 <= i < self.tags@.len() && (#[trigger] self.tags@[i]).id == tid
            && self.tags@[i].active
    }

    /// Whether a window sits on at least one active tag and is therefore
    /// visible.
    pub open spec fn spec_on_active_tag(self, w: Window) -> bool {
        exists|i: int| 0 <= i < w.tags@.len() && self.spec_tag_active(#[trigger] w.tags@[i])
    }

    /// Whether this tag id names an active tag.
    pub fn tag_is_active(&self, tid: u32) -> (r: bool)
        ensures
            r == self.spec_tag_active(tid),
    {
        let mut i: usize = 0;
        while i < self.tags.len()
            invariant
                i <= self.tags@.len(),
                forall|k: int|
                    0 <= k < i ==> !((#[trigger] self.tags@[k]).id == tid && self.tags@[k].active),
            decreases self.tags@.len() - i,
        {
            if self.tags[i].id == tid && self.tags[i].active {
                return true;
            }
            i = i + 1;
        }
        false
    }

    /// Whether the window at this registry index is on an active tag.
    pub fn is_on_active_tag(&self, wi: usize) -> (r: bool)
        requires
            wi < self.windows@.len(),
        ensures
            r == self.spec_on_active_tag(self.windows@[wi as int]),
    {
        let w = &self.windows[wi];
        let mut i: usize = 0;
        while i < w.tags.len()
            invariant
                i <= w.tags@.len(),
                w == self.windows@[wi as int],
                forall|k: int| 0 <= k < i ==> !self.spec_tag_active(#[trigger] w.tags@[k]),
            decreases w.tags@.len() - i,
        {
            if self.tag_is_active(w.tags[i]) {
                return true;
            }
            i = i + 1;
        }
        false
    }

    /// The Z-order index of this window.
    pub open spec fn stack_idx(self, id: WindowId) -> int {
        choose|i: int| 0 <= i < self.z_index_stack@.len() && self.z_index_stack@[i] == id
    }

    /// Outputs, tags, focus and connection state agree between two models.
    pub open spec fn same_aux(self, other: Pinnacle) -> bool {
        &&& self.outputs == other.outputs
        &&& self.tags == other.tags
        &&& self.focused_output == other.focused_output
        &&& self.xwm_active == other.xwm_active
    }

    /// A stack entry's index is the one `stack_idx` picks.
    pub proof fn lemma_stack_idx(self, i: int)
        requires
            self.stack_wf(),
            0 <= i < self.z_index_stack@.len(),
        ensures
            self.in_stack(self.z_index_stack@[i]),
            self.stack_idx(self.z_index_stack@[i]) == i,
    {
        let id = self.z_index_stack@[i];
        assert(self.in_stack(id));
        let j = self.stack_idx(id);
        if i < j {
            assert(self.z_index_stack@[i] != self.z_index_stack@[j]);
        } else if j < i {
            assert(self.z_index_stack@[j] != self.z_index_stack@[i]);
        }
    }

    /// Appends a fresh, unmapped window to the registry.
    pub fn insert_window(&mut self, w: Window)
        requires
            old(self).wf(),
            !old(self).has_window(w.id),
            w.spec_wl_surface() matches Some(s) ==> !old(self).has_surface_window(s),
            w.wf(),
            !w.mapped,
        ensures
            final(self).wf(),
            final(self).windows@ == old(self).windows@.push(w),
            final(self).has_window(w.id),
            final(self).window_of(w.id) == w,
            final(self).space == old(self).space,
            final(self).z_index_stack == old(self).z_index_stack,
            old(self).same_aux(*final(self)),
            forall|x: WindowId|
                x != w.id ==> (final(self).has_window(x) <==> old(self).has_window(x)),
            forall|x: WindowId|
                x != w.id && old(self).has_window(x) ==> final(self).window_of(x) == old(
                    self,
                ).window_of(x),
    {
        proof {
            assert forall|i: int|
                0 <= i < self.windows@.len() implies (#[trigger] self.windows@[i]).id != w.id by {
                if self.windows@[i].id == w.id {
                    assert(self.has_window(w.id));
                }
            }
        }
        self.windows.push(w);
        proof {
            let pre = *old(self);
            let n = pre.windows@.len() as int;
            assert(self.windows@ == pre.windows@.push(w));
            // id uniqueness: the new last element differs from every older one
            assert forall|i: int, j: int|
                0 <= i < j < self.windows@.len() implies (#[trigger] self.windows@[i]).id != (
            #[trigger] self.windows@[j]).id by {
                if j < n {
                    assert(pre.windows@[i].id != pre.windows@[j].id);
                }
            }
            // membership in space and stack is untouched
            assert(self.space@ == pre.space@);
            assert(self.z_index_stack@ == pre.z_index_stack@);
            assert forall|x: WindowId| self.in_space(x) == pre.in_space(x) by {
                if self.in_space(x) {
                    let i = choose|i: int|
                        0 <= i < self.space@.len() && (#[trigger] self.space@[i]).window == x;
                    assert(pre.space@[i].window == x);
                }
                if pre.in_space(x) {
                    let i = choose|i: int|
                        0 <= i < pre.space@.len() && (#[trigger] pre.space@[i]).window == x;
                    assert(self.space@[i].window == x);
                }
            }
            assert forall|x: WindowId| self.in_stack(x) == pre.in_stack(x) by {
                if self.in_stack(x) {
                    let i = choose|i: int|
                        0 <= i < self.z_index_stack@.len() && self.z_index_stack@[i] == x;
                    assert(pre.z_index_stack@[i] == x);
                }
                if pre.in_stack(x) {
                    let i = choose|i: int|
                        0 <= i < pre.z_index_stack@.len() && pre.z_index_stack@[i] == x;
                    assert(self.z_index_stack@[i] == x);
                }
            }
            // registry membership only grows
            assert forall|x: WindowId| pre.has_window(x) implies self.has_window(x) by {
                let i = choose|i: int|
                    0 <= i < pre.windows@.len() && (#[trigger] pre.windows@[i]).id == x;
                assert(self.windows@[i].id == x);
            }
            if pre.in_space(w.id) {
                let i = choose|i: int|
                    0 <= i < pre.space@.len() && (#[trigger] pre.space@[i]).window == w.id;
                assert(pre.has_window(pre.space@[i].window));
            }
            self.lemma_window_idx(n);
            assert forall|x: WindowId|
                x != w.id && pre.has_window(x) implies self.window_of(x) == pre.window_of(x) by {
                let i = choose|i: int|
                    0 <= i < pre.windows@.len() && (#[trigger] pre.windows@[i]).id == x;
                pre.lemma_window_idx(i);
                self.lemma_window_idx(i);
            }
            assert forall|x: WindowId|
                x != w.id && self.has_window(x) implies pre.has_window(x) by {
                let i = choose|i: int|
                    0 <= i < self.windows@.len() && (#[trigger] self.windows@[i]).id == x;
                assert(pre.windows@[i].id == x);
            }
        }
    }

    /// Maps a window into the Space at `loc` and keeps the Z-order stack
    /// consistent: a window new to the Space comes in at the front; an
    /// already-mapped one is raised only when `activate` holds. The window's
    /// `mapped` flag is set.
    #[verifier::rlimit(60)]
    pub fn map_element(&mut self, id: WindowId, loc: Point, activate: bool)
        requires
            old(self).wf(),
            old(self).has_window(id),
            loc.in_range(),
        ensures
            final(self).wf(),
            old(self).same_aux(*final(self)),
            // the Space entry for `id` is exactly `loc`; others keep theirs
            final(self).in_space(id),
            final(self).spec_space_loc(id) == loc,
            old(self).in_space(id) ==> final(self).space@ == old(self).space@.update(
                old(self).space_idx(id),
                SpaceEntry { window: id, loc },
            ),
            !old(self).in_space(id) ==> final(self).space@ == old(self).space@.push(
                SpaceEntry { window: id, loc },
            ),
            // Z-order: new windows and activated ones come in at the front
            final(self).in_stack(id),
            !old(self).in_stack(id) ==> final(self).z_index_stack@ == seq![id]
                + old(self).z_index_stack@,
            old(self).in_stack(id) && !activate ==> final(self).z_index_stack@ == old(
                self,
            ).z_index_stack@,
            old(self).in_stack(id) && activate ==> final(self).z_index_stack@ == seq![id] + old(
                self,
            ).z_index_stack@.remove(old(self).stack_idx(id)),
            activate ==> final(self).z_index_stack@.len() > 0 && final(self).z_index_stack@[0] == id,
            // the registry changes only in this window's `mapped` flag
            final(self).windows@ == old(self).windows@.update(
                old(self).window_idx(id),
                old(self).window_of(id).with_mapped(true),
            ),
            forall|x: WindowId| final(self).has_window(x) <==> old(self).has_window(x),
            forall|x: WindowId| x != id ==> (final(self).in_space(x) <==> old(self).in_space(x)),
            forall|x: WindowId|
                x != id && old(self).in_space(x) ==> final(self).spec_space_loc(x) == old(
                    self,
                ).spec_space_loc(x),
            forall|x: WindowId| final(self).in_stack(x) <==> (x == id || old(self).in_stack(x)),
    {
        let ghost pre = *old(self);
        // Space
        let entry = SpaceEntry { window: id, loc };
        match self.space_index(id) {
            Some(si) => {
                proof {
                    pre.lemma_space_idx(si as int);
                }
                self.space.set(si, entry);
            },
            None => {
                self.space.push(entry);
            },
        }
        let ghost mid1 = *self;
        proof {
            // Space uniqueness and per-window membership carry over
            assert forall|i: int, j: int|
                0 <= i < j < mid1.space@.len() implies (#[trigger] mid1.space@[i]).window != (
            #[trigger] mid1.space@[j]).window by {
                if pre.in_space(id) {
                    let si = pre.space_idx(id);
                    if i != si && j != si {
                        assert(pre.space@[i].window != pre.space@[j].window);
                    } else if i == si {
                        assert(pre.space@[j].window != id);
                    } else {
                        assert(pre.space@[i].window != id);
                    }
                } else {
                    if j < pre.space@.len() {
                        assert(pre.space@[i].window != pre.space@[j].window);
                    } else {
                        if mid1.space@[i].window == id {
                            assert(pre.in_space(id));
                        }
                    }
                }
            }
            assert(mid1.in_space(id)) by {
                if pre.in_space(id) {
                    assert(mid1.space@[pre.space_idx(id)].window == id);
                } else {
                    assert(mid1.space@[pre.space@.len() as int].window == id);
                }
            }
            assert forall|x: WindowId| x != id implies (mid1.in_space(x) == pre.in_space(x)) by {
                if mid1.in_space(x) {
                    let i = choose|i: int|
                        0 <= i < mid1.space@.len() && (#[trigger] mid1.space@[i]).window == x;
                    assert(pre.space@[i].window == x);
                    assert(pre.in_space(x));
                }
                if pre.in_space(x) {
                    let i = choose|i: int|
                        0 <= i < pre.space@.len() && (#[trigger] pre.space@[i]).window == x;
                    if pre.in_space(id) && i == pre.space_idx(id) {
                        assert(pre.space@[i].window == id);
                    } else {
                        assert(mid1.space@[i].window == x);
                        assert(mid1.in_space(x));
                    }
                }
            }
        }
        // Z-order stack
        match self.stack_index(id) {
            Some(j) => {
                proof {
                    pre.lemma_stack_idx(j as int);
                }
                if activate {
                    let x = self.z_index_stack.remove(j);
                    self.z_index_stack.insert(0, x);
                    proof {
                        assert(self.z_index_stack@ =~= seq![id] + pre.z_index_stack@.remove(
                            j as int,
                        ));
                    }
                }
            },
            None => {
                self.z_index_stack.insert(0, id);
                proof {
                    assert(self.z_index_stack@ =~= seq![id] + pre.z_index_stack@);
                }
            },
        }
        let ghost mid2 = *self;
        proof {
            // stack membership: exactly the old members plus `id`
            assert forall|x: WindowId| mid2.in_stack(x) <==> (x == id || pre.in_stack(x)) by {
                if mid2.in_stack(x) {
                    let i = choose|i: int|
                        0 <= i < mid2.z_index_stack@.len() && mid2.z_index_stack@[i] == x;
                    if !pre.in_stack(id) {
                        if i > 0 {
                            assert(pre.z_index_stack@[i - 1] == x);
                            assert(pre.in_stack(x));
                        }
                    } else if activate {
                        let j = pre.stack_idx(id);
                        if i > 0 {
                            let k = i - 1;
                            let shifted = pre.z_index_stack@.remove(j);
                            assert(shifted[k] == x);
                            if k < j {
                                assert(pre.z_index_stack@[k] == x);
                            } else {
                                assert(pre.z_index_stack@[k + 1] == x);
                            }
                            assert(pre.in_stack(x));
                        }
                    }
                }
                if x == id {
                    if pre.in_stack(id) && !activate {
                        assert(mid2.in_stack(id));
                    } else {
                        assert(mid2.z_index_stack@[0] == id);
                        assert(mid2.in_stack(id));
                    }
                }
                if pre.in_stack(x) && x != id {
                    let i = choose|i: int|
                        0 <= i < pre.z_index_stack@.len() && pre.z_index_stack@[i] == x;
                    if !pre.in_stack(id) {
                        assert(mid2.z_index_stack@[i + 1] == x);
                        assert(mid2.in_stack(x));
                    } else if activate {
                        let j = pre.stack_idx(id);
                        assert(i != j);
                        if i < j {
                            assert(mid2.z_index_stack@[i + 1] == x);
                        } else {
                            assert(mid2.z_index_stack@[i] == x);
                        }
                        assert(mid2.in_stack(x));
                    }
                }
            }
            // stack uniqueness
            assert forall|i: int, j: int|
                0 <= i < j < mid2.z_index_stack@.len() implies mid2.z_index_stack@[i]
                    != mid2.z_index_stack@[j] by {
                if !pre.in_stack(id) {
                    if i == 0 {
                        assert(pre.z_index_stack@[j - 1] == mid2.z_index_stack@[j]);
                        if mid2.z_index_stack@[j] == id {
                            assert(pre.in_stack(id));
                        }
                    } else {
                        assert(pre.z_index_stack@[i - 1] != pre.z_index_stack@[j - 1]);
                    }
                } else if activate {
                    let sj = pre.stack_idx(id);
                    let shifted = pre.z_index_stack@.remove(sj);
                    assert forall|k: int| 0 <= k < shifted.len() implies shifted[k] != id by {
                        if k < sj {
                            pre.lemma_stack_idx(k);
                        } else {
                            pre.lemma_stack_idx(k + 1);
                        }
                    }
                    if i == 0 {
                        assert(mid2.z_index_stack@[j] == shifted[j - 1]);
                    } else {
                        assert(mid2.z_index_stack@[i] == shifted[i - 1]);
                        assert(mid2.z_index_stack@[j] == shifted[j - 1]);
                        let ki = if i - 1 < sj { i - 1 } else { i };
                        let kj = if j - 1 < sj { j - 1 } else { j };
                        assert(shifted[i - 1] == pre.z_index_stack@[ki]);
                        assert(shifted[j - 1] == pre.z_index_stack@[kj]);
                        assert(ki < kj);
                    }
                }
            }
        }
        // Registry: set the mapped flag
        let wi = self.find_window(id).unwrap();
        proof {
            pre.lemma_window_idx(wi as int);
        }
        let mut w = self.windows.remove(wi);
        w.mapped = true;
        self.windows.insert(wi, w);
        proof {
            let fin = *self;
            assert(fin.windows@ =~= pre.windows@.update(
                pre.window_idx(id),
                pre.window_of(id).with_mapped(true),
            ));
            // ids unchanged position by position
            assert forall|i: int|
                0 <= i < fin.windows@.len() implies (#[trigger] fin.windows@[i]).id
                    == pre.windows@[i].id && fin.windows@[i].surface == pre.windows@[i].surface
                    && fin.windows@[i].wf() && (i != wi ==> fin.windows@[i]
                    == pre.windows@[i]) by {}
            assert forall|i: int, j: int|
                0 <= i < j < fin.windows@.len() && (#[trigger] fin.windows@[i]).spec_wl_surface()
                    is Some implies fin.windows@[i].spec_wl_surface() != (
            #[trigger] fin.windows@[j]).spec_wl_surface() by {
                assert(pre.windows@[i].spec_wl_surface() is Some ==> pre.windows@[
                    i
                ].spec_wl_surface() != pre.windows@[j].spec_wl_surface());
                assert(fin.windows@[i].spec_wl_surface() == pre.windows@[i].spec_wl_surface());
                assert(fin.windows@[j].spec_wl_surface() == pre.windows@[j].spec_wl_surface());
            }
            assert forall|x: WindowId| fin.has_window(x) <==> pre.has_window(x) by {
                if fin.has_window(x) {
                    let i = choose|i: int|
                        0 <= i < fin.windows@.len() && (#[trigger] fin.windows@[i]).id == x;
                    assert(pre.windows@[i].id == x);
                }
                if pre.has_window(x) {
                    let i = choose|i: int|
                        0 <= i < pre.windows@.len() && (#[trigger] pre.windows@[i]).id == x;
                    assert(fin.windows@[i].id == x);
                }
            }
            // space facts transfer from mid1 (space untouched since)
            assert(fin.space@ == mid1.space@);
            assert(fin.z_index_stack@ == mid2.z_index_stack@);
            assert forall|x: WindowId| fin.in_space(x) == mid1.in_space(x) by {}
            assert forall|x: WindowId| fin.in_stack(x) == mid2.in_stack(x) by {}
            // well-formedness of the result
            assert forall|i: int|
                0 <= i < fin.space@.len() implies fin.has_window(
                    (#[trigger] fin.space@[i]).window,
                ) by {
                if pre.in_space(id) {
                    let si = pre.space_idx(id);
                    if i != si {
                        assert(pre.has_window(pre.space@[i].window));
                    }
                } else {
                    if i < pre.space@.len() {
                        assert(pre.has_window(pre.space@[i].window));
                    }
                }
            }
            assert forall|i: int|
                0 <= i < fin.space@.len() implies (#[trigger] fin.space@[i]).loc.in_range() by {
                if pre.in_space(id) {
                    let si = pre.space_idx(id);
                    if i != si {
                        assert(pre.space@[i].loc.in_range());
                    }
                } else {
                    if i < pre.space@.len() {
                        assert(pre.space@[i].loc.in_range());
                    }
                }
            }
            assert forall|i: int|
                0 <= i < fin.z_index_stack@.len() implies fin.in_space(
                    #[trigger] fin.z_index_stack@[i],
                ) by {
                assert(mid2.in_stack(fin.z_index_stack@[i]));
            }
            assert forall|i: int|
                0 <= i < fin.space@.len() implies fin.in_stack(
                    (#[trigger] fin.space@[i]).window,
                ) by {
                let x = fin.space@[i].window;
                assert(mid1.in_space(x));
                if x != id {
                    assert(pre.in_space(x));
                    let k = choose|k: int|
                        0 <= k < pre.space@.len() && (#[trigger] pre.space@[k]).window == x;
                    assert(pre.in_stack(pre.space@[k].window));
                }
            }
            assert forall|i: int|
                0 <= i < fin.windows@.len() implies ((#[trigger] fin.windows@[i]).mapped
                    <==> fin.in_space(fin.windows@[i].id)) by {
                let x = fin.windows@[i].id;
                if i == wi {
                    assert(fin.windows@[i].mapped);
                    assert(fin.in_space(id));
                } else {
                    assert(fin.windows@[i] == pre.windows@[i]);
                    assert(x != id) by {
                        if x == id {
                            pre.lemma_window_idx(i);
                        }
                    }
                    assert(pre.windows@[i].mapped <==> pre.in_space(x));
                }
            }
            // the Space location now recorded for `id`
            assert(fin.spec_space_loc(id) == loc) by {
                let i = if pre.in_space(id) {
                    pre.space_idx(id)
                } else {
                    pre.space@.len() as int
                };
                assert(fin.space@[i].window == id);
                fin.lemma_space_idx(i);
            }
            assert forall|x: WindowId|
                x != id && pre.in_space(x) implies fin.spec_space_loc(x) == pre.spec_space_loc(
                    x,
                ) by {
                let i = choose|i: int|
                    0 <= i < pre.space@.len() && (#[trigger] pre.space@[i]).window == x;
                pre.lemma_space_idx(i);
                assert(fin.space@[i].window == x);
                fin.lemma_space_idx(i);
            }
        }
    }

    /// Raises a mapped window to the front of the Z-order stack. A window
    /// not in the stack is left alone.
    pub fn raise_window(&mut self, id: WindowId)
        requires
            old(self).wf(),
        ensures
            final(self).wf(),
            final(self).windows == old(self).windows,
            final(self).space == old(self).space,
            old(self).same_aux(*final(self)),
            forall|x: WindowId| final(self).in_stack(x) <==> old(self).in_stack(x),
            old(self).in_stack(id) ==> final(self).z_index_stack@ == seq![id] + old(
                self,
            ).z_index_stack@.remove(old(self).stack_idx(id)),
            old(self).in_stack(id) ==> final(self).z_index_stack@[0] == id,
            !old(self).in_stack(id) ==> final(self).z_index_stack@ == old(self).z_index_stack@,
    {
        let ghost pre = *old(self);
        match self.stack_index(id) {
            Some(j) => {
                proof {
                    pre.lemma_stack_idx(j as int);
                }
                let x = self.z_index_stack.remove(j);
                self.z_index_stack.insert(0, x);
                proof {
                    assert(self.z_index_stack@ =~= seq![id] + pre.z_index_stack@.remove(j as int));
                    let shifted = pre.z_index_stack@.remove(j as int);
                    assert forall|k: int| 0 <= k < shifted.len() implies shifted[k] != id by {
                        if k < j {
                            pre.lemma_stack_idx(k);
                        } else {
                            pre.lemma_stack_idx(k + 1);
                        }
                    }
                    assert forall|x2: WindowId|
                        self.in_stack(x2) <==> pre.in_stack(x2) by {
                        if self.in_stack(x2) {
                            let i = choose|i: int|
                                0 <= i < self.z_index_stack@.len() && self.z_index_stack@[i] == x2;
                            if i == 0 {
                                assert(pre.in_stack(id));
                            } else {
                                let k = i - 1;
                                if k < j {
                                    assert(pre.z_index_stack@[k] == x2);
                                } else {
                                    assert(pre.z_index_stack@[k + 1] == x2);
                                }
                                assert(pre.in_stack(x2));
                            }
                        }
                        if pre.in_stack(x2) {
                            if x2 == id {
                                assert(self.z_index_stack@[0] == id);
                                assert(self.in_stack(id));
                            } else {
                                let i = choose|i: int|
                                    0 <= i < pre.z_index_stack@.len() && pre.z_index_stack@[i]
                                        == x2;
                                assert(i != j);
                                if i < j {
                                    assert(self.z_index_stack@[i + 1] == x2);
                                } else {
                                    assert(self.z_index_stack@[i] == x2);
                                }
                                assert(self.in_stack(x2));
                            }
                        }
                    }
                    assert forall|a: int, b: int|
                        0 <= a < b < self.z_index_stack@.len() implies self.z_index_stack@[a]
                            != self.z_index_stack@[b] by {
                        if a == 0 {
                            assert(self.z_index_stack@[b] == shifted[b - 1]);
                        } else {
                            let ka = if a - 1 < j { a - 1 } else { a };
                            let kb = if b - 1 < j { b - 1 } else { b };
                            assert(shifted[a - 1] == pre.z_index_stack@[ka]);
                            assert(shifted[b - 1] == pre.z_index_stack@[kb]);
                            assert(ka < kb);
                        }
                    }
                    assert forall|i: int|
                        0 <= i < self.z_index_stack@.len() implies self.in_space(
                            #[trigger] self.z_index_stack@[i],
                        ) by {
                        assert(pre.in_stack(self.z_index_stack@[i]));
                        let k = choose|k: int|
                            0 <= k < pre.z_index_stack@.len() && pre.z_index_stack@[k]
                                == self.z_index_stack@[i];
                        assert(pre.in_space(pre.z_index_stack@[k]));
                    }
                    assert forall|i: int|
                        0 <= i < self.space@.len() implies self.in_stack(
                            (#[trigger] self.space@[i]).window,
                        ) by {
                        assert(pre.in_stack(pre.space@[i].window));
                    }
                    assert forall|i: int|
                        0 <= i < self.windows@.len() implies ((#[trigger] self.windows@[i]).mapped
                            <==> self.in_space(self.windows@[i].id)) by {
                        assert(pre.windows@[i].mapped <==> pre.in_space(pre.windows@[i].id));
                    }
                }
            },
            None => {},
        }
    }

    /// Removes a window from the registry, the Space mapping and the Z-order
    /// stack, atomically with respect to everything that reads the model: no
    /// caller can observe a half-removed window.
    #[verifier::rlimit(80)]
    pub fn remove_window(&mut self, id: WindowId)
        requires
            old(self).wf(),
        ensures
            final(self).wf(),
            old(self).same_aux(*final(self)),
            !final(self).has_window(id),
            !final(self).in_space(id),
            !final(self).in_stack(id),
            forall|x: WindowId| x != id ==> (final(self).has_window(x) <==> old(self).has_window(x)),
            forall|x: WindowId|
                x != id && old(self).has_window(x) ==> final(self).window_of(x) == old(
                    self,
                ).window_of(x),
            forall|x: WindowId| x != id ==> (final(self).in_space(x) <==> old(self).in_space(x)),
            forall|x: WindowId|
                x != id && old(self).in_space(x) ==> final(self).spec_space_loc(x) == old(
                    self,
                ).spec_space_loc(x),
            forall|x: WindowId| x != id ==> (final(self).in_stack(x) <==> old(self).in_stack(x)),
    {
        let ghost pre = *old(self);
        let wi_opt = self.find_window(id);
        match wi_opt {
            Some(wi) => {
                proof {
                    pre.lemma_window_idx(wi as int);
                }
                let _ = self.windows.remove(wi);
            },
            None => {},
        }
        let ghost mid1 = *self;
        proof {
            // registry: `id` gone, every other id kept at a shifted index
            if pre.has_window(id) {
                let wi = pre.window_idx(id);
                assert forall|i: int|
                    0 <= i < mid1.windows@.len() implies (#[trigger] mid1.windows@[i]).id != id
                        && mid1.windows@[i].wf() by {
                    if i < wi {
                        assert(mid1.windows@[i] == pre.windows@[i]);
                        pre.lemma_window_idx(i);
                    } else {
                        assert(mid1.windows@[i] == pre.windows@[i + 1]);
                        pre.lemma_window_idx(i + 1);
                    }
                }
                assert forall|a: int, b: int|
                    0 <= a < b < mid1.windows@.len() implies (#[trigger] mid1.windows@[a]).id != (
                #[trigger] mid1.windows@[b]).id by {
                    let ka = if a < wi { a } else { a + 1 };
                    let kb = if b < wi { b } else { b + 1 };
                    assert(mid1.windows@[a] == pre.windows@[ka]);
                    assert(mid1.windows@[b] == pre.windows@[kb]);
                    assert(ka < kb);
                }
                assert forall|a: int, b: int|
                    0 <= a < b < mid1.windows@.len() && (#[trigger] mid1.windows@[
                    a
                ]).spec_wl_surface() is Some implies mid1.windows@[a].spec_wl_surface() != (
                #[trigger] mid1.windows@[b]).spec_wl_surface() by {
                    let ka = if a < wi { a } else { a + 1 };
                    let kb = if b < wi { b } else { b + 1 };
                    assert(mid1.windows@[a] == pre.windows@[ka]);
                    assert(mid1.windows@[b] == pre.windows@[kb]);
                    assert(ka < kb);
                }
            } else {
                assert(mid1.windows@ == pre.windows@);
            }
            assert(!mid1.has_window(id)) by {
                if mid1.has_window(id) {
                    let i = choose|i: int|
                        0 <= i < mid1.windows@.len() && (#[trigger] mid1.windows@[i]).id == id;
                    if pre.has_window(id) {
                        let wi = pre.window_idx(id);
                        if i < wi {
                            pre.lemma_window_idx(i);
                        } else {
                            pre.lemma_window_idx(i + 1);
                        }
                    } else {
                        assert(pre.windows@[i].id == id);
                    }
                }
            }
            assert forall|x: WindowId|
                x != id implies (mid1.has_window(x) <==> pre.has_window(x)) by {
                if mid1.has_window(x) {
                    let i = choose|i: int|
                        0 <= i < mid1.windows@.len() && (#[trigger] mid1.windows@[i]).id == x;
                    if pre.has_window(id) {
                        let wi = pre.window_idx(id);
                        let k = if i < wi { i } else { i + 1 };
                        assert(pre.windows@[k].id == x);
                    } else {
                        assert(pre.windows@[i].id == x);
                    }
                }
                if pre.has_window(x) {
                    let i = choose|i: int|
                        0 <= i < pre.windows@.len() && (#[trigger] pre.windows@[i]).id == x;
                    if pre.has_window(id) {
                        let wi = pre.window_idx(id);
                        assert(i != wi);
                        if i < wi {
                            assert(mid1.windows@[i].id == x);
                        } else {
                            assert(mid1.windows@[i - 1].id == x);
                        }
                    } else {
                        assert(mid1.windows@[i].id == x);
                    }
                }
            }
            assert forall|x: WindowId|
                x != id && pre.has_window(x) implies mid1.window_of(x) == pre.window_of(x) by {
                let i = choose|i: int|
                    0 <= i < pre.windows@.len() && (#[trigger] pre.windows@[i]).id == x;
                pre.lemma_window_idx(i);
                if pre.has_window(id) {
                    let wi = pre.window_idx(id);
                    assert(i != wi);
                    if i < wi {
                        assert(mid1.windows@[i] == pre.windows@[i]);
                        mid1.lemma_window_idx(i);
                    } else {
                        assert(mid1.windows@[i - 1] == pre.windows@[i]);
                        mid1.lemma_window_idx(i - 1);
                    }
                } else {
                    mid1.lemma_window_idx(i);
                }
            }
        }
        // Space
        let si_opt = self.space_index(id);
        match si_opt {
            Some(si) => {
                proof {
                    pre.lemma_space_idx(si as int);
                }
                let _ = self.space.remove(si);
            },
            None => {},
        }
        let ghost mid2 = *self;
        proof {
            assert(mid2.windows@ == mid1.windows@);
            if pre.in_space(id) {
                let si = pre.space_idx(id);
                assert forall|i: int|
                    0 <= i < mid2.space@.len() implies (#[trigger] mid2.space@[i]).window != id
                        && mid2.space@[i].loc.in_range() by {
                    if i < si {
                        assert(mid2.space@[i] == pre.space@[i]);
                        pre.lemma_space_idx(i);
                    } else {
                        assert(mid2.space@[i] == pre.space@[i + 1]);
                        pre.lemma_space_idx(i + 1);
                    }
                }
                assert forall|a: int, b: int|
                    0 <= a < b < mid2.space@.len() implies (#[trigger] mid2.space@[a]).window != (
                #[trigger] mid2.space@[b]).window by {
                    let ka = if a < si { a } else { a + 1 };
                    let kb = if b < si { b } else { b + 1 };
                    assert(mid2.space@[a] == pre.space@[ka]);
                    assert(mid2.space@[b] == pre.space@[kb]);
                    assert(ka < kb);
                }
            } else {
                assert(mid2.space@ == pre.space@);
            }
            assert(!mid2.in_space(id)) by {
                if mid2.in_space(id) {
                    let i = choose|i: int|
                        0 <= i < mid2.space@.len() && (#[trigger] mid2.space@[i]).window == id;
                    if !pre.in_space(id) {
                        assert(pre.space@[i].window == id);
                    }
                }
            }
            assert forall|x: WindowId|
                x != id implies (mid2.in_space(x) <==> pre.in_space(x)) by {
                if mid2.in_space(x) {
                    let i = choose|i: int|
                        0 <= i < mid2.space@.len() && (#[trigger] mid2.space@[i]).window == x;
                    if pre.in_space(id) {
                        let si = pre.space_idx(id);
                        let k = if i < si { i } else { i + 1 };
                        assert(pre.space@[k].window == x);
                    } else {
                        assert(pre.space@[i].window == x);
                    }
                }
                if pre.in_space(x) {
                    let i = choose|i: int|
                        0 <= i < pre.space@.len() && (#[trigger] pre.space@[i]).window == x;
                    if pre.in_space(id) {
                        let si = pre.space_idx(id);
                        assert(i != si);
                        if i < si {
                            assert(mid2.space@[i].window == x);
                        } else {
                            assert(mid2.space@[i - 1].window == x);
                        }
                    } else {
                        assert(mid2.space@[i].window == x);
                    }
                }
            }
            assert forall|x: WindowId|
                x != id && pre.in_space(x) implies mid2.spec_space_loc(x) == pre.spec_space_loc(
                    x,
                ) by {
                let i = choose|i: int|
                    0 <= i < pre.space@.len() && (#[trigger] pre.space@[i]).window == x;
                pre.lemma_space_idx(i);
                if pre.in_space(id) {
                    let si = pre.space_idx(id);
                    assert(i != si);
                    if i < si {
                        assert(mid2.space@[i] == pre.space@[i]);
                        mid2.lemma_space_idx(i);
                    } else {
                        assert(mid2.space@[i - 1] == pre.space@[i]);
                        mid2.lemma_space_idx(i - 1);
                    }
                } else {
                    mid2.lemma_space_idx(i);
                }
            }
        }
        // Z-order stack
        let sti_opt = self.stack_index(id);
        match sti_opt {
            Some(j) => {
                proof {
                    pre.lemma_stack_idx(j as int);
                }
                let _ = self.z_index_stack.remove(j);
            },
            None => {},
        }
        proof {
            let fin = *self;
            assert(fin.windows@ == mid1.windows@);
            assert(fin.space@ == mid2.space@);
            if pre.in_stack(id) {
                let j = pre.stack_idx(id);
                assert forall|i: int|
                    0 <= i < fin.z_index_stack@.len() implies fin.z_index_stack@[i] != id by {
                    if i < j {
                        pre.lemma_stack_idx(i);
                    } else {
                        pre.lemma_stack_idx(i + 1);
                    }
                }
                assert forall|a: int, b: int|
                    0 <= a < b < fin.z_index_stack@.len() implies fin.z_index_stack@[a]
                        != fin.z_index_stack@[b] by {
                    let ka = if a < j { a } else { a + 1 };
                    let kb = if b < j { b } else { b + 1 };
                    assert(fin.z_index_stack@[a] == pre.z_index_stack@[ka]);
                    assert(fin.z_index_stack@[b] == pre.z_index_stack@[kb]);
                    assert(ka < kb);
                }
            } else {
                assert(fin.z_index_stack@ == pre.z_index_stack@);
            }
            assert(!fin.in_stack(id)) by {
                if fin.in_stack(id) {
                    let i = choose|i: int|
                        0 <= i < fin.z_index_stack@.len() && fin.z_index_stack@[i] == id;
                    if !pre.in_stack(id) {
                        assert(pre.z_index_stack@[i] == id);
                    }
                }
            }
            assert forall|x: WindowId|
                x != id implies (fin.in_stack(x) <==> pre.in_stack(x)) by {
                if fin.in_stack(x) {
                    let i = choose|i: int|
                        0 <= i < fin.z_index_stack@.len() && fin.z_index_stack@[i] == x;
                    if pre.in_stack(id) {
                        let j = pre.stack_idx(id);
                        let k = if i < j { i } else { i + 1 };
                        assert(pre.z_index_stack@[k] == x);
                    } else {
                        assert(pre.z_index_stack@[i] == x);
                    }
                }
                if pre.in_stack(x) {
                    let i = choose|i: int|
                        0 <= i < pre.z_index_stack@.len() && pre.z_index_stack@[i] == x;
                    if pre.in_stack(id) {
                        let j = pre.stack_idx(id);
                        assert(i != j);
                        if i < j {
                            assert(fin.z_index_stack@[i] == x);
                        } else {
                            assert(fin.z_index_stack@[i - 1] == x);
                        }
                    } else {
                        assert(fin.z_index_stack@[i] == x);
                    }
                }
            }
            // consistency between space and registry was kept: no entry names
            // the removed window, and surviving entries name surviving windows
            assert forall|i: int|
                0 <= i < fin.space@.len() implies fin.has_window(
                    (#[trigger] fin.space@[i]).window,
                ) by {
                let x = fin.space@[i].window;
                assert(mid2.in_space(x));
                assert(x != id);
                assert(pre.in_space(x));
                let k = choose|k: int|
                    0 <= k < pre.space@.len() && (#[trigger] pre.space@[k]).window == x;
                assert(pre.has_window(pre.space@[k].window));
            }
            assert forall|i: int|
                0 <= i < fin.z_index_stack@.len() implies fin.in_space(
                    #[trigger] fin.z_index_stack@[i],
                ) by {
                let x = fin.z_index_stack@[i];
                assert(fin.in_stack(x));
                assert(x != id);
                assert(pre.in_stack(x));
                let k = choose|k: int|
                    0 <= k < pre.z_index_stack@.len() && pre.z_index_stack@[k] == x;
                assert(pre.in_space(pre.z_index_stack@[k]));
            }
            assert forall|i: int|
                0 <= i < fin.space@.len() implies fin.in_stack(
                    (#[trigger] fin.space@[i]).window,
                ) by {
                let x = fin.space@[i].window;
                assert(mid2.in_space(x));
                assert(x != id);
                assert(pre.in_space(x));
                let k = choose|k: int|
                    0 <= k < pre.space@.len() && (#[trigger] pre.space@[k]).window == x;
                assert(pre.in_stack(pre.space@[k].window));
            }
            assert forall|i: int|
                0 <= i < fin.windows@.len() implies ((#[trigger] fin.windows@[i]).mapped
                    <==> fin.in_space(fin.windows@[i].id)) by {
                let x = fin.windows@[i].id;
                assert(mid1.has_window(mid1.windows@[i].id)) by {
                    assert(mid1.windows@[i].id == x);
                }
                assert(x != id);
                if pre.has_window(id) {
                    let wi = pre.window_idx(id);
                    let k = if i < wi { i } else { i + 1 };
                    assert(fin.windows@[i] == pre.windows@[k]);
                    assert(pre.windows@[k].mapped <==> pre.in_space(pre.windows@[k].id));
                } else {
                    assert(fin.windows@[i] == pre.windows@[i]);
                    assert(pre.windows@[i].mapped <==> pre.in_space(pre.windows@[i].id));
                }
            }
        }
    }

    /// Replacing one window with another of the same id and `mapped` flag
    /// preserves well-formedness and every membership fact.
    pub proof fn lemma_update_window(pre: Pinnacle, post: Pinnacle, wi: int, w: Window)
        requires
            pre.wf(),
            0 <= wi < pre.windows@.len(),
            w.id == pre.windows@[wi].id,
            w.surface == pre.windows@[wi].surface,
            w.wf(),
            w.mapped == pre.windows@[wi].mapped,
            post.windows@ == pre.windows@.update(wi, w),
            post.z_index_stack == pre.z_index_stack,
            post.space == pre.space,
            pre.same_aux(post),
        ensures
            post.wf(),
            forall|x: WindowId| post.has_window(x) <==> pre.has_window(x),
            forall|x: WindowId| post.in_space(x) <==> pre.in_space(x),
            forall|x: WindowId|
                pre.in_space(x) ==> post.spec_space_loc(x) == pre.spec_space_loc(x),
            forall|x: WindowId| post.in_stack(x) <==> pre.in_stack(x),
            post.window_idx(w.id) == wi,
            post.window_of(w.id) == w,
            forall|x: WindowId|
                x != w.id && pre.has_window(x) ==> post.window_of(x) == pre.window_of(x),
    {
        assert forall|i: int|
            0 <= i < post.windows@.len() implies (#[trigger] post.windows@[i]).id
                == pre.windows@[i].id && post.windows@[i].wf() && post.windows@[i].mapped
                == pre.windows@[i].mapped by {}
        assert forall|x: WindowId| post.has_window(x) <==> pre.has_window(x) by {
            if post.has_window(x) {
                let i = choose|i: int|
                    0 <= i < post.windows@.len() && (#[trigger] post.windows@[i]).id == x;
                assert(pre.windows@[i].id == x);
            }
            if pre.has_window(x) {
                let i = choose|i: int|
                    0 <= i < pre.windows@.len() && (#[trigger] pre.windows@[i]).id == x;
                assert(post.windows@[i].id == x);
            }
        }
        assert forall|x: WindowId| post.in_space(x) <==> pre.in_space(x) by {
            if post.in_space(x) {
                let i = choose|i: int|
                    0 <= i < post.space@.len() && (#[trigger] post.space@[i]).window == x;
                assert(pre.space@[i].window == x);
            }
            if pre.in_space(x) {
                let i = choose|i: int|
                    0 <= i < pre.space@.len() && (#[trigger] pre.space@[i]).window == x;
                assert(post.space@[i].window == x);
            }
        }
        assert forall|x: WindowId| post.in_stack(x) <==> pre.in_stack(x) by {
            if post.in_stack(x) {
                let i = choose|i: int|
                    0 <= i < post.z_index_stack@.len() && post.z_index_stack@[i] == x;
                assert(pre.z_index_stack@[i] == x);
            }
            if pre.in_stack(x) {
                let i = choose|i: int|
                    0 <= i < pre.z_index_stack@.len() && pre.z_index_stack@[i] == x;
                assert(post.z_index_stack@[i] == x);
            }
        }
        assert forall|x: WindowId|
            pre.in_space(x) implies post.spec_space_loc(x) == pre.spec_space_loc(x) by {
            let i = choose|i: int|
                0 <= i < pre.space@.len() && (#[trigger] pre.space@[i]).window == x;
            pre.lemma_space_idx(i);
            assert(post.space@[i].window == x);
            post.lemma_space_idx(i);
        }
        assert forall|i: int|
            0 <= i < post.space@.len() implies post.has_window(
                (#[trigger] post.space@[i]).window,
            ) by {
            assert(pre.has_window(pre.space@[i].window));
        }
        assert forall|i: int|
            0 <= i < post.z_index_stack@.len() implies post.in_space(
                #[trigger] post.z_index_stack@[i],
            ) by {
            assert(pre.in_space(pre.z_index_stack@[i]));
        }
        assert forall|i: int|
            0 <= i < post.space@.len() implies post.in_stack(
                (#[trigger] post.space@[i]).window,
            ) by {
            assert(pre.in_stack(pre.space@[i].window));
        }
        assert forall|i: int|
            0 <= i < post.windows@.len() implies ((#[trigger] post.windows@[i]).mapped
                <==> post.in_space(post.windows@[i].id)) by {
            assert(pre.windows@[i].mapped <==> pre.in_space(pre.windows@[i].id));
        }
        post.lemma_window_idx(wi);
        assert forall|x: WindowId|
            x != w.id && pre.has_window(x) implies post.window_of(x) == pre.window_of(x) by {
            let i = choose|i: int|
                0 <= i < pre.windows@.len() && (#[trigger] pre.windows@[i]).id == x;
            pre.lemma_window_idx(i);
            assert(post.windows@[i].id == x);
            post.lemma_window_idx(i);
        }
    }

    /// Sets the resize-commit state of the window at registry index `wi`.
    pub fn set_resize_state(&mut self, wi: usize, rs: crate::resize_grab::ResizeSurfaceState)
        requires
            old(self).wf(),
            wi < old(self).windows@.len(),
            rs.payload_in_range(),
        ensures
            final(self).wf(),
            final(self).windows@ == old(self).windows@.update(
                wi as int,
                Window { resize_state: rs, ..old(self).windows@[wi as int] },
            ),
            final(self).space == old(self).space,
            final(self).z_index_stack == old(self).z_index_stack,
            old(self).same_aux(*final(self)),
            forall|x: WindowId| final(self).has_window(x) <==> old(self).has_window(x),
            forall|x: WindowId| final(self).in_space(x) <==> old(self).in_space(x),
            forall|x: WindowId|
                old(self).in_space(x) ==> final(self).spec_space_loc(x) == old(
                    self,
                ).spec_space_loc(x),
            forall|x: WindowId| final(self).in_stack(x) <==> old(self).in_stack(x),
    {
        let ghost pre = *old(self);
        let mut w = self.windows.remove(wi);
        w.resize_state = rs;
        self.windows.insert(wi, w);
        proof {
            assert(self.windows@ =~= pre.windows@.update(
                wi as int,
                Window { resize_state: rs, ..pre.windows@[wi as int] },
            ));
            Self::lemma_update_window(
                pre,
                *self,
                wi as int,
                Window { resize_state: rs, ..pre.windows@[wi as int] },
            );
        }
    }

    /// Sets the floating size of the window at registry index `wi`.
    pub fn set_floating_size(&mut self, wi: usize, sz: Option<Size>)
        requires
            old(self).wf(),
            wi < old(self).windows@.len(),
        ensures
            final(self).wf(),
            final(self).windows@ == old(self).windows@.update(
                wi as int,
                Window { floating_size: sz, ..old(self).windows@[wi as int] },
            ),
            final(self).space == old(self).space,
            final(self).z_index_stack == old(self).z_index_stack,
            old(self).same_aux(*final(self)),
            forall|x: WindowId| final(self).has_window(x) <==> old(self).has_window(x),
            forall|x: WindowId| final(self).in_space(x) <==> old(self).in_space(x),
            forall|x: WindowId|
                old(self).in_space(x) ==> final(self).spec_space_loc(x) == old(
                    self,
                ).spec_space_loc(x),
            forall|x: WindowId| final(self).in_stack(x) <==> old(self).in_stack(x),
    {
        let ghost pre = *old(self);
        let mut w = self.windows.remove(wi);
        w.floating_size = sz;
        self.windows.insert(wi, w);
        proof {
            assert(self.windows@ =~= pre.windows@.update(
                wi as int,
                Window { floating_size: sz, ..pre.windows@[wi as int] },
            ));
            Self::lemma_update_window(
                pre,
                *self,
                wi as int,
                Window { floating_size: sz, ..pre.windows@[wi as int] },
            );
        }
    }

    /// Sets the floating location of the window at registry index `wi`.
    pub fn set_floating_loc(&mut self, wi: usize, p: Option<Point>)
        requires
            old(self).wf(),
            wi < old(self).windows@.len(),
            p matches Some(q) ==> q.in_range(),
        ensures
            final(self).wf(),
            final(self).windows@ == old(self).windows@.update(
                wi as int,
                Window { floating_loc: p, ..old(self).windows@[wi as int] },
            ),
            final(self).space == old(self).space,
            final(self).z_index_stack == old(self).z_index_stack,
            old(self).same_aux(*final(self)),
            forall|x: WindowId| final(self).has_window(x) <==> old(self).has_window(x),
            forall|x: WindowId| final(self).in_space(x) <==> old(self).in_space(x),
            forall|x: WindowId|
                old(self).in_space(x) ==> final(self).spec_space_loc(x) == old(
                    self,
                ).spec_space_loc(x),
            forall|x: WindowId| final(self).in_stack(x) <==> old(self).in_stack(x),
    {
        let ghost pre = *old(self);
        let mut w = self.windows.remove(wi);
        w.floating_loc = p;
        self.windows.insert(wi, w);
        proof {
            assert(self.windows@ =~= pre.windows@.update(
                wi as int,
                Window { floating_loc: p, ..pre.windows@[wi as int] },
            ));
            Self::lemma_update_window(
                pre,
                *self,
                wi as int,
                Window { floating_loc: p, ..pre.windows@[wi as int] },
            );
        }
    }

    /// Sets the maximized flag of the window at registry index `wi`.
    pub fn set_maximized(&mut self, wi: usize, v: bool)
        requires
            old(self).wf(),
            wi < old(self).windows@.len(),
        ensures
            final(self).wf(),
            final(self).windows@ == old(self).windows@.update(
                wi as int,
                Window { maximized: v, ..old(self).windows@[wi as int] },
            ),
            final(self).space == old(self).space,
            final(self).z_index_stack == old(self).z_index_stack,
            old(self).same_aux(*final(self)),
            forall|x: WindowId| final(self).has_window(x) <==> old(self).has_window(x),
    {
        let ghost pre = *old(self);
        let mut w = self.windows.remove(wi);
        w.maximized = v;
        self.windows.insert(wi, w);
        proof {
            assert(self.windows@ =~= pre.windows@.update(
                wi as int,
                Window { maximized: v, ..pre.windows@[wi as int] },
            ));
            Self::lemma_update_window(
                pre,
                *self,
                wi as int,
                Window { maximized: v, ..pre.windows@[wi as int] },
            );
        }
    }

    /// Sets the fullscreen flag of the window at registry index `wi`.
    pub fn set_fullscreen(&mut self, wi: usize, v: bool)
        requires
            old(self).wf(),
            wi < old(self).windows@.len(),
        ensures
            final(self).wf(),
            final(self).windows@ == old(self).windows@.update(
                wi as int,
                Window { fullscreen: v, ..old(self).windows@[wi as int] },
            ),
            final(self).space == old(self).space,
            final(self).z_index_stack == old(self).z_index_stack,
            old(self).same_aux(*final(self)),
            forall|x: WindowId| final(self).has_window(x) <==> old(self).has_window(x),
    {
        let ghost pre = *old(self);
        let mut w = self.windows.remove(wi);
        w.fullscreen = v;
        self.windows.insert(wi, w);
        proof {
            assert(self.windows@ =~= pre.windows@.update(
                wi as int,
                Window { fullscreen: v, ..pre.windows@[wi as int] },
            ));
            Self::lemma_update_window(
                pre,
                *self,
                wi as int,
                Window { fullscreen: v, ..pre.windows@[wi as int] },
            );
        }
    }

    /// Sets the committed geometry of the window at registry index `wi`.
    pub fn set_geometry(&mut self, wi: usize, g: crate::geometry::Rect)
        requires
            old(self).wf(),
            wi < old(self).windows@.len(),
            g.in_range(),
        ensures
            final(self).wf(),
            final(self).windows@ == old(self).windows@.update(
                wi as int,
                Window { geometry: g, ..old(self).windows@[wi as int] },
            ),
            final(self).space == old(self).space,
            final(self).z_index_stack == old(self).z_index_stack,
            old(self).same_aux(*final(self)),
            forall|x: WindowId| final(self).has_window(x) <==> old(self).has_window(x),
            forall|x: WindowId| final(self).in_space(x) <==> old(self).in_space(x),
            forall|x: WindowId|
                old(self).in_space(x) ==> final(self).spec_space_loc(x) == old(
                    self,
                ).spec_space_loc(x),
    {
        let ghost pre = *old(self);
        let mut w = self.windows.remove(wi);
        w.geometry = g;
        self.windows.insert(wi, w);
        proof {
            assert(self.windows@ =~= pre.windows@.update(
                wi as int,
                Window { geometry: g, ..pre.windows@[wi as int] },
            ));
            Self::lemma_update_window(
                pre,
                *self,
                wi as int,
                Window { geometry: g, ..pre.windows@[wi as int] },
            );
        }
    }

    /// The names of the outputs whose rectangles share a pixel with `rect`,
    /// in output order.
    pub open spec fn spec_outputs_overlapping(outputs: Seq<OutputState>, rect: crate::geometry::Rect) -> Seq<String>
        decreases outputs.len(),
    {
        if outputs.len() == 0 {
            Seq::empty()
        } else {
            let rest = Self::spec_outputs_overlapping(outputs.drop_last(), rect);
            let last = outputs.last();
            if (crate::geometry::Rect { loc: last.loc, size: last.size }).spec_overlaps(rect) {
                rest.push(last.name)
            } else {
                rest
            }
        }
    }

    /// The outputs a rectangle intersects; how a window's outputs are found
    /// (a derived lookup, never a stored back-pointer).
    pub fn outputs_overlapping(&self, rect: crate::geometry::Rect) -> (r: Vec<String>)
        requires
            self.outputs_wf(),
            rect.in_range(),
        ensures
            r@.map_values(|n: String| n@) =~= Self::spec_outputs_overlapping(
                self.outputs@,
                rect,
            ).map_values(|n: String| n@),
    {
        let mut r: Vec<String> = Vec::new();
        let mut i: usize = 0;
        while i < self.outputs.len()
            invariant
                self.outputs_wf(),
                rect.in_range(),
                i <= self.outputs@.len(),
                r@.map_values(|n: String| n@) =~= Self::spec_outputs_overlapping(
                    self.outputs@.take(i as int),
                    rect,
                ).map_values(|n: String| n@),
            decreases self.outputs@.len() - i,
        {
            let o = &self.outputs[i];
            let orect = crate::geometry::Rect { loc: o.loc, size: o.size };
            proof {
                assert(self.outputs@.take(i as int + 1).drop_last() =~= self.outputs@.take(
                    i as int,
                ));
                assert(self.outputs@.take(i as int + 1).last() == self.outputs@[i as int]);
            }
            let ghost prev = r@;
            if orect.overlaps(&rect) {
                let name = o.name.clone();
                r.push(name);
                proof {
                    let f = |n: String| n@;
                    assert(r@.map_values(f) =~= prev.map_values(f).push(name@));
                    assert(Self::spec_outputs_overlapping(
                        self.outputs@.take(i as int + 1),
                        rect,
                    ).map_values(f) =~= Self::spec_outputs_overlapping(
                        self.outputs@.take(i as int),
                        rect,
                    ).map_values(f).push(self.outputs@[i as int].name@));
                }
            }
            i = i + 1;
        }
        proof {
            assert(self.outputs@.take(self.outputs@.len() as int) =~= self.outputs@);
        }
        r
    }

    /// The first output this mapped window intersects, if any: the window's
    /// output, by derived lookup.
    pub fn output_for_window(&self, id: WindowId) -> (r: Option<String>)
        requires
            self.wf(),
        ensures
            match r {
                Some(name) => {
                    &&& self.in_space(id)
                    &&& self.has_window(id)
                    &&& Self::spec_outputs_overlapping(
                        self.outputs@,
                        Rect { loc: self.spec_space_loc(id), size: self.window_of(id).geometry.size },
                    ).len() > 0
                    &&& name@ == Self::spec_outputs_overlapping(
                        self.outputs@,
                        Rect { loc: self.spec_space_loc(id), size: self.window_of(id).geometry.size },
                    )[0]@
                },
                None => !self.in_space(id) || !self.has_window(id)
                    || Self::spec_outputs_overlapping(
                    self.outputs@,
                    Rect { loc: self.spec_space_loc(id), size: self.window_of(id).geometry.size },
                ).len() == 0,
            },
    {
        let wi = match self.find_window(id) {
            Some(i) => i,
            None => {
                return None;
            },
        };
        proof {
            self.lemma_window_idx(wi as int);
        }
        let loc = match self.element_location(id) {
            Some(l) => l,
            None => {
                return None;
            },
        };
        let rect = Rect { loc, size: self.windows[wi].geometry.size };
        let names = self.outputs_overlapping(rect);
        proof {
            let f = |n: String| n@;
            let sp = Self::spec_outputs_overlapping(self.outputs@, rect);
            assert(names@.map_values(f).len() == names@.len());
            assert(sp.map_values(f).len() == sp.len());
            if names@.len() > 0 {
                assert(names@.map_values(f)[0] == names@[0]@);
                assert(sp.map_values(f)[0] == sp[0]@);
            }
        }
        if names.len() > 0 {
            let mut names = names;
            let first = names.remove(0);
            Some(first)
        } else {
            None
        }
    }

    /// Finds the output with this name.
    pub fn output_index(&self, name: &String) -> (r: Option<usize>)
        ensures
            match r {
                Some(i) => i < self.outputs@.len() && self.outputs@[i as int].name@ == name@,
                None => forall|k: int|
                    0 <= k < self.outputs@.len() ==> (#[trigger] self.outputs@[k]).name@ != name@,
            },
    {
        let mut i: usize = 0;
        while i < self.outputs.len()
            invariant
                i <= self.outputs@.len(),
                forall|k: int| 0 <= k < i ==> (#[trigger] self.outputs@[k]).name@ != name@,
            decreases self.outputs@.len() - i,
        {
            if self.outputs[i].name.eq(name) {
                return Some(i);
            }
            i = i + 1;
        }
        None
    }
}

} // verus!
