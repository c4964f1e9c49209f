//! Per-output render composition: assembles the ordered, front-to-back list
//! of drawable elements from layer-shell surfaces, the visible windows and
//! any in-flight layout-transition snapshot. Pure over the model: rendering
//! never mutates window state.

use vstd::prelude::*;

use crate::actions::Action;
use crate::geometry::{clamp_coord, spec_clamp_coord, Point, Rect};
use crate::model::{OutputState, Pinnacle};
use crate::state::State;
use crate::window::{SurfaceId, Window, WindowId, WindowSurface};

verus! {

/// The fixed band a layer-shell surface is pinned to.
#[derive(Clone, Copy, Debug, PartialEq, Eq, Structural)]
pub enum LayerKind {
    Background,
    Bottom,
    Top,
    Overlay,
}

/// A layer-shell surface on an output: a panel, wallpaper or similar,
/// pinned to one band, at an output-local location.
#[derive(Clone, Copy, Debug, PartialEq, Eq, Structural)]
pub struct LayerSurface {
    pub surface: SurfaceId,
    pub layer: LayerKind,
    pub loc: Point,
}

/// Where a composited surface element comes from.
#[derive(Clone, Copy, Debug, PartialEq, Eq, Structural)]
pub enum ElementSource {
    /// A window's main surface.
    Window { window: WindowId },
    /// A popup attached to a window.
    Popup { window: WindowId },
    /// A layer-shell surface.
    LayerShell,
}

/// One drawable element, as a closed tagged union: a surface, the pointer,
/// or an element replayed from a layout-transition snapshot.
#[derive(Clone, Copy, Debug, PartialEq, Eq, Structural)]
pub enum RenderElement {
    /// A client surface at an output-relative physical location.
    Surface { surface: SurfaceId, source: ElementSource, loc: Point },
    /// The pointer cursor image.
    Pointer { loc: Point },
    /// A frozen element from a snapshot, replayed during a transition.
    Snapshot { element: u32, loc: Point },
}

impl RenderElement {
    /// Whether this element shows window content (live or snapshotted), as
    /// opposed to a layer-shell surface or the pointer.
    pub open spec fn is_window_content(self) -> bool {
        match self {
            RenderElement::Surface { source, .. } => !(source is LayerShell),
            RenderElement::Pointer { .. } => false,
            RenderElement::Snapshot { .. } => true,
        }
    }

    /// The element's output-relative physical position.
    pub open spec fn spec_position(self) -> Point {
        match self {
            RenderElement::Surface { loc, .. } => loc,
            RenderElement::Pointer { loc } => loc,
            RenderElement::Snapshot { loc, .. } => loc,
        }
    }

    /// The element's output-relative physical position.
    pub fn position(&self) -> (r: Point)
        ensures
            r == self.spec_position(),
    {
        match self {
            RenderElement::Surface { loc, .. } => *loc,
            RenderElement::Pointer { loc } => *loc,
            RenderElement::Snapshot { loc, .. } => *loc,
        }
    }
}

/// A layout-transition snapshot: frozen render elements already split at
/// the first fullscreen window, produced by the transition object and
/// substituted for the live window list while the transition plays.
#[derive(Clone, Debug)]
pub struct LayoutSnapshot {
    /// Elements at and above the first fullscreen window.
    pub above: Vec<RenderElement>,
    /// Elements below it.
    pub below: Vec<RenderElement>,
}

/// A logical coordinate scaled into physical pixels and rounded to the
/// nearest integer, then clamped into the stored range.
pub open spec fn spec_to_physical(v: int, scale_millis: int) -> int {
    spec_clamp_coord((v * scale_millis + 500) / 1000)
}

/// Scales one logical coordinate into physical pixels; exact per
/// [`spec_to_physical`].
pub fn to_physical(v: i32, scale_millis: u32) -> (r: i32)
    requires
        crate::geometry::coord_in_range(v as int),
    ensures
        r as int == spec_to_physical(v as int, scale_millis as int),
{
    proof {
        assert(-5000000000000000000 <= v as int * scale_millis as int
            <= 5000000000000000000) by (nonlinear_arith)
            requires
                -1000000000 <= v as int <= 1000000000,
                0 <= scale_millis as int <= 4294967295,
        ;
    }
    let t: i64 = v as i64 * scale_millis as i64 + 500;
    let q: i64 = t / 1000;
    let q = if t % 1000 < 0 {
        q - 1
    } else {
        q
    };
    proof {
        assert(q == (v as int * scale_millis as int + 500) / 1000) by {
            let tt = v as int * scale_millis as int + 500;
            assert(t == tt);
        };
    }
    clamp_coord(q)
}

/// An output-local logical point scaled into physical pixels.
pub open spec fn spec_phys_point(p: Point, scale_millis: int) -> Point {
    Point {
        x: spec_to_physical(p.x as int, scale_millis) as i32,
        y: spec_to_physical(p.y as int, scale_millis) as i32,
    }
}

/// Scales an output-local point into physical pixels.
pub fn phys_point(p: Point, scale_millis: u32) -> (r: Point)
    requires
        p.in_range(),
    ensures
        r == spec_phys_point(p, scale_millis as int),
        r.in_range(),
{
    Point { x: to_physical(p.x, scale_millis), y: to_physical(p.y, scale_millis) }
}

/// The elements of one layer band: the surfaces of `layers` pinned to
/// `kind`, iterated from the last to the first, each at its physical
/// location.
pub open spec fn spec_layer_band(layers: Seq<LayerSurface>, kind: LayerKind, scale_millis: int) -> Seq<
    RenderElement,
>
    decreases layers.len(),
{
    if layers.len() == 0 {
        Seq::empty()
    } else {
        let rest = spec_layer_band(layers.drop_first(), kind, scale_millis);
        if layers.first().layer == kind {
            rest.push(
                RenderElement::Surface {
                    surface: layers.first().surface,
                    source: ElementSource::LayerShell,
                    loc: spec_phys_point(layers.first().loc, scale_millis),
                },
            )
        } else {
            rest
        }
    }
}

/// The four layer bands of an output, each band's surfaces in back-to-front
/// iteration order, transformed into physical coordinates at the output's
/// scale.
pub struct LayerRenderElements {
    pub background: Vec<RenderElement>,
    pub bottom: Vec<RenderElement>,
    pub top: Vec<RenderElement>,
    pub overlay: Vec<RenderElement>,
}

/// Collects the layer-shell elements of an output into their four bands.
pub fn layer_render_elements(output: &OutputState) -> (r: LayerRenderElements)
    requires
        forall|i: int|
            0 <= i < output.layer_surfaces@.len() ==> (#[trigger] output.layer_surfaces@[i]).loc.in_range(),
    ensures
        r.background@ == spec_layer_band(
            output.layer_surfaces@,
            LayerKind::Background,
            output.scale_millis as int,
        ),
        r.bottom@ == spec_layer_band(
            output.layer_surfaces@,
            LayerKind::Bottom,
            output.scale_millis as int,
        ),
        r.top@ == spec_layer_band(
            output.layer_surfaces@,
            LayerKind::Top,
            output.scale_millis as int,
        ),
        r.overlay@ == spec_layer_band(
            output.layer_surfaces@,
            LayerKind::Overlay,
            output.scale_millis as int,
        ),
{
    let mut background: Vec<RenderElement> = Vec::new();
    let mut bottom: Vec<RenderElement> = Vec::new();
    let mut top: Vec<RenderElement> = Vec::new();
    let mut overlay: Vec<RenderElement> = Vec::new();
    let n = output.layer_surfaces.len();
    let mut k = n;
    while k > 0
        invariant
            k <= n,
            n == output.layer_surfaces@.len(),
            forall|i: int|
                0 <= i < output.layer_surfaces@.len() ==> (#[trigger] output.layer_surfaces@[i]).loc.in_range(),
            background@ == spec_layer_band(
                output.layer_surfaces@.skip(k as int),
                LayerKind::Background,
                output.scale_millis as int,
            ),
            bottom@ == spec_layer_band(
                output.layer_surfaces@.skip(k as int),
                LayerKind::Bottom,
                output.scale_millis as int,
            ),
            top@ == spec_layer_band(
                output.layer_surfaces@.skip(k as int),
                LayerKind::Top,
                output.scale_millis as int,
            ),
            overlay@ == spec_layer_band(
                output.layer_surfaces@.skip(k as int),
                LayerKind::Overlay,
                output.scale_millis as int,
            ),
        decreases k,
    {
        k = k - 1;
        let s = output.layer_surfaces[k];
        let elem = RenderElement::Surface {
            surface: s.surface,
            source: ElementSource::LayerShell,
            loc: phys_point(s.loc, output.scale_millis),
        };
        proof {
            assert(output.layer_surfaces@.skip(k as int).drop_first() =~= output.layer_surfaces@.skip(
                k as int + 1,
            ));
            assert(output.layer_surfaces@.skip(k as int).first() == output.layer_surfaces@[
                k as int
            ]);
        }
        match s.layer {
            LayerKind::Background => background.push(elem),
            LayerKind::Bottom => bottom.push(elem),
            LayerKind::Top => top.push(elem),
            LayerKind::Overlay => overlay.push(elem),
        }
        proof {
            assert(output.layer_surfaces@.skip(k as int) =~= output.layer_surfaces@.skip(
                k as int,
            ));
        }
    }
    proof {
        assert(output.layer_surfaces@.skip(0) =~= output.layer_surfaces@);
    }
    LayerRenderElements { background, bottom, top, overlay }
}

/// The render elements one window contributes: its main surface at its
/// Space location made output-relative and physical, or nothing when it has
/// no native surface to composite.
pub open spec fn spec_window_element(p: Pinnacle, output: OutputState, id: WindowId) -> Seq<
    RenderElement,
> {
    let w = p.window_of(id);
    let loc = if p.in_space(id) {
        p.spec_space_loc(id)
    } else {
        Point { x: 0, y: 0 }
    };
    let rel = Point {
        x: spec_clamp_coord(loc.x - output.loc.x) as i32,
        y: spec_clamp_coord(loc.y - output.loc.y) as i32,
    };
    match w.spec_wl_surface() {
        Some(su) => seq![
            RenderElement::Surface {
                surface: su,
                source: ElementSource::Window { window: id },
                loc: spec_phys_point(rel, output.scale_millis as int),
            },
        ],
        None => Seq::empty(),
    }
}

/// The elements of a front-to-back window list, in order.
pub open spec fn spec_window_elements(p: Pinnacle, output: OutputState, ids: Seq<WindowId>) -> Seq<
    RenderElement,
>
    decreases ids.len(),
{
    if ids.len() == 0 {
        Seq::empty()
    } else {
        spec_window_elements(p, output, ids.drop_last()) + spec_window_element(
            p,
            output,
            ids.last(),
        )
    }
}

/// Where a front-to-back window list splits at the first fullscreen window
/// encountered from the back: everything before this index (inclusive of
/// that fullscreen window) is the fullscreen-and-up group.
pub open spec fn spec_fullscreen_split(p: Pinnacle, ids: Seq<WindowId>) -> int
    decreases ids.len(),
{
    if ids.len() == 0 {
        0
    } else if p.has_window(ids.last()) && p.window_of(ids.last()).fullscreen {
        ids.len() as int
    } else {
        spec_fullscreen_split(p, ids.drop_last())
    }
}

/// Splits a front-to-back window list into its render elements: the group
/// at and above the first-from-the-back fullscreen window, and the rest.
/// This partition lets everything stacked above a fullscreen window still
/// paint on top of it while nothing below it is composited above the
/// background.
pub fn window_render_elements(p: &Pinnacle, output: &OutputState, ids: &Vec<WindowId>) -> (r: (
    Vec<RenderElement>,
    Vec<RenderElement>,
))
    requires
        p.wf(),
        output.loc.in_range(),
        forall|k: int| 0 <= k < ids@.len() ==> p.has_window(#[trigger] ids@[k]),
    ensures
        r.0@ == spec_window_elements(*p, *output, ids@.take(spec_fullscreen_split(*p, ids@))),
        r.1@ == spec_window_elements(*p, *output, ids@.skip(spec_fullscreen_split(*p, ids@))),
{
    // find the split: scan from the back for the first fullscreen window
    let n = ids.len();
    let mut split: usize = 0;
    let mut k = n;
    proof {
        assert(ids@.take(n as int) =~= ids@);
    }
    while k > 0
        invariant_except_break
            p.wf(),
            k <= n,
            n == ids@.len(),
            forall|j: int| 0 <= j < ids@.len() ==> p.has_window(#[trigger] ids@[j]),
            split == 0,
            spec_fullscreen_split(*p, ids@) == spec_fullscreen_split(*p, ids@.take(k as int)),
        ensures
            split as int == spec_fullscreen_split(*p, ids@),
            split <= n,
            n == ids@.len(),
        decreases k,
    {
        k = k - 1;
        let id = ids[k];
        let wi = p.find_window(id).unwrap();
        proof {
            p.lemma_window_idx(wi as int);
            assert(ids@.take(k as int + 1).drop_last() =~= ids@.take(k as int));
            assert(ids@.take(k as int + 1).last() == ids@[k as int]);
        }
        if p.windows[wi].fullscreen {
            split = k + 1;
            break ;
        }
    }
    // build the two element groups
    let mut fs_and_up: Vec<RenderElement> = Vec::new();
    let mut i: usize = 0;
    while i < split
        invariant
            p.wf(),
            output.loc.in_range(),
            i <= split <= n,
            n == ids@.len(),
            forall|j: int| 0 <= j < ids@.len() ==> p.has_window(#[trigger] ids@[j]),
            fs_and_up@ == spec_window_elements(*p, *output, ids@.take(i as int)),
        decreases split - i,
    {
        push_window_element(p, output, ids[i], &mut fs_and_up);
        proof {
            assert(ids@.take(i as int + 1).drop_last() =~= ids@.take(i as int));
            assert(ids@.take(i as int + 1).last() == ids@[i as int]);
        }
        i = i + 1;
    }
    let mut rest: Vec<RenderElement> = Vec::new();
    let mut i: usize = split;
    while i < n
        invariant
            p.wf(),
            output.loc.in_range(),
            split <= i <= n,
            n == ids@.len(),
            forall|j: int| 0 <= j < ids@.len() ==> p.has_window(#[trigger] ids@[j]),
            rest@ == spec_window_elements(
                *p,
                *output,
                ids@.subrange(split as int, i as int),
            ),
        decreases n - i,
    {
        push_window_element(p, output, ids[i], &mut rest);
        proof {
            assert(ids@.subrange(split as int, i as int + 1).drop_last() =~= ids@.subrange(
                split as int,
                i as int,
            ));
            assert(ids@.subrange(split as int, i as int + 1).last() == ids@[i as int]);
        }
        i = i + 1;
    }
    proof {
        assert(ids@.take(split as int) =~= ids@.take(spec_fullscreen_split(*p, ids@)));
        assert(ids@.subrange(split as int, n as int) =~= ids@.skip(
            spec_fullscreen_split(*p, ids@),
        ));
    }
    (fs_and_up, rest)
}

/// Appends the elements of one window to `out`.
fn push_window_element(p: &Pinnacle, output: &OutputState, id: WindowId, out: &mut Vec<
    RenderElement,
>)
    requires
        p.wf(),
        p.has_window(id),
        output.loc.in_range(),
    ensures
        final(out)@ == old(out)@ + spec_window_element(*p, *output, id),
{
    let wi = p.find_window(id).unwrap();
    proof {
        p.lemma_window_idx(wi as int);
    }
    let loc = match p.element_location(id) {
        Some(l) => l,
        None => Point { x: 0, y: 0 },
    };
    let rel = Point {
        x: clamp_coord(loc.x as i64 - output.loc.x as i64),
        y: clamp_coord(loc.y as i64 - output.loc.y as i64),
    };
    match p.windows[wi].wl_surface() {
        Some(su) => {
            out.push(
                RenderElement::Surface {
                    surface: su,
                    source: ElementSource::Window { window: id },
                    loc: phys_point(rel, output.scale_millis),
                },
            );
            proof {
                assert(final(out)@ =~= old(out)@ + spec_window_element(*p, *output, id));
            }
        },
        None => {
            proof {
                assert(final(out)@ =~= old(out)@ + spec_window_element(*p, *output, id));
            }
        },
    }
}

/// The windows of `ids` (in order) that are visible: registered and on at
/// least one active tag.
pub open spec fn spec_visible_windows(p: Pinnacle, ids: Seq<WindowId>) -> Seq<WindowId>
    decreases ids.len(),
{
    if ids.len() == 0 {
        Seq::empty()
    } else {
        let rest = spec_visible_windows(p, ids.drop_last());
        let id = ids.last();
        if p.has_window(id) && p.spec_on_active_tag(p.window_of(id)) {
            rest.push(id)
        } else {
            rest
        }
    }
}

/// The full draw list of an output, front (drawn last) to back: overlay
/// layer, the fullscreen-and-up window group, top layer, the rest of the
/// windows, bottom layer, background layer. With an in-flight
/// layout-transition snapshot, the snapshot's two groups stand in for the
/// live windows.
pub open spec fn spec_output_render_elements(
    p: Pinnacle,
    output: OutputState,
    ids: Seq<WindowId>,
) -> Seq<RenderElement> {
    let sm = output.scale_millis as int;
    let overlay = spec_layer_band(output.layer_surfaces@, LayerKind::Overlay, sm);
    let top = spec_layer_band(output.layer_surfaces@, LayerKind::Top, sm);
    let bottom = spec_layer_band(output.layer_surfaces@, LayerKind::Bottom, sm);
    let background = spec_layer_band(output.layer_surfaces@, LayerKind::Background, sm);
    let fs_and_up = match output.snapshot {
        Some(ts) => ts.above@,
        None => {
            let vis = spec_visible_windows(p, ids);
            spec_window_elements(p, output, vis.take(spec_fullscreen_split(p, vis)))
        },
    };
    let rest = match output.snapshot {
        Some(ts) => ts.below@,
        None => {
            let vis = spec_visible_windows(p, ids);
            spec_window_elements(p, output, vis.skip(spec_fullscreen_split(p, vis)))
        },
    };
    overlay + fs_and_up + top + rest + bottom + background
}

/// Copies a list of elements.
fn copy_elements(v: &Vec<RenderElement>) -> (r: Vec<RenderElement>)
    ensures
        r@ == v@,
{
    let mut r: Vec<RenderElement> = Vec::new();
    let mut i: usize = 0;
    while i < v.len()
        invariant
            i <= v@.len(),
            r@ == v@.take(i as int),
        decreases v@.len() - i,
    {
        r.push(v[i]);
        proof {
            assert(v@.take(i as int + 1) =~= v@.take(i as int).push(v@[i as int]));
        }
        i = i + 1;
    }
    proof {
        assert(v@.take(v@.len() as int) =~= v@);
    }
    r
}

/// Produces the draw list for the output at registry index `oi`, from the
/// given front-to-back window list; see [`spec_output_render_elements`].
/// Pure: the model is only read.
pub fn output_render_elements(p: &Pinnacle, oi: usize, ids: &Vec<WindowId>) -> (r: Vec<
    RenderElement,
>)
    requires
        p.wf(),
        oi < p.outputs@.len(),
    ensures
        r@ == spec_output_render_elements(*p, p.outputs@[oi as int], ids@),
{
    let output = &p.outputs[oi];
    proof {
        assert(p.outputs_wf());
    }
    let bands = layer_render_elements(output);
    let mut fs_and_up: Vec<RenderElement>;
    let mut rest: Vec<RenderElement>;
    match &output.snapshot {
        Some(ts) => {
            fs_and_up = copy_elements(&ts.above);
            rest = copy_elements(&ts.below);
        },
        None => {
            // restrict to windows on active tags
            let mut vis: Vec<WindowId> = Vec::new();
            let mut i: usize = 0;
            while i < ids.len()
                invariant
                    p.wf(),
                    i <= ids@.len(),
                    vis@ == spec_visible_windows(*p, ids@.take(i as int)),
                    forall|k: int| 0 <= k < vis@.len() ==> p.has_window(#[trigger] vis@[k]),
                decreases ids@.len() - i,
            {
                let id = ids[i];
                proof {
                    assert(ids@.take(i as int + 1).drop_last() =~= ids@.take(i as int));
                    assert(ids@.take(i as int + 1).last() == ids@[i as int]);
                }
                match p.find_window(id) {
                    Some(wi) => {
                        proof {
                            p.lemma_window_idx(wi as int);
                        }
                        if p.is_on_active_tag(wi) {
                            vis.push(id);
                        }
                    },
                    None => {},
                }
                i = i + 1;
            }
            proof {
                assert(ids@.take(ids@.len() as int) =~= ids@);
            }
            let groups = window_render_elements(p, output, &vis);
            fs_and_up = groups.0;
            rest = groups.1;
        },
    }
    // assemble, front to back
    let mut r: Vec<RenderElement> = Vec::new();
    let mut overlay = bands.overlay;
    let mut top = bands.top;
    let mut bottom = bands.bottom;
    let mut background = bands.background;
    let mut fs_and_up = fs_and_up;
    let mut rest = rest;
    let ghost ov0 = overlay@;
    let ghost top0 = top@;
    let ghost bot0 = bottom@;
    let ghost bg0 = background@;
    let ghost fs0 = fs_and_up@;
    let ghost rest0 = rest@;
    r.append(&mut overlay);
    r.append(&mut fs_and_up);
    r.append(&mut top);
    r.append(&mut rest);
    r.append(&mut bottom);
    r.append(&mut background);
    proof {
        assert(r@ =~= ov0 + fs0 + top0 + rest0 + bot0 + bg0);
        assert(r@ =~= spec_output_render_elements(*p, p.outputs@[oi as int], ids@));
    }
    r
}

/// Every element of a layer band is a layer-shell surface, never window
/// content.
proof fn lemma_layer_band_sources(layers: Seq<LayerSurface>, kind: LayerKind, scale_millis: int)
    ensures
        forall|i: int|
            0 <= i < spec_layer_band(layers, kind, scale_millis).len() ==> !(
            #[trigger] spec_layer_band(layers, kind, scale_millis)[i]).is_window_content(),
    decreases layers.len(),
{
    if layers.len() > 0 {
        lemma_layer_band_sources(layers.drop_first(), kind, scale_millis);
        let rest = spec_layer_band(layers.drop_first(), kind, scale_millis);
        let band = spec_layer_band(layers, kind, scale_millis);
        assert forall|i: int|
            0 <= i < band.len() implies !((#[trigger] band[i]).is_window_content()) by {
            if layers.first().layer == kind {
                if i < rest.len() {
                    assert(band[i] == rest[i]);
                    assert(!rest[i].is_window_content());
                }
            } else {
                assert(band == rest);
                assert(!rest[i].is_window_content());
            }
        }
    }
}

/// Render composition never places window content above the overlay layer
/// nor below the background layer: in the draw list, every element that
/// shows window content — live or replayed from a snapshot — sits at or
/// after the end of the overlay band and strictly before the background
/// band, for every fullscreen, partition and snapshot configuration.
pub proof fn lemma_render_respects_layer_bounds(
    p: Pinnacle,
    output: OutputState,
    ids: Seq<WindowId>,
)
    ensures
        ({
            let r = spec_output_render_elements(p, output, ids);
            let sm = output.scale_millis as int;
            let overlay = spec_layer_band(output.layer_surfaces@, LayerKind::Overlay, sm);
            let background = spec_layer_band(output.layer_surfaces@, LayerKind::Background, sm);
            forall|i: int|
                0 <= i < r.len() && (#[trigger] r[i]).is_window_content() ==> overlay.len() <= i
                    < r.len() - background.len()
        }),
{
    let r = spec_output_render_elements(p, output, ids);
    let sm = output.scale_millis as int;
    let overlay = spec_layer_band(output.layer_surfaces@, LayerKind::Overlay, sm);
    let background = spec_layer_band(output.layer_surfaces@, LayerKind::Background, sm);
    lemma_layer_band_sources(output.layer_surfaces@, LayerKind::Overlay, sm);
    lemma_layer_band_sources(output.layer_surfaces@, LayerKind::Background, sm);
    assert forall|i: int|
        0 <= i < r.len() && (#[trigger] r[i]).is_window_content() implies overlay.len() <= i
            < r.len() - background.len() by {
        if i < overlay.len() {
            assert(r[i] == overlay[i]);
        }
        if i >= r.len() - background.len() {
            assert(r[i] == background[i - (r.len() - background.len())]);
        }
    }
}

/// The surfaces owed presentation feedback among the Space entries: every
/// mapped window intersecting the output, in Space order, regardless of
/// the visibility partitioning above.
pub open spec fn spec_window_feedback(
    p: Pinnacle,
    output: OutputState,
    entries: Seq<crate::model::SpaceEntry>,
) -> Seq<SurfaceId>
    decreases entries.len(),
{
    if entries.len() == 0 {
        Seq::empty()
    } else {
        let rest = spec_window_feedback(p, output, entries.drop_last());
        let e = entries.last();
        if p.has_window(e.window) && (Rect {
            loc: e.loc,
            size: p.window_of(e.window).geometry.size,
        }).spec_overlaps(Rect { loc: output.loc, size: output.size }) && p.window_of(
            e.window,
        ).spec_wl_surface() is Some {
            rest.push(p.window_of(e.window).spec_wl_surface()->0)
        } else {
            rest
        }
    }
}

/// The layer-shell surfaces of the output, all owed feedback.
pub open spec fn spec_layer_feedback(layers: Seq<LayerSurface>) -> Seq<SurfaceId>
    decreases layers.len(),
{
    if layers.len() == 0 {
        Seq::empty()
    } else {
        spec_layer_feedback(layers.drop_last()).push(layers.last().surface)
    }
}

/// Collects presentation feedback for a frame on the output at registry
/// index `oi`: every window intersecting the output plus every layer-shell
/// surface, independent of the visibility partitioning used for drawing.
pub fn take_presentation_feedback(p: &Pinnacle, oi: usize) -> (r: Vec<SurfaceId>)
    requires
        p.wf(),
        oi < p.outputs@.len(),
    ensures
        r@ == spec_window_feedback(*p, p.outputs@[oi as int], p.space@) + spec_layer_feedback(
            p.outputs@[oi as int].layer_surfaces@,
        ),
{
    let output = &p.outputs[oi];
    proof {
        assert(p.outputs_wf());
    }
    let orect = Rect { loc: output.loc, size: output.size };
    let mut r: Vec<SurfaceId> = Vec::new();
    let mut i: usize = 0;
    while i < p.space.len()
        invariant
            p.wf(),
            oi < p.outputs@.len(),
            output == p.outputs@[oi as int],
            orect == (Rect { loc: output.loc, size: output.size }),
            i <= p.space@.len(),
            r@ == spec_window_feedback(*p, *output, p.space@.take(i as int)),
        decreases p.space@.len() - i,
    {
        let e = p.space[i];
        proof {
            assert(p.space@.take(i as int + 1).drop_last() =~= p.space@.take(i as int));
            assert(p.space@.take(i as int + 1).last() == p.space@[i as int]);
        }
        match p.find_window(e.window) {
            Some(wi) => {
                proof {
                    p.lemma_window_idx(wi as int);
                }
                let wrect = Rect { loc: e.loc, size: p.windows[wi].geometry.size };
                if wrect.overlaps(&orect) {
                    match p.windows[wi].wl_surface() {
                        Some(su) => {
                            r.push(su);
                        },
                        None => {},
                    }
                }
            },
            None => {},
        }
        i = i + 1;
    }
    proof {
        assert(p.space@.take(p.space@.len() as int) =~= p.space@);
    }
    let mut i: usize = 0;
    let ghost wfb = spec_window_feedback(*p, p.outputs@[oi as int], p.space@);
    while i < output.layer_surfaces.len()
        invariant
            oi < p.outputs@.len(),
            output == p.outputs@[oi as int],
            i <= output.layer_surfaces@.len(),
            r@ == wfb + spec_layer_feedback(output.layer_surfaces@.take(i as int)),
        decreases output.layer_surfaces@.len() - i,
    {
        proof {
            assert(output.layer_surfaces@.take(i as int + 1).drop_last()
                =~= output.layer_surfaces@.take(i as int));
            assert(output.layer_surfaces@.take(i as int + 1).last() == output.layer_surfaces@[
                i as int
            ]);
        }
        r.push(output.layer_surfaces[i].surface);
        i = i + 1;
    }
    proof {
        assert(output.layer_surfaces@.take(output.layer_surfaces@.len() as int)
            =~= output.layer_surfaces@);
    }
    r
}

/// One popup's texture element: the popup surface offset from the parent
/// by its attachment offset less its own geometry origin, in physical
/// pixels from the window's physical base position.
pub open spec fn spec_popup_element(w: Window, i: int, phys_base: Point, scale_millis: int) -> RenderElement {
    let pu = w.popups@[i];
    let off = Point {
        x: spec_clamp_coord(w.geometry.loc.x + pu.offset.x - pu.geometry_loc.x) as i32,
        y: spec_clamp_coord(w.geometry.loc.y + pu.offset.y - pu.geometry_loc.y) as i32,
    };
    let phys_off = spec_phys_point(off, scale_millis);
    RenderElement::Surface {
        surface: pu.surface,
        source: ElementSource::Popup { window: w.id },
        loc: Point {
            x: spec_clamp_coord(phys_base.x + phys_off.x) as i32,
            y: spec_clamp_coord(phys_base.y + phys_off.y) as i32,
        },
    }
}

/// The first `n` popup elements of a window, in attachment order.
pub open spec fn spec_popup_elements_upto(
    w: Window,
    n: int,
    phys_base: Point,
    scale_millis: int,
) -> Seq<RenderElement>
    decreases n,
{
    if n <= 0 {
        Seq::empty()
    } else {
        spec_popup_elements_upto(w, n - 1, phys_base, scale_millis).push(
            spec_popup_element(w, n - 1, phys_base, scale_millis),
        )
    }
}

/// The texture elements of one window: for a native toplevel, each popup at
/// its offset from the parent and then the main surface; for a foreign
/// window, its surface alone, or nothing while it has none. `location` is
/// the window's logical location, made geometry-relative and physical here.
pub open spec fn spec_texture_elements(w: Window, location: Point, scale_millis: int) -> Seq<
    RenderElement,
> {
    let base = Point {
        x: spec_clamp_coord(location.x - w.geometry.loc.x) as i32,
        y: spec_clamp_coord(location.y - w.geometry.loc.y) as i32,
    };
    let phys_base = spec_phys_point(base, scale_millis);
    match w.surface {
        WindowSurface::Wayland { surface } => spec_popup_elements_upto(
            w,
            w.popups@.len() as int,
            phys_base,
            scale_millis,
        ).push(
            RenderElement::Surface {
                surface,
                source: ElementSource::Window { window: w.id },
                loc: phys_base,
            },
        ),
        WindowSurface::X11 { surface: Some(su), .. } => seq![
            RenderElement::Surface {
                surface: su,
                source: ElementSource::Window { window: w.id },
                loc: phys_base,
            },
        ],
        WindowSurface::X11 { surface: None, .. } => Seq::empty(),
    }
}

/// Renders one window as texture elements; exact per
/// [`spec_texture_elements`].
pub fn texture_render_elements(w: &Window, location: Point, scale_millis: u32) -> (r: Vec<
    RenderElement,
>)
    requires
        w.wf(),
        location.in_range(),
    ensures
        r@ == spec_texture_elements(*w, location, scale_millis as int),
{
    let base = Point {
        x: clamp_coord(location.x as i64 - w.geometry.loc.x as i64),
        y: clamp_coord(location.y as i64 - w.geometry.loc.y as i64),
    };
    let phys_base = phys_point(base, scale_millis);
    let mut r: Vec<RenderElement> = Vec::new();
    match w.surface {
        WindowSurface::Wayland { surface } => {
            let mut i: usize = 0;
            while i < w.popups.len()
                invariant
                    w.wf(),
                    i <= w.popups@.len(),
                    r@ == spec_popup_elements_upto(
                        *w,
                        i as int,
                        phys_base,
                        scale_millis as int,
                    ),
                decreases w.popups@.len() - i,
            {
                let pu = w.popups[i];
                let off = Point {
                    x: clamp_coord(
                        w.geometry.loc.x as i64 + pu.offset.x as i64 - pu.geometry_loc.x as i64,
                    ),
                    y: clamp_coord(
                        w.geometry.loc.y as i64 + pu.offset.y as i64 - pu.geometry_loc.y as i64,
                    ),
                };
                let phys_off = phys_point(off, scale_millis);
                let loc = Point {
                    x: clamp_coord(phys_base.x as i64 + phys_off.x as i64),
                    y: clamp_coord(phys_base.y as i64 + phys_off.y as i64),
                };
                r.push(
                    RenderElement::Surface {
                        surface: pu.surface,
                        source: ElementSource::Popup { window: w.id },
                        loc,
                    },
                );
                i = i + 1;
            }
            r.push(
                RenderElement::Surface {
                    surface,
                    source: ElementSource::Window { window: w.id },
                    loc: phys_base,
                },
            );
        },
        WindowSurface::X11 { surface: Some(su), .. } => {
            r.push(
                RenderElement::Surface {
                    surface: su,
                    source: ElementSource::Window { window: w.id },
                    loc: phys_base,
                },
            );
            proof {
                assert(r@ =~= spec_texture_elements(*w, location, scale_millis as int));
            }
        },
        WindowSurface::X11 { surface: None, .. } => {},
    }
    r
}

impl State {
    /// Requests a redraw of the named output from the redraw scheduler;
    /// coalescing repeated requests within one frame is the scheduler's
    /// business, not this core's.
    pub fn schedule_render(&mut self, output: &String)
        requires
            old(self).wf(),
        ensures
            final(self).wf(),
            final(self).pending@.len() == old(self).pending@.len() + 1,
            final(self).pending@.subrange(0, old(self).pending@.len() as int) == old(self).pending@,
            final(self).pending@.last() matches Action::ScheduleRender { output: o } && o@
                == output@,
            final(self).pinnacle == old(self).pinnacle,
            final(self).active_grab == old(self).active_grab,
            final(self).cursor_icon == old(self).cursor_icon,
            final(self).keyboard_focus == old(self).keyboard_focus,
    {
        let o = output.clone();
        self.pending.push(Action::ScheduleRender { output: o });
        proof {
            assert(final(self).pending@.subrange(0, old(self).pending@.len() as int) =~= old(
                self,
            ).pending@);
        }
    }
}

} // verus!
