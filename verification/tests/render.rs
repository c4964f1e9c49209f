//! Render composition: the fullscreen partition, the final band order, the
//! snapshot substitution and presentation feedback.

use pinnacle::geometry::{Point, Rect, Size};
use pinnacle::model::{OutputState, Pinnacle, Tag};
use pinnacle::render::{
    layer_render_elements, output_render_elements, take_presentation_feedback,
    texture_render_elements, window_render_elements, ElementSource, LayerKind, LayerSurface,
    LayoutSnapshot, RenderElement,
};
use pinnacle::window::{Popup, Window, WindowSurface};

fn output_with(layers: Vec<LayerSurface>, snapshot: Option<LayoutSnapshot>) -> OutputState {
    OutputState {
        name: "main".to_string(),
        loc: Point { x: 0, y: 0 },
        size: Size { w: 1920, h: 1080 },
        scale_millis: 1000,
        layer_surfaces: layers,
        snapshot,
    }
}

/// A model with windows of ids 0..n, all mapped at the origin and on an
/// active tag, bottom-up so that the stack front-to-back is n-1 .. 0.
fn model_with_stack(n: u32) -> Pinnacle {
    let mut p = Pinnacle::new();
    p.tags = vec![Tag { id: 1, active: true }];
    for id in 0..n {
        let mut w = Window::new(
            id,
            WindowSurface::Wayland { surface: 100 + id },
            Rect { loc: Point { x: 0, y: 0 }, size: Size { w: 100, h: 100 } },
        );
        w.tags = vec![1];
        p.insert_window(w);
        p.map_element(id, Point { x: 0, y: 0 }, true);
    }
    p
}

fn surface_of(e: &RenderElement) -> u32 {
    match e {
        RenderElement::Surface { surface, .. } => *surface,
        other => panic!("expected a surface element, got {:?}", other),
    }
}

#[test]
fn fullscreen_partition_splits_at_z2_of_5() {
    // five windows, z 0..4 with 0 at the bottom; the window at z 2 is
    // fullscreen: the fullscreen-and-up group is z {2,3,4}, the rest z {0,1}
    let mut p = model_with_stack(5);
    let wi = p.find_window(2).unwrap();
    p.set_fullscreen(wi, true);
    let out = output_with(Vec::new(), None);
    // front-to-back means z4 first
    let ids = vec![4, 3, 2, 1, 0];
    let (fs_and_up, rest) = window_render_elements(&p, &out, &ids);
    let fs_ids: Vec<u32> = fs_and_up.iter().map(surface_of).collect();
    let rest_ids: Vec<u32> = rest.iter().map(surface_of).collect();
    assert_eq!(fs_ids, vec![104, 103, 102]);
    assert_eq!(rest_ids, vec![101, 100]);
}

#[test]
fn no_fullscreen_puts_everything_in_the_rest_group() {
    let p = model_with_stack(3);
    let out = output_with(Vec::new(), None);
    let ids = vec![2, 1, 0];
    let (fs_and_up, rest) = window_render_elements(&p, &out, &ids);
    assert!(fs_and_up.is_empty());
    assert_eq!(rest.len(), 3);
}

#[test]
fn final_order_is_overlay_fs_top_rest_bottom_background() {
    let mut p = model_with_stack(2);
    let wi = p.find_window(0).unwrap();
    p.set_fullscreen(wi, true);
    let layers = vec![
        LayerSurface { surface: 900, layer: LayerKind::Background, loc: Point { x: 0, y: 0 } },
        LayerSurface { surface: 901, layer: LayerKind::Bottom, loc: Point { x: 0, y: 0 } },
        LayerSurface { surface: 902, layer: LayerKind::Top, loc: Point { x: 0, y: 0 } },
        LayerSurface { surface: 903, layer: LayerKind::Overlay, loc: Point { x: 0, y: 0 } },
    ];
    p.outputs = vec![output_with(layers, None)];
    // both windows are at or above the fullscreen window at the bottom
    let ids = vec![1, 0];
    let r = output_render_elements(&p, 0, &ids);
    let surfaces: Vec<u32> = r.iter().map(surface_of).collect();
    // overlay, fullscreen-and-up (both windows), top, rest (none),
    // bottom, background
    assert_eq!(surfaces, vec![903, 101, 100, 902, 901, 900]);
}

#[test]
fn windows_sit_between_overlay_and_background() {
    let mut p = model_with_stack(3);
    let wi = p.find_window(1).unwrap();
    p.set_fullscreen(wi, true);
    let layers = vec![
        LayerSurface { surface: 900, layer: LayerKind::Background, loc: Point { x: 0, y: 0 } },
        LayerSurface { surface: 903, layer: LayerKind::Overlay, loc: Point { x: 0, y: 0 } },
    ];
    p.outputs = vec![output_with(layers, None)];
    let ids = vec![2, 1, 0];
    let r = output_render_elements(&p, 0, &ids);
    // exactly one overlay element leads and one background element trails;
    // every window element lies strictly between them
    for (i, e) in r.iter().enumerate() {
        let window_content = matches!(
            e,
            RenderElement::Surface { source: ElementSource::Window { .. }, .. }
                | RenderElement::Surface { source: ElementSource::Popup { .. }, .. }
                | RenderElement::Snapshot { .. }
        );
        if window_content {
            assert!(i >= 1 && i < r.len() - 1);
        }
    }
    assert_eq!(surface_of(&r[0]), 903);
    assert_eq!(surface_of(&r[r.len() - 1]), 900);
}

#[test]
fn snapshot_elements_substitute_for_live_windows() {
    let p2 = model_with_stack(2);
    let snapshot = LayoutSnapshot {
        above: vec![RenderElement::Snapshot { element: 1, loc: Point { x: 0, y: 0 } }],
        below: vec![RenderElement::Snapshot { element: 2, loc: Point { x: 0, y: 0 } }],
    };
    let mut p = p2;
    p.outputs = vec![output_with(Vec::new(), Some(snapshot))];
    let ids = vec![1, 0];
    let r = output_render_elements(&p, 0, &ids);
    assert_eq!(
        r,
        vec![
            RenderElement::Snapshot { element: 1, loc: Point { x: 0, y: 0 } },
            RenderElement::Snapshot { element: 2, loc: Point { x: 0, y: 0 } },
        ]
    );
}

#[test]
fn hidden_tags_drop_windows_from_the_draw_list() {
    let mut p = model_with_stack(2);
    p.tags = vec![Tag { id: 1, active: false }];
    p.outputs = vec![output_with(Vec::new(), None)];
    let ids = vec![1, 0];
    let r = output_render_elements(&p, 0, &ids);
    assert!(r.is_empty());
}

#[test]
fn layer_bands_scale_locations_to_physical_pixels() {
    let out = OutputState {
        scale_millis: 1500,
        ..output_with(
            vec![LayerSurface {
                surface: 900,
                layer: LayerKind::Top,
                loc: Point { x: 100, y: 10 },
            }],
            None,
        )
    };
    let bands = layer_render_elements(&out);
    assert_eq!(
        bands.top,
        vec![RenderElement::Surface {
            surface: 900,
            source: ElementSource::LayerShell,
            loc: Point { x: 150, y: 15 },
        }]
    );
    assert!(bands.overlay.is_empty());
    assert!(bands.bottom.is_empty());
    assert!(bands.background.is_empty());
}

#[test]
fn presentation_feedback_covers_intersecting_windows_and_all_layers() {
    let mut p = model_with_stack(2);
    // move window 0 off the output; it no longer gets feedback even
    // though it stays mapped
    p.map_element(0, Point { x: 5000, y: 5000 }, false);
    p.outputs = vec![output_with(
        vec![LayerSurface { surface: 900, layer: LayerKind::Top, loc: Point { x: 0, y: 0 } }],
        None,
    )];
    let fb = take_presentation_feedback(&p, 0);
    assert_eq!(fb, vec![101, 900]);
}

#[test]
fn texture_elements_render_popups_then_the_main_surface() {
    let mut w = Window::new(
        3,
        WindowSurface::Wayland { surface: 30 },
        Rect { loc: Point { x: 5, y: 5 }, size: Size { w: 50, h: 50 } },
    );
    w.popups = vec![Popup {
        surface: 31,
        offset: Point { x: 20, y: 20 },
        geometry_loc: Point { x: 1, y: 1 },
    }];
    let r = texture_render_elements(&w, Point { x: 15, y: 15 }, 1000);
    assert_eq!(r.len(), 2);
    match &r[0] {
        RenderElement::Surface { surface, source, loc } => {
            assert_eq!(*surface, 31);
            assert_eq!(*source, ElementSource::Popup { window: 3 });
            // base (15-5, 15-5) plus popup offset (5+20-1, 5+20-1)
            assert_eq!(*loc, Point { x: 34, y: 34 });
        }
        other => panic!("expected popup surface, got {:?}", other),
    }
    match &r[1] {
        RenderElement::Surface { surface, source, loc } => {
            assert_eq!(*surface, 30);
            assert_eq!(*source, ElementSource::Window { window: 3 });
            assert_eq!(*loc, Point { x: 10, y: 10 });
        }
        other => panic!("expected main surface, got {:?}", other),
    }
}

#[test]
fn foreign_window_without_surface_renders_nothing() {
    let w = Window::new(
        4,
        WindowSurface::X11 { surface: None, override_redirect: false, xwm: 1 },
        Rect { loc: Point { x: 0, y: 0 }, size: Size { w: 50, h: 50 } },
    );
    let r = texture_render_elements(&w, Point { x: 0, y: 0 }, 1000);
    assert!(r.is_empty());
}
