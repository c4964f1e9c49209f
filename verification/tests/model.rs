//! The shared model: Space/Z-order consistency across map and unmap
//! cycles, raising, and the derived output lookup.

use pinnacle::geometry::{Point, Rect, Size};
use pinnacle::model::{OutputState, Pinnacle, SpaceEntry, Tag};
use pinnacle::window::{Window, WindowSurface};

fn model_with_windows(ids: &[u32]) -> Pinnacle {
    let mut p = Pinnacle::new();
    for (k, id) in ids.iter().enumerate() {
        p.insert_window(Window::new(
            *id,
            WindowSurface::Wayland { surface: 100 + k as u32 },
            Rect { loc: Point { x: 0, y: 0 }, size: Size { w: 100, h: 100 } },
        ));
    }
    p
}

fn output(name: &str, x: i32, y: i32, w: i32, h: i32) -> OutputState {
    OutputState {
        name: name.to_string(),
        loc: Point { x, y },
        size: Size { w, h },
        scale_millis: 1000,
        layer_surfaces: Vec::new(),
        snapshot: None,
    }
}

fn in_space(p: &Pinnacle, id: u32) -> bool {
    p.space_index(id).is_some()
}

fn in_stack(p: &Pinnacle, id: u32) -> bool {
    p.stack_index(id).is_some()
}

#[test]
fn space_and_stack_agree_across_map_unmap_cycles() {
    let mut p = model_with_windows(&[1, 2, 3]);
    // nothing mapped yet: both empty
    for id in [1, 2, 3] {
        assert!(!in_space(&p, id));
        assert!(!in_stack(&p, id));
    }
    p.map_element(1, Point { x: 0, y: 0 }, true);
    p.map_element(2, Point { x: 50, y: 0 }, true);
    for id in [1, 2] {
        assert_eq!(in_space(&p, id), in_stack(&p, id));
        assert!(in_space(&p, id));
    }
    assert!(!in_space(&p, 3) && !in_stack(&p, 3));
    // unmapping removes from both at once
    p.remove_window(1);
    assert!(!in_space(&p, 1) && !in_stack(&p, 1));
    assert!(in_space(&p, 2) && in_stack(&p, 2));
    // remapping restores both
    p.insert_window(Window::new(
        1,
        WindowSurface::Wayland { surface: 100 },
        Rect { loc: Point { x: 0, y: 0 }, size: Size { w: 100, h: 100 } },
    ));
    p.map_element(1, Point { x: 10, y: 10 }, false);
    assert!(in_space(&p, 1) && in_stack(&p, 1));
}

#[test]
fn mapping_sets_the_mapped_flag_and_location() {
    let mut p = model_with_windows(&[4]);
    p.map_element(4, Point { x: 7, y: -3 }, true);
    let wi = p.find_window(4).unwrap();
    assert!(p.windows[wi].mapped);
    assert_eq!(p.element_location(4), Some(Point { x: 7, y: -3 }));
    // remapping moves it without duplicating the entry
    p.map_element(4, Point { x: 8, y: 9 }, false);
    assert_eq!(p.element_location(4), Some(Point { x: 8, y: 9 }));
    assert_eq!(p.space.len(), 1);
    assert_eq!(p.z_index_stack.len(), 1);
}

#[test]
fn mapping_a_new_window_enters_at_the_front() {
    let mut p = model_with_windows(&[1, 2, 3]);
    p.map_element(1, Point { x: 0, y: 0 }, false);
    p.map_element(2, Point { x: 0, y: 0 }, false);
    p.map_element(3, Point { x: 0, y: 0 }, false);
    assert_eq!(p.z_index_stack, vec![3, 2, 1]);
}

#[test]
fn raising_moves_to_the_front_and_keeps_membership() {
    let mut p = model_with_windows(&[1, 2, 3]);
    p.map_element(1, Point { x: 0, y: 0 }, true);
    p.map_element(2, Point { x: 0, y: 0 }, true);
    p.map_element(3, Point { x: 0, y: 0 }, true);
    assert_eq!(p.z_index_stack, vec![3, 2, 1]);
    p.raise_window(1);
    assert_eq!(p.z_index_stack, vec![1, 3, 2]);
    // raising a window that is not in the stack changes nothing
    p.raise_window(99);
    assert_eq!(p.z_index_stack, vec![1, 3, 2]);
}

#[test]
fn window_for_surface_finds_the_owner() {
    let p = model_with_windows(&[1, 2]);
    let wi = p.window_for_surface(101).unwrap();
    assert_eq!(p.windows[wi].id, 2);
    assert!(p.window_for_surface(999).is_none());
}

#[test]
fn tag_activity_decides_visibility() {
    let mut p = model_with_windows(&[1]);
    p.tags = vec![Tag { id: 5, active: false }, Tag { id: 6, active: true }];
    let wi = p.find_window(1).unwrap();
    let mut w = p.windows.remove(wi);
    w.tags = vec![5];
    p.windows.insert(wi, w);
    assert!(!p.is_on_active_tag(wi));
    let mut w = p.windows.remove(wi);
    w.tags = vec![5, 6];
    p.windows.insert(wi, w);
    assert!(p.is_on_active_tag(wi));
}

#[test]
fn outputs_overlapping_uses_rectangle_intersection() {
    let mut p = Pinnacle::new();
    p.outputs = vec![
        output("left", 0, 0, 1920, 1080),
        output("right", 1920, 0, 1280, 1024),
    ];
    let names = p.outputs_overlapping(Rect {
        loc: Point { x: 1900, y: 100 },
        size: Size { w: 100, h: 100 },
    });
    assert_eq!(names, vec!["left".to_string(), "right".to_string()]);
    let names = p.outputs_overlapping(Rect {
        loc: Point { x: 0, y: 0 },
        size: Size { w: 10, h: 10 },
    });
    assert_eq!(names, vec!["left".to_string()]);
}

#[test]
fn output_for_window_is_a_derived_lookup() {
    let mut p = model_with_windows(&[1]);
    p.outputs = vec![output("only", 0, 0, 800, 600)];
    assert_eq!(p.output_for_window(1), None);
    p.map_element(1, Point { x: 10, y: 10 }, true);
    assert_eq!(p.output_for_window(1), Some("only".to_string()));
    p.map_element(1, Point { x: 5000, y: 5000 }, false);
    assert_eq!(p.output_for_window(1), None);
}

#[test]
fn space_entries_pair_windows_with_locations() {
    let mut p = model_with_windows(&[9]);
    p.map_element(9, Point { x: 1, y: 2 }, true);
    assert_eq!(p.space, vec![SpaceEntry { window: 9, loc: Point { x: 1, y: 2 } }]);
}
