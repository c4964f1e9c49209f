//! The configuration API: output handles, properties, placement
//! arithmetic, tags and signals.

use pinnacle::api_output::{
    Alignment, Mode, Output, OutputHandle, OutputId, OutputProperties, Transform,
};
use pinnacle::api_signal::{OutputSignal, SignalRegistry, TagSignal};
use pinnacle::api_tag::{self, TagHandle, TagRecord};
use pinnacle::api_window::WindowHandle;
use pinnacle::wire;

fn handle(name: &str) -> OutputHandle {
    OutputHandle { name: name.to_string() }
}

fn props_with_geometry(x: i32, y: i32, w: u32, h: u32) -> OutputProperties {
    OutputProperties {
        x: Some(x),
        y: Some(y),
        logical_width: Some(w),
        logical_height: Some(h),
        ..Default::default()
    }
}

#[test]
fn get_all_wraps_every_connector_name() {
    let handles = Output.get_all(vec!["eDP-1".to_string(), "HDMI-A-1".to_string()]);
    assert_eq!(handles.len(), 2);
    assert_eq!(handles[0].name, "eDP-1");
    assert_eq!(handles[1].name, "HDMI-A-1");
}

#[test]
fn get_all_enabled_keeps_only_positive_answers() {
    let handles = vec![handle("a"), handle("b"), handle("c")];
    let enabled = vec![Some(true), Some(false), None];
    let r = Output.get_all_enabled(handles, enabled);
    assert_eq!(r.len(), 1);
    assert_eq!(r[0].name, "a");
}

#[test]
fn get_by_name_finds_the_first_match() {
    let handles = vec![handle("a"), handle("b")];
    let r = Output.get_by_name(&handles, &"b".to_string());
    assert_eq!(r.unwrap().name, "b");
    assert!(Output.get_by_name(&handles, &"zz".to_string()).is_none());
}

#[test]
fn output_id_matches_by_name() {
    let id = OutputId::name("eDP-1".to_string());
    assert!(id.matches(&handle("eDP-1")));
    assert!(!id.matches(&handle("HDMI-A-1")));
}

#[test]
fn signals_hand_out_fresh_tokens_and_count_registrations() {
    let mut reg = SignalRegistry::new();
    let h1 = Output.connect_signal(OutputSignal::Connect, &mut reg);
    let h2 = Output.connect_signal(OutputSignal::Resize, &mut reg);
    let h3 = api_tag::connect_signal(TagSignal::Active, &mut reg);
    assert_ne!(h1.token, h2.token);
    assert_ne!(h2.token, h3.token);
    assert_eq!(reg.output_connect, 1);
    assert_eq!(reg.output_resize, 1);
    assert_eq!(reg.tag_active, 1);
    assert_eq!(reg.output_disconnect, 0);
}

#[test]
fn adjacent_placement_bottom_align_right() {
    // the other output sits at (1920, 0), 2560x1440; this one is
    // 1920x1080: below it, right borders aligned
    let sp = props_with_geometry(0, 0, 1920, 1080);
    let op = props_with_geometry(1920, 0, 2560, 1440);
    let r = handle("a").set_loc_adj_to(&sp, &op, Alignment::BottomAlignRight);
    assert_eq!(r, Some((1920 + (2560 - 1920), 0 + 1440)));
}

#[test]
fn adjacent_placement_centers_truncate_toward_zero() {
    // a larger output centered left of a smaller one: the half difference
    // is negative and truncates toward zero, as machine division does
    let sp = props_with_geometry(0, 0, 1000, 1001);
    let op = props_with_geometry(0, 0, 500, 500);
    let r = handle("a").set_loc_adj_to(&sp, &op, Alignment::LeftAlignCenter);
    assert_eq!(r, Some((0 - 1000, 0 + (500 - 1001) / 2)));
    let r = handle("a").set_loc_adj_to(&sp, &op, Alignment::TopAlignCenter);
    assert_eq!(r, Some(((500 - 1000) / 2, -1001)));
}

#[test]
fn adjacent_placement_needs_both_geometries() {
    let sp = OutputProperties::default();
    let op = props_with_geometry(0, 0, 500, 500);
    assert_eq!(
        handle("a").set_loc_adj_to(&sp, &op, Alignment::RightAlignTop),
        None
    );
}

#[test]
fn properties_unpack_from_a_wire_response() {
    let resp = wire::OutputPropertiesResponse {
        make: Some("ACME".to_string()),
        model: Some("Panel".to_string()),
        x: Some(10),
        y: Some(-5),
        logical_width: Some(1920),
        logical_height: Some(1080),
        current_mode: Some(wire::Mode {
            pixel_width: Some(1920),
            pixel_height: Some(1080),
            refresh_rate_millihz: Some(60000),
        }),
        preferred_mode: Some(wire::Mode {
            pixel_width: Some(1920),
            pixel_height: None,
            refresh_rate_millihz: Some(60000),
        }),
        modes: vec![
            wire::Mode {
                pixel_width: Some(1280),
                pixel_height: Some(720),
                refresh_rate_millihz: Some(60000),
            },
            wire::Mode { pixel_width: None, pixel_height: Some(1), refresh_rate_millihz: None },
        ],
        physical_width: Some(600),
        physical_height: Some(340),
        focused: Some(true),
        tag_ids: vec![3, 4],
        scale_millis: Some(1250),
        transform: Some(3),
        serial_str: Some("A1B2C3".to_string()),
        keyboard_focus_stack_window_ids: vec![8, 9],
        enabled: Some(true),
        powered: None,
    };
    let p = OutputProperties::from_response(resp);
    assert_eq!(p.make.as_deref(), Some("ACME"));
    assert_eq!(
        p.current_mode,
        Some(Mode { pixel_width: 1920, pixel_height: 1080, refresh_rate_millihertz: 60000 })
    );
    // an incomplete mode is refused
    assert_eq!(p.preferred_mode, None);
    assert_eq!(p.modes.len(), 1);
    assert_eq!(p.tags, vec![TagHandle { id: 3 }, TagHandle { id: 4 }]);
    assert_eq!(p.transform, Some(Transform::Rotate180));
    assert_eq!(
        p.keyboard_focus_stack,
        vec![WindowHandle { id: 8 }, WindowHandle { id: 9 }]
    );
    assert_eq!(p.scale_millis, Some(1250));
    assert_eq!(p.powered, None);
}

#[test]
fn property_getters_read_the_answered_fields() {
    let p = OutputProperties {
        focused: Some(true),
        enabled: Some(false),
        keyboard_focus_stack: vec![WindowHandle { id: 1 }, WindowHandle { id: 2 }],
        ..props_with_geometry(3, 4, 800, 600)
    };
    let h = handle("eDP-1");
    assert_eq!(h.x(&p), Some(3));
    assert_eq!(h.y(&p), Some(4));
    assert_eq!(h.logical_width(&p), Some(800));
    assert_eq!(h.logical_height(&p), Some(600));
    assert_eq!(h.focused(&p), Some(true));
    assert_eq!(h.enabled(&p), Some(false));
    assert_eq!(h.powered(&p), None);
    assert_eq!(h.name(), "eDP-1");
    let visible = h.keyboard_focus_stack_visible(&p, &vec![false, true]);
    assert_eq!(visible, vec![WindowHandle { id: 2 }]);
}

#[test]
fn transform_codes_round_trip() {
    for t in [
        Transform::Normal,
        Transform::Rotate90,
        Transform::Rotate180,
        Transform::Rotate270,
        Transform::Flipped,
        Transform::Flipped90,
        Transform::Flipped180,
        Transform::Flipped270,
    ] {
        assert_eq!(Transform::try_from_code(t.code()), Some(t));
    }
    assert_eq!(Transform::try_from_code(0), None);
    assert_eq!(Transform::try_from_code(9), None);
}

#[test]
fn tags_resolve_by_name_output_and_id() {
    let records = vec![
        TagRecord {
            handle: TagHandle { id: 1 },
            name: "web".to_string(),
            output: handle("eDP-1"),
            active: false,
        },
        TagRecord {
            handle: TagHandle { id: 2 },
            name: "web".to_string(),
            output: handle("HDMI-A-1"),
            active: true,
        },
    ];
    let r = api_tag::get_on_output(&"web".to_string(), &handle("HDMI-A-1"), &records);
    assert_eq!(r, Some(TagHandle { id: 2 }));
    let r = api_tag::get(&"web".to_string(), Some(&handle("eDP-1")), &records);
    assert_eq!(r, Some(TagHandle { id: 1 }));
    assert_eq!(api_tag::get(&"web".to_string(), None, &records), None);
    assert_eq!(
        api_tag::get_on_output(&"mail".to_string(), &handle("eDP-1"), &records),
        None
    );

    let t = TagHandle { id: 2 };
    assert!(t.active(&records));
    assert_eq!(t.name(&records), "web");
    assert_eq!(t.output(&records).name, "HDMI-A-1");
    assert_eq!(t.id(), 2);
}

#[test]
fn get_all_tags_wraps_every_id() {
    let handles = api_tag::get_all(vec![5, 6, 7]);
    assert_eq!(
        handles,
        vec![TagHandle { id: 5 }, TagHandle { id: 6 }, TagHandle { id: 7 }]
    );
}
