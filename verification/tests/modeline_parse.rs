//! Modeline parsing: the exact field values, and every error kind.

use pinnacle::modeline::{Modeline, ParseModelineError, ParseModelineErrorKind};
use pinnacle::modeline::ParseModelineErrorKind::{
    InvalidClock, InvalidHdisplay, InvalidHsync, InvalidHsyncEnd, InvalidHsyncStart,
    InvalidHtotal, InvalidVdisplay, InvalidVsync, InvalidVsyncEnd, InvalidVsyncStart,
    InvalidVtotal, NoClock, NoHdisplay, NoHsync, NoHsyncEnd, NoHsyncStart, NoHtotal, NoVdisplay,
    NoVsync, NoVsyncEnd, NoVsyncStart, NoVtotal,
};

fn kind(s: &str) -> ParseModelineErrorKind {
    match Modeline::parse(s) {
        Err(ParseModelineError(k)) => k,
        Ok(m) => panic!("expected an error for {:?}, got {:?}", s, m),
    }
}

#[test]
fn a_full_modeline_parses_exactly() {
    let m = Modeline::parse("173.00 1920 2048 2248 2576 1080 1083 1088 1120 -hsync +vsync")
        .expect("a well-formed modeline must parse");
    assert_eq!(
        m,
        Modeline {
            clock_khz: 173_000,
            hdisplay: 1920,
            hsync_start: 2048,
            hsync_end: 2248,
            htotal: 2576,
            vdisplay: 1080,
            vsync_start: 1083,
            vsync_end: 1088,
            vtotal: 1120,
            hsync: false,
            vsync: true,
        }
    );
}

#[test]
fn clock_fraction_scales_to_kilohertz() {
    let tail = "1920 2048 2248 2576 1080 1083 1088 1120 +hsync -vsync";
    assert_eq!(
        Modeline::parse(&format!("173 {}", tail)).unwrap().clock_khz,
        173_000
    );
    assert_eq!(
        Modeline::parse(&format!("173.5 {}", tail)).unwrap().clock_khz,
        173_500
    );
    assert_eq!(
        Modeline::parse(&format!("173.25 {}", tail)).unwrap().clock_khz,
        173_250
    );
    assert_eq!(
        Modeline::parse(&format!("173.125 {}", tail)).unwrap().clock_khz,
        173_125
    );
    // digits beyond thousandths are accepted and ignored
    assert_eq!(
        Modeline::parse(&format!("173.1259 {}", tail)).unwrap().clock_khz,
        173_125
    );
}

#[test]
fn sync_polarities_read_case_insensitively() {
    let m = Modeline::parse("10 1 2 3 4 5 6 7 8 +HSync -VSYNC").unwrap();
    assert!(m.hsync);
    assert!(!m.vsync);
}

#[test]
fn whitespace_runs_and_tabs_separate_tokens() {
    let m = Modeline::parse("  10\t1  2 3\t\t4 5 6 7 8\t-hsync\t-vsync  ").unwrap();
    assert_eq!(m.clock_khz, 10_000);
    assert_eq!(m.hdisplay, 1);
    assert!(!m.hsync && !m.vsync);
}

#[test]
fn every_missing_field_names_its_error() {
    assert_eq!(kind(""), NoClock);
    assert_eq!(kind("   "), NoClock);
    assert_eq!(kind("10"), NoHdisplay);
    assert_eq!(kind("10 1"), NoHsyncStart);
    assert_eq!(kind("10 1 2"), NoHsyncEnd);
    assert_eq!(kind("10 1 2 3"), NoHtotal);
    assert_eq!(kind("10 1 2 3 4"), NoVdisplay);
    assert_eq!(kind("10 1 2 3 4 5"), NoVsyncStart);
    assert_eq!(kind("10 1 2 3 4 5 6"), NoVsyncEnd);
    assert_eq!(kind("10 1 2 3 4 5 6 7"), NoVtotal);
    assert_eq!(kind("10 1 2 3 4 5 6 7 8"), NoHsync);
    assert_eq!(kind("10 1 2 3 4 5 6 7 8 +hsync"), NoVsync);
}

#[test]
fn every_malformed_field_names_its_error() {
    assert_eq!(kind("abc"), InvalidClock);
    assert_eq!(kind(".5 1 2 3 4 5 6 7 8 +hsync +vsync"), InvalidClock);
    assert_eq!(kind("10 x"), InvalidHdisplay);
    assert_eq!(kind("10 1 x"), InvalidHsyncStart);
    assert_eq!(kind("10 1 2 x"), InvalidHsyncEnd);
    assert_eq!(kind("10 1 2 3 x"), InvalidHtotal);
    assert_eq!(kind("10 1 2 3 4 x"), InvalidVdisplay);
    assert_eq!(kind("10 1 2 3 4 5 x"), InvalidVsyncStart);
    assert_eq!(kind("10 1 2 3 4 5 6 x"), InvalidVsyncEnd);
    assert_eq!(kind("10 1 2 3 4 5 6 7 x"), InvalidVtotal);
    assert_eq!(kind("10 1 2 3 4 5 6 7 8 hsync +vsync"), InvalidHsync);
    assert_eq!(kind("10 1 2 3 4 5 6 7 8 +vsync +hsync"), InvalidHsync);
    assert_eq!(kind("10 1 2 3 4 5 6 7 8 +hsync vsync"), InvalidVsync);
}

#[test]
fn numbers_too_large_for_their_field_are_invalid() {
    // 2^32 kilohertz does not fit
    assert_eq!(kind("4294967.296 1 2 3 4 5 6 7 8 +hsync +vsync"), InvalidClock);
    assert_eq!(kind("10 4294967296"), InvalidHdisplay);
    // the largest representable values still parse
    let m = Modeline::parse("4294967.295 4294967295 2 3 4 5 6 7 8 +hsync +vsync").unwrap();
    assert_eq!(m.clock_khz, u32::MAX);
    assert_eq!(m.hdisplay, u32::MAX);
}

#[test]
fn trailing_tokens_are_ignored() {
    let m = Modeline::parse("10 1 2 3 4 5 6 7 8 -hsync -vsync extra tokens").unwrap();
    assert_eq!(m.vtotal, 8);
}
