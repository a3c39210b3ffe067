//! Tests for the render entry point's validation and plan, the effective
//! scale, and color parsing.

use lsystem_fractals::color::parse_hex_color;
use lsystem_fractals::errors::RenderError;
use lsystem_fractals::render::{effective_scale, prepare_render};
use lsystem_fractals::turtle::TurtleOp;

#[test]
fn plan_carries_entry_data_and_colors() {
    let plan = prepare_render(4, 1, "#102030", "a0b0c0").unwrap();
    assert_eq!(plan.angle_tenth_degrees, 900);
    assert_eq!(plan.initial_angle_urad, 30000000);
    assert_eq!(plan.length_ppm, 60000);
    assert_eq!(plan.height_ppm, 500000);
    assert_eq!(plan.width_ppm, 800000);
    assert_eq!(plan.iterations, 1);
    assert_eq!(plan.color_start.red, 0x10);
    assert_eq!(plan.color_start.green, 0x20);
    assert_eq!(plan.color_start.blue, 0x30);
    assert_eq!(plan.color_end.red, 0xA0);
    assert_eq!(plan.color_end.green, 0xB0);
    assert_eq!(plan.color_end.blue, 0xC0);
    // Dragon curve after one round is "FX+YF+": two forwards, two turns.
    assert_eq!(
        plan.ops,
        vec![TurtleOp::Forward, TurtleOp::TurnPlus, TurtleOp::Forward, TurtleOp::TurnPlus]
    );
}

#[test]
fn every_entry_yields_a_plan() {
    for t in 1..=17u32 {
        let plan = prepare_render(t, 1, "#000000", "#FFFFFF").unwrap();
        assert!(!plan.ops.is_empty(), "entry {t}");
    }
}

#[test]
fn unknown_fractal_is_reported_first() {
    // Even with everything else wrong, the identifier decides.
    assert_eq!(
        prepare_render(0, 999, "zzz", "zzz").unwrap_err(),
        RenderError::UnknownFractal
    );
    assert_eq!(
        prepare_render(18, 0, "#000000", "#FFFFFF").unwrap_err(),
        RenderError::UnknownFractal
    );
}

#[test]
fn iteration_ceiling_is_reported_before_colors() {
    assert_eq!(
        prepare_render(5, 4, "zzz", "zzz").unwrap_err(),
        RenderError::IterationLimitExceeded
    );
}

#[test]
fn invalid_colors_are_rejected() {
    assert_eq!(
        prepare_render(1, 1, "12345", "#FFFFFF").unwrap_err(),
        RenderError::InvalidColor
    );
    assert_eq!(
        prepare_render(1, 1, "#000000", "#12345G").unwrap_err(),
        RenderError::InvalidColor
    );
}

#[test]
fn color_parsing_is_exact() {
    let c = parse_hex_color("#1A2b3C").unwrap();
    assert_eq!((c.red, c.green, c.blue), (0x1A, 0x2B, 0x3C));
    let c = parse_hex_color("FFffFF").unwrap();
    assert_eq!((c.red, c.green, c.blue), (255, 255, 255));
    let c = parse_hex_color("#000000").unwrap();
    assert_eq!((c.red, c.green, c.blue), (0, 0, 0));
}

#[test]
fn color_parsing_rejects_malformed_strings() {
    for bad in ["", "#", "#12345", "1234567", "#1234567", "12345G", "##12345", " 123456"] {
        assert_eq!(parse_hex_color(bad).unwrap_err(), RenderError::InvalidColor, "{bad:?}");
    }
}

#[test]
fn narrow_surfaces_scale_by_height() {
    assert_eq!(effective_scale(599, 400), 800);
    assert_eq!(effective_scale(600, 400), 600);
    assert_eq!(effective_scale(1920, 1080), 1920);
    assert_eq!(effective_scale(0, u32::MAX), 2 * (u32::MAX as u64));
}
