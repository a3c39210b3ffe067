//! Tests for the gradient recoloring pass.

use lsystem_fractals::color::{parse_hex_color, Rgb};
use lsystem_fractals::gradient::recolor;

fn black() -> Rgb {
    parse_hex_color("#000000").unwrap()
}

fn white() -> Rgb {
    parse_hex_color("#FFFFFF").unwrap()
}

/// A drawn pixel is an opaque black RGBA quad, as the surface strokes it.
fn draw_pixel(buffer: &mut [u8], pixel: usize) {
    buffer[4 * pixel + 3] = 255;
}

#[test]
fn first_scan_pixel_is_near_start_color() {
    // 2 x 2 surface, one drawn pixel at the first scan index.  Its alpha
    // byte sits at index 3 of 16, so the blend fraction is 3/16 of the
    // way from black to white: near black.
    let mut buffer = vec![0u8; 16];
    draw_pixel(&mut buffer, 0);
    recolor(&mut buffer, 2, 2, black(), white());
    let expected = (255 * 3 / 16) as u8;
    assert_eq!(&buffer[0..3], &[expected, expected, expected]);
    assert!(expected < 64, "near black");
    // Alpha is untouched and other pixels keep their bytes.
    assert_eq!(buffer[3], 255);
    assert_eq!(&buffer[4..], &[0u8; 12]);
}

#[test]
fn last_scan_pixel_is_near_end_color() {
    let mut buffer = vec![0u8; 16];
    draw_pixel(&mut buffer, 3);
    recolor(&mut buffer, 2, 2, black(), white());
    let expected = (255 * 15 / 16) as u8;
    assert_eq!(&buffer[12..15], &[expected, expected, expected]);
    assert!(expected > 192, "near white");
    assert_eq!(buffer[15], 255);
    assert_eq!(&buffer[0..12], &[0u8; 12]);
}

#[test]
fn untouched_background_keeps_its_bytes() {
    let mut buffer = vec![0u8; 32];
    let before = buffer.clone();
    recolor(&mut buffer, 4, 2, black(), white());
    assert_eq!(buffer, before);
}

#[test]
fn blend_is_exact_between_arbitrary_colors() {
    // One drawn pixel on a 1 x 2 surface; endpoint colors differ per
    // channel and the blend truncates at fraction 3/8.
    let start = parse_hex_color("402000").unwrap();
    let end = parse_hex_color("80FF10").unwrap();
    let mut buffer = vec![0u8; 8];
    draw_pixel(&mut buffer, 0);
    recolor(&mut buffer, 1, 2, start, end);
    let blend = |a: i64, b: i64| -> u8 { ((a * 8 + (b - a) * 3) / 8) as u8 };
    assert_eq!(buffer[0], blend(0x40, 0x80));
    assert_eq!(buffer[1], blend(0x20, 0xFF));
    assert_eq!(buffer[2], blend(0x00, 0x10));
    assert_eq!(buffer[3], 255);
}

#[test]
fn every_drawn_pixel_is_recolored() {
    let mut buffer = vec![0u8; 16];
    draw_pixel(&mut buffer, 0);
    draw_pixel(&mut buffer, 1);
    draw_pixel(&mut buffer, 2);
    draw_pixel(&mut buffer, 3);
    recolor(&mut buffer, 2, 2, black(), white());
    for pixel in 0..4usize {
        let i = 4 * pixel + 3;
        let expected = (255 * i / 16) as u8;
        assert_eq!(&buffer[4 * pixel..4 * pixel + 3], &[expected, expected, expected]);
        assert_eq!(buffer[i], 255);
    }
}
