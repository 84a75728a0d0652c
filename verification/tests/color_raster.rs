//! Color conversion and the raster canvas, including the 8-bit
//! quantization round trip.

use generative_art::color::Color;
use generative_art::raster::RasterCanvas;

#[test]
fn channel_round_trip_is_lossless() {
    let mut v: u16 = 0;
    while v <= 255 {
        let c = Color::channel_from_8bit(v as u8);
        assert_eq!(Color::channel_to_8bit(c), v as u8);
        v += 1;
    }
}

#[test]
fn to_8bit_clamps() {
    assert_eq!(Color::channel_to_8bit(-5), 0);
    assert_eq!(Color::channel_to_8bit(0), 0);
    assert_eq!(Color::channel_to_8bit(65536), 255);
    assert_eq!(Color::channel_to_8bit(9999999), 255);
}

#[test]
fn rgba8_round_trip_is_identity() {
    let mut data: Vec<u8> = Vec::new();
    let mut i: u32 = 0;
    while i < 2 * 3 * 4 {
        data.push((i * 11 % 256) as u8);
        i += 1;
    }
    let canvas = RasterCanvas::from_rgba8(2, 3, &data);
    assert_eq!(canvas.as_rgba8(), data);
}

#[test]
fn pixel_access() {
    let mut canvas = RasterCanvas::new(3, 2);
    let c = Color::new(65536, 0, 32768, 65536);
    canvas.set_pixel(2, 1, c);
    assert_eq!(canvas.get_pixel(2, 1), c);
    assert_eq!(canvas.get_pixel(0, 0), Color::transparent());
    assert_eq!(canvas.get_width(), 3);
    assert_eq!(canvas.get_height(), 2);
}

#[test]
fn hex_of_colors() {
    let mut s = String::new();
    Color::white().push_hex(false, &mut s);
    assert_eq!(s, "#FFFFFF");
    let mut s = String::new();
    Color::black().push_hex(true, &mut s);
    assert_eq!(s, "#000000FF");
    let mut s = String::new();
    Color::from_rgba8(255, 0, 128, 255).push_hex(false, &mut s);
    assert_eq!(s, "#FF0080");
}

#[test]
fn as_hex_matches_push_hex() {
    let c = Color::from_rgba8(1, 2, 3, 4);
    let mut pushed = String::new();
    c.push_hex(true, &mut pushed);
    assert_eq!(c.as_hex(true), pushed);
    assert_eq!(Color::white().as_hex(false), "#FFFFFF");
}

#[test]
fn color_arithmetic() {
    let a = Color::new(32768, 32768, 32768, 65536);
    let b = a.plus(a);
    assert_eq!(b.r, 65536);
    assert_eq!(b.a, 131072);
    let c = a.scaled(131072);
    assert_eq!(c.r, 65536);
    // 0.5 / 2.0 == 0.25, and componentwise quotients divide channel by
    // channel.
    assert_eq!(a.divided(131072).r, 16384);
    assert_eq!(b.ratio(a).r, 131072);
    assert_eq!(Color::white().value(), 65536);
    assert_eq!(Color::new(0, 0, 0, 65536).value(), 0);
}
