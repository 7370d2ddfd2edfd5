use ffl_rust::pixel::{
    background, to_rgb888, to_rgba8888, ALPHA, BLUE, GREEN, NATIVE_CHANNELS, RED,
};

#[test]
fn native_order_is_blue_green_red_alpha() {
    assert_eq!((BLUE, GREEN, RED, ALPHA), (0, 1, 2, 3));
    assert_eq!(NATIVE_CHANNELS, 4);
    assert_eq!(0xAA112233u32.to_le_bytes(), [0x33, 0x22, 0x11, 0xAA]);
    assert_eq!(background(1, 1, 0xAA112233), vec![0x33, 0x22, 0x11, 0xAA]);
}

#[test]
fn background_repeats_the_colour() {
    let buffer = background(3, 2, 0x80FF4000);
    assert_eq!(buffer.len(), 3 * 2 * 4);
    for pixel in buffer.chunks(4) {
        assert_eq!(pixel, &[0x00, 0x40, 0xFF, 0x80]);
    }
}

#[test]
fn white_background_is_all_ones() {
    assert_eq!(background(5, 4, 0xFFFFFFFF), vec![255u8; 80]);
}

#[test]
fn background_without_pixels_is_empty() {
    assert!(background(0, 9, 0xFF000000).is_empty());
    assert!(background(9, 0, 0xFF000000).is_empty());
}

#[test]
fn rgb_drops_alpha_and_swaps_red_and_blue() {
    let native = [10, 20, 30, 40, 50, 60, 70, 80];
    assert_eq!(to_rgb888(&native), vec![30, 20, 10, 70, 60, 50]);
}

#[test]
fn rgba_keeps_alpha_and_swaps_red_and_blue() {
    let native = [10, 20, 30, 40, 50, 60, 70, 80];
    assert_eq!(to_rgba8888(&native), vec![30, 20, 10, 40, 70, 60, 50, 80]);
}

#[test]
fn nothing_converts_to_nothing() {
    assert!(to_rgb888(&[]).is_empty());
    assert!(to_rgba8888(&[]).is_empty());
}

#[test]
fn alpha_does_not_reach_rgb() {
    let opaque = [1, 2, 3, 255];
    let clear = [1, 2, 3, 0];
    assert_eq!(to_rgb888(&opaque), to_rgb888(&clear));
    assert_ne!(to_rgba8888(&opaque), to_rgba8888(&clear));
}

#[test]
fn flat_colour_stays_flat() {
    let native = background(4, 3, 0xFF102030);
    let rgb = to_rgb888(&native);
    assert_eq!(rgb.len(), 4 * 3 * 3);
    for pixel in rgb.chunks(3) {
        assert_eq!(pixel, &[0x10, 0x20, 0x30]);
    }
    let rgba = to_rgba8888(&native);
    assert_eq!(rgba.len(), 4 * 3 * 4);
    for pixel in rgba.chunks(4) {
        assert_eq!(pixel, &[0x10, 0x20, 0x30, 0xFF]);
    }
}

#[test]
fn converted_lengths_follow_the_dimensions() {
    let native = background(6, 7, 0);
    assert_eq!(to_rgb888(&native).len(), 6 * 7 * 3);
    assert_eq!(to_rgba8888(&native).len(), 6 * 7 * 4);
}

#[test]
fn converting_twice_with_alpha_gives_the_engine_order_back() {
    let native: Vec<u8> = (0u8..32).collect();
    assert_eq!(to_rgba8888(&to_rgba8888(&native)), native);
}
