use ffl_rust::pixel::{background, to_rgb888};
use ffl_rust::raster::rgb_image;

#[test]
fn image_holds_the_pixels_without_alpha() {
    let native = [10, 20, 30, 40, 50, 60, 70, 80];
    let img = rgb_image(&native, 2, 1);
    assert_eq!(img.dimensions(), (2, 1));
    assert_eq!(img.to_bytes(), vec![30, 20, 10, 70, 60, 50]);
}

#[test]
fn image_keeps_rows_apart() {
    let native: Vec<u8> = (0u8..24).collect();
    let wide = rgb_image(&native, 3, 2);
    let tall = rgb_image(&native, 2, 3);
    assert_eq!(wide.dimensions(), (3, 2));
    assert_eq!(tall.dimensions(), (2, 3));
    let expected = vec![2, 1, 0, 6, 5, 4, 10, 9, 8, 14, 13, 12, 18, 17, 16, 22, 21, 20];
    assert_eq!(wide.to_bytes(), expected);
    assert_eq!(tall.to_bytes(), expected);
}

#[test]
fn image_agrees_with_the_plain_conversion() {
    let native: Vec<u8> = (0..5 * 4 * 4).map(|i| (i * 7 % 251) as u8).collect();
    assert_eq!(rgb_image(&native, 5, 4).to_bytes(), to_rgb888(&native));
}

#[test]
fn black_pixels_replace_the_white_fill() {
    let native = background(3, 3, 0xFF000000);
    assert_eq!(rgb_image(&native, 3, 3).to_bytes(), vec![0u8; 27]);
}

#[test]
fn flat_image_stays_flat_at_its_size() {
    let native = background(8, 6, 0xFF336699);
    let img = rgb_image(&native, 8, 6);
    assert_eq!(img.dimensions(), (8, 6));
    let bytes = img.to_bytes();
    assert_eq!(bytes.len(), 8 * 6 * 3);
    for pixel in bytes.chunks(3) {
        assert_eq!(pixel, &[0x33, 0x66, 0x99]);
    }
}

#[test]
fn image_without_pixels_is_empty() {
    let img = rgb_image(&[], 0, 0);
    assert_eq!(img.dimensions(), (0, 0));
    assert!(img.to_bytes().is_empty());
    let img = rgb_image(&[], 4, 0);
    assert_eq!(img.dimensions(), (4, 0));
    assert!(img.to_bytes().is_empty());
}
