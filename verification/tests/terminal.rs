use ffl_rust::error::EncodeError;
use ffl_rust::pixel::{background, convert, to_rgb888, to_rgba8888, PixelFormat};
use ffl_rust::terminal::{encode, DiffusionMethod};

#[test]
fn formats_have_three_and_four_channels() {
    assert_eq!(PixelFormat::Rgb888.channels(), 3);
    assert_eq!(PixelFormat::Rgba8888.channels(), 4);
}

#[test]
fn matching_bytes_are_taken() {
    let pixels = vec![9u8; 4 * 3 * 3];
    let call = encode(&pixels, 4, 3, PixelFormat::Rgb888, DiffusionMethod::Atkinson).ok().unwrap();
    assert_eq!(call.pixels(), pixels.as_slice());
    assert_eq!(call.width(), 4);
    assert_eq!(call.height(), 3);
    assert_eq!(call.format(), PixelFormat::Rgb888);
    assert_eq!(call.dithering(), DiffusionMethod::Atkinson);
}

#[test]
fn format_decides_the_length() {
    let pixels = vec![9u8; 12];
    assert!(encode(&pixels, 2, 2, PixelFormat::Rgb888, DiffusionMethod::Auto).is_ok());
    assert!(encode(&pixels, 3, 1, PixelFormat::Rgba8888, DiffusionMethod::Auto).is_ok());
    assert!(matches!(
        encode(&pixels, 2, 2, PixelFormat::Rgba8888, DiffusionMethod::Auto),
        Err(EncodeError::Invalid)
    ));
    assert!(matches!(
        encode(&pixels, 3, 1, PixelFormat::Rgb888, DiffusionMethod::Auto),
        Err(EncodeError::Invalid)
    ));
}

#[test]
fn one_byte_more_or_less_is_invalid() {
    for len in [0usize, 1, 26, 28, 36, 1000] {
        let pixels = vec![0u8; len];
        assert!(matches!(
            encode(&pixels, 3, 3, PixelFormat::Rgb888, DiffusionMethod::Disabled),
            Err(EncodeError::Invalid)
        ));
    }
    assert!(encode(&[0u8; 27], 3, 3, PixelFormat::Rgb888, DiffusionMethod::Disabled).is_ok());
}

#[test]
fn image_without_pixels_is_invalid() {
    for (width, height) in [(0, 0), (0, 4), (4, 0), (-2, -2), (-1, 4), (4, -1)] {
        assert!(matches!(
            encode(&[], width, height, PixelFormat::Rgb888, DiffusionMethod::Atkinson),
            Err(EncodeError::Invalid)
        ));
    }
    assert!(matches!(
        encode(&[0u8; 12], -2, -2, PixelFormat::Rgb888, DiffusionMethod::Atkinson),
        Err(EncodeError::Invalid)
    ));
}

#[test]
fn huge_dimensions_do_not_overflow() {
    let pixels = vec![0u8; 12];
    assert!(matches!(
        encode(&pixels, i32::MAX, i32::MAX, PixelFormat::Rgba8888, DiffusionMethod::Stucki),
        Err(EncodeError::Invalid)
    ));
    assert!(matches!(
        encode(&pixels, 65536, 65536, PixelFormat::Rgb888, DiffusionMethod::Burkes),
        Err(EncodeError::Invalid)
    ));
}

#[test]
fn converted_pixels_fit_their_format() {
    let native = background(5, 2, 0xFF204060);
    let rgb = to_rgb888(&native);
    let rgba = to_rgba8888(&native);
    assert!(encode(&rgb, 5, 2, PixelFormat::Rgb888, DiffusionMethod::FloydSteinberg).is_ok());
    assert!(encode(&rgba, 5, 2, PixelFormat::Rgba8888, DiffusionMethod::JarvisJudiceNinke).is_ok());
    assert!(encode(&rgb, 5, 2, PixelFormat::Rgba8888, DiffusionMethod::Atkinson).is_err());
}

#[test]
fn convert_follows_the_format() {
    let native = [10, 20, 30, 40, 50, 60, 70, 80];
    assert_eq!(convert(&native, PixelFormat::Rgb888), to_rgb888(&native));
    assert_eq!(convert(&native, PixelFormat::Rgba8888), to_rgba8888(&native));
    for format in [PixelFormat::Rgb888, PixelFormat::Rgba8888] {
        let pixels = convert(&native, format);
        assert_eq!(pixels.len(), 2 * format.channels());
        assert!(encode(&pixels, 2, 1, format, DiffusionMethod::Atkinson).is_ok());
        assert!(encode(&pixels, 1, 2, format, DiffusionMethod::Atkinson).is_ok());
    }
}

#[test]
fn invalid_has_its_words() {
    assert_eq!(EncodeError::Invalid.message(), "Pixel bytes do not match the image dimensions");
    assert_eq!(EncodeError::Encoder.message(), "Failed to generate sixel");
}

#[test]
fn sequence_is_handed_on_as_it_came() {
    let pixels = [255u8, 0, 0];
    let call = encode(&pixels, 1, 1, PixelFormat::Rgb888, DiffusionMethod::Atkinson).ok().unwrap();
    let sequence = String::from("\u{1b}Pq\"1;1;1;1#0;2;100;0;0#0@-\u{1b}\\");
    assert_eq!(call.complete(Some(sequence.clone())), Ok(sequence));
}

#[test]
fn encoder_without_answer_is_its_own_failure() {
    let pixels = [255u8, 0, 0];
    let call = encode(&pixels, 1, 1, PixelFormat::Rgb888, DiffusionMethod::Atkinson).ok().unwrap();
    assert_eq!(call.complete(None), Err(EncodeError::Encoder));
}
