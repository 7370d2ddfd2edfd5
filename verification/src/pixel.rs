//! The engine's pixel layout and its conversion into portable channel orders.
//!
//! The engine packs a pixel as `0xAARRGGBB` and stores it with the lowest
//! byte first: blue, green, red, alpha. Every place of a channel is named
//! here and nowhere else.

use vstd::prelude::*;

verus! {

/// Bytes that one pixel takes in the engine's layout.
pub const NATIVE_CHANNELS: usize = 4;

/// Place of the blue byte within a pixel of the engine.
pub const BLUE: usize = 0;

/// Place of the green byte within a pixel of the engine.
pub const GREEN: usize = 1;

/// Place of the red byte within a pixel of the engine.
pub const RED: usize = 2;

/// Place of the alpha byte within a pixel of the engine.
pub const ALPHA: usize = 3;

/// Channel order of a portable image.
#[derive(Clone, Copy, Debug, PartialEq, Eq, Structural)]
pub enum PixelFormat {
    /// Red, green, blue: three bytes a pixel.
    Rgb888,
    /// Red, green, blue, alpha: four bytes a pixel.
    Rgba8888,
}

impl PixelFormat {
    /// Bytes that one pixel takes.
    pub open spec fn channel_count(self) -> int {
        match self {
            PixelFormat::Rgb888 => 3,
            PixelFormat::Rgba8888 => 4,
        }
    }

    /// Bytes that one pixel takes.
    pub fn channels(self) -> (n: usize)
        ensures
            n == self.channel_count(),
    {
        match self {
            PixelFormat::Rgb888 => 3,
            PixelFormat::Rgba8888 => 4,
        }
    }
}

/// Number of bytes that a `width` by `height` rectangle takes in the
/// engine's layout.
pub open spec fn native_len(width: int, height: int) -> int {
    width * height * 4
}

/// The blue byte of a packed colour.
pub open spec fn blue_of(argb: u32) -> u8 {
    (argb & 0xff) as u8
}

/// The green byte of a packed colour.
pub open spec fn green_of(argb: u32) -> u8 {
    ((argb >> 8) & 0xff) as u8
}

/// The red byte of a packed colour.
pub open spec fn red_of(argb: u32) -> u8 {
    ((argb >> 16) & 0xff) as u8
}

/// The alpha byte of a packed colour.
pub open spec fn alpha_of(argb: u32) -> u8 {
    ((argb >> 24) & 0xff) as u8
}

/// The pixel of a packed colour as the engine stores it.
pub open spec fn native_pixel(argb: u32) -> Seq<u8> {
    seq![blue_of(argb), green_of(argb), red_of(argb), alpha_of(argb)]
}

/// The pixel of a packed colour without its alpha: red, green, blue.
pub open spec fn rgb_pixel(argb: u32) -> Seq<u8> {
    seq![red_of(argb), green_of(argb), blue_of(argb)]
}

/// The pixel of a packed colour with its alpha last: red, green, blue,
/// alpha.
pub open spec fn rgba_pixel(argb: u32) -> Seq<u8> {
    seq![red_of(argb), green_of(argb), blue_of(argb), alpha_of(argb)]
}

/// Place within an engine pixel of the byte that goes to place `channel`
/// of a portable pixel.
pub open spec fn source_of(channel: int) -> int {
    if channel == 0 {
        RED as int
    } else if channel == 1 {
        GREEN as int
    } else if channel == 2 {
        BLUE as int
    } else {
        ALPHA as int
    }
}

/// The pixels of `native` in the order red, green, blue, their alpha left
/// out.
pub open spec fn drop_alpha(native: Seq<u8>) -> Seq<u8> {
    Seq::new((native.len() / 4 * 3) as nat, |i: int| native[(i / 3) * 4 + source_of(i % 3)])
}

/// The pixels of `native` in the order red, green, blue, alpha.
pub open spec fn keep_alpha(native: Seq<u8>) -> Seq<u8> {
    Seq::new((native.len() / 4 * 4) as nat, |i: int| native[(i / 4) * 4 + source_of(i % 4)])
}

/// The pixels of `native` in the channel order of `format`.
pub open spec fn converted(native: Seq<u8>, format: PixelFormat) -> Seq<u8> {
    match format {
        PixelFormat::Rgb888 => drop_alpha(native),
        PixelFormat::Rgba8888 => keep_alpha(native),
    }
}

/// Whether `bytes` is made of repetitions of `pixel`.
pub open spec fn is_uniform(bytes: Seq<u8>, pixel: Seq<u8>) -> bool {
    &&& pixel.len() > 0
    &&& bytes.len() % pixel.len() == 0
    &&& forall|i: int| 0 <= i < bytes.len() ==> bytes[i] == pixel[i % (pixel.len() as int)]
}

/// The four bytes of a packed colour, the lowest first, are the colour
/// again: the engine's pixel is the colour stored little-endian.
pub proof fn lemma_native_pixel_packs(argb: u32)
    ensures
        argb == (blue_of(argb) as u32) | ((green_of(argb) as u32) << 8) | ((red_of(argb) as u32)
            << 16) | ((alpha_of(argb) as u32) << 24),
{
    assert(argb == (((argb & 0xff) as u8) as u32) | (((((argb >> 8) & 0xff) as u8) as u32) << 8) | (
    ((((argb >> 16) & 0xff) as u8) as u32) << 16) | (((((argb >> 24) & 0xff) as u8) as u32) << 24))
        by (bit_vector);
}

/// Pixel `p` of the converted bytes is pixel `p` of the engine's bytes in
/// the order red, green, blue.
pub proof fn lemma_drop_alpha_pixel(native: Seq<u8>, p: int)
    requires
        0 <= p < native.len() / 4,
    ensures
        drop_alpha(native)[3 * p] == native[4 * p + RED as int],
        drop_alpha(native)[3 * p + 1] == native[4 * p + GREEN as int],
        drop_alpha(native)[3 * p + 2] == native[4 * p + BLUE as int],
{
}

/// Pixel `p` of the converted bytes is pixel `p` of the engine's bytes in
/// the order red, green, blue, alpha: no byte is changed or lost.
pub proof fn lemma_keep_alpha_pixel(native: Seq<u8>, p: int)
    requires
        0 <= p < native.len() / 4,
    ensures
        keep_alpha(native)[4 * p] == native[4 * p + RED as int],
        keep_alpha(native)[4 * p + 1] == native[4 * p + GREEN as int],
        keep_alpha(native)[4 * p + 2] == native[4 * p + BLUE as int],
        keep_alpha(native)[4 * p + 3] == native[4 * p + ALPHA as int],
{
}

/// The engine's bytes for a `width` by `height` rectangle convert into as
/// many bytes as that rectangle takes in `format`: the dimensions stay.
pub proof fn lemma_converted_len(native: Seq<u8>, width: int, height: int, format: PixelFormat)
    requires
        0 <= width,
        0 <= height,
        native.len() == native_len(width, height),
    ensures
        converted(native, format).len() == width * height * format.channel_count(),
{
    assert(width * height * 4 == (width * height) * 4 && width * height * 3 == (width * height)
        * 3 && 0 <= width * height) by (nonlinear_arith)
        requires
            0 <= width,
            0 <= height,
    ;
}

/// Pixels that all have one colour keep one colour when their alpha is
/// left out: a flat image converts into a flat image.
pub proof fn lemma_drop_alpha_uniform(native: Seq<u8>, argb: u32)
    requires
        is_uniform(native, native_pixel(argb)),
    ensures
        is_uniform(drop_alpha(native), rgb_pixel(argb)),
{
    let rgb = drop_alpha(native);
    assert forall|i: int| 0 <= i < rgb.len() implies rgb[i] == rgb_pixel(argb)[i % 3] by {
        let source = (i / 3) * 4 + source_of(i % 3);
        assert(0 <= source < native.len());
        assert(source % 4 == source_of(i % 3));
        assert(native[source] == native_pixel(argb)[source % 4]);
    }
}

/// Pixels that all have one colour keep that colour, alpha included, when
/// their channels are put in the portable order.
pub proof fn lemma_keep_alpha_uniform(native: Seq<u8>, argb: u32)
    requires
        is_uniform(native, native_pixel(argb)),
    ensures
        is_uniform(keep_alpha(native), rgba_pixel(argb)),
{
    let rgba = keep_alpha(native);
    assert forall|i: int| 0 <= i < rgba.len() implies rgba[i] == rgba_pixel(argb)[i % 4] by {
        let source = (i / 4) * 4 + source_of(i % 4);
        assert(0 <= source < native.len());
        assert(source % 4 == source_of(i % 4));
        assert(native[source] == native_pixel(argb)[source % 4]);
    }
}

/// A buffer for a `width` by `height` rectangle in which every pixel has
/// the colour `argb`, in the engine's layout. The engine draws over what a
/// buffer holds, so this is the background of what it draws.
pub fn background(width: u32, height: u32, argb: u32) -> (buffer: Vec<u8>)
    requires
        native_len(width as int, height as int) <= usize::MAX,
    ensures
        buffer@.len() == native_len(width as int, height as int),
        is_uniform(buffer@, native_pixel(argb)),
{
    let blue: u8 = (argb & 0xff) as u8;
    let green: u8 = ((argb >> 8) & 0xff) as u8;
    let red: u8 = ((argb >> 16) & 0xff) as u8;
    let alpha: u8 = ((argb >> 24) & 0xff) as u8;
    assert(width * height * 4 == (width * height) * 4 && 0 <= width * height) by (nonlinear_arith);
    let pixels: usize = (width as usize) * (height as usize);
    let mut buffer: Vec<u8> = Vec::new();
    let mut done: usize = 0;
    while done < pixels
        invariant
            done <= pixels,
            pixels * 4 <= usize::MAX,
            buffer@.len() == done * 4,
            blue == blue_of(argb),
            green == green_of(argb),
            red == red_of(argb),
            alpha == alpha_of(argb),
            forall|i: int| 0 <= i < buffer@.len() ==> buffer@[i] == native_pixel(argb)[i % 4],
        decreases pixels - done,
    {
        buffer.push(blue);
        buffer.push(green);
        buffer.push(red);
        buffer.push(alpha);
        done += 1;
    }
    buffer
}

/// Converts pixels of the engine for a destination without alpha: each
/// becomes red, green, blue, and its alpha is left out.
pub fn to_rgb888(native: &[u8]) -> (rgb: Vec<u8>)
    requires
        native@.len() % 4 == 0,
    ensures
        rgb@ == drop_alpha(native@),
{
    let pixels: usize = native.len() / NATIVE_CHANNELS;
    let mut rgb: Vec<u8> = Vec::new();
    let mut done: usize = 0;
    let mut base: usize = 0;
    while done < pixels
        invariant
            done <= pixels,
            base == done * 4,
            pixels == native@.len() / 4,
            native@.len() % 4 == 0,
            rgb@.len() == done * 3,
            forall|i: int| 0 <= i < rgb@.len() ==> rgb@[i] == drop_alpha(native@)[i],
        decreases pixels - done,
    {
        rgb.push(native[base + RED]);
        rgb.push(native[base + GREEN]);
        rgb.push(native[base + BLUE]);
        base += NATIVE_CHANNELS;
        done += 1;
    }
    assert(rgb@ =~= drop_alpha(native@));
    rgb
}

/// Converts pixels of the engine for a destination with alpha: each becomes
/// red, green, blue, alpha, every byte as it was.
pub fn to_rgba8888(native: &[u8]) -> (rgba: Vec<u8>)
    requires
        native@.len() % 4 == 0,
    ensures
        rgba@ == keep_alpha(native@),
{
    let pixels: usize = native.len() / NATIVE_CHANNELS;
    let mut rgba: Vec<u8> = Vec::new();
    let mut done: usize = 0;
    let mut base: usize = 0;
    while done < pixels
        invariant
            done <= pixels,
            base == done * 4,
            pixels == native@.len() / 4,
            native@.len() % 4 == 0,
            rgba@.len() == done * 4,
            forall|i: int| 0 <= i < rgba@.len() ==> rgba@[i] == keep_alpha(native@)[i],
        decreases pixels - done,
    {
        rgba.push(native[base + RED]);
        rgba.push(native[base + GREEN]);
        rgba.push(native[base + BLUE]);
        rgba.push(native[base + ALPHA]);
        base += NATIVE_CHANNELS;
        done += 1;
    }
    assert(rgba@ =~= keep_alpha(native@));
    rgba
}

/// Converts pixels of the engine into the channel order of `format`.
pub fn convert(native: &[u8], format: PixelFormat) -> (pixels: Vec<u8>)
    requires
        native@.len() % 4 == 0,
    ensures
        pixels@ == converted(native@, format),
{
    match format {
        PixelFormat::Rgb888 => to_rgb888(native),
        PixelFormat::Rgba8888 => to_rgba8888(native),
    }
}

} // verus!
