//! Images for the terminal: what may be handed to the Sixel encoder, and
//! what becomes of its answer.
//!
//! The encoder reads `width * height` pixels from the bytes it is given and
//! checks no bounds. An [`EncodeCall`] is made only of bytes that match
//! their dimensions and format. The encoder is a native library that the
//! caller links and calls; its answer comes back through
//! [`EncodeCall::complete`].

use crate::error::EncodeError;
use crate::pixel::{
    converted, drop_alpha, is_uniform, lemma_converted_len, lemma_drop_alpha_uniform, native_len,
    native_pixel, rgb_pixel, PixelFormat,
};
use vstd::prelude::*;

verus! {

/// How the encoder spreads the error of a pixel's colour, once reduced to
/// the palette, over the pixels around it.
#[derive(Clone, Copy, Debug, PartialEq, Eq, Structural)]
pub enum DiffusionMethod {
    /// The encoder's own choice.
    Auto,
    /// No diffusion.
    Disabled,
    /// Atkinson's method.
    Atkinson,
    /// Floyd and Steinberg's method.
    FloydSteinberg,
    /// The method of Jarvis, Judice and Ninke.
    JarvisJudiceNinke,
    /// Stucki's method.
    Stucki,
    /// Burkes's method.
    Burkes,
}

/// Whether `len` bytes are an image of `width` by `height` pixels in
/// `format`, rows without padding, and the image has a pixel.
pub open spec fn is_image(len: int, width: int, height: int, format: PixelFormat) -> bool {
    &&& width > 0
    &&& height > 0
    &&& len == width * height * format.channel_count()
}

/// The engine's pixels for a rectangle that holds a pixel, put in the
/// channel order of a format, are an image of that format: what the
/// converter gives, the encoder takes.
pub proof fn lemma_converted_is_image(native: Seq<u8>, width: int, height: int, format: PixelFormat)
    requires
        0 < width,
        0 < height,
        native.len() == native_len(width, height),
    ensures
        is_image(converted(native, format).len() as int, width, height, format),
{
    lemma_converted_len(native, width, height, format);
}

/// A rectangle of the engine in which every pixel has one colour becomes,
/// with its alpha left out, an image of the same dimensions in which every
/// pixel has that colour, and the encoder takes it.
pub proof fn lemma_flat_rectangle_is_flat_image(native: Seq<u8>, width: int, height: int, argb: u32)
    requires
        0 < width,
        0 < height,
        native.len() == native_len(width, height),
        is_uniform(native, native_pixel(argb)),
    ensures
        is_uniform(drop_alpha(native), rgb_pixel(argb)),
        is_image(drop_alpha(native).len() as int, width, height, PixelFormat::Rgb888),
{
    lemma_drop_alpha_uniform(native, argb);
    lemma_converted_is_image(native, width, height, PixelFormat::Rgb888);
}

/// An image that the encoder has yet to turn into a control sequence.
pub struct EncodeCall<'a> {
    pixels: &'a [u8],
    width: i32,
    height: i32,
    format: PixelFormat,
    dithering: DiffusionMethod,
}

impl<'a> EncodeCall<'a> {
    #[verifier::type_invariant]
    spec fn fits(self) -> bool {
        is_image(self.pixels@.len() as int, self.width as int, self.height as int, self.format)
    }

    /// The bytes of the image.
    pub closed spec fn pixels_spec(&self) -> Seq<u8> {
        self.pixels@
    }

    /// Width of the image in pixels.
    pub closed spec fn width_spec(&self) -> i32 {
        self.width
    }

    /// Height of the image in pixels.
    pub closed spec fn height_spec(&self) -> i32 {
        self.height
    }

    /// Channel order of the image.
    pub closed spec fn format_spec(&self) -> PixelFormat {
        self.format
    }

    /// The diffusion to encode with.
    pub closed spec fn dithering_spec(&self) -> DiffusionMethod {
        self.dithering
    }

    /// The bytes to hand to the encoder: as many as the dimensions and the
    /// format ask for.
    pub fn pixels(&self) -> (pixels: &'a [u8])
        ensures
            pixels@ == self.pixels_spec(),
            is_image(
                pixels@.len() as int,
                self.width_spec() as int,
                self.height_spec() as int,
                self.format_spec(),
            ),
    {
        proof {
            use_type_invariant(self);
        }
        self.pixels
    }

    /// Width of the image in pixels.
    pub fn width(&self) -> (width: i32)
        ensures
            width == self.width_spec(),
            width > 0,
    {
        proof {
            use_type_invariant(self);
        }
        self.width
    }

    /// Height of the image in pixels.
    pub fn height(&self) -> (height: i32)
        ensures
            height == self.height_spec(),
            height > 0,
    {
        proof {
            use_type_invariant(self);
        }
        self.height
    }

    /// Channel order of the image.
    pub fn format(&self) -> (format: PixelFormat)
        ensures
            format == self.format_spec(),
    {
        self.format
    }

    /// The diffusion to encode with.
    pub fn dithering(&self) -> (dithering: DiffusionMethod)
        ensures
            dithering == self.dithering_spec(),
    {
        self.dithering
    }

    /// Takes what the encoder answered to this call: the control sequence,
    /// or nothing where it failed. The sequence is handed on as it came.
    pub fn complete(self, outcome: Option<String>) -> (r: Result<String, EncodeError>)
        ensures
            outcome matches Some(sequence) ==> {
                &&& r matches Ok(s)
                &&& s@ == sequence@
            },
            outcome is None ==> r == Err::<String, EncodeError>(EncodeError::Encoder),
    {
        match outcome {
            Some(sequence) => Ok(sequence),
            None => Err(EncodeError::Encoder),
        }
    }
}

/// Prepares the encoding of the image of `width` by `height` pixels that
/// `pixels` holds in `format`, row by row without padding. Bytes that are
/// not such an image are refused, and so is an image without a pixel.
pub fn encode<'a>(
    pixels: &'a [u8],
    width: i32,
    height: i32,
    format: PixelFormat,
    dithering: DiffusionMethod,
) -> (r: Result<EncodeCall<'a>, EncodeError>)
    ensures
        is_image(pixels@.len() as int, width as int, height as int, format) <==> r is Ok,
        r matches Ok(call) ==> {
            &&& call.pixels_spec() == pixels@
            &&& call.width_spec() == width
            &&& call.height_spec() == height
            &&& call.format_spec() == format
            &&& call.dithering_spec() == dithering
        },
        r matches Err(e) ==> e == EncodeError::Invalid,
{
    if width <= 0 || height <= 0 {
        return Err(EncodeError::Invalid);
    }
    assert(0 < width * height <= 0x3fff_ffff_0000_0001) by (nonlinear_arith)
        requires
            0 < width <= 0x7fff_ffff,
            0 < height <= 0x7fff_ffff,
    ;
    let count: u64 = (width as u64) * (height as u64);
    let channels: u64 = format.channels() as u64;
    let len: u64 = pixels.len() as u64;
    if len % channels != 0 || len / channels != count {
        assert(pixels@.len() != width * height * format.channel_count()) by (nonlinear_arith)
            requires
                len == pixels@.len(),
                channels == format.channel_count(),
                count == width * height,
                channels > 0,
                len % channels != 0 || len / channels != count,
        ;
        return Err(EncodeError::Invalid);
    }
    assert(pixels@.len() == width * height * format.channel_count()) by (nonlinear_arith)
        requires
            len == pixels@.len(),
            channels == format.channel_count(),
            count == width * height,
            channels > 0,
            len % channels == 0,
            len / channels == count,
    ;
    Ok(EncodeCall { pixels, width, height, format, dithering })
}

} // verus!
