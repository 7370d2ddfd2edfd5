//! Portable RGB images, held in a buffer of the `image` crate.

use crate::pixel::{drop_alpha, native_len, BLUE, GREEN, NATIVE_CHANNELS, RED};
use vstd::prelude::*;

verus! {

/// An image of `image::RgbImage`: eight bits a channel, three channels a
/// pixel, rows from the top, pixels from the left. The verifier does not
/// look inside it: what it holds is spoken of through [`rgb_samples`] and
/// [`rgb_dimensions`], and believed of the `image` crate as the functions
/// below state it.
#[verifier::external_body]
pub struct RgbImage {
    inner: image::RgbImage,
}

/// The samples of an image's pixels in the order of the image: row by row,
/// and red, green, blue within a pixel.
pub uninterp spec fn rgb_samples(img: RgbImage) -> Seq<u8>;

/// Width and height of an image in pixels.
pub uninterp spec fn rgb_dimensions(img: RgbImage) -> (u32, u32);

/// Number of samples in an RGB image of `width` by `height` pixels.
pub open spec fn rgb_len(width: int, height: int) -> int {
    width * height * 3
}

/// `ImageBuffer::from_pixel`: an image of the given width and height in
/// which every pixel is (`r`, `g`, `b`). It panics where the samples of one
/// row are more than a `usize` counts, or those of the image more than a
/// vector can hold; the precondition leaves both out.
#[verifier::external_body]
fn filled(width: u32, height: u32, r: u8, g: u8, b: u8) -> (img: RgbImage)
    requires
        3 * width <= usize::MAX,
        rgb_len(width as int, height as int) <= isize::MAX,
    ensures
        rgb_dimensions(img) == (width, height),
        rgb_samples(img) == Seq::new(
            rgb_len(width as int, height as int) as nat,
            |i: int| seq![r, g, b][i % 3],
        ),
{
    RgbImage { inner: image::RgbImage::from_pixel(width, height, image::Rgb([r, g, b])) }
}

/// `ImageBuffer::put_pixel`: the pixel in column `x` of row `y` becomes
/// (`r`, `g`, `b`) and no other sample changes. It panics outside the
/// image, which the precondition leaves out.
#[verifier::external_body]
fn put(img: &mut RgbImage, x: u32, y: u32, r: u8, g: u8, b: u8)
    requires
        x < rgb_dimensions(*old(img)).0,
        y < rgb_dimensions(*old(img)).1,
    ensures
        rgb_dimensions(*final(img)) == rgb_dimensions(*old(img)),
        rgb_samples(*final(img)) == rgb_samples(*old(img)).update(
            (y * rgb_dimensions(*old(img)).0 + x) * 3,
            r,
        ).update((y * rgb_dimensions(*old(img)).0 + x) * 3 + 1, g).update(
            (y * rgb_dimensions(*old(img)).0 + x) * 3 + 2,
            b,
        ),
{
    img.inner.put_pixel(x, y, image::Rgb([r, g, b]))
}

/// `ImageBuffer::dimensions`.
#[verifier::external_body]
fn size(img: &RgbImage) -> (dims: (u32, u32))
    ensures
        dims == rgb_dimensions(*img),
{
    img.inner.dimensions()
}

/// `ImageBuffer::pixels`, each pixel taken apart into its samples: three
/// for each pixel of the image, in the order of the image.
#[verifier::external_body]
fn samples(img: &RgbImage) -> (bytes: Vec<u8>)
    ensures
        bytes@ == rgb_samples(*img),
        bytes@.len() == rgb_len(rgb_dimensions(*img).0 as int, rgb_dimensions(*img).1 as int),
{
    img.inner.pixels().flat_map(|pixel| pixel.0.to_vec()).collect()
}

impl RgbImage {
    /// Width and height in pixels.
    pub fn dimensions(&self) -> (dims: (u32, u32))
        ensures
            dims == rgb_dimensions(*self),
    {
        size(self)
    }

    /// The samples of all pixels, row by row.
    pub fn to_bytes(&self) -> (bytes: Vec<u8>)
        ensures
            bytes@ == rgb_samples(*self),
            bytes@.len() == rgb_len(
                rgb_dimensions(*self).0 as int,
                rgb_dimensions(*self).1 as int,
            ),
    {
        samples(self)
    }
}

/// The image of `width` by `height` pixels that the engine's pixels in
/// `native` show once their alpha is left out. What shows through a pixel
/// that is not opaque is lost, so the engine should have drawn over an
/// opaque background.
pub fn rgb_image(native: &[u8], width: u32, height: u32) -> (img: RgbImage)
    requires
        native@.len() == native_len(width as int, height as int),
        3 * width <= usize::MAX,
        rgb_len(width as int, height as int) <= isize::MAX,
    ensures
        rgb_dimensions(img) == (width, height),
        rgb_samples(img) == drop_alpha(native@),
{
    let mut img = filled(width, height, 255, 255, 255);
    let mut done: usize = 0;
    let mut base: usize = 0;
    let mut y: u32 = 0;
    assert(width * height * 4 == (width * height) * 4 && width * height * 3 == (width * height)
        * 3) by (nonlinear_arith);
    while y < height
        invariant
            y <= height,
            done == y * width,
            base == done * 4,
            native@.len() == (width * height) * 4,
            rgb_dimensions(img) == (width, height),
            rgb_samples(img).len() == (width * height) * 3,
            forall|i: int| 0 <= i < done * 3 ==> rgb_samples(img)[i] == drop_alpha(native@)[i],
        decreases height - y,
    {
        let mut x: u32 = 0;
        while x < width
            invariant
                x <= width,
                y < height,
                done == y * width + x,
                base == done * 4,
                native@.len() == (width * height) * 4,
                rgb_dimensions(img) == (width, height),
                rgb_samples(img).len() == (width * height) * 3,
                forall|i: int| 0 <= i < done * 3 ==> rgb_samples(img)[i] == drop_alpha(native@)[i],
            decreases width - x,
        {
            assert(y * width + x < width * height) by (nonlinear_arith)
                requires
                    x < width,
                    y < height,
            ;
            put(&mut img, x, y, native[base + RED], native[base + GREEN], native[base + BLUE]);
            base += NATIVE_CHANNELS;
            done += 1;
            x += 1;
        }
        y += 1;
        assert(y * width == (y - 1) * width + width) by (nonlinear_arith);
    }
    assert(done == width * height) by (nonlinear_arith)
        requires
            done == y * width,
            y == height,
    ;
    assert(rgb_samples(img) =~= drop_alpha(native@));
    img
}

} // verus!
