//! Compiled formulas: their measures and the extraction of their pixels.

use crate::engine::MicroTeX;
use crate::error::RenderError;
use crate::pixel::native_len;
use vstd::prelude::*;

verus! {

/// A write of a formula's pixels that the engine has yet to perform: the
/// rectangle of `width` by `height` pixels whose upper left corner lies at
/// (`x`, `y`), from the render result behind `handle`.
#[derive(Clone, Copy, Debug, PartialEq, Eq, Structural)]
pub struct DrawCall {
    /// Reference to the engine's render result.
    pub handle: usize,
    /// Width of the rectangle in pixels.
    pub width: i32,
    /// Height of the rectangle in pixels.
    pub height: i32,
    /// Distance of the rectangle from the left edge.
    pub x: i32,
    /// Distance of the rectangle from the upper edge.
    pub y: i32,
}

impl DrawCall {
    /// Whether the rectangle holds no pixel, so that the engine has nothing
    /// to write.
    pub fn is_empty(&self) -> (empty: bool)
        ensures
            empty == (self.width <= 0 || self.height <= 0),
    {
        self.width <= 0 || self.height <= 0
    }
}

/// Handle of one compiled formula, with the measures that the engine
/// reported for it. It borrows the engine that compiled it, which can
/// therefore not be released before the renderer is gone.
pub struct TeXRenderer<'e> {
    engine: &'e MicroTeX,
    handle: usize,
    width: i32,
    height: i32,
    depth: i32,
    baseline: u32,
}

impl<'e> TeXRenderer<'e> {
    #[verifier::type_invariant]
    spec fn is_live(self) -> bool {
        &&& self.engine.is_initialized()
        &&& self.handle != 0
        &&& self.width > 0
        &&& self.height > 0
    }

    /// Reference to the engine's render result.
    pub closed spec fn handle_spec(&self) -> usize {
        self.handle
    }

    /// Width in pixels.
    pub closed spec fn width_spec(&self) -> i32 {
        self.width
    }

    /// Height in pixels.
    pub closed spec fn height_spec(&self) -> i32 {
        self.height
    }

    /// Part of the height that lies below the baseline, in pixels.
    pub closed spec fn depth_spec(&self) -> i32 {
        self.depth
    }

    /// Distance of the baseline in pixels: the bits of a single-precision
    /// number.
    pub closed spec fn baseline_spec(&self) -> u32 {
        self.baseline
    }

    /// What [`TeXRenderer::draw_to_buffer`] decides for a destination of
    /// `len` bytes.
    pub open spec fn draw_outcome(&self, len: int, width: i32, height: i32, x: i32, y: i32) -> Result<
        DrawCall,
        RenderError,
    > {
        if len < native_len(width as int, height as int) {
            Err(RenderError::BufferTooSmall)
        } else {
            Ok(DrawCall { handle: self.handle_spec(), width, height, x, y })
        }
    }

    /// The renderer of a render result that `engine` gave.
    pub(crate) fn wrap(
        engine: &'e MicroTeX,
        handle: usize,
        width: i32,
        height: i32,
        depth: i32,
        baseline: u32,
    ) -> (renderer: TeXRenderer<'e>)
        requires
            engine.is_initialized(),
            handle != 0,
            width > 0,
            height > 0,
        ensures
            renderer.handle_spec() == handle,
            renderer.width_spec() == width,
            renderer.height_spec() == height,
            renderer.depth_spec() == depth,
            renderer.baseline_spec() == baseline,
    {
        TeXRenderer { engine, handle, width, height, depth, baseline }
    }

    /// The engine that compiled the formula. It is ready for as long as the
    /// renderer lives.
    pub fn engine(&self) -> (engine: &'e MicroTeX)
        ensures
            engine.is_initialized(),
    {
        proof {
            use_type_invariant(self);
        }
        self.engine
    }

    /// Reference to the engine's render result, for the calls that draw and
    /// free it. It is never zero.
    pub fn handle(&self) -> (handle: usize)
        ensures
            handle == self.handle_spec(),
            handle != 0,
    {
        proof {
            use_type_invariant(self);
        }
        self.handle
    }

    /// Width of the formula in pixels.
    pub fn get_width(&self) -> (width: i32)
        ensures
            width == self.width_spec(),
            width > 0,
    {
        proof {
            use_type_invariant(self);
        }
        self.width
    }

    /// Height of the formula in pixels.
    pub fn get_height(&self) -> (height: i32)
        ensures
            height == self.height_spec(),
            height > 0,
    {
        proof {
            use_type_invariant(self);
        }
        self.height
    }

    /// Part of the formula's height that lies below the baseline, in pixels.
    pub fn get_depth(&self) -> (depth: i32)
        ensures
            depth == self.depth_spec(),
    {
        self.depth
    }

    /// Distance of the baseline in pixels: the bits of a single-precision
    /// number.
    pub fn get_baseline(&self) -> (baseline: u32)
        ensures
            baseline == self.baseline_spec(),
    {
        self.baseline
    }

    /// Decides whether the engine may write the rectangle of `width` by
    /// `height` pixels at (`x`, `y`) into `buffer`. The engine checks no
    /// bounds, so a destination with fewer than `width * height * 4` bytes
    /// is refused here. The write itself is the engine's: `buffer` is left
    /// as it was.
    pub fn draw_to_buffer(&self, buffer: &mut [u8], width: i32, height: i32, x: i32, y: i32) -> (r:
        Result<DrawCall, RenderError>)
        ensures
            r == self.draw_outcome(old(buffer)@.len() as int, width, height, x, y),
            old(buffer)@.len() < native_len(width as int, height as int) <==> r == Err::<
                DrawCall,
                RenderError,
            >(RenderError::BufferTooSmall),
            final(buffer)@ == old(buffer)@,
    {
        assert(-0x4000_0000_0000_0000 <= width * height <= 0x4000_0000_0000_0000)
            by (nonlinear_arith)
            requires
                -0x8000_0000 <= width <= 0x7fff_ffff,
                -0x8000_0000 <= height <= 0x7fff_ffff,
        ;
        let pixels: i64 = (width as i64) * (height as i64);
        if pixels > 0 && ((buffer.len() / 4) as u64) < (pixels as u64) {
            Err(RenderError::BufferTooSmall)
        } else {
            Ok(DrawCall { handle: self.handle, width, height, x, y })
        }
    }
}

} // verus!
