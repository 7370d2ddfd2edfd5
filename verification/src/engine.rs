//! The handle of the typesetting engine and the calls it prepares.
//!
//! The engine itself is native code that this library never calls. A
//! [`MicroTeX`] decides what may be handed to it and in which form; the
//! caller performs the native call and reports what came back.

use crate::error::{CompileError, InitError};
use crate::renderer::TeXRenderer;
use vstd::prelude::*;
use vstd::slice::slice_to_vec;
use vstd::string::StringSliceAdditionalSpecFns;

verus! {

/// Whether a zero byte occurs in `bytes`.
pub open spec fn has_nul(bytes: Seq<u8>) -> bool {
    exists|i: int| 0 <= i < bytes.len() && bytes[i] == 0
}

/// The form in which the engine takes a text: its bytes, closed by one zero
/// byte.
pub open spec fn native_text(bytes: Seq<u8>) -> Seq<u8> {
    bytes.push(0u8)
}

/// Whether `bytes` holds a zero byte.
pub fn contains_nul(bytes: &[u8]) -> (found: bool)
    ensures
        found == has_nul(bytes@),
{
    let mut i: usize = 0;
    while i < bytes.len()
        invariant
            i <= bytes.len(),
            forall|j: int| 0 <= j < i ==> bytes@[j] != 0,
        decreases bytes.len() - i,
    {
        if bytes[i] == 0 {
            return true;
        }
        i += 1;
    }
    false
}

/// Puts `text` into the form in which the engine takes it. There is none
/// for a text that holds a zero byte, since the engine would read it as the
/// end.
pub fn to_native_text(text: &str) -> (r: Option<Vec<u8>>)
    ensures
        has_nul(text.spec_bytes()) ==> r is None,
        !has_nul(text.spec_bytes()) ==> {
            &&& r matches Some(v)
            &&& v@ == native_text(text.spec_bytes())
        },
{
    let bytes = text.as_bytes();
    if contains_nul(bytes) {
        None
    } else {
        let mut v = slice_to_vec(bytes);
        v.push(0u8);
        Some(v)
    }
}

/// How a formula is laid out.
#[derive(Clone, Copy, Debug, PartialEq, Eq, Structural)]
pub struct LayoutParameters {
    /// Width in pixels at which lines wrap.
    pub max_width_px: i32,
    /// Text size in points: the bits of a single-precision number.
    pub text_size_pt: u32,
    /// Space between lines in pixels: the bits of a single-precision number.
    pub line_spacing_px: u32,
    /// Foreground colour, packed as `0xAARRGGBB`.
    pub foreground_argb: u32,
}

/// A formula that the engine has yet to compile: the markup in the engine's
/// form and the layout to compile it with. It borrows the engine, which
/// therefore stays ready until the call is completed.
pub struct ParseCall<'e> {
    engine: &'e MicroTeX,
    markup: Vec<u8>,
    params: LayoutParameters,
}

impl<'e> ParseCall<'e> {
    #[verifier::type_invariant]
    spec fn is_ready(self) -> bool {
        &&& self.engine.is_initialized()
        &&& self.markup@.len() > 0
        &&& self.markup@.last() == 0
        &&& !has_nul(self.markup@.drop_last())
    }

    /// The markup as the engine takes it.
    pub closed spec fn markup_bytes(&self) -> Seq<u8> {
        self.markup@
    }

    /// The layout to compile with.
    pub closed spec fn layout(&self) -> LayoutParameters {
        self.params
    }

    /// The markup to hand to the engine: it ends in the one zero byte it
    /// holds.
    pub fn markup(&self) -> (bytes: &Vec<u8>)
        ensures
            bytes@ == self.markup_bytes(),
            bytes@.len() > 0,
            bytes@.last() == 0,
            !has_nul(bytes@.drop_last()),
    {
        proof {
            use_type_invariant(self);
        }
        &self.markup
    }

    /// The layout to hand to the engine.
    pub fn params(&self) -> (params: LayoutParameters)
        ensures
            params == self.layout(),
    {
        self.params
    }

    /// Takes what the engine answered to this call: the reference to its
    /// render result (zero where it gave none) and the measures it reports
    /// for it. A renderer comes only of a result that exists and has an
    /// extent; anything else is markup that the engine could not lay out.
    pub fn complete(self, handle: usize, width: i32, height: i32, depth: i32, baseline: u32) -> (r:
        Result<TeXRenderer<'e>, CompileError>)
        ensures
            handle == 0 || width <= 0 || height <= 0 ==> r == Err::<TeXRenderer<'e>, CompileError>(
                CompileError::InvalidMarkup,
            ),
            handle != 0 && width > 0 && height > 0 ==> {
                &&& r matches Ok(renderer)
                &&& renderer.handle_spec() == handle
                &&& renderer.width_spec() == width
                &&& renderer.height_spec() == height
                &&& renderer.depth_spec() == depth
                &&& renderer.baseline_spec() == baseline
            },
            r matches Ok(renderer) ==> renderer.width_spec() > 0 && renderer.height_spec() > 0,
    {
        proof {
            use_type_invariant(&self);
        }
        if handle == 0 || width <= 0 || height <= 0 {
            Err(CompileError::InvalidMarkup)
        } else {
            Ok(TeXRenderer::wrap(self.engine, handle, width, height, depth, baseline))
        }
    }
}

/// What a process remembers of its engine: whether one has been
/// initialised. The engine's state is global and cannot be set up a second
/// time, not even after a release, so a guard that is claimed stays claimed.
/// A process keeps one guard and initialises through it alone.
pub struct EngineGuard {
    claimed: bool,
}

impl EngineGuard {
    /// Whether an engine has been initialised through this guard.
    pub closed spec fn is_claimed(&self) -> bool {
        self.claimed
    }

    /// The guard of a process that has initialised no engine yet.
    pub fn new() -> (guard: EngineGuard)
        ensures
            !guard.is_claimed(),
    {
        EngineGuard { claimed: false }
    }

    /// Whether an engine has been initialised through this guard.
    pub fn claimed(&self) -> (claimed: bool)
        ensures
            claimed == self.is_claimed(),
    {
        self.claimed
    }
}

/// Handle of the typesetting engine.
pub struct MicroTeX {
    initialized: bool,
}

impl MicroTeX {
    /// Whether the engine behind the handle is ready.
    pub closed spec fn is_initialized(&self) -> bool {
        self.initialized
    }

    /// Whether the engine behind the handle is ready.
    pub fn initialized(&self) -> (ready: bool)
        ensures
            ready == self.is_initialized(),
    {
        self.initialized
    }

    /// Handle of an engine that reads its fonts and configuration from
    /// `res_path`. The engine takes the path as [`to_native_text`] gives it,
    /// so a path with a zero byte is refused, and the guard is left as it
    /// was. A good path claims the guard; where it was claimed before, there
    /// is no second engine.
    pub fn init(guard: &mut EngineGuard, res_path: &str) -> (r: Result<MicroTeX, InitError>)
        ensures
            has_nul(res_path.spec_bytes()) ==> {
                &&& r == Err::<MicroTeX, InitError>(InitError::BadPath)
                &&& final(guard).is_claimed() == old(guard).is_claimed()
            },
            !has_nul(res_path.spec_bytes()) && old(guard).is_claimed() ==> {
                &&& r == Err::<MicroTeX, InitError>(InitError::AlreadyInitialized)
                &&& final(guard).is_claimed()
            },
            !has_nul(res_path.spec_bytes()) && !old(guard).is_claimed() ==> {
                &&& r matches Ok(engine)
                &&& engine.is_initialized()
                &&& final(guard).is_claimed()
            },
    {
        if contains_nul(res_path.as_bytes()) {
            Err(InitError::BadPath)
        } else if guard.claimed {
            Err(InitError::AlreadyInitialized)
        } else {
            guard.claimed = true;
            Ok(MicroTeX { initialized: true })
        }
    }

    /// Handle of an engine that reads from its built-in resource location.
    /// It claims the guard; where the guard was claimed before, there is no
    /// second engine.
    pub fn init_default(guard: &mut EngineGuard) -> (r: Result<MicroTeX, InitError>)
        ensures
            old(guard).is_claimed() ==> r == Err::<MicroTeX, InitError>(
                InitError::AlreadyInitialized,
            ),
            !old(guard).is_claimed() ==> {
                &&& r matches Ok(engine)
                &&& engine.is_initialized()
            },
            final(guard).is_claimed(),
    {
        if guard.claimed {
            Err(InitError::AlreadyInitialized)
        } else {
            guard.claimed = true;
            Ok(MicroTeX { initialized: true })
        }
    }

    /// The flag to hand to the engine to switch its diagnostic output: one
    /// for on, zero for off.
    pub fn set_debug(&self, debug: bool) -> (flag: i32)
        ensures
            flag == if debug { 1i32 } else { 0i32 },
    {
        if debug {
            1
        } else {
            0
        }
    }

    /// Prepares the compilation of `latex`, to wrap at `width` pixels, in
    /// text of size `text_size` with `line_space` between lines (both the
    /// bits of single-precision numbers) and in the colour `color`.
    ///
    /// A released engine compiles nothing. Markup with a zero byte has no
    /// form that the engine takes, and is told apart from markup that the
    /// engine cannot lay out: that is only found when the call is completed.
    pub fn parse<'e>(
        &'e self,
        latex: &str,
        width: i32,
        text_size: u32,
        line_space: u32,
        color: u32,
    ) -> (r: Result<ParseCall<'e>, CompileError>)
        ensures
            !self.is_initialized() ==> r == Err::<ParseCall<'e>, CompileError>(
                CompileError::NotInitialized,
            ),
            self.is_initialized() && has_nul(latex.spec_bytes()) ==> r == Err::<
                ParseCall<'e>,
                CompileError,
            >(CompileError::EncodingError),
            self.is_initialized() && !has_nul(latex.spec_bytes()) ==> {
                &&& r matches Ok(call)
                &&& call.markup_bytes() == native_text(latex.spec_bytes())
                &&& call.layout() == (LayoutParameters {
                    max_width_px: width,
                    text_size_pt: text_size,
                    line_spacing_px: line_space,
                    foreground_argb: color,
                })
            },
            r != Err::<ParseCall<'e>, CompileError>(CompileError::InvalidMarkup),
    {
        if !self.initialized {
            return Err(CompileError::NotInitialized);
        }
        match to_native_text(latex) {
            None => Err(CompileError::EncodingError),
            Some(markup) => {
                assert(markup@.drop_last() == latex.spec_bytes());
                Ok(
                    ParseCall {
                        engine: self,
                        markup,
                        params: LayoutParameters {
                            max_width_px: width,
                            text_size_pt: text_size,
                            line_spacing_px: line_space,
                            foreground_argb: color,
                        },
                    },
                )
            },
        }
    }

    /// Marks the engine as released and says whether the native teardown is
    /// due: it is due once, at the first release of an engine that was
    /// ready.
    pub fn release(&mut self) -> (teardown: bool)
        ensures
            teardown == old(self).is_initialized(),
            !final(self).is_initialized(),
    {
        let teardown = self.initialized;
        self.initialized = false;
        teardown
    }
}

} // verus!
