//! Rendering of LaTeX formulas into pixel buffers and terminal graphics.

pub mod engine;
pub mod error;
pub mod pixel;
pub mod raster;
pub mod renderer;
pub mod terminal;

pub use engine::MicroTeX;
pub use renderer::TeXRenderer;
