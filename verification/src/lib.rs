//! Glyph rasterization powered by DirectWrite.
//!
//! This crate holds what the rasterizer decides and computes: which fonts are
//! loaded and under which keys, how a font face is selected, when a fallback
//! font is consulted, which color layers of a glyph are kept, and how they are
//! composited into a bitmap. Calls into DirectWrite itself are made by the
//! embedding application, which hands their results in as plain values.

pub mod bounds;
pub mod color_glyph;
pub mod color_runs;
pub mod composite;
pub mod error;
pub mod font;
pub mod glyph;
pub mod glyph_run;
pub mod hresult;
pub mod layer;
pub mod load;
pub mod locale;
pub mod lookup;
pub mod metrics;
pub mod raster;
pub mod rasterizer;
pub mod text;
pub mod utf16;
