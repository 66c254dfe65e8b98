//! What DirectWrite is asked to render, and how.

use crate::layer::ONE_BITS;
use vstd::prelude::*;

verus! {

/// The bit pattern of the single precision number zero.
pub const ZERO_BITS: u32 = 0;

/// How glyphs are measured.
#[derive(Clone, Copy, Debug, PartialEq, Eq, Structural)]
pub enum MeasuringMode {
    Natural,
    GdiClassic,
    GdiNatural,
}

/// What an alpha texture holds for each pixel.
#[derive(Clone, Copy, Debug, PartialEq, Eq, Structural)]
pub enum TextureType {
    /// One byte.
    Aliased1x1,
    /// Three bytes, one for each third of the pixel's width.
    ClearType3x1,
}

/// How far a glyph is moved from its place, in single precision numbers held
/// as their bit patterns.
#[derive(Clone, Copy, Debug, PartialEq, Eq, Structural)]
pub struct GlyphOffset {
    pub advance_offset_bits: u32,
    pub ascender_offset_bits: u32,
}

/// A run of `glyph_count` glyphs of a font face, of which the first has the
/// index, advance and offset given here. `F` is the handle by which DirectWrite
/// knows a face. The em size, in pixels, and the advance are single precision
/// numbers held as their bit patterns.
pub struct GlyphRun<'a, F> {
    pub face: &'a F,
    pub em_size_bits: u32,
    pub glyph_count: u32,
    pub glyph_index: u16,
    pub advance_bits: u32,
    pub offset: GlyphOffset,
    pub is_sideways: bool,
    pub bidi_level: u32,
}

impl<'a, F> GlyphRun<'a, F> {
    /// The run of one glyph that stands upright where it is, without an
    /// advance, and is read from left to right.
    pub open spec fn single(face: &'a F, em_size_bits: u32, glyph_index: u16) -> GlyphRun<'a, F> {
        GlyphRun {
            face,
            em_size_bits,
            glyph_count: 1,
            glyph_index,
            advance_bits: ZERO_BITS,
            offset: GlyphOffset {
                advance_offset_bits: ZERO_BITS,
                ascender_offset_bits: ZERO_BITS,
            },
            is_sideways: false,
            bidi_level: 0,
        }
    }

    /// The run of one glyph that stands upright where it is, without an
    /// advance, and is read from left to right.
    pub fn of_one_glyph(face: &'a F, em_size_bits: u32, glyph_index: u16) -> (run: GlyphRun<'a, F>)
        ensures
            run == GlyphRun::single(face, em_size_bits, glyph_index),
            run.face == face,
            run.em_size_bits == em_size_bits,
            run.glyph_count == 1,
            run.glyph_index == glyph_index,
            run.advance_bits == 0,
            run.offset.advance_offset_bits == 0,
            run.offset.ascender_offset_bits == 0,
            !run.is_sideways,
            run.bidi_level == 0,
    {
        GlyphRun {
            face,
            em_size_bits,
            glyph_count: 1,
            glyph_index,
            advance_bits: ZERO_BITS,
            offset: GlyphOffset {
                advance_offset_bits: ZERO_BITS,
                ascender_offset_bits: ZERO_BITS,
            },
            is_sideways: false,
            bidi_level: 0,
        }
    }
}

/// How a run is rendered. The rendering mode is the one that the face
/// recommends. Single precision numbers are held as their bit patterns.
#[derive(Clone, Copy, Debug, PartialEq, Eq, Structural)]
pub struct RenderSetup {
    pub pixels_per_dip_bits: u32,
    pub rendering_mode: u32,
    pub measuring_mode: MeasuringMode,
    pub baseline_x_bits: u32,
    pub baseline_y_bits: u32,
    pub texture_type: TextureType,
}

impl RenderSetup {
    /// Rendering in the given mode: one pixel to each device independent one,
    /// measured naturally, from the origin, with ClearType coverage.
    pub open spec fn in_mode(rendering_mode: u32) -> RenderSetup {
        RenderSetup {
            pixels_per_dip_bits: ONE_BITS,
            rendering_mode,
            measuring_mode: MeasuringMode::Natural,
            baseline_x_bits: ZERO_BITS,
            baseline_y_bits: ZERO_BITS,
            texture_type: TextureType::ClearType3x1,
        }
    }

    /// Rendering in the given mode: one pixel to each device independent one,
    /// measured naturally, from the origin, with ClearType coverage.
    pub fn new(rendering_mode: u32) -> (setup: RenderSetup)
        ensures
            setup == RenderSetup::in_mode(rendering_mode),
            setup.rendering_mode == rendering_mode,
            setup.pixels_per_dip_bits == 0x3F80_0000,
            setup.measuring_mode is Natural,
            setup.baseline_x_bits == 0,
            setup.baseline_y_bits == 0,
            setup.texture_type is ClearType3x1,
    {
        RenderSetup {
            pixels_per_dip_bits: ONE_BITS,
            rendering_mode,
            measuring_mode: MeasuringMode::Natural,
            baseline_x_bits: ZERO_BITS,
            baseline_y_bits: ZERO_BITS,
            texture_type: TextureType::ClearType3x1,
        }
    }
}

/// A run of one glyph is that glyph of that face at that size, upright, where
/// it is, without an advance, read from left to right.
pub proof fn law_single_run_is_that_glyph<'a, F>(face: &'a F, em_size_bits: u32, glyph_index: u16)
    ensures
        GlyphRun::single(face, em_size_bits, glyph_index).face == face,
        GlyphRun::single(face, em_size_bits, glyph_index).em_size_bits == em_size_bits,
        GlyphRun::single(face, em_size_bits, glyph_index).glyph_count == 1,
        GlyphRun::single(face, em_size_bits, glyph_index).glyph_index == glyph_index,
        GlyphRun::single(face, em_size_bits, glyph_index).advance_bits == 0,
        GlyphRun::single(face, em_size_bits, glyph_index).offset.advance_offset_bits == 0,
        GlyphRun::single(face, em_size_bits, glyph_index).offset.ascender_offset_bits == 0,
        !GlyphRun::single(face, em_size_bits, glyph_index).is_sideways,
        GlyphRun::single(face, em_size_bits, glyph_index).bidi_level == 0,
{
}

/// Whatever the rendering mode is, it is the one that is rendered in, and
/// nothing else depends on it: one pixel to each device independent one,
/// measured naturally, from the origin, with ClearType coverage.
pub proof fn law_mode_is_rendered_in(rendering_mode: u32)
    ensures
        RenderSetup::in_mode(rendering_mode).rendering_mode == rendering_mode,
        RenderSetup::in_mode(rendering_mode).pixels_per_dip_bits == 0x3F80_0000,
        RenderSetup::in_mode(rendering_mode).measuring_mode is Natural,
        RenderSetup::in_mode(rendering_mode).baseline_x_bits == 0,
        RenderSetup::in_mode(rendering_mode).baseline_y_bits == 0,
        RenderSetup::in_mode(rendering_mode).texture_type is ClearType3x1,
{
}

} // verus!
