//! What the metrics of a font are taken from.

use crate::error::Error;
use crate::font::{Font, FontKey};
use crate::glyph::Size;
use crate::rasterizer::DirectWriteRasterizer;
use vstd::prelude::*;

verus! {

/// The character that horizontal metrics are taken from. All characters of a
/// monospace font have the same width.
pub const METRICS_CHARACTER: char = '!';

/// Waits for the indices that `font` gives for `character`.
pub struct MetricsLookup<'a, F> {
    pub font: &'a Font<F>,
    pub character: char,
}

/// Waits for the design metrics of the glyph.
#[derive(Debug)]
pub struct GlyphMetricsLookup {
    pub glyph_index: u16,
    pub is_sideways: bool,
}

impl<F> DirectWriteRasterizer<F> {
    /// Begins to take the metrics of a font.
    pub fn metrics(&self, key: FontKey, _size: Size) -> (r: Result<MetricsLookup<'_, F>, Error>)
        ensures
            match r {
                Ok(lookup) => {
                    &&& self.fonts().contains_key(key.token)
                    &&& *lookup.font == self.fonts()[key.token]
                    &&& lookup.character == METRICS_CHARACTER
                    &&& lookup.character == '!'
                },
                Err(error) => !self.fonts().contains_key(key.token)
                    && error == Error::UnknownFontKey,
            },
    {
        match self.get_loaded_font(key) {
            Ok(font) => Ok(MetricsLookup { font, character: METRICS_CHARACTER }),
            Err(error) => Err(error),
        }
    }
}

impl<'a, F> MetricsLookup<'a, F> {
    /// Takes in the indices that the font gives for the character. The metrics
    /// to ask for are those of an upright glyph.
    pub fn indexed(self, indices: &Vec<u16>) -> (lookup: GlyphMetricsLookup)
        ensures
            lookup.glyph_index == crate::lookup::first_index(indices@),
            indices@.len() > 0 ==> lookup.glyph_index == indices@[0],
            indices@.len() == 0 ==> lookup.glyph_index == 0,
            !lookup.is_sideways,
    {
        GlyphMetricsLookup {
            glyph_index: crate::lookup::get_glyph_index(indices),
            is_sideways: false,
        }
    }
}

impl GlyphMetricsLookup {
    /// Takes in the advance widths that the font gives for the glyph, and gives
    /// the one that counts, in design units.
    pub fn measured(self, advances: &Vec<u32>) -> (r: Result<u32, Error>)
        ensures
            r == if advances@.len() > 0 {
                Ok::<u32, Error>(advances@[0])
            } else {
                Err(Error::MetricsNotFound)
            },
    {
        if advances.len() > 0 {
            Ok(advances[0])
        } else {
            Err(Error::MetricsNotFound)
        }
    }
}

} // verus!
