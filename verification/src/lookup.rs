//! Which font a glyph is taken from, and what is reported of it.
//!
//! Each step below says what to ask of DirectWrite next; the answer leads to
//! the step after it.

use crate::error::Error;
use crate::font::{Font, FontStretch, FontStyle, FontWeight};
use crate::glyph::{GlyphKey, RasterizedGlyph};
use crate::rasterizer::DirectWriteRasterizer;
use vstd::prelude::*;

verus! {

/// The index of the symbol that a font shows for a missing glyph.
pub const MISSING_GLYPH_INDEX: u16 = 0;

/// The index of a character's glyph, if these are the indices that a font face
/// gives for the character.
pub open spec fn first_index(indices: Seq<u16>) -> u16 {
    if indices.len() > 0 {
        indices[0]
    } else {
        MISSING_GLYPH_INDEX
    }
}

/// The index of a character's glyph, if these are the indices that a font face
/// gives for the character.
pub fn get_glyph_index(indices: &Vec<u16>) -> (index: u16)
    ensures
        index == first_index(indices@),
        indices@.len() > 0 ==> index == indices@[0],
        indices@.len() == 0 ==> index == 0,
{
    if indices.len() > 0 {
        indices[0]
    } else {
        MISSING_GLYPH_INDEX
    }
}

/// What a fallback font is asked for by.
#[derive(Debug)]
pub struct FallbackQuery {
    /// The text to be shown, in UTF-16.
    pub text: Vec<u16>,
    /// Where in the text to begin.
    pub position: u32,
    /// The length of the text in units.
    pub length: u32,
    /// The family that the fallback font stands in for.
    pub family_name: String,
    pub weight: FontWeight,
    pub style: FontStyle,
    pub stretch: FontStretch,
}

impl FallbackQuery {
    /// Whether this asks for a font to show `character` in place of `font`.
    pub open spec fn asks<F>(self, font: Font<F>, character: char) -> bool {
        &&& self.text@ == crate::utf16::encoded(character)
        &&& self.position == 0
        &&& self.length == self.text@.len()
        &&& self.family_name == font.family_name
        &&& self.weight == font.weight
        &&& self.style == font.style
        &&& self.stretch == font.stretch
    }
}

impl<F> DirectWriteRasterizer<F> {
    /// What a font to show `character` in place of `loaded_font` is asked for
    /// by, if the system offers a font fallback.
    pub fn get_fallback_font(&self, loaded_font: &Font<F>, character: char) -> (query: Option<
        FallbackQuery,
    >)
        ensures
            query is Some <==> self.falls_back(),
            query matches Some(q) ==> q.asks(*loaded_font, character),
            query matches Some(q) ==> {
                &&& q.weight == loaded_font.weight
                &&& q.style == loaded_font.style
                &&& q.stretch == loaded_font.stretch
                &&& q.family_name@ == loaded_font.family_name@
                &&& q.position == 0
                &&& q.length == q.text@.len()
                &&& (character as int) < 0x1_0000 ==> q.length == 1 && q.text@[0]
                    == character as int
                &&& (character as int) >= 0x1_0000 ==> {
                    &&& q.length == 2
                    &&& 0xD800 <= q.text@[0] < 0xDC00
                    &&& 0xDC00 <= q.text@[1] < 0xE000
                    &&& character as int == 0x1_0000 + (q.text@[0] - 0xD800) * 0x400 + (q.text@[1]
                        - 0xDC00)
                }
            },
    {
        if !self.has_fallback() {
            return None;
        }
        let text: Vec<u16> = crate::utf16::encode(character);
        let length: u32 = text.len() as u32;
        Some(
            FallbackQuery {
                text,
                position: 0,
                length,
                family_name: loaded_font.family_name.clone(),
                weight: loaded_font.weight,
                style: loaded_font.style,
                stretch: loaded_font.stretch,
            },
        )
    }

    /// Begins to look a glyph up.
    pub fn get_glyph(&self, glyph: GlyphKey) -> (r: Result<GlyphLookup<'_, F>, Error>)
        ensures
            match r {
                Ok(lookup) => {
                    &&& self.fonts().contains_key(glyph.font_key.token)
                    &&& lookup.rasterizer == self
                    &&& *lookup.font == self.fonts()[glyph.font_key.token]
                    &&& lookup.glyph == glyph
                },
                Err(error) => !self.fonts().contains_key(glyph.font_key.token)
                    && error == Error::UnknownFontKey,
            },
    {
        match self.get_loaded_font(glyph.font_key) {
            Ok(font) => Ok(GlyphLookup { rasterizer: self, font, glyph }),
            Err(error) => Err(error),
        }
    }
}

/// What to do next while a glyph is looked up.
#[derive(Debug)]
pub enum GlyphStep {
    /// Ask the system for a fallback font.
    MapCharacters(FallbackLookup),
    /// Get the glyph indices that the fallback font gives for the character.
    GetFallbackIndices(FallbackIndices),
    /// Rasterize.
    Rasterize(GlyphJob),
}

/// Waits for the indices that the loaded font gives for the character.
pub struct GlyphLookup<'a, F> {
    pub rasterizer: &'a DirectWriteRasterizer<F>,
    pub font: &'a Font<F>,
    pub glyph: GlyphKey,
}

/// Waits for a fallback font.
#[derive(Debug)]
pub struct FallbackLookup {
    pub glyph: GlyphKey,
    pub query: FallbackQuery,
}

/// Waits for the indices that the fallback font gives for the character.
#[derive(Debug)]
pub struct FallbackIndices {
    pub glyph: GlyphKey,
}

/// Which font a glyph is taken from.
#[derive(Clone, Copy, Debug, PartialEq, Eq, Structural)]
pub enum FontSource {
    /// The one that was asked for.
    Loaded,
    /// The one that the system offers in its place.
    Fallback,
}

/// A glyph to be rasterized.
#[derive(Debug)]
pub struct GlyphJob {
    pub glyph: GlyphKey,
    pub source: FontSource,
    pub glyph_index: u16,
}

impl<'a, F> GlyphLookup<'a, F> {
    /// Takes in the indices that the loaded font gives for the character.
    pub fn indexed(self, indices: &Vec<u16>) -> (step: GlyphStep)
        ensures
            self.leads_to(indices@, step),
            step is MapCharacters <==> self.rasterizer.falls_back() && (indices@.len() == 0
                || indices@[0] == 0),
            step !is GetFallbackIndices,
            step matches GlyphStep::MapCharacters(lookup) ==> {
                &&& lookup.glyph == self.glyph
                &&& lookup.query.weight == self.font.weight
                &&& lookup.query.style == self.font.style
                &&& lookup.query.stretch == self.font.stretch
                &&& lookup.query.family_name@ == self.font.family_name@
                &&& lookup.query.text@ == crate::utf16::encoded(self.glyph.character)
                &&& lookup.query.position == 0
                &&& lookup.query.length == lookup.query.text@.len()
            },
            step matches GlyphStep::Rasterize(job) ==> {
                &&& job.glyph == self.glyph
                &&& job.source is Loaded
                &&& indices@.len() > 0 ==> job.glyph_index == indices@[0]
                &&& indices@.len() == 0 ==> job.glyph_index == 0
            },
    {
        let glyph_index: u16 = get_glyph_index(indices);
        if glyph_index == MISSING_GLYPH_INDEX {
            match self.rasterizer.get_fallback_font(self.font, self.glyph.character) {
                Some(query) => {
                    return GlyphStep::MapCharacters(FallbackLookup { glyph: self.glyph, query });
                },
                None => {},
            }
        }
        GlyphStep::Rasterize(
            GlyphJob { glyph: self.glyph, source: FontSource::Loaded, glyph_index },
        )
    }

    /// Whether this is the step after the loaded font gave these indices: if it
    /// has no glyph for the character, and the system offers a font fallback,
    /// to ask for a font that has one, and else to rasterize.
    pub open spec fn leads_to(self, indices: Seq<u16>, step: GlyphStep) -> bool {
        if first_index(indices) == MISSING_GLYPH_INDEX && self.rasterizer.falls_back() {
            step matches GlyphStep::MapCharacters(lookup) && {
                &&& lookup.glyph == self.glyph
                &&& lookup.query.asks(*self.font, self.glyph.character)
            }
        } else {
            step == GlyphStep::Rasterize(
                GlyphJob {
                    glyph: self.glyph,
                    source: FontSource::Loaded,
                    glyph_index: first_index(indices),
                },
            )
        }
    }
}

impl FallbackLookup {
    /// Takes in whether the system offers a fallback font.
    pub fn mapped(self, found: bool) -> (step: GlyphStep)
        ensures
            step == self.after(found),
            found ==> (step matches GlyphStep::GetFallbackIndices(s) && s.glyph == self.glyph),
            !found ==> (step matches GlyphStep::Rasterize(job) && {
                &&& job.glyph == self.glyph
                &&& job.source is Loaded
                &&& job.glyph_index == 0
            }),
    {
        if found {
            GlyphStep::GetFallbackIndices(FallbackIndices { glyph: self.glyph })
        } else {
            GlyphStep::Rasterize(
                GlyphJob {
                    glyph: self.glyph,
                    source: FontSource::Loaded,
                    glyph_index: MISSING_GLYPH_INDEX,
                },
            )
        }
    }

    /// The step after the system was asked for a fallback font.
    pub open spec fn after(self, found: bool) -> GlyphStep {
        if found {
            GlyphStep::GetFallbackIndices(FallbackIndices { glyph: self.glyph })
        } else {
            GlyphStep::Rasterize(
                GlyphJob {
                    glyph: self.glyph,
                    source: FontSource::Loaded,
                    glyph_index: MISSING_GLYPH_INDEX,
                },
            )
        }
    }
}

impl FallbackIndices {
    /// Takes in the indices that the fallback font gives for the character.
    pub fn indexed(self, indices: &Vec<u16>) -> (job: GlyphJob)
        ensures
            job == self.after(indices@),
            job.glyph == self.glyph,
            job.source is Fallback,
            indices@.len() > 0 ==> job.glyph_index == indices@[0],
            indices@.len() == 0 ==> job.glyph_index == 0,
    {
        GlyphJob {
            glyph: self.glyph,
            source: FontSource::Fallback,
            glyph_index: get_glyph_index(indices),
        }
    }

    /// The job once the indices of the fallback font are there.
    pub open spec fn after(self, indices: Seq<u16>) -> GlyphJob {
        GlyphJob {
            glyph: self.glyph,
            source: FontSource::Fallback,
            glyph_index: first_index(indices),
        }
    }
}

impl GlyphJob {
    /// Takes in the rasterized glyph, and gives what is reported of it.
    pub fn finished(self, rasterized: Result<RasterizedGlyph, Error>) -> (r: Result<
        RasterizedGlyph,
        Error,
    >)
        ensures
            r == self.report(rasterized),
            match rasterized {
                Ok(glyph) => if self.glyph_index == 0 {
                    r matches Err(Error::MissingGlyph(symbol)) && symbol == glyph
                } else {
                    r matches Ok(bitmap) && bitmap == glyph
                },
                Err(error) => r matches Err(reported) && reported == error,
            },
    {
        match rasterized {
            Ok(glyph) => {
                if self.glyph_index == MISSING_GLYPH_INDEX {
                    Err(Error::MissingGlyph(glyph))
                } else {
                    Ok(glyph)
                }
            },
            Err(error) => Err(error),
        }
    }

    /// What is reported of a glyph: an error in rasterizing it, that it is
    /// missing, or its bitmap.
    pub open spec fn report(self, rasterized: Result<RasterizedGlyph, Error>) -> Result<
        RasterizedGlyph,
        Error,
    > {
        match rasterized {
            Ok(glyph) => if self.glyph_index == MISSING_GLYPH_INDEX {
                Err(Error::MissingGlyph(glyph))
            } else {
                Ok(glyph)
            },
            Err(error) => Err(error),
        }
    }
}

impl GlyphStep {
    /// The job that a step ends in. `fallback` holds the indices that the
    /// fallback font gives, if the system offers one.
    pub open spec fn job(self, fallback: Option<Seq<u16>>) -> GlyphJob {
        match self {
            GlyphStep::Rasterize(job) => job,
            GlyphStep::GetFallbackIndices(indices) => indices.after(fallback->0),
            GlyphStep::MapCharacters(lookup) => match lookup.after(fallback is Some) {
                GlyphStep::Rasterize(job) => job,
                GlyphStep::GetFallbackIndices(indices) => indices.after(fallback->0),
                GlyphStep::MapCharacters(_) => arbitrary(),
            },
        }
    }
}

/// A glyph is taken from the font that was asked for if that font has it, or
/// if the system offers no other, and else from the one that the system offers.
pub proof fn law_fallback_only_for_missing_glyphs<F>(
    lookup: GlyphLookup<'_, F>,
    indices: Seq<u16>,
    fallback: Option<Seq<u16>>,
    step: GlyphStep,
)
    requires
        lookup.leads_to(indices, step),
    ensures
        step.job(fallback) == if first_index(indices) == MISSING_GLYPH_INDEX
            && lookup.rasterizer.falls_back() && fallback is Some {
            GlyphJob {
                glyph: lookup.glyph,
                source: FontSource::Fallback,
                glyph_index: first_index(fallback->0),
            }
        } else {
            GlyphJob {
                glyph: lookup.glyph,
                source: FontSource::Loaded,
                glyph_index: first_index(indices),
            }
        },
{
}

/// A glyph that was rasterized is reported missing exactly if the loaded font
/// does not have it, and no fallback font was offered that has it. Its bitmap
/// is part of the report in either case.
pub proof fn law_missing_glyph_is_reported<F>(
    lookup: GlyphLookup<'_, F>,
    indices: Seq<u16>,
    fallback: Option<Seq<u16>>,
    step: GlyphStep,
    bitmap: RasterizedGlyph,
)
    requires
        lookup.leads_to(indices, step),
    ensures
        step.job(fallback).report(Ok(bitmap)) == if first_index(indices) == MISSING_GLYPH_INDEX && (
        !lookup.rasterizer.falls_back() || fallback is None || first_index(fallback->0)
            == MISSING_GLYPH_INDEX) {
            Err::<RasterizedGlyph, Error>(Error::MissingGlyph(bitmap))
        } else {
            Ok(bitmap)
        },
{
}

/// The index of a character's glyph is the first one that the face gives; a face
/// that gives none has no glyph for it, which is index zero.
pub proof fn law_first_index_counts(indices: Seq<u16>)
    ensures
        indices.len() == 0 ==> first_index(indices) == 0,
        indices.len() > 0 ==> first_index(indices) == indices[0],
{
}

/// A fallback font is asked for by what the loaded font is: its family, its
/// weight, its style and its stretch, for every font, and by the whole text of
/// the character.
pub proof fn law_query_describes_the_loaded_font<F>(
    query: FallbackQuery,
    font: Font<F>,
    character: char,
)
    requires
        query.asks(font, character),
    ensures
        query.weight == font.weight,
        query.style == font.style,
        query.stretch == font.stretch,
        query.family_name@ == font.family_name@,
        query.text@ == crate::utf16::encoded_text(seq![character]),
        query.position == 0,
        query.length == query.text@.len(),
{
    crate::utf16::law_encoded_length(character);
}

/// The queries for two fonts differ in weight, style, stretch and family exactly
/// as the fonts do, and in their text exactly as the characters do.
pub proof fn law_queries_differ_as_fonts_do<F>(
    a: FallbackQuery,
    b: FallbackQuery,
    font_a: Font<F>,
    font_b: Font<F>,
    character_a: char,
    character_b: char,
)
    requires
        a.asks(font_a, character_a),
        b.asks(font_b, character_b),
    ensures
        a.weight == b.weight <==> font_a.weight == font_b.weight,
        a.style == b.style <==> font_a.style == font_b.style,
        a.stretch == b.stretch <==> font_a.stretch == font_b.stretch,
        a.family_name == b.family_name <==> font_a.family_name == font_b.family_name,
        a.text@ == b.text@ <==> character_a == character_b,
{
    crate::utf16::law_encoded_length(character_a);
    crate::utf16::law_encoded_length(character_b);
    if a.text@ == b.text@ {
        crate::utf16::law_encoding_is_injective(seq![character_a], seq![character_b]);
        assert(seq![character_a][0] == seq![character_b][0]);
    }
}

/// A fallback font is asked for if and only if the loaded font has no glyph for
/// the character, that is, gives no index or index zero, and the system offers a
/// font fallback. What is then asked for, or rasterized, is the glyph that was
/// looked up.
pub proof fn law_fallback_is_asked_for_missing_glyphs<F>(
    lookup: GlyphLookup<'_, F>,
    indices: Seq<u16>,
    step: GlyphStep,
)
    requires
        lookup.leads_to(indices, step),
    ensures
        step is MapCharacters <==> (indices.len() == 0 || indices[0] == 0)
            && lookup.rasterizer.falls_back(),
        step is Rasterize <==> (indices.len() > 0 && indices[0] != 0)
            || !lookup.rasterizer.falls_back(),
        step matches GlyphStep::MapCharacters(s) ==> {
            &&& s.glyph == lookup.glyph
            &&& s.query.weight == lookup.font.weight
            &&& s.query.style == lookup.font.style
            &&& s.query.stretch == lookup.font.stretch
            &&& s.query.family_name@ == lookup.font.family_name@
            &&& s.query.text@ == crate::utf16::encoded_text(seq![lookup.glyph.character])
        },
        step matches GlyphStep::Rasterize(job) ==> {
            &&& job.glyph == lookup.glyph
            &&& job.source is Loaded
            &&& job.glyph_index == if indices.len() > 0 {
                indices[0]
            } else {
                0
            }
        },
{
    crate::utf16::law_encoded_length(lookup.glyph.character);
}

/// A glyph that the loaded font has is taken from it, whatever the system
/// offers; one that it lacks is taken from the fallback font, if the system
/// offers one, with the index that this font gives; and else the loaded font's
/// symbol for a missing glyph is taken.
pub proof fn law_glyph_is_taken_from_a_font_that_has_it<F>(
    lookup: GlyphLookup<'_, F>,
    indices: Seq<u16>,
    fallback: Option<Seq<u16>>,
    step: GlyphStep,
)
    requires
        lookup.leads_to(indices, step),
    ensures
        step.job(fallback).glyph == lookup.glyph,
        indices.len() > 0 && indices[0] != 0 ==> {
            &&& step.job(fallback).source is Loaded
            &&& step.job(fallback).glyph_index == indices[0]
        },
        (indices.len() == 0 || indices[0] == 0) && (!lookup.rasterizer.falls_back()
            || fallback is None) ==> {
            &&& step.job(fallback).source is Loaded
            &&& step.job(fallback).glyph_index == 0
        },
        (indices.len() == 0 || indices[0] == 0) && lookup.rasterizer.falls_back()
            && fallback is Some ==> {
            &&& step.job(fallback).source is Fallback
            &&& fallback->0.len() > 0 ==> step.job(fallback).glyph_index == (fallback->0)[0]
            &&& fallback->0.len() == 0 ==> step.job(fallback).glyph_index == 0
        },
{
}

/// A bitmap is reported as it is, unless it is that of index zero, which is
/// reported as a missing glyph with that bitmap; an error is reported as it is.
pub proof fn law_report_hands_the_bitmap_on(
    job: GlyphJob,
    bitmap: RasterizedGlyph,
    error: Error,
)
    ensures
        job.glyph_index != 0 <==> job.report(Ok(bitmap)) == Ok::<RasterizedGlyph, Error>(bitmap),
        job.glyph_index == 0 <==> job.report(Ok(bitmap)) == Err::<RasterizedGlyph, Error>(
            Error::MissingGlyph(bitmap),
        ),
        job.report(Err(error)) == Err::<RasterizedGlyph, Error>(error),
{
}

} // verus!
