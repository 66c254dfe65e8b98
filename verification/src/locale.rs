//! The locale that font fallback is asked for.

use vstd::prelude::*;

verus! {

/// The name of a locale, of which `len` units were written to `buffer`.
///
/// `len` counts the null unit at the end, which does not belong to the name.
/// There is no name if the units before it are not valid UTF-16.
pub fn locale_name(buffer: &Vec<u16>, len: usize) -> (name: Option<String>)
    requires
        1 <= len <= buffer@.len(),
    ensures
        match name {
            Some(text) => crate::utf16::encoded_text(text@) == buffer@.take(len - 1),
            None => forall|text: Seq<char>|
                crate::utf16::encoded_text(text) != buffer@.take(len - 1),
        },
{
    crate::utf16::decode(buffer, len - 1)
}

/// The direction in which a paragraph is read.
#[derive(Clone, Copy, Debug, PartialEq, Eq, Structural)]
pub enum ReadingDirection {
    LeftToRight,
    RightToLeft,
}

/// What the analysis of a text asks about it.
#[derive(Debug)]
pub struct TextAnalysisSourceData<'a> {
    pub locale: &'a str,
    /// The length of the text in UTF-16 units.
    pub length: u32,
}

impl<'a> TextAnalysisSourceData<'a> {
    /// The locale of the text from a position on, and for how many units it
    /// holds. One locale holds for the whole text.
    pub fn get_locale_name(&self, _text_position: u32) -> (r: (&'a str, u32))
        ensures
            r == (self.locale, self.length),
    {
        (self.locale, self.length)
    }

    /// The direction in which the paragraph is read.
    pub fn get_paragraph_reading_direction(&self) -> (r: ReadingDirection)
        ensures
            r == ReadingDirection::LeftToRight,
    {
        ReadingDirection::LeftToRight
    }
}

/// If what was written is the encoding of a text and a null unit, the name is
/// that text and no other.
pub proof fn law_locale_name_is_what_was_written(
    text: Seq<char>,
    buffer: Seq<u16>,
    len: int,
    name: Seq<char>,
)
    requires
        1 <= len <= buffer.len(),
        buffer.take(len) == crate::utf16::encoded_text(text).push(0),
        crate::utf16::encoded_text(name) == buffer.take(len - 1),
    ensures
        name == text,
{
    let units = crate::utf16::encoded_text(text);
    assert(units.push(0).drop_last() =~= units);
    assert(buffer.take(len).drop_last() =~= buffer.take(len - 1));
    crate::utf16::law_encoding_is_injective(name, text);
}

} // verus!
