//! Glyphs: how they are asked for, and what comes back.

use crate::font::FontKey;
use vstd::prelude::*;

verus! {

/// The size of a font.
///
/// What a glyph run is laid out by is the size of the em square in pixels: a
/// single precision number, held as its bit pattern.
#[derive(Clone, Copy, Debug, PartialEq, Eq, Structural, Hash)]
pub struct Size {
    pub px_bits: u32,
}

/// Which glyph to rasterize.
#[derive(Clone, Copy, Debug, PartialEq, Eq, Structural, Hash)]
pub struct GlyphKey {
    pub character: char,
    pub font_key: FontKey,
    pub size: Size,
}

/// The bytes of a bitmap, row by row from the top.
#[derive(Debug, PartialEq, Eq)]
pub enum BitmapBuffer {
    /// Three bytes for each pixel: an alpha mask for each of red, green, blue.
    Rgb(Vec<u8>),
    /// Four bytes for each pixel: red, green, blue with premultiplied alpha,
    /// then alpha.
    Rgba(Vec<u8>),
}

/// A glyph as a bitmap, with its place relative to the baseline.
#[derive(Debug, PartialEq, Eq)]
pub struct RasterizedGlyph {
    pub character: char,
    pub width: i32,
    pub height: i32,
    pub top: i32,
    pub left: i32,
    pub advance: (i32, i32),
    pub buffer: BitmapBuffer,
}

impl BitmapBuffer {
    /// Whether two bitmaps have the same kind and the same bytes.
    pub open spec fn same(self, other: BitmapBuffer) -> bool {
        match (self, other) {
            (BitmapBuffer::Rgb(a), BitmapBuffer::Rgb(b)) => a@ == b@,
            (BitmapBuffer::Rgba(a), BitmapBuffer::Rgba(b)) => a@ == b@,
            _ => false,
        }
    }
}

impl RasterizedGlyph {
    /// Whether two glyphs are the same, byte for byte.
    pub open spec fn same(self, other: RasterizedGlyph) -> bool {
        &&& self.character == other.character
        &&& self.width == other.width
        &&& self.height == other.height
        &&& self.top == other.top
        &&& self.left == other.left
        &&& self.advance == other.advance
        &&& self.buffer.same(other.buffer)
    }
}

/// One pixel of an `Rgba` bitmap.
#[derive(Clone, Copy, Debug, PartialEq, Eq, Structural)]
pub struct Pixel {
    pub r: u8,
    pub g: u8,
    pub b: u8,
    pub a: u8,
}

impl Pixel {
    /// The pixel that nothing has been painted on.
    pub open spec fn transparent() -> Pixel {
        Pixel { r: 0, g: 0, b: 0, a: 0 }
    }

    /// The pixel with the given index in the bytes of an `Rgba` bitmap.
    pub open spec fn at(bytes: Seq<u8>, index: int) -> Pixel {
        Pixel {
            r: bytes[index * 4],
            g: bytes[index * 4 + 1],
            b: bytes[index * 4 + 2],
            a: bytes[index * 4 + 3],
        }
    }
}

/// A pixel of an `Rgba` bitmap has its red, green, blue and alpha in this order,
/// in the four bytes that begin at four times its index.
pub proof fn law_channels_are_in_order(bytes: Seq<u8>, index: int)
    ensures
        Pixel::at(bytes, index).r == bytes[4 * index],
        Pixel::at(bytes, index).g == bytes[4 * index + 1],
        Pixel::at(bytes, index).b == bytes[4 * index + 2],
        Pixel::at(bytes, index).a == bytes[4 * index + 3],
{
}

/// A pixel that nothing has been painted on has neither color nor alpha.
pub proof fn law_transparent_is_zero()
    ensures
        Pixel::transparent().r == 0,
        Pixel::transparent().g == 0,
        Pixel::transparent().b == 0,
        Pixel::transparent().a == 0,
{
}

/// Two glyphs are the same if and only if nothing tells them apart: the
/// character, the extent, the place, the advance, the kind of the bitmap, or
/// any byte of it.
pub proof fn law_same_glyphs_agree_in_all(a: RasterizedGlyph, b: RasterizedGlyph)
    ensures
        a.same(b) <==> {
            &&& a.character == b.character
            &&& a.width == b.width && a.height == b.height
            &&& a.top == b.top && a.left == b.left
            &&& a.advance == b.advance
            &&& match a.buffer {
                BitmapBuffer::Rgb(bytes) => b.buffer is Rgb && b.buffer->Rgb_0@ == bytes@,
                BitmapBuffer::Rgba(bytes) => b.buffer is Rgba && b.buffer->Rgba_0@ == bytes@,
            }
        },
{
}

} // verus!
