//! The color layers that a color glyph is painted from.

use crate::bounds::Bounds;
use vstd::prelude::*;

verus! {

/// The palette index by which DirectWrite means "use the current text
/// (foreground) color".
pub const FOREGROUND_PALETTE_INDEX: u16 = 0xFFFF;

/// The bit pattern of the single precision number one.
pub const ONE_BITS: u32 = 0x3F80_0000;

/// A color with straight alpha. Each channel is a single precision number,
/// nominally between zero and one, held as its bit pattern.
#[derive(Clone, Copy, Debug, PartialEq, Eq, Structural)]
pub struct Color {
    pub r: u32,
    pub g: u32,
    pub b: u32,
    pub a: u32,
}

impl Color {
    /// Opaque white.
    pub open spec fn white() -> Color {
        Color { r: ONE_BITS, g: ONE_BITS, b: ONE_BITS, a: ONE_BITS }
    }
}

/// A color glyph run, as far as its layer depends on it.
#[derive(Clone, Copy, Debug, PartialEq, Eq, Structural)]
pub struct ColorRun {
    pub palette_index: u16,
    pub color: Color,
}

impl ColorRun {
    /// The color that the layer of this run is painted in.
    ///
    /// The text color of the cell is not known here, so a layer in the
    /// foreground color is painted white, where it stays visible.
    pub open spec fn paint(self) -> Color {
        if self.palette_index == FOREGROUND_PALETTE_INDEX {
            Color::white()
        } else {
            self.color
        }
    }

    /// The color that the layer of this run is painted in.
    pub fn layer_color(&self) -> (color: Color)
        ensures
            color == self.paint(),
            self.palette_index != 0xFFFF ==> color == self.color,
            self.palette_index == 0xFFFF ==> {
                &&& color.r == 0x3F80_0000
                &&& color.g == 0x3F80_0000
                &&& color.b == 0x3F80_0000
                &&& color.a == 0x3F80_0000
            },
    {
        if self.palette_index == FOREGROUND_PALETTE_INDEX {
            Color { r: ONE_BITS, g: ONE_BITS, b: ONE_BITS, a: ONE_BITS }
        } else {
            self.color
        }
    }
}

/// One color layer of a glyph.
///
/// `coverage` is a ClearType 3x1 texture: three bytes for each pixel of
/// `bounds`, row by row from the top.
#[derive(Debug)]
pub struct Layer {
    pub bounds: Bounds,
    pub coverage: Vec<u8>,
    pub color: Color,
}

impl Layer {
    /// Whether the layer has pixels, and a coverage for each of them.
    pub open spec fn well_formed(self) -> bool {
        &&& !self.bounds.empty()
        &&& self.bounds.width() * self.bounds.height() * 3 <= self.coverage@.len()
    }

    /// Where in `coverage` the three bytes of a pixel inside `bounds` begin.
    pub open spec fn texel(self, x: int, y: int) -> int {
        ((y - self.bounds.top) * self.bounds.width() + (x - self.bounds.left)) * 3
    }

    /// How much of a pixel the layer covers: the sum of the pixel's three
    /// coverage bytes, and nothing outside of `bounds`.
    pub open spec fn coverage_at(self, x: int, y: int) -> u32 {
        if self.bounds.holds(x, y) {
            let i = self.texel(x, y);
            (self.coverage@[i] + self.coverage@[i + 1] + self.coverage@[i + 2]) as u32
        } else {
            0
        }
    }

    /// Whether the layer has pixels, and a coverage for each of them.
    pub fn is_well_formed(&self) -> (r: bool)
        ensures
            r == self.well_formed(),
            r <==> {
                &&& self.bounds.left < self.bounds.right
                &&& self.bounds.top < self.bounds.bottom
                &&& (self.bounds.right - self.bounds.left) * (self.bounds.bottom - self.bounds.top)
                    * 3 <= self.coverage@.len()
            },
    {
        if self.bounds.is_empty() {
            return false;
        }
        let width: u64 = (self.bounds.right as i64 - self.bounds.left as i64) as u64;
        let height: u64 = (self.bounds.bottom as i64 - self.bounds.top as i64) as u64;
        proof {
            lemma_area_bound(width as int, height as int);
        }
        let area: u128 = width as u128 * height as u128;
        area * 3 <= self.coverage.len() as u128
    }
}

/// The product of two numbers below two to the thirty-second is below two to
/// the sixty-fourth.
pub(crate) proof fn lemma_area_bound(width: int, height: int)
    by (nonlinear_arith)
    requires
        0 <= width <= 0xFFFF_FFFF,
        0 <= height <= 0xFFFF_FFFF,
    ensures
        0 <= width * height <= 0xFFFF_FFFF * 0xFFFF_FFFF,
{
}

/// A pixel at column `dx` and row `dy` of a rectangle that is `width` wide and
/// `height` high has an index below the rectangle's area.
pub(crate) proof fn lemma_index_in_area(dx: int, dy: int, width: int, height: int)
    by (nonlinear_arith)
    requires
        0 <= dx < width,
        0 <= dy < height,
    ensures
        0 <= dy * width,
        0 <= dy * width + dx < width * height,
{
}

/// Pixels of a rectangle that is `width` wide have different indices.
pub(crate) proof fn lemma_index_is_injective(
    dx1: int,
    dy1: int,
    dx2: int,
    dy2: int,
    width: int,
)
    by (nonlinear_arith)
    requires
        0 <= dx1 < width,
        0 <= dx2 < width,
        dy1 * width + dx1 == dy2 * width + dx2,
    ensures
        dx1 == dx2,
        dy1 == dy2,
{
}

/// A layer is painted in the color of its run, whatever that is, and only a run
/// in the foreground color is painted in opaque white.
pub proof fn law_run_color_is_painted(run: ColorRun)
    ensures
        run.palette_index != 0xFFFF ==> run.paint() == run.color,
        run.palette_index == 0xFFFF ==> {
            &&& run.paint().r == 0x3F80_0000
            &&& run.paint().g == 0x3F80_0000
            &&& run.paint().b == 0x3F80_0000
            &&& run.paint().a == 0x3F80_0000
        },
{
}

/// A layer is well formed if and only if it has pixels and three bytes of
/// coverage for each of them.
pub proof fn law_well_formed_layers_have_coverage(layer: Layer)
    ensures
        layer.well_formed() <==> {
            &&& layer.bounds.left < layer.bounds.right
            &&& layer.bounds.top < layer.bounds.bottom
            &&& (layer.bounds.right - layer.bounds.left) * (layer.bounds.bottom
                - layer.bounds.top) * 3 <= layer.coverage@.len()
        },
{
}

/// The coverage of a layer runs row by row from the top and in each row from
/// the left: that of the top left pixel comes first, one column to the right is
/// three bytes further, and one row down is three bytes for each column further.
pub proof fn law_coverage_runs_from_the_top_left(layer: Layer, x: int, y: int)
    ensures
        layer.texel(layer.bounds.left as int, layer.bounds.top as int) == 0,
        layer.texel(x + 1, y) == layer.texel(x, y) + 3,
        layer.texel(x, y + 1) == layer.texel(x, y) + 3 * (layer.bounds.right - layer.bounds.left),
{
    let width = layer.bounds.width();
    let row = y - layer.bounds.top;
    assert((row + 1) * width == row * width + width) by (nonlinear_arith);
    assert(0 * width == 0);
}

/// Inside its bounds a layer covers a pixel by the sum of the three bytes that
/// it has for that pixel, and outside of them by nothing.
pub proof fn law_coverage_is_the_sum_of_three_bytes(layer: Layer, x: int, y: int)
    ensures
        layer.bounds.left <= x < layer.bounds.right && layer.bounds.top <= y < layer.bounds.bottom
            ==> {
            let at = 3 * ((y - layer.bounds.top) * (layer.bounds.right - layer.bounds.left) + (x
                - layer.bounds.left));
            layer.coverage_at(x, y) == layer.coverage@[at] + layer.coverage@[at + 1]
                + layer.coverage@[at + 2]
        },
        !(layer.bounds.left <= x < layer.bounds.right && layer.bounds.top <= y
            < layer.bounds.bottom) ==> layer.coverage_at(x, y) == 0,
{
}

} // verus!
