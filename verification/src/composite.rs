//! Compositing of color layers into a bitmap.

use crate::bounds::Bounds;
use crate::glyph::{BitmapBuffer, Pixel, RasterizedGlyph};
use crate::layer::{Color, Layer};
use vstd::prelude::*;

verus! {

/// The smallest rectangle that encloses two rectangles.
pub open spec fn joined(a: Bounds, b: Bounds) -> Bounds {
    Bounds {
        left: if b.left < a.left { b.left } else { a.left },
        top: if b.top < a.top { b.top } else { a.top },
        right: if b.right > a.right { b.right } else { a.right },
        bottom: if b.bottom > a.bottom { b.bottom } else { a.bottom },
    }
}

/// The smallest rectangle that encloses all layers, of which there is one or
/// more.
pub open spec fn union_of(layers: Seq<Layer>) -> Bounds
    decreases layers.len(),
{
    if layers.len() <= 1 {
        layers[0].bounds
    } else {
        joined(union_of(layers.drop_last()), layers.last().bounds)
    }
}

/// Whether the layers can be composited: each has pixels and a coverage for
/// each of them, and the bitmap that encloses them has an extent, a place and
/// a number of bytes that the machine can hold.
pub open spec fn compositable(layers: Seq<Layer>) -> bool {
    &&& forall|i: int| 0 <= i < layers.len() ==> (#[trigger] layers[i]).well_formed()
    &&& layers.len() > 0 ==> {
        &&& union_of(layers).measurable()
        &&& union_of(layers).width() * union_of(layers).height() * 4 <= isize::MAX
    }
}

/// The index of a pixel in a bitmap that covers `area`.
pub open spec fn index_in(area: Bounds, x: int, y: int) -> int {
    (y - area.top) * area.width() + (x - area.left)
}

/// Whether painting `layer` can turn the pixel `under` at column `x` and row
/// `y` into `over`: what the layer does not cover stays, and what it covers is
/// blended once.
pub open spec fn painted_over<B: Fn(Pixel, Color, u32) -> Pixel>(
    blend: B,
    layer: Layer,
    x: int,
    y: int,
    under: Pixel,
    over: Pixel,
) -> bool {
    if layer.coverage_at(x, y) == 0 {
        over == under
    } else {
        call_ensures(blend, (under, layer.color, layer.coverage_at(x, y)), over)
    }
}

/// Whether blending gives one result for one input, at every coverage that a
/// pixel of a layer can have.
pub open spec fn deterministic<B: Fn(Pixel, Color, u32) -> Pixel>(blend: B) -> bool {
    forall|under: Pixel, color: Color, coverage: u32, p: Pixel, q: Pixel|
        0 < coverage <= 765 && #[trigger] call_ensures(blend, (under, color, coverage), p)
            && #[trigger] call_ensures(blend, (under, color, coverage), q) ==> p == q
}

/// Whether painting the layers from back to front can leave the pixel `p` at
/// column `x` and row `y`.
pub open spec fn painted<B: Fn(Pixel, Color, u32) -> Pixel>(
    blend: B,
    layers: Seq<Layer>,
    x: int,
    y: int,
    p: Pixel,
) -> bool
    decreases layers.len(),
{
    if layers.len() == 0 {
        p == Pixel::transparent()
    } else {
        exists|under: Pixel|
            {
                &&& painted(blend, layers.drop_last(), x, y, under)
                &&& #[trigger] painted_over(blend, layers.last(), x, y, under, p)
            }
    }
}

/// Whether `bytes` are those of a bitmap over `area` on which the layers were
/// painted from back to front.
pub open spec fn composited<B: Fn(Pixel, Color, u32) -> Pixel>(
    blend: B,
    layers: Seq<Layer>,
    area: Bounds,
    bytes: Seq<u8>,
) -> bool {
    &&& bytes.len() == area.width() * area.height() * 4
    &&& forall|x: int, y: int|
        #[trigger] area.holds(x, y) ==> painted(
            blend,
            layers,
            x,
            y,
            Pixel::at(bytes, index_in(area, x, y)),
        )
}

/// Whether a glyph is a bitmap that encloses the layers, in its place relative
/// to the baseline, on which the layers were painted from back to front.
pub open spec fn shows<B: Fn(Pixel, Color, u32) -> Pixel>(
    blend: B,
    character: char,
    layers: Seq<Layer>,
    glyph: RasterizedGlyph,
) -> bool {
    let area = union_of(layers);
    &&& glyph.character == character
    &&& glyph.width == area.width()
    &&& glyph.height == area.height()
    &&& glyph.top == -area.top
    &&& glyph.left == area.left
    &&& glyph.advance == (0i32, 0i32)
    &&& glyph.buffer matches BitmapBuffer::Rgba(bytes) && composited(
        blend,
        layers,
        area,
        bytes@,
    )
}

/// Reads the pixel with the given index.
fn load_pixel(bytes: &Vec<u8>, index: usize) -> (p: Pixel)
    requires
        index * 4 + 3 < bytes.len(),
    ensures
        p == Pixel::at(bytes@, index as int),
{
    let at: usize = index * 4;
    Pixel { r: bytes[at], g: bytes[at + 1], b: bytes[at + 2], a: bytes[at + 3] }
}

/// Writes the pixel with the given index.
fn store_pixel(bytes: &mut Vec<u8>, index: usize, p: Pixel)
    requires
        index * 4 + 3 < old(bytes).len(),
    ensures
        final(bytes)@.len() == old(bytes)@.len(),
        Pixel::at(final(bytes)@, index as int) == p,
        forall|i: int|
            0 <= i && i * 4 + 3 < old(bytes)@.len() && i != index ==> #[trigger] Pixel::at(
                final(bytes)@,
                i,
            ) == Pixel::at(old(bytes)@, i),
{
    let at: usize = index * 4;
    bytes[at] = p.r;
    bytes[at + 1] = p.g;
    bytes[at + 2] = p.b;
    bytes[at + 3] = p.a;
}

/// The smallest rectangle that encloses all layers.
fn union_bounds(layers: &Vec<Layer>) -> (area: Bounds)
    requires
        layers@.len() > 0,
    ensures
        area == union_of(layers@),
{
    let mut area: Bounds = layers[0].bounds;
    let mut k: usize = 1;
    assert(layers@.take(1)[0] == layers@[0]);
    while k < layers.len()
        invariant
            1 <= k <= layers@.len(),
            area == union_of(layers@.take(k as int)),
        decreases layers@.len() - k,
    {
        let b: Bounds = layers[k].bounds;
        assert(layers@.take(k + 1).drop_last() =~= layers@.take(k as int));
        area =
        Bounds {
            left: if b.left < area.left { b.left } else { area.left },
            top: if b.top < area.top { b.top } else { area.top },
            right: if b.right > area.right { b.right } else { area.right },
            bottom: if b.bottom > area.bottom { b.bottom } else { area.bottom },
        };
        k += 1;
    }
    assert(layers@.take(layers@.len() as int) =~= layers@);
    area
}

/// The union encloses each layer.
proof fn lemma_union_encloses(layers: Seq<Layer>, i: int)
    requires
        0 <= i < layers.len(),
    ensures
        union_of(layers).encloses(layers[i].bounds),
    decreases layers.len(),
{
    if layers.len() > 1 && i < layers.len() - 1 {
        lemma_union_encloses(layers.drop_last(), i);
    }
}

/// Whether painting `layer` row by row has passed the pixel at column `x` and
/// row `y` once it has come to column `dx` of row `dy` of the layer.
spec fn passed(layer: Layer, dx: int, dy: int, x: int, y: int) -> bool {
    &&& layer.bounds.holds(x, y)
    &&& y < layer.bounds.top + dy || (y == layer.bounds.top + dy && x < layer.bounds.left + dx)
}

/// Whether `bytes` is `before` with the pixels painted that `layer` has passed.
spec fn partly_painted<B: Fn(Pixel, Color, u32) -> Pixel>(
    blend: B,
    layer: Layer,
    area: Bounds,
    dx: int,
    dy: int,
    before: Seq<u8>,
    bytes: Seq<u8>,
) -> bool {
    &&& bytes.len() == before.len()
    &&& forall|x: int, y: int| #[trigger]
        area.holds(x, y) ==> {
            let under = Pixel::at(before, index_in(area, x, y));
            let over = Pixel::at(bytes, index_in(area, x, y));
            if passed(layer, dx, dy, x, y) {
                painted_over(blend, layer, x, y, under, over)
            } else {
                over == under
            }
        }
}

/// Paints one pixel of `layer`, at column `dx` and row `dy` of the layer.
fn paint_pixel<B: Fn(Pixel, Color, u32) -> Pixel>(
    bytes: &mut Vec<u8>,
    area: &Bounds,
    layer: &Layer,
    dx: usize,
    dy: usize,
    blend: &B,
)
    requires
        layer.well_formed(),
        area.encloses(layer.bounds),
        area.measurable(),
        area.width() * area.height() * 4 == old(bytes).len(),
        dx < layer.bounds.width(),
        dy < layer.bounds.height(),
        forall|dst: Pixel, color: Color, coverage: u32|
            0 < coverage <= 765 ==> #[trigger] call_requires(*blend, (dst, color, coverage)),
    ensures
        final(bytes)@.len() == old(bytes)@.len(),
        forall|x: int, y: int| #[trigger]
            area.holds(x, y) ==> {
                let under = Pixel::at(old(bytes)@, index_in(*area, x, y));
                let over = Pixel::at(final(bytes)@, index_in(*area, x, y));
                if x == layer.bounds.left + dx && y == layer.bounds.top + dy {
                    painted_over(*blend, *layer, x, y, under, over)
                } else {
                    over == under
                }
            },
{
    let width: usize = (area.right - area.left) as usize;
    let layer_width: usize = (layer.bounds.right - layer.bounds.left) as usize;
    let offset_x: usize = (layer.bounds.left - area.left) as usize;
    let offset_y: usize = (layer.bounds.top - area.top) as usize;
    let ghost x0 = layer.bounds.left + dx;
    let ghost y0 = layer.bounds.top + dy;
    proof {
        crate::layer::lemma_index_in_area(
            dx as int,
            dy as int,
            layer.bounds.width(),
            layer.bounds.height(),
        );
        crate::layer::lemma_index_in_area(
            x0 - area.left,
            y0 - area.top,
            area.width(),
            area.height(),
        );
    }
    let len: usize = layer.coverage.len();
    assert(dy * layer_width + dx < len);
    let texel: usize = (dy * layer_width + dx) * 3;
    let coverage: u32 = layer.coverage[texel] as u32 + layer.coverage[texel + 1] as u32
        + layer.coverage[texel + 2] as u32;
    assert(coverage == layer.coverage_at(x0, y0));
    if coverage > 0 {
        let index: usize = (offset_y + dy) * width + (offset_x + dx);
        assert(index == index_in(*area, x0, y0));
        let under: Pixel = load_pixel(bytes, index);
        let over: Pixel = blend(under, layer.color, coverage);
        store_pixel(bytes, index, over);
        assert forall|x: int, y: int| #[trigger]
            area.holds(x, y) && !(x == x0 && y == y0) implies Pixel::at(
            bytes@,
            index_in(*area, x, y),
        ) == Pixel::at(old(bytes)@, index_in(*area, x, y)) by {
            crate::layer::lemma_index_in_area(
                x - area.left,
                y - area.top,
                area.width(),
                area.height(),
            );
            if index_in(*area, x, y) == index {
                crate::layer::lemma_index_is_injective(
                    x - area.left,
                    y - area.top,
                    x0 - area.left,
                    y0 - area.top,
                    area.width(),
                );
            }
        }
    }
}

/// Paints `layer` over the bitmap.
fn paint_layer<B: Fn(Pixel, Color, u32) -> Pixel>(
    bytes: &mut Vec<u8>,
    area: &Bounds,
    layer: &Layer,
    blend: &B,
)
    requires
        layer.well_formed(),
        area.encloses(layer.bounds),
        area.measurable(),
        area.width() * area.height() * 4 == old(bytes).len(),
        forall|dst: Pixel, color: Color, coverage: u32|
            0 < coverage <= 765 ==> #[trigger] call_requires(*blend, (dst, color, coverage)),
    ensures
        final(bytes)@.len() == old(bytes)@.len(),
        forall|x: int, y: int| #[trigger]
            area.holds(x, y) ==> painted_over(
                *blend,
                *layer,
                x,
                y,
                Pixel::at(old(bytes)@, index_in(*area, x, y)),
                Pixel::at(final(bytes)@, index_in(*area, x, y)),
            ),
{
    let layer_width: usize = (layer.bounds.right - layer.bounds.left) as usize;
    let layer_height: usize = (layer.bounds.bottom - layer.bounds.top) as usize;
    let ghost before = bytes@;
    let mut dy: usize = 0;
    while dy < layer_height
        invariant
            dy <= layer_height,
            layer_width == layer.bounds.width(),
            layer_height == layer.bounds.height(),
            layer.well_formed(),
            area.encloses(layer.bounds),
            area.measurable(),
            area.width() * area.height() * 4 == bytes.len(),
            forall|dst: Pixel, color: Color, coverage: u32|
                0 < coverage <= 765 ==> #[trigger] call_requires(*blend, (dst, color, coverage)),
            partly_painted(*blend, *layer, *area, 0, dy as int, before, bytes@),
        decreases layer_height - dy,
    {
        let mut dx: usize = 0;
        while dx < layer_width
            invariant
                dx <= layer_width,
                dy < layer_height,
                layer_width == layer.bounds.width(),
                layer_height == layer.bounds.height(),
                layer.well_formed(),
                area.encloses(layer.bounds),
                area.measurable(),
                area.width() * area.height() * 4 == bytes.len(),
                forall|dst: Pixel, color: Color, coverage: u32|
                    0 < coverage <= 765 ==> #[trigger] call_requires(
                        *blend,
                        (dst, color, coverage),
                    ),
                partly_painted(*blend, *layer, *area, dx as int, dy as int, before, bytes@),
            decreases layer_width - dx,
        {
            paint_pixel(bytes, area, layer, dx, dy, blend);
            dx += 1;
        }
        dy += 1;
    }
}

/// Painting one more layer over a painted pixel.
proof fn lemma_painted_next<B: Fn(Pixel, Color, u32) -> Pixel>(
    blend: B,
    layers: Seq<Layer>,
    x: int,
    y: int,
    under: Pixel,
    over: Pixel,
)
    requires
        layers.len() > 0,
        painted(blend, layers.drop_last(), x, y, under),
        painted_over(blend, layers.last(), x, y, under, over),
    ensures
        painted(blend, layers, x, y, over),
{
}

/// Whether the layers can be composited.
pub fn can_composite(layers: &Vec<Layer>) -> (r: bool)
    ensures
        r == compositable(layers@),
{
    let mut k: usize = 0;
    while k < layers.len()
        invariant
            k <= layers@.len(),
            forall|i: int| 0 <= i < k ==> (#[trigger] layers@[i]).well_formed(),
        decreases layers@.len() - k,
    {
        if !layers[k].is_well_formed() {
            return false;
        }
        k += 1;
    }
    if layers.len() == 0 {
        return true;
    }
    let area: Bounds = union_bounds(layers);
    if !area.is_measurable() {
        return false;
    }
    proof {
        lemma_union_encloses(layers@, 0);
        crate::layer::lemma_area_bound(area.width(), area.height());
    }
    let width: u128 = (area.right - area.left) as u128;
    let height: u128 = (area.bottom - area.top) as u128;
    width * height * 4 <= isize::MAX as u128
}

/// Composites the color layers of a glyph, given from back to front, of which
/// there is one or more.
///
/// The bitmap encloses all layers. `blend` is handed a pixel of the bitmap, the
/// color of a layer and how much of the pixel the layer covers, as the sum of
/// three coverage bytes, and returns the pixel with that color over it.
pub fn composite_layers<B: Fn(Pixel, Color, u32) -> Pixel>(
    character: char,
    layers: &Vec<Layer>,
    blend: B,
) -> (glyph: RasterizedGlyph)
    requires
        layers@.len() > 0,
        compositable(layers@),
        forall|dst: Pixel, color: Color, coverage: u32|
            0 < coverage <= 765 ==> #[trigger] call_requires(blend, (dst, color, coverage)),
    ensures
        shows(blend, character, layers@, glyph),
{
    let area: Bounds = union_bounds(layers);
    proof {
        lemma_union_encloses(layers@, 0);
        crate::layer::lemma_area_bound(area.width(), area.height());
    }
    let width: usize = (area.right - area.left) as usize;
    let height: usize = (area.bottom - area.top) as usize;
    let mut bytes: Vec<u8> = vec![0u8; width * height * 4];
    assert forall|x: int, y: int| #[trigger] area.holds(x, y) implies painted(
        blend,
        layers@.take(0),
        x,
        y,
        Pixel::at(bytes@, index_in(area, x, y)),
    ) by {
        crate::layer::lemma_index_in_area(
            x - area.left,
            y - area.top,
            area.width(),
            area.height(),
        );
    }
    let mut k: usize = 0;
    while k < layers.len()
        invariant
            k <= layers@.len(),
            compositable(layers@),
            area == union_of(layers@),
            bytes.len() == area.width() * area.height() * 4,
            forall|dst: Pixel, color: Color, coverage: u32|
                0 < coverage <= 765 ==> #[trigger] call_requires(blend, (dst, color, coverage)),
            composited(blend, layers@.take(k as int), area, bytes@),
        decreases layers@.len() - k,
    {
        let ghost before = bytes@;
        proof {
            lemma_union_encloses(layers@, k as int);
        }
        paint_layer(&mut bytes, &area, &layers[k], &blend);
        assert(layers@.take(k + 1).drop_last() =~= layers@.take(k as int));
        assert(layers@.take(k + 1).last() == layers@[k as int]);
        assert forall|x: int, y: int| #[trigger] area.holds(x, y) implies painted(
            blend,
            layers@.take(k + 1),
            x,
            y,
            Pixel::at(bytes@, index_in(area, x, y)),
        ) by {
            lemma_painted_next(
                blend,
                layers@.take(k + 1),
                x,
                y,
                Pixel::at(before, index_in(area, x, y)),
                Pixel::at(bytes@, index_in(area, x, y)),
            );
        }
        k += 1;
    }
    assert(layers@.take(k as int) =~= layers@);
    RasterizedGlyph {
        character,
        width: area.right - area.left,
        height: area.bottom - area.top,
        top: -area.top,
        left: area.left,
        advance: (0, 0),
        buffer: BitmapBuffer::Rgba(bytes),
    }
}

/// The bitmap is the smallest rectangle that encloses all layers: a rectangle
/// encloses it if and only if it encloses each of them.
pub proof fn law_union_is_least(layers: Seq<Layer>, area: Bounds)
    requires
        layers.len() > 0,
    ensures
        area.encloses(union_of(layers)) <==> forall|i: int|
            0 <= i < layers.len() ==> area.encloses((#[trigger] layers[i]).bounds),
    decreases layers.len(),
{
    if layers.len() > 1 {
        law_union_is_least(layers.drop_last(), area);
        let init = layers.drop_last();
        if area.encloses(union_of(layers)) {
            assert forall|i: int| 0 <= i < layers.len() implies area.encloses(
                (#[trigger] layers[i]).bounds,
            ) by {
                lemma_union_encloses(layers, i);
            }
        } else if forall|i: int|
            0 <= i < layers.len() ==> area.encloses((#[trigger] layers[i]).bounds) {
            assert forall|i: int| 0 <= i < init.len() implies area.encloses(
                (#[trigger] init[i]).bounds,
            ) by {
                assert(init[i] == layers[i]);
            }
            assert(area.encloses(layers[layers.len() - 1].bounds));
        }
    } else {
        assert(layers[0].bounds == union_of(layers));
    }
}

/// A painted pixel is one that the layers further back have painted, with the
/// front layer painted over it.
pub proof fn law_front_layer_is_painted_last<B: Fn(Pixel, Color, u32) -> Pixel>(
    blend: B,
    layers: Seq<Layer>,
    x: int,
    y: int,
    p: Pixel,
) -> (under: Pixel)
    requires
        layers.len() > 0,
        painted(blend, layers, x, y, p),
    ensures
        painted(blend, layers.drop_last(), x, y, under),
        painted_over(blend, layers.last(), x, y, under, p),
{
    choose|under: Pixel|
        {
            &&& painted(blend, layers.drop_last(), x, y, under)
            &&& #[trigger] painted_over(blend, layers.last(), x, y, under, p)
        }
}

/// What no layer covers stays transparent.
pub proof fn law_uncovered_stays_transparent<B: Fn(Pixel, Color, u32) -> Pixel>(
    blend: B,
    layers: Seq<Layer>,
    x: int,
    y: int,
    p: Pixel,
)
    requires
        forall|i: int| 0 <= i < layers.len() ==> (#[trigger] layers[i]).coverage_at(x, y) == 0,
    ensures
        painted(blend, layers, x, y, p) <==> p == Pixel::transparent(),
    decreases layers.len(),
{
    if layers.len() > 0 {
        let init = layers.drop_last();
        assert forall|i: int| 0 <= i < init.len() implies (#[trigger] init[i]).coverage_at(x, y)
            == 0 by {
            assert(init[i] == layers[i]);
        }
        assert(layers[layers.len() - 1].coverage_at(x, y) == 0);
        law_uncovered_stays_transparent(blend, init, x, y, p);
        assert(painted_over(blend, layers.last(), x, y, p, p));
    }
}

/// What holds of a transparent pixel, and is kept by blending the colors of the
/// layers, holds of every pixel: if blending them keeps premultiplied alpha,
/// the bitmap has it.
pub proof fn law_blending_invariant<B: Fn(Pixel, Color, u32) -> Pixel>(
    blend: B,
    layers: Seq<Layer>,
    x: int,
    y: int,
    p: Pixel,
    kept: spec_fn(Pixel) -> bool,
)
    requires
        kept(Pixel::transparent()),
        forall|i: int, under: Pixel, coverage: u32, over: Pixel|
            0 <= i < layers.len() && kept(under) && 0 < coverage <= 765
                && #[trigger] call_ensures(blend, (under, layers[i].color, coverage), over)
                ==> kept(over),
        painted(blend, layers, x, y, p),
    ensures
        kept(p),
    decreases layers.len(),
{
    if layers.len() > 0 {
        let init = layers.drop_last();
        let under = law_front_layer_is_painted_last(blend, layers, x, y, p);
        assert forall|i: int, u: Pixel, coverage: u32, over: Pixel|
            0 <= i < init.len() && kept(u) && 0 < coverage <= 765
                && #[trigger] call_ensures(blend, (u, init[i].color, coverage), over) implies kept(
            over,
        ) by {
            assert(init[i] == layers[i]);
        }
        law_blending_invariant(blend, init, x, y, under, kept);
        assert(layers.last() == layers[layers.len() - 1]);
    }
}

/// If blending gives one result for one input, so does compositing.
pub proof fn law_compositing_is_deterministic<B: Fn(Pixel, Color, u32) -> Pixel>(
    blend: B,
    layers: Seq<Layer>,
    x: int,
    y: int,
    p: Pixel,
    q: Pixel,
)
    requires
        deterministic(blend),
        painted(blend, layers, x, y, p),
        painted(blend, layers, x, y, q),
    ensures
        p == q,
    decreases layers.len(),
{
    if layers.len() > 0 {
        let a = law_front_layer_is_painted_last(blend, layers, x, y, p);
        let b = law_front_layer_is_painted_last(blend, layers, x, y, q);
        law_compositing_is_deterministic(blend, layers.drop_last(), x, y, a, b);
    }
}

/// If blending gives one result for one input, the layers have one bitmap.
pub proof fn law_bitmap_is_determined<B: Fn(Pixel, Color, u32) -> Pixel>(
    blend: B,
    layers: Seq<Layer>,
    area: Bounds,
    a: Seq<u8>,
    b: Seq<u8>,
)
    requires
        !area.empty(),
        deterministic(blend),
        composited(blend, layers, area, a),
        composited(blend, layers, area, b),
    ensures
        a == b,
{
    let width = area.width();
    assert forall|j: int| 0 <= j < a.len() implies a[j] == b[j] by {
        let index = j / 4;
        lemma_pixel_of_index(index, width, area.height());
        let x = area.left + index % width;
        let y = area.top + index / width;
        assert(area.holds(x, y));
        assert(index_in(area, x, y) == index);
        law_compositing_is_deterministic(
            blend,
            layers,
            x,
            y,
            Pixel::at(a, index),
            Pixel::at(b, index),
        );
        assert(j == index * 4 || j == index * 4 + 1 || j == index * 4 + 2 || j == index * 4 + 3);
    }
    assert(a =~= b);
}

/// The column and the row of the pixel with the given index.
proof fn lemma_pixel_of_index(index: int, width: int, height: int)
    by (nonlinear_arith)
    requires
        width > 0,
        0 <= index < width * height,
    ensures
        0 <= index % width < width,
        0 <= index / width < height,
        (index / width) * width + index % width == index,
{
}

/// A pixel is made by the layers that cover it, in their order, and by no
/// others.
pub proof fn law_only_covering_layers_count<B: Fn(Pixel, Color, u32) -> Pixel>(
    blend: B,
    layers: Seq<Layer>,
    x: int,
    y: int,
    p: Pixel,
)
    ensures
        painted(blend, layers, x, y, p) <==> painted(
            blend,
            layers.filter(|layer: Layer| layer.coverage_at(x, y) > 0),
            x,
            y,
            p,
        ),
    decreases layers.len(),
{
    let covering = |layer: Layer| layer.coverage_at(x, y) > 0;
    reveal(Seq::filter);
    if layers.len() > 0 {
        let init = layers.drop_last();
        let last = layers.last();
        let all = layers.filter(covering);
        if covering(last) {
            assert(all.drop_last() =~= init.filter(covering));
            assert(all.last() == last);
            if painted(blend, layers, x, y, p) {
                let under = law_front_layer_is_painted_last(blend, layers, x, y, p);
                law_only_covering_layers_count(blend, init, x, y, under);
                lemma_painted_next(blend, all, x, y, under, p);
            }
            if painted(blend, all, x, y, p) {
                let under = law_front_layer_is_painted_last(blend, all, x, y, p);
                law_only_covering_layers_count(blend, init, x, y, under);
                lemma_painted_next(blend, layers, x, y, under, p);
            }
        } else {
            assert(all =~= init.filter(covering));
            law_only_covering_layers_count(blend, init, x, y, p);
            assert(painted_over(blend, last, x, y, p, p));
        }
    }
}

/// The pixels of a bitmap are numbered row by row from the top and in each row
/// from the left: the top left pixel comes first, one column to the right is one
/// further, and one row down is one further for each column.
pub proof fn law_rows_run_from_the_top(area: Bounds, x: int, y: int)
    ensures
        index_in(area, area.left as int, area.top as int) == 0,
        index_in(area, x + 1, y) == index_in(area, x, y) + 1,
        index_in(area, x, y + 1) == index_in(area, x, y) + (area.right - area.left),
{
    let width = area.width();
    let row = y - area.top;
    assert((row + 1) * width == row * width + width) by (nonlinear_arith);
    assert(0 * width == 0);
}

/// Each edge of the rectangle that encloses all layers is that of a layer, and
/// no layer reaches beyond it.
pub proof fn law_union_edges_are_those_of_layers(layers: Seq<Layer>)
    requires
        layers.len() > 0,
    ensures
        forall|i: int|
            0 <= i < layers.len() ==> {
                &&& union_of(layers).left <= (#[trigger] layers[i]).bounds.left
                &&& union_of(layers).top <= layers[i].bounds.top
                &&& layers[i].bounds.right <= union_of(layers).right
                &&& layers[i].bounds.bottom <= union_of(layers).bottom
            },
        exists|i: int|
            0 <= i < layers.len() && (#[trigger] layers[i]).bounds.left == union_of(layers).left,
        exists|i: int|
            0 <= i < layers.len() && (#[trigger] layers[i]).bounds.top == union_of(layers).top,
        exists|i: int|
            0 <= i < layers.len() && (#[trigger] layers[i]).bounds.right == union_of(layers).right,
        exists|i: int|
            0 <= i < layers.len() && (#[trigger] layers[i]).bounds.bottom
                == union_of(layers).bottom,
    decreases layers.len(),
{
    assert forall|i: int| 0 <= i < layers.len() implies union_of(layers).encloses(
        (#[trigger] layers[i]).bounds,
    ) by {
        lemma_union_encloses(layers, i);
    }
    let n = layers.len() - 1;
    if n == 0 {
        assert(layers[0].bounds == union_of(layers));
    } else {
        let init = layers.drop_last();
        let area = union_of(init);
        law_union_edges_are_those_of_layers(init);
        let l = choose|i: int|
            0 <= i < init.len() && (#[trigger] init[i]).bounds.left == area.left;
        let t = choose|i: int| 0 <= i < init.len() && (#[trigger] init[i]).bounds.top == area.top;
        let r = choose|i: int|
            0 <= i < init.len() && (#[trigger] init[i]).bounds.right == area.right;
        let b = choose|i: int|
            0 <= i < init.len() && (#[trigger] init[i]).bounds.bottom == area.bottom;
        assert(layers[l] == init[l] && layers[t] == init[t] && layers[r] == init[r] && layers[b]
            == init[b]);
        assert(layers[n] == layers.last());
    }
}

/// The bitmap of a glyph begins at the leftmost column and the topmost row of
/// any layer and ends behind the rightmost column and the lowest row, where
/// `top` counts upwards from the baseline.
pub proof fn law_bitmap_has_the_edges_of_its_layers<B: Fn(Pixel, Color, u32) -> Pixel>(
    blend: B,
    character: char,
    layers: Seq<Layer>,
    glyph: RasterizedGlyph,
)
    requires
        layers.len() > 0,
        shows(blend, character, layers, glyph),
    ensures
        forall|i: int|
            0 <= i < layers.len() ==> {
                &&& glyph.left <= (#[trigger] layers[i]).bounds.left
                &&& -glyph.top <= layers[i].bounds.top
                &&& layers[i].bounds.right <= glyph.left + glyph.width
                &&& layers[i].bounds.bottom <= glyph.height - glyph.top
            },
        exists|i: int| 0 <= i < layers.len() && (#[trigger] layers[i]).bounds.left == glyph.left,
        exists|i: int| 0 <= i < layers.len() && (#[trigger] layers[i]).bounds.top == -glyph.top,
        exists|i: int|
            0 <= i < layers.len() && (#[trigger] layers[i]).bounds.right == glyph.left
                + glyph.width,
        exists|i: int|
            0 <= i < layers.len() && (#[trigger] layers[i]).bounds.bottom == glyph.height
                - glyph.top,
        glyph.character == character,
        glyph.advance == (0i32, 0i32),
        glyph.buffer is Rgba,
        glyph.buffer->Rgba_0@.len() == 4 * (glyph.width * glyph.height),
{
    law_union_edges_are_those_of_layers(layers);
    assert(glyph.buffer->Rgba_0@.len() == glyph.width * glyph.height * 4);
}

/// A pixel that nothing was painted on has neither color nor alpha.
pub proof fn law_painting_begins_transparent<B: Fn(Pixel, Color, u32) -> Pixel>(
    blend: B,
    x: int,
    y: int,
    p: Pixel,
)
    ensures
        painted(blend, Seq::empty(), x, y, p) <==> p.r == 0 && p.g == 0 && p.b == 0 && p.a == 0,
{
}

/// Painting one layer in front of others leaves a pixel as the others left it if
/// the pixel lies outside of the layer's bounds or all three of its coverage
/// bytes are zero, and else blends the layer's color over it, once, with the sum
/// of these bytes.
pub proof fn law_painting_one_more_layer<B: Fn(Pixel, Color, u32) -> Pixel>(
    blend: B,
    layers: Seq<Layer>,
    front: Layer,
    x: int,
    y: int,
    p: Pixel,
)
    ensures
        ({
            let b = front.bounds;
            let at = 3 * ((y - b.top) * (b.right - b.left) + (x - b.left));
            let sum = front.coverage@[at] + front.coverage@[at + 1] + front.coverage@[at + 2];
            let covered = b.left <= x < b.right && b.top <= y < b.bottom && sum > 0;
            &&& !covered ==> (painted(blend, layers.push(front), x, y, p) <==> painted(
                blend,
                layers,
                x,
                y,
                p,
            ))
            &&& covered ==> (painted(blend, layers.push(front), x, y, p) <==> exists|under: Pixel|
                {
                    &&& #[trigger] painted(blend, layers, x, y, under)
                    &&& call_ensures(blend, (under, front.color, sum as u32), p)
                })
        }),
{
    let all = layers.push(front);
    assert(all.drop_last() =~= layers);
    assert(all.last() == front);
    crate::layer::law_coverage_is_the_sum_of_three_bytes(front, x, y);
    if painted(blend, all, x, y, p) {
        let under = law_front_layer_is_painted_last(blend, all, x, y, p);
        assert(painted(blend, layers, x, y, under));
    }
    if front.coverage_at(x, y) == 0 {
        if painted(blend, layers, x, y, p) {
            lemma_painted_next(blend, all, x, y, p, p);
        }
    } else if exists|under: Pixel|
        {
            &&& #[trigger] painted(blend, layers, x, y, under)
            &&& call_ensures(blend, (under, front.color, front.coverage_at(x, y)), p)
        } {
        let under = choose|under: Pixel|
            {
                &&& #[trigger] painted(blend, layers, x, y, under)
                &&& call_ensures(blend, (under, front.color, front.coverage_at(x, y)), p)
            };
        lemma_painted_next(blend, all, x, y, under, p);
    }
}

/// A painted pixel has a history: it is transparent to begin with, and then each
/// layer, from back to front, leaves it as it is if the pixel lies outside of
/// the layer's bounds or its three coverage bytes are zero, and else blends its
/// color over it with the sum of these bytes.
pub proof fn law_pixel_has_a_history<B: Fn(Pixel, Color, u32) -> Pixel>(
    blend: B,
    layers: Seq<Layer>,
    x: int,
    y: int,
    p: Pixel,
) -> (history: Seq<Pixel>)
    requires
        painted(blend, layers, x, y, p),
    ensures
        history.len() == layers.len() + 1,
        history[0] == (Pixel { r: 0, g: 0, b: 0, a: 0 }),
        history[layers.len() as int] == p,
        forall|i: int|
            0 <= i < layers.len() ==> {
                let b = (#[trigger] layers[i]).bounds;
                let at = 3 * ((y - b.top) * (b.right - b.left) + (x - b.left));
                let coverage = layers[i].coverage@;
                let sum = coverage[at] + coverage[at + 1] + coverage[at + 2];
                if b.left <= x < b.right && b.top <= y < b.bottom && sum > 0 {
                    call_ensures(blend, (history[i], layers[i].color, sum as u32), history[i + 1])
                } else {
                    history[i + 1] == history[i]
                }
            },
    decreases layers.len(),
{
    if layers.len() == 0 {
        seq![p]
    } else {
        let init = layers.drop_last();
        let under = law_front_layer_is_painted_last(blend, layers, x, y, p);
        let before = law_pixel_has_a_history(blend, init, x, y, under);
        let history = before.push(p);
        assert forall|i: int| 0 <= i < layers.len() implies {
            let b = (#[trigger] layers[i]).bounds;
            let at = 3 * ((y - b.top) * (b.right - b.left) + (x - b.left));
            let coverage = layers[i].coverage@;
            let sum = coverage[at] + coverage[at + 1] + coverage[at + 2];
            if b.left <= x < b.right && b.top <= y < b.bottom && sum > 0 {
                call_ensures(blend, (history[i], layers[i].color, sum as u32), history[i + 1])
            } else {
                history[i + 1] == history[i]
            }
        } by {
            if i < init.len() {
                assert(init[i] == layers[i]);
                assert(history[i] == before[i] && history[i + 1] == before[i + 1]);
            } else {
                crate::layer::law_coverage_is_the_sum_of_three_bytes(layers.last(), x, y);
                assert(layers[i] == layers.last());
                assert(history[i] == under && history[i + 1] == p);
            }
        }
        history
    }
}

/// Rows of the bitmap run from the top and columns from the left, whatever its
/// size: for every pixel of the bitmap, the four bytes that begin at four times
/// its row's distance from the top row, times the width, and its column's
/// distance from the left one, are the red, green, blue and alpha that painting
/// the layers from back to front leaves at that column and row.
pub proof fn law_bytes_show_the_layers<B: Fn(Pixel, Color, u32) -> Pixel>(
    blend: B,
    character: char,
    layers: Seq<Layer>,
    glyph: RasterizedGlyph,
    x: int,
    y: int,
) -> (history: Seq<Pixel>)
    requires
        layers.len() > 0,
        shows(blend, character, layers, glyph),
        glyph.left <= x < glyph.left + glyph.width,
        -glyph.top <= y < glyph.height - glyph.top,
    ensures
        glyph.buffer matches BitmapBuffer::Rgba(bytes) && {
            let at = 4 * ((y + glyph.top) * glyph.width + (x - glyph.left));
            let p = history[layers.len() as int];
            &&& 0 <= at && at + 3 < bytes@.len()
            &&& bytes@[at] == p.r
            &&& bytes@[at + 1] == p.g
            &&& bytes@[at + 2] == p.b
            &&& bytes@[at + 3] == p.a
        },
        history.len() == layers.len() + 1,
        history[0] == (Pixel { r: 0, g: 0, b: 0, a: 0 }),
        forall|i: int|
            0 <= i < layers.len() ==> {
                let b = (#[trigger] layers[i]).bounds;
                let at = 3 * ((y - b.top) * (b.right - b.left) + (x - b.left));
                let coverage = layers[i].coverage@;
                let sum = coverage[at] + coverage[at + 1] + coverage[at + 2];
                if b.left <= x < b.right && b.top <= y < b.bottom && sum > 0 {
                    call_ensures(blend, (history[i], layers[i].color, sum as u32), history[i + 1])
                } else {
                    history[i + 1] == history[i]
                }
            },
{
    let area = union_of(layers);
    let bytes = glyph.buffer->Rgba_0@;
    assert(area.holds(x, y));
    crate::layer::lemma_index_in_area(
        x - glyph.left,
        y + glyph.top,
        glyph.width as int,
        glyph.height as int,
    );
    law_pixel_has_a_history(blend, layers, x, y, Pixel::at(bytes, index_in(area, x, y)))
}

/// Layers of which these four reach furthest to the left, to the top, to the
/// right and to the bottom can be composited if and only if each layer has
/// pixels and three bytes of coverage for each of them, the bitmap that encloses
/// them has an extent and a place that an `i32` can tell, and it is no larger
/// than memory can be.
pub proof fn law_what_can_be_composited(layers: Seq<Layer>, l: int, t: int, r: int, b: int)
    requires
        0 <= l < layers.len(),
        0 <= t < layers.len(),
        0 <= r < layers.len(),
        0 <= b < layers.len(),
        forall|i: int|
            0 <= i < layers.len() ==> {
                &&& layers[l].bounds.left <= (#[trigger] layers[i]).bounds.left
                &&& layers[t].bounds.top <= layers[i].bounds.top
                &&& layers[i].bounds.right <= layers[r].bounds.right
                &&& layers[i].bounds.bottom <= layers[b].bounds.bottom
            },
    ensures
        compositable(layers) <==> {
            let width = layers[r].bounds.right - layers[l].bounds.left;
            let height = layers[b].bounds.bottom - layers[t].bounds.top;
            &&& forall|i: int|
                0 <= i < layers.len() ==> {
                    let edges = (#[trigger] layers[i]).bounds;
                    &&& edges.left < edges.right && edges.top < edges.bottom
                    &&& (edges.right - edges.left) * (edges.bottom - edges.top) * 3
                        <= layers[i].coverage@.len()
                }
            &&& width <= i32::MAX
            &&& height <= i32::MAX
            &&& layers[t].bounds.top > i32::MIN
            &&& width * height * 4 <= isize::MAX
        },
{
    let area = union_of(layers);
    law_union_edges_are_those_of_layers(layers);
    assert(area.left == layers[l].bounds.left);
    assert(area.top == layers[t].bounds.top);
    assert(area.right == layers[r].bounds.right);
    assert(area.bottom == layers[b].bounds.bottom);
    assert(forall|i: int|
        0 <= i < layers.len() && !(#[trigger] layers[i]).bounds.empty() ==> area.width() > 0
            && area.height() > 0);
}

/// Nothing stands in the way of compositing no layers.
pub proof fn law_no_layers_can_be_composited(layers: Seq<Layer>)
    requires
        layers.len() == 0,
    ensures
        compositable(layers),
{
}

} // verus!
