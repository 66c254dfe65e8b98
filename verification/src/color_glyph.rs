//! The glyph that color runs make.

use crate::color_runs::{ColorStep, RunAnswers};
use crate::glyph::{Pixel, RasterizedGlyph};
use crate::glyph_run::RenderSetup;
use crate::layer::{Color, Layer};
use crate::raster::{ColorAttempt, ModeRequest, RasterAnswers, RasterStep};
use vstd::prelude::*;

verus! {

/// Whether a glyph is what the released layers make: none if there are none or
/// a call failed, and else their bitmap.
pub open spec fn made_of<B: Fn(Pixel, Color, u32) -> Pixel>(
    blend: B,
    character: char,
    released: Option<Seq<Layer>>,
    glyph: Option<RasterizedGlyph>,
) -> bool {
    match released {
        Some(layers) if layers.len() > 0 => {
            glyph is Some && crate::composite::shows(blend, character, layers, glyph->0)
        },
        _ => glyph is None,
    }
}

/// The released layers as a mathematical value.
pub open spec fn layers_view(released: Option<Vec<Layer>>) -> Option<Seq<Layer>> {
    match released {
        Some(layers) => Some(layers@),
        None => None,
    }
}

/// Rasterizes a color (emoji) glyph out of its released layers.
///
/// There is no glyph if there are no color layers, or on any error, so that the
/// glyph can be rendered without colors instead. Else it has premultiplied
/// alpha, as far as `blend` keeps it: `blend` is handed a pixel of the bitmap,
/// the color of a layer and how much of the pixel the layer covers, as the sum
/// of three coverage bytes, and returns the pixel with that color over it.
pub fn rasterize_color_glyph<B: Fn(Pixel, Color, u32) -> Pixel>(
    character: char,
    released: &Option<Vec<Layer>>,
    blend: B,
) -> (glyph: Option<RasterizedGlyph>)
    requires
        released matches Some(layers) ==> crate::composite::compositable(layers@),
        forall|dst: Pixel, color: Color, coverage: u32|
            0 < coverage <= 765 ==> #[trigger] call_requires(blend, (dst, color, coverage)),
    ensures
        made_of(blend, character, layers_view(*released), glyph),
        glyph is Some <==> (released matches Some(layers) && layers@.len() > 0),
        glyph matches Some(g) ==> crate::composite::shows(
            blend,
            character,
            (released->0)@,
            g,
        ),
{
    match released {
        Some(layers) => {
            if layers.len() == 0 {
                None
            } else {
                Some(crate::composite::composite_layers(character, layers, blend))
            }
        },
        None => None,
    }
}

impl<'a, F> ColorAttempt<'a, F> {
    /// Begins to take in the color runs of the glyph, which are rendered as the
    /// glyph is. `hr` is what translating the glyph run returned, and
    /// `has_enumerator` is whether it handed out an enumerator.
    pub fn translated(&self, hr: i32, has_enumerator: bool) -> (step: Option<ColorStep>)
        ensures
            step is Some <==> crate::color_runs::is_color_glyph(hr, has_enumerator),
            step matches Some(s) ==> s@ == crate::color_runs::ColorStepView::MoveNext(
                crate::color_runs::ProgressView::begun(self.rendering.setup),
            ),
            step is Some <==> hr >= 0 && has_enumerator,
            step matches Some(s) ==> (s matches ColorStep::MoveNext(next) && {
                &&& next.progress.setup == self.rendering.setup
                &&& next.progress.layers@.len() == 0
            }),
    {
        crate::color_runs::translate_color_glyph_run(hr, has_enumerator, self.rendering.setup)
    }

    /// Takes in the released layers of the glyph.
    pub fn rasterized<B: Fn(Pixel, Color, u32) -> Pixel>(
        self,
        released: &Option<Vec<Layer>>,
        blend: B,
    ) -> (step: RasterStep<'a, F>)
        requires
            released matches Some(layers) ==> crate::composite::compositable(layers@),
            forall|dst: Pixel, color: Color, coverage: u32|
                0 < coverage <= 765 ==> #[trigger] call_requires(blend, (dst, color, coverage)),
        ensures
            exists|glyph: Option<RasterizedGlyph>|
                {
                    &&& #[trigger] made_of(
                        blend,
                        self.rendering.character,
                        layers_view(*released),
                        glyph,
                    )
                    &&& step@ == crate::raster::after_colors(self.rendering, glyph)
                },
            match released {
                Some(layers) if layers@.len() > 0 => {
                    step matches RasterStep::Done(Ok(glyph)) && crate::composite::shows(
                        blend,
                        self.rendering.character,
                        layers@,
                        glyph,
                    )
                },
                _ => step matches RasterStep::Analyze(s) && s.rendering == self.rendering,
            },
    {
        let glyph = rasterize_color_glyph(self.rendering.character, released, blend);
        self.composited(glyph)
    }
}

/// There is no color glyph if and only if the run has no color layers to begin
/// with, any call fails, or no run has pixels; and else the glyph shows the
/// layers of the runs that have pixels, in the order of the runs.
pub proof fn law_no_color_glyph_on_any_error<B: Fn(Pixel, Color, u32) -> Pixel>(
    blend: B,
    character: char,
    hr: i32,
    has_enumerator: bool,
    setup: RenderSetup,
    answers: Seq<RunAnswers>,
    glyph: Option<RasterizedGlyph>,
)
    requires
        made_of(
            blend,
            character,
            crate::color_runs::layers_of(hr, has_enumerator, setup, answers),
            glyph,
        ),
    ensures
        glyph is None <==> {
            ||| !crate::color_runs::is_color_glyph(hr, has_enumerator)
            ||| crate::color_runs::some_call_fails(answers)
            ||| !crate::color_runs::some_run_is_kept(answers)
        },
        glyph matches Some(g) ==> crate::composite::shows(
            blend,
            character,
            crate::color_runs::kept(answers)->0,
            g,
        ),
{
    crate::color_runs::law_layers_keep_paint_order(setup, answers);
    crate::color_runs::law_any_error_leaves_no_layers(answers);
    if !crate::color_runs::some_call_fails(answers) {
        crate::color_runs::law_layers_come_from_runs_with_pixels(answers);
    }
}

/// If any call fails while color layers are taken in, the glyph is rendered as
/// a ClearType texture.
pub proof fn law_color_error_falls_back_to_texture<F, B: Fn(Pixel, Color, u32) -> Pixel>(
    blend: B,
    request: ModeRequest<'_, F>,
    hr: i32,
    has_enumerator: bool,
    runs: Seq<RunAnswers>,
    answers: RasterAnswers,
)
    requires
        made_of(
            blend,
            request.character,
            crate::color_runs::layers_of(
                hr,
                has_enumerator,
                RenderSetup::in_mode(answers.mode),
                runs,
            ),
            answers.colors,
        ),
        !crate::color_runs::is_color_glyph(hr, has_enumerator)
            || crate::color_runs::some_call_fails(runs),
    ensures
        answers.result(crate::raster::RasterStepView::GetRenderingMode(request))
            == answers.texture_result(request.character),
{
    law_no_color_glyph_on_any_error(
        blend,
        request.character,
        hr,
        has_enumerator,
        RenderSetup::in_mode(answers.mode),
        runs,
        answers.colors,
    );
    crate::raster::law_other_glyphs_are_textures(request, answers);
}

/// Whether two results are the same, byte for byte.
pub open spec fn same_result(a: Option<RasterizedGlyph>, b: Option<RasterizedGlyph>) -> bool {
    match (a, b) {
        (Some(a), Some(b)) => a.same(b),
        (None, None) => true,
        _ => false,
    }
}

/// If blending gives one result for one input, then one sequence of runs gives
/// one result.
pub proof fn law_color_glyph_is_determined<B: Fn(Pixel, Color, u32) -> Pixel>(
    blend: B,
    character: char,
    answers: Seq<RunAnswers>,
    a: Option<RasterizedGlyph>,
    b: Option<RasterizedGlyph>,
)
    requires
        crate::composite::deterministic(blend),
        made_of(blend, character, crate::color_runs::kept(answers), a),
        made_of(blend, character, crate::color_runs::kept(answers), b),
    ensures
        same_result(a, b),
{
    match (a, b) {
        (Some(g), Some(h)) => {
            let layers = crate::color_runs::kept(answers)->0;
            let area = crate::composite::union_of(layers);
            crate::color_runs::law_layers_are_not_empty(answers, 0);
            crate::composite::law_union_is_least(layers, area);
            assert(area.encloses(layers[0].bounds));
            crate::composite::law_bitmap_is_determined(
                blend,
                layers,
                area,
                g.buffer->Rgba_0@,
                h.buffer->Rgba_0@,
            );
        },
        _ => {},
    }
}

/// Whether two results agree in whether there is a glyph, in its character, and
/// in the extent and the place of its bitmap.
pub open spec fn same_frame(a: Option<RasterizedGlyph>, b: Option<RasterizedGlyph>) -> bool {
    match (a, b) {
        (Some(a), Some(b)) => {
            &&& a.character == b.character
            &&& a.width == b.width
            &&& a.height == b.height
            &&& a.top == b.top
            &&& a.left == b.left
            &&& a.advance == b.advance
            &&& a.buffer is Rgba && b.buffer is Rgba
            &&& a.buffer->Rgba_0@.len() == b.buffer->Rgba_0@.len()
        },
        (None, None) => true,
        _ => false,
    }
}

/// Runs without pixels change neither whether there is a glyph, nor its bounds,
/// nor its pixels. With such runs added, at any places, the layers stay the
/// same, and so does every result that they can have; what does not depend on
/// blending is the same in any two results; and if blending gives one result
/// for one input, the results are the same byte for byte.
pub proof fn law_empty_runs_change_nothing<B: Fn(Pixel, Color, u32) -> Pixel>(
    blend: B,
    character: char,
    hr: i32,
    has_enumerator: bool,
    setup: RenderSetup,
    first: Seq<RunAnswers>,
    second: Seq<RunAnswers>,
    a: Option<RasterizedGlyph>,
    b: Option<RasterizedGlyph>,
)
    requires
        crate::color_runs::adds_empty_runs(first, second),
        made_of(
            blend,
            character,
            crate::color_runs::layers_of(hr, has_enumerator, setup, first),
            a,
        ),
        made_of(
            blend,
            character,
            crate::color_runs::layers_of(hr, has_enumerator, setup, second),
            b,
        ),
    ensures
        crate::color_runs::layers_of(hr, has_enumerator, setup, first)
            == crate::color_runs::layers_of(hr, has_enumerator, setup, second),
        forall|glyph: Option<RasterizedGlyph>| #[trigger]
            made_of(
                blend,
                character,
                crate::color_runs::layers_of(hr, has_enumerator, setup, first),
                glyph,
            ) <==> made_of(
                blend,
                character,
                crate::color_runs::layers_of(hr, has_enumerator, setup, second),
                glyph,
            ),
        same_frame(a, b),
        crate::composite::deterministic(blend) ==> same_result(a, b),
{
    crate::color_runs::law_layers_keep_paint_order(setup, first);
    crate::color_runs::law_layers_keep_paint_order(setup, second);
    crate::color_runs::law_adding_empty_runs_changes_no_layers(first, second);
    if crate::composite::deterministic(blend) && crate::color_runs::is_color_glyph(
        hr,
        has_enumerator,
    ) {
        law_color_glyph_is_determined(blend, character, first, a, b);
    }
}

/// Layers make a glyph if and only if there are any, and no call failed.
pub proof fn law_layers_make_a_glyph<B: Fn(Pixel, Color, u32) -> Pixel>(
    blend: B,
    character: char,
    released: Option<Vec<Layer>>,
    glyph: Option<RasterizedGlyph>,
)
    requires
        made_of(blend, character, layers_view(released), glyph),
    ensures
        glyph is Some <==> (released matches Some(layers) && layers@.len() > 0),
        glyph matches Some(g) ==> crate::composite::shows(blend, character, (released->0)@, g),
{
}

/// If translating a glyph fails or hands out no enumerator, or any call fails on
/// any run before the enumeration ends, there is no color glyph.
pub proof fn law_failing_call_makes_no_glyph<B: Fn(Pixel, Color, u32) -> Pixel>(
    blend: B,
    character: char,
    hr: i32,
    has_enumerator: bool,
    setup: RenderSetup,
    answers: Seq<RunAnswers>,
    k: int,
    glyph: Option<RasterizedGlyph>,
)
    requires
        made_of(
            blend,
            character,
            crate::color_runs::layers_of(hr, has_enumerator, setup, answers),
            glyph,
        ),
        hr < 0 || !has_enumerator || {
            &&& 0 <= k < answers.len()
            &&& forall|j: int| 0 <= j < k ==> (#[trigger] answers[j]).moved.1 != 0
            &&& answers[k].moved.0 < 0 || (answers[k].moved.1 != 0 && {
                ||| answers[k].current.0 < 0
                ||| answers[k].current.1 is None
                ||| answers[k].analysis is Err
                ||| answers[k].bounds is Err
                ||| answers[k].texture is Err && answers[k].bounds->Ok_0.left
                    < answers[k].bounds->Ok_0.right && answers[k].bounds->Ok_0.top
                    < answers[k].bounds->Ok_0.bottom
            })
        },
    ensures
        glyph is None,
{
    if hr >= 0 && has_enumerator {
        crate::color_runs::law_one_failing_call_leaves_no_layers(
            hr,
            has_enumerator,
            setup,
            answers,
            k,
        );
    }
}

} // verus!
