//! How a glyph becomes a bitmap.
//!
//! Color (emoji) glyphs are decomposed into layers and composited; all other
//! glyphs are rendered as ClearType textures. Each step below says what to ask
//! of DirectWrite next; the answer leads to the step after it.

use crate::bounds::Bounds;
use crate::error::Error;
use crate::glyph::{BitmapBuffer, RasterizedGlyph, Size};
use crate::glyph_run::{GlyphRun, MeasuringMode, RenderSetup};
use crate::layer::ONE_BITS;
use crate::rasterizer::DirectWriteRasterizer;
use vstd::prelude::*;

verus! {

/// The palette that the colors of a glyph are taken from.
pub const DEFAULT_COLOR_PALETTE: u32 = 0;

/// What to do next while a glyph is rasterized.
pub enum RasterStep<'a, F> {
    /// Ask the face of the run for the rendering mode that it recommends at the
    /// run's em size.
    GetRenderingMode(ModeRequest<'a, F>),
    /// Decompose the run into color layers and composite them.
    RasterizeColors(ColorAttempt<'a, F>),
    /// Create the analysis of the run.
    Analyze(TextureAnalysis<'a, F>),
    /// Get the bounds of the run's texture.
    GetBounds(TextureBounds<'a, F>),
    /// Create the run's texture within these bounds.
    CreateTexture(TextureRequest<'a, F>),
    /// Nothing: this is the result.
    Done(Result<RasterizedGlyph, Error>),
}

/// Waits for the rendering mode that the face recommends.
pub struct ModeRequest<'a, F> {
    pub run: GlyphRun<'a, F>,
    pub character: char,
    /// How many pixels there are to a device independent one, as the bit
    /// pattern of a single precision number.
    pub pixels_per_dip_bits: u32,
    pub measuring_mode: MeasuringMode,
    /// Whether colors are to be tried first.
    pub tries_colors: bool,
}

/// A glyph run that is ready to be rendered.
pub struct Rendering<'a, F> {
    pub run: GlyphRun<'a, F>,
    pub character: char,
    pub setup: RenderSetup,
}

/// Waits for the glyph that was composited from color layers.
pub struct ColorAttempt<'a, F> {
    pub rendering: Rendering<'a, F>,
    pub palette: u32,
}

/// Waits for the analysis of the run.
pub struct TextureAnalysis<'a, F> {
    pub rendering: Rendering<'a, F>,
}

/// Waits for the bounds of the texture.
pub struct TextureBounds<'a, F> {
    pub rendering: Rendering<'a, F>,
}

/// Waits for the texture.
pub struct TextureRequest<'a, F> {
    pub rendering: Rendering<'a, F>,
    pub bounds: Bounds,
}

/// A step as a mathematical value.
pub enum RasterStepView<'a, F> {
    GetRenderingMode(ModeRequest<'a, F>),
    RasterizeColors(ColorAttempt<'a, F>),
    Analyze(Rendering<'a, F>),
    GetBounds(Rendering<'a, F>),
    CreateTexture(Rendering<'a, F>, Bounds),
    Done(Result<RasterizedGlyph, crate::error::ErrorView>),
}

impl<'a, F> View for RasterStep<'a, F> {
    type V = RasterStepView<'a, F>;

    open spec fn view(&self) -> RasterStepView<'a, F> {
        match *self {
            RasterStep::GetRenderingMode(s) => RasterStepView::GetRenderingMode(s),
            RasterStep::RasterizeColors(s) => RasterStepView::RasterizeColors(s),
            RasterStep::Analyze(s) => RasterStepView::Analyze(s.rendering),
            RasterStep::GetBounds(s) => RasterStepView::GetBounds(s.rendering),
            RasterStep::CreateTexture(s) => RasterStepView::CreateTexture(s.rendering, s.bounds),
            RasterStep::Done(Ok(glyph)) => RasterStepView::Done(Ok(glyph)),
            RasterStep::Done(Err(error)) => RasterStepView::Done(Err(error@)),
        }
    }
}

/// The step after the rendering mode was asked for: colors are tried first, if
/// they can be decomposed.
pub open spec fn after_mode<'a, F>(request: ModeRequest<'a, F>, mode: u32) -> RasterStepView<
    'a,
    F,
> {
    let rendering = Rendering {
        run: request.run,
        character: request.character,
        setup: RenderSetup::in_mode(mode),
    };
    if request.tries_colors {
        RasterStepView::RasterizeColors(
            ColorAttempt { rendering, palette: DEFAULT_COLOR_PALETTE },
        )
    } else {
        RasterStepView::Analyze(rendering)
    }
}

/// The step after colors were tried.
pub open spec fn after_colors<'a, F>(
    rendering: Rendering<'a, F>,
    glyph: Option<RasterizedGlyph>,
) -> RasterStepView<'a, F> {
    match glyph {
        Some(glyph) => RasterStepView::Done(Ok(glyph)),
        None => RasterStepView::Analyze(rendering),
    }
}

/// The step after the analysis was asked for.
pub open spec fn after_analysis<'a, F>(
    rendering: Rendering<'a, F>,
    analysis: Result<(), i32>,
) -> RasterStepView<'a, F> {
    match analysis {
        Ok(_) => RasterStepView::GetBounds(rendering),
        Err(hr) => RasterStepView::Done(Err(crate::error::ErrorView::of(hr))),
    }
}

/// The step after the bounds were asked for.
pub open spec fn after_bounds<'a, F>(
    rendering: Rendering<'a, F>,
    bounds: Result<Bounds, i32>,
) -> RasterStepView<'a, F> {
    match bounds {
        Ok(bounds) => RasterStepView::CreateTexture(rendering, bounds),
        Err(hr) => RasterStepView::Done(Err(crate::error::ErrorView::of(hr))),
    }
}

/// The step after the texture was asked for.
pub open spec fn after_texture<'a, F>(
    rendering: Rendering<'a, F>,
    bounds: Bounds,
    texture: Result<Vec<u8>, i32>,
) -> RasterStepView<'a, F> {
    match texture {
        Ok(texture) => RasterStepView::Done(
            Ok(textured_glyph(rendering.character, bounds, texture)),
        ),
        Err(hr) => RasterStepView::Done(Err(crate::error::ErrorView::of(hr))),
    }
}

/// The glyph that a ClearType texture with the given bounds shows.
pub open spec fn textured_glyph(
    character: char,
    bounds: Bounds,
    texture: Vec<u8>,
) -> RasterizedGlyph {
    RasterizedGlyph {
        character,
        width: bounds.width() as i32,
        height: bounds.height() as i32,
        top: (-bounds.top) as i32,
        left: bounds.left,
        advance: (0, 0),
        buffer: BitmapBuffer::Rgb(texture),
    }
}

impl<F> DirectWriteRasterizer<F> {
    /// Begins to rasterize a glyph of a face.
    pub fn rasterize_glyph<'a>(
        &self,
        face: &'a F,
        size: Size,
        character: char,
        glyph_index: u16,
    ) -> (step: RasterStep<'a, F>)
        ensures
            step@ == RasterStepView::GetRenderingMode(
                self.raster_begun(face, size, character, glyph_index),
            ),
            step matches RasterStep::GetRenderingMode(request) && {
                &&& request.tries_colors == self.decomposes_colors()
                &&& request.character == character
                &&& request.pixels_per_dip_bits == 0x3F80_0000
                &&& request.measuring_mode is Natural
                &&& request.run.face == face
                &&& request.run.em_size_bits == size.px_bits
                &&& request.run.glyph_count == 1
                &&& request.run.glyph_index == glyph_index
                &&& request.run.advance_bits == 0
                &&& request.run.offset.advance_offset_bits == 0
                &&& request.run.offset.ascender_offset_bits == 0
                &&& !request.run.is_sideways
                &&& request.run.bidi_level == 0
            },
    {
        RasterStep::GetRenderingMode(
            ModeRequest {
                run: GlyphRun::of_one_glyph(face, size.px_bits, glyph_index),
                character,
                pixels_per_dip_bits: ONE_BITS,
                measuring_mode: MeasuringMode::Natural,
                tries_colors: self.has_color_factory(),
            },
        )
    }

    /// What is asked for first to rasterize a glyph: the rendering mode for a
    /// run of that one glyph.
    pub open spec fn raster_begun<'a>(
        self,
        face: &'a F,
        size: Size,
        character: char,
        glyph_index: u16,
    ) -> ModeRequest<'a, F> {
        ModeRequest {
            run: GlyphRun::single(face, size.px_bits, glyph_index),
            character,
            pixels_per_dip_bits: ONE_BITS,
            measuring_mode: MeasuringMode::Natural,
            tries_colors: self.decomposes_colors(),
        }
    }
}

impl<'a, F> ModeRequest<'a, F> {
    /// Takes in the rendering mode that the face recommends.
    pub fn recommended(self, mode: u32) -> (step: RasterStep<'a, F>)
        ensures
            step@ == after_mode(self, mode),
            step is RasterizeColors <==> self.tries_colors,
            step is Analyze <==> !self.tries_colors,
            step matches RasterStep::RasterizeColors(s) ==> {
                &&& s.palette == 0
                &&& s.rendering.run == self.run
                &&& s.rendering.character == self.character
                &&& s.rendering.setup.rendering_mode == mode
                &&& s.rendering.setup == RenderSetup::in_mode(mode)
            },
            step matches RasterStep::Analyze(s) ==> {
                &&& s.rendering.run == self.run
                &&& s.rendering.character == self.character
                &&& s.rendering.setup.rendering_mode == mode
                &&& s.rendering.setup == RenderSetup::in_mode(mode)
            },
    {
        let rendering = Rendering {
            run: self.run,
            character: self.character,
            setup: RenderSetup::new(mode),
        };
        if self.tries_colors {
            RasterStep::RasterizeColors(
                ColorAttempt { rendering, palette: DEFAULT_COLOR_PALETTE },
            )
        } else {
            RasterStep::Analyze(TextureAnalysis { rendering })
        }
    }
}

impl<'a, F> ColorAttempt<'a, F> {
    /// Takes in the glyph that was composited from color layers. If there is
    /// none, the run goes on as a texture.
    pub fn composited(self, glyph: Option<RasterizedGlyph>) -> (step: RasterStep<'a, F>)
        ensures
            step@ == after_colors(self.rendering, glyph),
            match glyph {
                Some(g) => step matches RasterStep::Done(Ok(result)) && result == g,
                None => step matches RasterStep::Analyze(s) && s.rendering == self.rendering,
            },
    {
        match glyph {
            Some(glyph) => RasterStep::Done(Ok(glyph)),
            None => RasterStep::Analyze(TextureAnalysis { rendering: self.rendering }),
        }
    }
}

impl<'a, F> TextureAnalysis<'a, F> {
    /// Takes in whether the analysis was created.
    pub fn analyzed(self, analysis: Result<(), i32>) -> (step: RasterStep<'a, F>)
        ensures
            step@ == after_analysis(self.rendering, analysis),
            match analysis {
                Ok(_) => step matches RasterStep::GetBounds(s) && s.rendering == self.rendering,
                Err(hr) => step matches RasterStep::Done(Err(Error::PlatformError(text))) && text@
                    == "a DirectWrite rendering error occurred: "@ + crate::text::hex(
                        if hr < 0 {
                            (hr + 0x1_0000_0000) as nat
                        } else {
                            hr as nat
                        },
                    ),
            },
    {
        match analysis {
            Ok(_) => RasterStep::GetBounds(TextureBounds { rendering: self.rendering }),
            Err(hr) => RasterStep::Done(Err(Error::from(hr))),
        }
    }
}

impl<'a, F> TextureBounds<'a, F> {
    /// Takes in the bounds of the texture.
    pub fn measured(self, bounds: Result<Bounds, i32>) -> (step: RasterStep<'a, F>)
        ensures
            step@ == after_bounds(self.rendering, bounds),
            match bounds {
                Ok(bounds) => step matches RasterStep::CreateTexture(s) && s.rendering
                    == self.rendering && s.bounds == bounds,
                Err(hr) => step matches RasterStep::Done(Err(Error::PlatformError(text))) && text@
                    == "a DirectWrite rendering error occurred: "@ + crate::text::hex(
                        if hr < 0 {
                            (hr + 0x1_0000_0000) as nat
                        } else {
                            hr as nat
                        },
                    ),
            },
    {
        match bounds {
            Ok(bounds) => RasterStep::CreateTexture(
                TextureRequest { rendering: self.rendering, bounds },
            ),
            Err(hr) => RasterStep::Done(Err(Error::from(hr))),
        }
    }
}

impl<'a, F> TextureRequest<'a, F> {
    /// Takes in the texture.
    pub fn textured(self, texture: Result<Vec<u8>, i32>) -> (step: RasterStep<'a, F>)
        requires
            texture is Ok ==> self.bounds.measurable(),
        ensures
            step@ == after_texture(self.rendering, self.bounds, texture),
            match texture {
                Ok(texture) => step matches RasterStep::Done(Ok(glyph)) && {
                    &&& glyph.character == self.rendering.character
                    &&& glyph.width == self.bounds.right - self.bounds.left
                    &&& glyph.height == self.bounds.bottom - self.bounds.top
                    &&& glyph.top == -self.bounds.top
                    &&& glyph.left == self.bounds.left
                    &&& glyph.advance == (0i32, 0i32)
                    &&& glyph.buffer == BitmapBuffer::Rgb(texture)
                },
                Err(hr) => step matches RasterStep::Done(Err(Error::PlatformError(text))) && text@
                    == "a DirectWrite rendering error occurred: "@ + crate::text::hex(
                        if hr < 0 {
                            (hr + 0x1_0000_0000) as nat
                        } else {
                            hr as nat
                        },
                    ),
            },
    {
        match texture {
            Ok(texture) => RasterStep::Done(
                Ok(
                    RasterizedGlyph {
                        character: self.rendering.character,
                        width: self.bounds.right - self.bounds.left,
                        height: self.bounds.bottom - self.bounds.top,
                        top: -self.bounds.top,
                        left: self.bounds.left,
                        advance: (0, 0),
                        buffer: BitmapBuffer::Rgb(texture),
                    },
                ),
            ),
            Err(hr) => RasterStep::Done(Err(Error::from(hr))),
        }
    }
}

/// What the calls that rasterize a glyph answer. An answer to a question that
/// is not asked is without consequence.
pub struct RasterAnswers {
    pub mode: u32,
    pub colors: Option<RasterizedGlyph>,
    pub analysis: Result<(), i32>,
    pub bounds: Result<Bounds, i32>,
    pub texture: Result<Vec<u8>, i32>,
}

impl RasterAnswers {
    /// The result that a step ends in.
    pub open spec fn result<F>(self, step: RasterStepView<'_, F>) -> Result<
        RasterizedGlyph,
        crate::error::ErrorView,
    >
        decreases
                match step {
                    RasterStepView::GetRenderingMode(_) => 5int,
                    RasterStepView::RasterizeColors(_) => 4,
                    RasterStepView::Analyze(_) => 3,
                    RasterStepView::GetBounds(_) => 2,
                    RasterStepView::CreateTexture(_, _) => 1,
                    RasterStepView::Done(_) => 0,
                },
    {
        match step {
            RasterStepView::GetRenderingMode(s) => self.result(after_mode(s, self.mode)),
            RasterStepView::RasterizeColors(s) => self.result(
                after_colors(s.rendering, self.colors),
            ),
            RasterStepView::Analyze(rendering) => self.result(
                after_analysis(rendering, self.analysis),
            ),
            RasterStepView::GetBounds(rendering) => self.result(
                after_bounds(rendering, self.bounds),
            ),
            RasterStepView::CreateTexture(rendering, bounds) => self.result(
                after_texture(rendering, bounds, self.texture),
            ),
            RasterStepView::Done(result) => result,
        }
    }

    /// The result of rendering the ClearType texture: the texture, or the first
    /// call that fails on the way there.
    pub open spec fn texture_result(self, character: char) -> Result<
        RasterizedGlyph,
        crate::error::ErrorView,
    > {
        match (self.analysis, self.bounds, self.texture) {
            (Err(hr), _, _) => Err(crate::error::ErrorView::of(hr)),
            (_, Err(hr), _) => Err(crate::error::ErrorView::of(hr)),
            (_, _, Err(hr)) => Err(crate::error::ErrorView::of(hr)),
            (Ok(_), Ok(bounds), Ok(texture)) => Ok(textured_glyph(character, bounds, texture)),
        }
    }
}

/// A color glyph is the one that was composited, and nothing else is asked for.
pub proof fn law_color_glyphs_come_first<F>(request: ModeRequest<'_, F>, answers: RasterAnswers)
    requires
        request.tries_colors,
        answers.colors is Some,
    ensures
        answers.result(RasterStepView::GetRenderingMode(request)) == Ok::<
            RasterizedGlyph,
            crate::error::ErrorView,
        >(answers.colors->0),
{
    reveal_with_fuel(RasterAnswers::result, 3);
}

/// A glyph without colors is its ClearType texture, or the first call that
/// fails on the way there is reported.
pub proof fn law_other_glyphs_are_textures<F>(request: ModeRequest<'_, F>, answers: RasterAnswers)
    requires
        !request.tries_colors || answers.colors is None,
    ensures
        answers.result(RasterStepView::GetRenderingMode(request)) == answers.texture_result(
            request.character,
        ),
{
    reveal_with_fuel(RasterAnswers::result, 6);
}

/// Whether a step renders the run that was asked for, for the character that
/// was asked for, in the rendering mode that the face recommends.
pub open spec fn renders<F>(
    request: ModeRequest<'_, F>,
    mode: u32,
    step: RasterStepView<'_, F>,
) -> bool {
    let rendering = Rendering {
        run: request.run,
        character: request.character,
        setup: RenderSetup::in_mode(mode),
    };
    match step {
        RasterStepView::GetRenderingMode(s) => s == request,
        RasterStepView::RasterizeColors(s) => s == ColorAttempt {
            rendering,
            palette: DEFAULT_COLOR_PALETTE,
        },
        RasterStepView::Analyze(s) => s == rendering,
        RasterStepView::GetBounds(s) => s == rendering,
        RasterStepView::CreateTexture(s, _) => s == rendering,
        RasterStepView::Done(_) => true,
    }
}

/// From the first step to the last, whether in colors or as a texture, one run
/// is rendered in one way: the run that was asked for, in the rendering mode
/// that its face recommends.
pub proof fn law_one_run_is_rendered<F>(
    request: ModeRequest<'_, F>,
    answers: RasterAnswers,
    step: RasterStepView<'_, F>,
)
    requires
        renders(request, answers.mode, step),
    ensures
        match step {
            RasterStepView::GetRenderingMode(s) => renders(
                request,
                answers.mode,
                after_mode(s, answers.mode),
            ),
            RasterStepView::RasterizeColors(s) => renders(
                request,
                answers.mode,
                after_colors(s.rendering, answers.colors),
            ),
            RasterStepView::Analyze(s) => renders(
                request,
                answers.mode,
                after_analysis(s, answers.analysis),
            ),
            RasterStepView::GetBounds(s) => renders(
                request,
                answers.mode,
                after_bounds(s, answers.bounds),
            ),
            RasterStepView::CreateTexture(s, bounds) => renders(
                request,
                answers.mode,
                after_texture(s, bounds, answers.texture),
            ),
            RasterStepView::Done(_) => true,
        },
{
}

/// The glyph of a texture has the place and the extent of the texture's bounds,
/// whatever they are: its columns are those from the left edge to the right one,
/// its rows those from the top edge to the bottom one, where `top` counts
/// upwards from the baseline; and its bytes are those of the texture.
pub proof fn law_texture_keeps_place_and_extent(
    character: char,
    bounds: Bounds,
    texture: Vec<u8>,
)
    requires
        bounds.measurable(),
    ensures
        textured_glyph(character, bounds, texture).left == bounds.left,
        textured_glyph(character, bounds, texture).left + textured_glyph(
            character,
            bounds,
            texture,
        ).width == bounds.right,
        textured_glyph(character, bounds, texture).top + bounds.top == 0,
        textured_glyph(character, bounds, texture).top - textured_glyph(
            character,
            bounds,
            texture,
        ).height + bounds.bottom == 0,
        textured_glyph(character, bounds, texture).character == character,
        textured_glyph(character, bounds, texture).advance == (0i32, 0i32),
        textured_glyph(character, bounds, texture).buffer == BitmapBuffer::Rgb(texture),
{
}

/// Moving the bounds of a texture moves its glyph by as much, and changes
/// nothing else of it.
pub proof fn law_moved_bounds_move_the_glyph(
    character: char,
    bounds: Bounds,
    moved: Bounds,
    texture: Vec<u8>,
    dx: int,
    dy: int,
)
    requires
        bounds.measurable(),
        moved.measurable(),
        moved.left == bounds.left + dx,
        moved.right == bounds.right + dx,
        moved.top == bounds.top + dy,
        moved.bottom == bounds.bottom + dy,
    ensures
        textured_glyph(character, moved, texture).left == textured_glyph(
            character,
            bounds,
            texture,
        ).left + dx,
        textured_glyph(character, moved, texture).top == textured_glyph(
            character,
            bounds,
            texture,
        ).top - dy,
        textured_glyph(character, moved, texture).width == textured_glyph(
            character,
            bounds,
            texture,
        ).width,
        textured_glyph(character, moved, texture).height == textured_glyph(
            character,
            bounds,
            texture,
        ).height,
        textured_glyph(character, moved, texture).buffer == textured_glyph(
            character,
            bounds,
            texture,
        ).buffer,
{
}

/// Colors are tried for a glyph if and only if color glyphs can be decomposed,
/// whatever else the rasterizer offers or holds, and whichever glyph it is. What
/// is asked for is that glyph of that face at that size.
pub proof fn law_colors_are_tried_if_they_can_be<F>(
    rasterizer: DirectWriteRasterizer<F>,
    face: &F,
    size: Size,
    character: char,
    glyph_index: u16,
)
    ensures
        rasterizer.raster_begun(face, size, character, glyph_index).tries_colors
            == rasterizer.decomposes_colors(),
        rasterizer.raster_begun(face, size, character, glyph_index).character == character,
        rasterizer.raster_begun(face, size, character, glyph_index).pixels_per_dip_bits
            == 0x3F80_0000,
        rasterizer.raster_begun(face, size, character, glyph_index).measuring_mode is Natural,
        rasterizer.raster_begun(face, size, character, glyph_index).run.face == face,
        rasterizer.raster_begun(face, size, character, glyph_index).run.em_size_bits
            == size.px_bits,
        rasterizer.raster_begun(face, size, character, glyph_index).run.glyph_index == glyph_index,
        rasterizer.raster_begun(face, size, character, glyph_index).run.glyph_count == 1,
        !rasterizer.raster_begun(face, size, character, glyph_index).run.is_sideways,
{
}

/// From the face, the size, the character and the index of a glyph to its
/// bitmap: if color glyphs can be decomposed and the glyph has colors, the
/// bitmap is the one in colors, and no other call matters.
pub proof fn law_glyph_with_colors_is_in_colors<F>(
    rasterizer: DirectWriteRasterizer<F>,
    face: &F,
    size: Size,
    character: char,
    glyph_index: u16,
    answers: RasterAnswers,
    glyph: RasterizedGlyph,
)
    requires
        rasterizer.decomposes_colors(),
        answers.colors == Some(glyph),
    ensures
        answers.result(
            RasterStepView::GetRenderingMode(
                rasterizer.raster_begun(face, size, character, glyph_index),
            ),
        ) == Ok::<RasterizedGlyph, crate::error::ErrorView>(glyph),
{
    law_color_glyphs_come_first(
        rasterizer.raster_begun(face, size, character, glyph_index),
        answers,
    );
}

/// From the face, the size, the character and the index of a glyph to its
/// bitmap: if color glyphs cannot be decomposed, or the glyph has no colors, and
/// no call fails, the bitmap is the texture, in the place and with the extent of
/// its bounds.
pub proof fn law_glyph_without_colors_is_its_texture<F>(
    rasterizer: DirectWriteRasterizer<F>,
    face: &F,
    size: Size,
    character: char,
    glyph_index: u16,
    answers: RasterAnswers,
    bounds: Bounds,
    texture: Vec<u8>,
)
    requires
        !rasterizer.decomposes_colors() || answers.colors is None,
        answers.analysis is Ok,
        answers.bounds == Ok::<Bounds, i32>(bounds),
        answers.texture == Ok::<Vec<u8>, i32>(texture),
        bounds.measurable(),
    ensures
        answers.result(
            RasterStepView::GetRenderingMode(
                rasterizer.raster_begun(face, size, character, glyph_index),
            ),
        ) matches Ok(glyph) && {
            &&& glyph.character == character
            &&& glyph.width == bounds.right - bounds.left
            &&& glyph.height == bounds.bottom - bounds.top
            &&& glyph.top == -bounds.top
            &&& glyph.left == bounds.left
            &&& glyph.advance == (0i32, 0i32)
            &&& glyph.buffer == BitmapBuffer::Rgb(texture)
        },
{
    law_other_glyphs_are_textures(
        rasterizer.raster_begun(face, size, character, glyph_index),
        answers,
    );
}

/// From the face, the size, the character and the index of a glyph to an error:
/// if color glyphs cannot be decomposed, or the glyph has no colors, the first
/// of the three calls that fails is reported by its result code.
pub proof fn law_first_failing_call_is_reported<F>(
    rasterizer: DirectWriteRasterizer<F>,
    face: &F,
    size: Size,
    character: char,
    glyph_index: u16,
    answers: RasterAnswers,
    hr: i32,
)
    requires
        !rasterizer.decomposes_colors() || answers.colors is None,
        answers.analysis == Err::<(), i32>(hr) || (answers.analysis is Ok && (answers.bounds
            == Err::<Bounds, i32>(hr) || (answers.bounds is Ok && answers.texture == Err::<
            Vec<u8>,
            i32,
        >(hr)))),
    ensures
        answers.result(
            RasterStepView::GetRenderingMode(
                rasterizer.raster_begun(face, size, character, glyph_index),
            ),
        ) == Err::<RasterizedGlyph, crate::error::ErrorView>(
            crate::error::ErrorView::PlatformError(
                "a DirectWrite rendering error occurred: "@ + crate::text::hex(
                    if hr < 0 {
                        (hr + 0x1_0000_0000) as nat
                    } else {
                        hr as nat
                    },
                ),
            ),
        ),
{
    law_other_glyphs_are_textures(
        rasterizer.raster_begun(face, size, character, glyph_index),
        answers,
    );
}

/// Once the rendering mode is known, the run goes on in colors if they are to be
/// tried, from the default palette, and else as a texture; either way it is the
/// run that was asked for, in that mode.
pub proof fn law_mode_leads_on<F>(request: ModeRequest<'_, F>, mode: u32)
    ensures
        request.tries_colors ==> (after_mode(request, mode) matches RasterStepView::RasterizeColors(
            s,
        ) && {
            &&& s.palette == 0
            &&& s.rendering.run == request.run
            &&& s.rendering.character == request.character
            &&& s.rendering.setup.rendering_mode == mode
        }),
        !request.tries_colors ==> (after_mode(request, mode) matches RasterStepView::Analyze(s) && {
            &&& s.run == request.run
            &&& s.character == request.character
            &&& s.setup.rendering_mode == mode
        }),
{
}

} // verus!
