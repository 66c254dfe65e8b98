use directwrite::bounds::Bounds;
use directwrite::color_runs::ColorStep;
use directwrite::error::Error;
use directwrite::font::{
    Font, FontDesc, FontKey, FontStretch, FontStyle, FontWeight, Slant, Style, Weight,
};
use directwrite::glyph::{BitmapBuffer, GlyphKey, Pixel, RasterizedGlyph, Size};
use directwrite::glyph_run::{GlyphOffset, MeasuringMode, RenderSetup, TextureType};
use directwrite::layer::{Color, Layer, ONE_BITS};
use directwrite::lookup::{get_glyph_index, FontSource, GlyphJob, GlyphStep};
use directwrite::raster::{RasterStep, Rendering, DEFAULT_COLOR_PALETTE};
use directwrite::rasterizer::DirectWriteRasterizer;

const SIZE: Size = Size { px_bits: 0x4180_0000 };
const KEY: FontKey = FontKey { token: 5 };
const E_FAIL: i32 = -2147467259;

fn rasterizer(fallback: bool, colors: bool) -> DirectWriteRasterizer<u8> {
    let mut rasterizer = DirectWriteRasterizer::new(fallback, colors).unwrap();
    let desc = FontDesc {
        name: String::from("Consolas"),
        style: Style::Description { slant: Slant::Normal, weight: Weight::Bold },
    };
    let font = Font {
        face: 42,
        family_name: String::from("Consolas"),
        weight: FontWeight::Bold,
        style: FontStyle::Oblique,
        stretch: FontStretch::Condensed,
    };
    rasterizer.store_font(desc, KEY, font).unwrap();
    rasterizer
}

fn key(character: char) -> GlyphKey {
    GlyphKey { character, font_key: KEY, size: SIZE }
}

fn bitmap(character: char) -> RasterizedGlyph {
    RasterizedGlyph {
        character,
        width: 1,
        height: 1,
        top: 1,
        left: 0,
        advance: (0, 0),
        buffer: BitmapBuffer::Rgb(vec![1, 2, 3]),
    }
}

/// Looks a glyph up, with the indices that the loaded font gives, and those of
/// the fallback font, if there is one.
fn job(
    rasterizer: &DirectWriteRasterizer<u8>,
    glyph: GlyphKey,
    indices: &[u16],
    fallback: Option<&[u16]>,
) -> GlyphJob {
    let lookup = rasterizer.get_glyph(glyph).unwrap();
    assert_eq!(lookup.font.face, 42);
    match lookup.indexed(&indices.to_vec()) {
        GlyphStep::Rasterize(job) => job,
        GlyphStep::MapCharacters(lookup) => match lookup.mapped(fallback.is_some()) {
            GlyphStep::Rasterize(job) => job,
            GlyphStep::GetFallbackIndices(s) => s.indexed(&fallback.unwrap().to_vec()),
            other => panic!("unexpected step {:?}", other),
        },
        other => panic!("unexpected step {:?}", other),
    }
}

#[test]
fn unknown_font_key_is_reported() {
    let rasterizer = rasterizer(true, true);
    let glyph = GlyphKey { character: 'a', font_key: FontKey { token: 6 }, size: SIZE };
    assert_eq!(rasterizer.get_glyph(glyph).err(), Some(Error::UnknownFontKey));
    let unknown = FontKey { token: 0 };
    assert_eq!(rasterizer.metrics(unknown, SIZE).err(), Some(Error::UnknownFontKey));
}

#[test]
fn glyph_index_is_the_first_one() {
    assert_eq!(get_glyph_index(&vec![]), 0);
    assert_eq!(get_glyph_index(&vec![9]), 9);
    assert_eq!(get_glyph_index(&vec![0, 9]), 0);
}

#[test]
fn fallback_is_asked_for_only_if_the_glyph_is_missing() {
    let with = rasterizer(true, false);
    let without = rasterizer(false, false);
    let cases: [(&DirectWriteRasterizer<u8>, &[u16], Option<&[u16]>, FontSource, u16); 8] = [
        (&with, &[12], Some(&[7]), FontSource::Loaded, 12),
        (&with, &[0], Some(&[7]), FontSource::Fallback, 7),
        (&with, &[], Some(&[7]), FontSource::Fallback, 7),
        (&with, &[0], Some(&[0]), FontSource::Fallback, 0),
        (&with, &[0], Some(&[]), FontSource::Fallback, 0),
        (&with, &[0], None, FontSource::Loaded, 0),
        (&without, &[0], Some(&[7]), FontSource::Loaded, 0),
        (&without, &[12], None, FontSource::Loaded, 12),
    ];
    for (rasterizer, indices, fallback, source, glyph_index) in cases {
        let job = job(rasterizer, key('a'), indices, fallback);
        assert_eq!(job.glyph, key('a'));
        assert_eq!((job.source, job.glyph_index), (source, glyph_index));
        let reported = job.finished(Ok(bitmap('a')));
        if glyph_index == 0 {
            assert_eq!(reported, Err(Error::MissingGlyph(bitmap('a'))));
        } else {
            assert_eq!(reported, Ok(bitmap('a')));
        }
    }
}

#[test]
fn failure_to_rasterize_is_reported() {
    let rasterizer = rasterizer(false, false);
    for indices in [vec![0], vec![3]] {
        let job = job(&rasterizer, key('a'), &indices, None);
        assert_eq!(job.finished(Err(Error::from(E_FAIL))), Err(Error::from(E_FAIL)));
    }
}

#[test]
fn fallback_query_describes_the_loaded_font() {
    let with = rasterizer(true, false);
    let font = with.get_loaded_font(KEY).unwrap();
    let query = with.get_fallback_font(font, '\u{1F600}').unwrap();
    assert_eq!(query.text, vec![0xD83D, 0xDE00]);
    assert_eq!((query.position, query.length), (0, 2));
    assert_eq!(query.family_name, "Consolas");
    assert_eq!(query.weight, FontWeight::Bold);
    assert_eq!(query.style, FontStyle::Oblique);
    assert_eq!(query.stretch, FontStretch::Condensed);

    match with.get_glyph(key('\u{20AC}')).unwrap().indexed(&vec![0]) {
        GlyphStep::MapCharacters(lookup) => {
            assert_eq!(lookup.query.text, vec![0x20AC]);
            assert_eq!(lookup.query.length, 1);
        },
        other => panic!("unexpected step {:?}", other),
    }

    let without = rasterizer(false, false);
    assert!(without.get_fallback_font(font, 'a').is_none());
}

#[test]
fn horizontal_metrics_are_those_of_one_character() {
    let rasterizer = rasterizer(false, false);
    let lookup = rasterizer.metrics(KEY, SIZE).unwrap();
    assert_eq!(lookup.font.face, 42);
    assert_eq!(lookup.character, '!');
    let lookup = lookup.indexed(&vec![4, 5]);
    assert_eq!(lookup.glyph_index, 4);
    assert!(!lookup.is_sideways);
    assert_eq!(lookup.measured(&vec![1126, 3]), Ok(1126));

    let lookup = rasterizer.metrics(KEY, SIZE).unwrap().indexed(&vec![]);
    assert_eq!(lookup.glyph_index, 0);
    assert_eq!(lookup.measured(&vec![]), Err(Error::MetricsNotFound));
}

const FACE: u8 = 42;
const MODE: u32 = 5;

/// Whether one upright glyph of the face is rendered in the recommended mode.
fn assert_rendering(rendering: &Rendering<'_, u8>) {
    let run = &rendering.run;
    assert_eq!(*run.face, FACE);
    assert_eq!(run.em_size_bits, SIZE.px_bits);
    assert_eq!((run.glyph_count, run.glyph_index), (1, 8));
    assert_eq!(run.advance_bits, 0.0f32.to_bits());
    let zero = GlyphOffset { advance_offset_bits: 0, ascender_offset_bits: 0 };
    assert_eq!(run.offset, zero);
    assert!(!run.is_sideways);
    assert_eq!(run.bidi_level, 0);
    assert_eq!(rendering.character, 'g');
    assert_eq!(
        rendering.setup,
        RenderSetup {
            pixels_per_dip_bits: 1.0f32.to_bits(),
            rendering_mode: MODE,
            measuring_mode: MeasuringMode::Natural,
            baseline_x_bits: 0.0f32.to_bits(),
            baseline_y_bits: 0.0f32.to_bits(),
            texture_type: TextureType::ClearType3x1,
        }
    );
}

/// Rasterizes a glyph as the calls answer.
fn rasterize(
    colors: bool,
    composited: Option<RasterizedGlyph>,
    analysis: Result<(), i32>,
    bounds: Result<Bounds, i32>,
    texture: Result<Vec<u8>, i32>,
) -> Result<RasterizedGlyph, Error> {
    let mut composited = composited;
    let mut texture = Some(texture);
    let mut step = rasterizer(false, colors).rasterize_glyph(&FACE, SIZE, 'g', 8);
    loop {
        step = match step {
            RasterStep::GetRenderingMode(s) => {
                assert_eq!(*s.run.face, FACE);
                assert_eq!(s.run.em_size_bits, SIZE.px_bits);
                assert_eq!(s.pixels_per_dip_bits, 1.0f32.to_bits());
                assert_eq!(s.measuring_mode, MeasuringMode::Natural);
                s.recommended(MODE)
            },
            RasterStep::RasterizeColors(s) => {
                assert!(colors);
                assert_rendering(&s.rendering);
                assert_eq!(s.palette, DEFAULT_COLOR_PALETTE);
                s.composited(composited.take())
            },
            RasterStep::Analyze(s) => {
                assert_rendering(&s.rendering);
                s.analyzed(analysis)
            },
            RasterStep::GetBounds(s) => {
                assert_rendering(&s.rendering);
                s.measured(bounds)
            },
            RasterStep::CreateTexture(s) => {
                assert_rendering(&s.rendering);
                assert_eq!(Ok(s.bounds), bounds);
                s.textured(texture.take().unwrap())
            },
            RasterStep::Done(result) => return result,
        }
    }
}

/// Paints a pixel in the low bytes of a color.
fn paint(_dst: Pixel, color: Color, _coverage: u32) -> Pixel {
    Pixel { r: color.r as u8, g: color.g as u8, b: color.b as u8, a: color.a as u8 }
}

#[test]
fn released_layers_end_the_color_attempt() {
    let rasterizer = rasterizer(false, true);
    let attempt = || match rasterizer.rasterize_glyph(&FACE, SIZE, 'g', 8) {
        RasterStep::GetRenderingMode(s) => match s.recommended(MODE) {
            RasterStep::RasterizeColors(s) => s,
            _ => panic!("colors come first"),
        },
        _ => panic!("the rendering mode is asked for first"),
    };

    match attempt().translated(0, true) {
        Some(ColorStep::MoveNext(s)) => assert_eq!(s.progress.setup, RenderSetup::new(MODE)),
        other => panic!("unexpected step {:?}", other),
    }
    assert!(attempt().translated(0, false).is_none());
    assert!(attempt().translated(E_FAIL, true).is_none());

    let layers = vec![Layer {
        bounds: Bounds { left: 2, top: -3, right: 3, bottom: -2 },
        coverage: vec![0, 0, 1],
        color: Color { r: 10, g: 20, b: 30, a: ONE_BITS | 40 },
    }];
    match attempt().rasterized(&Some(layers), paint) {
        RasterStep::Done(Ok(glyph)) => {
            assert_eq!(glyph.character, 'g');
            assert_eq!((glyph.left, glyph.top), (2, 3));
            assert_eq!(glyph.buffer, BitmapBuffer::Rgba(vec![10, 20, 30, 40]));
        },
        _ => panic!("the layers make a glyph"),
    }
    // A failed call, or no layers, leave the texture.
    for released in [None, Some(Vec::new())] {
        match attempt().rasterized(&released, paint) {
            RasterStep::Analyze(s) => assert_rendering(&s.rendering),
            _ => panic!("there is no color glyph"),
        }
    }
}

#[test]
fn color_glyphs_come_first() {
    let failed = || Err(E_FAIL);
    assert_eq!(
        rasterize(true, Some(bitmap('c')), Err(E_FAIL), failed(), Err(E_FAIL)),
        Ok(bitmap('c'))
    );
}

#[test]
fn other_glyphs_are_textures() {
    let bounds = Bounds { left: -1, top: -3, right: 1, bottom: 1 };
    let texture = vec![9u8; 24];
    let expected = RasterizedGlyph {
        character: 'g',
        width: 2,
        height: 4,
        top: 3,
        left: -1,
        advance: (0, 0),
        buffer: BitmapBuffer::Rgb(texture.clone()),
    };
    assert_eq!(rasterize(true, None, Ok(()), Ok(bounds), Ok(texture.clone())), Ok(expected));

    // A blank has bounds without pixels, and is a glyph all the same.
    let blank = Bounds { left: 0, top: 0, right: 0, bottom: 0 };
    let expected = RasterizedGlyph {
        character: 'g',
        width: 0,
        height: 0,
        top: 0,
        left: 0,
        advance: (0, 0),
        buffer: BitmapBuffer::Rgb(vec![]),
    };
    assert_eq!(rasterize(false, None, Ok(()), Ok(blank), Ok(vec![])), Ok(expected));
}

#[test]
fn first_failing_call_is_reported() {
    let bounds = Bounds { left: 0, top: 0, right: 1, bottom: 1 };
    assert_eq!(rasterize(true, None, Err(-1), Err(-2), Err(-3)), Err(Error::from(-1)));
    assert_eq!(rasterize(false, None, Ok(()), Err(-2), Err(-3)), Err(Error::from(-2)));
    assert_eq!(rasterize(false, None, Ok(()), Ok(bounds), Err(-3)), Err(Error::from(-3)));
}
