use directwrite::bounds::Bounds;
use directwrite::color_glyph::rasterize_color_glyph;
use directwrite::composite::{can_composite, composite_layers};
use directwrite::glyph::{BitmapBuffer, Pixel, RasterizedGlyph};
use directwrite::layer::{Color, ColorRun, Layer, FOREGROUND_PALETTE_INDEX, ONE_BITS};

/// Source-over with premultiplied alpha.
fn source_over(dst: Pixel, color: Color, coverage: u32) -> Pixel {
    let cov = coverage as f32 / (3.0 * 255.0);
    let src_a = f32::from_bits(color.a) * cov;
    let inv = 1.0 - src_a;
    let channel = |src: f32, dst: u8| -> u8 {
        ((src + f32::from(dst) / 255.0 * inv) * 255.0).round().clamp(0.0, 255.0) as u8
    };
    Pixel {
        r: channel(f32::from_bits(color.r) * src_a, dst.r),
        g: channel(f32::from_bits(color.g) * src_a, dst.g),
        b: channel(f32::from_bits(color.b) * src_a, dst.b),
        a: channel(src_a, dst.a),
    }
}

fn color(r: f32, g: f32, b: f32, a: f32) -> Color {
    Color { r: r.to_bits(), g: g.to_bits(), b: b.to_bits(), a: a.to_bits() }
}

fn bounds(left: i32, top: i32, right: i32, bottom: i32) -> Bounds {
    Bounds { left, top, right, bottom }
}

/// A layer that covers each pixel by three equal bytes.
fn layer(bounds: Bounds, bytes: &[u8], color: Color) -> Layer {
    let mut coverage = Vec::new();
    for byte in bytes {
        coverage.push(*byte);
        coverage.push(*byte);
        coverage.push(*byte);
    }
    Layer { bounds, coverage, color }
}

fn rgba(glyph: &RasterizedGlyph) -> &Vec<u8> {
    match &glyph.buffer {
        BitmapBuffer::Rgba(bytes) => bytes,
        BitmapBuffer::Rgb(_) => panic!("a color glyph has four channels"),
    }
}

#[test]
fn no_layers_give_no_glyph() {
    let layers: Vec<Layer> = Vec::new();
    assert!(can_composite(&layers));
    assert!(rasterize_color_glyph('x', &Some(layers), source_over).is_none());
}

#[test]
fn failed_call_gives_no_glyph() {
    assert!(rasterize_color_glyph('x', &None, source_over).is_none());
}

#[test]
fn released_layers_give_their_bitmap() {
    let layers = || vec![layer(bounds(0, -2, 1, -1), &[255], color(0.0, 1.0, 0.0, 1.0))];
    assert_eq!(
        rasterize_color_glyph('x', &Some(layers()), source_over),
        Some(composite_layers('x', &layers(), source_over))
    );
}

#[test]
fn one_opaque_pixel() {
    let layers = vec![layer(bounds(-3, -7, -2, -6), &[255], color(1.0, 0.0, 0.5, 1.0))];
    assert!(can_composite(&layers));
    let glyph = composite_layers('e', &layers, source_over);
    assert_eq!(glyph.character, 'e');
    assert_eq!((glyph.width, glyph.height), (1, 1));
    assert_eq!((glyph.top, glyph.left), (7, -3));
    assert_eq!(glyph.advance, (0, 0));
    assert_eq!(rgba(&glyph), &vec![255, 0, 128, 255]);
}

#[test]
fn partial_coverage_is_premultiplied() {
    let layers = vec![Layer {
        bounds: bounds(0, 0, 1, 1),
        coverage: vec![0, 128, 255],
        color: color(1.0, 0.5, 0.0, 1.0),
    }];
    let glyph = composite_layers('e', &layers, source_over);
    assert_eq!(rgba(&glyph), &vec![128, 64, 0, 128]);
}

#[test]
fn layers_are_painted_from_back_to_front() {
    let red = color(1.0, 0.0, 0.0, 1.0);
    let blue = color(0.0, 0.0, 1.0, 1.0);
    let area = bounds(0, 0, 1, 1);

    let layers = vec![layer(area, &[255], red), layer(area, &[255], blue)];
    let glyph = composite_layers('e', &layers, source_over);
    assert_eq!(rgba(&glyph), &vec![0, 0, 255, 255]);

    let layers = vec![layer(area, &[255], blue), layer(area, &[255], red)];
    let glyph = composite_layers('e', &layers, source_over);
    assert_eq!(rgba(&glyph), &vec![255, 0, 0, 255]);

    let half = color(0.0, 0.0, 1.0, 0.5);
    let layers = vec![layer(area, &[255], red), layer(area, &[255], half)];
    let glyph = composite_layers('e', &layers, source_over);
    assert_eq!(rgba(&glyph), &vec![128, 0, 128, 255]);
}

#[test]
fn bitmap_encloses_all_layers() {
    let red = color(1.0, 0.0, 0.0, 1.0);
    let green = color(0.0, 1.0, 0.0, 1.0);
    let layers = vec![
        layer(bounds(1, -1, 2, 0), &[255], red),
        layer(bounds(-1, -2, 0, -1), &[255], green),
    ];
    assert!(can_composite(&layers));
    let glyph = composite_layers('e', &layers, source_over);
    assert_eq!((glyph.left, glyph.top), (-1, 2));
    assert_eq!((glyph.width, glyph.height), (3, 2));
    let clear = [0u8, 0, 0, 0];
    let mut expected: Vec<u8> = Vec::new();
    // The upper row: green, then two pixels that no layer covers.
    expected.extend_from_slice(&[0, 255, 0, 255]);
    expected.extend_from_slice(&clear);
    expected.extend_from_slice(&clear);
    // The lower row: two pixels that no layer covers, then red.
    expected.extend_from_slice(&clear);
    expected.extend_from_slice(&clear);
    expected.extend_from_slice(&[255, 0, 0, 255]);
    assert_eq!(rgba(&glyph), &expected);
}

#[test]
fn only_covering_layers_are_blended() {
    let area = bounds(0, 0, 2, 1);
    let layers = vec![
        layer(area, &[0, 10], color(1.0, 0.0, 0.0, 1.0)),
        layer(area, &[0, 0], color(0.0, 1.0, 0.0, 1.0)),
        layer(area, &[0, 20], color(0.0, 0.0, 1.0, 1.0)),
    ];
    // Counts the layers, and adds up their coverage.
    let count = |dst: Pixel, _color: Color, coverage: u32| -> Pixel {
        assert!(coverage > 0);
        Pixel { r: dst.r + 1, g: dst.g + coverage as u8, b: 0, a: 7 }
    };
    let glyph = composite_layers('e', &layers, count);
    assert_eq!(rgba(&glyph), &vec![0, 0, 0, 0, 2, 90, 0, 7]);
}

#[test]
fn blending_keeps_premultiplied_alpha() {
    let area = bounds(0, 0, 3, 1);
    let layers = vec![
        layer(area, &[255, 100, 3], color(1.0, 0.25, 0.75, 0.9)),
        layer(area, &[17, 200, 99], color(0.3, 1.0, 0.6, 0.4)),
    ];
    let glyph = composite_layers('e', &layers, source_over);
    for pixel in rgba(&glyph).chunks(4) {
        assert!(pixel[0] <= pixel[3] && pixel[1] <= pixel[3] && pixel[2] <= pixel[3]);
    }
    let again = composite_layers('e', &layers, source_over);
    assert_eq!(glyph, again);
}

#[test]
fn what_cannot_be_composited() {
    let white = color(1.0, 1.0, 1.0, 1.0);
    // A layer without pixels.
    assert!(!can_composite(&vec![layer(bounds(0, 0, 0, 1), &[], white)]));
    assert!(!can_composite(&vec![layer(bounds(0, 1, 1, 0), &[255], white)]));
    // A layer that lacks coverage.
    assert!(!can_composite(&vec![layer(bounds(0, 0, 2, 1), &[255], white)]));
    // Layers that are too far apart.
    assert!(!can_composite(&vec![
        layer(bounds(i32::MIN, 0, i32::MIN + 1, 1), &[255], white),
        layer(bounds(0, 0, 1, 1), &[255], white),
    ]));
    // A layer whose distance from the baseline is too large.
    assert!(!can_composite(&vec![layer(bounds(0, i32::MIN, 1, i32::MIN + 1), &[255], white)]));
    assert!(can_composite(&vec![layer(
        bounds(0, i32::MIN + 1, 1, i32::MIN + 2),
        &[255],
        white
    )]));
}

#[test]
fn foreground_runs_are_white() {
    let red = color(1.0, 0.0, 0.0, 0.5);
    let white = color(1.0, 1.0, 1.0, 1.0);
    assert_eq!(ONE_BITS, 1.0f32.to_bits());
    let run = ColorRun { palette_index: FOREGROUND_PALETTE_INDEX, color: red };
    assert_eq!(run.layer_color(), white);
    let run = ColorRun { palette_index: 0, color: red };
    assert_eq!(run.layer_color(), red);
    let run = ColorRun { palette_index: 0xFFFE, color: red };
    assert_eq!(run.layer_color(), red);
}

#[test]
fn empty_bounds() {
    assert!(bounds(0, 0, 0, 0).is_empty());
    assert!(bounds(5, 0, 3, 9).is_empty());
    assert!(bounds(0, 4, 1, 4).is_empty());
    assert!(!bounds(-2, -2, -1, -1).is_empty());
    assert!(bounds(-2, -2, -1, -1).is_measurable());
    assert!(!bounds(i32::MIN, 0, 1, 1).is_measurable());
    assert!(!bounds(0, i32::MIN, 1, i32::MIN).is_measurable());
}
