use directwrite::bounds::Bounds;
use directwrite::color_glyph::rasterize_color_glyph;
use directwrite::color_runs::{translate_color_glyph_run, ColorStep};
use directwrite::glyph::Pixel;
use directwrite::glyph_run::RenderSetup;
use directwrite::hresult::{color_factory_created, succeeded, DWRITE_E_NOCOLOR};
use directwrite::layer::{Color, ColorRun, Layer, FOREGROUND_PALETTE_INDEX, ONE_BITS};

const S_OK: i32 = 0;
const E_FAIL: i32 = -2147467259;

/// What happens to one run.
struct Script {
    moved: (i32, i32),
    current: (i32, Option<ColorRun>),
    analysis: Result<(), i32>,
    bounds: Result<Bounds, i32>,
    texture: Result<Vec<u8>, i32>,
}

fn run(palette_index: u16) -> ColorRun {
    ColorRun { palette_index, color: Color { r: 1, g: 2, b: 3, a: 4 } }
}

fn pixel() -> Bounds {
    Bounds { left: 0, top: -1, right: 1, bottom: 0 }
}

fn good(palette_index: u16, byte: u8) -> Script {
    Script {
        moved: (S_OK, 1),
        current: (S_OK, Some(run(palette_index))),
        analysis: Ok(()),
        bounds: Ok(pixel()),
        texture: Ok(vec![byte, byte, byte]),
    }
}

/// Takes in all runs, and after them the end of the enumeration. Gives the
/// layers, and how many runs were moved to.
fn drive(scripts: &[Script]) -> (Option<Vec<Layer>>, usize) {
    let setup = RenderSetup::new(5);
    let mut step = translate_color_glyph_run(S_OK, true, setup).unwrap();
    let mut moves = 0;
    loop {
        step = match step {
            ColorStep::MoveNext(s) => {
                moves += 1;
                match scripts.get(moves - 1) {
                    Some(script) => s.moved(script.moved.0, script.moved.1),
                    None => s.moved(S_OK, 0),
                }
            },
            ColorStep::GetCurrentRun(s) => {
                let current = scripts[moves - 1].current;
                s.got(current.0, current.1)
            },
            ColorStep::Analyze(s) => {
                assert_eq!(s.progress.setup, setup);
                s.analyzed(scripts[moves - 1].analysis)
            },
            ColorStep::GetBounds(s) => {
                assert_eq!(s.progress.setup, setup);
                s.measured(scripts[moves - 1].bounds)
            },
            ColorStep::CreateTexture(s) => {
                assert_eq!(s.progress.setup, setup);
                assert_eq!(Ok(s.bounds), scripts[moves - 1].bounds);
                s.textured(scripts[moves - 1].texture.clone())
            },
            ColorStep::Release(layers) => return (layers, moves),
        }
    }
}

#[test]
fn success_codes() {
    assert!(succeeded(0));
    assert!(succeeded(1));
    assert!(!succeeded(-1));
    assert!(!succeeded(E_FAIL));
    assert!(!succeeded(DWRITE_E_NOCOLOR));
    assert_eq!(DWRITE_E_NOCOLOR as u32, 0x8898_500C);
}

#[test]
fn color_factory_needs_success_and_a_factory() {
    assert!(color_factory_created(S_OK, true));
    assert!(color_factory_created(1, true));
    assert!(!color_factory_created(S_OK, false));
    assert!(!color_factory_created(E_FAIL, true));
    assert!(!color_factory_created(E_FAIL, false));
}

/// The first coverage byte of each layer.
fn bytes(layers: &[Layer]) -> Vec<u8> {
    layers.iter().map(|layer| layer.coverage[0]).collect()
}

/// Runs without pixels.
fn empty_runs() -> [Script; 2] {
    [
        Script { bounds: Ok(Bounds { left: 4, top: 0, right: 4, bottom: 1 }), ..good(0, 3) },
        // What creating its texture would answer does not matter.
        Script {
            bounds: Ok(Bounds { left: 0, top: 2, right: 1, bottom: 1 }),
            texture: Err(E_FAIL),
            ..good(0, 4)
        },
    ]
}

#[test]
fn glyph_without_colors_has_no_runs() {
    let setup = RenderSetup::new(0);
    assert!(translate_color_glyph_run(DWRITE_E_NOCOLOR, true, setup).is_none());
    assert!(translate_color_glyph_run(E_FAIL, true, setup).is_none());
    assert!(translate_color_glyph_run(S_OK, false, setup).is_none());
    assert!(translate_color_glyph_run(S_OK, true, setup).is_some());
    assert!(translate_color_glyph_run(1, true, setup).is_some());
}

#[test]
fn no_runs_give_no_layers() {
    let (layers, moves) = drive(&[]);
    assert!(layers.unwrap().is_empty());
    assert_eq!(moves, 1);
}

#[test]
fn runs_become_layers_in_order() {
    let (layers, moves) = drive(&[good(0, 10), good(FOREGROUND_PALETTE_INDEX, 20), good(2, 30)]);
    let layers = layers.unwrap();
    assert_eq!(moves, 4);
    assert_eq!(bytes(&layers), vec![10, 20, 30]);
    assert_eq!(layers[0].color, Color { r: 1, g: 2, b: 3, a: 4 });
    assert_eq!(
        layers[1].color,
        Color { r: ONE_BITS, g: ONE_BITS, b: ONE_BITS, a: ONE_BITS }
    );
    assert_eq!(layers[2].bounds, pixel());
    assert!(layers.iter().all(|layer| layer.is_well_formed()));
}

#[test]
fn empty_runs_change_nothing() {
    let [no_width, no_height] = empty_runs();
    let (layers, moves) = drive(&[no_width, good(0, 6), no_height, good(0, 7)]);
    assert_eq!(moves, 5);
    let (plain, _) = drive(&[good(0, 6), good(0, 7)]);
    assert_eq!(bytes(&layers.unwrap()), vec![6, 7]);
    assert_eq!(bytes(&plain.unwrap()), vec![6, 7]);
}

/// Paints every covered pixel with its coverage.
fn paint(_dst: Pixel, _color: Color, coverage: u32) -> Pixel {
    Pixel { r: (coverage / 3) as u8, g: 0, b: 0, a: 255 }
}

#[test]
fn empty_runs_change_no_glyph() {
    let [no_width, no_height] = empty_runs();
    let (layers, _) = drive(&[no_width, good(0, 6), no_height, good(0, 7)]);
    let (plain, _) = drive(&[good(0, 6), good(0, 7)]);
    let glyph = rasterize_color_glyph('x', &layers, paint);
    assert!(glyph.is_some());
    assert_eq!(glyph, rasterize_color_glyph('x', &plain, paint));

    let (layers, _) = drive(&empty_runs());
    assert!(rasterize_color_glyph('x', &layers, paint).is_none());
}

#[test]
fn only_empty_runs_give_no_layers() {
    let (layers, moves) = drive(&empty_runs());
    assert_eq!(moves, 3);
    assert!(layers.unwrap().is_empty());
}

#[test]
fn any_error_leaves_no_layers() {
    for failing in [
        Script { moved: (E_FAIL, 1), ..good(0, 2) },
        Script { moved: (E_FAIL, 0), ..good(0, 2) },
        Script { current: (E_FAIL, Some(run(0))), ..good(0, 2) },
        Script { current: (S_OK, None), ..good(0, 2) },
        Script { analysis: Err(E_FAIL), ..good(0, 2) },
        Script { bounds: Err(E_FAIL), ..good(0, 2) },
        Script { texture: Err(E_FAIL), ..good(0, 2) },
    ] {
        // Though the runs before and behind it are good.
        let (layers, moves) = drive(&[good(0, 1), failing, good(0, 3)]);
        assert!(layers.is_none());
        assert_eq!(moves, 2);
    }
}

#[test]
fn error_on_the_first_run_leaves_no_layers() {
    let (layers, moves) = drive(&[Script { analysis: Err(E_FAIL), ..good(0, 1) }]);
    assert!(layers.is_none());
    assert_eq!(moves, 1);
}

#[test]
fn enumeration_ends_when_there_are_no_more_runs() {
    let end = Script { moved: (S_OK, 0), ..good(0, 2) };
    let (layers, moves) = drive(&[good(0, 1), end, good(0, 3)]);
    assert_eq!(moves, 2);
    assert_eq!(bytes(&layers.unwrap()), vec![1]);
}
