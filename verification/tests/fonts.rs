use directwrite::error::Error;
use directwrite::font::{
    Font, FontDesc, FontKey, FontStretch, FontStyle, FontWeight, Slant, Style, Weight,
};
use directwrite::glyph::Size;
use directwrite::load::LoadStep;
use directwrite::rasterizer::DirectWriteRasterizer;

const SIZE: Size = Size { px_bits: 0x4180_0000 };

fn rasterizer() -> DirectWriteRasterizer<&'static str> {
    DirectWriteRasterizer::new(true, false).unwrap()
}

fn font(face: &'static str) -> Font<&'static str> {
    Font {
        face,
        family_name: String::from("Consolas"),
        weight: FontWeight::Regular,
        style: FontStyle::Normal,
        stretch: FontStretch::Normal,
    }
}

fn described(slant: Slant, weight: Weight) -> FontDesc {
    FontDesc { name: String::from("Consolas"), style: Style::Description { slant, weight } }
}

fn specific(style: &str) -> FontDesc {
    FontDesc { name: String::from("Consolas"), style: Style::Specific(String::from(style)) }
}

/// Searches a family by face names. Gives the index of the font that is to be
/// stored, and how many face names were asked for.
fn search(desc: &FontDesc, face_names: &[&str]) -> (Result<u32, Error>, usize) {
    let mut asked = 0;
    let mut step = rasterizer().load_font(desc, SIZE);
    loop {
        step = match step {
            LoadStep::FindFamily(s) => {
                assert_eq!(&s.desc, desc);
                s.looked_up(true)
            },
            LoadStep::CountFonts(s) => s.counted(face_names.len() as u32),
            LoadStep::GetFaceName(s) => {
                assert_eq!(s.index as usize, asked);
                asked += 1;
                let name = String::from(face_names[s.index as usize]);
                s.named(&name)
            },
            LoadStep::StoreFont(choice) => {
                assert_eq!(&choice.desc, desc);
                return (Ok(choice.index), asked);
            },
            LoadStep::Done(Err(error)) => return (Err(error), asked),
            other => panic!("unexpected step {:?}", other),
        }
    }
}

#[test]
fn new_rasterizer_has_no_fonts() {
    let rasterizer = rasterizer();
    assert!(rasterizer.has_fallback());
    assert!(!rasterizer.has_color_factory());
    assert_eq!(
        rasterizer.get_loaded_font(FontKey { token: 0 }).err(),
        Some(Error::UnknownFontKey)
    );
    assert!(rasterizer.cached_key(&described(Slant::Normal, Weight::Normal)).is_none());
}

#[test]
fn unknown_family_is_not_found() {
    let desc = described(Slant::Italic, Weight::Bold);
    match rasterizer().load_font(&desc, SIZE) {
        LoadStep::FindFamily(s) => match s.looked_up(false) {
            LoadStep::Done(result) => assert_eq!(result, Err(Error::FontNotFound(desc))),
            other => panic!("unexpected step {:?}", other),
        },
        other => panic!("unexpected step {:?}", other),
    }
}

#[test]
fn described_style_asks_for_the_first_match() {
    for (slant, style) in [
        (Slant::Normal, FontStyle::Normal),
        (Slant::Italic, FontStyle::Italic),
        (Slant::Oblique, FontStyle::Oblique),
    ] {
        for (weight, graded) in
            [(Weight::Normal, FontWeight::Regular), (Weight::Bold, FontWeight::Bold)]
        {
            let desc = described(slant, weight);
            let step = match rasterizer().load_font(&desc, SIZE) {
                LoadStep::FindFamily(s) => s.looked_up(true),
                other => panic!("unexpected step {:?}", other),
            };
            match step {
                LoadStep::GetFirstMatchingFont(request) => {
                    assert_eq!(request.desc, desc);
                    assert_eq!(request.weight, graded);
                    assert_eq!(request.stretch, FontStretch::Normal);
                    assert_eq!(request.style, style);
                },
                other => panic!("unexpected step {:?}", other),
            }
        }
    }
}

#[test]
fn specific_style_selects_the_first_face_of_that_name() {
    let desc = specific("Bold");
    assert_eq!(search(&desc, &["Regular", "Bold", "Bold"]), (Ok(1), 2));
    assert_eq!(search(&desc, &["Bold"]), (Ok(0), 1));
    assert_eq!(search(&desc, &["Regular", "Italic", "Bold"]), (Ok(2), 3));
}

#[test]
fn specific_style_is_matched_letter_for_letter() {
    let desc = specific("Bold");
    let missing = || Err(Error::FontNotFound(specific("Bold")));
    assert_eq!(search(&desc, &["bold", "Bold Italic", ""]), (missing(), 3));
    assert_eq!(search(&desc, &[]), (missing(), 0));
}

#[test]
fn stored_font_is_found_again() {
    let mut rasterizer = rasterizer();
    let bold = described(Slant::Normal, Weight::Bold);
    let key = FontKey { token: 7 };
    assert_eq!(rasterizer.store_font(bold.clone(), key, font("bold")), Ok(key));
    assert_eq!(rasterizer.get_loaded_font(key).unwrap().face, "bold");
    assert_eq!(rasterizer.cached_key(&bold), Some(key));
    match rasterizer.load_font(&bold, SIZE) {
        LoadStep::Done(result) => assert_eq!(result, Ok(key)),
        other => panic!("unexpected step {:?}", other),
    }
    // A description that differs in any part is another one.
    for other in [
        described(Slant::Normal, Weight::Normal),
        described(Slant::Italic, Weight::Bold),
        specific("Bold"),
        FontDesc { name: String::from("consolas"), style: bold.style.clone() },
    ] {
        assert!(rasterizer.cached_key(&other).is_none());
        assert!(!bold.same(&other));
    }
    assert!(bold.same(&bold.clone()));
    assert!(specific("Bold").same(&specific("Bold")));
    assert!(!specific("Bold").same(&specific("Italic")));
}

#[test]
fn fresh_key_takes_nothing_away() {
    let mut rasterizer = rasterizer();
    let (a, b) = (specific("A"), specific("B"));
    rasterizer.store_font(a.clone(), FontKey { token: 1 }, font("a")).unwrap();
    rasterizer.store_font(b.clone(), FontKey { token: 2 }, font("b")).unwrap();
    assert_eq!(rasterizer.cached_key(&a), Some(FontKey { token: 1 }));
    assert_eq!(rasterizer.cached_key(&b), Some(FontKey { token: 2 }));
    assert_eq!(rasterizer.get_loaded_font(FontKey { token: 1 }).unwrap().face, "a");
    assert_eq!(rasterizer.get_loaded_font(FontKey { token: 2 }).unwrap().face, "b");
    // Storing by a description again replaces its key; the font stays loaded.
    rasterizer.store_font(a.clone(), FontKey { token: 3 }, font("c")).unwrap();
    assert_eq!(rasterizer.cached_key(&a), Some(FontKey { token: 3 }));
    assert_eq!(rasterizer.get_loaded_font(FontKey { token: 1 }).unwrap().face, "a");
    assert_eq!(rasterizer.get_loaded_font(FontKey { token: 3 }).unwrap().face, "c");
}

#[test]
fn loaded_fonts_are_those_that_have_keys() {
    let mut rasterizer = rasterizer();
    let names = ["A", "B", "C"];
    for (token, name) in names.iter().enumerate() {
        let desc = specific(name);
        let key = FontKey { token: token as u32 };
        // A font is stored only by a description that has no key yet.
        assert!(matches!(rasterizer.load_font(&desc, SIZE), LoadStep::FindFamily(_)));
        assert_eq!(rasterizer.store_font(desc.clone(), key, font(name)), Ok(key));

        for (other, loaded) in names.iter().enumerate() {
            let other_key = FontKey { token: other as u32 };
            let cached = rasterizer.cached_key(&specific(loaded));
            let found = rasterizer.get_loaded_font(other_key).map(|font| font.face);
            if other <= token {
                assert_eq!(cached, Some(other_key));
                assert_eq!(found, Ok(*loaded));
            } else {
                assert_eq!(cached, None);
                assert_eq!(found, Err(Error::UnknownFontKey));
            }
        }
    }
}
