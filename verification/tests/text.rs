use directwrite::error::Error;
use directwrite::hresult::error_message;
use directwrite::locale::{locale_name, ReadingDirection, TextAnalysisSourceData};
use directwrite::text::push_hex;
use directwrite::utf16::{decode, encode};

#[test]
fn error_messages_name_the_result_code() {
    assert_eq!(error_message(0), "a DirectWrite rendering error occurred: 0");
    assert_eq!(error_message(0x1A), "a DirectWrite rendering error occurred: 1A");
    assert_eq!(error_message(i32::MAX), "a DirectWrite rendering error occurred: 7FFFFFFF");
    assert_eq!(error_message(-1), "a DirectWrite rendering error occurred: FFFFFFFF");
    assert_eq!(error_message(i32::MIN), "a DirectWrite rendering error occurred: 80000000");
    assert_eq!(
        Error::from(-2147467259),
        Error::PlatformError(String::from("a DirectWrite rendering error occurred: 80004005"))
    );
    for hr in [-2003283956, -2147024882, 15, 16, 255, 256, 0x0FFF_FFFF] {
        assert_eq!(
            error_message(hr),
            format!("a DirectWrite rendering error occurred: {:X}", hr)
        );
    }
    assert_ne!(error_message(1), error_message(-1));
}

#[test]
fn hexadecimal_digits_are_appended() {
    let mut text = String::from("x");
    push_hex(&mut text, 0x90A_BCDE);
    push_hex(&mut text, 0xF);
    assert_eq!(text, "x90ABCDEF");
}

#[test]
fn characters_in_utf16() {
    for c in ['!', 'a', '\u{0}', '\u{D7FF}', '\u{E000}', '\u{FFFF}', '\u{10000}', '\u{1F600}', '\u{10FFFF}']
    {
        let units = encode(c);
        let mut buffer = [0u16; 2];
        let expected: &[u16] = c.encode_utf16(&mut buffer);
        assert_eq!(units, expected.to_vec());
        assert_eq!(units.len(), c.len_utf16());
        assert_eq!(decode(&units, units.len()), Some(c.to_string()));
    }
}

#[test]
fn decoding_undoes_encoding() {
    let text = "en-US \u{20AC}\u{1F600}!";
    let units: Vec<u16> = text.encode_utf16().collect();
    assert_eq!(decode(&units, units.len()), Some(String::from(text)));
    assert_eq!(decode(&units, 5), Some(String::from("en-US")));
    assert_eq!(decode(&units, 0), Some(String::new()));
}

#[test]
fn lone_surrogates_are_no_text() {
    for units in [
        vec![0xD83D],
        vec![0xDE00],
        vec![0xDE00, 0xD83D],
        vec![0xD83D, 0x61],
        vec![0x61, 0xD83D, 0xD83D, 0xDE00],
        vec![0xD83D, 0xDE00, 0xDFFF],
    ] {
        assert_eq!(decode(&units, units.len()), None);
        assert!(String::from_utf16(&units).is_err());
    }
}

#[test]
fn locale_name_ends_before_the_null_unit() {
    let mut buffer = vec![0u16; 85];
    for (i, unit) in "de-CH".encode_utf16().enumerate() {
        buffer[i] = unit;
    }
    assert_eq!(locale_name(&buffer, 6), Some(String::from("de-CH")));
    assert_eq!(locale_name(&buffer, 1), Some(String::new()));
    buffer[2] = 0xDC00;
    assert_eq!(locale_name(&buffer, 6), None);
}

#[test]
fn one_locale_holds_for_the_whole_text() {
    let data = TextAnalysisSourceData { locale: "en-US", length: 2 };
    assert_eq!(data.get_locale_name(0), ("en-US", 2));
    assert_eq!(data.get_locale_name(1), ("en-US", 2));
    assert_eq!(data.get_paragraph_reading_direction(), ReadingDirection::LeftToRight);
}
