//! Errors.

use crate::font::FontDesc;
use crate::glyph::RasterizedGlyph;
use vstd::prelude::*;

verus! {

/// Why a request failed.
#[derive(Debug, PartialEq, Eq)]
pub enum Error {
    /// No font matches the description.
    FontNotFound(FontDesc),
    /// The font has no metrics for the glyph that horizontal metrics are
    /// taken from.
    MetricsNotFound,
    /// The character has no glyph. The bitmap is that of the font's missing
    /// glyph symbol.
    MissingGlyph(RasterizedGlyph),
    /// No font is loaded under the key.
    UnknownFontKey,
    /// A DirectWrite call failed.
    PlatformError(String),
}

/// An error as a mathematical value.
pub enum ErrorView {
    FontNotFound(crate::font::FontDescView),
    MetricsNotFound,
    MissingGlyph(RasterizedGlyph),
    UnknownFontKey,
    PlatformError(Seq<char>),
}

impl View for Error {
    type V = ErrorView;

    open spec fn view(&self) -> ErrorView {
        match *self {
            Error::FontNotFound(desc) => ErrorView::FontNotFound(desc@),
            Error::MetricsNotFound => ErrorView::MetricsNotFound,
            Error::MissingGlyph(glyph) => ErrorView::MissingGlyph(glyph),
            Error::UnknownFontKey => ErrorView::UnknownFontKey,
            Error::PlatformError(text) => ErrorView::PlatformError(text@),
        }
    }
}

impl ErrorView {
    /// The error that reports the result code `hr`.
    pub open spec fn of(hr: i32) -> ErrorView {
        ErrorView::PlatformError(crate::hresult::message(hr))
    }
}

impl From<i32> for Error {
    /// The error that reports the result code `hr`.
    fn from(hr: i32) -> (error: Error)
        ensures
            error@ == ErrorView::of(hr),
            error matches Error::PlatformError(text) && text@
                == "a DirectWrite rendering error occurred: "@ + crate::text::hex(
                if hr < 0 {
                    (hr + 0x1_0000_0000) as nat
                } else {
                    hr as nat
                },
            ),
    {
        Error::PlatformError(crate::hresult::error_message(hr))
    }
}

// A string is known by its characters, so no one value stands for the result:
// what a conversion returns is stated by the `ensures` of `from`.
impl vstd::std_specs::convert::FromSpecImpl<i32> for Error {
    open spec fn obeys_from_spec() -> bool {
        false
    }

    open spec fn from_spec(hr: i32) -> Error {
        arbitrary()
    }
}

/// The error of a failed call is a platform error that names the result code.
pub proof fn law_failed_call_names_its_code(hr: i32)
    ensures
        ErrorView::of(hr) == ErrorView::PlatformError(
            "a DirectWrite rendering error occurred: "@ + crate::text::hex(
                if hr < 0 {
                    (hr + 0x1_0000_0000) as nat
                } else {
                    hr as nat
                },
            ),
        ),
{
}

/// An error is known by its kind and by what it carries.
pub proof fn law_errors_are_known_by_their_parts(a: Error, b: Error)
    ensures
        a@ == b@ <==> match (a, b) {
            (Error::FontNotFound(c), Error::FontNotFound(d)) => c@ == d@,
            (Error::MetricsNotFound, Error::MetricsNotFound) => true,
            (Error::MissingGlyph(g), Error::MissingGlyph(h)) => g == h,
            (Error::UnknownFontKey, Error::UnknownFontKey) => true,
            (Error::PlatformError(s), Error::PlatformError(t)) => s@ == t@,
            _ => false,
        },
{
}

} // verus!
