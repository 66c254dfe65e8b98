//! The result codes of DirectWrite calls.

use vstd::prelude::*;

verus! {

/// What translating a glyph run into color layers returns when the run has
/// none: the code `0x8898_500C`, as a signed number.
pub const DWRITE_E_NOCOLOR: i32 = -2003283956;

/// Whether a result code reports success.
pub open spec fn is_success(hr: i32) -> bool {
    hr >= 0
}

/// Whether a result code reports success.
pub fn succeeded(hr: i32) -> (r: bool)
    ensures
        r == is_success(hr),
        r == (hr >= 0),
{
    hr >= 0
}

/// Whether creating a factory to decompose color glyphs gave one: the call
/// succeeded and handed one out.
pub fn color_factory_created(hr: i32, has_factory: bool) -> (r: bool)
    ensures
        r == (is_success(hr) && has_factory),
        r == (hr >= 0 && has_factory),
{
    succeeded(hr) && has_factory
}

/// A result code as an unsigned number of thirty-two bits.
pub open spec fn code(hr: i32) -> nat {
    if hr >= 0 {
        hr as nat
    } else {
        (hr + 0x1_0000_0000) as nat
    }
}

/// What an error says of the result code that caused it.
pub open spec fn message(hr: i32) -> Seq<char> {
    "a DirectWrite rendering error occurred: "@ + crate::text::hex(code(hr))
}

/// What an error says of the result code that caused it.
pub fn error_message(hr: i32) -> (text: String)
    ensures
        text@ == message(hr),
        text@ == "a DirectWrite rendering error occurred: "@ + crate::text::hex(
            if hr < 0 {
                (hr + 0x1_0000_0000) as nat
            } else {
                hr as nat
            },
        ),
{
    let mut text: String = "a DirectWrite rendering error occurred: ".to_owned();
    let bits: u32 = if hr >= 0 { hr as u32 } else { (hr as i64 + 0x1_0000_0000) as u32 };
    crate::text::push_hex(&mut text, bits);
    text
}

/// Different result codes have different messages.
pub proof fn law_message_names_the_code(a: i32, b: i32)
    requires
        message(a) == message(b),
    ensures
        a == b,
{
    let prefix = "a DirectWrite rendering error occurred: "@;
    let n = prefix.len() as int;
    assert(message(a).skip(n) =~= crate::text::hex(code(a)));
    assert(message(b).skip(n) =~= crate::text::hex(code(b)));
    crate::text::law_hex_is_injective(code(a), code(b));
}

/// A call succeeded unless its result code is negative; that there are no color
/// layers is no success.
pub proof fn law_negative_codes_are_failures(hr: i32)
    ensures
        is_success(hr) <==> 0 <= hr,
        !is_success(DWRITE_E_NOCOLOR),
        code(DWRITE_E_NOCOLOR) == 0x8898_500C,
{
}

/// A result code is shown as the unsigned number that has the same thirty-two
/// bits.
pub proof fn law_code_has_the_same_bits(hr: i32)
    ensures
        code(hr) == hr || code(hr) == hr + 0x1_0000_0000,
        0 <= code(hr) < 0x1_0000_0000,
{
}

/// The message of an error ends in the digits of its result code, behind a text
/// that is the same for all.
pub proof fn law_message_ends_in_the_code(hr: i32)
    ensures
        message(hr) == "a DirectWrite rendering error occurred: "@ + crate::text::hex(code(hr)),
{
}

} // verus!
