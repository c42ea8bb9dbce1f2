//! The colours that wells are drawn in. Each role has one, written as `#`
//! and two hexadecimal digits each for red, green and blue; the text is read
//! by egui, whose colours the drawing code works with.
use vstd::prelude::*;
use egui::Color32;

verus! {

/// The value of a hexadecimal digit, in either case.
pub open spec fn digit(c: char) -> Option<int> {
    let code = c as u32 as int;
    if 0x30 <= code <= 0x39 {
        Some(code - 0x30)
    } else if 0x41 <= code <= 0x46 {
        Some(code - 0x41 + 10)
    } else if 0x61 <= code <= 0x66 {
        Some(code - 0x61 + 10)
    } else {
        None
    }
}

/// The text is `#` followed by six hexadecimal digits.
pub open spec fn is_rrggbb(text: Seq<char>) -> bool {
    &&& text.len() == 7
    &&& text[0] == '#'
    &&& forall|i: int| 1 <= i < 7 ==> digit(#[trigger] text[i]) is Some
}

/// The byte that two hexadecimal digits spell.
pub open spec fn byte(high: char, low: char) -> u8 {
    (digit(high)->0 * 16 + digit(low)->0) as u8
}

/// Red, green, blue and alpha of the colour that `#` and six hexadecimal
/// digits spell: two digits for each of the first three, and full opacity.
pub open spec fn rrggbb(text: Seq<char>) -> Seq<u8> {
    seq![byte(text[1], text[2]), byte(text[3], text[4]), byte(text[5], text[6]), 255u8]
}

/// Reads a colour with `egui::Color32::from_hex` and hands out its four
/// channels as `Color32::to_array` gives them, or `None` where `from_hex`
/// returns an error.
///
/// Believed, not proved: a text without a leading `#` is an error; `#` and six
/// hexadecimal digits give the colour whose red, green and blue are the bytes
/// that the digits spell, with alpha 255. Of other texts (the forms of three,
/// four and eight digits among them) nothing is claimed.
#[verifier::external_body]
pub(crate) fn parse_hex(text: &str) -> (channels: Option<[u8; 4]>)
    ensures
        text@.len() == 0 || text@[0] != '#' ==> channels is None,
        is_rrggbb(text@) ==> channels is Some && channels->0@ == rrggbb(text@),
{
    match Color32::from_hex(text) {
        Ok(color) => Some(color.to_array()),
        Err(_) => None,
    }
}

} // verus!
