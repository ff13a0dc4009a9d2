//! Colors as CSS writes them.
//!
//! Reading and writing CSS colors is the work of the crate csscolorparser,
//! reached through the two functions at the end of this file.

use vstd::prelude::*;

use super::color::Color;

verus! {

/// The sixteen hexadecimal digits, in lower case.
pub open spec fn hex_digits() -> Seq<char> {
    seq!['0', '1', '2', '3', '4', '5', '6', '7', '8', '9', 'a', 'b', 'c', 'd', 'e', 'f']
}

/// A channel as two hexadecimal digits.
pub open spec fn hex_byte(value: u8) -> Seq<char> {
    seq![hex_digits()[value as int / 16], hex_digits()[value as int % 16]]
}

/// A color in CSS hexadecimal notation: `#rrggbb`, and `#rrggbbaa` where
/// the color is not opaque.
pub open spec fn css_hex(color: Color) -> Seq<char> {
    let opaque = seq!['#'] + hex_byte(color.r) + hex_byte(color.g) + hex_byte(color.b);
    if color.a < 255 {
        opaque + hex_byte(color.a)
    } else {
        opaque
    }
}

/// `csscolorparser::Color::to_css_hex`, of the color that
/// `csscolorparser::Color::from_rgba8` makes of the four channels. The
/// crate holds a channel as a fraction of 255 and writes it rounded to the
/// nearest of the 256 steps, which gives each channel back as it was.
#[verifier::external_body]
pub(crate) fn to_css_hex(color: Color) -> (text: String)
    ensures
        text@ == css_hex(color),
{
    csscolorparser::Color::from_rgba8(color.r, color.g, color.b, color.a).to_css_hex()
}

/// Whether the crate csscolorparser reads `text` as a color. The crate
/// decides that by the form of the text alone: a name, a hexadecimal
/// number, or a function of three or four numbers.
pub uninterp spec fn names_css_color(text: Seq<char>) -> bool;

/// `csscolorparser::Color::from_html`, with the color that it reads
/// rounded to eight bits a channel by `csscolorparser::Color::to_rgba8`;
/// `None` where the crate does not read `text` as a color. Whether it
/// reads `text` depends on the text alone, and has a name. As what color
/// it reads it is not promised: for some notations the crate computes the
/// channels with the platform's power, cosine and sine functions, whose
/// last digit is the platform's to choose. The text is to be ASCII: the
/// crate cuts a text by counting bytes from its end, and on a text with
/// longer characters it may cut within one and panic.
#[verifier::external_body]
pub(crate) fn parse_html(text: &str) -> (color: Option<Color>)
    requires
        text.is_ascii(),
    ensures
        color is Some <==> names_css_color(text@),
{
    match csscolorparser::Color::from_html(text) {
        Ok(color) => {
            let [r, g, b, a] = color.to_rgba8();
            Some(Color { r, g, b, a })
        },
        Err(_) => None,
    }
}

} // verus!
