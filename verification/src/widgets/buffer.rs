//! The terminal's cell buffer, as far as the editor writes to it.
//!
//! The buffer is ratatui's. Verified code sees of it a map from the
//! positions that it has a cell for to what each cell shows, and reaches it
//! through the functions of this file, whose contracts are taken on trust
//! from ratatui's source.

use ratatui::buffer::Buffer;
use ratatui::layout::Position;
use ratatui::style::Style;
use vstd::prelude::*;

use crate::drawing::color::Rgb;

verus! {

#[verifier::external_type_specification]
#[verifier::external_body]
pub struct ExBuffer(Buffer);

/// The cells of a buffer, by column and row on the terminal. Of a cell the
/// map gives its symbol, and its foreground and its background color where
/// that is an RGB color (`None` for any other kind of color).
pub uninterp spec fn buffer_cells(buf: Buffer) -> Map<
    (u16, u16),
    (Seq<char>, Option<(u8, u8, u8)>, Option<(u8, u8, u8)>),
>;

/// The number of terminal columns that a text takes, as the crate
/// unicode-width counts them.
pub uninterp spec fn display_width(text: Seq<char>) -> nat;

/// Whether `c` is a control character: U+0000 to U+001F, and U+007F to
/// U+009F.
pub open spec fn is_control(c: char) -> bool {
    c as u32 <= 0x1f || 0x7f <= c as u32 <= 0x9f
}

/// Whether a buffer takes `symbol` as the symbol of one cell: it is one
/// character, no control character, and one column wide.
pub open spec fn fills_one_cell(symbol: Seq<char>) -> bool {
    symbol.len() == 1 && !is_control(symbol[0]) && display_width(symbol) == 1
}

/// The channels of an opaque color.
pub open spec fn channels(color: Rgb) -> (u8, u8, u8) {
    (color.r, color.g, color.b)
}

/// `unicode_width::UnicodeWidthStr::width`: the number of columns that
/// `text` takes on a terminal. The result is a function of the text alone.
#[verifier::external_body]
pub(crate) fn str_width(text: &str) -> (width: usize)
    ensures
        width == display_width(text@),
{
    unicode_width::UnicodeWidthStr::width(text)
}

/// `Buffer::cell`: whether the buffer has a cell at column `x` of row `y`,
/// that is, whether the position lies within the buffer's area and the
/// buffer holds content for it.
#[verifier::external_body]
pub(crate) fn has_cell(buf: &Buffer, x: u16, y: u16) -> (held: bool)
    ensures
        held == buffer_cells(*buf).dom().contains((x, y)),
{
    buf.cell(Position { x, y }).is_some()
}

/// `Buffer::set_string` with a symbol that fills one cell, at a position
/// that the buffer has a cell for. The cell takes the symbol and the
/// foreground color; it takes the background color where one is given and
/// keeps its own where none is. No other cell changes. (With another
/// symbol, or at another position, `set_string` may write to no cell or to
/// several, or panic; `requires` leaves those calls out.)
#[verifier::external_body]
pub(crate) fn set_string(
    buf: &mut Buffer,
    x: u16,
    y: u16,
    symbol: &str,
    fg: Rgb,
    bg: Option<Rgb>,
)
    requires
        buffer_cells(*old(buf)).dom().contains((x, y)),
        fills_one_cell(symbol@),
    ensures
        buffer_cells(*final(buf)) == buffer_cells(*old(buf)).insert(
            (x, y),
            (
                symbol@,
                Some(channels(fg)),
                match bg {
                    Some(color) => Some(channels(color)),
                    None => buffer_cells(*old(buf))[(x, y)].2,
                },
            ),
        ),
{
    let style = Style {
        fg: Some(ratatui::style::Color::Rgb(fg.r, fg.g, fg.b)),
        bg: bg.map(|color| ratatui::style::Color::Rgb(color.r, color.g, color.b)),
        ..Style::default()
    };
    buf.set_string(x, y, symbol, style);
}

} // verus!
