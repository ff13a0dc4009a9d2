//! The canvas: the drawing as the terminal shows it.
//!
//! A character cell shows one column of two rows of the drawing. The upper
//! half block `▀` takes the cell's foreground color in its upper half and
//! leaves the background color in the lower; the lower half block `▄` does
//! the reverse. So the cell at column `c` and cell row `r` of the canvas
//! shows the pixels at `(c, 2r)` and `(c, 2r + 1)`, each laid over the
//! checkerboard's color at `(c, 2r)`. A pixel that is transparent is shown
//! like any other, and then shows the checkerboard alone. Only a place that
//! the drawing does not have is left out: the row below the last one of a
//! drawing of odd height.

use ratatui::buffer::Buffer;
use vstd::prelude::*;

use super::buffer::buffer_cells;
use super::buffer::channels;
use super::buffer::display_width;
use super::buffer::fills_one_cell;
use super::buffer::has_cell;
use super::buffer::set_string;
use super::buffer::str_width;
use crate::config::transparency_grid::TransparencyGrid;
use crate::config::Config;
use crate::drawing::color::blend_over_rgb;
use crate::drawing::color::ColorExt;
use crate::drawing::color::Rgb;
use crate::drawing::Drawing;
use crate::layout::Rect;

verus! {

/// The symbol whose upper half takes the foreground color.
pub const UPPER_HALF_BLOCK: &'static str = "\u{2580}";

/// The symbol whose lower half takes the foreground color.
pub const LOWER_HALF_BLOCK: &'static str = "\u{2584}";

/// The half of a cell that a half block fills with the foreground color.
#[derive(Clone, Copy, Debug, PartialEq, Eq, Structural, Hash)]
pub enum HalfBlock {
    Upper,
    Lower,
}

/// What a cell of the canvas shows.
#[derive(Clone, Copy, Debug, PartialEq, Eq, Structural, Hash)]
pub struct Glyph {
    pub block: HalfBlock,
    /// The color of the half that the block fills.
    pub fg: Rgb,
    /// The color of the other half; `None` leaves the cell's own.
    pub bg: Option<Rgb>,
}

impl HalfBlock {
    /// The half block as text.
    pub open spec fn text(&self) -> Seq<char> {
        match self {
            HalfBlock::Upper => UPPER_HALF_BLOCK@,
            HalfBlock::Lower => LOWER_HALF_BLOCK@,
        }
    }

    /// The half block as text.
    pub fn symbol(&self) -> (symbol: &'static str)
        ensures
            symbol@ == self.text(),
    {
        match self {
            HalfBlock::Upper => UPPER_HALF_BLOCK,
            HalfBlock::Lower => LOWER_HALF_BLOCK,
        }
    }
}

/// The opaque color that stands behind a pixel: the checkerboard's color,
/// its alpha left aside.
pub open spec fn backdrop(grid: TransparencyGrid, x: int, y: int) -> Rgb {
    let color = grid.board_at(x, y);
    Rgb { r: color.r, g: color.g, b: color.b }
}

/// What the cell at column `c` and cell row `r` of the canvas shows of
/// `drawing`; `None` where the drawing has neither of the cell's pixels.
pub open spec fn composed(drawing: Drawing, grid: TransparencyGrid, c: int, r: int) -> Option<
    Glyph,
> {
    let behind = backdrop(grid, c, 2 * r);
    match (drawing.pixel_at(c, 2 * r), drawing.pixel_at(c, 2 * r + 1)) {
        (None, None) => None,
        (None, Some(lower)) => Some(
            Glyph { block: HalfBlock::Lower, fg: blend_over_rgb(lower, behind), bg: None },
        ),
        (Some(upper), None) => Some(
            Glyph { block: HalfBlock::Upper, fg: blend_over_rgb(upper, behind), bg: None },
        ),
        (Some(upper), Some(lower)) => Some(
            Glyph {
                block: HalfBlock::Upper,
                fg: blend_over_rgb(upper, behind),
                bg: Some(blend_over_rgb(lower, behind)),
            },
        ),
    }
}

/// Of a well-formed drawing the canvas has a glyph for exactly the cells
/// that hold a row of the drawing. The glyph is an upper half block; it
/// names the color of the lower half too, but for the last cell row of a
/// drawing of odd height, which has no lower pixel.
pub proof fn lemma_composed_in_grid(drawing: Drawing, grid: TransparencyGrid, c: int, r: int)
    requires
        drawing.wf(),
    ensures
        composed(drawing, grid, c, r) is Some <==> 0 <= c < drawing.width && 0 <= 2 * r
            < drawing.height,
        composed(drawing, grid, c, r) matches Some(glyph) ==> glyph.block == HalfBlock::Upper && (
        glyph.bg is None <==> 2 * r + 1 == drawing.height),
{
    drawing.lemma_pixel_at_in_grid(c, 2 * r);
    drawing.lemma_pixel_at_in_grid(c, 2 * r + 1);
}

/// A cell of the buffer after `glyph` was written to it.
pub open spec fn painted(
    cell: (Seq<char>, Option<(u8, u8, u8)>, Option<(u8, u8, u8)>),
    glyph: Glyph,
) -> (Seq<char>, Option<(u8, u8, u8)>, Option<(u8, u8, u8)>) {
    (
        glyph.block.text(),
        Some(channels(glyph.fg)),
        match glyph.bg {
            Some(color) => Some(channels(color)),
            None => cell.2,
        },
    )
}

/// Whether a buffer takes each of the two half blocks as the symbol of one
/// cell.
pub open spec fn half_blocks_fit() -> bool {
    fills_one_cell(UPPER_HALF_BLOCK@) && fills_one_cell(LOWER_HALF_BLOCK@)
}

/// The drawing, to be shown on the terminal.
pub struct Canvas<'a> {
    pub config: &'a Config,
    pub drawing: &'a Drawing,
}

impl<'a> Canvas<'a> {
    /// The canvas that shows `drawing` as `config` says.
    pub fn new(config: &'a Config, drawing: &'a Drawing) -> (canvas: Canvas<'a>)
        ensures
            canvas.config == config,
            canvas.drawing == drawing,
    {
        Canvas { config, drawing }
    }

    /// What the canvas shows at column `x` of row `y` of the terminal, when
    /// its top left corner is that of `area`.
    pub open spec fn glyph_over(&self, area: Rect, x: u16, y: u16) -> Option<Glyph> {
        if x >= area.x && y >= area.y {
            composed(*self.drawing, self.config.transparency_grid, x - area.x, y - area.y)
        } else {
            None
        }
    }

    /// The cell at column `x` of row `y` of the terminal after the canvas
    /// was rendered at `area`, where it was `cell` before.
    pub open spec fn shown_over(
        &self,
        area: Rect,
        x: u16,
        y: u16,
        cell: (Seq<char>, Option<(u8, u8, u8)>, Option<(u8, u8, u8)>),
    ) -> (Seq<char>, Option<(u8, u8, u8)>, Option<(u8, u8, u8)>) {
        match self.glyph_over(area, x, y) {
            Some(glyph) => painted(cell, glyph),
            None => cell,
        }
    }

    /// What the cell at column `c` and cell row `r` of the canvas shows;
    /// `None` where the drawing has neither of the cell's pixels.
    pub fn glyph(&self, c: usize, r: usize) -> (glyph: Option<Glyph>)
        requires
            self.config.transparency_grid.wf(),
        ensures
            glyph == composed(*self.drawing, self.config.transparency_grid, c as int, r as int),
    {
        if r > usize::MAX / 2 {
            return None;
        }
        let top = 2 * r;
        let behind = self.config.transparency_grid.color_at(c, top).rgb();
        let upper = self.drawing.pixel(c, top);
        let lower = if top < usize::MAX {
            self.drawing.pixel(c, top + 1)
        } else {
            None
        };
        match (upper, lower) {
            (None, None) => None,
            (None, Some(lower)) => Some(
                Glyph { block: HalfBlock::Lower, fg: lower.to_ratatui(behind), bg: None },
            ),
            (Some(upper), None) => Some(
                Glyph { block: HalfBlock::Upper, fg: upper.to_ratatui(behind), bg: None },
            ),
            (Some(upper), Some(lower)) => Some(
                Glyph {
                    block: HalfBlock::Upper,
                    fg: upper.to_ratatui(behind),
                    bg: Some(lower.to_ratatui(behind)),
                },
            ),
        }
    }

    /// Writes the canvas into `buf` with its top left corner at that of
    /// `area`, and records `area` in `state`. Each cell that the canvas has
    /// a glyph for, and the buffer a cell, takes the glyph; every other
    /// cell stays as it is.
    pub fn render_glyphs(self, area: Rect, buf: &mut Buffer, state: &mut Option<Rect>)
        requires
            self.config.transparency_grid.wf(),
            half_blocks_fit(),
        ensures
            *final(state) == Some(area),
            buffer_cells(*final(buf)).dom() == buffer_cells(*old(buf)).dom(),
            forall|x: u16, y: u16| #[trigger]
                buffer_cells(*old(buf)).dom().contains((x, y)) ==> buffer_cells(*final(buf))[(x, y)]
                    == self.shown_over(area, x, y, buffer_cells(*old(buf))[(x, y)]),
    {
        *state = Some(area);
        let height = self.drawing.height;
        let width = self.drawing.width;
        let cell_rows = height / 2 + height % 2;
        let rows_left: usize = (u16::MAX - area.y) as usize + 1;
        let columns_left: usize = (u16::MAX - area.x) as usize + 1;
        let rows = if cell_rows < rows_left {
            cell_rows
        } else {
            rows_left
        };
        let columns = if width < columns_left {
            width
        } else {
            columns_left
        };
        let mut r: usize = 0;
        while r < rows
            invariant
                r <= rows,
                rows <= u16::MAX - area.y + 1,
                columns <= u16::MAX - area.x + 1,
                rows == cell_rows || rows == u16::MAX - area.y + 1,
                columns == width || columns == u16::MAX - area.x + 1,
                columns <= width,
                width == self.drawing.width,
                2 * cell_rows >= self.drawing.height,
                self.config.transparency_grid.wf(),
                half_blocks_fit(),
                buffer_cells(*buf).dom() == buffer_cells(*old(buf)).dom(),
                forall|x: u16, y: u16| #[trigger]
                    buffer_cells(*old(buf)).dom().contains((x, y)) ==> buffer_cells(*buf)[(x, y)] == (
                    if y >= area.y && y - area.y < r {
                        self.shown_over(area, x, y, buffer_cells(*old(buf))[(x, y)])
                    } else {
                        buffer_cells(*old(buf))[(x, y)]
                    }),
            decreases rows - r,
        {
            let y: u16 = area.y + r as u16;
            let mut c: usize = 0;
            while c < columns
                invariant
                    c <= columns,
                    r < rows,
                    y == area.y + r,
                    rows <= u16::MAX - area.y + 1,
                    columns <= u16::MAX - area.x + 1,
                    columns <= width,
                    width == self.drawing.width,
                    self.config.transparency_grid.wf(),
                    half_blocks_fit(),
                    buffer_cells(*buf).dom() == buffer_cells(*old(buf)).dom(),
                    forall|x: u16, y: u16| #[trigger]
                        buffer_cells(*old(buf)).dom().contains((x, y)) ==> buffer_cells(*buf)[(x, y)] == (
                        if y >= area.y && (y - area.y < r || (y - area.y == r && x >= area.x && x - area.x
                            < c)) {
                            self.shown_over(area, x, y, buffer_cells(*old(buf))[(x, y)])
                        } else {
                            buffer_cells(*old(buf))[(x, y)]
                        }),
                decreases columns - c,
            {
                let x: u16 = area.x + c as u16;
                match self.glyph(c, r) {
                    Some(glyph) => {
                        if has_cell(buf, x, y) {
                            set_string(buf, x, y, glyph.block.symbol(), glyph.fg, glyph.bg);
                        }
                    },
                    None => {},
                }
                c += 1;
            }
            r += 1;
        }
    }

    /// Writes the canvas into `buf` as [`Canvas::render_glyphs`] does, where
    /// the buffer takes each half block as the symbol of one cell, and
    /// says whether it does. Where it does not, `buf` stays as it is. Either
    /// way `area` is recorded in `state`.
    pub fn render(self, area: Rect, buf: &mut Buffer, state: &mut Option<Rect>) -> (drawn: bool)
        requires
            self.config.transparency_grid.wf(),
        ensures
            *final(state) == Some(area),
            drawn == half_blocks_fit(),
            buffer_cells(*final(buf)).dom() == buffer_cells(*old(buf)).dom(),
            forall|x: u16, y: u16| #[trigger]
                buffer_cells(*old(buf)).dom().contains((x, y)) ==> buffer_cells(*final(buf))[(x, y)] == (
                if drawn {
                    self.shown_over(area, x, y, buffer_cells(*old(buf))[(x, y)])
                } else {
                    buffer_cells(*old(buf))[(x, y)]
                }),
    {
        proof {
            lemma_half_blocks_are_symbols();
        }
        if str_width(UPPER_HALF_BLOCK) == 1 && str_width(LOWER_HALF_BLOCK) == 1 {
            self.render_glyphs(area, buf, state);
            true
        } else {
            *state = Some(area);
            false
        }
    }
}

/// Each half block is one character, and no control character.
pub proof fn lemma_half_blocks_are_symbols()
    ensures
        UPPER_HALF_BLOCK@ == seq!['\u{2580}'],
        LOWER_HALF_BLOCK@ == seq!['\u{2584}'],
        half_blocks_fit() <==> display_width(UPPER_HALF_BLOCK@) == 1 && display_width(
            LOWER_HALF_BLOCK@,
        ) == 1,
{
    reveal_strlit("\u{2580}");
    reveal_strlit("\u{2584}");
    assert(UPPER_HALF_BLOCK@ =~= seq!['\u{2580}']);
    assert(LOWER_HALF_BLOCK@ =~= seq!['\u{2584}']);
}

} // verus!
