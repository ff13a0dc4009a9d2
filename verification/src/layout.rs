//! Places on the terminal: rectangles of character cells, the size of the
//! window in cells and in hardware pixels, and the way from a mouse
//! position to a pixel of the drawing.
//!
//! Three units meet here. The terminal reports the mouse in hardware
//! pixels. A canvas occupies a rectangle of character cells. A cell shows
//! one column of the drawing and two of its rows, one above the other.

use vstd::prelude::*;

verus! {

/// A rectangle of character cells.
#[derive(Clone, Copy, Debug, PartialEq, Eq, Structural, Hash)]
pub struct Rect {
    /// The column of the left edge.
    pub x: u16,
    /// The row of the top edge.
    pub y: u16,
    pub width: u16,
    pub height: u16,
}

/// The size of the terminal window, in cells and in hardware pixels.
/// A terminal that does not tell its size in pixels reports 0 for both.
#[derive(Clone, Copy, Debug, PartialEq, Eq, Structural, Hash)]
pub struct WindowSize {
    /// The number of cell rows.
    pub rows: u16,
    /// The number of cell columns.
    pub columns: u16,
    /// The width in pixels.
    pub width: u16,
    /// The height in pixels.
    pub height: u16,
}

impl Rect {
    /// The first column to the right of the rectangle, held to `u16`.
    pub open spec fn right(&self) -> int {
        if self.x + self.width > u16::MAX {
            u16::MAX as int
        } else {
            self.x + self.width
        }
    }

    /// The first row below the rectangle, held to `u16`.
    pub open spec fn bottom(&self) -> int {
        if self.y + self.height > u16::MAX {
            u16::MAX as int
        } else {
            self.y + self.height
        }
    }

    /// Whether the cell at column `x` of row `y` lies in the rectangle.
    pub open spec fn holds(&self, x: int, y: int) -> bool {
        self.x <= x < self.right() && self.y <= y < self.bottom()
    }

    /// The rectangle that is left when `horizontal` columns are taken from
    /// the left and from the right and `vertical` rows from the top and
    /// from the bottom; the empty rectangle at the origin where that is
    /// more than the rectangle has.
    pub open spec fn shrunk(&self, horizontal: u16, vertical: u16) -> Rect {
        let across = if 2 * horizontal > u16::MAX {
            u16::MAX as int
        } else {
            2 * horizontal
        };
        let down = if 2 * vertical > u16::MAX {
            u16::MAX as int
        } else {
            2 * vertical
        };
        if self.width < across || self.height < down {
            Rect { x: 0, y: 0, width: 0, height: 0 }
        } else {
            Rect {
                x: (if self.x + horizontal > u16::MAX {
                    u16::MAX as int
                } else {
                    self.x + horizontal
                }) as u16,
                y: (if self.y + vertical > u16::MAX {
                    u16::MAX as int
                } else {
                    self.y + vertical
                }) as u16,
                width: (self.width - across) as u16,
                height: (self.height - down) as u16,
            }
        }
    }

    /// The rectangle with the given corner and size.
    pub fn new(x: u16, y: u16, width: u16, height: u16) -> (rect: Rect)
        ensures
            rect == (Rect { x, y, width, height }),
    {
        Rect { x, y, width, height }
    }

    /// Whether the cell at column `x` of row `y` lies in the rectangle.
    pub fn contains(&self, x: u16, y: u16) -> (inside: bool)
        ensures
            inside == self.holds(x as int, y as int),
    {
        x >= self.x && x < self.x.saturating_add(self.width) && y >= self.y && y
            < self.y.saturating_add(self.height)
    }

    /// The rectangle without a margin of `horizontal` columns at either
    /// side and `vertical` rows at top and bottom.
    pub fn inner(&self, horizontal: u16, vertical: u16) -> (rect: Rect)
        ensures
            rect == self.shrunk(horizontal, vertical),
    {
        let across = if horizontal > u16::MAX / 2 {
            u16::MAX
        } else {
            2 * horizontal
        };
        let down = if vertical > u16::MAX / 2 {
            u16::MAX
        } else {
            2 * vertical
        };
        if self.width < across || self.height < down {
            Rect { x: 0, y: 0, width: 0, height: 0 }
        } else {
            Rect {
                x: self.x.saturating_add(horizontal),
                y: self.y.saturating_add(vertical),
                width: self.width - across,
                height: self.height - down,
            }
        }
    }
}

impl WindowSize {
    /// The width and the height of one cell in hardware pixels, where the
    /// window's size tells them: it has cells, a cell is at least one pixel
    /// wide, and at least two pixels high, one for each of its two drawing
    /// rows.
    pub open spec fn cell_size(&self) -> Option<(int, int)> {
        if self.columns == 0 || self.rows == 0 {
            None
        } else if self.width / self.columns == 0 || self.height / self.rows < 2 {
            None
        } else {
            Some(((self.width / self.columns) as int, (self.height / self.rows) as int))
        }
    }
}

/// The pixel of the drawing under the mouse, as column and row counted
/// from the canvas's top left corner; `None` where the window's size does
/// not tell the size of a cell, and where the mouse is outside the canvas.
///
/// The mouse is at `(x, y)` in hardware pixels. The cell under it is
/// `(x / cell_width, y / cell_height)`. The column is that cell's column
/// in the canvas. The row is the mouse's distance in pixels from the
/// canvas's top edge, divided by half the height of a cell.
pub open spec fn pixel_under(window_size: WindowSize, canvas_area: Rect, x: u16, y: u16) -> Option<
    (u16, u16),
> {
    match window_size.cell_size() {
        None => None,
        Some((cell_width, cell_height)) => {
            if canvas_area.holds(x as int / cell_width, y as int / cell_height) {
                Some(
                    (
                        (x as int / cell_width - canvas_area.x) as u16,
                        ((y - canvas_area.y * cell_height) / (cell_height / 2)) as u16,
                    ),
                )
            } else {
                None
            }
        },
    }
}

/// Within the canvas the column lies below the canvas's width.
pub proof fn lemma_pixel_under_column(window_size: WindowSize, canvas_area: Rect, x: u16, y: u16)
    requires
        pixel_under(window_size, canvas_area, x, y) is Some,
    ensures
        pixel_under(window_size, canvas_area, x, y).unwrap().0 < canvas_area.width,
{
}

/// Where a cell is an even number of pixels high, the row is twice the
/// cell's row in the canvas, plus one where the mouse is in the lower half
/// of the cell. So it lies below twice the canvas's height.
pub proof fn lemma_pixel_under_row(window_size: WindowSize, canvas_area: Rect, x: u16, y: u16)
    requires
        pixel_under(window_size, canvas_area, x, y) is Some,
        window_size.cell_size().unwrap().1 % 2 == 0,
    ensures
        ({
            let cell_height = window_size.cell_size().unwrap().1;
            let cell_row = y as int / cell_height - canvas_area.y;
            let lower = (y as int % cell_height) >= cell_height / 2;
            pixel_under(window_size, canvas_area, x, y).unwrap().1 == 2 * cell_row + (if lower {
                1int
            } else {
                0int
            })
        }),
        pixel_under(window_size, canvas_area, x, y).unwrap().1 < 2 * canvas_area.height,
{
    let cell_height = window_size.cell_size().unwrap().1;
    let half = cell_height / 2;
    let cell_row = y as int / cell_height - canvas_area.y;
    let rest = y as int % cell_height;
    lemma_offset_in_canvas(y as int, canvas_area.y as int, cell_height);
    assert(y - canvas_area.y * cell_height == cell_row * cell_height + rest);
    assert(cell_height == 2 * half);
    assert((cell_row * cell_height + rest) / half == 2 * cell_row + rest / half && 0 <= rest / half
        <= 1 && (rest / half == 1 <==> rest >= half)) by (nonlinear_arith)
        requires
            cell_height == 2 * half,
            half > 0,
            0 <= rest < cell_height,
            0 <= cell_row,
    ;
}

/// The mouse's distance in pixels from the top edge of a canvas whose
/// first row is `top`, where the mouse is in row `y / cell_height` at or
/// below `top`: whole cells, and the rest within the cell.
pub proof fn lemma_offset_in_canvas(y: int, top: int, cell_height: int)
    requires
        0 <= y,
        0 <= top <= y / cell_height,
        cell_height > 0,
    ensures
        y - top * cell_height == (y / cell_height - top) * cell_height + y % cell_height,
        0 <= top * cell_height <= y,
        0 <= y % cell_height < cell_height,
{
    assert(y == (y / cell_height) * cell_height + y % cell_height && 0 <= y % cell_height
        < cell_height) by (nonlinear_arith)
        requires
            cell_height > 0,
    ;
    assert((y / cell_height - top) * cell_height == (y / cell_height) * cell_height - top
        * cell_height && 0 <= top * cell_height <= (y / cell_height) * cell_height)
        by (nonlinear_arith)
        requires
            0 <= top <= y / cell_height,
            cell_height > 0,
    ;
}

/// The pixel of the drawing under the mouse at `(x, y)`, in hardware
/// pixels; `None` where the mouse is outside the canvas, and where the
/// window's size does not tell the size of a cell.
pub fn viewport_to_canvas(window_size: &WindowSize, canvas_area: &Rect, x: u16, y: u16) -> (found:
    Option<(u16, u16)>)
    ensures
        found == pixel_under(*window_size, *canvas_area, x, y),
{
    if window_size.columns == 0 || window_size.rows == 0 {
        return None;
    }
    let cell_width = window_size.width / window_size.columns;
    let cell_height = window_size.height / window_size.rows;
    if cell_width == 0 || cell_height < 2 {
        return None;
    }
    let cell_x = x / cell_width;
    let cell_y = y / cell_height;
    if !canvas_area.contains(cell_x, cell_y) {
        return None;
    }
    proof {
        lemma_offset_in_canvas(y as int, canvas_area.y as int, cell_height as int);
    }
    let x_pixel = cell_x - canvas_area.x;
    let y_pixel = (y - canvas_area.y * cell_height) / (cell_height / 2);
    Some((x_pixel, y_pixel))
}

} // verus!
