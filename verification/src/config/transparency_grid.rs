//! The checkerboard that shows through pixels that are not opaque.

use vstd::prelude::*;
use vstd::arithmetic::div_mod::lemma_div_plus_one;

use crate::drawing::color::Color;

verus! {

/// How transparency is shown: squares of `size` by `size` drawing pixels,
/// by turns dark and light.
pub struct TransparencyGrid {
    /// The side of one square, in drawing pixels.
    pub size: u16,
    /// The color of the darker squares.
    pub dark: Color,
    /// The color of the lighter squares.
    pub light: Color,
}

impl TransparencyGrid {
    /// The squares have a size.
    pub open spec fn wf(&self) -> bool {
        self.size > 0
    }

    /// Whether the square that holds the pixel at column `x` of row `y` is
    /// a dark one. The square in the top left corner is dark.
    pub open spec fn is_dark_at(&self, x: int, y: int) -> bool {
        (x / (self.size as int) + y / (self.size as int)) % 2 == 0
    }

    /// The checkerboard's color behind the pixel at column `x` of row `y`.
    pub open spec fn board_at(&self, x: int, y: int) -> Color {
        if self.is_dark_at(x, y) {
            self.dark
        } else {
            self.light
        }
    }

    /// The checkerboard that the editor starts with: squares of eight
    /// pixels in two light grays.
    pub open spec fn is_initial(&self) -> bool {
        &&& self.size == 8
        &&& self.dark == (Color { r: 217, g: 217, b: 217, a: 255 })
        &&& self.light == (Color { r: 240, g: 240, b: 240, a: 255 })
    }

    /// One square further, to the right or down, the checkerboard has its
    /// other color.
    pub proof fn lemma_squares_alternate(&self, x: int, y: int)
        requires
            self.wf(),
            0 <= x,
            0 <= y,
        ensures
            self.is_dark_at(x + self.size, y) == !self.is_dark_at(x, y),
            self.is_dark_at(x, y + self.size) == !self.is_dark_at(x, y),
    {
        lemma_div_plus_one(x, self.size as int);
        lemma_div_plus_one(y, self.size as int);
    }

    /// The checkerboard's color behind the pixel at column `x` of row `y`.
    pub fn color_at(&self, x: usize, y: usize) -> (color: Color)
        requires
            self.wf(),
        ensures
            color == self.board_at(x as int, y as int),
    {
        let size = self.size as usize;
        let column = x / size;
        let row = y / size;
        if column % 2 == row % 2 {
            self.dark
        } else {
            self.light
        }
    }
}

impl Default for TransparencyGrid {
    /// Squares of eight pixels in two light grays.
    fn default() -> (grid: TransparencyGrid)
        ensures
            grid.is_initial(),
            grid.wf(),
    {
        TransparencyGrid {
            size: 8,
            dark: Color::from_rgba8(217, 217, 217, 255),
            light: Color::from_rgba8(240, 240, 240, 255),
        }
    }
}

} // verus!
