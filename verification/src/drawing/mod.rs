//! The drawing: a grid of pixels, stored row by row.
//!
//! A [`Drawing`] names its size and holds its pixels in one vector, the
//! pixel at column `x` of row `y` at index `y * width + x`. A drawing that
//! was read from a file may lack its pixels, or hold the wrong number of
//! them; [`Drawing::validate`] repairs the first and reports the second.
//! Reading a pixel never fails: a place that the drawing does not have
//! yields `None`.

use vstd::prelude::*;

pub mod color;
pub mod css;

use self::color::transparent;
use self::color::Color;

verus! {

/// The side of the square drawing that [`Drawing::default`] makes.
pub const DEFAULT_SIZE: usize = 16;

/// A grid of `width` by `height` pixels.
pub struct Drawing {
    pub width: usize,
    pub height: usize,
    pub pixels: Vec<Color>,
}

/// `len` fully transparent pixels.
pub open spec fn blank_pixels(len: nat) -> Seq<Color> {
    Seq::new(len, |i: int| transparent())
}

impl Drawing {
    /// The drawing holds exactly one pixel for each place of its grid.
    pub open spec fn wf(&self) -> bool {
        self.pixels@.len() == self.width * self.height
    }

    /// The pixel at column `x` of row `y`, if the drawing has one there.
    pub open spec fn pixel_at(&self, x: int, y: int) -> Option<Color> {
        if 0 <= x < self.width && 0 <= y < self.height && y * self.width + x < self.pixels@.len() {
            Some(self.pixels@[y * self.width + x])
        } else {
            None
        }
    }

    /// What [`Drawing::resize`] leaves at column `x` of row `y`: the pixel
    /// that was there, or a transparent one where there was none.
    pub open spec fn pixel_or_blank(&self, x: int, y: int) -> Color {
        match self.pixel_at(x, y) {
            Some(color) => color,
            None => transparent(),
        }
    }

    /// The pixels that [`Drawing::validate`] leaves: a blank grid where the
    /// drawing came without pixels and its size can be held, else the
    /// pixels that it came with.
    pub open spec fn repaired_pixels(&self) -> Seq<Color> {
        if self.pixels@.len() == 0 && self.width * self.height <= usize::MAX {
            blank_pixels((self.width * self.height) as nat)
        } else {
            self.pixels@
        }
    }

    /// Whether this drawing is `from`, resized to `width` by `height`: it
    /// is well-formed, of that size, and holds at each place the pixel that
    /// `from` had there, or a transparent one where `from` had none.
    pub open spec fn is_resized(&self, from: Drawing, width: usize, height: usize) -> bool {
        &&& self.width == width
        &&& self.height == height
        &&& self.wf()
        &&& forall|x: int, y: int|
            0 <= x < width && 0 <= y < height ==> #[trigger] self.pixel_at(x, y) == Some(
                from.pixel_or_blank(x, y),
            )
    }

    /// Whether this drawing is `from`, erased: of the same size, with
    /// every pixel transparent.
    pub open spec fn is_erased(&self, from: Drawing) -> bool {
        &&& self.width == from.width
        &&& self.height == from.height
        &&& self.pixels@ == blank_pixels((from.width * from.height) as nat)
    }

    /// A well-formed drawing has a pixel at every place of its grid, and
    /// nowhere else.
    pub proof fn lemma_pixel_at_in_grid(&self, x: int, y: int)
        requires
            self.wf(),
        ensures
            self.pixel_at(x, y) is Some <==> (0 <= x < self.width && 0 <= y < self.height),
    {
        if 0 <= x < self.width && 0 <= y < self.height {
            lemma_index_in_grid(x, y, self.width as int, self.height as int);
        }
    }

    /// Resizing keeps the pixels that both grids have, and makes the new
    /// places transparent.
    pub proof fn lemma_resized_keeps_overlap(&self, from: Drawing, width: usize, height: usize)
        requires
            self.is_resized(from, width, height),
            from.wf(),
        ensures
            forall|x: int, y: int|
                0 <= x < width && x < from.width && 0 <= y < height && y < from.height
                    ==> #[trigger] self.pixel_at(x, y) == from.pixel_at(x, y),
            forall|x: int, y: int|
                0 <= x < width && x < from.width && 0 <= y < height && y < from.height
                    ==> 0 <= y * from.width + x < from.pixels@.len() && #[trigger] self.pixel_at(
                    x,
                    y,
                ) == Some(from.pixels@[y * from.width + x]),
            forall|x: int, y: int|
                0 <= x < width && 0 <= y < height && (x >= from.width || y >= from.height)
                    ==> #[trigger] self.pixel_at(x, y) == Some(transparent()),
    {
        assert forall|x: int, y: int|
            0 <= x < width && x < from.width && 0 <= y < height && y < from.height
            implies #[trigger] self.pixel_at(x, y) == from.pixel_at(x, y) by {
            from.lemma_pixel_at_in_grid(x, y);
        }
        assert forall|x: int, y: int|
            0 <= x < width && x < from.width && 0 <= y < height && y < from.height implies 0 <= y
            * from.width + x < from.pixels@.len() && #[trigger] self.pixel_at(x, y) == Some(
            from.pixels@[y * from.width + x],
        ) by {
            from.lemma_pixel_at_in_grid(x, y);
            lemma_index_in_grid(x, y, from.width as int, from.height as int);
        }
    }

    /// An erased drawing is well-formed, and transparent at every place.
    pub proof fn lemma_erased_is_blank(&self, from: Drawing)
        requires
            self.is_erased(from),
            from.width * from.height <= usize::MAX,
        ensures
            self.wf(),
            forall|x: int, y: int|
                0 <= x < self.width && 0 <= y < self.height ==> #[trigger] self.pixel_at(x, y)
                    == Some(transparent()),
    {
        assert forall|x: int, y: int| 0 <= x < self.width && 0 <= y < self.height implies #[trigger] self.pixel_at(
            x,
            y,
        ) == Some(transparent()) by {
            lemma_index_in_grid(x, y, self.width as int, self.height as int);
        }
    }

    /// A transparent drawing of the given size. Either side may be 0; the
    /// drawing then has no pixel at all.
    pub fn new(width: usize, height: usize) -> (drawing: Drawing)
        requires
            width * height <= usize::MAX,
        ensures
            drawing.width == width,
            drawing.height == height,
            drawing.pixels@ == blank_pixels((width * height) as nat),
            drawing.wf(),
    {
        let pixels = blank(width, height);
        Drawing { width, height, pixels }
    }

    /// Repairs a drawing that came without pixels, and says whether the
    /// drawing is well-formed now. On `false` nothing was changed, and the
    /// drawing is not to be used.
    pub fn validate(&mut self) -> (valid: bool)
        ensures
            final(self).width == old(self).width,
            final(self).height == old(self).height,
            final(self).pixels@ == old(self).repaired_pixels(),
            valid == final(self).wf(),
            old(self).wf() ==> valid && final(self).pixels@ == old(self).pixels@,
    {
        let held = self.pixels.len();
        match self.width.checked_mul(self.height) {
            Some(len) => {
                if held == 0 {
                    self.pixels = blank(self.width, self.height);
                }
                self.pixels.len() == len
            },
            None => false,
        }
    }

    /// The pixel at column `x` of row `y`; `None` where the drawing has
    /// none, for any `x` and `y`.
    pub fn pixel(&self, x: usize, y: usize) -> (found: Option<&Color>)
        ensures
            match found {
                Some(color) => self.pixel_at(x as int, y as int) == Some(*color),
                None => self.pixel_at(x as int, y as int) is None,
            },
            x >= self.width || y >= self.height ==> found is None,
    {
        match self.index_of(x, y) {
            Some(index) => Some(&self.pixels[index]),
            None => None,
        }
    }

    /// The pixel at column `x` of row `y`, to be written; `None` where the
    /// drawing has none, for any `x` and `y`. Writing through the result
    /// changes that one pixel and nothing else.
    pub fn pixel_mut(&mut self, x: usize, y: usize) -> (found: Option<&mut Color>)
        ensures
            match found {
                Some(color) => {
                    &&& old(self).pixel_at(x as int, y as int) == Some(*color)
                    &&& final(self).width == old(self).width
                    &&& final(self).height == old(self).height
                    &&& final(self).pixels@ == old(self).pixels@.update(
                        y * old(self).width + x,
                        *final(color),
                    )
                },
                None => {
                    &&& old(self).pixel_at(x as int, y as int) is None
                    &&& *final(self) == *old(self)
                },
            },
            x >= old(self).width || y >= old(self).height ==> found is None,
    {
        match self.index_of(x, y) {
            Some(index) => Some(&mut self.pixels[index]),
            None => None,
        }
    }

    /// Gives the drawing a new size. The pixels that both grids have stay;
    /// the new places are transparent.
    pub fn resize(&mut self, width: usize, height: usize)
        requires
            width * height <= usize::MAX,
        ensures
            final(self).is_resized(*old(self), width, height),
            old(self).wf() ==> forall|x: int, y: int|
                0 <= x < width && x < old(self).width && 0 <= y < height && y < old(self).height
                    ==> #[trigger] final(self).pixel_at(x, y) == old(self).pixel_at(x, y),
            old(self).wf() ==> forall|x: int, y: int|
                0 <= x < width && x < old(self).width && 0 <= y < height && y < old(self).height
                    ==> 0 <= y * old(self).width + x < old(self).pixels@.len()
                    && #[trigger] final(self).pixel_at(x, y) == Some(
                    old(self).pixels@[y * old(self).width + x],
                ),
            forall|x: int, y: int|
                0 <= x < width && 0 <= y < height && (x >= old(self).width || y >= old(self).height)
                    ==> #[trigger] final(self).pixel_at(x, y) == Some(transparent()),
    {
        let mut pixels: Vec<Color> = Vec::new();
        let mut y: usize = 0;
        while y < height
            invariant
                y <= height,
                width * height <= usize::MAX,
                pixels@.len() == y * width,
                forall|px: int, py: int|
                    0 <= px < width && 0 <= py < y ==> {
                        let i = #[trigger] grid_index(px, py, width as int);
                        0 <= i < y * width && pixels@[i] == self.pixel_or_blank(px, py)
                    },
            decreases height - y,
        {
            let mut x: usize = 0;
            while x < width
                invariant
                    x <= width,
                    y < height,
                    width * height <= usize::MAX,
                    pixels@.len() == y * width + x,
                    forall|px: int, py: int|
                        0 <= px < width && 0 <= py < y ==> {
                            let i = #[trigger] grid_index(px, py, width as int);
                            0 <= i < y * width && pixels@[i] == self.pixel_or_blank(px, py)
                        },
                    forall|px: int|
                        0 <= px < x ==> pixels@[#[trigger] grid_index(px, y as int, width as int)]
                            == self.pixel_or_blank(px, y as int),
                decreases width - x,
            {
                let color = match self.pixel(x, y) {
                    Some(color) => *color,
                    None => Color::from_rgba8(0, 0, 0, 0),
                };
                proof {
                    lemma_index_in_grid(x as int, y as int, width as int, height as int);
                }
                pixels.push(color);
                x += 1;
            }
            proof {
                assert(y * width + width == (y + 1) * width) by (nonlinear_arith);
                assert forall|px: int, py: int| 0 <= px < width && 0 <= py < y + 1 implies {
                    let i = #[trigger] grid_index(px, py, width as int);
                    0 <= i < (y + 1) * width && pixels@[i] == self.pixel_or_blank(px, py)
                } by {
                    lemma_index_in_grid(px, py, width as int, y + 1);
                }
            }
            y += 1;
        }
        self.width = width;
        self.height = height;
        self.pixels = pixels;
        proof {
            assert(height * width == width * height) by (nonlinear_arith);
            assert forall|x: int, y: int| 0 <= x < width && 0 <= y < height implies #[trigger] self.pixel_at(
                x,
                y,
            ) == Some(old(self).pixel_or_blank(x, y)) by {
                lemma_index_in_grid(x, y, width as int, height as int);
                assert(grid_index(x, y, width as int) == y * width + x);
            }
            if old(self).wf() {
                self.lemma_resized_keeps_overlap(*old(self), width, height);
            }
        }
    }

    /// Makes every pixel transparent. The size stays.
    pub fn erase_all(&mut self)
        requires
            old(self).width * old(self).height <= usize::MAX,
        ensures
            final(self).is_erased(*old(self)),
            final(self).wf(),
            forall|x: int, y: int|
                0 <= x < old(self).width && 0 <= y < old(self).height ==> #[trigger] final(self).pixel_at(x, y)
                    == Some(transparent()),
    {
        self.pixels = blank(self.width, self.height);
        proof {
            self.lemma_erased_is_blank(*old(self));
        }
    }

    /// Where the pixel at column `x` of row `y` lies in `pixels`.
    fn index_of(&self, x: usize, y: usize) -> (index: Option<usize>)
        ensures
            match index {
                Some(i) => {
                    &&& x < self.width
                    &&& y < self.height
                    &&& i == y * self.width + x
                    &&& i < self.pixels@.len()
                },
                None => self.pixel_at(x as int, y as int) is None,
            },
    {
        let held = self.pixels.len();
        if x >= self.width || y >= self.height {
            return None;
        }
        let row = match y.checked_mul(self.width) {
            Some(row) => row,
            None => {
                return None;
            },
        };
        match row.checked_add(x) {
            Some(index) => {
                if index < held {
                    Some(index)
                } else {
                    None
                }
            },
            None => None,
        }
    }
}

impl Default for Drawing {
    /// A transparent square drawing of [`DEFAULT_SIZE`] pixels a side.
    fn default() -> (drawing: Drawing)
        ensures
            drawing.width == DEFAULT_SIZE,
            drawing.height == DEFAULT_SIZE,
            drawing.pixels@ == blank_pixels((DEFAULT_SIZE * DEFAULT_SIZE) as nat),
            drawing.wf(),
    {
        Drawing::new(DEFAULT_SIZE, DEFAULT_SIZE)
    }
}

/// The index of the place at column `x` of row `y` in a grid of `width`
/// columns that is stored row by row.
pub open spec fn grid_index(x: int, y: int, width: int) -> int {
    y * width + x
}

/// In a grid of `width` columns and `height` rows, the place at column `x`
/// of row `y` has an index below `width * height`.
pub proof fn lemma_index_in_grid(x: int, y: int, width: int, height: int)
    requires
        0 <= x < width,
        0 <= y < height,
    ensures
        0 <= y * width + x < height * width,
        height * width == width * height,
{
    assert(0 <= y * width && y * width + width <= height * width && height * width == width
        * height) by (nonlinear_arith)
        requires
            0 <= y < height,
            0 < width,
    ;
}

/// A vector of `width * height` transparent pixels.
fn blank(width: usize, height: usize) -> (pixels: Vec<Color>)
    requires
        width * height <= usize::MAX,
    ensures
        pixels@ == blank_pixels((width * height) as nat),
{
    let pixels = vec![Color::from_rgba8(0, 0, 0, 0); width * height];
    assert(pixels@ =~= blank_pixels((width * height) as nat));
    pixels
}

} // verus!
