//! The workspace: the part of the screen that holds the canvas, centred.

use ratatui::buffer::Buffer;
use vstd::prelude::*;

use super::buffer::buffer_cells;
use super::canvas::half_blocks_fit;
use super::canvas::Canvas;
use crate::config::Config;
use crate::drawing::Drawing;
use crate::layout::Rect;

verus! {

/// `size`, held to `u16`.
pub open spec fn cells_of(size: int) -> int {
    if size > u16::MAX {
        u16::MAX as int
    } else {
        size
    }
}

/// The margin that centres `used` cells within `available` ones; none
/// where `used` is the larger.
pub open spec fn margin(available: u16, used: int) -> u16 {
    if available >= cells_of(used) {
        ((available - cells_of(used)) / 2) as u16
    } else {
        0
    }
}

/// The rectangle in which a drawing of the given size is shown when it is
/// centred in `area`: as wide as the drawing, and half as high, two rows of
/// the drawing to a cell, or one cell more where the margins do not divide
/// evenly. Where the drawing is larger than `area`, it is `area`.
pub open spec fn centred(area: Rect, width: usize, height: usize) -> Rect {
    area.shrunk(margin(area.width, width as int), margin(area.height, height as int / 2))
}

fn margin_of(available: u16, used: usize) -> (cells: u16)
    ensures
        cells == margin(available, used as int),
{
    let used: u16 = if used > u16::MAX as usize {
        u16::MAX
    } else {
        used as u16
    };
    if available >= used {
        (available - used) / 2
    } else {
        0
    }
}

/// The canvas and the space around it.
pub struct Workspace<'a> {
    pub config: &'a Config,
    pub drawing: &'a Drawing,
}

impl<'a> Workspace<'a> {
    /// The workspace that shows `drawing` as `config` says.
    pub fn new(config: &'a Config, drawing: &'a Drawing) -> (workspace: Workspace<'a>)
        ensures
            workspace.config == config,
            workspace.drawing == drawing,
    {
        Workspace { config, drawing }
    }

    /// The canvas of this workspace.
    pub open spec fn canvas(&self) -> Canvas<'a> {
        Canvas { config: self.config, drawing: self.drawing }
    }

    /// Where in `area` the canvas goes.
    pub fn canvas_area(&self, area: Rect) -> (canvas_area: Rect)
        ensures
            canvas_area == centred(area, self.drawing.width, self.drawing.height),
    {
        let margin_x = margin_of(area.width, self.drawing.width);
        let margin_y = margin_of(area.height, self.drawing.height / 2);
        area.inner(margin_x, margin_y)
    }

    /// Renders the canvas, centred in `area`, into `buf`, and records in
    /// `state` where it went. Says whether the buffer takes the half
    /// blocks; where it does not, `buf` stays as it is.
    pub fn render(self, area: Rect, buf: &mut Buffer, state: &mut Option<Rect>) -> (drawn: bool)
        requires
            self.config.transparency_grid.wf(),
        ensures
            *final(state) == Some(centred(area, self.drawing.width, self.drawing.height)),
            drawn == half_blocks_fit(),
            buffer_cells(*final(buf)).dom() == buffer_cells(*old(buf)).dom(),
            forall|x: u16, y: u16| #[trigger]
                buffer_cells(*old(buf)).dom().contains((x, y)) ==> buffer_cells(*final(buf))[(x, y)] == (
                if drawn {
                    self.canvas().shown_over(
                        centred(area, self.drawing.width, self.drawing.height),
                        x,
                        y,
                        buffer_cells(*old(buf))[(x, y)],
                    )
                } else {
                    buffer_cells(*old(buf))[(x, y)]
                }),
    {
        let canvas_area = self.canvas_area(area);
        Canvas::new(self.config, self.drawing).render(canvas_area, buf, state)
    }
}

} // verus!
