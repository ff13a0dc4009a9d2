//! What the editor is set to: the current color, the colors used before
//! it, how transparency is shown, and the mode.

use std::collections::VecDeque;
use vstd::prelude::*;

pub mod mode;
pub mod transparency_grid;

use self::mode::Mode;
use self::transparency_grid::TransparencyGrid;
use crate::drawing::color::Color;
use crate::drawing::css::parse_html;

verus! {

/// The number of colors that the history holds at most.
pub const HISTORY_LIMIT: usize = 10;

/// The settings of a session.
pub struct Config {
    /// The color that the primary button paints.
    pub color: Color,
    /// The colors that were current before, oldest first, none twice.
    pub color_history: VecDeque<Color>,
    pub transparency_grid: TransparencyGrid,
    pub mode: Mode,
}

/// The history after `displaced` stopped being the current color: it goes
/// to the back unless the history holds it already, and the oldest color
/// leaves where that makes more than [`HISTORY_LIMIT`].
pub open spec fn remembered(history: Seq<Color>, displaced: Color) -> Seq<Color> {
    let pushed = if history.contains(displaced) {
        history
    } else {
        history.push(displaced)
    };
    if pushed.len() > HISTORY_LIMIT {
        pushed.drop_first()
    } else {
        pushed
    }
}

/// The color `reverse_index` places before the newest of `history`.
pub open spec fn recalled(history: Seq<Color>, reverse_index: int) -> Option<Color> {
    if 0 <= reverse_index < history.len() {
        Some(history[history.len() - 1 - reverse_index])
    } else {
        None
    }
}

/// The history that the editor starts with: white, red, green, blue,
/// cyan and yellow.
pub open spec fn initial_history() -> Seq<Color> {
    seq![
        Color { r: 255, g: 255, b: 255, a: 255 },
        Color { r: 255, g: 0, b: 0, a: 255 },
        Color { r: 0, g: 255, b: 0, a: 255 },
        Color { r: 0, g: 0, b: 255, a: 255 },
        Color { r: 0, g: 255, b: 255, a: 255 },
        Color { r: 255, g: 255, b: 0, a: 255 },
    ]
}

/// A history as the editor keeps it: short, and without repetition.
pub open spec fn history_wf(history: Seq<Color>) -> bool {
    history.len() <= HISTORY_LIMIT && history.no_duplicates()
}

/// The three things that can happen to a history: a color that it holds
/// already leaves it as it is; a new color goes to the back; and where
/// the history is full, the oldest color leaves to make room.
pub proof fn lemma_remembered_cases(history: Seq<Color>, displaced: Color)
    requires
        history.len() <= HISTORY_LIMIT,
    ensures
        history.contains(displaced) ==> remembered(history, displaced) == history,
        !history.contains(displaced) && history.len() < HISTORY_LIMIT ==> remembered(
            history,
            displaced,
        ) == history.push(displaced),
        !history.contains(displaced) && history.len() == HISTORY_LIMIT ==> remembered(
            history,
            displaced,
        ) == history.drop_first().push(displaced),
{
    if !history.contains(displaced) && history.len() == HISTORY_LIMIT {
        assert(history.push(displaced).drop_first() =~= history.drop_first().push(displaced));
    }
}

/// A history that is kept well stays so, whatever color is displaced.
pub proof fn lemma_remembered_wf(history: Seq<Color>, displaced: Color)
    requires
        history_wf(history),
    ensures
        history_wf(remembered(history, displaced)),
        remembered(history, displaced).contains(displaced) || history.len() == HISTORY_LIMIT,
{
    let pushed = if history.contains(displaced) {
        history
    } else {
        history.push(displaced)
    };
    assert(pushed.no_duplicates());
    if pushed.len() > HISTORY_LIMIT {
        let kept = pushed.drop_first();
        assert forall|i: int, j: int| 0 <= i < kept.len() && 0 <= j < kept.len() && i != j implies kept[i]
            != kept[j] by {
            assert(kept[i] == pushed[i + 1] && kept[j] == pushed[j + 1]);
        }
    } else {
        if !history.contains(displaced) {
            assert(pushed[history.len() as int] == displaced);
        }
    }
}

impl Config {
    /// The history is short and without repetition, and the checkerboard's
    /// squares have a size.
    pub open spec fn wf(&self) -> bool {
        history_wf(self.color_history@) && self.transparency_grid.wf()
    }

    /// The settings that the editor starts with: black as the current
    /// color, six colors in the history, the usual checkerboard, normal
    /// mode.
    pub open spec fn is_initial(&self) -> bool {
        &&& self.color == (Color { r: 0, g: 0, b: 0, a: 255 })
        &&& self.color_history@ == initial_history()
        &&& self.transparency_grid.is_initial()
        &&& self.mode is Normal
    }

    /// Whether this is `from` after `color` was made its current color:
    /// the color that was current went into the history, and nothing else
    /// changed.
    pub open spec fn is_set_color(&self, from: Config, color: Color) -> bool {
        &&& self.color == color
        &&& self.color_history@ == remembered(from.color_history@, from.color)
        &&& self.transparency_grid == from.transparency_grid
        &&& self.mode == from.mode
    }

    /// Makes `color` the current color. The color that was current goes
    /// into the history, also where `color` is that same color.
    pub fn set_color(&mut self, color: Color)
        ensures
            final(self).is_set_color(*old(self), color),
            old(self).wf() ==> final(self).wf(),
    {
        proof {
            if self.wf() {
                lemma_remembered_wf(self.color_history@, self.color);
            }
        }
        let old_color = self.color;
        self.color = color;
        if !self.in_history(old_color) {
            self.color_history.push_back(old_color);
        }
        if self.color_history.len() > HISTORY_LIMIT {
            let dropped = self.color_history.pop_front();
            assert(self.color_history@ =~= remembered(old(self).color_history@, old(self).color));
        }
    }

    /// Makes `parsed` the current color, where there is one, and says
    /// whether there was.
    pub fn apply_parsed_color(&mut self, parsed: Option<Color>) -> (changed: bool)
        ensures
            changed == parsed is Some,
            match parsed {
                Some(color) => final(self).is_set_color(*old(self), color),
                None => *final(self) == *old(self),
            },
            old(self).wf() ==> final(self).wf(),
    {
        match parsed {
            Some(color) => {
                self.set_color(color);
                true
            },
            None => false,
        }
    }

    /// Makes the color that `text` names in the notation of CSS the
    /// current color, and says whether `text` named one. A text that names
    /// none changes nothing. Only ASCII text names a color.
    pub fn set_current_color(&mut self, text: &str) -> (changed: bool)
        ensures
            changed == (text.is_ascii() && crate::drawing::css::names_css_color(text@)),
            changed ==> exists|color: Color| final(self).is_set_color(*old(self), color),
            !changed ==> *final(self) == *old(self),
            old(self).wf() ==> final(self).wf(),
    {
        if !text.is_ascii() {
            return false;
        }
        let parsed = parse_html(text);
        self.apply_parsed_color(parsed)
    }

    /// The color that was displaced `reverse_index` changes before the
    /// last: 0 is the color that was current just before this one. `None`
    /// where the history does not reach that far.
    pub fn recall(&self, reverse_index: usize) -> (found: Option<Color>)
        ensures
            found == recalled(self.color_history@, reverse_index as int),
    {
        let len = self.color_history.len();
        if reverse_index < len {
            Some(self.color_history[len - 1 - reverse_index])
        } else {
            None
        }
    }

    /// Whether the history holds `color`.
    pub fn in_history(&self, color: Color) -> (held: bool)
        ensures
            held == self.color_history@.contains(color),
    {
        let len = self.color_history.len();
        let mut i: usize = 0;
        while i < len
            invariant
                i <= len,
                len == self.color_history@.len(),
                forall|j: int| 0 <= j < i ==> self.color_history@[j] != color,
            decreases len - i,
        {
            if self.color_history[i] == color {
                return true;
            }
            i += 1;
        }
        false
    }
}

impl Default for Config {
    /// Black as the current color, six colors to start the history, the
    /// usual checkerboard, normal mode.
    fn default() -> (config: Config)
        ensures
            config.is_initial(),
            config.wf(),
    {
        let mut history: VecDeque<Color> = VecDeque::new();
        history.push_back(Color::from_rgba8(255, 255, 255, 255));
        history.push_back(Color::from_rgba8(255, 0, 0, 255));
        history.push_back(Color::from_rgba8(0, 255, 0, 255));
        history.push_back(Color::from_rgba8(0, 0, 255, 255));
        history.push_back(Color::from_rgba8(0, 255, 255, 255));
        history.push_back(Color::from_rgba8(255, 255, 0, 255));
        assert(history@ =~= initial_history());
        Config {
            color: Color::from_rgba8(0, 0, 0, 255),
            color_history: history,
            transparency_grid: TransparencyGrid::default(),
            mode: Mode::default(),
        }
    }
}

} // verus!
