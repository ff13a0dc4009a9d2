//! The status bar: the mode, the current color, and the colors of the
//! history, newest first, each under the number that recalls it.

use vstd::prelude::*;

use crate::config::mode::Mode;
use crate::config::Config;
use crate::config::HISTORY_LIMIT;
use crate::drawing::color::blend_over_rgb;
use crate::drawing::color::contrast_foreground;
use crate::drawing::color::Color;
use crate::drawing::color::ColorExt;
use crate::drawing::color::Rgb;
use crate::drawing::css::css_hex;
use crate::drawing::css::to_css_hex;
use crate::text::char_to_string;

verus! {

/// A stretch of text in one style.
pub struct Span {
    pub text: String,
    /// The color of the text; `None` leaves the bar's own.
    pub fg: Option<Rgb>,
    /// The color behind the text; `None` leaves the bar's own.
    pub bg: Option<Rgb>,
    pub bold: bool,
}

/// A span as the contracts see it.
pub struct SpanView {
    pub text: Seq<char>,
    pub fg: Option<Rgb>,
    pub bg: Option<Rgb>,
    pub bold: bool,
}

impl View for Span {
    type V = SpanView;

    open spec fn view(&self) -> SpanView {
        SpanView { text: self.text@, fg: self.fg, bg: self.bg, bold: self.bold }
    }
}

/// Black, over which the swatches of the bar are laid.
pub open spec fn black() -> Rgb {
    Rgb { r: 0, g: 0, b: 0 }
}

/// The superscript digit that numbers the `idx`-th color of the history;
/// the tenth is numbered 0.
pub open spec fn superscript(idx: int) -> char {
    if idx == 1 {
        '\u{b9}'
    } else if idx == 2 {
        '\u{b2}'
    } else if idx == 3 {
        '\u{b3}'
    } else if idx == 4 {
        '\u{2074}'
    } else if idx == 5 {
        '\u{2075}'
    } else if idx == 6 {
        '\u{2076}'
    } else if idx == 7 {
        '\u{2077}'
    } else if idx == 8 {
        '\u{2078}'
    } else if idx == 9 {
        '\u{2079}'
    } else {
        '\u{2070}'
    }
}

/// A swatch: `text` in bold on `color`, in black or white, whichever
/// stays legible.
pub open spec fn swatch(text: Seq<char>, color: Color) -> SpanView {
    SpanView {
        text,
        fg: Some(blend_over_rgb(contrast_foreground(color), black())),
        bg: Some(blend_over_rgb(color, black())),
        bold: true,
    }
}

/// Text in the bar's own colors.
pub open spec fn plain(text: Seq<char>, bold: bool) -> SpanView {
    SpanView { text, fg: None, bg: None, bold }
}

/// The name under which the bar shows a mode.
pub open spec fn mode_name(mode: Mode) -> Seq<char> {
    if mode is Normal {
        "NORMAL"@
    } else {
        "COMMAND"@
    }
}

/// The spans of the bar: a blank, the mode in bold, a blank, the current
/// color as a swatch that names it in hexadecimal, and a swatch for each
/// color of the history, newest first, numbered from 1.
pub open spec fn status_spans(config: Config) -> Seq<SpanView> {
    let history = config.color_history@;
    seq![
        plain(" "@, false),
        plain(mode_name(config.mode), true),
        plain(" "@, false),
        swatch(" "@ + css_hex(config.color) + " "@, config.color),
    ] + Seq::new(
        history.len(),
        |i: int| swatch(seq![superscript(i + 1)], history[history.len() - 1 - i]),
    )
}

/// The superscript digit for `idx`, from 1 to 10; the tenth is numbered 0.
pub fn to_superscript(idx: usize) -> (digit: char)
    requires
        1 <= idx <= 10,
    ensures
        digit == superscript(idx as int),
{
    if idx == 1 {
        '\u{b9}'
    } else if idx == 2 {
        '\u{b2}'
    } else if idx == 3 {
        '\u{b3}'
    } else if idx == 4 {
        '\u{2074}'
    } else if idx == 5 {
        '\u{2075}'
    } else if idx == 6 {
        '\u{2076}'
    } else if idx == 7 {
        '\u{2077}'
    } else if idx == 8 {
        '\u{2078}'
    } else if idx == 9 {
        '\u{2079}'
    } else {
        '\u{2070}'
    }
}

fn swatch_of(text: String, color: Color) -> (span: Span)
    ensures
        span@ == swatch(text@, color),
{
    let behind = Rgb { r: 0, g: 0, b: 0 };
    Span {
        text,
        fg: Some(color.calculate_fg().to_ratatui(behind)),
        bg: Some(color.to_ratatui(behind)),
        bold: true,
    }
}

fn plain_of(text: &str, bold: bool) -> (span: Span)
    ensures
        span@ == plain(text@, bold),
{
    Span { text: String::from_str(text), fg: None, bg: None, bold }
}

/// The bar, to be shown.
pub struct StatusBar<'a> {
    pub config: &'a Config,
}

impl<'a> StatusBar<'a> {
    /// The bar that shows the state of `setting`.
    pub fn new(setting: &'a Config) -> (bar: StatusBar<'a>)
        ensures
            bar.config == setting,
    {
        StatusBar { config: setting }
    }

    /// The spans of the bar, from left to right.
    pub fn spans(&self) -> (spans: Vec<Span>)
        requires
            self.config.color_history@.len() <= HISTORY_LIMIT,
        ensures
            spans@.len() == status_spans(*self.config).len(),
            forall|i: int| 0 <= i < spans@.len() ==> (#[trigger] spans@[i])@ == status_spans(*self.config)[i],
    {
        let config = self.config;
        let mut label = String::from_str(" ");
        let hex = to_css_hex(config.color);
        label.append(hex.as_str());
        label.append(" ");
        let mut spans: Vec<Span> = Vec::new();
        spans.push(plain_of(" ", false));
        spans.push(plain_of(config.mode.label(), true));
        spans.push(plain_of(" ", false));
        spans.push(swatch_of(label, config.color));
        let len = config.color_history.len();
        let mut i: usize = 0;
        while i < len
            invariant
                i <= len,
                len == config.color_history@.len(),
                len <= HISTORY_LIMIT,
                config == self.config,
                spans@.len() == 4 + i,
                forall|k: int| 0 <= k < 4 + i ==> (#[trigger] spans@[k])@ == status_spans(*config)[k],
            decreases len - i,
        {
            let color = config.color_history[len - 1 - i];
            let digit = char_to_string(to_superscript(i + 1));
            spans.push(swatch_of(digit, color));
            i += 1;
        }
        spans
    }
}

} // verus!
