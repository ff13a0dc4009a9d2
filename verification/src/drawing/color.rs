//! Colors, and the arithmetic that shows them on a terminal.
//!
//! A [`Color`] has straight alpha. All arithmetic here is exact integer
//! arithmetic on the eight-bit channels; a quotient is rounded down.

use vstd::prelude::*;

verus! {

/// An sRGB color with straight alpha, eight bits per channel.
/// Alpha 0 is fully transparent, alpha 255 fully opaque.
#[derive(Clone, Copy, Debug, PartialEq, Eq, Structural, Hash)]
pub struct Color {
    pub r: u8,
    pub g: u8,
    pub b: u8,
    pub a: u8,
}

/// An opaque color, as a terminal cell takes it.
#[derive(Clone, Copy, Debug, PartialEq, Eq, Structural, Hash)]
pub struct Rgb {
    pub r: u8,
    pub g: u8,
    pub b: u8,
}

/// One channel of `fg` laid over `bg` with the given alpha:
/// `alpha/255 * fg + (1 - alpha/255) * bg`, rounded down.
pub open spec fn blend_channel(alpha: u8, fg: u8, bg: u8) -> int {
    (alpha * fg + (255 - alpha) * bg) / 255
}

/// `color` laid over the opaque `background`, channel by channel.
pub open spec fn blend_over_rgb(color: Color, background: Rgb) -> Rgb {
    Rgb {
        r: blend_channel(color.a, color.r, background.r) as u8,
        g: blend_channel(color.a, color.g, background.g) as u8,
        b: blend_channel(color.a, color.b, background.b) as u8,
    }
}

/// The perceived lightness of a color, alpha left aside:
/// `0.299 r + 0.587 g + 0.114 b`, rounded down.
pub open spec fn luminance(color: Color) -> int {
    (299 * color.r + 587 * color.g + 114 * color.b) / 1000
}

/// The color in which text stays legible on `color`: black on a light
/// color, white on a dark one.
pub open spec fn contrast_foreground(color: Color) -> Color {
    if luminance(color) > 128 {
        Color { r: 0, g: 0, b: 0, a: 255 }
    } else {
        Color { r: 255, g: 255, b: 255, a: 255 }
    }
}

/// A blended channel lies between its two inputs, so it is a channel again.
pub proof fn lemma_blend_channel_bounds(alpha: u8, fg: u8, bg: u8)
    ensures
        0 <= blend_channel(alpha, fg, bg) <= 255,
        fg <= bg ==> fg <= blend_channel(alpha, fg, bg) <= bg,
        bg <= fg ==> bg <= blend_channel(alpha, fg, bg) <= fg,
{
    let a = alpha as int;
    let f = fg as int;
    let b = bg as int;
    let lo = if f <= b { f } else { b };
    let hi = if f <= b { b } else { f };
    assert(255 * lo <= a * f + (255 - a) * b <= 255 * hi) by (nonlinear_arith)
        requires
            0 <= a <= 255,
            lo <= f <= hi,
            lo <= b <= hi,
    ;
}

/// An opaque color hides what it lies over, and a fully transparent one
/// shows it unchanged.
pub proof fn lemma_blend_opaque_and_transparent(color: Color, background: Rgb)
    ensures
        color.a == 255 ==> blend_over_rgb(color, background) == (Rgb {
            r: color.r,
            g: color.g,
            b: color.b,
        }),
        color.a == 0 ==> blend_over_rgb(color, background) == background,
{
}

/// The luminance of a color is a channel value.
pub proof fn lemma_luminance_bounds(color: Color)
    ensures
        0 <= luminance(color) <= 255,
{
}

impl Color {
    /// The color with the given channels.
    pub fn from_rgba8(r: u8, g: u8, b: u8, a: u8) -> (color: Color)
        ensures
            color == (Color { r, g, b, a }),
    {
        Color { r, g, b, a }
    }

    /// The four channels: red, green, blue, alpha.
    pub fn to_rgba8(&self) -> (channels: [u8; 4])
        ensures
            channels@ == seq![self.r, self.g, self.b, self.a],
    {
        [self.r, self.g, self.b, self.a]
    }

    /// The color without its alpha.
    pub fn rgb(&self) -> (out: Rgb)
        ensures
            out == (Rgb { r: self.r, g: self.g, b: self.b }),
    {
        Rgb { r: self.r, g: self.g, b: self.b }
    }

    /// Whether the color shows nothing of itself.
    pub fn is_transparent(&self) -> (yes: bool)
        ensures
            yes == (self.a == 0),
    {
        self.a == 0
    }
}

/// The fully transparent color that an empty pixel holds.
pub open spec fn transparent() -> Color {
    Color { r: 0, g: 0, b: 0, a: 0 }
}

fn blend(alpha: u8, fg: u8, bg: u8) -> (out: u8)
    ensures
        out == blend_channel(alpha, fg, bg),
{
    proof {
        lemma_blend_channel_bounds(alpha, fg, bg);
    }
    let a: u32 = alpha as u32;
    let rest: u32 = 255 - a;
    assert(a * (fg as u32) <= 255 * 255) by (nonlinear_arith)
        requires
            a <= 255,
            fg <= 255,
    ;
    assert(rest * (bg as u32) <= 255 * 255) by (nonlinear_arith)
        requires
            rest <= 255,
            bg <= 255,
    ;
    let sum: u32 = a * (fg as u32) + rest * (bg as u32);
    (sum / 255) as u8
}

/// What the editor asks of a color.
pub trait ColorExt {
    /// The color that `self` stands for.
    spec fn rgba(&self) -> Color;

    /// The opaque color that shows when `self` lies over `background`.
    fn to_ratatui(&self, background: Rgb) -> (out: Rgb)
        ensures
            out == blend_over_rgb(self.rgba(), background),
    ;

    /// The luminance, from 0 (black) to 255 (white).
    fn grayscale(&self) -> (gray: u8)
        ensures
            gray == luminance(self.rgba()),
    ;

    /// Black or white, whichever stays legible on `self` as a background.
    fn calculate_fg(&self) -> (fg: Color)
        ensures
            fg == contrast_foreground(self.rgba()),
    ;
}

impl ColorExt for Color {
    open spec fn rgba(&self) -> Color {
        *self
    }

    fn to_ratatui(&self, background: Rgb) -> (out: Rgb) {
        Rgb {
            r: blend(self.a, self.r, background.r),
            g: blend(self.a, self.g, background.g),
            b: blend(self.a, self.b, background.b),
        }
    }

    fn grayscale(&self) -> (gray: u8) {
        let sum: u32 = 299 * (self.r as u32) + 587 * (self.g as u32) + 114 * (self.b as u32);
        (sum / 1000) as u8
    }

    fn calculate_fg(&self) -> (fg: Color) {
        if self.grayscale() > 128 {
            Color::from_rgba8(0, 0, 0, 255)
        } else {
            Color::from_rgba8(255, 255, 255, 255)
        }
    }
}

} // verus!
