//! What the terminal reports: keys and the mouse.

use vstd::prelude::*;

use crate::drawing::color::transparent;
use crate::drawing::color::Color;

verus! {

/// A key, as far as the editor tells keys apart.
#[derive(Clone, Copy, Debug, PartialEq, Eq, Structural)]
pub enum KeyCode {
    Backspace,
    Enter,
    Esc,
    /// A key that types a character.
    Char(char),
    /// Any other key.
    Other,
}

/// A key was pressed.
#[derive(Clone, Copy, Debug, PartialEq, Eq, Structural)]
pub struct KeyEvent {
    pub code: KeyCode,
}

/// A button of the mouse.
#[derive(Clone, Copy, Debug, PartialEq, Eq, Structural)]
pub enum MouseButton {
    Left,
    Right,
    Middle,
}

/// What the mouse did.
#[derive(Clone, Copy, Debug, PartialEq, Eq, Structural)]
pub enum MouseEventKind {
    /// A button went down.
    Down(MouseButton),
    /// A button went up.
    Up(MouseButton),
    /// The mouse moved with a button held.
    Drag(MouseButton),
    /// The mouse moved with no button held.
    Moved,
    ScrollDown,
    ScrollUp,
    ScrollLeft,
    ScrollRight,
}

/// The mouse did something at `(column, row)`, which the terminal reports
/// in hardware pixels.
#[derive(Clone, Copy, Debug, PartialEq, Eq, Structural)]
pub struct MouseEvent {
    pub kind: MouseEventKind,
    pub column: u16,
    pub row: u16,
}

/// The color that a mouse event paints with: the current color with the
/// left button, transparency with the right one, pressed or dragged;
/// `None` where the event paints nothing.
pub open spec fn paint_of(kind: MouseEventKind, current: Color) -> Option<Color> {
    match kind {
        MouseEventKind::Down(button) | MouseEventKind::Drag(button) => match button {
            MouseButton::Left => Some(current),
            MouseButton::Right => Some(transparent()),
            MouseButton::Middle => None,
        },
        _ => None,
    }
}

impl MouseEventKind {
    /// The color that the event paints with, `current` being the current
    /// color; `None` where it paints nothing.
    pub fn paint(&self, current: Color) -> (color: Option<Color>)
        ensures
            color == paint_of(*self, current),
    {
        match self {
            MouseEventKind::Down(button) | MouseEventKind::Drag(button) => match button {
                MouseButton::Left => Some(current),
                MouseButton::Right => Some(Color::from_rgba8(0, 0, 0, 0)),
                MouseButton::Middle => None,
            },
            _ => None,
        }
    }
}

} // verus!
