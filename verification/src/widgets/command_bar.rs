//! The command bar: the last line of the screen. It shows the command
//! line while one is typed, and a message otherwise.

use vstd::prelude::*;

use super::buffer::display_width;
use super::buffer::str_width;
use crate::config::mode::Mode;
use crate::config::Config;
use crate::layout::Rect;

verus! {

/// The text that the bar shows: the command line after a colon, or the
/// message between dashes; nothing in normal mode without a message.
pub open spec fn bar_text(mode: Mode, message: Option<Seq<char>>) -> Option<Seq<char>> {
    match mode {
        Mode::Command(command) => Some(":"@ + command@),
        Mode::Normal => match message {
            Some(message) => Some("-- "@ + message + " --"@),
            None => None,
        },
    }
}

/// The column of the cursor behind a command line: one for the colon, and
/// the columns that the text takes; held to `u16`.
pub open spec fn cursor_column(command: Seq<char>) -> u16 {
    if 1 + display_width(command) > u16::MAX {
        u16::MAX
    } else {
        (1 + display_width(command)) as u16
    }
}

/// Where the cursor goes when the bar is at `area`: behind the command
/// line, in command mode.
pub open spec fn bar_cursor(mode: Mode, area: Rect) -> Option<(u16, u16)> {
    match mode {
        Mode::Command(command) => Some((cursor_column(command@), area.y)),
        Mode::Normal => None,
    }
}

/// The bar, to be shown.
pub struct CommandBar<'a> {
    pub config: &'a Config,
    pub message: Option<&'a str>,
}

impl<'a> CommandBar<'a> {
    /// The bar for the mode of `config`, with the message to show in
    /// normal mode, if there is one.
    pub fn new(config: &'a Config, message: Option<&'a str>) -> (bar: CommandBar<'a>)
        ensures
            bar.config == config,
            bar.message == message,
    {
        CommandBar { config, message }
    }

    /// The message as the contracts see it.
    pub open spec fn message_text(&self) -> Option<Seq<char>> {
        match self.message {
            Some(message) => Some(message@),
            None => None,
        }
    }

    /// The text that the bar shows, if any.
    pub fn line(&self) -> (line: Option<String>)
        ensures
            match line {
                Some(text) => bar_text(self.config.mode, self.message_text()) == Some(text@),
                None => bar_text(self.config.mode, self.message_text()) is None,
            },
    {
        match &self.config.mode {
            Mode::Normal => match self.message {
                Some(message) => {
                    let mut text = String::from_str("-- ");
                    text.append(message);
                    text.append(" --");
                    Some(text)
                },
                None => None,
            },
            Mode::Command(command) => {
                let mut text = String::from_str(":");
                text.append(command.as_str());
                Some(text)
            },
        }
    }

    /// Where the cursor goes when the bar is at `area`; `None` in normal
    /// mode, which shows no cursor.
    pub fn cursor(&self, area: Rect) -> (position: Option<(u16, u16)>)
        ensures
            position == bar_cursor(self.config.mode, area),
    {
        match &self.config.mode {
            Mode::Normal => None,
            Mode::Command(command) => {
                let width = str_width(command.as_str());
                let column: u16 = if width >= u16::MAX as usize {
                    u16::MAX
                } else {
                    1 + width as u16
                };
                Some((column, area.y))
            },
        }
    }
}

} // verus!
