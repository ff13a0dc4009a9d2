//! The two modes of the editor.

use vstd::prelude::*;

verus! {

/// What the keys mean at the moment.
#[derive(Debug)]
pub enum Mode {
    /// Keys act on the drawing.
    Normal,
    /// A colon was typed; the keys go into the command line held here.
    Command(String),
}

impl Mode {
    /// The text of the command line, in command mode.
    pub open spec fn command_text(&self) -> Option<Seq<char>> {
        match self {
            Mode::Normal => None,
            Mode::Command(text) => Some(text@),
        }
    }

    /// The command line typed so far; `None` in normal mode.
    pub fn as_command(&self) -> (command: Option<&str>)
        ensures
            match command {
                Some(text) => self.command_text() == Some(text@),
                None => self.command_text() is None,
            },
    {
        match self {
            Mode::Normal => None,
            Mode::Command(command) => Some(command.as_str()),
        }
    }

    /// The name under which the status bar shows the mode.
    pub fn label(&self) -> (name: &'static str)
        ensures
            name@ == (if self is Normal {
                "NORMAL"@
            } else {
                "COMMAND"@
            }),
    {
        match self {
            Mode::Normal => "NORMAL",
            Mode::Command(_) => "COMMAND",
        }
    }
}

impl Clone for Mode {
    fn clone(&self) -> (copy: Mode)
        ensures
            copy == *self,
    {
        match self {
            Mode::Normal => Mode::Normal,
            Mode::Command(command) => Mode::Command(command.clone()),
        }
    }
}

impl Default for Mode {
    /// The editor starts in normal mode.
    fn default() -> (mode: Mode)
        ensures
            mode is Normal,
    {
        Mode::Normal
    }
}

} // verus!
