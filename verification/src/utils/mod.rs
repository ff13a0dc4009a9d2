//! Small things that the editor needs of the terminal.

pub mod mouse;
